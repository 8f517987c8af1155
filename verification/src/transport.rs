//! Classification of a GET response's HTTP status into the small result
//! model of the client: found, not found, or a transport error.

use vstd::prelude::*;

verus! {

/// The outcome of a GET, classified from the HTTP status code alone.
#[derive(Clone, Copy, Debug, PartialEq, Eq, Structural)]
pub enum GetClassification {
    /// Status 200: the object exists and the response body is its content.
    Found,
    /// Status 404: the object does not exist. A first-class outcome of a
    /// read, not an error.
    NotFound,
    /// Any other status: a transport-level error.
    TransportError,
}

/// How a status code is classified: 200 is Found, 404 is NotFound, and every
/// other code is a transport error.
pub open spec fn classified_status(status: u16) -> GetClassification {
    if status == 200 {
        GetClassification::Found
    } else if status == 404 {
        GetClassification::NotFound
    } else {
        GetClassification::TransportError
    }
}

/// Law: a 404 response is NotFound, a 200 response is Found, and every other
/// status code is a transport error.
pub fn classify_get_status(status: u16) -> (r: GetClassification)
    ensures
        r == classified_status(status),
{
    if status == 404 {
        GetClassification::NotFound
    } else if status == 200 {
        GetClassification::Found
    } else {
        GetClassification::TransportError
    }
}

} // verus!
