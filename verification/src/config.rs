//! Construction of a client from configuration data: JSON credential
//! documents and `~/`-prefixed path expansion.

use vstd::prelude::*;
use vstd::string::StrSliceExecFns;
use crate::OSSClient;

verus! {

/// A failure to build a client from configuration data.
#[derive(Clone, Copy, Debug, PartialEq, Eq, Structural)]
pub enum ConfigError {
    /// The text could not be parsed, or was not a JSON object.
    MalformedJson,
    /// A required credential field was absent, not a string, or empty.
    MissingOrEmptyField,
}

/// Whether a text is well-formed JSON whose top-level value is an object:
/// what json's parser decides, a function of the text alone.
pub uninterp spec fn json_text_is_object(text: Seq<char>) -> bool;

/// The string value of the named top-level member of the JSON text: `Some`
/// exactly when the text parses to an object whose named member is a string.
/// A function of the text and the name alone.
pub uninterp spec fn json_string_member(text: Seq<char>, name: Seq<char>) -> Option<Seq<char>>;

/// Relies on json::parse and json::JsonValue::is_object: whether the text
/// parses to a JSON object.
#[verifier::external_body]
pub(crate) fn json_parses_to_object(text: &str) -> (r: bool)
    ensures
        r == json_text_is_object(text@),
{
    match json::parse(text) {
        Ok(value) => value.is_object(),
        Err(_) => false,
    }
}

/// Relies on json::parse, json's `Index<&str>` impl for JsonValue, and
/// JsonValue::as_str: the named top-level member when the text parses to an
/// object holding that member as a string, `None` otherwise (the index
/// yields JSON null for a missing member or a non-object).
#[verifier::external_body]
pub(crate) fn json_string_member_of(text: &str, name: &str) -> (r: Option<String>)
    ensures
        r matches Some(s) ==> json_string_member(text@, name@) == Some(s@),
        r is None ==> json_string_member(text@, name@) is None,
{
    match json::parse(text) {
        Ok(value) => value[name].as_str().map(|s| s.to_string()),
        Err(_) => None,
    }
}

/// True when the JSON text's named top-level member is a non-empty string.
pub open spec fn string_member_present(text: Seq<char>, name: Seq<char>) -> bool {
    json_string_member(text, name) matches Some(s) && s.len() > 0
}

/// True when a credential field was found as a non-empty string.
pub open spec fn present_field(field: Option<String>) -> bool {
    field matches Some(s) && s@.len() > 0
}

/// Builds a client from the three credential fields of a configuration
/// document, each `None` where the document had no such string member.
/// Construction succeeds exactly when every field is present and non-empty,
/// and the client then carries the three fields unchanged.
pub fn credentials_from_fields(
    endpoint: Option<String>,
    access_key_id: Option<String>,
    access_key_secret: Option<String>,
) -> (r: Result<OSSClient, ConfigError>)
    ensures
        r is Ok <==> present_field(endpoint) && present_field(access_key_id) && present_field(
            access_key_secret,
        ),
        r matches Ok(c) ==> c.endpoint@ == endpoint->0@ && c.access_key_id@ == access_key_id->0@
            && c.access_key_secret@ == access_key_secret->0@,
        r matches Err(e) ==> e == ConfigError::MissingOrEmptyField,
{
    match (endpoint, access_key_id, access_key_secret) {
        (Some(ep), Some(id), Some(sec)) => {
            if ep.as_str().is_empty() || id.as_str().is_empty() || sec.as_str().is_empty() {
                Err(ConfigError::MissingOrEmptyField)
            } else {
                Ok(OSSClient { endpoint: ep, access_key_id: id, access_key_secret: sec })
            }
        },
        _ => Err(ConfigError::MissingOrEmptyField),
    }
}

/// The path with a leading `~/` replaced by `<home>/`; any other path is
/// left as it is.
pub open spec fn expanded_path(path: Seq<char>, home: Seq<char>) -> Seq<char> {
    if path.len() >= 2 && path[0] == '~' && path[1] == '/' {
        home + "/"@ + path.skip(2)
    } else {
        path
    }
}

/// Law: a path that begins with `~/` resolves to `<home>/<rest-of-path>`;
/// every other path is returned unchanged.
pub fn expand_home_path(path: &str, home: &str) -> (r: String)
    ensures
        r@ == expanded_path(path@, home@),
{
    let n = path.unicode_len();
    if n >= 2 && path.get_char(0) == '~' && path.get_char(1) == '/' {
        let rest = path.substring_char(2, n);
        let mut expanded = home.to_owned();
        expanded.append("/");
        expanded.append(rest);
        proof {
            assert(expanded@ =~= expanded_path(path@, home@));
        }
        expanded
    } else {
        path.to_owned()
    }
}

} // verus!
