//! Client library for an object-storage service that authorizes single-object
//! operations through pre-signed, time-bounded URLs.
//!
//! The core is the signing algorithm: a canonical string is built from the
//! request verb, expiry and resource path, a keyed digest of it is base64
//! encoded, and the result is placed, percent-encoded, in the query string of
//! the generated URL.

use vstd::prelude::*;

pub mod config;
pub mod encoding;
pub mod signing;
pub mod transport;

use crate::config::ConfigError;
use crate::signing::{saturated_expiry, signed_url_chars};

verus! {

/// A client for the object-storage service: the credential holder, and the
/// signer of per-operation URLs. Credentials are owned and immutable once
/// constructed.
#[derive(Clone, Debug)]
pub struct OSSClient {
    /// The service endpoint; the bucket becomes a subdomain of it.
    pub endpoint: String,
    /// The public identifier of the credential pair.
    pub access_key_id: String,
    /// The secret of the credential pair; it reaches the output only through
    /// the signature.
    pub access_key_secret: String,
}

/// Relies on rust_util's get_current_secs: the wall-clock seconds since the
/// Unix epoch. Nothing is assumed of the value, which depends on the clock.
#[verifier::external_body]
fn current_epoch_secs() -> u64 {
    rust_util::util_time::get_current_secs()
}

impl OSSClient {
    /// A client is well-formed when no credential field is empty.
    pub open spec fn wf(&self) -> bool {
        self.endpoint@.len() > 0 && self.access_key_id@.len() > 0
            && self.access_key_secret@.len() > 0
    }

    /// Builds a client directly from the three credential fields, which are
    /// taken as they are.
    pub fn new(endpoint: &str, access_key_id: &str, access_key_secret: &str) -> (r: OSSClient)
        ensures
            r.endpoint@ == endpoint@,
            r.access_key_id@ == access_key_id@,
            r.access_key_secret@ == access_key_secret@,
    {
        OSSClient {
            endpoint: endpoint.to_owned(),
            access_key_id: access_key_id.to_owned(),
            access_key_secret: access_key_secret.to_owned(),
        }
    }

    /// Builds a client from a JSON document of the form
    /// `{"endpoint": ..., "accessKeyId": ..., "accessKeySecret": ...}`.
    /// Construction succeeds exactly when the text is a JSON object whose
    /// three required members are non-empty strings, and the client then
    /// carries those members verbatim; a text that is no JSON object fails
    /// as malformed, one with a missing, non-string or empty member fails
    /// on that field.
    pub fn from_json(json_text: &str) -> (r: Result<OSSClient, ConfigError>)
        ensures
            r is Ok <==> config::json_text_is_object(json_text@)
                && config::string_member_present(json_text@, "endpoint"@)
                && config::string_member_present(json_text@, "accessKeyId"@)
                && config::string_member_present(json_text@, "accessKeySecret"@),
            r matches Ok(c) ==> {
                &&& config::json_string_member(json_text@, "endpoint"@) == Some(c.endpoint@)
                &&& config::json_string_member(json_text@, "accessKeyId"@) == Some(
                    c.access_key_id@,
                )
                &&& config::json_string_member(json_text@, "accessKeySecret"@) == Some(
                    c.access_key_secret@,
                )
                &&& c.wf()
            },
            r matches Err(e) ==> (e == ConfigError::MalformedJson <==> !config::json_text_is_object(
                json_text@,
            )),
    {
        if !config::json_parses_to_object(json_text) {
            return Err(ConfigError::MalformedJson);
        }
        let endpoint = config::json_string_member_of(json_text, "endpoint");
        let access_key_id = config::json_string_member_of(json_text, "accessKeyId");
        let access_key_secret = config::json_string_member_of(json_text, "accessKeySecret");
        proof {
            assert(config::present_field(endpoint) <==> config::string_member_present(
                json_text@,
                "endpoint"@,
            ));
            assert(config::present_field(access_key_id) <==> config::string_member_present(
                json_text@,
                "accessKeyId"@,
            ));
            assert(config::present_field(access_key_secret) <==> config::string_member_present(
                json_text@,
                "accessKeySecret"@,
            ));
        }
        config::credentials_from_fields(endpoint, access_key_id, access_key_secret)
    }

    /// A signed HTTPS URL for uploading one object, expiring the given number
    /// of seconds from now.
    pub fn generate_signed_put_url(
        &self,
        bucket_name: &str,
        key: &str,
        expire_in_seconds: u64,
    ) -> (r: String)
        ensures
            exists|now: u64|
                r@ == signed_url_chars(
                    self.endpoint@,
                    self.access_key_id@,
                    self.access_key_secret@,
                    "PUT"@,
                    bucket_name@,
                    key@,
                    saturated_expiry(now, expire_in_seconds),
                    true,
                ),
    {
        self.generate_signed_url("PUT", bucket_name, key, expire_in_seconds, true)
    }

    /// A signed HTTPS URL for reading one object, expiring the given number
    /// of seconds from now.
    pub fn generate_signed_get_url(
        &self,
        bucket_name: &str,
        key: &str,
        expire_in_seconds: u64,
    ) -> (r: String)
        ensures
            exists|now: u64|
                r@ == signed_url_chars(
                    self.endpoint@,
                    self.access_key_id@,
                    self.access_key_secret@,
                    "GET"@,
                    bucket_name@,
                    key@,
                    saturated_expiry(now, expire_in_seconds),
                    true,
                ),
    {
        self.generate_signed_url("GET", bucket_name, key, expire_in_seconds, true)
    }

    /// A signed HTTPS URL for deleting one object, expiring the given number
    /// of seconds from now.
    pub fn generate_signed_delete_url(
        &self,
        bucket_name: &str,
        key: &str,
        expire_in_seconds: u64,
    ) -> (r: String)
        ensures
            exists|now: u64|
                r@ == signed_url_chars(
                    self.endpoint@,
                    self.access_key_id@,
                    self.access_key_secret@,
                    "DELETE"@,
                    bucket_name@,
                    key@,
                    saturated_expiry(now, expire_in_seconds),
                    true,
                ),
    {
        self.generate_signed_url("DELETE", bucket_name, key, expire_in_seconds, true)
    }

    /// A signed URL whose expiry is the clock reading plus
    /// `expire_in_seconds`, saturated at the largest representable epoch
    /// second. Apart from the clock reading, the URL is exactly the one that
    /// `generate_signed_url_at` derives for that expiry.
    pub fn generate_signed_url(
        &self,
        verb: &str,
        bucket_name: &str,
        key: &str,
        expire_in_seconds: u64,
        is_https: bool,
    ) -> (r: String)
        ensures
            exists|now: u64|
                r@ == signed_url_chars(
                    self.endpoint@,
                    self.access_key_id@,
                    self.access_key_secret@,
                    verb@,
                    bucket_name@,
                    key@,
                    saturated_expiry(now, expire_in_seconds),
                    is_https,
                ),
    {
        let current_secs = current_epoch_secs();
        let expire_secs = match current_secs.checked_add(expire_in_seconds) {
            Some(t) => t,
            None => u64::MAX,
        };
        let r = self.generate_signed_url_at(verb, bucket_name, key, expire_secs, is_https);
        proof {
            assert(expire_secs == saturated_expiry(current_secs, expire_in_seconds));
            assert(r@ == signed_url_chars(
                self.endpoint@,
                self.access_key_id@,
                self.access_key_secret@,
                verb@,
                bucket_name@,
                key@,
                saturated_expiry(current_secs, expire_in_seconds),
                is_https,
            ));
        }
        r
    }

    /// Derives the signed URL for an operation that expires at the given
    /// absolute epoch second: a pure function of the credentials and of the
    /// operation descriptor, stated exactly by `signed_url_chars`.
    pub fn generate_signed_url_at(
        &self,
        verb: &str,
        bucket_name: &str,
        key: &str,
        expire_secs: u64,
        is_https: bool,
    ) -> (r: String)
        ensures
            r@ == signed_url_chars(
                self.endpoint@,
                self.access_key_id@,
                self.access_key_secret@,
                verb@,
                bucket_name@,
                key@,
                expire_secs,
                is_https,
            ),
    {
        let mut signed_url = String::new();
        if is_https {
            signed_url.append("https://");
        } else {
            signed_url.append("http://");
        }
        signed_url.append(bucket_name);
        signed_url.append(".");
        signed_url.append(self.endpoint.as_str());
        signed_url.append("/");
        signed_url.append(key);
        signed_url.append("?Expires=");
        let expiry = encoding::u64_to_dec_string(expire_secs);
        signed_url.append(expiry.as_str());
        signed_url.append("&OSSAccessKeyId=");
        let encoded_id = encoding::url_encode(self.access_key_id.as_str());
        signed_url.append(encoded_id.as_str());
        signed_url.append("&Signature=");
        let to_be_signed = signing::get_to_be_signed(verb, expire_secs, bucket_name, key);
        let signature = signing::sign_canonical(
            self.access_key_secret.as_str(),
            to_be_signed.as_str(),
        );
        let encoded_signature = encoding::url_encode(signature.as_str());
        signed_url.append(encoded_signature.as_str());
        proof {
            assert(signed_url@ =~= signed_url_chars(
                self.endpoint@,
                self.access_key_id@,
                self.access_key_secret@,
                verb@,
                bucket_name@,
                key@,
                expire_secs,
                is_https,
            ));
        }
        signed_url
    }
}

} // verus!
