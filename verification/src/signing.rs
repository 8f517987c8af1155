//! The request-signing algorithm: the canonical string that authorizes one
//! operation, and its keyed digest.

use vstd::prelude::*;
use vstd::utf8::encode_utf8;
use crate::encoding::{base64_std_of, base64_encode, dec_chars, percent_encoded, u64_to_dec_string};

verus! {

/// What the HMAC-SHA1 primitive returns for a key and a message: a 20-byte
/// keyed digest, a function of the two byte sequences alone.
pub uninterp spec fn hmac_sha1_of(key: Seq<u8>, message: Seq<u8>) -> Seq<u8>;

/// Relies on crypto's Hmac over Sha1: the 160-bit keyed digest of the message
/// under the key, depending on the two byte sequences alone.
#[verifier::external_body]
pub(crate) fn calc_hmac_sha1(key: &[u8], message: &[u8]) -> (r: Vec<u8>)
    ensures
        r@ == hmac_sha1_of(key@, message@),
        r@.len() == 20,
{
    let mut hmac = crypto::hmac::Hmac::new(crypto::sha1::Sha1::new(), key);
    crypto::mac::Mac::input(&mut hmac, message);
    crypto::mac::Mac::result(&mut hmac).code().to_vec()
}

/// The canonical string for one operation:
/// `<VERB>\n\n\n<expiry-epoch-seconds>\n/<bucket>/<key>`.
/// The two empty middle lines are reserved for the Content-MD5 and
/// Content-Type headers, which are never set here.
pub open spec fn canonical_chars(
    verb: Seq<char>,
    expire_secs: u64,
    bucket: Seq<char>,
    key: Seq<char>,
) -> Seq<char> {
    verb + "\n\n\n"@ + dec_chars(expire_secs as nat) + "\n/"@ + bucket + "/"@ + key
}

/// The signature for a secret and a canonical string: the base64 rendering of
/// the HMAC-SHA1 digest of the canonical string's bytes under the secret's
/// bytes.
pub open spec fn signature_chars(secret: Seq<char>, to_sign: Seq<char>) -> Seq<char> {
    base64_std_of(hmac_sha1_of(encode_utf8(secret), encode_utf8(to_sign)))
}

/// Builds the canonical string that is signed for one operation.
pub fn get_to_be_signed(verb: &str, expire_secs: u64, bucket_name: &str, key: &str) -> (r: String)
    ensures
        r@ == canonical_chars(verb@, expire_secs, bucket_name@, key@),
{
    let mut to_be_signed = String::new();
    to_be_signed.append(verb);
    to_be_signed.append("\n\n\n");
    let expiry = u64_to_dec_string(expire_secs);
    to_be_signed.append(expiry.as_str());
    to_be_signed.append("\n/");
    to_be_signed.append(bucket_name);
    to_be_signed.append("/");
    to_be_signed.append(key);
    proof {
        assert(to_be_signed@ =~= canonical_chars(verb@, expire_secs, bucket_name@, key@));
    }
    to_be_signed
}

/// Computes the signature of a canonical string under a secret key. The
/// 20-byte digest always becomes 28 characters of padded base64.
pub fn sign_canonical(secret: &str, to_sign: &str) -> (r: String)
    ensures
        r@ == signature_chars(secret@, to_sign@),
        r@.len() == 28,
{
    let mac = calc_hmac_sha1(secret.as_bytes(), to_sign.as_bytes());
    base64_encode(mac.as_slice())
}

/// The absolute expiry for a window opening now: `now + expire_in_seconds`
/// epoch seconds, saturated at the largest representable second.
pub open spec fn saturated_expiry(now: u64, expire_in_seconds: u64) -> u64 {
    if now + expire_in_seconds <= u64::MAX {
        (now + expire_in_seconds) as u64
    } else {
        u64::MAX
    }
}

/// The scheme prefix of the generated URL.
pub open spec fn scheme_chars(is_https: bool) -> Seq<char> {
    if is_https {
        "https://"@
    } else {
        "http://"@
    }
}

/// The signed URL for one operation:
/// `<scheme>://<bucket>.<endpoint>/<key>?Expires=<expiry>&OSSAccessKeyId=<id>&Signature=<sig>`,
/// where the access key id and the base64 signature are percent-encoded and
/// the bucket, endpoint and key are inserted verbatim.
pub open spec fn signed_url_chars(
    endpoint: Seq<char>,
    access_key_id: Seq<char>,
    access_key_secret: Seq<char>,
    verb: Seq<char>,
    bucket: Seq<char>,
    key: Seq<char>,
    expire_secs: u64,
    is_https: bool,
) -> Seq<char> {
    scheme_chars(is_https) + bucket + "."@ + endpoint + "/"@ + key + "?Expires="@ + dec_chars(
        expire_secs as nat,
    ) + "&OSSAccessKeyId="@ + percent_encoded(encode_utf8(access_key_id)) + "&Signature="@
        + percent_encoded(
        encode_utf8(signature_chars(access_key_secret, canonical_chars(verb, expire_secs, bucket, key))),
    )
}

/// Law: signing is deterministic. Two operations that agree on the secret,
/// verb, bucket, key and expiry always receive the same signature — the
/// signature is a function of those five values and of nothing else.
pub proof fn lemma_signing_deterministic(
    secret1: Seq<char>,
    verb1: Seq<char>,
    bucket1: Seq<char>,
    key1: Seq<char>,
    expire1: u64,
    secret2: Seq<char>,
    verb2: Seq<char>,
    bucket2: Seq<char>,
    key2: Seq<char>,
    expire2: u64,
)
    requires
        secret1 == secret2,
        verb1 == verb2,
        bucket1 == bucket2,
        key1 == key2,
        expire1 == expire2,
    ensures
        signature_chars(secret1, canonical_chars(verb1, expire1, bucket1, key1))
            == signature_chars(secret2, canonical_chars(verb2, expire2, bucket2, key2)),
{
}

} // verus!
