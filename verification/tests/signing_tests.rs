use hmac::Mac;
use oss_client::encoding::u64_to_dec_string;
use oss_client::signing::{get_to_be_signed, sign_canonical};
use oss_client::OSSClient;

/// The reference signature: HMAC-SHA1 + base64 computed with an independent
/// implementation of the primitives.
fn reference_signature(secret: &str, to_sign: &str) -> String {
    let mut mac = hmac::Hmac::<sha1::Sha1>::new_from_slice(secret.as_bytes()).unwrap();
    mac.update(to_sign.as_bytes());
    base64::encode(mac.finalize().into_bytes())
}

#[test]
fn canonical_string_exact() {
    let canonical = get_to_be_signed("PUT", 1700000000, "mybucket", "path/to/obj.txt");
    assert_eq!(canonical, "PUT\n\n\n1700000000\n/mybucket/path/to/obj.txt");
}

#[test]
fn canonical_string_empty_key() {
    let canonical = get_to_be_signed("GET", 5, "b", "");
    assert_eq!(canonical, "GET\n\n\n5\n/b/");
}

#[test]
fn known_vector_signature() {
    let canonical = get_to_be_signed("PUT", 1700000000, "mybucket", "path/to/obj.txt");
    let signature = sign_canonical("testsecret", &canonical);
    assert_eq!(signature, reference_signature("testsecret", &canonical));
}

#[test]
fn signature_differs_from_input() {
    // The digest and base64 stages really transform their input: the
    // signature is not the canonical string, the secret, or empty.
    let canonical = get_to_be_signed("GET", 60, "b", "k");
    let signature = sign_canonical("testsecret", &canonical);
    assert_ne!(signature, canonical);
    assert_ne!(signature, "testsecret");
    // A 20-byte digest always becomes 28 characters of padded base64.
    assert_eq!(signature.len(), 28);
    assert!(signature.ends_with('='));
}

#[test]
fn signing_deterministic() {
    let client = OSSClient::new("example.com", "AKID", "testsecret");
    let first = client.generate_signed_url_at("PUT", "b", "k", 1700000000, true);
    let second = client.generate_signed_url_at("PUT", "b", "k", 1700000000, true);
    assert_eq!(first, second);
}

#[test]
fn url_shape_at_fixed_time() {
    // A mocked current time of 1700000000 with a 60 second window.
    let client = OSSClient::new("example.com", "AKID", "testsecret");
    let url = client.generate_signed_url_at("GET", "b", "k", 1700000060, true);
    assert!(url.starts_with("https://b.example.com/k?Expires=1700000060&OSSAccessKeyId="));
    let canonical = get_to_be_signed("GET", 1700000060, "b", "k");
    let signature = reference_signature("testsecret", &canonical);
    let expected = format!(
        "https://b.example.com/k?Expires=1700000060&OSSAccessKeyId=AKID&Signature={}",
        urlencoding::encode(&signature)
    );
    assert_eq!(url, expected);
}

#[test]
fn url_shape_http_scheme() {
    let client = OSSClient::new("example.com", "AKID", "testsecret");
    let url = client.generate_signed_url_at("GET", "b", "k", 1, false);
    assert!(url.starts_with("http://b.example.com/k?Expires=1&"));
}

#[test]
fn url_empty_key_points_at_bucket_root() {
    let client = OSSClient::new("example.com", "AKID", "testsecret");
    let url = client.generate_signed_url_at("GET", "b", "", 1, true);
    assert!(url.starts_with("https://b.example.com/?Expires=1&"));
}

#[test]
fn access_key_id_is_percent_encoded() {
    let client = OSSClient::new("example.com", "a+b/c=", "testsecret");
    let url = client.generate_signed_url_at("GET", "b", "k", 7, true);
    assert!(url.contains("&OSSAccessKeyId=a%2Bb%2Fc%3D&"));
    // Decoding the query parameter recovers the original value.
    let start = url.find("&OSSAccessKeyId=").unwrap() + "&OSSAccessKeyId=".len();
    let end = url.find("&Signature=").unwrap();
    let decoded = urlencoding::decode(&url[start..end]).unwrap();
    assert_eq!(decoded, "a+b/c=");
}

#[test]
fn signature_is_percent_encoded() {
    let client = OSSClient::new("example.com", "AKID", "testsecret");
    let url = client.generate_signed_url_at("PUT", "b", "k", 1700000060, true);
    let start = url.find("&Signature=").unwrap() + "&Signature=".len();
    let encoded = &url[start..];
    // A base64 signature never survives encoding with `+`, `/` or `=` raw.
    assert!(!encoded.contains('+'));
    assert!(!encoded.contains('/'));
    assert!(!encoded.contains('='));
    let canonical = get_to_be_signed("PUT", 1700000060, "b", "k");
    let signature = reference_signature("testsecret", &canonical);
    assert_eq!(urlencoding::decode(encoded).unwrap(), signature);
}

#[test]
fn signed_url_from_clock_has_expected_shape() {
    let client = OSSClient::new("example.com", "AKID", "testsecret");
    let url = client.generate_signed_url("GET", "b", "k", 60, true);
    assert!(url.starts_with("https://b.example.com/k?Expires="));
    assert!(url.contains("&OSSAccessKeyId=AKID&Signature="));
    let put = client.generate_signed_put_url("b", "k", 60);
    assert!(put.starts_with("https://b.example.com/k?Expires="));
    let get = client.generate_signed_get_url("b", "k", 60);
    assert!(get.starts_with("https://b.example.com/k?Expires="));
    let del = client.generate_signed_delete_url("b", "k", 60);
    assert!(del.starts_with("https://b.example.com/k?Expires="));
}

#[test]
fn decimal_rendering_exact() {
    assert_eq!(u64_to_dec_string(0), "0");
    assert_eq!(u64_to_dec_string(7), "7");
    assert_eq!(u64_to_dec_string(1700000000), "1700000000");
    assert_eq!(u64_to_dec_string(u64::MAX), "18446744073709551615");
}
