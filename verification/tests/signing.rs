//! The request signer: decimal rendering, determinism, and agreement with
//! the crypto crates applied by hand to the canonical string.

use aliyun_sls::signer::{usize_to_decimal, Signer};
use base64::Engine;
use hmac::Mac;

fn signer() -> Signer {
    Signer {
        access_key: "ACCESS_KEY".to_string(),
        secret: b"ACCESS_SECRET".to_vec(),
        canonical_resource: "/logstores/test/shards/lb".to_string(),
    }
}

const DATE: &str = "Thu, 01 Jan 1970 00:00:00 GMT";

#[test]
fn decimal_rendering() {
    assert_eq!(usize_to_decimal(0), "0");
    assert_eq!(usize_to_decimal(9), "9");
    assert_eq!(usize_to_decimal(10), "10");
    assert_eq!(usize_to_decimal(12345), "12345");
    assert_eq!(usize_to_decimal(usize::MAX), usize::MAX.to_string());
}

#[test]
fn sign_is_deterministic() {
    let s = signer();
    let payload = b"hello world";
    let a = s.sign(42, payload, DATE, None);
    let b = s.sign(42, payload, DATE, None);
    assert_eq!(a.date, b.date);
    assert_eq!(a.raw_length, b.raw_length);
    assert_eq!(a.content_md5, b.content_md5);
    assert_eq!(a.authorization, b.authorization);
}

#[test]
fn sign_matches_manual_canonical_string() {
    let s = signer();
    let payload = b"payload bytes";
    let sig = s.sign(13, payload, DATE, None);

    let md5_hex = hex::encode_upper(md5::compute(payload).as_ref() as &[u8]);
    assert_eq!(sig.content_md5, md5_hex);
    assert_eq!(sig.raw_length, "13");
    assert_eq!(sig.date, DATE);

    let canonical = format!(
        "POST\n{md5_hex}\napplication/x-protobuf\n{DATE}\n\
         x-log-apiversion:0.6.0\n\
         x-log-bodyrawsize:13\n\
         x-log-signaturemethod:hmac-sha1\n\
         /logstores/test/shards/lb"
    );
    let mut mac = hmac::Hmac::<sha1::Sha1>::new_from_slice(b"ACCESS_SECRET").unwrap();
    mac.update(canonical.as_bytes());
    let expected = format!(
        "LOG ACCESS_KEY:{}",
        base64::prelude::BASE64_STANDARD.encode(mac.finalize().into_bytes())
    );
    assert_eq!(sig.authorization, expected);
}

#[test]
fn sign_includes_compress_type_header() {
    let s = signer();
    let payload = b"x";
    let sig = s.sign(1, payload, DATE, Some("lz4"));

    let md5_hex = hex::encode_upper(md5::compute(payload).as_ref() as &[u8]);
    let canonical = format!(
        "POST\n{md5_hex}\napplication/x-protobuf\n{DATE}\n\
         x-log-apiversion:0.6.0\n\
         x-log-bodyrawsize:1\n\
         x-log-compresstype:lz4\n\
         x-log-signaturemethod:hmac-sha1\n\
         /logstores/test/shards/lb"
    );
    let mut mac = hmac::Hmac::<sha1::Sha1>::new_from_slice(b"ACCESS_SECRET").unwrap();
    mac.update(canonical.as_bytes());
    let expected = format!(
        "LOG ACCESS_KEY:{}",
        base64::prelude::BASE64_STANDARD.encode(mac.finalize().into_bytes())
    );
    assert_eq!(sig.authorization, expected);
}

#[test]
fn gmt_date_formatting() {
    assert_eq!(
        aliyun_sls::time::format_gmt_date(0),
        "Thu, 01 Jan 1970 00:00:00 GMT"
    );
    assert_eq!(
        aliyun_sls::time::format_gmt_date(1700000000),
        "Tue, 14 Nov 2023 22:13:20 GMT"
    );
}
