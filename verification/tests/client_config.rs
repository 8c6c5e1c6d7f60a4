//! Client construction: required-field errors, canonical resource and URL
//! composition, and the prepared request with and without compression.

use aliyun_sls::client::{Compression, SlsClient, SlsClientBuilderError, SlsClientError};
use aliyun_sls::client::check_response;
use aliyun_sls::proto::{encode_log_group, Log, LogGroupMetadata};
use base64::Engine;
use hmac::Mac;

fn full_builder() -> aliyun_sls::client::SlsClientBuilder {
    SlsClient::builder()
        .access_key("ACCESS_KEY")
        .access_secret(b"ACCESS_SECRET")
        .unwrap()
        .endpoint("cn-guangzhou.log.aliyuncs.com")
        .project("playground")
        .logstore("test")
}

#[test]
fn missing_fields_in_order() {
    let e = SlsClient::builder().build().unwrap_err();
    assert_eq!(e, SlsClientBuilderError::Missing("access_key"));

    let e = SlsClient::builder().access_key("k").build().unwrap_err();
    assert_eq!(e, SlsClientBuilderError::Missing("access_secret"));

    let e = SlsClient::builder()
        .access_key("k")
        .access_secret(b"s")
        .unwrap()
        .build()
        .unwrap_err();
    assert_eq!(e, SlsClientBuilderError::Missing("endpoint"));

    let e = SlsClient::builder()
        .access_key("k")
        .access_secret(b"s")
        .unwrap()
        .endpoint("e")
        .build()
        .unwrap_err();
    assert_eq!(e, SlsClientBuilderError::Missing("project"));

    let e = SlsClient::builder()
        .access_key("k")
        .access_secret(b"s")
        .unwrap()
        .endpoint("e")
        .project("p")
        .build()
        .unwrap_err();
    assert_eq!(e, SlsClientBuilderError::Missing("logstore"));
}

#[test]
fn new_from_parts() {
    let c = SlsClient::new(
        "ACCESS_KEY",
        b"ACCESS_SECRET",
        "cn-guangzhou.log.aliyuncs.com",
        "playground",
        "test",
        Some("00000000000000000000000000000000"),
        Compression::Deflate(10),
    )
    .unwrap();
    assert_eq!(
        c.url,
        "https://playground.cn-guangzhou.log.aliyuncs.com/logstores/test/shards/route?key=00000000000000000000000000000000"
    );
    assert_eq!(c.compression, Compression::Deflate(10));
    assert_eq!(c.signer.access_key, "ACCESS_KEY");
}

#[test]
fn url_round_robin() {
    let c = full_builder().build().unwrap();
    assert_eq!(c.signer.canonical_resource, "/logstores/test/shards/lb");
    assert_eq!(
        c.url,
        "https://playground.cn-guangzhou.log.aliyuncs.com/logstores/test/shards/lb"
    );
}

#[test]
fn url_shard_routed() {
    let c = full_builder()
        .shard_key("00000000000000000000000000000000")
        .build()
        .unwrap();
    assert_eq!(
        c.signer.canonical_resource,
        "/logstores/test/shards/route?key=00000000000000000000000000000000"
    );
    assert_eq!(
        c.url,
        "https://playground.cn-guangzhou.log.aliyuncs.com/logstores/test/shards/route?key=00000000000000000000000000000000"
    );
}

#[test]
fn compression_level_is_clamped() {
    let b = full_builder().compression_level(0);
    assert_eq!(b.compression, Compression::Deflate(1));
    let b = full_builder().compression_level(12);
    assert_eq!(b.compression, Compression::Deflate(10));
    let b = full_builder().compression_level(6);
    assert_eq!(b.compression, Compression::Deflate(6));
}

const DATE: &str = "Thu, 01 Jan 1970 00:00:00 GMT";

fn sample_group() -> (LogGroupMetadata, Vec<Log>) {
    let metadata = LogGroupMetadata::new().with_topic("topic").with_tag("static", "test");
    let logs = vec![Log::new(10, None).with("message", "hello world")];
    (metadata, logs)
}

#[test]
fn request_plain_body_is_encoded_group() {
    let c = full_builder().build().unwrap();
    let (metadata, logs) = sample_group();
    let r = c.build_request(&metadata, &logs, DATE);

    let mut raw = Vec::new();
    encode_log_group(&metadata, &logs, &mut raw);
    assert_eq!(r.body, raw);
    assert_eq!(r.url, c.url);
    assert_eq!(r.date, DATE);
    assert_eq!(r.raw_size, raw.len().to_string());
    assert_eq!(r.content_length, raw.len().to_string());
    assert_eq!(r.compress_type, None);
    assert_eq!(
        r.content_md5,
        hex::encode_upper(md5::compute(&raw).as_ref() as &[u8])
    );

    let canonical = format!(
        "POST\n{}\napplication/x-protobuf\n{DATE}\n\
         x-log-apiversion:0.6.0\n\
         x-log-bodyrawsize:{}\n\
         x-log-signaturemethod:hmac-sha1\n\
         /logstores/test/shards/lb",
        r.content_md5,
        raw.len()
    );
    let mut mac = hmac::Hmac::<sha1::Sha1>::new_from_slice(b"ACCESS_SECRET").unwrap();
    mac.update(canonical.as_bytes());
    let expected = format!(
        "LOG ACCESS_KEY:{}",
        base64::prelude::BASE64_STANDARD.encode(mac.finalize().into_bytes())
    );
    assert_eq!(r.authorization, expected);
}

#[test]
fn request_lz4_body_is_compressed() {
    let c = full_builder().compression(Compression::Lz4).build().unwrap();
    let (metadata, logs) = sample_group();
    let r = c.build_request(&metadata, &logs, DATE);

    let mut raw = Vec::new();
    encode_log_group(&metadata, &logs, &mut raw);
    assert_eq!(r.body, lz4_flex::compress(&raw));
    assert_eq!(r.raw_size, raw.len().to_string());
    assert_eq!(r.content_length, r.body.len().to_string());
    assert_eq!(r.compress_type, Some("lz4"));
    assert_eq!(
        r.content_md5,
        hex::encode_upper(md5::compute(&r.body).as_ref() as &[u8])
    );
}

#[test]
fn request_deflate_body_is_compressed() {
    let c = full_builder().compression_level(6).build().unwrap();
    let (metadata, logs) = sample_group();
    let r = c.build_request(&metadata, &logs, DATE);

    let mut raw = Vec::new();
    encode_log_group(&metadata, &logs, &mut raw);
    assert_eq!(
        r.body,
        miniz_oxide::deflate::compress_to_vec_zlib(&raw, 6)
    );
    assert_eq!(r.raw_size, raw.len().to_string());
    assert_eq!(r.compress_type, Some("deflate"));
}

#[test]
fn response_success_and_failure() {
    assert!(check_response(200, String::new()).is_ok());
    assert!(check_response(204, String::new()).is_ok());
    assert!(check_response(299, String::new()).is_ok());
    let e = check_response(404, "not found".to_string()).unwrap_err();
    assert_eq!(
        e,
        SlsClientError::Http { status: 404, message: "not found".to_string() }
    );
    let e = check_response(500, "boom".to_string()).unwrap_err();
    assert!(matches!(e, SlsClientError::Http { status: 500, .. }));
    assert!(check_response(199, String::new()).is_err());
}
