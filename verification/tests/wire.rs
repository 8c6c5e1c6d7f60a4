//! The wire encoder: varint shape, exact group bytes, and the agreement
//! between `encode` and `encoded_len`.

use aliyun_sls::proto::{
    calc_log_group_encoded_len, encode_log_group, encode_varint, encoded_len_varint, key_len,
    KeyValue, Log, LogGroup, LogGroupMetadata, Message,
};

fn varint(v: u64) -> Vec<u8> {
    let mut out = Vec::new();
    encode_varint(v, &mut out);
    out
}

#[test]
fn varint_examples() {
    assert_eq!(varint(0), vec![0x00]);
    assert_eq!(varint(127), vec![0x7F]);
    assert_eq!(varint(128), vec![0x80, 0x01]);
    assert_eq!(varint(300), vec![0xAC, 0x02]);
}

#[test]
fn varint_len_matches_encoding() {
    for v in [
        0u64,
        1,
        127,
        128,
        300,
        16383,
        16384,
        u32::MAX as u64,
        u64::MAX,
    ] {
        assert_eq!(encoded_len_varint(v), varint(v).len());
    }
    assert_eq!(encoded_len_varint(u64::MAX), 10);
}

#[test]
fn key_len_small_tags() {
    assert_eq!(key_len(1), 1);
    assert_eq!(key_len(6), 1);
    assert_eq!(key_len(16), 2);
}

#[test]
fn group_bytes_exact() {
    let log = Log::new(1, None).with("a", "b");
    let logs = vec![log];
    let metadata = LogGroupMetadata::new().with_topic("t");
    let mut out = Vec::new();
    encode_log_group(&metadata, &logs, &mut out);
    let expected = vec![
        0x0A, 0x0A, // log group field 1, length 10
        0x08, 0x01, // timestamp 1
        0x12, 0x06, // contents field 2, length 6
        0x0A, 0x01, 0x61, // key "a"
        0x12, 0x01, 0x62, // value "b"
        0x1A, 0x01, 0x74, // topic "t"
    ];
    assert_eq!(out, expected);
    assert_eq!(calc_log_group_encoded_len(&metadata, &logs), expected.len());
}

#[test]
fn subsecond_is_fixed32_little_endian() {
    let log = Log::new(2, Some(5));
    let mut out = Vec::new();
    log.encode(&mut out);
    assert_eq!(out, vec![0x08, 0x02, 0x25, 0x05, 0x00, 0x00, 0x00]);
    assert_eq!(log.encoded_len(), out.len());
}

#[test]
fn encode_agrees_with_encoded_len() {
    let group = LogGroup {
        logs: vec![
            Log::new(1, None).with("message", "hello world"),
            Log::new(u32::MAX, Some(999_999_999)).with("a", "").with("b", "long value here"),
        ],
        reserved: Some("r".to_string()),
        topic: Some("topic".to_string()),
        source: Some("source".to_string()),
        log_tags: vec![KeyValue::new("tag", "value"), KeyValue::new("x", "y")],
    };
    let mut out = Vec::new();
    group.encode(&mut out);
    assert_eq!(out.len(), group.encoded_len());

    let empty = LogGroup {
        logs: vec![],
        reserved: None,
        topic: None,
        source: None,
        log_tags: vec![],
    };
    let mut out = Vec::new();
    empty.encode(&mut out);
    assert_eq!(out.len(), 0);
    assert_eq!(empty.encoded_len(), 0);
}

#[test]
fn estimate_size_counts_logs_and_tags() {
    let logs = vec![Log::new(1, None).with("k", "v")];
    let tags = vec![KeyValue::new("a", "b")];
    let mut group_bytes = Vec::new();
    let metadata = LogGroupMetadata::new().with_tag("a", "b");
    encode_log_group(&metadata, &logs, &mut group_bytes);
    assert_eq!(
        LogGroup::estimate_size(&logs, &tags),
        group_bytes.len()
    );
}

#[test]
fn encoded_len_supports_exact_presizing() {
    let metadata = LogGroupMetadata::new().with_source("s").with_tag("k", "v");
    let logs = vec![Log::new(7, Some(1)).with("one", "1"), Log::new(8, None)];
    let n = calc_log_group_encoded_len(&metadata, &logs);
    let mut out = Vec::with_capacity(n);
    encode_log_group(&metadata, &logs, &mut out);
    assert_eq!(out.len(), n);
    assert_eq!(out.capacity(), n);
}
