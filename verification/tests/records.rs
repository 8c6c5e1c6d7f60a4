//! Records and metadata: map semantics of contents and tags, capacity
//! errors, and structural metadata equality.

use aliyun_sls::proto::{metadata_eq, KeyValue, Log, LogGroupMetadata};

fn pairs(items: &Vec<KeyValue>) -> Vec<(String, String)> {
    items.iter().map(|kv| (kv.key.clone(), kv.value.clone())).collect()
}

#[test]
fn insert_overwrites_in_place() {
    let log = Log::new(1, None).with("k", "1").with("x", "2").with("k", "3");
    assert_eq!(
        pairs(log.contents()),
        vec![
            ("k".to_string(), "3".to_string()),
            ("x".to_string(), "2".to_string()),
        ]
    );
}

#[test]
fn remove_deletes_pair() {
    let mut log = Log::new(1, None).with("a", "1").with("b", "2");
    log.remove("a");
    assert_eq!(pairs(log.contents()), vec![("b".to_string(), "2".to_string())]);
    log.remove("missing");
    assert_eq!(log.contents().len(), 1);
}

#[test]
fn capacity_error_returns_pair() {
    let mut log = Log::with_pair_capacity(0, None, 1);
    assert!(log.try_insert("a".to_string(), "1".to_string()).is_ok());
    let err = log.try_insert("b".to_string(), "2".to_string()).unwrap_err();
    assert_eq!(err, ("b".to_string(), "2".to_string()));
    // overwriting the existing key still succeeds at capacity
    assert!(log.try_insert("a".to_string(), "3".to_string()).is_ok());
    assert_eq!(pairs(log.contents()), vec![("a".to_string(), "3".to_string())]);
}

#[test]
fn tag_capacity_error_returns_pair() {
    let mut m = LogGroupMetadata::with_tag_capacity(1);
    assert!(m.try_add_tag("a".to_string(), "1".to_string()).is_ok());
    let err = m.try_add_tag("b".to_string(), "2".to_string()).unwrap_err();
    assert_eq!(err, ("b".to_string(), "2".to_string()));
}

#[test]
fn builder_fields_set() {
    let m = LogGroupMetadata::new()
        .with_topic("t")
        .with_source("s")
        .with_tag("k", "v");
    assert_eq!(m.topic().as_deref(), Some("t"));
    assert_eq!(m.source().as_deref(), Some("s"));
    assert_eq!(pairs(m.log_tags()), vec![("k".to_string(), "v".to_string())]);

    let mut m = m;
    m.remove_tag("k");
    assert!(m.log_tags().is_empty());
}

#[test]
fn metadata_structural_equality() {
    let a = LogGroupMetadata::new().with_topic("t").with_tag("k", "v");
    let b = LogGroupMetadata::new().with_topic("t").with_tag("k", "v");
    let c = LogGroupMetadata::new().with_topic("t").with_tag("k", "w");
    let d = LogGroupMetadata::new().with_tag("k", "v");
    assert!(metadata_eq(&a, &b));
    assert!(!metadata_eq(&a, &c));
    assert!(!metadata_eq(&a, &d));
}

#[test]
fn timestamp_accessors() {
    let log = Log::new(7, Some(9)).with_timestamp(8);
    assert_eq!(log.timestamp(), 8);
    assert_eq!(*log.subsec_nanosecond(), Some(9));
    let log = log.with_subsec_nanosecond(11);
    assert_eq!(*log.subsec_nanosecond(), Some(11));
    let log = Log::new(1, None);
    assert_eq!(*log.subsec_nanosecond(), None);
}

#[test]
fn now_has_empty_contents() {
    let log = Log::now();
    assert!(log.contents().is_empty());
    assert!(log.subsec_nanosecond().is_some());
    let log = Log::default();
    assert!(log.contents().is_empty());
}

#[test]
fn key_value_new_copies_strings() {
    let kv = KeyValue::new("key", "value");
    assert_eq!(kv.key, "key");
    assert_eq!(kv.value, "value");
}
