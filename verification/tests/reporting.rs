//! The batching reporter: grouping by key, the size cap, session
//! activation, and the final drain.

use aliyun_sls::client::SlsClient;
use aliyun_sls::proto::{metadata_eq, Log, LogGroupMetadata};
use aliyun_sls::reporter::{LogConsumer, Reporter, SubmitAction};

fn client() -> SlsClient {
    SlsClient::builder()
        .access_key("ACCESS_KEY")
        .access_secret(b"ACCESS_SECRET")
        .unwrap()
        .endpoint("cn-guangzhou.log.aliyuncs.com")
        .project("playground")
        .logstore("test")
        .build()
        .unwrap()
}

fn session(max_group_size: usize) -> LogConsumer {
    let mut reporter = Reporter::from_client(client());
    reporter
        .reporting()
        .unwrap()
        .with_max_group_size(max_group_size)
        .with_vec_pool_capacity(4)
        .with_log_vec_capacity(8)
        .start()
}

fn meta(topic: &str) -> LogGroupMetadata {
    LogGroupMetadata::new().with_topic(topic)
}

// One record encoded as below takes 12 bytes inside a group whose metadata
// carries nothing: 2 for the timestamp field, 8 for the one content pair,
// wrapped in a 2-byte field header.
fn record(ts: u32) -> Log {
    Log::new(ts, None).with("k", "v")
}

#[test]
fn same_key_records_build_one_batch_in_order() {
    let mut s = session(1_000_000);
    for ts in 1..=5u32 {
        let a = s.submit(LogGroupMetadata::new(), record(ts));
        assert!(matches!(a, SubmitAction::Kept));
    }
    let batches = s.drain();
    assert_eq!(batches.len(), 1);
    let (m, logs) = &batches[0];
    assert!(metadata_eq(m, &LogGroupMetadata::new()));
    let stamps: Vec<u32> = logs.iter().map(|l| l.timestamp()).collect();
    assert_eq!(stamps, vec![1, 2, 3, 4, 5]);
}

#[test]
fn distinct_keys_build_separate_batches() {
    let mut s = session(1_000_000);
    assert!(matches!(s.submit(meta("one"), record(1)), SubmitAction::Kept));
    assert!(matches!(s.submit(meta("two"), record(2)), SubmitAction::Kept));
    let batches = s.drain();
    assert_eq!(batches.len(), 2);
    assert!(metadata_eq(&batches[0].0, &meta("one")));
    assert!(metadata_eq(&batches[1].0, &meta("two")));
    assert_eq!(batches[0].1.len(), 1);
    assert_eq!(batches[1].1.len(), 1);
    assert_eq!(batches[0].1[0].timestamp(), 1);
    assert_eq!(batches[1].1[0].timestamp(), 2);
}

#[test]
fn overflow_flushes_prior_contents() {
    // each record contributes 12 bytes; two exceed a 20-byte cap
    let mut s = session(20);
    assert!(matches!(s.submit(LogGroupMetadata::new(), record(1)), SubmitAction::Kept));
    let action = s.submit(LogGroupMetadata::new(), record(2));
    match action {
        SubmitAction::Dispatch(m, logs) => {
            assert!(metadata_eq(&m, &LogGroupMetadata::new()));
            assert_eq!(logs.len(), 1);
            assert_eq!(logs[0].timestamp(), 1);
        }
        _ => panic!("expected the prior contents to be dispatched"),
    }
    // the held-back record seeded a fresh batch
    let batches = s.drain();
    assert_eq!(batches.len(), 1);
    assert_eq!(batches[0].1.len(), 1);
    assert_eq!(batches[0].1[0].timestamp(), 2);
}

#[test]
fn oversize_singleton_is_dropped_without_dispatch() {
    let mut s = session(5);
    let action = s.submit(LogGroupMetadata::new(), record(9));
    match action {
        SubmitAction::Dropped(log) => assert_eq!(log.timestamp(), 9),
        _ => panic!("expected the oversize record to be dropped"),
    }
    assert!(s.drain().is_empty());
}

#[test]
fn overflow_with_oversize_newcomer_dispatches_and_drops() {
    // record(1) fits a 12-byte cap exactly; a fatter record does not fit alone
    let mut s = session(12);
    assert!(matches!(s.submit(LogGroupMetadata::new(), record(1)), SubmitAction::Kept));
    let fat = Log::new(2, None).with("key", "a much longer value");
    let action = s.submit(LogGroupMetadata::new(), fat);
    match action {
        SubmitAction::DispatchAndDrop(m, logs, dropped) => {
            assert!(metadata_eq(&m, &LogGroupMetadata::new()));
            assert_eq!(logs.len(), 1);
            assert_eq!(logs[0].timestamp(), 1);
            assert_eq!(dropped.timestamp(), 2);
        }
        _ => panic!("expected dispatch of the prior batch and a drop"),
    }
    assert!(s.drain().is_empty());
}

#[test]
fn second_session_activation_yields_none() {
    let mut reporter = Reporter::from_client(client());
    assert!(reporter.reporting().is_some());
    assert!(reporter.reporting().is_none());
    assert!(reporter.reporting().is_none());
}

#[test]
fn final_drain_dispatches_each_batch_once_then_intake_closes() {
    let mut reporter = Reporter::from_client(client());
    let mut s = reporter.reporting().unwrap().start();
    s.submit(meta("one"), record(1));
    s.submit(meta("two"), record(2));
    s.submit(meta("one"), record(3));

    assert!(reporter.is_accepting());
    let batches = s.drain();
    assert_eq!(batches.len(), 2);
    assert_eq!(batches[0].1.len(), 2);
    assert_eq!(batches[1].1.len(), 1);
    // nothing is held back: a second drain has nothing to dispatch
    assert!(s.drain().is_empty());

    reporter.close();
    assert!(!reporter.is_accepting());
}

#[test]
fn recycled_vectors_come_back_empty() {
    let mut s = session(1_000_000);
    s.submit(meta("one"), record(1));
    let batches = s.drain();
    for (_, logs) in batches {
        s.recycle(logs);
    }
    s.submit(meta("two"), record(2));
    let batches = s.drain();
    assert_eq!(batches.len(), 1);
    assert_eq!(batches[0].1.len(), 1);
    assert_eq!(batches[0].1[0].timestamp(), 2);
}
