//! The pipeline builder, format switches, span flags, and timestamp
//! providers.

use aliyun_sls::builder::{Level, SlsTracingBuilder};
use aliyun_sls::client::Compression;
use aliyun_sls::event::DefaultEvent;
use aliyun_sls::format::{Format, RecordSpan, RecordSpanConfig};
use aliyun_sls::tags::DefaultTags;
use aliyun_sls::time::{time, uptime, SystemTime};
use aliyun_sls::proto::Log;
use aliyun_sls::time::RecordTime;

fn builder() -> SlsTracingBuilder {
    SlsTracingBuilder::new(
        "ACCESS_KEY",
        "ACCESS_SECRET",
        "cn-guangzhou.log.aliyuncs.com",
        "playground",
        "test",
    )
}

#[test]
fn tracing_builder_defaults() {
    let b = builder();
    assert_eq!(b.max_level, Level::Trace);
    assert_eq!(b.drain_timeout_millis, 5000);
    assert_eq!(b.compression, Compression::Plain);
    assert!(b.shard_key.is_none());
}

#[test]
fn tracing_builder_setters() {
    let b = builder()
        .max_level(Level::Warn)
        .drain_timeout(250)
        .compression_level(9)
        .shard_key("00000000000000000000000000000000");
    assert_eq!(b.max_level, Level::Warn);
    assert_eq!(b.drain_timeout_millis, 250);
    assert_eq!(b.compression, Compression::Deflate(9));
    assert_eq!(
        b.shard_key.as_deref(),
        Some("00000000000000000000000000000000")
    );
}

#[test]
fn tracing_builder_builds_client() {
    let c = builder().client();
    assert_eq!(
        c.url,
        "https://playground.cn-guangzhou.log.aliyuncs.com/logstores/test/shards/lb"
    );
    assert_eq!(c.signer.access_key, "ACCESS_KEY");
    assert_eq!(c.signer.secret, b"ACCESS_SECRET".to_vec());
}

#[test]
fn derived_shard_key_is_blake3_prefix() {
    let b = builder().derive_shard_key("my routing key");
    let expected = blake3::hash(b"my routing key").to_hex().as_str()[..32].to_string();
    assert_eq!(b.shard_key.as_deref(), Some(expected.as_str()));
    assert_eq!(b.shard_key.unwrap().len(), 32);
}

#[test]
fn format_switches() {
    let f = Format::default();
    assert!(f.display_target);
    assert!(f.display_level);
    assert!(!f.display_thread_id);
    assert!(!f.display_thread_name);
    assert!(!f.display_filename);
    assert!(!f.display_line_number);

    let f = f
        .with_target(false)
        .with_level(false)
        .with_thread_ids(true)
        .with_thread_names(true)
        .with_source_location(true);
    assert!(!f.display_target);
    assert!(!f.display_level);
    assert!(f.display_thread_id);
    assert!(f.display_thread_name);
    assert!(f.display_filename);
    assert!(f.display_line_number);

    let f = f.without_time().with_file(false);
    assert!(!f.display_filename);
    assert!(f.display_line_number);
}

#[test]
fn format_with_timer_keeps_switches() {
    let f = Format::default().with_target(false).with_timer(uptime());
    assert!(!f.display_target);
    assert!(f.display_level);
    let f = f.with_timer(SystemTime);
    assert_eq!(f.timer, SystemTime);
}

#[test]
fn record_span_flags() {
    assert_eq!(RecordSpan::active().bits, RecordSpan::new_span().union(RecordSpan::enter()).bits);
    assert_eq!(
        RecordSpan::full().bits,
        RecordSpan::new_span()
            .union(RecordSpan::enter())
            .union(RecordSpan::exit())
            .union(RecordSpan::close())
            .bits
    );
    assert!(RecordSpan::full().contains(RecordSpan::exit()));
    assert!(!RecordSpan::none().contains(RecordSpan::exit()));

    let cfg = RecordSpanConfig::default();
    assert!(!cfg.trace_new());
    let cfg = cfg.with_kind(RecordSpan::active());
    assert!(cfg.trace_new());
    assert!(cfg.trace_enter());
    assert!(!cfg.trace_exit());
    assert!(!cfg.trace_close());
    let cfg = cfg.with_kind(RecordSpan::full()).without_time();
    assert!(cfg.trace_close());
    assert!(!cfg.timing);
}

#[test]
fn timestamp_providers_stamp_records() {
    let mut log = Log::new(0, None);
    time().record_time(&mut log);
    assert!(log.timestamp() > 0);

    let up = uptime();
    let mut log = Log::new(999, None);
    up.record_time(&mut log);
    assert!(log.timestamp() < 10);

    let mut log = Log::new(7, Some(3));
    ().record_time(&mut log);
    assert_eq!(log.timestamp(), 7);
}

#[test]
fn default_adapters_construct() {
    assert_eq!(DefaultEvent::new(), DefaultEvent::default());
    assert_eq!(DefaultTags::new(), DefaultTags::default());
}
