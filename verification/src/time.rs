//! Timestamp providers: where records learn what time it is, and the
//! formatted date value requests are signed under.

use vstd::prelude::*;
use crate::proto::Log;

verus! {

/// Relies on `chrono::Utc::now`: the current wall-clock time as whole
/// seconds since the epoch and the subsecond nanoseconds. Nothing is
/// promised of the clock's value.
#[verifier::external_body]
pub fn unix_now() -> (r: (i64, u32)) {
    let now = chrono::Utc::now();
    (now.timestamp(), now.timestamp_subsec_nanos())
}

/// The date header value for a given second, formatted
/// `"%a, %d %b %Y %H:%M:%S GMT"`, as chrono renders it: a function of the
/// second alone.
pub uninterp spec fn gmt_date_chars(secs: u32) -> Seq<char>;

/// Relies on `chrono::DateTime::from_timestamp` and its `format`: the GMT
/// date string for a second. Every `u32` second is within chrono's range.
#[verifier::external_body]
pub fn format_gmt_date(secs: u32) -> (r: String)
    ensures
        r@ == gmt_date_chars(secs),
{
    let date = chrono::DateTime::<chrono::Utc>::from_timestamp(secs as i64, 0)
        .expect("every u32 second is in range");
    date.format("%a, %d %b %Y %H:%M:%S GMT").to_string()
}

/// A type that can stamp the current time onto a record. The provided
/// implementations are `SystemTime` (wall-clock), `Uptime` (elapsed since
/// an epoch), and `()` (leaves the record untouched).
pub trait RecordTime {
    /// Write the current time into the record's timestamp fields.
    fn record_time(&self, log: &mut Log);
}

/// Wall-clock timestamp provider.
#[derive(Debug, Clone, Copy, PartialEq, Eq, Default)]
pub struct SystemTime;

/// Elapsed-time provider: stamps records with the time passed since the
/// moment it was created.
#[derive(Debug, Clone, Copy, PartialEq, Eq)]
pub struct Uptime {
    epoch_secs: i64,
    epoch_nanos: u32,
}

/// A new wall-clock timestamp provider.
pub fn time() -> (r: SystemTime)
    ensures
        r == SystemTime,
{
    SystemTime
}

/// A new elapsed-time provider whose epoch is the moment of this call.
pub fn uptime() -> Uptime {
    let (secs, nanos) = unix_now();
    Uptime { epoch_secs: secs, epoch_nanos: nanos }
}

impl RecordTime for SystemTime {
    fn record_time(&self, log: &mut Log) {
        let (secs, nanos) = unix_now();
        log.modify_timestamp(#[verifier::truncate] (secs as u32));
        log.modify_subsec_nanosecond(nanos);
    }
}

impl RecordTime for Uptime {
    fn record_time(&self, log: &mut Log) {
        let (secs, nanos) = unix_now();
        let d: i128 = (secs as i128) - (self.epoch_secs as i128);
        let elapsed_secs: i128 = if d >= 0 {
            d
        } else {
            0
        };
        if nanos >= self.epoch_nanos {
            log.modify_timestamp(#[verifier::truncate] (elapsed_secs as u32));
            log.modify_subsec_nanosecond(nanos - self.epoch_nanos);
        } else {
            let borrowed: i128 = if elapsed_secs > 0 {
                elapsed_secs - 1
            } else {
                0
            };
            let sum: u64 = (nanos as u64) + 1000000000u64;
            let n: u64 = if sum >= (self.epoch_nanos as u64) {
                sum - (self.epoch_nanos as u64)
            } else {
                0
            };
            log.modify_timestamp(#[verifier::truncate] (borrowed as u32));
            log.modify_subsec_nanosecond(#[verifier::truncate] (n as u32));
        }
    }
}

impl RecordTime for () {
    fn record_time(&self, _log: &mut Log) {
    }
}

} // verus!
