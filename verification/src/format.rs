//! Configuration of what the instrumentation adapters put into each record:
//! the timestamp provider and the fields and span lifecycle points that are
//! recorded.

use vstd::prelude::*;
use crate::time::SystemTime;

verus! {

/// What one logged event carries: a timer and the switches for each
/// optional field.
#[derive(Debug, Clone, Copy, PartialEq, Eq)]
pub struct Format<T = SystemTime> {
    /// The timestamp provider stamped onto each record.
    pub timer: T,
    /// Whether the event's target is recorded.
    pub display_target: bool,
    /// Whether the event's level is recorded.
    pub display_level: bool,
    /// Whether the current thread's id is recorded.
    pub display_thread_id: bool,
    /// Whether the current thread's name is recorded.
    pub display_thread_name: bool,
    /// Whether the event's source file path is recorded.
    pub display_filename: bool,
    /// Whether the event's source line number is recorded.
    pub display_line_number: bool,
}

impl Default for Format<SystemTime> {
    /// Wall-clock timestamps; target and level recorded, nothing else.
    fn default() -> (r: Format<SystemTime>)
        ensures
            r == (Format {
                timer: SystemTime,
                display_target: true,
                display_level: true,
                display_thread_id: false,
                display_thread_name: false,
                display_filename: false,
                display_line_number: false,
            }),
    {
        Format {
            timer: SystemTime,
            display_target: true,
            display_level: true,
            display_thread_id: false,
            display_thread_name: false,
            display_filename: false,
            display_line_number: false,
        }
    }
}

impl<T> Format<T> {
    /// Use the given timer for record timestamps.
    pub fn with_timer<T2>(self, timer: T2) -> (r: Format<T2>)
        ensures
            r.timer == timer,
            r.display_target == self.display_target,
            r.display_level == self.display_level,
            r.display_thread_id == self.display_thread_id,
            r.display_thread_name == self.display_thread_name,
            r.display_filename == self.display_filename,
            r.display_line_number == self.display_line_number,
    {
        Format {
            timer,
            display_target: self.display_target,
            display_level: self.display_level,
            display_thread_id: self.display_thread_id,
            display_thread_name: self.display_thread_name,
            display_filename: self.display_filename,
            display_line_number: self.display_line_number,
        }
    }

    /// Do not stamp timestamps onto records.
    pub fn without_time(self) -> (r: Format<()>)
        ensures
            r.display_target == self.display_target,
            r.display_level == self.display_level,
            r.display_thread_id == self.display_thread_id,
            r.display_thread_name == self.display_thread_name,
            r.display_filename == self.display_filename,
            r.display_line_number == self.display_line_number,
    {
        self.with_timer(())
    }

    /// Choose whether the event's target is recorded.
    pub fn with_target(self, display_target: bool) -> (r: Format<T>)
        ensures
            r == (Format { display_target, ..self }),
    {
        Format { display_target, ..self }
    }

    /// Choose whether the event's level is recorded.
    pub fn with_level(self, display_level: bool) -> (r: Format<T>)
        ensures
            r == (Format { display_level, ..self }),
    {
        Format { display_level, ..self }
    }

    /// Choose whether the current thread's id is recorded.
    pub fn with_thread_ids(self, display_thread_id: bool) -> (r: Format<T>)
        ensures
            r == (Format { display_thread_id, ..self }),
    {
        Format { display_thread_id, ..self }
    }

    /// Choose whether the current thread's name is recorded.
    pub fn with_thread_names(self, display_thread_name: bool) -> (r: Format<T>)
        ensures
            r == (Format { display_thread_name, ..self }),
    {
        Format { display_thread_name, ..self }
    }

    /// Choose whether the event's source file path is recorded.
    pub fn with_file(self, display_filename: bool) -> (r: Format<T>)
        ensures
            r == (Format { display_filename, ..self }),
    {
        Format { display_filename, ..self }
    }

    /// Choose whether the event's source line number is recorded.
    pub fn with_line_number(self, display_line_number: bool) -> (r: Format<T>)
        ensures
            r == (Format { display_line_number, ..self }),
    {
        Format { display_line_number, ..self }
    }

    /// Choose whether the source location, file path and line number both,
    /// is recorded.
    pub fn with_source_location(self, display_location: bool) -> (r: Format<T>)
        ensures
            r == (Format {
                display_filename: display_location,
                display_line_number: display_location,
                ..self
            }),
    {
        self.with_line_number(display_location).with_file(display_location)
    }
}

/// The points in a span's lifecycle that are logged as events, as a set of
/// flags.
#[derive(Debug, Clone, Copy, PartialEq, Eq, Structural)]
pub struct RecordSpan {
    /// The flag bits: creation, enter, exit, and close, from the lowest bit
    /// up.
    pub bits: u8,
}

impl RecordSpan {
    /// Spans are ignored. This is the default.
    pub fn none() -> (r: RecordSpan)
        ensures
            r.bits == 0,
    {
        RecordSpan { bits: 0 }
    }

    /// One event when a span is created.
    pub fn new_span() -> (r: RecordSpan)
        ensures
            r.bits == 1,
    {
        RecordSpan { bits: 1 }
    }

    /// One event per enter of a span.
    pub fn enter() -> (r: RecordSpan)
        ensures
            r.bits == 2,
    {
        RecordSpan { bits: 2 }
    }

    /// One event per exit of a span.
    pub fn exit() -> (r: RecordSpan)
        ensures
            r.bits == 4,
    {
        RecordSpan { bits: 4 }
    }

    /// One event when a span is dropped.
    pub fn close() -> (r: RecordSpan)
        ensures
            r.bits == 8,
    {
        RecordSpan { bits: 8 }
    }

    /// Events when spans are created or entered.
    pub fn active() -> (r: RecordSpan)
        ensures
            r.bits == 3,
    {
        RecordSpan { bits: 3 }
    }

    /// Events at all points: creation, enter, exit, and drop.
    pub fn full() -> (r: RecordSpan)
        ensures
            r.bits == 15,
    {
        RecordSpan { bits: 15 }
    }

    /// Both flag sets combined.
    pub fn union(self, other: RecordSpan) -> (r: RecordSpan)
        ensures
            r.bits == self.bits | other.bits,
    {
        RecordSpan { bits: self.bits | other.bits }
    }

    /// Whether every flag of `other` is set here.
    pub fn contains(self, other: RecordSpan) -> (r: bool)
        ensures
            r == (self.bits & other.bits == other.bits),
    {
        self.bits & other.bits == other.bits
    }
}

/// Which span lifecycle points are logged, and whether busy and idle
/// timings are attached to close events.
#[derive(Debug, Clone, Copy, PartialEq, Eq, Structural)]
pub struct RecordSpanConfig {
    /// The lifecycle points logged as events.
    pub kind: RecordSpan,
    /// Whether timing fields are attached to close events.
    pub timing: bool,
}

impl Default for RecordSpanConfig {
    /// Spans ignored, no timing.
    fn default() -> (r: RecordSpanConfig)
        ensures
            r.kind.bits == 0,
            !r.timing,
    {
        RecordSpanConfig { kind: RecordSpan { bits: 0 }, timing: false }
    }
}

impl RecordSpanConfig {
    /// Drop the timing fields.
    pub fn without_time(self) -> (r: RecordSpanConfig)
        ensures
            r == (RecordSpanConfig { kind: self.kind, timing: false }),
    {
        RecordSpanConfig { kind: self.kind, timing: false }
    }

    /// Choose the logged lifecycle points.
    pub fn with_kind(self, kind: RecordSpan) -> (r: RecordSpanConfig)
        ensures
            r == (RecordSpanConfig { kind, timing: self.timing }),
    {
        RecordSpanConfig { kind, timing: self.timing }
    }

    /// Whether span creation is logged.
    pub fn trace_new(&self) -> (r: bool)
        ensures
            r == (self.kind.bits & 1 == 1),
    {
        self.kind.contains(RecordSpan::new_span())
    }

    /// Whether span enters are logged.
    pub fn trace_enter(&self) -> (r: bool)
        ensures
            r == (self.kind.bits & 2 == 2),
    {
        self.kind.contains(RecordSpan::enter())
    }

    /// Whether span exits are logged.
    pub fn trace_exit(&self) -> (r: bool)
        ensures
            r == (self.kind.bits & 4 == 4),
    {
        self.kind.contains(RecordSpan::exit())
    }

    /// Whether span drops are logged.
    pub fn trace_close(&self) -> (r: bool)
        ensures
            r == (self.kind.bits & 8 == 8),
    {
        self.kind.contains(RecordSpan::close())
    }
}

} // verus!
