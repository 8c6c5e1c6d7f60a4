//! The default recorder of events: which record fields the bundled
//! instrumentation adapter fills in. The adapter that reads a framework's
//! event callbacks lives outside the verified core and only consults this
//! configuration.

use vstd::prelude::*;

verus! {

/// The default event recorder: level, timestamp, thread, target, and
/// source location as the format switches choose, then every event field.
#[derive(Debug, Clone, Copy, PartialEq, Eq, Structural)]
pub struct DefaultEvent {}

impl DefaultEvent {
    /// Create the default event recorder.
    pub fn new() -> (r: DefaultEvent)
        ensures
            r == (DefaultEvent {  }),
    {
        DefaultEvent {  }
    }
}

impl Default for DefaultEvent {
    /// Same as `new`.
    fn default() -> (r: DefaultEvent)
        ensures
            r == (DefaultEvent {  }),
    {
        DefaultEvent {  }
    }
}

} // verus!
