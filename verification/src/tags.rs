//! The default recorder of span attributes into group-metadata tags. The
//! visitor that walks a framework's attribute values lives outside the
//! verified core; each value it sees lands in the metadata through
//! `add_tag`.

use vstd::prelude::*;

verus! {

/// The default tag recorder: every span attribute becomes one metadata tag
/// under the attribute's name.
#[derive(Debug, Clone, Copy, PartialEq, Eq, Structural)]
pub struct DefaultTags {}

impl DefaultTags {
    /// Create the default tag recorder.
    pub fn new() -> (r: DefaultTags)
        ensures
            r == (DefaultTags {  }),
    {
        DefaultTags {  }
    }
}

impl Default for DefaultTags {
    /// Same as `new`.
    fn default() -> (r: DefaultTags)
        ensures
            r == (DefaultTags {  }),
    {
        DefaultTags {  }
    }
}

} // verus!
