//! Version tags for staleness detection.

use vstd::prelude::*;

verus! {

/// The successor of a version tag: one more, wrapping around at the top.
pub open spec fn next_version(v: u32) -> u32 {
    if v == 0xFFFF_FFFF {
        0
    } else {
        (v + 1) as u32
    }
}

/// A monotonically advancing update tag.
///
/// Tags are compared only for inequality: a stored tag that differs from
/// an observer's last-seen tag means an update that observer has not
/// consumed yet. No ordering between tags is ever relied upon, so the
/// counter may wrap freely.
#[derive(Clone, Copy, PartialEq, Eq, Structural)]
pub struct Version {
    pub value: u32,
}

impl Version {
    /// The tag's numeric value, for use in specifications.
    pub open spec fn tag(self) -> u32 {
        self.value
    }

    /// The initial tag.
    pub fn new() -> (r: Version)
        ensures
            r.tag() == 0,
    {
        Version { value: 0 }
    }

    /// Advance the tag by one, wrapping on overflow.
    pub fn update(&mut self)
        ensures
            final(self).tag() == next_version(old(self).tag()),
    {
        self.value = self.value.wrapping_add(1);
    }
}

} // verus!
