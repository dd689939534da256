use vstd::prelude::*;

verus! {

/// Position of an event in its thread's stream, and the token of optimistic
/// concurrency: 1 for the first event, one more for each event after it.
#[derive(Clone, Copy, Debug, PartialEq, Eq, Structural, PartialOrd, Ord, Hash)]
pub struct Version(u32);

impl View for Version {
    type V = u32;

    closed spec fn view(&self) -> u32 {
        self.0
    }
}

impl Version {
    pub fn initial() -> (r: Self)
        ensures
            r@ == 1,
    {
        Version(1)
    }

    /// The version after this one. The counter never wraps: a caller must not
    /// advance past `u32::MAX`.
    pub fn next(&self) -> (r: Self)
        requires
            self@ < u32::MAX,
        ensures
            r@ == self@ + 1,
    {
        Version(self.0 + 1)
    }
}

impl From<u32> for Version {
    fn from(value: u32) -> (r: Self)
        ensures
            r@ == value,
    {
        Version(value)
    }
}

impl vstd::std_specs::convert::FromSpecImpl<u32> for Version {
    open spec fn obeys_from_spec() -> bool {
        true
    }

    closed spec fn from_spec(v: u32) -> Version {
        Version(v)
    }
}

impl From<Version> for u32 {
    fn from(value: Version) -> (r: u32)
        ensures
            r == value@,
    {
        value.0
    }
}

impl vstd::std_specs::convert::FromSpecImpl<Version> for u32 {
    open spec fn obeys_from_spec() -> bool {
        true
    }

    closed spec fn from_spec(v: Version) -> u32 {
        v.0
    }
}

} // verus!
