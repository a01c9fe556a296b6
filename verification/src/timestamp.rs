use vstd::prelude::*;

verus! {

/// An instant, counted in nanoseconds from the Unix epoch.
#[derive(Clone, Copy, Debug, PartialEq, Eq, PartialOrd, Ord, Hash, Structural)]
pub struct Timestamp {
    nanos: i128,
}

impl View for Timestamp {
    type V = int;

    closed spec fn view(&self) -> int {
        self.nanos as int
    }
}

impl Timestamp {
    /// The instant `nanos` nanoseconds after the Unix epoch, or before it where
    /// `nanos` is negative.
    pub fn from_nanos(nanos: i128) -> (t: Timestamp)
        ensures
            t@ == nanos,
    {
        Timestamp { nanos }
    }

    /// The nanoseconds from the Unix epoch to the instant.
    pub fn as_nanos(&self) -> (nanos: i128)
        ensures
            nanos == self@,
    {
        self.nanos
    }
}

} // verus!
