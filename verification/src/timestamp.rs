//! Points in time, counted in nanoseconds since the epoch.

use vstd::prelude::*;

verus! {

/// The nanoseconds in one second.
pub const NANOS_PER_SECOND: u64 = 1_000_000_000;

/// A point in time.
#[derive(Clone, Copy, Debug, PartialEq, Eq, Structural)]
pub struct Timestamp {
    pub nanos: u64,
}

impl View for Timestamp {
    type V = nat;

    open spec fn view(&self) -> nat {
        self.nanos as nat
    }
}

/// The whole seconds in a count of nanoseconds.
pub open spec fn whole_seconds(nanos: nat) -> nat {
    nanos / (NANOS_PER_SECOND as nat)
}

impl Timestamp {
    /// The time `nanos` nanoseconds after the epoch.
    pub fn from_nanos(nanos: u64) -> (r: Timestamp)
        ensures
            r@ == nanos,
    {
        Timestamp { nanos }
    }

    /// The time `seconds` seconds after the epoch.
    pub fn from_seconds(seconds: u64) -> (r: Timestamp)
        requires
            seconds * NANOS_PER_SECOND <= u64::MAX,
        ensures
            r@ == seconds * NANOS_PER_SECOND,
    {
        Timestamp { nanos: seconds * NANOS_PER_SECOND }
    }

    /// The time `addition` seconds later.
    pub fn plus_seconds(&self, addition: u64) -> (r: Timestamp)
        requires
            self@ + addition * NANOS_PER_SECOND <= u64::MAX,
        ensures
            r@ == self@ + addition * NANOS_PER_SECOND,
    {
        Timestamp { nanos: self.nanos + addition * NANOS_PER_SECOND }
    }

    /// The nanoseconds since the epoch.
    pub fn nanos(&self) -> (r: u64)
        ensures
            r == self@,
    {
        self.nanos
    }

    /// The whole seconds since the epoch.
    pub fn seconds(&self) -> (r: u64)
        ensures
            r == whole_seconds(self@),
    {
        self.nanos / NANOS_PER_SECOND
    }
}

} // verus!
