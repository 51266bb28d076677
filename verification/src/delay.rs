//! The waiting time before a connection attempt.

use vstd::prelude::*;

verus! {

/// Nanoseconds in a second.
pub const NANOS_PER_SEC: u128 = 1_000_000_000;

/// The longest representable delay, in nanoseconds: `u64::MAX` seconds and
/// `999_999_999` nanoseconds.
pub const MAX_NANOS: u128 = 18_446_744_073_709_551_615_999_999_999;

/// A span of time with the range and the precision of `core::time::Duration`.
///
/// Its view is the number of nanoseconds it spans.
#[derive(Clone, Copy, Debug, PartialEq, Eq, Structural)]
pub struct Delay {
    nanos: u128,
}

impl View for Delay {
    type V = nat;

    closed spec fn view(&self) -> nat {
        self.nanos as nat
    }
}

impl Delay {
    #[verifier::type_invariant]
    spec fn in_range(self) -> bool {
        self.nanos <= MAX_NANOS
    }

    /// The delay of `secs` whole seconds and `nanos` nanoseconds.
    pub fn new(secs: u64, nanos: u32) -> (delay: Delay)
        requires
            nanos < NANOS_PER_SEC,
        ensures
            delay@ == secs * NANOS_PER_SEC + nanos,
    {
        Delay { nanos: secs as u128 * NANOS_PER_SEC + nanos as u128 }
    }

    /// The delay of `secs` whole seconds.
    pub fn from_secs(secs: u64) -> (delay: Delay)
        ensures
            delay@ == secs * NANOS_PER_SEC,
    {
        Delay::new(secs, 0)
    }

    /// The longest representable delay.
    pub fn longest() -> (delay: Delay)
        ensures
            delay@ == MAX_NANOS,
    {
        Delay { nanos: MAX_NANOS }
    }

    /// The whole seconds of this delay.
    pub fn as_secs(&self) -> (secs: u64)
        ensures
            secs == self@ / NANOS_PER_SEC as nat,
    {
        proof {
            use_type_invariant(self);
        }
        (self.nanos / NANOS_PER_SEC) as u64
    }

    /// What is left of this delay after its whole seconds, in nanoseconds.
    pub fn subsec_nanos(&self) -> (nanos: u32)
        ensures
            nanos == self@ % NANOS_PER_SEC as nat,
    {
        (self.nanos % NANOS_PER_SEC) as u32
    }

    /// The shorter of two delays.
    pub fn min(self, other: Delay) -> (shorter: Delay)
        ensures
            shorter == if self@ <= other@ {
                self
            } else {
                other
            },
    {
        if self.nanos <= other.nanos {
            self
        } else {
            other
        }
    }
}

/// Delays that span the same time are the same delay.
pub proof fn delay_is_its_view(a: Delay, b: Delay)
    requires
        a@ == b@,
    ensures
        a == b,
{
}

} // verus!
