//! What each call on a delay does, told by what goes in and what comes out.

use vstd::prelude::*;

use crate::delay::Delay;

verus! {

/// A delay has the seconds and the nanoseconds that it was made of, and lasts as long as they
/// do together.
pub proof fn delay_keeps_its_parts(secs: u64, nanos: u32, delay: Delay, whole: u64, left: u32)
    requires
        nanos < 1_000_000_000,
        call_ensures(Delay::new, (secs, nanos), delay),
        call_ensures(Delay::as_secs, (&delay,), whole),
        call_ensures(Delay::subsec_nanos, (&delay,), left),
    ensures
        whole == secs,
        left == nanos,
        delay@ == secs * 1_000_000_000 + nanos,
{
}

/// A delay is made again of its seconds and its nanoseconds.
pub proof fn parts_make_the_delay(delay: Delay, whole: u64, left: u32, again: Delay)
    requires
        call_ensures(Delay::as_secs, (&delay,), whole),
        call_ensures(Delay::subsec_nanos, (&delay,), left),
        call_ensures(Delay::new, (whole, left), again),
    ensures
        left < 1_000_000_000,
        again@ == delay@,
        delay@ == whole * 1_000_000_000 + left,
{
}

/// Whole seconds have no nanoseconds left, and more of them last longer.
pub proof fn whole_seconds(secs: u64, delay: Delay, more: u64, longer: Delay)
    requires
        call_ensures(Delay::from_secs, (secs,), delay),
        call_ensures(Delay::from_secs, (more,), longer),
    ensures
        delay@ == secs * 1_000_000_000,
        delay@ < longer@ <==> secs < more,
{
}

/// No seconds and nanoseconds last longer than the longest delay, which is made of the most
/// of them.
pub proof fn longest_lasts_longest(longest: Delay, secs: u64, nanos: u32, delay: Delay)
    requires
        nanos < 1_000_000_000,
        call_ensures(Delay::longest, (), longest),
        call_ensures(Delay::new, (secs, nanos), delay),
    ensures
        delay@ <= longest@,
        delay@ == longest@ <==> secs == u64::MAX && nanos == 999_999_999,
{
}

/// The shorter of two delays is one of them and lasts no longer than either, whichever comes
/// first.
pub proof fn shorter_is_one_of_them(a: Delay, b: Delay, shorter: Delay, other_way: Delay)
    requires
        call_ensures(Delay::min, (a, b), shorter),
        call_ensures(Delay::min, (b, a), other_way),
    ensures
        shorter == a || shorter == b,
        shorter@ <= a@,
        shorter@ <= b@,
        other_way@ == shorter@,
{
}

} // verus!
