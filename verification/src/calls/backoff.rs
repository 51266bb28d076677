//! What each call on a backoff strategy does, told by what goes in and what comes out.

use rand::rngs::StdRng;
use vstd::prelude::*;

use crate::delay::Delay;
use crate::strategies::{
    drawn, std_rng_of_seed, ExpBackoffIter, ExpBackoffStrategy, JitterRng, RngCoreClone,
};

verus! {

/// A new strategy has what it is given, no maximum and no generator.
pub proof fn strategy_is_made<N>(
    min: Delay,
    factor: N,
    jitter: N,
    strategy: ExpBackoffStrategy<N, StdRng>,
)
    requires
        call_ensures(ExpBackoffStrategy::<N, StdRng>::new, (min, factor, jitter), strategy),
    ensures
        strategy.min == min,
        strategy.factor == factor,
        strategy.jitter == jitter,
        strategy.max is None,
        strategy.rng is None,
{
}

/// The default strategy goes from four seconds to half an hour.
pub proof fn default_strategy_is_made<N>(
    factor: N,
    jitter: N,
    strategy: ExpBackoffStrategy<N, StdRng>,
)
    requires
        call_ensures(ExpBackoffStrategy::<N, StdRng>::default_limits, (factor, jitter), strategy),
    ensures
        strategy.min@ == 4_000_000_000,
        strategy.max matches Some(max) && max@ == 1_800_000_000_000,
        strategy.factor == factor,
        strategy.jitter == jitter,
        strategy.rng is None,
{
}

/// A maximum is set, and nothing else.
pub proof fn maximum_is_set<N, G>(
    before: ExpBackoffStrategy<N, G>,
    max: Delay,
    after: ExpBackoffStrategy<N, G>,
)
    requires
        call_ensures(ExpBackoffStrategy::<N, G>::with_max, (before, max), after),
    ensures
        after.max == Some(max),
        after.min == before.min,
        after.factor == before.factor,
        after.jitter == before.jitter,
        after.rng == before.rng,
{
}

/// A seed sets the standard generator of that seed, whatever was set before, and nothing
/// else.
pub proof fn seed_is_set<N, G>(
    before: ExpBackoffStrategy<N, G>,
    seed: u64,
    after: ExpBackoffStrategy<N, G>,
)
    requires
        call_ensures(ExpBackoffStrategy::<N, G>::with_seed, (before, seed), after),
    ensures
        after.rng matches Some(JitterRng::Std(rng)) && rng == std_rng_of_seed(seed),
        after.min == before.min,
        after.max == before.max,
        after.factor == before.factor,
        after.jitter == before.jitter,
{
}

/// A chosen generator is set, whatever was set before, and nothing else.
pub proof fn generator_is_set<N, G, R: RngCoreClone>(
    before: ExpBackoffStrategy<N, G>,
    rng: R,
    after: ExpBackoffStrategy<N, R>,
)
    requires
        call_ensures(ExpBackoffStrategy::<N, G>::with_rng::<R>, (before, rng), after),
    ensures
        after.rng matches Some(JitterRng::Custom(chosen)) && chosen == rng,
        after.min == before.min,
        after.max == before.max,
        after.factor == before.factor,
        after.jitter == before.jitter,
{
}

/// It does not matter whether the maximum or the seed is set first.
pub proof fn maximum_and_seed_commute<N, G>(
    strategy: ExpBackoffStrategy<N, G>,
    max: Delay,
    seed: u64,
    limited: ExpBackoffStrategy<N, G>,
    limited_seeded: ExpBackoffStrategy<N, G>,
    seeded: ExpBackoffStrategy<N, G>,
    seeded_limited: ExpBackoffStrategy<N, G>,
)
    requires
        call_ensures(ExpBackoffStrategy::<N, G>::with_max, (strategy, max), limited),
        call_ensures(ExpBackoffStrategy::<N, G>::with_seed, (limited, seed), limited_seeded),
        call_ensures(ExpBackoffStrategy::<N, G>::with_seed, (strategy, seed), seeded),
        call_ensures(ExpBackoffStrategy::<N, G>::with_max, (seeded, max), seeded_limited),
    ensures
        limited_seeded == seeded_limited,
{
}

/// The standard generator is copied as it is, and a chosen one is cloned.
pub proof fn generator_is_copied<G: RngCoreClone>(rng: JitterRng<G>, copy: JitterRng<G>)
    requires
        call_ensures(JitterRng::<G>::duplicate, (&rng,), copy),
    ensures
        copy is Std <==> rng is Std,
        rng matches JitterRng::Std(_) ==> copy == rng,
        rng matches JitterRng::Custom(chosen) ==> {
            &&& copy matches JitterRng::Custom(clone)
            &&& cloned(chosen, clone)
        },
{
}

/// A sequence of delays begins at the first power, with the parameters of its strategy and a
/// generator of its own: a copy of that of the strategy, or the given one where it has none.
pub proof fn sequence_begins<N, G: RngCoreClone>(
    strategy: ExpBackoffStrategy<N, G>,
    fresh: StdRng,
    iter: ExpBackoffIter<N, G>,
)
    requires
        call_ensures(ExpBackoffStrategy::<N, G>::into_iter_from, (strategy, fresh), iter),
    ensures
        iter.strategy == strategy,
        iter.pow == 0,
        strategy.rng is None ==> (iter.rng matches JitterRng::Std(rng) && rng == fresh),
        strategy.rng matches Some(JitterRng::Std(rng)) ==> iter.rng == JitterRng::<G>::Std(rng),
        strategy.rng matches Some(JitterRng::Custom(chosen)) ==> {
            &&& iter.rng matches JitterRng::Custom(clone)
            &&& cloned(chosen, clone)
        },
{
}

/// The same with a generator that the operating system seeds, where the strategy has none.
/// There is always a sequence where it has one.
pub proof fn sequence_begins_by_itself<N, G: RngCoreClone>(
    strategy: ExpBackoffStrategy<N, G>,
    begun: Option<ExpBackoffIter<N, G>>,
)
    requires
        call_ensures(ExpBackoffStrategy::<N, G>::into_iter, (strategy,), begun),
    ensures
        begun matches Some(iter) ==> iter.strategy == strategy && iter.pow == 0,
        strategy.rng is Some ==> begun is Some,
        strategy.rng matches Some(JitterRng::Std(rng)) ==> begun->0.rng == JitterRng::<G>::Std(rng),
        strategy.rng matches Some(JitterRng::Custom(chosen)) ==> {
            &&& begun->0.rng matches JitterRng::Custom(clone)
            &&& cloned(chosen, clone)
        },
        strategy.rng is None ==> match begun {
            Some(iter) => iter.rng is Std && drawn(Some(iter.rng->Std_0)),
            None => drawn(None),
        },
{
}

/// With the same seed two strategies with the same parameters begin with the same sequence.
pub proof fn seed_fixes_the_sequence<N, G: RngCoreClone>(
    strategy: ExpBackoffStrategy<N, G>,
    seed: u64,
    seeded: ExpBackoffStrategy<N, G>,
    first: Option<ExpBackoffIter<N, G>>,
    again: ExpBackoffStrategy<N, G>,
    second: Option<ExpBackoffIter<N, G>>,
)
    requires
        call_ensures(ExpBackoffStrategy::<N, G>::with_seed, (strategy, seed), seeded),
        call_ensures(ExpBackoffStrategy::<N, G>::into_iter, (seeded,), first),
        call_ensures(ExpBackoffStrategy::<N, G>::with_seed, (strategy, seed), again),
        call_ensures(ExpBackoffStrategy::<N, G>::into_iter, (again,), second),
    ensures
        first is Some,
        first == second,
{
}

/// A delay is what the power and the jitter give, or the maximum, whichever is shorter; and
/// the longest delay there is where neither sets a limit.
pub proof fn next_delay<N, G>(
    before: ExpBackoffIter<N, G>,
    current: Option<Delay>,
    delay: Delay,
    after: ExpBackoffIter<N, G>,
)
    requires
        exists|iter: &mut ExpBackoffIter<N, G>|
            *iter == before && *final(iter) == after && #[trigger] call_ensures(
                ExpBackoffIter::<N, G>::next,
                (iter, current),
                delay,
            ),
    ensures
        before.strategy.max matches Some(max) ==> delay@ <= max@,
        current matches Some(current) ==> delay@ <= current@,
        before.strategy.max is Some || current is Some ==> {
            ||| before.strategy.max is Some && delay@ == before.strategy.max->0@
            ||| current is Some && delay@ == current->0@
        },
        before.strategy.max is None && current is None ==> delay@
            == 18_446_744_073_709_551_615_999_999_999,
{
}

/// Every delay moves on to the next power, until the last one, and changes nothing else: the
/// generator is drawn from by whoever computes the delays.
pub proof fn next_power<N, G>(
    before: ExpBackoffIter<N, G>,
    current: Option<Delay>,
    delay: Delay,
    after: ExpBackoffIter<N, G>,
)
    requires
        exists|iter: &mut ExpBackoffIter<N, G>|
            *iter == before && *final(iter) == after && #[trigger] call_ensures(
                ExpBackoffIter::<N, G>::next,
                (iter, current),
                delay,
            ),
    ensures
        before.pow < 0xffff_ffff ==> after.pow == before.pow + 1,
        before.pow == 0xffff_ffff ==> after.pow == before.pow,
        after.strategy == before.strategy,
        after.rng == before.rng,
{
}

} // verus!
