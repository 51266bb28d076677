//! The strategies that give the delays between attempts to connect.

use rand::rngs::StdRng;
use rand::SeedableRng;
use vstd::prelude::*;

use crate::delay::{Delay, MAX_NANOS, NANOS_PER_SEC};

verus! {

/// The standard generator of `rand`, held as an opaque value.
#[verifier::external_type_specification]
#[verifier::external_body]
pub struct ExStdRng(rand::rngs::StdRng);

/// The generator that `StdRng::seed_from_u64` makes of a seed.
pub uninterp spec fn std_rng_of_seed(seed: u64) -> StdRng;

/// Calls `StdRng::seed_from_u64`. The generator is a function of the seed alone: the
/// seed is expanded by a fixed recurrence into the key of the cipher.
#[verifier::external_body]
fn seed_std_rng(seed: u64) -> (rng: StdRng)
    ensures
        rng == std_rng_of_seed(seed),
{
    StdRng::seed_from_u64(seed)
}

/// Calls `StdRng::from_rng` on `OsRng`: a generator seeded by the operating system, or
/// nothing where the operating system reports an error. Nothing is claimed of the result: it
/// rests on chance and on the machine.
#[verifier::external_body]
fn draw_std_rng() -> (fresh: Option<StdRng>) {
    StdRng::from_rng(rand::rngs::OsRng).ok()
}

/// Whether `fresh` is a possible result of asking the operating system to seed a generator.
pub closed spec fn drawn(fresh: Option<StdRng>) -> bool {
    call_ensures(draw_std_rng, (), fresh)
}

/// `StdRng::clone` gives a generator in the same state: the type is plain data, and every
/// field is copied.
pub assume_specification[ <rand::rngs::StdRng as Clone>::clone ](
    rng: &rand::rngs::StdRng,
) -> (copy: rand::rngs::StdRng)
    ensures
        copy == *rng,
;

/// A random number generator that a strategy can hold. It is cloned for every sequence of
/// delays and may be handed to another thread. The jitter is drawn from it by whoever
/// computes the delays.
pub trait RngCoreClone: Clone + Send + Sync {

}

impl RngCoreClone for StdRng {

}

/// The generator that the jitter of a sequence of delays is drawn from.
pub enum JitterRng<G> {
    /// The standard generator.
    Std(StdRng),
    /// One that the user has chosen.
    Custom(G),
}

impl<G: RngCoreClone> JitterRng<G> {
    /// Whether `copy` is a copy of this generator.
    pub open spec fn copies_to(self, copy: JitterRng<G>) -> bool {
        match (self, copy) {
            (JitterRng::Std(_), _) => copy == self,
            (JitterRng::Custom(rng), JitterRng::Custom(rng_copy)) => cloned(rng, rng_copy),
            _ => false,
        }
    }

    /// A copy of this generator.
    pub fn duplicate(&self) -> (copy: Self)
        ensures
            self.copies_to(copy),
    {
        match self {
            JitterRng::Std(rng) => JitterRng::Std(rng.clone()),
            JitterRng::Custom(rng) => JitterRng::Custom(rng.clone()),
        }
    }
}

/// The exponential backoff strategy: every delay is `factor` times as long as the one
/// before it, up to a maximum, and is varied by a random share of itself, `jitter` at
/// most.
///
/// `N` is the type of the numbers that the delays are computed with.
pub struct ExpBackoffStrategy<N, G> {
    /// The first delay.
    pub min: Delay,
    /// The longest delay. There is no limit but that of [`Delay`] without one.
    pub max: Option<Delay>,
    pub factor: N,
    pub jitter: N,
    /// The generator for the jitter. One is seeded by the operating system without one.
    pub rng: Option<JitterRng<G>>,
}

impl<N> ExpBackoffStrategy<N, StdRng> {
    /// The strategy that starts with `min`.
    pub fn new(min: Delay, factor: N, jitter: N) -> (strategy: Self)
        ensures
            strategy == (ExpBackoffStrategy::<N, StdRng> {
                min,
                max: None,
                factor,
                jitter,
                rng: None,
            }),
    {
        ExpBackoffStrategy { min, max: None, factor, jitter, rng: None }
    }

    /// The default strategy, for a given factor and jitter: from four seconds to half an
    /// hour.
    pub fn default_limits(factor: N, jitter: N) -> (strategy: Self)
        ensures
            strategy.min@ == 4 * NANOS_PER_SEC,
            strategy.max is Some,
            strategy.max->0@ == 30 * 60 * NANOS_PER_SEC,
            strategy.factor == factor,
            strategy.jitter == jitter,
            strategy.rng is None,
    {
        ExpBackoffStrategy::new(Delay::from_secs(4), factor, jitter).with_max(
            Delay::from_secs(30 * 60),
        )
    }
}

impl<N, G> ExpBackoffStrategy<N, G> {
    /// This strategy with `max` as its longest delay.
    pub fn with_max(self, max: Delay) -> (strategy: Self)
        ensures
            strategy == (ExpBackoffStrategy::<N, G> { max: Some(max), ..self }),
    {
        ExpBackoffStrategy { max: Some(max), ..self }
    }

    /// This strategy with its jitter drawn from the standard generator, seeded with
    /// `seed`.
    pub fn with_seed(self, seed: u64) -> (strategy: Self)
        ensures
            strategy == (ExpBackoffStrategy::<N, G> {
                rng: Some(JitterRng::Std(std_rng_of_seed(seed))),
                ..self
            }),
    {
        ExpBackoffStrategy { rng: Some(JitterRng::Std(seed_std_rng(seed))), ..self }
    }

    /// This strategy with its jitter drawn from `rng`.
    pub fn with_rng<R: RngCoreClone>(self, rng: R) -> (strategy: ExpBackoffStrategy<N, R>)
        ensures
            strategy == (ExpBackoffStrategy::<N, R> {
                min: self.min,
                max: self.max,
                factor: self.factor,
                jitter: self.jitter,
                rng: Some(JitterRng::Custom(rng)),
            }),
    {
        ExpBackoffStrategy {
            min: self.min,
            max: self.max,
            factor: self.factor,
            jitter: self.jitter,
            rng: Some(JitterRng::Custom(rng)),
        }
    }
}

impl<N, G: RngCoreClone> ExpBackoffStrategy<N, G> {
    /// Whether `iter` is the beginning of a sequence of delays of this strategy, where
    /// `fresh` is the generator to use if the strategy has none.
    pub open spec fn begins(self, fresh: StdRng, iter: ExpBackoffIter<N, G>) -> bool {
        &&& iter.strategy == self
        &&& iter.pow == 0
        &&& match self.rng {
            Some(rng) => rng.copies_to(iter.rng),
            None => iter.rng == JitterRng::<G>::Std(fresh),
        }
    }

    /// Begins a sequence of delays. The jitter of each sequence is drawn from a generator
    /// of its own: a copy of that of the strategy, or `fresh` where the strategy has none.
    pub fn into_iter_from(self, fresh: StdRng) -> (iter: ExpBackoffIter<N, G>)
        ensures
            self.begins(fresh, iter),
    {
        let rng = match &self.rng {
            Some(rng) => rng.duplicate(),
            None => JitterRng::Std(fresh),
        };
        ExpBackoffIter { strategy: self, pow: 0, rng }
    }

    /// Begins a sequence of delays. The jitter of each sequence is drawn from a generator
    /// of its own: a copy of that of the strategy, or one that the operating system seeds
    /// where the strategy has none. There is no sequence where one is needed and the
    /// operating system has no entropy to give.
    pub fn into_iter(self) -> (iter: Option<ExpBackoffIter<N, G>>)
        ensures
            match self.rng {
                Some(rng) => {
                    &&& iter is Some
                    &&& iter->0.strategy == self
                    &&& iter->0.pow == 0
                    &&& rng.copies_to(iter->0.rng)
                },
                None => exists|fresh: Option<StdRng>| #[trigger]
                    drawn(fresh) && match fresh {
                        Some(rng) => iter is Some && self.begins(rng, iter->0),
                        None => iter is None,
                    },
            },
    {
        match &self.rng {
            Some(rng) => {
                let rng = rng.duplicate();
                Some(ExpBackoffIter { strategy: self, pow: 0, rng })
            },
            None => {
                let fresh = draw_std_rng();
                assert(drawn(fresh));
                match fresh {
                    Some(rng) => Some(self.into_iter_from(rng)),
                    None => None,
                }
            },
        }
    }
}

/// Where a strategy has no generator, that of its sequence is what the operating system gave,
/// and there is no sequence just if it gave none.
proof fn fresh_generator_is_drawn<N, G: RngCoreClone>(
    strategy: ExpBackoffStrategy<N, G>,
    begun: Option<ExpBackoffIter<N, G>>,
)
    requires
        strategy.rng is None,
        call_ensures(ExpBackoffStrategy::<N, G>::into_iter, (strategy,), begun),
    ensures
        match begun {
            Some(iter) => iter.rng is Std && call_ensures(
                draw_std_rng,
                (),
                Some(iter.rng->Std_0),
            ),
            None => call_ensures(draw_std_rng, (), None),
        },
{
}

/// A sequence of delays of an [`ExpBackoffStrategy`].
pub struct ExpBackoffIter<N, G> {
    pub strategy: ExpBackoffStrategy<N, G>,
    /// The power of the factor in the next delay.
    pub pow: u32,
    pub rng: JitterRng<G>,
}

/// The length of a delay, where `current` is what the power and the jitter give, or
/// nothing if that is longer than any delay.
pub open spec fn capped(max: Option<Delay>, current: Option<Delay>) -> nat {
    match (max, current) {
        (Some(max), Some(current)) => if max@ <= current@ {
            max@
        } else {
            current@
        },
        (Some(max), None) => max@,
        (None, Some(current)) => current@,
        (None, None) => MAX_NANOS as nat,
    }
}

impl<N, G> ExpBackoffIter<N, G> {
    /// Gives the next delay, where `current` is what the power and the jitter give, or
    /// nothing if that is longer than any delay, and moves on to the next power.
    ///
    /// The sequence does not end. The power stays at its limit once it is there.
    pub fn next(&mut self, current: Option<Delay>) -> (delay: Delay)
        ensures
            delay@ == capped(old(self).strategy.max, current),
            *final(self) == (ExpBackoffIter::<N, G> {
                pow: if old(self).pow < u32::MAX {
                    (old(self).pow + 1) as u32
                } else {
                    u32::MAX
                },
                ..*old(self)
            }),
    {
        self.pow = self.pow.saturating_add(1);
        match (self.strategy.max, current) {
            (Some(max), Some(current)) => max.min(current),
            (Some(max), None) => max,
            (None, Some(current)) => current,
            (None, None) => Delay::longest(),
        }
    }
}

} // verus!
