//! The strategies, with the floating-point part of the computation around them.

use std::time::Duration;

use rand::rngs::StdRng;
use rand::{Rng, RngCore, SeedableRng};
use stream_reconnect::delay::Delay;
use stream_reconnect::strategies::{ExpBackoffIter, ExpBackoffStrategy, JitterRng, RngCoreClone};

fn delay(duration: Duration) -> Delay {
    Delay::new(duration.as_secs(), duration.subsec_nanos())
}

fn duration(delay: Delay) -> Duration {
    Duration::new(delay.as_secs(), delay.subsec_nanos())
}

fn secs(secs: u64) -> Delay {
    Delay::from_secs(secs)
}

/// The next delay, drawn and computed as the strategy has it.
fn next<G: RngCore>(iter: &mut ExpBackoffIter<f64, G>) -> Duration {
    let init = duration(iter.strategy.min).as_secs_f64();
    let base = init * iter.strategy.factor.powf(iter.pow as f64);
    let sample = match &mut iter.rng {
        JitterRng::Std(rng) => rng.gen::<f64>(),
        JitterRng::Custom(rng) => rng.gen::<f64>(),
    };
    let jitter = base * iter.strategy.jitter * (sample * 2. - 1.);
    let current = Duration::try_from_secs_f64(base + jitter).ok();
    duration(iter.next(current.map(delay)))
}

#[test]
fn test_exponential_backoff_jitter_values() {
    let mut backoff_iter = ExpBackoffStrategy::new(delay(Duration::from_secs(1)), 2., 0.1)
        .with_seed(0)
        .into_iter()
        .unwrap();
    let expected_values = [
        1.046222683,
        2.109384073,
        3.620675707,
        8.134654819,
        15.238946024,
        33.740716196,
        60.399320456,
        135.51906449,
        268.766127569,
    ];
    for expected in expected_values {
        let value = next(&mut backoff_iter).as_secs_f64();
        assert!(
            (value - expected).abs() < 0.0001,
            "{} != {}",
            value,
            expected
        );
    }
}

#[test]
fn test_exponential_backoff_max_value() {
    let mut backoff_iter = ExpBackoffStrategy::new(delay(Duration::from_secs(1)), 2., 0.0)
        .with_seed(0)
        .with_max(delay(Duration::from_secs(8)))
        .into_iter()
        .unwrap();
    let expected_values = [1.0, 2.0, 4.0, 8.0, 8.0];
    for expected in expected_values {
        let value = next(&mut backoff_iter).as_secs_f64();
        assert!(
            (value - expected).abs() < 0.0001,
            "{} != {}",
            value,
            expected
        );
    }
}

#[test]
fn backoff_goes_on_at_its_maximum() {
    let mut iter = ExpBackoffStrategy::new(secs(1), 2., 0.0)
        .with_seed(0)
        .with_max(secs(30))
        .into_iter()
        .unwrap();
    let mut last = Duration::ZERO;
    for _ in 0..200 {
        last = next(&mut iter);
    }
    assert_eq!(last, Duration::from_secs(30));
    assert_eq!(iter.pow, 200);
}

#[test]
fn backoff_without_maximum_stops_at_the_longest_delay() {
    let mut iter = ExpBackoffStrategy::new(secs(1), 2., 0.0).with_seed(0).into_iter().unwrap();
    for pow in 0..100 {
        let value = next(&mut iter);
        if pow < 64 {
            assert_eq!(value, Duration::from_secs(1u64 << pow));
        } else {
            assert_eq!(value, Duration::MAX);
        }
    }
}

#[test]
fn power_stays_at_its_limit() {
    let mut iter = ExpBackoffStrategy::new(secs(1), 2u8, 0u8).with_seed(0).into_iter().unwrap();
    assert_eq!(iter.pow, 0);
    iter.pow = u32::MAX - 1;
    assert_eq!(iter.next(None), Delay::longest());
    assert_eq!(iter.pow, u32::MAX);
    assert_eq!(iter.next(Some(secs(3))), secs(3));
    assert_eq!(iter.pow, u32::MAX);
}

#[test]
fn cap_keeps_order() {
    let mut iter = ExpBackoffStrategy::new(secs(1), 2u8, 0u8)
        .with_seed(0)
        .with_max(secs(5))
        .into_iter()
        .unwrap();
    let delays: Vec<Delay> = [3, 4, 5, 6, 7].map(|s| iter.next(Some(secs(s)))).to_vec();
    assert_eq!(delays, [3, 4, 5, 5, 5].map(secs));
    assert_eq!(iter.next(None), secs(5));
    assert_eq!(iter.pow, 6);
}

#[test]
fn delays_never_shrink_without_a_maximum() {
    for seed in 0..20 {
        let mut iter = ExpBackoffStrategy::new(secs(1), 2., 0.25)
            .with_seed(seed)
            .into_iter()
            .unwrap();
        let delays: Vec<Duration> = (0..80).map(|_| next(&mut iter)).collect();
        assert!(delays.windows(2).all(|pair| pair[0] <= pair[1]));
        assert!(delays[66..].iter().all(|delay| *delay == Duration::MAX));
    }
}

#[test]
fn same_seed_gives_the_same_delays() {
    let strategy = |seed: u64| ExpBackoffStrategy::new(secs(1), 2., 0.5).with_seed(seed);
    let mut first = strategy(7).into_iter().unwrap();
    let mut second = strategy(7).into_iter().unwrap();
    let mut other = strategy(8).into_iter().unwrap();
    let mut differs = false;
    for _ in 0..10 {
        let value = next(&mut first);
        assert_eq!(value, next(&mut second));
        differs |= value != next(&mut other);
    }
    assert!(differs);
}

#[test]
fn seed_replaces_the_entropy_seed() {
    let mut expected = StdRng::seed_from_u64(42);
    let mut iter = ExpBackoffStrategy::new(secs(1), 2., 0.5).with_seed(42).into_iter().unwrap();
    match &mut iter.rng {
        JitterRng::Std(rng) => assert_eq!(rng.next_u64(), expected.next_u64()),
        JitterRng::Custom(_) => panic!("a seed makes a standard generator"),
    }
}

#[test]
fn no_generator_means_a_fresh_one_for_every_sequence() {
    let strategy = || ExpBackoffStrategy::new(secs(1), 2., 0.5);
    let word = |mut iter: ExpBackoffIter<f64, StdRng>| match &mut iter.rng {
        JitterRng::Std(rng) => (rng.next_u64(), rng.next_u64()),
        JitterRng::Custom(_) => panic!("no generator was chosen"),
    };
    assert!(strategy().rng.is_none());
    assert_ne!(word(strategy().into_iter().unwrap()), word(strategy().into_iter().unwrap()));
}

/// The first word that the standard generator of a sequence gives.
fn first_word(mut iter: ExpBackoffIter<f64, StdRng>) -> u64 {
    match &mut iter.rng {
        JitterRng::Std(rng) => rng.next_u64(),
        JitterRng::Custom(_) => panic!("no generator was chosen"),
    }
}

#[test]
fn given_generator_is_used_where_the_strategy_has_none() {
    let fresh = || StdRng::seed_from_u64(3);
    let iter = ExpBackoffStrategy::new(secs(1), 2., 0.5).into_iter_from(fresh());
    assert_eq!(iter.pow, 0);
    assert!(iter.strategy.rng.is_none());
    assert_eq!(first_word(iter), fresh().next_u64());
    let seeded = ExpBackoffStrategy::new(secs(1), 2., 0.5).with_seed(4);
    let expected = StdRng::seed_from_u64(4).next_u64();
    assert_eq!(first_word(seeded.into_iter_from(fresh())), expected);
    let chosen = ExpBackoffStrategy::new(secs(1), 2., 0.5).with_rng(Counter(5));
    match chosen.into_iter_from(fresh()).rng {
        JitterRng::Custom(rng) => assert_eq!(rng.0, 5),
        JitterRng::Std(_) => panic!("the chosen generator is gone"),
    }
}

#[test]
fn delays_never_shrink_and_stay_at_the_maximum() {
    for seed in 0..20 {
        let mut iter = ExpBackoffStrategy::new(secs(1), 2., 0.25)
            .with_seed(seed)
            .with_max(secs(100))
            .into_iter()
            .unwrap();
        let delays: Vec<Duration> = (0..30).map(|_| next(&mut iter)).collect();
        assert!(delays.windows(2).all(|pair| pair[0] <= pair[1]));
        assert!(delays[0] < Duration::from_secs(2));
        assert!(delays[10..].iter().all(|delay| *delay == Duration::from_secs(100)));
    }
}

#[test]
fn delay_is_the_smaller_of_maximum_and_uncapped() {
    let strategy = || ExpBackoffStrategy::new(secs(1), 2., 0.5).with_seed(6);
    let mut uncapped = strategy().into_iter().unwrap();
    let mut capped = strategy().with_max(secs(20)).into_iter().unwrap();
    for _ in 0..80 {
        assert_eq!(next(&mut capped), next(&mut uncapped).min(Duration::from_secs(20)));
    }
}

/// A generator that counts.
#[derive(Clone)]
struct Counter(u64);

impl RngCore for Counter {
    fn next_u32(&mut self) -> u32 {
        self.next_u64() as u32
    }

    fn next_u64(&mut self) -> u64 {
        self.0 += 1;
        self.0
    }

    fn fill_bytes(&mut self, dest: &mut [u8]) {
        dest.fill(0);
    }

    fn try_fill_bytes(&mut self, dest: &mut [u8]) -> Result<(), rand::Error> {
        self.fill_bytes(dest);
        Ok(())
    }
}

impl RngCoreClone for Counter {}

#[test]
fn sequence_draws_from_a_copy_of_the_chosen_generator() {
    let mut iter = ExpBackoffStrategy::new(secs(1), 1., 1.)
        .with_rng(Counter(5))
        .into_iter()
        .unwrap();
    next(&mut iter);
    next(&mut iter);
    match (&iter.rng, &iter.strategy.rng) {
        (JitterRng::Custom(used), Some(JitterRng::Custom(kept))) => {
            assert_eq!(used.0, 7);
            assert_eq!(kept.0, 5);
        }
        _ => panic!("the chosen generator is gone"),
    }
}

#[test]
fn builders_set_one_thing_each() {
    let strategy = ExpBackoffStrategy::new(secs(2), 3u8, 4u8);
    assert_eq!(strategy.min, secs(2));
    assert_eq!(strategy.max, None);
    assert_eq!((strategy.factor, strategy.jitter), (3, 4));
    assert!(strategy.rng.is_none());
    let strategy = strategy.with_max(secs(9));
    assert_eq!(strategy.max, Some(secs(9)));
    let strategy = strategy.with_rng(Counter(1)).with_seed(0);
    assert!(matches!(strategy.rng, Some(JitterRng::Std(_))));
    assert_eq!(strategy.min, secs(2));
    assert_eq!(strategy.max, Some(secs(9)));
    assert_eq!((strategy.factor, strategy.jitter), (3, 4));
}

#[test]
fn default_limits_are_four_seconds_and_half_an_hour() {
    let strategy = ExpBackoffStrategy::default_limits(2.0, 0.05);
    assert_eq!(strategy.min, secs(4));
    assert_eq!(strategy.max, Some(secs(1800)));
    assert_eq!((strategy.factor, strategy.jitter), (2.0, 0.05));
    assert!(strategy.rng.is_none());
}

#[test]
fn delay_keeps_seconds_and_nanoseconds() {
    let span = Duration::new(u64::MAX, 999_999_999);
    assert_eq!(delay(span), Delay::longest());
    assert_eq!(duration(Delay::longest()), Duration::MAX);
    let span = Delay::new(12, 345);
    assert_eq!((span.as_secs(), span.subsec_nanos()), (12, 345));
    assert_eq!(Delay::from_secs(3), Delay::new(3, 0));
    assert_eq!(span.min(secs(12)), secs(12));
    assert_eq!(secs(12).min(span), secs(12));
}
