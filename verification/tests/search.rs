//! The search engine: conjunction semantics, the cap, determinism, and the
//! end-to-end scenario with a stubbed weather simulation.

use std::sync::atomic::AtomicUsize;
use std::sync::atomic::Ordering;

use seed_maker::EvalError;
use seed_maker::Predictor;
use seed_maker::ReportError;
use seed_maker::SeedFinder;
use seed_maker::Weather;
use seed_maker::WeatherConfig;
use seed_maker::WeatherForecast;
use seed_maker::WorldState;

/// A leaf whose simulation half is stubbed: the weather forecast reports
/// certain rain exactly for the listed seeds; the decision half is the
/// library's own [`Weather`] rule.
#[derive(Debug)]
struct StubRain {
    criteria: Weather,
    rainy_seeds: Vec<u32>,
}

impl StubRain {
    fn new(rainy_seeds: Vec<u32>) -> Self {
        StubRain {
            criteria: Weather::new(&WeatherConfig {
                is_rain: true,
                is_storm: false,
                maybe_storm: false,
            }),
            rainy_seeds,
        }
    }
}

impl Predictor for StubRain {
    fn predict(&self, state: &WorldState) -> Result<bool, EvalError> {
        let rains = self.rainy_seeds.contains(&state.game_id);
        let forecast = WeatherForecast {
            certain_rain_or_storm: rains,
            certain_storm: false,
            possible_storm: true,
        };
        Ok(self.criteria.decide(&forecast))
    }

    fn report(&self, _state: &WorldState) -> Result<String, ReportError> {
        Ok(String::from("Weather: rain\n"))
    }
}

/// Matches when the seed is divisible by the modulus.
#[derive(Debug)]
struct Divisible(u32);

impl Predictor for Divisible {
    fn predict(&self, state: &WorldState) -> Result<bool, EvalError> {
        Ok(state.game_id % self.0 == 0)
    }

    fn report(&self, _state: &WorldState) -> Result<String, ReportError> {
        Ok(format!("divisible by {}\n", self.0))
    }
}

/// Never matches, and counts how often it was consulted.
#[derive(Debug)]
struct NeverCounting<'a>(&'a AtomicUsize);

impl<'a> Predictor for NeverCounting<'a> {
    fn predict(&self, _state: &WorldState) -> Result<bool, EvalError> {
        self.0.fetch_add(1, Ordering::Relaxed);
        Ok(false)
    }

    fn report(&self, _state: &WorldState) -> Result<String, ReportError> {
        Ok(String::new())
    }
}

/// Always matches, and counts how often it was consulted.
#[derive(Debug)]
struct AlwaysCounting<'a>(&'a AtomicUsize);

impl<'a> Predictor for AlwaysCounting<'a> {
    fn predict(&self, _state: &WorldState) -> Result<bool, EvalError> {
        self.0.fetch_add(1, Ordering::Relaxed);
        Ok(true)
    }

    fn report(&self, _state: &WorldState) -> Result<String, ReportError> {
        Ok(String::new())
    }
}

/// Fails its computation on one seed, matches everywhere else.
#[derive(Debug)]
struct FailsOnSeed(u32);

impl Predictor for FailsOnSeed {
    fn predict(&self, state: &WorldState) -> Result<bool, EvalError> {
        if state.game_id == self.0 {
            Err(EvalError { reason: String::from("no data for this seed") })
        } else {
            Ok(true)
        }
    }

    fn report(&self, _state: &WorldState) -> Result<String, ReportError> {
        Ok(String::new())
    }
}

#[test]
fn end_to_end_stubbed_rain_returns_first_five() {
    let rainy = vec![3, 17, 42, 99, 256, 1000];
    let finder = SeedFinder::new(5, WorldState::new(), vec![StubRain::new(rainy)]);
    let seeds = finder.find_seeds_in(0, 2000);
    assert_eq!(seeds, vec![3, 17, 42, 99, 256]);
}

#[test]
fn search_collects_all_matches_under_the_cap() {
    let rainy = vec![3, 17, 42, 99, 256, 1000];
    let finder = SeedFinder::new(50, WorldState::new(), vec![StubRain::new(rainy)]);
    let seeds = finder.find_seeds_in(0, 2000);
    assert_eq!(seeds, vec![3, 17, 42, 99, 256, 1000]);
}

#[test]
fn every_returned_seed_satisfies_the_predicate_alone() {
    let finder = SeedFinder::new(7, WorldState::new(), vec![Divisible(3), Divisible(5)]);
    let seeds = finder.find_seeds_in(0, 200);
    assert_eq!(seeds.len(), 7);
    for seed in &seeds {
        assert_eq!(finder.evaluate(*seed), Ok(true));
        assert!(*seed % 15 == 0);
    }
}

#[test]
fn conjunction_requires_every_predicate() {
    let finder = SeedFinder::new(100, WorldState::new(), vec![Divisible(2), Divisible(3)]);
    let seeds = finder.find_seeds_in(0, 30);
    assert_eq!(seeds, vec![0, 6, 12, 18, 24]);
}

/// A heterogeneous predictor for lists that mix stub kinds.
#[derive(Debug)]
enum Mixed<'a> {
    Never(NeverCounting<'a>),
    Always(AlwaysCounting<'a>),
    Rain(StubRain),
    Div(Divisible),
}

impl<'a> Predictor for Mixed<'a> {
    fn predict(&self, state: &WorldState) -> Result<bool, EvalError> {
        match self {
            Mixed::Never(p) => p.predict(state),
            Mixed::Always(p) => p.predict(state),
            Mixed::Rain(p) => p.predict(state),
            Mixed::Div(p) => p.predict(state),
        }
    }

    fn report(&self, state: &WorldState) -> Result<String, ReportError> {
        match self {
            Mixed::Never(p) => p.report(state),
            Mixed::Always(p) => p.report(state),
            Mixed::Rain(p) => p.report(state),
            Mixed::Div(p) => p.report(state),
        }
    }
}

#[test]
fn short_circuit_skips_later_predicates() {
    let never = AtomicUsize::new(0);
    let later = AtomicUsize::new(0);
    let finder = SeedFinder::new(
        10,
        WorldState::new(),
        vec![Mixed::Never(NeverCounting(&never)), Mixed::Always(AlwaysCounting(&later))],
    );
    let seeds = finder.find_seeds_in(0, 25);
    assert!(seeds.is_empty());
    assert_eq!(never.load(Ordering::Relaxed), 25);
    // The first predicate failed every candidate, so the second was never
    // consulted: the order changes the call count, not the result.
    assert_eq!(later.load(Ordering::Relaxed), 0);
}

#[test]
fn evaluation_is_deterministic_across_reruns() {
    let rainy = vec![3, 17, 42];
    let finder = SeedFinder::new(10, WorldState::new(), vec![StubRain::new(rainy)]);
    for seed in [0, 3, 17, 40] {
        assert_eq!(finder.evaluate(seed), finder.evaluate(seed));
    }
    let first = finder.find_seeds_in(0, 100);
    let second = finder.find_seeds_in(0, 100);
    assert_eq!(first, second);
}

#[test]
fn failing_candidate_is_skipped_not_fatal() {
    let finder = SeedFinder::new(100, WorldState::new(), vec![FailsOnSeed(7)]);
    let seeds = finder.find_seeds_in(0, 10);
    assert_eq!(seeds, vec![0, 1, 2, 3, 4, 5, 6, 8, 9]);
    // The failure stays visible through single-candidate evaluation.
    assert!(finder.evaluate(7).is_err());
    assert_eq!(finder.evaluate(8), Ok(true));
}

#[test]
fn parallel_search_agrees_with_sequential() {
    let rainy = vec![3, 17, 42, 99, 256, 1000];
    let finder = SeedFinder::new(50, WorldState::new(), vec![StubRain::new(rainy)]);
    let par = finder.find_seeds_par_in(0, 2000);
    let seq = finder.find_seeds_in(0, 2000);
    // With fewer matches than the cap, both scans collect the whole
    // matching set, in increasing order.
    assert_eq!(par, seq);
    assert_eq!(par, vec![3, 17, 42, 99, 256, 1000]);
}

#[test]
fn parallel_search_respects_the_cap() {
    let finder = SeedFinder::new(4, WorldState::new(), vec![Divisible(10)]);
    let seeds = finder.find_seeds_par_in(0, 1000);
    assert_eq!(seeds.len(), 4);
    for seed in &seeds {
        assert_eq!(finder.evaluate(*seed), Ok(true));
    }
}

#[test]
fn report_concatenates_predictor_blocks() {
    let finder = SeedFinder::new(
        10,
        WorldState::new(),
        vec![Mixed::Rain(StubRain::new(vec![42])), Mixed::Div(Divisible(2))],
    );
    let text = finder.report(42).unwrap();
    assert_eq!(text, "Weather: rain\ndivisible by 2\n");
}
