//! The asynchronous, progress-streaming search.

use std::sync::Arc;

use seed_maker::EvalError;
use seed_maker::Predictor;
use seed_maker::Progress;
use seed_maker::ReportError;
use seed_maker::SeedFinder;
use seed_maker::WorldState;

/// Matches exactly the listed seeds.
#[derive(Debug)]
struct SmallSet(Vec<u32>);

impl Predictor for SmallSet {
    fn predict(&self, state: &WorldState) -> Result<bool, EvalError> {
        Ok(self.0.contains(&state.game_id))
    }

    fn report(&self, _state: &WorldState) -> Result<String, ReportError> {
        Ok(String::from("listed\n"))
    }
}

#[test]
fn streaming_progress_steps_and_terminal_result() {
    let finder = Arc::new(SeedFinder::new(
        10,
        WorldState::new(),
        vec![SmallSet(vec![5, 500, 99_999])],
    ));
    let rx = SeedFinder::find_seeds_async_in(finder.clone(), 100, 0, 100_000);

    let mut progress: Vec<usize> = Vec::new();
    let mut complete: Option<Vec<i32>> = None;
    for msg in rx {
        match msg {
            Progress::Progress(n) => progress.push(n),
            Progress::Complete(seeds) => complete = Some(seeds),
        }
    }

    // The range of 100000 candidates splits into 100 steps of width 1000;
    // the worker that reaches the first candidate of a step advances the
    // shared counter by the step width, so across the whole scan the
    // reported counts are exactly {k * 1000 + 1} for k in 0..100, in some
    // worker-dependent order: the deltas between consecutive sorted counts
    // are the step width.
    progress.sort();
    assert_eq!(progress.len(), 100);
    let mut expected: Vec<usize> = Vec::new();
    let mut k: usize = 0;
    while k < 100 {
        expected.push(k * 1000 + 1);
        k += 1;
    }
    assert_eq!(progress, expected);

    // The terminal message carries the match list; with fewer matches than
    // the cap it equals the synchronous result as a set.
    let mut seeds = complete.expect("terminal message missing");
    seeds.sort();
    assert_eq!(seeds, vec![5, 500, 99_999]);
    let sync = finder.find_seeds_in(0, 100_000);
    assert_eq!(seeds, sync);
}

#[test]
fn streaming_respects_the_cap() {
    let finder = Arc::new(SeedFinder::new(
        2,
        WorldState::new(),
        vec![SmallSet(vec![10, 20, 30, 40])],
    ));
    let rx = SeedFinder::find_seeds_async_in(finder.clone(), 10, 0, 1_000);
    let mut complete: Option<Vec<i32>> = None;
    for msg in rx {
        if let Progress::Complete(seeds) = msg {
            complete = Some(seeds);
        }
    }
    let seeds = complete.expect("terminal message missing");
    assert_eq!(seeds.len(), 2);
    for seed in &seeds {
        assert_eq!(finder.evaluate(*seed), Ok(true));
    }
}
