//! The search engine: scans the candidate seed space in parallel, applies
//! the configured predictors as a short-circuit conjunction, collects up to
//! a configured number of matches, and can stream progress while it runs.

use core::sync::atomic::AtomicUsize;
use core::sync::atomic::Ordering;
use std::sync::mpsc::Receiver;
use std::sync::mpsc::Sender;
use std::sync::Arc;

use vstd::prelude::*;

use crate::error::EvalError;
use crate::error::ReportError;
use crate::predictor::Predictor;
use crate::state::WorldState;

use rayon::iter::IntoParallelIterator;
use rayon::iter::ParallelIterator;

verus! {

/// A message of the progress/result stream of an asynchronous search.
#[derive(Debug, PartialEq, Eq)]
pub enum Progress {
    /// A report of the number of candidate seeds processed so far, sampled
    /// at coarse step boundaries.
    Progress(usize),
    /// The terminal message: the matched seeds of the completed search.
    Complete(Vec<i32>),
}

/// Declares std::sync::mpsc::Sender, the producing end of the
/// progress/result stream, as an opaque outside type.
#[verifier::external_type_specification]
#[verifier::external_body]
#[verifier::reject_recursive_types(T)]
pub struct ExSender<T>(Sender<T>);

/// Declares std::sync::mpsc::Receiver, the consuming end of the
/// progress/result stream, as an opaque outside type.
#[verifier::external_type_specification]
#[verifier::external_body]
#[verifier::reject_recursive_types(T)]
pub struct ExReceiver<T>(Receiver<T>);

/// The core seed finding engine.
///
/// Holds the composed list of top-level predictors, implicitly AND-ed with
/// short-circuit left-to-right evaluation, the initial world state template,
/// and the maximum number of matches to collect.
pub struct SeedFinder<P: Predictor> {
    /// Maximum number of seeds to collect before the search treats itself
    /// as satisfied.
    pub max_seeds: usize,
    /// The world state template; each candidate's state is derived from it
    /// by substituting the seed.
    pub initial_state: WorldState,
    /// The top-level predictors, AND-ed left to right.
    pub predictors: Vec<P>,
}

impl<P: Predictor> SeedFinder<P> {
    /// Every configured predictor is well-formed.
    pub open spec fn wf(&self) -> bool {
        forall|i: int| 0 <= i < self.predictors@.len() ==> #[trigger] self.predictors@[i].wf()
    }

    /// The world state a candidate seed is evaluated against.
    pub open spec fn state_for(&self, seed: i32) -> WorldState {
        self.initial_state.spec_with_seed(seed as u32)
    }

    /// The outcome of short-circuit left-to-right evaluation from predictor
    /// `i` on: `Ok(true)` when every remaining predictor matches, `Ok(false)`
    /// when one cleanly fails first, `Err` when a delegate failure is reached
    /// first.
    pub open spec fn spec_conj_from(&self, state: WorldState, i: int) -> Result<bool, ()>
        decreases self.predictors@.len() - i,
    {
        if i < 0 || i >= self.predictors@.len() {
            Ok(true)
        } else if !self.predictors@[i].spec_ok(state) {
            Err(())
        } else if !self.predictors@[i].spec_matches(state) {
            Ok(false)
        } else {
            self.spec_conj_from(state, i + 1)
        }
    }

    /// The outcome of evaluating the whole conjunction on `state`.
    pub open spec fn spec_conj(&self, state: WorldState) -> Result<bool, ()> {
        self.spec_conj_from(state, 0)
    }

    /// Whether every predictor evaluates without a delegate failure.
    pub open spec fn all_predictors_ok(&self, state: WorldState) -> bool {
        forall|i: int|
            0 <= i < self.predictors@.len() ==> #[trigger] self.predictors@[i].spec_ok(state)
    }

    /// Whether every predictor's condition holds.
    pub open spec fn all_predictors_match(&self, state: WorldState) -> bool {
        forall|i: int|
            0 <= i < self.predictors@.len() ==> #[trigger] self.predictors@[i].spec_matches(state)
    }

    /// Whether a candidate seed belongs in the search result: its whole
    /// conjunction evaluates cleanly to true.
    pub open spec fn seed_passes(&self, seed: i32) -> bool {
        self.spec_conj(self.state_for(seed)) == Ok::<bool, ()>(true)
    }

    /// Number of passing seeds in `[lo, hi)`.
    pub open spec fn match_count(&self, lo: int, hi: int) -> nat
        decreases hi - lo,
    {
        if lo >= hi {
            0
        } else {
            (if self.seed_passes(lo as i32) {
                1nat
            } else {
                0nat
            }) + self.match_count(lo + 1, hi)
        }
    }

    /// Create a new engine from its parts.
    pub fn new(max_seeds: usize, initial_state: WorldState, predictors: Vec<P>) -> (r: Self)
        ensures
            r.max_seeds == max_seeds,
            r.initial_state == initial_state,
            r.predictors == predictors,
    {
        SeedFinder { max_seeds, initial_state, predictors }
    }

    /// Evaluate the full conjunction for one candidate seed, surfacing a
    /// delegate failure as an error for that candidate alone.
    pub fn evaluate(&self, seed: i32) -> (r: Result<bool, EvalError>)
        requires
            self.wf(),
        ensures
            r is Ok <==> self.spec_conj(self.state_for(seed)) is Ok,
            r matches Ok(b) ==> self.spec_conj(self.state_for(seed)) == Ok::<bool, ()>(b),
    {
        let state = self.initial_state.with_seed(seed as u32);
        let n = self.predictors.len();
        let mut i: usize = 0;
        while i < n
            invariant
                self.wf(),
                n == self.predictors@.len(),
                0 <= i <= n,
                state == self.state_for(seed),
                self.spec_conj(state) == self.spec_conj_from(state, i as int),
            decreases n - i,
        {
            match self.predictors[i].predict(&state) {
                Ok(true) => {},
                Ok(false) => {
                    return Ok(false);
                },
                Err(e) => {
                    return Err(e);
                },
            }
            i = i + 1;
        }
        Ok(true)
    }

    /// Whether one candidate seed passes; a candidate whose evaluation
    /// fails is treated as non-matching, so that a delegate failure never
    /// terminates a scan as a whole.
    pub fn matches_seed(&self, seed: i32) -> (b: bool)
        requires
            self.wf(),
        ensures
            b == self.seed_passes(seed),
    {
        match self.evaluate(seed) {
            Ok(b) => b,
            Err(_) => false,
        }
    }

    proof fn lemma_match_count_split(&self, lo: int, mid: int, hi: int)
        requires
            lo <= mid <= hi,
        ensures
            self.match_count(lo, hi) == self.match_count(lo, mid) + self.match_count(mid, hi),
        decreases mid - lo,
    {
        if lo < mid {
            self.lemma_match_count_split(lo + 1, mid, hi);
        }
    }

    proof fn lemma_match_count_step(&self, lo: int, cur: int)
        requires
            lo <= cur,
        ensures
            self.match_count(lo, cur + 1) == self.match_count(lo, cur) + (
            if self.seed_passes(cur as i32) {
                1nat
            } else {
                0nat
            }),
    {
        self.lemma_match_count_split(lo, cur, cur + 1);
        assert(self.match_count(cur + 1, cur + 1) == 0);
    }

    /// Scan `[lo, hi)` sequentially and collect the first matches.
    ///
    /// The result holds, in increasing order, exactly those passing seeds
    /// that are preceded by fewer than `max_seeds` passing seeds in the
    /// range: the scan stops claiming candidates once the cap is reached.
    pub fn find_seeds_in(&self, lo: i32, hi: i32) -> (r: Vec<i32>)
        requires
            self.wf(),
            lo <= hi,
        ensures
            r@.len() <= self.max_seeds,
            forall|k: int|
                0 <= k < r@.len() ==> lo <= #[trigger] r@[k] < hi && self.seed_passes(r@[k]),
            forall|k1: int, k2: int| 0 <= k1 < k2 < r@.len() ==> r@[k1] < r@[k2],
            forall|s: i32|
                lo <= s < hi ==> (r@.contains(s) <==> (#[trigger] self.seed_passes(s)
                    && self.match_count(lo as int, s as int) < self.max_seeds)),
    {
        let mut r: Vec<i32> = Vec::new();
        let mut cur: i32 = lo;
        while cur < hi && r.len() < self.max_seeds
            invariant
                self.wf(),
                lo <= cur <= hi,
                r@.len() == self.match_count(lo as int, cur as int),
                r@.len() <= self.max_seeds,
                forall|k: int|
                    0 <= k < r@.len() ==> lo <= #[trigger] r@[k] < cur && self.seed_passes(r@[k]),
                forall|k1: int, k2: int| 0 <= k1 < k2 < r@.len() ==> r@[k1] < r@[k2],
                forall|s: i32| lo <= s < cur ==> (r@.contains(s) <==> #[trigger] self.seed_passes(s)),
            decreases hi - cur,
        {
            let matched = self.matches_seed(cur);
            proof {
                self.lemma_match_count_step(lo as int, cur as int);
            }
            if matched {
                let ghost old_r = r@;
                r.push(cur);
                proof {
                    assert(r@ == old_r.push(cur));
                    assert(r@[old_r.len() as int] == cur);
                    assert(r@.contains(cur));
                    assert forall|s: i32| lo <= s < cur implies (r@.contains(s) <==> old_r.contains(
                        s,
                    )) by {
                        if old_r.contains(s) {
                            let k = choose|k: int| 0 <= k < old_r.len() && old_r[k] == s;
                            assert(r@[k] == s);
                        }
                        if r@.contains(s) {
                            let k = choose|k: int| 0 <= k < r@.len() && r@[k] == s;
                            assert(k < old_r.len());
                            assert(old_r[k] == s);
                        }
                    }
                }
            }
            cur = cur + 1;
        }
        proof {
            if cur < hi {
                assert(r@.len() == self.max_seeds);
                assert forall|s: i32| cur <= s < hi implies !(self.seed_passes(s)
                    && self.match_count(lo as int, s as int) < self.max_seeds) by {
                    self.lemma_match_count_split(lo as int, cur as int, s as int);
                }
                assert forall|s: i32| lo <= s < cur && self.seed_passes(s) implies self.match_count(
                    lo as int,
                    s as int,
                ) < self.max_seeds by {
                    self.lemma_match_count_step(lo as int, s as int);
                    self.lemma_match_count_split(lo as int, s as int + 1, cur as int);
                }
                assert(forall|s: i32| cur <= s < hi ==> !r@.contains(s));
            } else {
                assert forall|s: i32| lo <= s < hi && self.seed_passes(s) implies self.match_count(
                    lo as int,
                    s as int,
                ) < self.max_seeds by {
                    self.lemma_match_count_step(lo as int, s as int);
                    self.lemma_match_count_split(lo as int, s as int + 1, cur as int);
                }
            }
        }
        r
    }

    /// Find seeds synchronously.
    ///
    /// Scans the space `0 .. i32::MAX` in parallel across the worker pool
    /// and returns up to `max_seeds` passing seeds, in increasing order.
    /// When the whole space holds at most `max_seeds` passing seeds, the
    /// result is exactly the full matching set.
    pub fn find_seeds(&self) -> (r: Vec<i32>)
        requires
            self.wf(),
        ensures
            r@.len() <= self.max_seeds,
            forall|k: int|
                0 <= k < r@.len() ==> 0 <= #[trigger] r@[k] < i32::MAX && self.seed_passes(r@[k]),
            forall|k1: int, k2: int| 0 <= k1 < k2 < r@.len() ==> r@[k1] < r@[k2],
            self.match_count(0, i32::MAX as int) <= self.max_seeds ==> forall|s: i32|
                0 <= s < i32::MAX && #[trigger] self.seed_passes(s) ==> r@.contains(s),
    {
        self.find_seeds_par_in(0, i32::MAX)
    }

    /// Find seeds synchronously in the sub-range `[lo, hi)` of the space.
    ///
    /// The same parallel scan as [`SeedFinder::find_seeds`], over a reduced
    /// candidate range.
    pub fn find_seeds_par_in(&self, lo: i32, hi: i32) -> (r: Vec<i32>)
        requires
            self.wf(),
            lo <= hi,
        ensures
            r@.len() <= self.max_seeds,
            forall|k: int|
                0 <= k < r@.len() ==> lo <= #[trigger] r@[k] < hi && self.seed_passes(r@[k]),
            forall|k1: int, k2: int| 0 <= k1 < k2 < r@.len() ==> r@[k1] < r@[k2],
            self.match_count(lo as int, hi as int) <= self.max_seeds ==> forall|s: i32|
                lo <= s < hi && #[trigger] self.seed_passes(s) ==> r@.contains(s),
    {
        par_scan(self, lo, hi)
    }

    /// Asynchronously find seeds.
    ///
    /// Runs the same scan as [`SeedFinder::find_seeds`] in the background
    /// and returns the receiving end of its progress/result stream. The
    /// space is divided into `steps` equal-width steps; a worker that
    /// encounters the first candidate of a step advances a shared counter by
    /// the step width and emits a [`Progress::Progress`] message. One
    /// terminal [`Progress::Complete`] message carries the matched seeds.
    pub fn find_seeds_async(finder: Arc<SeedFinder<P>>, steps: usize) -> (rx: Receiver<Progress>) where
        P: 'static,

        requires
            finder.wf(),
            1 <= steps <= i32::MAX as usize,
    {
        Self::find_seeds_async_in(finder, steps, 0, i32::MAX)
    }

    /// Asynchronously find seeds in the sub-range `[lo, hi)` of the space.
    ///
    /// The same scan and progress stream as [`SeedFinder::find_seeds_async`],
    /// over a reduced candidate range; the step width becomes the range width
    /// divided by `steps`.
    pub fn find_seeds_async_in(
        finder: Arc<SeedFinder<P>>,
        steps: usize,
        lo: i32,
        hi: i32,
    ) -> (rx: Receiver<Progress>) where P: 'static
        requires
            finder.wf(),
            0 <= lo < hi,
            1 <= steps <= (hi - lo) as usize,
    {
        let (tx, rx) = progress_channel();
        spawn_search(finder, steps, tx, lo, hi);
        rx
    }

    /// Conjunction law: the whole conjunction evaluates cleanly to true
    /// exactly when every top-level predictor evaluates without failure and
    /// matches. A seed is in the (uncapped) search result iff this holds of
    /// the state derived from it.
    pub proof fn lemma_conjunction_law(&self, state: WorldState)
        ensures
            self.spec_conj(state) == Ok::<bool, ()>(true) <==> (self.all_predictors_ok(state)
                && self.all_predictors_match(state)),
    {
        self.lemma_conj_from_true(state, 0);
    }

    proof fn lemma_conj_from_true(&self, state: WorldState, i: int)
        requires
            0 <= i <= self.predictors@.len(),
        ensures
            self.spec_conj_from(state, i) == Ok::<bool, ()>(true) <==> ((forall|j: int|
                i <= j < self.predictors@.len() ==> #[trigger] self.predictors@[j].spec_ok(state))
                && (forall|j: int|
                i <= j < self.predictors@.len() ==> #[trigger] self.predictors@[j].spec_matches(
                    state,
                ))),
        decreases self.predictors@.len() - i,
    {
        if i < self.predictors@.len() {
            self.lemma_conj_from_true(state, i + 1);
        }
    }

    /// Conjunction law at the search level: in a scan of `[lo, hi)` whose
    /// cap covers every match in the range, a result list the search
    /// contract allows contains a seed exactly when every top-level
    /// predictor evaluates without failure and matches on the state derived
    /// from that seed.
    pub proof fn lemma_search_membership(&self, r: Seq<i32>, lo: int, hi: int, s: i32)
        requires
            lo <= s < hi,
            forall|t: i32|
                lo <= t < hi ==> (r.contains(t) <==> (#[trigger] self.seed_passes(t)
                    && self.match_count(lo, t as int) < self.max_seeds)),
            self.match_count(lo, hi) <= self.max_seeds,
        ensures
            r.contains(s) <==> (self.all_predictors_ok(self.state_for(s))
                && self.all_predictors_match(self.state_for(s))),
    {
        self.lemma_conjunction_law(self.state_for(s));
        if self.seed_passes(s) {
            self.lemma_match_count_step(lo, s as int);
            self.lemma_match_count_split(lo, s as int + 1, hi);
        }
    }

    /// Short-circuit equivalence: when every predictor evaluates without
    /// failure, evaluating left to right and stopping at the first false
    /// yields exactly the AND of all the predicates; the order affects only
    /// how many predicates are consulted, never the boolean result.
    pub proof fn lemma_short_circuit_equivalence(&self, state: WorldState)
        requires
            self.all_predictors_ok(state),
        ensures
            self.spec_conj(state) == Ok::<bool, ()>(self.all_predictors_match(state)),
    {
        self.lemma_conj_from_and(state, 0);
    }

    proof fn lemma_conj_from_and(&self, state: WorldState, i: int)
        requires
            self.all_predictors_ok(state),
            0 <= i <= self.predictors@.len(),
        ensures
            self.spec_conj_from(state, i) == Ok::<bool, ()>(
                forall|j: int|
                    i <= j < self.predictors@.len() ==> #[trigger] self.predictors@[j].spec_matches(
                        state,
                    ),
            ),
        decreases self.predictors@.len() - i,
    {
        if i < self.predictors@.len() {
            self.lemma_conj_from_and(state, i + 1);
        }
    }

    /// Determinism of the capped search: when the whole scanned range holds
    /// at most `max_seeds` passing seeds, any two result lists the search
    /// contracts allow hold exactly the same seeds — the full matching set.
    pub proof fn lemma_complete_results_agree(&self, a: Seq<i32>, b: Seq<i32>, lo: int, hi: int)
        requires
            forall|k: int| 0 <= k < a.len() ==> lo <= #[trigger] a[k] < hi && self.seed_passes(a[k]),
            forall|k: int| 0 <= k < b.len() ==> lo <= #[trigger] b[k] < hi && self.seed_passes(b[k]),
            forall|s: i32| lo <= s < hi && #[trigger] self.seed_passes(s) ==> a.contains(s),
            forall|s: i32| lo <= s < hi && #[trigger] self.seed_passes(s) ==> b.contains(s),
        ensures
            forall|s: i32| a.contains(s) <==> b.contains(s),
    {
        assert forall|s: i32| a.contains(s) implies b.contains(s) by {
            let k = choose|k: int| 0 <= k < a.len() && a[k] == s;
            assert(self.seed_passes(s));
        }
        assert forall|s: i32| b.contains(s) implies a.contains(s) by {
            let k = choose|k: int| 0 <= k < b.len() && b[k] == s;
            assert(self.seed_passes(s));
        }
    }

    /// Generate the report for a matched seed.
    ///
    /// Derives the world state for `seed` from the configured template and
    /// concatenates every predictor's report in list order.
    pub fn report(&self, seed: i32) -> (r: Result<String, ReportError>)
        requires
            self.wf(),
        ensures
            r is Ok <==> self.reports_ok(seed),
            r matches Ok(s) ==> s@ == self.spec_full_report(seed),
    {
        let state = self.initial_state.with_seed(seed as u32);
        let mut out = String::new();
        let n = self.predictors.len();
        let mut i: usize = 0;
        while i < n
            invariant
                self.wf(),
                n == self.predictors@.len(),
                0 <= i <= n,
                state == self.state_for(seed),
                out@ == self.spec_report_prefix(state, i as int),
                forall|j: int|
                    0 <= j < i ==> #[trigger] self.predictors@[j].report_ok(self.state_for(seed)),
            decreases n - i,
        {
            match self.predictors[i].report(&state) {
                Ok(block) => {
                    out.append(block.as_str());
                    proof {
                        assert(out@ =~= self.spec_report_prefix(state, i + 1));
                    }
                },
                Err(e) => {
                    return Err(e);
                },
            }
            i = i + 1;
        }
        Ok(out)
    }

    /// Whether every predictor's report succeeds on the state derived for
    /// `seed`.
    pub open spec fn reports_ok(&self, seed: i32) -> bool {
        forall|j: int|
            0 <= j < self.predictors@.len() ==> #[trigger] self.predictors@[j].report_ok(
                self.state_for(seed),
            )
    }

    /// The concatenation of the first `i` predictors' report texts.
    pub open spec fn spec_report_prefix(&self, state: WorldState, i: int) -> Seq<char>
        decreases i,
    {
        if i <= 0 {
            Seq::<char>::empty()
        } else {
            self.spec_report_prefix(state, i - 1) + self.predictors@[i - 1].spec_report(state)
        }
    }

    /// The full report text for a matched seed: every predictor's report,
    /// in list order.
    pub open spec fn spec_full_report(&self, seed: i32) -> Seq<char> {
        self.spec_report_prefix(self.state_for(seed), self.predictors@.len() as int)
    }
}

/// Relies on rayon's parallel range iterator with `filter`, `take_any` and
/// `collect`: the collected seeds are a subset, in their original increasing
/// order, of the candidates in `lo..hi` that the verified filter accepted —
/// at most `max_seeds` of them, and all of them when at most `max_seeds`
/// candidates pass.
#[verifier::external_body]
fn par_scan<P: Predictor>(finder: &SeedFinder<P>, lo: i32, hi: i32) -> (r: Vec<i32>)
    requires
        finder.wf(),
        lo <= hi,
    ensures
        r@.len() <= finder.max_seeds,
        forall|k: int| 0 <= k < r@.len() ==> lo <= #[trigger] r@[k] < hi && finder.seed_passes(r@[k]),
        forall|k1: int, k2: int| 0 <= k1 < k2 < r@.len() ==> r@[k1] < r@[k2],
        finder.match_count(lo as int, hi as int) <= finder.max_seeds ==> forall|s: i32|
            lo <= s < hi && #[trigger] finder.seed_passes(s) ==> r@.contains(s),
{
    (lo..hi)
        .into_par_iter()
        .filter(|seed| finder.matches_seed(*seed))
        .take_any(finder.max_seeds)
        .collect()
}

/// Relies on the same rayon pipeline as `par_scan`; the verified filter
/// callback additionally publishes coarse progress through the shared
/// counter and the channel.
#[verifier::external_body]
fn par_scan_with_progress<P: Predictor>(
    finder: &SeedFinder<P>,
    step_size: usize,
    counter: &AtomicUsize,
    tx: &Sender<Progress>,
    lo: i32,
    hi: i32,
) -> (r: Vec<i32>)
    requires
        finder.wf(),
        step_size >= 1,
        0 <= lo <= hi,
    ensures
        r@.len() <= finder.max_seeds,
        forall|k: int| 0 <= k < r@.len() ==> lo <= #[trigger] r@[k] < hi && finder.seed_passes(r@[k]),
        forall|k1: int, k2: int| 0 <= k1 < k2 < r@.len() ==> r@[k1] < r@[k2],
        finder.match_count(lo as int, hi as int) <= finder.max_seeds ==> forall|s: i32|
            lo <= s < hi && #[trigger] finder.seed_passes(s) ==> r@.contains(s),
{
    (lo..hi)
        .into_par_iter()
        .filter(|seed| visit_candidate(finder, *seed, step_size, counter, tx))
        .take_any(finder.max_seeds)
        .collect()
}

/// The per-candidate body of the streaming scan: publish coarse progress on
/// a step boundary, then evaluate the candidate.
fn visit_candidate<P: Predictor>(
    finder: &SeedFinder<P>,
    seed: i32,
    step_size: usize,
    counter: &AtomicUsize,
    tx: &Sender<Progress>,
) -> (b: bool)
    requires
        finder.wf(),
        step_size >= 1,
        seed >= 0,
    ensures
        b == finder.seed_passes(seed),
{
    if (seed as usize) % step_size == 0 {
        let prev = counter.fetch_add(step_size, Ordering::Relaxed);
        let reported = if prev < usize::MAX {
            prev + 1
        } else {
            prev
        };
        send_message(tx, Progress::Progress(reported));
    }
    finder.matches_seed(seed)
}

/// The verified body of the background search task: compute the step width,
/// run the scan, send the terminal message.
fn run_search<P: Predictor>(
    finder: Arc<SeedFinder<P>>,
    steps: usize,
    tx: Sender<Progress>,
    lo: i32,
    hi: i32,
)
    requires
        finder.wf(),
        0 <= lo < hi,
        1 <= steps <= (hi - lo) as usize,
{
    let width: usize = ((hi - lo) as u32) as usize;
    let step_size: usize = width / steps;
    proof {
        vstd::arithmetic::div_mod::lemma_div_non_zero(width as int, steps as int);
    }
    let counter = AtomicUsize::new(0);
    let seeds = par_scan_with_progress(&*finder, step_size, &counter, &tx, lo, hi);
    send_message(&tx, Progress::Complete(seeds));
}

/// Relies on std::sync::mpsc::channel to connect the returned sender and
/// receiver into one stream.
#[verifier::external_body]
fn progress_channel() -> (Sender<Progress>, Receiver<Progress>) {
    std::sync::mpsc::channel()
}

/// Relies on std::sync::mpsc::Sender::send; a send failure only means the
/// receiver is gone, and the message is dropped, as the engine intends.
#[verifier::external_body]
fn send_message(tx: &Sender<Progress>, message: Progress) {
    let _ = tx.send(message);
}

/// Relies on rayon::spawn to run the scan on the global worker pool; the
/// spawned closure only calls the verified search body.
#[verifier::external_body]
fn spawn_search<P: Predictor + 'static>(
    finder: Arc<SeedFinder<P>>,
    steps: usize,
    tx: Sender<Progress>,
    lo: i32,
    hi: i32,
)
    requires
        finder.wf(),
        0 <= lo < hi,
        1 <= steps <= (hi - lo) as usize,
{
    rayon::spawn(move || {
        run_search(finder, steps, tx, lo, hi);
    });
}

} // verus!
