//! The quorum-over-range combinator: run a child predictor over an
//! inclusive day interval and succeed when enough days match.

use vstd::prelude::*;
use vstd::string::StringExecFns;

use crate::error::{EvalError, ReportError};
use crate::predictor::Predictor;
use crate::state::WorldState;
use crate::text::{decimal_string, spec_decimal};

verus! {

/// Number of days `d` in `[lo, hi]` for which `child` matches the state
/// derived from `state` by substituting day `d`.
pub open spec fn quorum_count<C: Predictor>(child: C, state: WorldState, lo: int, hi: int) -> nat
    decreases hi + 1 - lo,
{
    if lo > hi {
        0
    } else {
        (if child.spec_matches(state.spec_with_day(lo as u32)) {
            1nat
        } else {
            0nat
        }) + quorum_count(child, state, lo + 1, hi)
    }
}

/// The labeled block that a report emits for one matching day.
pub open spec fn day_block<C: Predictor>(child: C, state: WorldState, day: int) -> Seq<char> {
    "Day "@ + spec_decimal(day as nat) + " "@ + child.spec_report(state.spec_with_day(day as u32))
}

/// The report text over `[lo, hi]`: one labeled block per matching day.
pub open spec fn quorum_report<C: Predictor>(
    child: C,
    state: WorldState,
    lo: int,
    hi: int,
) -> Seq<char>
    decreases hi + 1 - lo,
{
    if lo > hi {
        Seq::<char>::empty()
    } else {
        (if child.spec_matches(state.spec_with_day(lo as u32)) {
            day_block(child, state, lo)
        } else {
            Seq::<char>::empty()
        }) + quorum_report(child, state, lo + 1, hi)
    }
}

proof fn lemma_quorum_count_split_last<C: Predictor>(
    child: C,
    state: WorldState,
    lo: int,
    hi: int,
)
    requires
        lo <= hi,
    ensures
        quorum_count(child, state, lo, hi) == quorum_count(child, state, lo, hi - 1) + (
        if child.spec_matches(state.spec_with_day(hi as u32)) {
            1nat
        } else {
            0nat
        }),
    decreases hi - lo,
{
    if lo < hi {
        lemma_quorum_count_split_last(child, state, lo + 1, hi);
    } else {
        assert(quorum_count(child, state, lo, hi - 1) == 0);
        assert(quorum_count(child, state, lo + 1, hi) == 0);
    }
}

proof fn lemma_quorum_report_split_last<C: Predictor>(
    child: C,
    state: WorldState,
    lo: int,
    hi: int,
)
    requires
        lo <= hi,
    ensures
        quorum_report(child, state, lo, hi) == quorum_report(child, state, lo, hi - 1) + (
        if child.spec_matches(state.spec_with_day(hi as u32)) {
            day_block(child, state, hi)
        } else {
            Seq::<char>::empty()
        }),
    decreases hi - lo,
{
    if lo < hi {
        lemma_quorum_report_split_last(child, state, lo + 1, hi);
        assert(quorum_report(child, state, lo, hi) =~= quorum_report(child, state, lo, hi - 1) + (
        if child.spec_matches(state.spec_with_day(hi as u32)) {
            day_block(child, state, hi)
        } else {
            Seq::<char>::empty()
        }));
    } else {
        assert(quorum_report(child, state, lo, hi - 1) =~= Seq::<char>::empty());
        assert(quorum_report(child, state, lo + 1, hi) =~= Seq::<char>::empty());
        assert(quorum_report(child, state, lo, hi) =~= quorum_report(child, state, lo, hi - 1) + (
        if child.spec_matches(state.spec_with_day(hi as u32)) {
            day_block(child, state, hi)
        } else {
            Seq::<char>::empty()
        }));
    }
}

/// Runs a child predictor over an inclusive range of days.
///
/// Evaluation derives, for every day in `[start_day, end_day]`, a copy of
/// the incoming state with that day substituted, evaluates the child on it,
/// and succeeds when at least `min_matches` days matched. An empty interval
/// (`start_day > end_day`) runs zero iterations and so matches exactly when
/// `min_matches` is zero.
pub struct DayRange<C: Predictor> {
    /// Starting day of the range (inclusive).
    pub start_day: u32,
    /// Ending day of the range (inclusive).
    pub end_day: u32,
    /// Minimum number of matching days required.
    pub min_matches: usize,
    /// The predictor evaluated once per day of the range.
    pub child: C,
}

impl<C: Predictor> DayRange<C> {
    /// Create a new quorum combinator over `child`.
    pub fn new(start_day: u32, end_day: u32, min_matches: usize, child: C) -> (r: Self)
        ensures
            r.start_day == start_day,
            r.end_day == end_day,
            r.min_matches == min_matches,
            r.child == child,
    {
        DayRange { start_day, end_day, min_matches, child }
    }
}

impl<C: Predictor> Predictor for DayRange<C> {
    open spec fn wf(&self) -> bool {
        self.child.wf()
    }

    open spec fn spec_ok(&self, state: WorldState) -> bool {
        forall|d: u32|
            self.start_day <= d <= self.end_day ==> self.child.spec_ok(
                #[trigger] state.spec_with_day(d),
            )
    }

    open spec fn spec_matches(&self, state: WorldState) -> bool {
        quorum_count(self.child, state, self.start_day as int, self.end_day as int)
            >= self.min_matches
    }

    open spec fn report_ok(&self, state: WorldState) -> bool {
        forall|d: u32|
            self.start_day <= d <= self.end_day ==> {
                &&& self.child.spec_ok(#[trigger] state.spec_with_day(d))
                &&& self.child.spec_matches(state.spec_with_day(d))
                    ==> self.child.report_ok(state.spec_with_day(d))
            }
    }

    open spec fn spec_report(&self, state: WorldState) -> Seq<char> {
        quorum_report(self.child, state, self.start_day as int, self.end_day as int)
    }

    fn predict(&self, state: &WorldState) -> (r: Result<bool, EvalError>) {
        let mut successes: u64 = 0;
        if self.start_day <= self.end_day {
            let n: u64 = (self.end_day - self.start_day) as u64 + 1;
            let mut i: u64 = 0;
            while i < n
                invariant
                    self.child.wf(),
                    self.start_day <= self.end_day,
                    n == self.end_day - self.start_day + 1,
                    0 <= i <= n,
                    successes == quorum_count(
                        self.child,
                        *state,
                        self.start_day as int,
                        self.start_day + i - 1,
                    ),
                    successes <= i,
                    forall|d: u32|
                        self.start_day <= d < self.start_day + i ==> self.child.spec_ok(
                            #[trigger] state.spec_with_day(d),
                        ),
                decreases n - i,
            {
                let day: u32 = self.start_day + (i as u32);
                let st = state.with_day(day);
                match self.child.predict(&st) {
                    Ok(true) => {
                        successes = successes + 1;
                    },
                    Ok(false) => {},
                    Err(e) => {
                        proof {
                            assert(!self.child.spec_ok(state.spec_with_day(day)));
                            assert(!self.spec_ok(*state));
                        }
                        return Err(e);
                    },
                }
                proof {
                    lemma_quorum_count_split_last(
                        self.child,
                        *state,
                        self.start_day as int,
                        self.start_day + i as int,
                    );
                }
                i = i + 1;
            }
        }
        Ok(successes >= self.min_matches as u64)
    }

    fn report(&self, state: &WorldState) -> (r: Result<String, ReportError>) {
        let mut out = String::new();
        if self.start_day <= self.end_day {
            let n: u64 = (self.end_day - self.start_day) as u64 + 1;
            let mut i: u64 = 0;
            while i < n
                invariant
                    self.child.wf(),
                    self.start_day <= self.end_day,
                    n == self.end_day - self.start_day + 1,
                    0 <= i <= n,
                    out@ == quorum_report(
                        self.child,
                        *state,
                        self.start_day as int,
                        self.start_day + i - 1,
                    ),
                    forall|d: u32|
                        self.start_day <= d < self.start_day + i ==> {
                            &&& self.child.spec_ok(#[trigger] state.spec_with_day(d))
                            &&& self.child.spec_matches(state.spec_with_day(d))
                                ==> self.child.report_ok(state.spec_with_day(d))
                        },
                decreases n - i,
            {
                let day: u32 = self.start_day + (i as u32);
                let st = state.with_day(day);
                match self.child.predict(&st) {
                    Ok(true) => {
                        out.append("Day ");
                        let ds = decimal_string(day);
                        out.append(ds.as_str());
                        out.append(" ");
                        match self.child.report(&st) {
                            Ok(block) => {
                                out.append(block.as_str());
                                proof {
                                    assert(out@ =~= quorum_report(
                                        self.child,
                                        *state,
                                        self.start_day as int,
                                        self.start_day + i - 1,
                                    ) + day_block(self.child, *state, day as int));
                                }
                            },
                            Err(e) => {
                                proof {
                                    assert(!self.report_ok(*state));
                                }
                                return Err(e);
                            },
                        }
                    },
                    Ok(false) => {},
                    Err(e) => {
                        proof {
                            assert(!self.report_ok(*state));
                        }
                        return Err(ReportError::Eval(e));
                    },
                }
                proof {
                    lemma_quorum_report_split_last(
                        self.child,
                        *state,
                        self.start_day as int,
                        self.start_day + i as int,
                    );
                    assert(out@ =~= quorum_report(
                        self.child,
                        *state,
                        self.start_day as int,
                        self.start_day + i,
                    ));
                }
                i = i + 1;
            }
        }
        Ok(out)
    }
}

} // verus!
