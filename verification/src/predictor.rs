//! The common capability interface of all predictors: a boolean condition
//! over a [`WorldState`] together with a human-readable explanation.

use vstd::prelude::*;

use crate::error::{EvalError, ReportError};
use crate::state::WorldState;

verus! {

/// A seed-finding predictor: a pure, deterministic boolean condition over a
/// [`WorldState`], with a matching textual explanation.
///
/// Predictors are immutable once built and are shared read-only by many
/// concurrent evaluations. Every implementation ties the value its methods
/// return to spec functions of the predictor and the state alone, which is
/// what makes search results independent of evaluation order and partition
/// boundaries.
pub trait Predictor: Send + Sync {
    /// Well-formedness of this predictor, established at construction.
    ///
    /// The specification members carry defaults so that implementations
    /// outside the verified world need only provide the executable methods;
    /// every implementation in this crate overrides them.
    open spec fn wf(&self) -> bool {
        true
    }

    /// Whether evaluation succeeds on `state` (no delegate failure).
    open spec fn spec_ok(&self, state: WorldState) -> bool {
        true
    }

    /// The condition itself: whether `state` satisfies this predictor.
    open spec fn spec_matches(&self, state: WorldState) -> bool {
        false
    }

    /// Whether rendering a report succeeds on `state`.
    open spec fn report_ok(&self, state: WorldState) -> bool {
        true
    }

    /// The text that a successful report on `state` yields.
    open spec fn spec_report(&self, state: WorldState) -> Seq<char> {
        Seq::<char>::empty()
    }

    /// Evaluate this predictor on `state`.
    ///
    /// Returns `Ok(true)` when the prediction matches, `Ok(false)` when it
    /// does not, and an error when the delegate computation fails for this
    /// state.
    fn predict(&self, state: &WorldState) -> (r: Result<bool, EvalError>)
        requires
            self.wf(),
        ensures
            r is Ok <==> self.spec_ok(*state),
            r matches Ok(b) ==> b == self.spec_matches(*state),
    ;

    /// Render a report of what this predictor observed on `state`.
    fn report(&self, state: &WorldState) -> (r: Result<String, ReportError>)
        requires
            self.wf(),
        ensures
            r is Ok <==> self.report_ok(*state),
            r matches Ok(s) ==> s@ == self.spec_report(*state),
    ;
}

impl<T: Predictor> Predictor for Box<T> {
    open spec fn wf(&self) -> bool {
        (**self).wf()
    }

    open spec fn spec_ok(&self, state: WorldState) -> bool {
        (**self).spec_ok(state)
    }

    open spec fn spec_matches(&self, state: WorldState) -> bool {
        (**self).spec_matches(state)
    }

    open spec fn report_ok(&self, state: WorldState) -> bool {
        (**self).report_ok(state)
    }

    open spec fn spec_report(&self, state: WorldState) -> Seq<char> {
        (**self).spec_report(state)
    }

    fn predict(&self, state: &WorldState) -> (r: Result<bool, EvalError>) {
        (**self).predict(state)
    }

    fn report(&self, state: &WorldState) -> (r: Result<String, ReportError>) {
        (**self).report(state)
    }
}

} // verus!
