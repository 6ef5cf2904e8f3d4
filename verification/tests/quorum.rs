//! The day-range quorum combinator, exercised through a stub child
//! predictor that matches only on even days.

use seed_maker::DayRange;
use seed_maker::EvalError;
use seed_maker::Predictor;
use seed_maker::ReportError;
use seed_maker::WorldState;

#[derive(Debug)]
struct EvenDay;

impl Predictor for EvenDay {
    fn predict(&self, state: &WorldState) -> Result<bool, EvalError> {
        Ok(state.days_played % 2 == 0)
    }

    fn report(&self, _state: &WorldState) -> Result<String, ReportError> {
        Ok(String::from("even day\n"))
    }
}

#[derive(Debug)]
struct FailsOnDay(u32);

impl Predictor for FailsOnDay {
    fn predict(&self, state: &WorldState) -> Result<bool, EvalError> {
        if state.days_played == self.0 {
            Err(EvalError { reason: String::from("missing backing data") })
        } else {
            Ok(true)
        }
    }

    fn report(&self, _state: &WorldState) -> Result<String, ReportError> {
        Ok(String::new())
    }
}

#[test]
fn quorum_met_with_three_even_days() {
    let p = DayRange::new(1, 6, 3, EvenDay);
    assert_eq!(p.predict(&WorldState::new()), Ok(true));
}

#[test]
fn quorum_missed_with_four_required() {
    let p = DayRange::new(1, 6, 4, EvenDay);
    assert_eq!(p.predict(&WorldState::new()), Ok(false));
}

#[test]
fn empty_interval_matches_only_zero_quorum() {
    let trivially = DayRange::new(5, 3, 0, EvenDay);
    assert_eq!(trivially.predict(&WorldState::new()), Ok(true));
    let impossible = DayRange::new(5, 3, 1, EvenDay);
    assert_eq!(impossible.predict(&WorldState::new()), Ok(false));
}

#[test]
fn child_failure_surfaces_as_error() {
    let p = DayRange::new(1, 6, 1, FailsOnDay(4));
    let r = p.predict(&WorldState::new());
    assert_eq!(
        r,
        Err(EvalError { reason: String::from("missing backing data") })
    );
}

#[test]
fn report_failure_carries_evaluation_error() {
    let p = DayRange::new(1, 6, 1, FailsOnDay(4));
    let r = p.report(&WorldState::new());
    assert_eq!(
        r,
        Err(ReportError::Eval(EvalError { reason: String::from("missing backing data") }))
    );
}

#[test]
fn quorum_report_labels_matching_days() {
    let p = DayRange::new(1, 6, 3, EvenDay);
    let text = p.report(&WorldState::new()).unwrap();
    assert_eq!(text, "Day 2 even day\nDay 4 even day\nDay 6 even day\n");
}

#[test]
fn quorum_report_renders_multi_digit_days() {
    let p = DayRange::new(9, 12, 0, EvenDay);
    let text = p.report(&WorldState::new()).unwrap();
    assert_eq!(text, "Day 10 even day\nDay 12 even day\n");
}

#[test]
fn nested_quorum_counts_inner_successes() {
    // The inner quorum asks for one even day in [d, d+1], which holds for
    // every day, so the outer quorum over [1, 3] sees three matches.
    let inner = DayRange::new(1, 2, 1, EvenDay);
    let outer = DayRange::new(1, 3, 3, inner);
    // The inner range is fixed at build time: substituting the outer day
    // does not move the inner interval, so the inner quorum stays true.
    assert_eq!(outer.predict(&WorldState::new()), Ok(true));
}
