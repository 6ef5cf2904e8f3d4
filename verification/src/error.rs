//! The error taxonomy: configuration errors are fatal at build time,
//! evaluation errors are local to one candidate's evaluation, and report
//! errors are local to one matched seed's report.

use vstd::prelude::*;

verus! {

/// A fatal error raised while building a predictor graph from its
/// configuration. Construction aborts before any search starts.
#[derive(Clone, Debug, PartialEq, Eq)]
pub enum ConfigError {
    /// The configuration references an item identifier the catalog does not
    /// know.
    UnknownItem(String),
    /// The configuration references a location context that does not exist.
    UnknownLocation(String),
    /// The configuration carries an enumerated value outside the accepted
    /// set, such as an unrecognized night-event or geode-type name.
    UnknownEnumValue(String),
    /// Any other malformed configuration, described in the payload.
    Invalid(String),
}

/// A failure of one predictor's delegate computation for one specific world
/// state. It never terminates the scan as a whole: the engine treats the
/// candidate as non-matching, and single-candidate evaluation surfaces it.
#[derive(Clone, Debug, PartialEq, Eq)]
pub struct EvalError {
    /// A description of what failed.
    pub reason: String,
}

/// A failure while rendering the explanation of one matched seed. It is
/// local to that seed's report.
#[derive(Clone, Debug, PartialEq, Eq)]
pub enum ReportError {
    /// The evaluation that the report re-runs failed.
    Eval(EvalError),
    /// The rendering itself failed, for instance on an unresolvable display
    /// name.
    Render(String),
}

} // verus!
