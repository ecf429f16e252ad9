//! The tri-state outcome algebra, and the small closed enumerations that the
//! policy and the report are configured with.

use vstd::prelude::*;

verus! {

/// Tri-state verdict of a single policy check.
#[derive(Clone, Copy, Debug, PartialEq, Eq, Structural)]
pub enum Outcome {
    Pass,
    Fail,
    Ignore,
}

/// Which of the two numeric provenance scores a threshold is applied to.
#[derive(Clone, Copy, Debug, PartialEq, Eq, Structural)]
pub enum ScoreType {
    Effective,
    Licensed,
}

/// The report format.
#[derive(Clone, Copy, Debug, PartialEq, Eq, Structural)]
pub enum OutputFormat {
    Text,
    CSV,
    Markdown,
}

/// A logging level, ordered from quiet to verbose, with `Off` for levels past
/// the last supported one.
#[derive(Clone, Copy, Debug, PartialEq, Eq, Structural)]
pub enum LogLevel {
    Warn,
    Info,
    Debug,
    Trace,
    Off,
}

/// The outcome of a boolean check: `Pass` for `true`, `Fail` for `false`.
pub open spec fn outcome_of(b: bool) -> Outcome {
    if b {
        Outcome::Pass
    } else {
        Outcome::Fail
    }
}

impl Outcome {
    /// Maps `true` to `Pass` and `false` to `Fail`; `Ignore` is never produced
    /// by a boolean check.
    pub fn from_bool(b: bool) -> (r: Outcome)
        ensures
            r == outcome_of(b),
    {
        if b {
            Outcome::Pass
        } else {
            Outcome::Fail
        }
    }
}

/// The combination rule for the overall verdict of one dependency: the pair
/// passes unless at least one of the two outcomes is `Fail`; `Ignore` does not
/// block.
pub fn combine_overall(score: Outcome, license: Outcome) -> (r: bool)
    ensures
        r == !(score is Fail || license is Fail),
{
    !(matches!(score, Outcome::Fail) || matches!(license, Outcome::Fail))
}

/// Maps a count of verbosity flags to a logging level: zero means warnings
/// only, and each further flag widens the level, until any count above three
/// turns logging off.
pub fn verbosity(num: u8) -> (r: LogLevel)
    ensures
        num == 0 ==> r is Warn,
        num == 1 ==> r is Info,
        num == 2 ==> r is Debug,
        num == 3 ==> r is Trace,
        num > 3 ==> r is Off,
{
    match num {
        0 => LogLevel::Warn,
        1 => LogLevel::Info,
        2 => LogLevel::Debug,
        3 => LogLevel::Trace,
        _ => LogLevel::Off,
    }
}

} // verus!
