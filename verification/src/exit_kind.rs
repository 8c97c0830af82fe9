//! The verdict of one trial.

use vstd::prelude::*;

verus! {

/// How a trial ended.
#[derive(Clone, Copy, Debug, PartialEq, Eq, Structural)]
pub enum ExitKind {
    /// The target ran to completion.
    Normal,
    /// The target crashed.
    Crash,
    /// The target did not finish in time.
    Timeout,
}

/// The verdict of a trial that two executors ran, one after the other:
/// a crash of either wins, then a timeout of either, else the trial was fine.
pub open spec fn spec_merge(first: ExitKind, second: ExitKind) -> ExitKind {
    if first == ExitKind::Crash || second == ExitKind::Crash {
        ExitKind::Crash
    } else if first == ExitKind::Timeout || second == ExitKind::Timeout {
        ExitKind::Timeout
    } else {
        ExitKind::Normal
    }
}

/// How severe a verdict is: a crash outranks a timeout, which outranks a clean run.
pub open spec fn severity(kind: ExitKind) -> nat {
    match kind {
        ExitKind::Normal => 0,
        ExitKind::Timeout => 1,
        ExitKind::Crash => 2,
    }
}

impl ExitKind {
    /// Merges this verdict with the verdict of a second executor for the same trial.
    pub fn merge(self, second: ExitKind) -> (merged: ExitKind)
        ensures
            merged == spec_merge(self, second),
    {
        match (self, second) {
            (ExitKind::Normal, ExitKind::Normal) => ExitKind::Normal,
            (ExitKind::Crash, _) => ExitKind::Crash,
            (_, ExitKind::Crash) => ExitKind::Crash,
            (ExitKind::Timeout, _) => ExitKind::Timeout,
            (_, ExitKind::Timeout) => ExitKind::Timeout,
        }
    }
}

/// The merged verdict is the more severe of the two, so the merge does not
/// depend on the order of the executors and a crash dominates a timeout.
pub proof fn lemma_merge_is_most_severe(first: ExitKind, second: ExitKind)
    ensures
        spec_merge(first, second) == spec_merge(second, first),
        severity(spec_merge(first, second)) == if severity(first) >= severity(second) {
            severity(first)
        } else {
            severity(second)
        },
        spec_merge(first, second) == first || spec_merge(first, second) == second,
        spec_merge(first, first) == first,
{
}

/// Merging the verdicts of three executors gives the same verdict however they are grouped.
pub proof fn lemma_merge_associative(a: ExitKind, b: ExitKind, c: ExitKind)
    ensures
        spec_merge(spec_merge(a, b), c) == spec_merge(a, spec_merge(b, c)),
{
}

} // verus!
