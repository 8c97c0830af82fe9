//! Failures of the machinery around a trial, as opposed to failures of the target.

use vstd::prelude::*;

verus! {

/// An infrastructural failure: the trial produced no verdict.
#[derive(Clone, Copy, Debug, PartialEq, Eq, Structural)]
pub enum Error {
    /// The operating system refused a fork or a wait; the value is its error number.
    Os(i32),
    /// No connection to the target after this many attempts.
    ConnectFailed(u8),
    /// The liveness probe could not be started; the value is the error
    /// number that the operating system gave, or zero if it gave none.
    ProbeNotStarted(i32),
    /// The liveness probe itself reported an error.
    ProbeFailed,
    /// The liveness probe ended with an exit code that has no meaning here.
    ProbeExitCode(i32),
    /// The liveness probe was killed by a signal.
    ProbeInterrupted,
    /// A generator has no more inputs to hand out.
    Empty,
    /// An observer, the objective or the event sink refused its part of the
    /// bookkeeping; the value is the code that it gave.
    Bookkeeping(u32),
}

} // verus!
