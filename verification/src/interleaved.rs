//! A combinator that runs two executors for every trial.
//!
//! The order is fixed: the primary runs the trial, then the secondary, then
//! the primary is reset, then the secondary. The secondary may therefore rely
//! on what the primary did.

use vstd::prelude::*;
use crate::error::Error;
use crate::executor::{Executor, HasObservers};
use crate::exit_kind::{spec_merge, ExitKind};
use crate::state::HasExecutions;

verus! {

/// Interweaves a primary executor with a secondary one.
#[derive(Debug)]
pub struct InterleavedExecutor<A, B> {
    primary: A,
    secondary: B,
}

/// What the combinator reports once both executors have been asked: the first
/// error in running order, else the merged verdict.
pub open spec fn spec_interleave(
    first: Result<ExitKind, Error>,
    second: Result<ExitKind, Error>,
) -> Result<ExitKind, Error> {
    match (first, second) {
        (Err(e), _) => Err(e),
        (Ok(_), Err(e)) => Err(e),
        (Ok(a), Ok(b)) => Ok(spec_merge(a, b)),
    }
}

/// Joins the outcomes of the two executors as the combinator does.
pub fn interleave(first: Result<ExitKind, Error>, second: Result<ExitKind, Error>) -> (outcome:
    Result<ExitKind, Error>)
    ensures
        outcome == spec_interleave(first, second),
{
    match first {
        Err(e) => Err(e),
        Ok(a) => match second {
            Err(e) => Err(e),
            Ok(b) => Ok(a.merge(b)),
        },
    }
}

impl<A, B> InterleavedExecutor<A, B> {
    /// The primary executor, as contracts see it.
    pub closed spec fn spec_primary(&self) -> A {
        self.primary
    }

    /// The secondary executor, as contracts see it.
    pub closed spec fn spec_secondary(&self) -> B {
        self.secondary
    }

    /// Wraps the two executors; `primary` runs first in every trial.
    pub fn new<EM, Z>(primary: A, secondary: B, _mgr: &EM, _fuzzer: &Z) -> (executor: Self)
        ensures
            executor.spec_primary() == primary,
            executor.spec_secondary() == secondary,
    {
        Self { primary, secondary }
    }

    /// The primary executor that is wrapped.
    pub fn primary(&mut self) -> (primary: &mut A)
        ensures
            *primary == old(self).spec_primary(),
            final(self).spec_primary() == *final(primary),
            final(self).spec_secondary() == old(self).spec_secondary(),
    {
        &mut self.primary
    }

    /// The secondary executor that is wrapped.
    pub fn secondary(&mut self) -> (secondary: &mut B)
        ensures
            *secondary == old(self).spec_secondary(),
            final(self).spec_secondary() == *final(secondary),
            final(self).spec_primary() == old(self).spec_primary(),
    {
        &mut self.secondary
    }
}

/// Whether a trial of the combinator may go as follows: the primary, which
/// was `a0`, ends with `first` and is left as `a1`. If that is an error,
/// nothing else happens. Otherwise the secondary, which was `b0`, ends with
/// `second` and is left as `b1`; if that is an error, nothing else happens.
/// Otherwise the primary is reset, which leaves it as `a2`, and then the
/// secondary, which leaves it as `b2`.
pub open spec fn spec_interleaved_trial<A, B, EM, Z, S, I>(
    input: &I,
    a0: A,
    b0: B,
    first: Result<ExitKind, Error>,
    a1: A,
    second: Result<ExitKind, Error>,
    b1: B,
    a2: A,
    b2: B,
) -> bool where A: Executor<EM, Z, S, I>, B: Executor<EM, Z, S, I>, S: HasExecutions {
    &&& a0.trial(input, &a1, first)
    &&& first is Err ==> b1 == b0 && a2 == a1 && b2 == b1
    &&& first is Ok ==> b0.trial(input, &b1, second)
    &&& first is Ok && second is Err ==> a2 == a1 && b2 == b1
    &&& first is Ok && second is Ok ==> a1.reset(&a2) && b1.reset(&b2)
}

impl<A, B, EM, Z, S, I> Executor<EM, Z, S, I> for InterleavedExecutor<A, B> where
    A: Executor<EM, Z, S, I>,
    B: Executor<EM, Z, S, I>,
    S: HasExecutions,
 {
    open spec fn inv(&self) -> bool {
        self.spec_primary().inv() && self.spec_secondary().inv()
    }

    /// A trial of the combinator is a trial of the primary, followed, if
    /// that gave a verdict, by a trial of the secondary and, if that gave a
    /// verdict too, by a reset of both. The outcome is the first error, or
    /// else the merged verdict.
    open spec fn trial(&self, input: &I, after: &Self, outcome: Result<ExitKind, Error>) -> bool {
        exists|first: Result<ExitKind, Error>, a1: A, second: Result<ExitKind, Error>, b1: B|
            #[trigger] spec_interleaved_trial::<A, B, EM, Z, S, I>(
                input,
                self.spec_primary(),
                self.spec_secondary(),
                first,
                a1,
                second,
                b1,
                after.spec_primary(),
                after.spec_secondary(),
            ) && outcome == spec_interleave(first, second)
    }

    /// A reset of the combinator is a reset of the primary and a reset of the secondary.
    open spec fn reset(&self, after: &Self) -> bool {
        self.spec_primary().reset(&after.spec_primary()) && self.spec_secondary().reset(
            &after.spec_secondary(),
        )
    }

    /// Runs the trial on the primary, then on the secondary, and resets both
    /// in that order. The two runs are one trial and are counted as one. If
    /// either executor fails, its error is returned at once and nothing is reset.
    fn run_target(&mut self, fuzzer: &mut Z, state: &mut S, mgr: &mut EM, input: &I) -> (outcome:
        Result<ExitKind, Error>) {
        let ghost a0 = self.primary;
        let ghost b0 = self.secondary;
        let before = *state.executions();
        let first = self.primary.run_target(fuzzer, state, mgr, input);
        let ghost a1 = self.primary;
        let mut second: Result<ExitKind, Error> = first;
        let ghost mut b1 = b0;
        if first.is_ok() {
            *state.executions_mut() = before;
            second = self.secondary.run_target(fuzzer, state, mgr, input);
            proof {
                b1 = self.secondary;
            }
            if second.is_ok() {
                self.primary.post_run_reset();
                self.secondary.post_run_reset();
            }
        }
        proof {
            assert(spec_interleaved_trial::<A, B, EM, Z, S, I>(
                input,
                a0,
                b0,
                first,
                a1,
                second,
                b1,
                self.primary,
                self.secondary,
            ));
        }
        interleave(first, second)
    }

    /// Resets the primary, then the secondary.
    fn post_run_reset(&mut self) {
        self.primary.post_run_reset();
        self.secondary.post_run_reset();
    }
}

impl<A: HasObservers, B> HasObservers for InterleavedExecutor<A, B> {
    type Observers = A::Observers;

    /// The observers of the combinator are those of the primary.
    open spec fn spec_observers(&self) -> Self::Observers {
        self.spec_primary().spec_observers()
    }

    fn observers(&self) -> (observers: &Self::Observers) {
        self.primary.observers()
    }

    fn observers_mut(&mut self) -> (observers: &mut Self::Observers) {
        self.primary.observers_mut()
    }
}

} // verus!
