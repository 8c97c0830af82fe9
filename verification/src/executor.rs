//! What every executor offers to the driver.

use vstd::prelude::*;
use crate::error::Error;
use crate::exit_kind::ExitKind;
use crate::state::HasExecutions;

verus! {

/// Runs one trial at a time for a driver `Z` that reports to an event sink `EM`,
/// keeps its books in a state `S` and feeds the target inputs of type `I`.
pub trait Executor<EM, Z, S: HasExecutions, I> {
    /// What must hold of the executor between trials. Nothing, unless an
    /// executor says otherwise.
    open spec fn inv(&self) -> bool {
        true
    }

    /// Whether a trial on `input` may end with `outcome` and leave the
    /// executor as `after`. Anything may happen, unless an executor says
    /// otherwise.
    open spec fn trial(&self, input: &I, after: &Self, outcome: Result<ExitKind, Error>) -> bool {
        true
    }

    /// Whether a reset may leave the executor as `after`. Anything may
    /// happen, unless an executor says otherwise.
    open spec fn reset(&self, after: &Self) -> bool {
        true
    }

    /// Executes exactly one trial. The trial is counted once in the state,
    /// whether it ends with a verdict or with an error. A fault of the target
    /// is a verdict; an error says that the machinery around it failed.
    fn run_target(&mut self, fuzzer: &mut Z, state: &mut S, mgr: &mut EM, input: &I) -> (outcome:
        Result<ExitKind, Error>)
        requires
            old(self).inv(),
            old(state).spec_executions() < usize::MAX,
        ensures
            final(self).inv(),
            final(state).spec_executions() == old(state).spec_executions() + 1,
            old(self).trial(input, final(self), outcome),
    ;

    /// Cleans up after a trial. May be called any number of times, also after
    /// a trial that ended with an error.
    fn post_run_reset(&mut self)
        requires
            old(self).inv(),
        ensures
            final(self).inv(),
            old(self).reset(final(self)),
    ;
}

/// An executor that lends out the observers attached to it.
pub trait HasObservers {
    /// The collection of observers.
    type Observers;

    /// The observers that are attached to the executor. An implementation
    /// says what they are; nothing is known of them otherwise.
    open spec fn spec_observers(&self) -> Self::Observers {
        arbitrary()
    }

    /// The observers, to read them after a trial.
    fn observers(&self) -> (observers: &Self::Observers)
        ensures
            *observers == self.spec_observers(),
    ;

    /// The observers, to notify them.
    fn observers_mut(&mut self) -> (observers: &mut Self::Observers)
        ensures
            *observers == old(self).spec_observers(),
            final(self).spec_observers() == *final(observers),
    ;
}

/// The observers of an executor, notified together around every trial.
///
/// For each notification a relation says what the observers may answer and
/// how they may change. Nothing is demanded of them unless an implementation
/// says otherwise.
pub trait ObserversTuple<S, I> {
    /// Whether the observers, told before a trial on `input`, may answer
    /// `done` and be left as `after`.
    open spec fn pre_exec(&self, input: &I, after: &Self, done: Result<(), Error>) -> bool {
        true
    }

    /// Whether the observers, told that the trial on `input` ended with
    /// `exit_kind`, may answer `done` and be left as `after`.
    open spec fn post_exec(
        &self,
        input: &I,
        exit_kind: ExitKind,
        after: &Self,
        done: Result<(), Error>,
    ) -> bool {
        true
    }

    /// Whether the observers, told in a forked child before a trial on
    /// `input`, may answer `done` and be left as `after`.
    open spec fn pre_exec_child(&self, input: &I, after: &Self, done: Result<(), Error>) -> bool {
        true
    }

    /// Whether the observers, told in a forked child that the trial on
    /// `input` ended with `exit_kind`, may answer `done` and be left as `after`.
    open spec fn post_exec_child(
        &self,
        input: &I,
        exit_kind: ExitKind,
        after: &Self,
        done: Result<(), Error>,
    ) -> bool {
        true
    }

    /// Called before the target runs.
    fn pre_exec_all(&mut self, state: &mut S, input: &I) -> (done: Result<(), Error>)
        ensures
            old(self).pre_exec(input, final(self), done),
    ;

    /// Called after the target ran, with the verdict.
    fn post_exec_all(&mut self, state: &mut S, input: &I, exit_kind: &ExitKind) -> (done: Result<
        (),
        Error,
    >)
        ensures
            old(self).post_exec(input, *exit_kind, final(self), done),
    ;

    /// Called in a forked child before the target runs.
    fn pre_exec_child_all(&mut self, state: &mut S, input: &I) -> (done: Result<(), Error>)
        ensures
            old(self).pre_exec_child(input, final(self), done),
    ;

    /// Called in a forked child after the target ran, with the verdict.
    fn post_exec_child_all(&mut self, state: &mut S, input: &I, exit_kind: &ExitKind) -> (done:
        Result<(), Error>)
        ensures
            old(self).post_exec_child(input, *exit_kind, final(self), done),
    ;
}

/// The driver's judgement of a finished trial.
pub trait HasObjective<EM, S, I, OT> {
    /// Whether the objective, asked about the trial on `input` that ended
    /// with `exit_kind` under the eyes of `observers`, may answer
    /// `interesting` and be left as `after`.
    open spec fn judged(
        &self,
        input: &I,
        observers: &OT,
        exit_kind: ExitKind,
        after: &Self,
        interesting: Result<bool, Error>,
    ) -> bool {
        true
    }

    /// Whether the objective, asked to store the trial on `input` that ended
    /// with `exit_kind`, may answer `count` and be left as `after`.
    open spec fn saved(
        &self,
        input: &I,
        observers: &OT,
        exit_kind: ExitKind,
        after: &Self,
        count: Result<usize, Error>,
    ) -> bool {
        true
    }

    /// Whether the trial is worth keeping as a solution.
    fn is_interesting(
        &mut self,
        state: &mut S,
        mgr: &mut EM,
        input: &I,
        observers: &OT,
        exit_kind: &ExitKind,
    ) -> (interesting: Result<bool, Error>)
        ensures
            old(self).judged(input, observers, *exit_kind, final(self), interesting),
    ;

    /// Stores the input with its verdict among the solutions and returns how
    /// many solutions there are now.
    fn save_solution(&mut self, state: &mut S, input: &I, observers: &OT, exit_kind: &ExitKind) -> (count:
        Result<usize, Error>)
        ensures
            old(self).saved(input, observers, *exit_kind, final(self), count),
    ;
}

/// The sink for the notifications that a trial gives rise to.
pub trait EventFirer<S> {
    /// Whether the sink, told that there are `objective_size` solutions
    /// now, may answer `done` and be left as `after`.
    open spec fn fired(&self, objective_size: usize, after: &Self, done: Result<(), Error>) -> bool {
        true
    }

    /// Whether the sink, told to save what must survive, may answer `done`
    /// and be left as `after`.
    open spec fn restarted(&self, after: &Self, done: Result<(), Error>) -> bool {
        true
    }

    /// Announces that a solution was found; `objective_size` is the number of solutions.
    fn fire_objective(&mut self, state: &mut S, objective_size: usize) -> (done: Result<(), Error>)
        ensures
            old(self).fired(objective_size, final(self), done),
    ;

    /// Saves what must survive the end of this process.
    fn on_restart(&mut self, state: &mut S) -> (done: Result<(), Error>)
        ensures
            old(self).restarted(final(self), done),
    ;
}

} // verus!
