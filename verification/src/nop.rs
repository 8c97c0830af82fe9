//! Collaborators that do nothing, for executors that need none and for trying
//! an executor out on its own.

use vstd::prelude::*;
use crate::error::Error;
use crate::executor::{EventFirer, HasObjective, ObserversTuple};
use crate::exit_kind::ExitKind;

verus! {

/// An input that holds nothing.
#[derive(Clone, Copy, Debug, PartialEq, Eq, Structural)]
pub struct NopInput {}

/// A driver that finds no trial worth keeping.
#[derive(Clone, Copy, Debug, PartialEq, Eq, Structural)]
pub struct NopFuzzer {}

/// An event sink that drops every notification.
#[derive(Clone, Copy, Debug, PartialEq, Eq, Structural)]
pub struct NopEventManager {}

impl NopFuzzer {
    /// The driver.
    pub fn new() -> (fuzzer: Self) {
        NopFuzzer {  }
    }
}

impl NopEventManager {
    /// The event sink.
    pub fn new() -> (mgr: Self) {
        NopEventManager {  }
    }
}

/// No observers at all: every notification succeeds at once.
impl<S, I> ObserversTuple<S, I> for () {
    open spec fn pre_exec(&self, input: &I, after: &Self, done: Result<(), Error>) -> bool {
        done == Ok::<(), Error>(())
    }

    open spec fn post_exec(
        &self,
        input: &I,
        exit_kind: ExitKind,
        after: &Self,
        done: Result<(), Error>,
    ) -> bool {
        done == Ok::<(), Error>(())
    }

    open spec fn pre_exec_child(&self, input: &I, after: &Self, done: Result<(), Error>) -> bool {
        done == Ok::<(), Error>(())
    }

    open spec fn post_exec_child(
        &self,
        input: &I,
        exit_kind: ExitKind,
        after: &Self,
        done: Result<(), Error>,
    ) -> bool {
        done == Ok::<(), Error>(())
    }

    fn pre_exec_all(&mut self, state: &mut S, input: &I) -> (done: Result<(), Error>)
        ensures
            *final(state) == *old(state),
    {
        Ok(())
    }

    fn post_exec_all(&mut self, state: &mut S, input: &I, exit_kind: &ExitKind) -> (done: Result<
        (),
        Error,
    >)
        ensures
            *final(state) == *old(state),
    {
        Ok(())
    }

    fn pre_exec_child_all(&mut self, state: &mut S, input: &I) -> (done: Result<(), Error>)
        ensures
            *final(state) == *old(state),
    {
        Ok(())
    }

    fn post_exec_child_all(&mut self, state: &mut S, input: &I, exit_kind: &ExitKind) -> (done:
        Result<(), Error>)
        ensures
            *final(state) == *old(state),
    {
        Ok(())
    }
}

impl<S, I, OT> HasObjective<NopEventManager, S, I, OT> for NopFuzzer {
    /// No trial is interesting.
    open spec fn judged(
        &self,
        input: &I,
        observers: &OT,
        exit_kind: ExitKind,
        after: &Self,
        interesting: Result<bool, Error>,
    ) -> bool {
        interesting == Ok::<bool, Error>(false)
    }

    /// Nothing is stored, so there are no solutions.
    open spec fn saved(
        &self,
        input: &I,
        observers: &OT,
        exit_kind: ExitKind,
        after: &Self,
        count: Result<usize, Error>,
    ) -> bool {
        count == Ok::<usize, Error>(0)
    }

    fn is_interesting(
        &mut self,
        state: &mut S,
        mgr: &mut NopEventManager,
        input: &I,
        observers: &OT,
        exit_kind: &ExitKind,
    ) -> (interesting: Result<bool, Error>)
        ensures
            *final(state) == *old(state),
            *final(mgr) == *old(mgr),
    {
        Ok(false)
    }

    fn save_solution(&mut self, state: &mut S, input: &I, observers: &OT, exit_kind: &ExitKind) -> (count:
        Result<usize, Error>)
        ensures
            *final(state) == *old(state),
    {
        Ok(0)
    }
}

impl<S> EventFirer<S> for NopEventManager {
    open spec fn fired(&self, objective_size: usize, after: &Self, done: Result<(), Error>) -> bool {
        done == Ok::<(), Error>(())
    }

    open spec fn restarted(&self, after: &Self, done: Result<(), Error>) -> bool {
        done == Ok::<(), Error>(())
    }

    fn fire_objective(&mut self, state: &mut S, objective_size: usize) -> (done: Result<(), Error>)
        ensures
            *final(state) == *old(state),
    {
        Ok(())
    }

    fn on_restart(&mut self, state: &mut S) -> (done: Result<(), Error>)
        ensures
            *final(state) == *old(state),
    {
        Ok(())
    }
}

} // verus!
