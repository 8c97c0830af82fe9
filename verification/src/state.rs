//! The part of the driver's state that executors touch: the count of trials run.

use vstd::prelude::*;

verus! {

/// A driver state that counts the trials that were executed.
pub trait HasExecutions {
    /// The number of trials executed so far. An implementation says what
    /// it is; nothing is known of it otherwise.
    open spec fn spec_executions(&self) -> nat {
        arbitrary()
    }

    /// The number of trials executed so far.
    fn executions(&self) -> (count: &usize)
        ensures
            *count == self.spec_executions(),
    ;

    /// The number of trials executed so far, to change it.
    fn executions_mut(&mut self) -> (count: &mut usize)
        ensures
            *count == old(self).spec_executions(),
            final(self).spec_executions() == *final(count),
    ;
}

/// A state that holds nothing but the count.
#[derive(Clone, Copy, Debug, PartialEq, Eq, Structural)]
pub struct NopState {
    executions: usize,
}

impl NopState {
    /// A state in which no trial has run yet.
    pub fn new() -> (state: NopState)
        ensures
            state.spec_executions() == 0,
    {
        NopState { executions: 0 }
    }
}

impl HasExecutions for NopState {
    closed spec fn spec_executions(&self) -> nat {
        self.executions as nat
    }

    fn executions(&self) -> (count: &usize) {
        &self.executions
    }

    fn executions_mut(&mut self) -> (count: &mut usize) {
        &mut self.executions
    }
}

} // verus!
