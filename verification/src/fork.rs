//! Running the target in a forked child, so that a fault of the target
//! cannot harm the process that drives the trials.
//!
//! Forking and waiting are the caller's work. What the child does between
//! the fork and its exit, and what the parent makes of the child's end, is
//! decided here.

use vstd::prelude::*;
use crate::barrier::publish_fence;
use crate::error::Error;
use crate::executor::{HasObservers, ObserversTuple};
use crate::exit_kind::ExitKind;
use crate::inprocess::PANIC_EXIT_CODE;
use crate::signals::{
    spec_is_timeout_number,
    spec_number,
    Signal,
    SIGALRM,
    SIGNAL_EXIT_BASE,
    SIGNAL_EXIT_END,
    SIGUSR2,
};
use crate::state::HasExecutions;

verus! {

/// The exit code of a child whose trial went through.
pub const CHILD_EXIT_CODE: i32 = 0;

/// How a child process ended, as the parent learns it from waiting.
#[derive(Clone, Copy, Debug, PartialEq, Eq, Structural)]
pub enum ChildStatus {
    /// The child exited by itself with this code.
    Exited(i32),
    /// The child was killed by the signal with this number.
    Signaled(i32),
    /// The wait returned for any other reason.
    Other,
}

/// What the parent saw of one forked trial.
#[derive(Clone, Copy, Debug, PartialEq, Eq, Structural)]
pub enum ForkReport {
    /// Preparing the shared memory for the fork, or picking it up again
    /// after the fork, failed with this error.
    SharedMemory(Error),
    /// The fork failed with this error number.
    ForkFailed(i32),
    /// Waiting for the child failed with this error number.
    WaitFailed(i32),
    /// The child ended with this status.
    Waited(ChildStatus),
}

/// When the timer of a child expires; it does not repeat.
#[derive(Clone, Copy, Debug, PartialEq, Eq, Structural)]
pub struct TimerSpec {
    /// Whole seconds.
    pub tv_sec: i64,
    /// Nanoseconds on top of the seconds, below a second.
    pub tv_nsec: i64,
}

/// The addresses that a child publishes for its own handlers.
#[derive(Clone, Copy, Debug, PartialEq, Eq, Structural)]
pub struct ChildPointers {
    /// Where the executor lives.
    pub executor: usize,
    /// Where the driver's state lives.
    pub state: usize,
    /// Where the input of the trial lives; never zero.
    pub input: usize,
}

/// The handlers that a forked child installs.
#[derive(Clone, Copy, Debug, PartialEq, Eq, Structural)]
pub struct InChildProcessHandlers {
    /// The address of the function to call on a crash, or zero.
    pub crash_handler: usize,
    /// The address of the function to call on a timeout, or zero.
    pub timeout_handler: usize,
}

/// The record that the handlers of a forked child read. The child runs its
/// trial exactly while `current_input_ptr` is not zero.
#[derive(Clone, Copy, Debug, PartialEq, Eq, Structural)]
pub struct InProcessForkExecutorGlobalData {
    /// Where the executor lives.
    pub executor_ptr: usize,
    /// Where the driver's state lives.
    pub state_ptr: usize,
    /// Where the input of the trial lives, or zero.
    pub current_input_ptr: usize,
    /// The address of the function to call on a crash, or zero.
    pub crash_handler: usize,
    /// The address of the function to call on a timeout, or zero.
    pub timeout_handler: usize,
}

/// What the child has to do at the end of its trial or in one of its handlers.
#[derive(Clone, Copy, Debug, PartialEq, Eq, Structural)]
pub enum ChildAction {
    /// Leave the matter to the runtime.
    Defer,
    /// Tell the observers that the trial on the input at `input` ended with
    /// `exit_kind`, then exit with `exit_code`.
    ObserveAndExit { input: usize, exit_kind: ExitKind, exit_code: i32 },
    /// Exit with `exit_code` at once.
    Exit { exit_code: i32 },
}

/// Which function of the child a caught signal is handed to.
#[derive(Clone, Copy, Debug, PartialEq, Eq, Structural)]
pub enum ChildDispatch {
    /// No function is installed for this kind of signal.
    NoHandler,
    /// Call the crash handler at this address.
    Crash { handler: usize },
    /// Call the timeout handler at this address.
    Timeout { handler: usize },
}

/// The verdict on a child that ended with `status`. A child that was killed
/// by a signal, or that exited with the code of a signal, timed out if the
/// signal announces a timeout and crashed otherwise. Every other end is a
/// clean run.
pub open spec fn spec_verdict(status: ChildStatus) -> ExitKind {
    match status {
        ChildStatus::Signaled(signal) => if spec_is_timeout_number(signal as int) {
            ExitKind::Timeout
        } else {
            ExitKind::Crash
        },
        ChildStatus::Exited(code) => if SIGNAL_EXIT_BASE < code < SIGNAL_EXIT_END {
            if spec_is_timeout_number(code - SIGNAL_EXIT_BASE) {
                ExitKind::Timeout
            } else {
                ExitKind::Crash
            }
        } else {
            ExitKind::Normal
        },
        ChildStatus::Other => ExitKind::Normal,
    }
}

/// What the parent returns for a forked trial.
pub open spec fn spec_fork_outcome(report: ForkReport) -> Result<ExitKind, Error> {
    match report {
        ForkReport::SharedMemory(e) => Err(e),
        ForkReport::ForkFailed(errno) => Err(Error::Os(errno)),
        ForkReport::WaitFailed(errno) => Err(Error::Os(errno)),
        ForkReport::Waited(status) => Ok(spec_verdict(status)),
    }
}

/// The timer for a timeout of `millis` milliseconds.
pub open spec fn spec_timer(millis: u128) -> TimerSpec {
    TimerSpec {
        tv_sec: (millis / 1000) as i64,
        tv_nsec: ((millis % 1000) * 1_000_000) as i64,
    }
}

/// The child's record after it published its trial.
pub open spec fn spec_child_armed(
    before: InProcessForkExecutorGlobalData,
    handlers: InChildProcessHandlers,
    pointers: ChildPointers,
) -> InProcessForkExecutorGlobalData {
    InProcessForkExecutorGlobalData {
        executor_ptr: pointers.executor,
        state_ptr: pointers.state,
        current_input_ptr: pointers.input,
        crash_handler: handlers.crash_handler,
        timeout_handler: handlers.timeout_handler,
    }
}

/// What a handler of the child does for a fault that means `exit_kind`.
pub open spec fn spec_child_action(
    data: InProcessForkExecutorGlobalData,
    exit_kind: ExitKind,
    exit_code: i32,
) -> ChildAction {
    if data.current_input_ptr != 0 {
        ChildAction::ObserveAndExit { input: data.current_input_ptr, exit_kind, exit_code }
    } else {
        ChildAction::Exit { exit_code }
    }
}

/// How a child ends whose trial went through, given what the observers
/// answered at the end (`done`): it exits with the code for success,
/// whatever the harness returned. If the observers failed, there is no
/// orderly end, and their failure is handed on.
pub open spec fn spec_child_end(done: Result<(), Error>) -> Result<ChildAction, Error> {
    match done {
        Ok(_) => Ok(ChildAction::Exit { exit_code: CHILD_EXIT_CODE }),
        Err(e) => Err(e),
    }
}

/// Whether the harness was called with `input` and returned.
pub open spec fn spec_harness_ran<H, I>(harness: H, input: &I) -> bool where H: FnMut(&I) -> ExitKind {
    exists|verdict: ExitKind| call_ensures(harness, (input,), verdict)
}

/// Whether the child's side of a trial may go as follows. The observers,
/// which were `obs0`, are told that the target is about to run, answer
/// `prepared` and are left as `obs1`. If they did not fail, the harness is
/// called with the input, and the observers are told of a clean run, answer
/// `done` and are left as `obs2`. If they failed, nothing else happens and
/// `done` is their failure.
pub open spec fn spec_child_run<H, OT, S, I>(
    harness: H,
    input: &I,
    obs0: OT,
    prepared: Result<(), Error>,
    obs1: OT,
    done: Result<(), Error>,
    obs2: OT,
) -> bool where H: FnMut(&I) -> ExitKind, OT: ObserversTuple<S, I> {
    &&& obs0.pre_exec_child(input, &obs1, prepared)
    &&& if prepared is Ok {
        spec_harness_ran(harness, input) && obs1.post_exec_child(
            input,
            ExitKind::Normal,
            &obs2,
            done,
        )
    } else {
        obs2 == obs1 && done == prepared
    }
}

/// The verdict on a child that ended with `status`.
pub fn classify(status: ChildStatus) -> (verdict: ExitKind)
    ensures
        verdict == spec_verdict(status),
{
    match status {
        ChildStatus::Signaled(signal) => {
            if signal == SIGALRM || signal == SIGUSR2 {
                ExitKind::Timeout
            } else {
                ExitKind::Crash
            }
        },
        ChildStatus::Exited(code) => {
            if code > SIGNAL_EXIT_BASE && code < SIGNAL_EXIT_END {
                let signal: i32 = code - SIGNAL_EXIT_BASE;
                if signal == SIGALRM || signal == SIGUSR2 {
                    ExitKind::Timeout
                } else {
                    ExitKind::Crash
                }
            } else {
                ExitKind::Normal
            }
        },
        ChildStatus::Other => ExitKind::Normal,
    }
}

/// Counts the trial and turns what the parent saw of it into the outcome:
/// a failure to fork or to wait is an error, the end of the child a verdict.
fn conclude_fork<S: HasExecutions>(state: &mut S, report: ForkReport) -> (outcome: Result<
    ExitKind,
    Error,
>)
    requires
        old(state).spec_executions() < usize::MAX,
    ensures
        final(state).spec_executions() == old(state).spec_executions() + 1,
        outcome == spec_fork_outcome(report),
{
    let count = state.executions_mut();
    *count = *count + 1;
    match report {
        ForkReport::SharedMemory(e) => Err(e),
        ForkReport::ForkFailed(errno) => Err(Error::Os(errno)),
        ForkReport::WaitFailed(errno) => Err(Error::Os(errno)),
        ForkReport::Waited(status) => Ok(classify(status)),
    }
}

/// The first half of what a child does: it publishes its trial and tells
/// the observers that the target is about to run.
fn prepare_child<OT, S, I>(
    handlers: &InChildProcessHandlers,
    observers: &mut OT,
    data: &mut InProcessForkExecutorGlobalData,
    pointers: ChildPointers,
    state: &mut S,
    input: &I,
) -> (done: Result<(), Error>) where OT: ObserversTuple<S, I>
    requires
        pointers.input != 0,
    ensures
        *final(data) == spec_child_armed(*old(data), *handlers, pointers),
        old(observers).pre_exec_child(input, final(observers), done),
{
    handlers.pre_run_target(data, pointers);
    observers.pre_exec_child_all(state, input)
}

/// The second half of what a child does: it calls the harness and tells the
/// observers that the target ran to its end. The child must exit afterwards.
fn finish_child<H, OT, S, I>(
    harness_fn: &mut H,
    observers: &mut OT,
    state: &mut S,
    input: &I,
) -> (done: Result<(), Error>) where H: FnMut(&I) -> ExitKind, OT: ObserversTuple<S, I>
    requires
        call_requires(*old(harness_fn), (input,)),
    ensures
        spec_harness_ran(*old(harness_fn), input),
        old(observers).post_exec_child(input, ExitKind::Normal, final(observers), done),
{
    let _ = harness_fn(input);
    observers.post_exec_child_all(state, input, &ExitKind::Normal)
}

/// How a child ends once the observers have answered `done`.
fn child_end(done: Result<(), Error>) -> (end: Result<ChildAction, Error>)
    ensures
        end == spec_child_end(done),
{
    match done {
        Ok(_) => Ok(ChildAction::Exit { exit_code: CHILD_EXIT_CODE }),
        Err(e) => Err(e),
    }
}

impl InChildProcessHandlers {
    /// Handlers for crashes only; `crash_handler` is the address of the function.
    pub fn new(crash_handler: usize) -> (handlers: Self)
        ensures
            handlers == (InChildProcessHandlers { crash_handler, timeout_handler: 0 }),
    {
        InChildProcessHandlers { crash_handler, timeout_handler: 0 }
    }

    /// Handlers for crashes and for timeouts.
    pub fn with_timeout(crash_handler: usize, timeout_handler: usize) -> (handlers: Self)
        ensures
            handlers == (InChildProcessHandlers { crash_handler, timeout_handler }),
    {
        InChildProcessHandlers { crash_handler, timeout_handler }
    }

    /// No handlers at all: faults are not caught.
    pub fn nop() -> (handlers: Self)
        ensures
            handlers == (InChildProcessHandlers { crash_handler: 0, timeout_handler: 0 }),
    {
        InChildProcessHandlers { crash_handler: 0, timeout_handler: 0 }
    }

    /// Publishes the child's trial for the child's handlers.
    pub fn pre_run_target(&self, data: &mut InProcessForkExecutorGlobalData, pointers: ChildPointers)
        requires
            pointers.input != 0,
        ensures
            *final(data) == spec_child_armed(*old(data), *self, pointers),
            final(data).spec_is_valid(),
    {
        data.executor_ptr = pointers.executor;
        data.current_input_ptr = pointers.input;
        data.state_ptr = pointers.state;
        data.crash_handler = self.crash_handler;
        data.timeout_handler = self.timeout_handler;
        publish_fence();
    }
}

impl InProcessForkExecutorGlobalData {
    /// Whether the child runs its trial.
    pub open spec fn spec_is_valid(&self) -> bool {
        self.current_input_ptr != 0
    }

    /// The record before any trial was published.
    pub fn new() -> (data: Self)
        ensures
            data == (InProcessForkExecutorGlobalData {
                executor_ptr: 0,
                state_ptr: 0,
                current_input_ptr: 0,
                crash_handler: 0,
                timeout_handler: 0,
            }),
    {
        InProcessForkExecutorGlobalData {
            executor_ptr: 0,
            state_ptr: 0,
            current_input_ptr: 0,
            crash_handler: 0,
            timeout_handler: 0,
        }
    }

    /// Whether the child runs its trial.
    pub fn is_valid(&self) -> (valid: bool)
        ensures
            valid == self.spec_is_valid(),
    {
        self.current_input_ptr != 0
    }

    /// Takes the input of the trial, so that no second handler tells the
    /// observers again.
    pub fn take_current_input(&mut self) -> (input: usize)
        requires
            old(self).spec_is_valid(),
        ensures
            input == old(self).current_input_ptr,
            *final(self) == (InProcessForkExecutorGlobalData {
                current_input_ptr: 0,
                ..*old(self)
            }),
    {
        let input = self.current_input_ptr;
        self.current_input_ptr = 0;
        input
    }

    /// Picks the function for a caught signal.
    pub fn handle(&self, signal: Signal) -> (dispatch: ChildDispatch)
        ensures
            dispatch == if signal == Signal::SigAlarm || signal == Signal::SigUser2 {
                if self.timeout_handler != 0 {
                    ChildDispatch::Timeout { handler: self.timeout_handler }
                } else {
                    ChildDispatch::NoHandler
                }
            } else {
                if self.crash_handler != 0 {
                    ChildDispatch::Crash { handler: self.crash_handler }
                } else {
                    ChildDispatch::NoHandler
                }
            },
    {
        if signal.is_timeout() {
            if self.timeout_handler != 0 {
                ChildDispatch::Timeout { handler: self.timeout_handler }
            } else {
                ChildDispatch::NoHandler
            }
        } else {
            if self.crash_handler != 0 {
                ChildDispatch::Crash { handler: self.crash_handler }
            } else {
                ChildDispatch::NoHandler
            }
        }
    }
}

/// Takes the trial, if the child runs one, and says what to do for a fault
/// that means `exit_kind`.
fn conclude_child(data: &mut InProcessForkExecutorGlobalData, exit_kind: ExitKind, exit_code: i32) -> (action:
    ChildAction)
    ensures
        action == spec_child_action(*old(data), exit_kind, exit_code),
        *final(data) == (InProcessForkExecutorGlobalData { current_input_ptr: 0, ..*old(data) }),
{
    if data.is_valid() {
        let input = data.take_current_input();
        ChildAction::ObserveAndExit { input, exit_kind, exit_code }
    } else {
        ChildAction::Exit { exit_code }
    }
}

/// The decision of the child's crash handler: the observers hear of a crash
/// if the trial was running, and the child exits with the code of the signal.
pub fn child_crash_handler(data: &mut InProcessForkExecutorGlobalData, signal: Signal) -> (action:
    ChildAction)
    ensures
        action == spec_child_action(
            *old(data),
            ExitKind::Crash,
            (SIGNAL_EXIT_BASE + spec_number(signal)) as i32,
        ),
        *final(data) == (InProcessForkExecutorGlobalData { current_input_ptr: 0, ..*old(data) }),
{
    conclude_child(data, ExitKind::Crash, signal.exit_code())
}

/// The decision of the child's timeout handler: the observers hear of a
/// timeout if the trial was running, and the child exits with the code of the signal.
pub fn child_timeout_handler(data: &mut InProcessForkExecutorGlobalData, signal: Signal) -> (action:
    ChildAction)
    ensures
        action == spec_child_action(
            *old(data),
            ExitKind::Timeout,
            (SIGNAL_EXIT_BASE + spec_number(signal)) as i32,
        ),
        *final(data) == (InProcessForkExecutorGlobalData { current_input_ptr: 0, ..*old(data) }),
{
    conclude_child(data, ExitKind::Timeout, signal.exit_code())
}

/// The decision of the child's panic hook: a panic during the trial is a
/// crash, after which the child exits as after an abort; any other panic is
/// left to the runtime.
pub fn on_child_panic(data: &mut InProcessForkExecutorGlobalData) -> (action: ChildAction)
    ensures
        action == if old(data).spec_is_valid() {
            ChildAction::ObserveAndExit {
                input: old(data).current_input_ptr,
                exit_kind: ExitKind::Crash,
                exit_code: PANIC_EXIT_CODE,
            }
        } else {
            ChildAction::Defer
        },
        *final(data) == (InProcessForkExecutorGlobalData { current_input_ptr: 0, ..*old(data) }),
{
    if data.is_valid() {
        conclude_child(data, ExitKind::Crash, PANIC_EXIT_CODE)
    } else {
        ChildAction::Defer
    }
}

/// A child that ends itself in the handler of a caught signal is judged by
/// its parent as the handler judged the signal: a timeout for the signals
/// that announce one, a crash for all others. A child whose trial went
/// through exits with the code for success and is judged a clean run.
pub proof fn lemma_exit_code_carries_verdict(signal: Signal)
    ensures
        spec_verdict(ChildStatus::Exited((SIGNAL_EXIT_BASE + spec_number(signal)) as i32)) == if signal
            == Signal::SigAlarm || signal == Signal::SigUser2 {
            ExitKind::Timeout
        } else {
            ExitKind::Crash
        },
        spec_verdict(ChildStatus::Signaled(spec_number(signal))) == spec_verdict(
            ChildStatus::Exited((SIGNAL_EXIT_BASE + spec_number(signal)) as i32),
        ),
        spec_verdict(ChildStatus::Exited(CHILD_EXIT_CODE)) == ExitKind::Normal,
        spec_verdict(ChildStatus::Exited(PANIC_EXIT_CODE)) == ExitKind::Crash,
{
}

/// Runs every trial in a child of its own.
#[derive(Debug)]
pub struct InProcessForkExecutor<H, OT> {
    harness_fn: H,
    observers: OT,
    handlers: InChildProcessHandlers,
}

/// Runs every trial in a child of its own, which a timer ends if it hangs.
#[derive(Debug)]
pub struct TimeoutInProcessForkExecutor<H, OT> {
    harness_fn: H,
    observers: OT,
    handlers: InChildProcessHandlers,
    itimerspec: TimerSpec,
}

impl<H, OT> InProcessForkExecutor<H, OT> {
    /// The harness, as contracts see it.
    pub closed spec fn spec_harness(&self) -> H {
        self.harness_fn
    }

    /// The handlers, as contracts see them.
    pub closed spec fn spec_handlers(&self) -> InChildProcessHandlers {
        self.handlers
    }

    /// The observers, as contracts see them.
    pub closed spec fn spec_observers_of(&self) -> OT {
        self.observers
    }

    /// An executor that calls `harness_fn` in a child for every trial. The
    /// child catches crashes with the function at `crash_handler`, and no
    /// timeouts: nothing bounds the time that the child may take.
    pub fn new(harness_fn: H, observers: OT, crash_handler: usize) -> (executor: Self)
        ensures
            executor.spec_harness() == harness_fn,
            executor.spec_observers_of() == observers,
            executor.spec_handlers() == (InChildProcessHandlers {
                crash_handler,
                timeout_handler: 0,
            }),
    {
        Self { harness_fn, observers, handlers: InChildProcessHandlers::new(crash_handler) }
    }

    /// The harness.
    pub fn harness(&self) -> (harness: &H)
        ensures
            *harness == self.spec_harness(),
    {
        &self.harness_fn
    }

    /// The harness, to replace it.
    pub fn harness_mut(&mut self) -> (harness: &mut H)
        ensures
            *harness == old(self).spec_harness(),
            final(self).spec_harness() == *final(harness),
            final(self).spec_handlers() == old(self).spec_handlers(),
            final(self).spec_observers_of() == old(self).spec_observers_of(),
    {
        &mut self.harness_fn
    }

    /// The parent's side of a trial: counts the trial and judges what the
    /// parent saw of the child.
    pub fn run_target<S: HasExecutions>(&mut self, state: &mut S, report: ForkReport) -> (outcome:
        Result<ExitKind, Error>)
        requires
            old(state).spec_executions() < usize::MAX,
        ensures
            *final(self) == *old(self),
            final(state).spec_executions() == old(state).spec_executions() + 1,
            outcome == spec_fork_outcome(report),
    {
        conclude_fork(state, report)
    }

    /// The child's side of a trial, from the fork to the exit: the trial is
    /// published for the child's handlers, the observers are told, the
    /// harness runs, the observers are told again. What is returned is how
    /// the child ends: it exits with the code for success, whatever the
    /// harness returned, so that it never goes on into another trial. Only
    /// if the observers failed is their failure returned instead.
    pub fn run_child<S, I>(
        &mut self,
        data: &mut InProcessForkExecutorGlobalData,
        pointers: ChildPointers,
        state: &mut S,
        input: &I,
    ) -> (end: Result<ChildAction, Error>) where H: FnMut(&I) -> ExitKind, OT: ObserversTuple<S, I>
        requires
            call_requires(old(self).spec_harness(), (input,)),
            pointers.input != 0,
        ensures
            *final(data) == spec_child_armed(*old(data), old(self).spec_handlers(), pointers),
            final(self).spec_handlers() == old(self).spec_handlers(),
            exists|prepared: Result<(), Error>, obs1: OT, done: Result<(), Error>| #[trigger]
                spec_child_run::<H, OT, S, I>(
                    old(self).spec_harness(),
                    input,
                    old(self).spec_observers_of(),
                    prepared,
                    obs1,
                    done,
                    final(self).spec_observers_of(),
                ) && end == spec_child_end(done),
            end matches Ok(action) ==> action == (ChildAction::Exit { exit_code: CHILD_EXIT_CODE }),
    {
        let ghost obs0 = self.observers;
        let prepared = prepare_child(
            &self.handlers,
            &mut self.observers,
            data,
            pointers,
            state,
            input,
        );
        let ghost obs1 = self.observers;
        let mut done = prepared;
        if prepared.is_ok() {
            done = finish_child(&mut self.harness_fn, &mut self.observers, state, input);
        }
        proof {
            assert(spec_child_run::<H, OT, S, I>(
                old(self).spec_harness(),
                input,
                old(self).spec_observers_of(),
                prepared,
                obs1,
                done,
                self.spec_observers_of(),
            ));
        }
        child_end(done)
    }
}

impl<H, OT> TimeoutInProcessForkExecutor<H, OT> {
    /// The harness, as contracts see it.
    pub closed spec fn spec_harness(&self) -> H {
        self.harness_fn
    }

    /// The handlers, as contracts see them.
    pub closed spec fn spec_handlers(&self) -> InChildProcessHandlers {
        self.handlers
    }

    /// The observers, as contracts see them.
    pub closed spec fn spec_observers_of(&self) -> OT {
        self.observers
    }

    /// The timer, as contracts see it.
    pub closed spec fn spec_itimerspec(&self) -> TimerSpec {
        self.itimerspec
    }

    /// An executor that calls `harness_fn` in a child for every trial and
    /// lets the child run for `timeout_millis` milliseconds at most. The
    /// child catches crashes with the function at `crash_handler` and
    /// timeouts with the function at `timeout_handler`.
    pub fn new(
        harness_fn: H,
        observers: OT,
        crash_handler: usize,
        timeout_handler: usize,
        timeout_millis: u128,
    ) -> (executor: Self)
        requires
            timeout_millis / 1000 <= i64::MAX,
        ensures
            executor.spec_harness() == harness_fn,
            executor.spec_observers_of() == observers,
            executor.spec_handlers() == (InChildProcessHandlers { crash_handler, timeout_handler }),
            executor.spec_itimerspec() == spec_timer(timeout_millis),
            executor.spec_itimerspec().tv_sec == timeout_millis / 1000,
            executor.spec_itimerspec().tv_nsec == (timeout_millis % 1000) * 1_000_000,
    {
        let tv_sec = (timeout_millis / 1000) as i64;
        let tv_nsec = ((timeout_millis % 1000) * 1_000_000) as i64;
        Self {
            harness_fn,
            observers,
            handlers: InChildProcessHandlers::with_timeout(crash_handler, timeout_handler),
            itimerspec: TimerSpec { tv_sec, tv_nsec },
        }
    }

    /// The harness.
    pub fn harness(&self) -> (harness: &H)
        ensures
            *harness == self.spec_harness(),
    {
        &self.harness_fn
    }

    /// The harness, to replace it.
    pub fn harness_mut(&mut self) -> (harness: &mut H)
        ensures
            *harness == old(self).spec_harness(),
            final(self).spec_harness() == *final(harness),
            final(self).spec_handlers() == old(self).spec_handlers(),
            final(self).spec_observers_of() == old(self).spec_observers_of(),
            final(self).spec_itimerspec() == old(self).spec_itimerspec(),
    {
        &mut self.harness_fn
    }

    /// The timer that the child arms before it calls the harness.
    pub fn itimerspec(&self) -> (timer: TimerSpec)
        ensures
            timer == self.spec_itimerspec(),
    {
        self.itimerspec
    }

    /// The parent's side of a trial: counts the trial and judges what the
    /// parent saw of the child.
    pub fn run_target<S: HasExecutions>(&mut self, state: &mut S, report: ForkReport) -> (outcome:
        Result<ExitKind, Error>)
        requires
            old(state).spec_executions() < usize::MAX,
        ensures
            *final(self) == *old(self),
            final(state).spec_executions() == old(state).spec_executions() + 1,
            outcome == spec_fork_outcome(report),
    {
        conclude_fork(state, report)
    }

    /// The child's side of a trial up to the point at which the timer is
    /// armed: the trial is published for the child's handlers and the
    /// observers are told.
    pub fn prepare_child<S, I>(
        &mut self,
        data: &mut InProcessForkExecutorGlobalData,
        pointers: ChildPointers,
        state: &mut S,
        input: &I,
    ) -> (done: Result<(), Error>) where OT: ObserversTuple<S, I>
        requires
            pointers.input != 0,
        ensures
            *final(data) == spec_child_armed(*old(data), old(self).spec_handlers(), pointers),
            final(self).spec_harness() == old(self).spec_harness(),
            final(self).spec_handlers() == old(self).spec_handlers(),
            final(self).spec_itimerspec() == old(self).spec_itimerspec(),
            old(self).spec_observers_of().pre_exec_child(
                input,
                &final(self).spec_observers_of(),
                done,
            ),
    {
        prepare_child(&self.handlers, &mut self.observers, data, pointers, state, input)
    }

    /// The child's side of a trial once the timer is armed: the harness
    /// runs and the observers are told. What is returned is how the child
    /// ends: it exits with the code for success, whatever the harness
    /// returned, so that it never goes on into another trial. Only if the
    /// observers failed is their failure returned instead.
    pub fn run_child<S, I>(&mut self, state: &mut S, input: &I) -> (end: Result<
        ChildAction,
        Error,
    >) where H: FnMut(&I) -> ExitKind, OT: ObserversTuple<S, I>
        requires
            call_requires(old(self).spec_harness(), (input,)),
        ensures
            final(self).spec_handlers() == old(self).spec_handlers(),
            final(self).spec_itimerspec() == old(self).spec_itimerspec(),
            spec_harness_ran(old(self).spec_harness(), input),
            exists|done: Result<(), Error>| #[trigger]
                old(self).spec_observers_of().post_exec_child(
                    input,
                    ExitKind::Normal,
                    &final(self).spec_observers_of(),
                    done,
                ) && end == spec_child_end(done),
            end matches Ok(action) ==> action == (ChildAction::Exit { exit_code: CHILD_EXIT_CODE }),
    {
        let done = finish_child(&mut self.harness_fn, &mut self.observers, state, input);
        proof {
            assert(old(self).spec_observers_of().post_exec_child(
                input,
                ExitKind::Normal,
                &self.spec_observers_of(),
                done,
            ));
        }
        child_end(done)
    }
}

impl<H, OT> HasObservers for InProcessForkExecutor<H, OT> {
    type Observers = OT;

    open spec fn spec_observers(&self) -> OT {
        self.spec_observers_of()
    }

    fn observers(&self) -> (observers: &OT) {
        &self.observers
    }

    fn observers_mut(&mut self) -> (observers: &mut OT) {
        &mut self.observers
    }
}

impl<H, OT> HasObservers for TimeoutInProcessForkExecutor<H, OT> {
    type Observers = OT;

    open spec fn spec_observers(&self) -> OT {
        self.spec_observers_of()
    }

    fn observers(&self) -> (observers: &OT) {
        &self.observers
    }

    fn observers_mut(&mut self) -> (observers: &mut OT) {
        &mut self.observers
    }
}

} // verus!
