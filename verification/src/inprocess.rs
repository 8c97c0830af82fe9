//! Running the target as a call in this process, and the record through which
//! a fault handler learns what was running.
//!
//! Addresses are kept as plain numbers: zero stands for "none". The caller
//! turns references into addresses before a trial and back inside a handler.

use vstd::prelude::*;
use crate::barrier::publish_fence;
use crate::error::Error;
use crate::executor::{EventFirer, HasObjective, HasObservers, ObserversTuple};
use crate::exit_kind::ExitKind;
use crate::signals::{Signal, SIGNAL_EXIT_BASE, TIMEOUT_EXIT_CODE, spec_number};
use crate::state::HasExecutions;

verus! {

/// The exit code of a process that panicked inside a trial: that of an abort.
pub const PANIC_EXIT_CODE: i32 = 134;

/// The exit code of a process that ends after an exception or after a
/// sanitizer found a fault.
pub const EXCEPTION_EXIT_CODE: i32 = 1;

/// The addresses of what takes part in one trial.
#[derive(Clone, Copy, Debug, PartialEq, Eq, Structural)]
pub struct TrialPointers {
    /// Where the executor lives.
    pub executor: usize,
    /// Where the driver lives.
    pub fuzzer: usize,
    /// Where the driver's state lives.
    pub state: usize,
    /// Where the event sink lives.
    pub event_mgr: usize,
    /// Where the input of the trial lives; never zero.
    pub input: usize,
}

/// The handlers that an executor installs for its trials.
#[derive(Clone, Copy, Debug, PartialEq, Eq, Structural)]
pub struct InProcessHandlers {
    /// The address of the function to call on a crash, or zero.
    pub crash_handler: usize,
    /// The address of the function to call on a timeout, or zero.
    pub timeout_handler: usize,
}

/// The record that fault handlers read. A trial is in flight exactly while
/// `current_input_ptr` is not zero.
#[derive(Clone, Copy, Debug, PartialEq, Eq, Structural)]
pub struct InProcessExecutorHandlerData {
    /// Where the driver's state lives.
    pub state_ptr: usize,
    /// Where the event sink lives.
    pub event_mgr_ptr: usize,
    /// Where the driver lives.
    pub fuzzer_ptr: usize,
    /// Where the executor lives.
    pub executor_ptr: usize,
    /// Where the input of the trial in flight lives, or zero between trials.
    pub current_input_ptr: usize,
    /// Whether a handler is running.
    pub in_handler: bool,
    /// The address of the function to call on a crash, or zero.
    pub crash_handler: usize,
    /// The address of the function to call on a timeout, or zero.
    pub timeout_handler: usize,
    /// Where an executor lives that enforces timeouts itself and is asked
    /// first when one is announced, or zero.
    pub timeout_executor_ptr: usize,
}

/// What a handler has to do.
#[derive(Clone, Copy, Debug, PartialEq, Eq, Structural)]
pub enum FaultAction {
    /// Nothing: return to what was interrupted.
    Resume,
    /// No trial was in flight: leave the matter to whoever would have dealt
    /// with it otherwise.
    Defer,
    /// A trial was in flight. Reset the executor first if `reset_executor`
    /// says so, report the input at `input` with `exit_kind` to the observers,
    /// the objective and the event sink, then end the process with `exit_code`.
    Report { input: usize, exit_kind: ExitKind, reset_executor: bool, exit_code: i32 },
    /// The fault hit the machinery itself, inside a handler or outside of any
    /// trial: report nothing, wait for the operator, end the process with `exit_code`.
    DoubleFault { exit_code: i32 },
}

/// Which function a caught signal is handed to.
#[derive(Clone, Copy, Debug, PartialEq, Eq, Structural)]
pub enum Dispatch {
    /// A handler was already running: the signal is a double fault.
    DoubleFault { exit_code: i32 },
    /// No function is installed for this kind of signal.
    NoHandler,
    /// Call the crash handler at this address.
    Crash { handler: usize },
    /// Call the timeout handler at this address.
    Timeout { handler: usize },
}

/// The record as it is between trials, before any executor was set up.
pub open spec fn spec_idle() -> InProcessExecutorHandlerData {
    InProcessExecutorHandlerData {
        state_ptr: 0,
        event_mgr_ptr: 0,
        fuzzer_ptr: 0,
        executor_ptr: 0,
        current_input_ptr: 0,
        in_handler: false,
        crash_handler: 0,
        timeout_handler: 0,
        timeout_executor_ptr: 0,
    }
}

/// The record after a trial was published in it.
pub open spec fn spec_armed(
    before: InProcessExecutorHandlerData,
    handlers: InProcessHandlers,
    pointers: TrialPointers,
) -> InProcessExecutorHandlerData {
    InProcessExecutorHandlerData {
        state_ptr: pointers.state,
        event_mgr_ptr: pointers.event_mgr,
        fuzzer_ptr: pointers.fuzzer,
        executor_ptr: pointers.executor,
        current_input_ptr: pointers.input,
        crash_handler: handlers.crash_handler,
        timeout_handler: handlers.timeout_handler,
        ..before
    }
}

/// The record after the trial in it was concluded.
pub open spec fn spec_cleared(before: InProcessExecutorHandlerData) -> InProcessExecutorHandlerData {
    InProcessExecutorHandlerData { current_input_ptr: 0, ..before }
}

/// What a handler does once it is known not to be nested, for a fault that
/// means `exit_kind` and ends the process with `exit_code`.
pub open spec fn spec_fault_action(
    data: InProcessExecutorHandlerData,
    exit_kind: ExitKind,
    reset_executor: bool,
    exit_code: i32,
) -> FaultAction {
    if data.current_input_ptr != 0 {
        FaultAction::Report { input: data.current_input_ptr, exit_kind, reset_executor, exit_code }
    } else {
        FaultAction::DoubleFault { exit_code }
    }
}

/// Whether the action hands a trial to the objective.
pub open spec fn spec_reports(action: FaultAction) -> bool {
    action is Report
}

impl InProcessHandlers {
    /// Handlers that live at the given addresses.
    pub fn new(crash_handler: usize, timeout_handler: usize) -> (handlers: Self)
        ensures
            handlers == (InProcessHandlers { crash_handler, timeout_handler }),
    {
        InProcessHandlers { crash_handler, timeout_handler }
    }

    /// No handlers at all: faults are not caught.
    pub fn nop() -> (handlers: Self)
        ensures
            handlers == (InProcessHandlers { crash_handler: 0, timeout_handler: 0 }),
    {
        InProcessHandlers { crash_handler: 0, timeout_handler: 0 }
    }

    /// Publishes a trial: from here on a handler finds the trial's input,
    /// state, event sink, driver and executor, and these handlers.
    pub fn pre_run_target(&self, data: &mut InProcessExecutorHandlerData, pointers: TrialPointers)
        requires
            pointers.input != 0,
        ensures
            *final(data) == spec_armed(*old(data), *self, pointers),
            final(data).spec_is_valid(),
    {
        data.current_input_ptr = pointers.input;
        data.executor_ptr = pointers.executor;
        data.crash_handler = self.crash_handler;
        data.timeout_handler = self.timeout_handler;
        data.state_ptr = pointers.state;
        data.event_mgr_ptr = pointers.event_mgr;
        data.fuzzer_ptr = pointers.fuzzer;
        publish_fence();
    }

    /// Concludes a trial: from here on no trial is in flight.
    pub fn post_run_target(&self, data: &mut InProcessExecutorHandlerData)
        ensures
            *final(data) == spec_cleared(*old(data)),
            !final(data).spec_is_valid(),
    {
        data.current_input_ptr = 0;
        publish_fence();
    }
}

impl InProcessExecutorHandlerData {
    /// Whether a trial is in flight.
    pub open spec fn spec_is_valid(&self) -> bool {
        self.current_input_ptr != 0
    }

    /// The record between trials, before any executor was set up.
    pub fn new() -> (data: Self)
        ensures
            data == spec_idle(),
            !data.spec_is_valid(),
    {
        InProcessExecutorHandlerData {
            state_ptr: 0,
            event_mgr_ptr: 0,
            fuzzer_ptr: 0,
            executor_ptr: 0,
            current_input_ptr: 0,
            in_handler: false,
            crash_handler: 0,
            timeout_handler: 0,
            timeout_executor_ptr: 0,
        }
    }

    /// Whether a trial is in flight.
    pub fn is_valid(&self) -> (valid: bool)
        ensures
            valid == self.spec_is_valid(),
    {
        self.current_input_ptr != 0
    }

    /// Takes the input of the trial in flight, which concludes the trial: a
    /// second fault finds no trial any more.
    pub fn take_current_input(&mut self) -> (input: usize)
        requires
            old(self).spec_is_valid(),
        ensures
            input == old(self).current_input_ptr,
            input != 0,
            *final(self) == spec_cleared(*old(self)),
    {
        let input = self.current_input_ptr;
        self.current_input_ptr = 0;
        input
    }

    /// Says whether a handler is running from now on, and returns what was said before.
    pub fn set_in_handler(&mut self, v: bool) -> (before: bool)
        ensures
            before == old(self).in_handler,
            *final(self) == (InProcessExecutorHandlerData { in_handler: v, ..*old(self) }),
    {
        let before = self.in_handler;
        self.in_handler = v;
        before
    }

    /// The executor to ask first when a timeout is announced, if there is one.
    pub fn timeout_executor(&self) -> (executor: Option<usize>)
        ensures
            executor == if self.timeout_executor_ptr != 0 {
                Some(self.timeout_executor_ptr)
            } else {
                None
            },
    {
        if self.timeout_executor_ptr != 0 {
            Some(self.timeout_executor_ptr)
        } else {
            None
        }
    }

    /// Enters the handling of a caught signal and picks the function for it.
    /// A signal that arrives while a handler is running is a double fault,
    /// and no function is called for it. Otherwise the record says from now
    /// on that a handler is running, until `leave` is called.
    pub fn handle(&mut self, signal: Signal) -> (dispatch: Dispatch)
        ensures
            *final(self) == (InProcessExecutorHandlerData { in_handler: true, ..*old(self) }),
            old(self).in_handler ==> dispatch == (Dispatch::DoubleFault {
                exit_code: (SIGNAL_EXIT_BASE + spec_number(signal)) as i32,
            }),
            !old(self).in_handler ==> dispatch == if signal == Signal::SigAlarm || signal
                == Signal::SigUser2 {
                if old(self).timeout_handler != 0 {
                    Dispatch::Timeout { handler: old(self).timeout_handler }
                } else {
                    Dispatch::NoHandler
                }
            } else {
                if old(self).crash_handler != 0 {
                    Dispatch::Crash { handler: old(self).crash_handler }
                } else {
                    Dispatch::NoHandler
                }
            },
    {
        let nested = self.set_in_handler(true);
        if nested {
            Dispatch::DoubleFault { exit_code: signal.exit_code() }
        } else if signal.is_timeout() {
            if self.timeout_handler != 0 {
                Dispatch::Timeout { handler: self.timeout_handler }
            } else {
                Dispatch::NoHandler
            }
        } else {
            if self.crash_handler != 0 {
                Dispatch::Crash { handler: self.crash_handler }
            } else {
                Dispatch::NoHandler
            }
        }
    }

    /// Leaves the handling of a signal for which `handle` picked a function
    /// or found none.
    pub fn leave(&mut self)
        ensures
            *final(self) == (InProcessExecutorHandlerData { in_handler: false, ..*old(self) }),
    {
        self.in_handler = false;
    }
}

/// The state of the driver for the trial in flight, if any was ever published.
pub fn inprocess_get_state(data: &InProcessExecutorHandlerData) -> (address: Option<usize>)
    ensures
        address == if data.state_ptr != 0 { Some(data.state_ptr) } else { None },
{
    if data.state_ptr != 0 { Some(data.state_ptr) } else { None }
}

/// The event sink for the trial in flight, if any was ever published.
pub fn inprocess_get_event_manager(data: &InProcessExecutorHandlerData) -> (address: Option<usize>)
    ensures
        address == if data.event_mgr_ptr != 0 { Some(data.event_mgr_ptr) } else { None },
{
    if data.event_mgr_ptr != 0 { Some(data.event_mgr_ptr) } else { None }
}

/// The driver for the trial in flight, if any was ever published.
pub fn inprocess_get_fuzzer(data: &InProcessExecutorHandlerData) -> (address: Option<usize>)
    ensures
        address == if data.fuzzer_ptr != 0 { Some(data.fuzzer_ptr) } else { None },
{
    if data.fuzzer_ptr != 0 { Some(data.fuzzer_ptr) } else { None }
}

/// The executor of the trial in flight, if any was ever published.
pub fn inprocess_get_executor(data: &InProcessExecutorHandlerData) -> (address: Option<usize>)
    ensures
        address == if data.executor_ptr != 0 { Some(data.executor_ptr) } else { None },
{
    if data.executor_ptr != 0 { Some(data.executor_ptr) } else { None }
}

/// The input of the trial in flight; none between trials.
pub fn inprocess_get_input(data: &InProcessExecutorHandlerData) -> (address: Option<usize>)
    ensures
        address == if data.spec_is_valid() { Some(data.current_input_ptr) } else { None },
{
    if data.current_input_ptr != 0 { Some(data.current_input_ptr) } else { None }
}

/// Whether a crash or timeout handler is running.
pub fn inprocess_in_handler(data: &InProcessExecutorHandlerData) -> (in_handler: bool)
    ensures
        in_handler == data.in_handler,
{
    data.in_handler
}

/// Decides what a fault inside a handler-free context leads to, and takes the
/// input if a trial was in flight.
fn conclude(
    data: &mut InProcessExecutorHandlerData,
    exit_kind: ExitKind,
    reset_executor: bool,
    exit_code: i32,
) -> (action: FaultAction)
    ensures
        action == spec_fault_action(*old(data), exit_kind, reset_executor, exit_code),
        *final(data) == spec_cleared(*old(data)),
{
    if data.is_valid() {
        let input = data.take_current_input();
        FaultAction::Report { input, exit_kind, reset_executor, exit_code }
    } else {
        FaultAction::DoubleFault { exit_code }
    }
}

/// The crash handler's decision. With a trial in flight the trial is taken
/// and reported as a crash, after the executor was reset so that no timer
/// of its own fires meanwhile. Without one, the crash is the machinery's own.
/// Either way the process ends with the exit code of the signal.
pub fn inproc_crash_handler(data: &mut InProcessExecutorHandlerData, signal: Signal) -> (action:
    FaultAction)
    ensures
        action == spec_fault_action(
            *old(data),
            ExitKind::Crash,
            true,
            (SIGNAL_EXIT_BASE + spec_number(signal)) as i32,
        ),
        *final(data) == spec_cleared(*old(data)),
{
    conclude(data, ExitKind::Crash, true, signal.exit_code())
}

/// The timeout handler's decision. If an executor that enforces timeouts
/// itself has dealt with the timeout, nothing is left to do. Otherwise a
/// trial in flight is taken and reported as a timeout, and a timeout outside
/// of any trial is the machinery's own fault.
pub fn inproc_timeout_handler(
    data: &mut InProcessExecutorHandlerData,
    handled_by_timeout_executor: bool,
) -> (action: FaultAction)
    ensures
        handled_by_timeout_executor && old(data).timeout_executor_ptr != 0 ==> action
            == FaultAction::Resume && *final(data) == *old(data),
        !(handled_by_timeout_executor && old(data).timeout_executor_ptr != 0) ==> action
            == spec_fault_action(*old(data), ExitKind::Timeout, false, TIMEOUT_EXIT_CODE)
            && *final(data) == spec_cleared(*old(data)),
{
    if data.timeout_executor_ptr != 0 && handled_by_timeout_executor {
        FaultAction::Resume
    } else {
        conclude(data, ExitKind::Timeout, false, TIMEOUT_EXIT_CODE)
    }
}

/// What the panic hook does with a record: a trial in flight is reported as
/// a crash, and the process ends as after an abort; without one the panic
/// is left to the runtime.
pub open spec fn spec_panic_action(data: InProcessExecutorHandlerData) -> FaultAction {
    if data.spec_is_valid() {
        FaultAction::Report {
            input: data.current_input_ptr,
            exit_kind: ExitKind::Crash,
            reset_executor: false,
            exit_code: PANIC_EXIT_CODE,
        }
    } else {
        FaultAction::Defer
    }
}

/// The panic hook's decision. A panic during a trial is a crash of the
/// target, whether a handler is running or not: the trial is taken and
/// reported, the record says from then on that a handler is running, and the
/// process ends as after an abort. A panic between trials is left to the
/// runtime, and the record is left as it was.
pub fn on_panic(data: &mut InProcessExecutorHandlerData) -> (action: FaultAction)
    ensures
        action == spec_panic_action(*old(data)),
        old(data).spec_is_valid() ==> *final(data) == (InProcessExecutorHandlerData {
            in_handler: true,
            current_input_ptr: 0,
            ..*old(data)
        }),
        !old(data).spec_is_valid() ==> *final(data) == *old(data),
{
    let in_handler = data.set_in_handler(true);
    if data.is_valid() {
        conclude(data, ExitKind::Crash, false, PANIC_EXIT_CODE)
    } else {
        data.set_in_handler(in_handler);
        FaultAction::Defer
    }
}

/// The decision of a handler for platforms that raise exceptions instead
/// of signals. An exception that is no crash is none of the executor's
/// business: the target goes on. A crash is handled as a signal would be,
/// and the process ends with the exit code for exceptions.
pub fn inproc_exception_handler(data: &mut InProcessExecutorHandlerData, is_crash: bool) -> (action:
    FaultAction)
    ensures
        !is_crash ==> action == FaultAction::Resume && *final(data) == *old(data),
        is_crash ==> action == spec_fault_action(
            *old(data),
            ExitKind::Crash,
            true,
            EXCEPTION_EXIT_CODE,
        ) && *final(data) == spec_cleared(*old(data)),
{
    if is_crash {
        conclude(data, ExitKind::Crash, true, EXCEPTION_EXIT_CODE)
    } else {
        FaultAction::Resume
    }
}

/// The decision of the hook that a sanitizer calls before it ends the
/// process. From here on a handler is running, for good. A trial in flight
/// is taken and reported as a crash, after the executor was reset; the
/// exit code is that for exceptions, should the sanitizer not end the
/// process first. Outside of any trial the fault is the machinery's own.
pub fn asan_death_handler(data: &mut InProcessExecutorHandlerData) -> (action: FaultAction)
    ensures
        action == spec_fault_action(*old(data), ExitKind::Crash, true, EXCEPTION_EXIT_CODE),
        *final(data) == (InProcessExecutorHandlerData {
            in_handler: true,
            current_input_ptr: 0,
            ..*old(data)
        }),
{
    data.set_in_handler(true);
    conclude(data, ExitKind::Crash, true, EXCEPTION_EXIT_CODE)
}

/// A trial is handed to the objective at most once. A handler reports
/// exactly when a trial is in flight, and once a handler or the panic hook
/// has taken the trial, no second fault and no second panic finds one. A
/// signal that arrives while a handler is running is not dispatched at all:
/// that is stated of `handle`.
pub proof fn lemma_double_fault_reports_nothing(
    data: InProcessExecutorHandlerData,
    exit_kind: ExitKind,
    reset_executor: bool,
    exit_code: i32,
)
    ensures
        !spec_reports(spec_fault_action(spec_cleared(data), exit_kind, reset_executor, exit_code)),
        !spec_reports(spec_panic_action(spec_cleared(data))),
        !spec_reports(
            spec_panic_action(
                InProcessExecutorHandlerData { in_handler: true, ..spec_cleared(data) },
            ),
        ),
        spec_cleared(spec_cleared(data)) == spec_cleared(data),
        spec_reports(spec_fault_action(data, exit_kind, reset_executor, exit_code))
            <==> data.spec_is_valid(),
        spec_reports(spec_panic_action(data)) <==> data.spec_is_valid(),
{
}

/// What was done to report a trial that ended in a fault.
#[derive(Clone, Copy, Debug, PartialEq, Eq, Structural)]
pub struct Reported {
    /// Whether the objective found the trial worth keeping.
    pub interesting: bool,
    /// The number of solutions after this one was stored, if it was stored.
    pub solutions: Option<usize>,
}

/// What a report comes to, given what the observers answered (`observed`),
/// what the objective answered when asked to judge (`judged`) and to store
/// (`saved`), and what the event sink answered to the announcement (`fired`)
/// and at the end (`restarted`): the first error in that order, where the
/// objective is asked to store, and the sink is told, only of an interesting
/// trial.
pub open spec fn spec_report(
    observed: Result<(), Error>,
    judged: Result<bool, Error>,
    saved: Result<usize, Error>,
    fired: Result<(), Error>,
    restarted: Result<(), Error>,
) -> Result<Reported, Error> {
    match (observed, judged) {
        (Err(e), _) => Err(e),
        (Ok(_), Err(e)) => Err(e),
        (Ok(_), Ok(false)) => match restarted {
            Err(e) => Err(e),
            Ok(_) => Ok(Reported { interesting: false, solutions: None }),
        },
        (Ok(_), Ok(true)) => match (saved, fired, restarted) {
            (Err(e), _, _) => Err(e),
            (Ok(_), Err(e), _) => Err(e),
            (Ok(_), Ok(_), Err(e)) => Err(e),
            (Ok(count), Ok(_), Ok(_)) => Ok(Reported { interesting: true, solutions: Some(count) }),
        },
    }
}

/// Whether a report may go as follows. The observers, which were `obs0`,
/// are told of the trial and answer `observed`; they are `obs1` from then
/// on. If they did not fail, the objective, which was `fz0`, judges the
/// trial with `judged` and is left as `fz1`. If it finds the trial
/// interesting, it stores it, answers `saved` and is left as `fz2`, and if
/// that went well the event sink, which is `em0` by then, is told the count,
/// answers `fired` and is left as `em1`. If nothing failed, the sink is
/// finally told to save what must survive, answers `restarted` and is left
/// as `em2`. A step that is not taken changes nothing.
pub open spec fn spec_reporting<OT, Z, EM, S, I>(
    input: &I,
    exit_kind: ExitKind,
    obs0: OT,
    observed: Result<(), Error>,
    obs1: OT,
    fz0: Z,
    judged: Result<bool, Error>,
    fz1: Z,
    saved: Result<usize, Error>,
    fz2: Z,
    em0: EM,
    fired: Result<(), Error>,
    em1: EM,
    restarted: Result<(), Error>,
    em2: EM,
) -> bool where OT: ObserversTuple<S, I>, Z: HasObjective<EM, S, I, OT>, EM: EventFirer<S> {
    let stores = observed is Ok && judged == Ok::<bool, Error>(true);
    let fires = stores && saved is Ok;
    let restarts = observed is Ok && judged is Ok && (stores ==> fires && fired is Ok);
    &&& obs0.post_exec(input, exit_kind, &obs1, observed)
    &&& if observed is Ok {
        fz0.judged(input, &obs1, exit_kind, &fz1, judged)
    } else {
        fz1 == fz0
    }
    &&& if stores {
        fz1.saved(input, &obs1, exit_kind, &fz2, saved)
    } else {
        fz2 == fz1
    }
    &&& if fires {
        em0.fired(saved->Ok_0, &em1, fired)
    } else {
        em1 == em0
    }
    &&& if restarts {
        em1.restarted(&em2, restarted)
    } else {
        em2 == em1
    }
}

/// Reports a trial that ended with `exitkind`: the observers are told first,
/// then the objective judges the trial; if it is worth keeping, it is stored
/// as a solution and announced to the event sink. At the end the event sink
/// saves what must survive the process. The first step that fails ends the
/// report with its error.
pub fn run_observers_and_save_state<E, EM, Z, S, I>(
    executor: &mut E,
    state: &mut S,
    input: &I,
    fuzzer: &mut Z,
    event_mgr: &mut EM,
    exitkind: ExitKind,
) -> (report: Result<Reported, Error>) where
    E: HasObservers,
    E::Observers: ObserversTuple<S, I>,
    Z: HasObjective<EM, S, I, E::Observers>,
    EM: EventFirer<S>,

    ensures
        exists|
            observed: Result<(), Error>,
            judged: Result<bool, Error>,
            fz1: Z,
            saved: Result<usize, Error>,
            em0: EM,
            fired: Result<(), Error>,
            em1: EM,
            restarted: Result<(), Error>,
        |
            #[trigger] spec_reporting::<E::Observers, Z, EM, S, I>(
                input,
                exitkind,
                old(executor).spec_observers(),
                observed,
                final(executor).spec_observers(),
                *old(fuzzer),
                judged,
                fz1,
                saved,
                *final(fuzzer),
                em0,
                fired,
                em1,
                restarted,
                *final(event_mgr),
            ) && report == spec_report(observed, judged, saved, fired, restarted),
        report matches Ok(done) ==> done.solutions.is_some() == done.interesting,
{
    let ghost obs0 = executor.spec_observers();
    let ghost fz0 = *fuzzer;
    let observers = executor.observers_mut();
    let observed = observers.post_exec_all(state, input, &exitkind);
    let ghost obs1 = *observers;
    let mut judged: Result<bool, Error> = Ok(false);
    let ghost mut fz1 = fz0;
    let mut saved: Result<usize, Error> = Ok(0);
    let ghost mut em0 = *event_mgr;
    let mut fired: Result<(), Error> = Ok(());
    let ghost mut em1 = *event_mgr;
    let mut restarted: Result<(), Error> = Ok(());
    if observed.is_ok() {
        judged = fuzzer.is_interesting(state, event_mgr, input, observers, &exitkind);
        proof {
            fz1 = *fuzzer;
            em0 = *event_mgr;
            em1 = *event_mgr;
        }
        let mut carry_on = judged.is_ok();
        match judged {
            Ok(true) => {
                saved = fuzzer.save_solution(state, input, observers, &exitkind);
                carry_on = saved.is_ok();
                match saved {
                    Ok(count) => {
                        fired = event_mgr.fire_objective(state, count);
                        proof {
                            em1 = *event_mgr;
                        }
                        carry_on = fired.is_ok();
                    },
                    Err(_) => {},
                }
            },
            _ => {},
        }
        if carry_on {
            restarted = event_mgr.on_restart(state);
        }
    }
    proof {
        assert(spec_reporting::<E::Observers, Z, EM, S, I>(
            input,
            exitkind,
            obs0,
            observed,
            obs1,
            fz0,
            judged,
            fz1,
            saved,
            *fuzzer,
            em0,
            fired,
            em1,
            restarted,
            *event_mgr,
        ));
    }
    report_of(observed, judged, saved, fired, restarted)
}

/// What a report comes to, given what each step answered.
fn report_of(
    observed: Result<(), Error>,
    judged: Result<bool, Error>,
    saved: Result<usize, Error>,
    fired: Result<(), Error>,
    restarted: Result<(), Error>,
) -> (report: Result<Reported, Error>)
    ensures
        report == spec_report(observed, judged, saved, fired, restarted),
{
    match observed {
        Err(e) => Err(e),
        Ok(_) => match judged {
            Err(e) => Err(e),
            Ok(false) => match restarted {
                Err(e) => Err(e),
                Ok(_) => Ok(Reported { interesting: false, solutions: None }),
            },
            Ok(true) => match saved {
                Err(e) => Err(e),
                Ok(count) => match fired {
                    Err(e) => Err(e),
                    Ok(_) => match restarted {
                        Err(e) => Err(e),
                        Ok(_) => Ok(Reported { interesting: true, solutions: Some(count) }),
                    },
                },
            },
        },
    }
}

/// Runs the target as a call of a harness in this process.
#[derive(Debug)]
pub struct GenericInProcessExecutor<H, OT> {
    harness_fn: H,
    observers: OT,
    handlers: InProcessHandlers,
}

impl<H, OT> GenericInProcessExecutor<H, OT> {
    /// The harness, as contracts see it.
    pub closed spec fn spec_harness(&self) -> H {
        self.harness_fn
    }

    /// The handlers, as contracts see them.
    pub closed spec fn spec_handlers(&self) -> InProcessHandlers {
        self.handlers
    }

    /// The observers, as contracts see them.
    pub closed spec fn spec_observers_of(&self) -> OT {
        self.observers
    }

    /// An executor that calls `harness_fn` for every trial, with the given
    /// observers attached and the given handlers published for each trial.
    pub fn new(harness_fn: H, observers: OT, handlers: InProcessHandlers) -> (executor: Self)
        ensures
            executor.spec_harness() == harness_fn,
            executor.spec_observers_of() == observers,
            executor.spec_handlers() == handlers,
    {
        Self { harness_fn, observers, handlers }
    }

    /// The harness.
    pub fn harness(&self) -> (harness: &H)
        ensures
            *harness == self.spec_harness(),
    {
        &self.harness_fn
    }

    /// The harness, to replace it.
    pub fn harness_mut(&mut self) -> (harness: &mut H)
        ensures
            *harness == old(self).spec_harness(),
            final(self).spec_harness() == *final(harness),
            final(self).spec_handlers() == old(self).spec_handlers(),
            final(self).spec_observers_of() == old(self).spec_observers_of(),
    {
        &mut self.harness_fn
    }

    /// The handlers.
    pub fn handlers(&self) -> (handlers: &InProcessHandlers)
        ensures
            *handlers == self.spec_handlers(),
    {
        &self.handlers
    }

    /// The handlers, to replace them.
    pub fn handlers_mut(&mut self) -> (handlers: &mut InProcessHandlers)
        ensures
            *handlers == old(self).spec_handlers(),
            final(self).spec_handlers() == *final(handlers),
            final(self).spec_harness() == old(self).spec_harness(),
            final(self).spec_observers_of() == old(self).spec_observers_of(),
    {
        &mut self.handlers
    }

    /// Runs one trial: counts it, publishes it in `data`, calls the harness
    /// with the input, and concludes it in `data`. The verdict is what the
    /// harness returned. Afterwards no trial is in flight. The handlers and
    /// the observers of the executor are left as they were; the harness may
    /// have changed what it holds.
    pub fn run_target<S, I>(
        &mut self,
        data: &mut InProcessExecutorHandlerData,
        pointers: TrialPointers,
        state: &mut S,
        input: &I,
    ) -> (outcome: Result<ExitKind, Error>) where S: HasExecutions, H: FnMut(&I) -> ExitKind
        requires
            call_requires(old(self).spec_harness(), (input,)),
            old(state).spec_executions() < usize::MAX,
            pointers.input != 0,
        ensures
            final(self).spec_handlers() == old(self).spec_handlers(),
            final(self).spec_observers_of() == old(self).spec_observers_of(),
            final(state).spec_executions() == old(state).spec_executions() + 1,
            outcome matches Ok(verdict) && call_ensures(old(self).spec_harness(), (input,), verdict),
            !final(data).spec_is_valid(),
            *final(data) == spec_cleared(spec_armed(*old(data), old(self).spec_handlers(), pointers)),
    {
        let count = state.executions_mut();
        *count = *count + 1;
        self.handlers.pre_run_target(data, pointers);
        let verdict = (self.harness_fn)(input);
        self.handlers.post_run_target(data);
        Ok(verdict)
    }
}

/// An executor that shows the handlers which it publishes for its trials.
pub trait HasInProcessHandlers {
    /// The handlers, as contracts see them. An implementation says what
    /// they are; nothing is known of them otherwise.
    open spec fn spec_inprocess_handlers(&self) -> InProcessHandlers {
        arbitrary()
    }

    /// The handlers.
    fn inprocess_handlers(&self) -> (handlers: &InProcessHandlers)
        ensures
            *handlers == self.spec_inprocess_handlers(),
    ;
}

impl<H, OT> HasInProcessHandlers for GenericInProcessExecutor<H, OT> {
    open spec fn spec_inprocess_handlers(&self) -> InProcessHandlers {
        self.spec_handlers()
    }

    fn inprocess_handlers(&self) -> (handlers: &InProcessHandlers) {
        &self.handlers
    }
}

impl<H, OT> HasObservers for GenericInProcessExecutor<H, OT> {
    type Observers = OT;

    open spec fn spec_observers(&self) -> OT {
        self.spec_observers_of()
    }

    fn observers(&self) -> (observers: &OT) {
        &self.observers
    }

    fn observers_mut(&mut self) -> (observers: &mut OT) {
        &mut self.observers
    }
}

} // verus!
