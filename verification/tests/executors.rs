use trial_exec::error::Error;
use trial_exec::executor::{Executor, HasObservers};
use trial_exec::exit_kind::ExitKind;
use trial_exec::fork::{
    child_crash_handler, child_timeout_handler, classify, on_child_panic, ChildAction,
    ChildDispatch, ChildPointers, ChildStatus, ForkReport, InChildProcessHandlers,
    InProcessForkExecutor, InProcessForkExecutorGlobalData, TimeoutInProcessForkExecutor,
    TimerSpec,
};
use trial_exec::inprocess::{
    asan_death_handler, inproc_crash_handler, inproc_exception_handler, inproc_timeout_handler, inprocess_get_executor,
    inprocess_get_event_manager, inprocess_get_fuzzer, inprocess_get_input,
    inprocess_get_state, inprocess_in_handler, on_panic, Dispatch, FaultAction,
    GenericInProcessExecutor, InProcessExecutorHandlerData, InProcessHandlers, TrialPointers,
    EXCEPTION_EXIT_CODE, PANIC_EXIT_CODE,
};
use trial_exec::interleaved::{interleave, InterleavedExecutor};
use trial_exec::nop::{NopEventManager, NopFuzzer, NopInput};
use trial_exec::signals::{signals, Signal, SIGALRM, SIGUSR2, TIMEOUT_EXIT_CODE};
use trial_exec::state::{HasExecutions, NopState};

/// An executor that answers every trial with the same outcome and counts
/// how often it was run and reset.
struct Fixed {
    outcome: Result<ExitKind, Error>,
    runs: usize,
    resets: usize,
}

impl Fixed {
    fn new(outcome: Result<ExitKind, Error>) -> Self {
        Fixed { outcome, runs: 0, resets: 0 }
    }
}

impl Executor<NopEventManager, NopFuzzer, NopState, NopInput> for Fixed {
    fn run_target(
        &mut self,
        _fuzzer: &mut NopFuzzer,
        state: &mut NopState,
        _mgr: &mut NopEventManager,
        _input: &NopInput,
    ) -> Result<ExitKind, Error> {
        *state.executions_mut() += 1;
        self.runs += 1;
        self.outcome
    }

    fn post_run_reset(&mut self) {
        self.resets += 1;
    }
}

impl HasObservers for Fixed {
    type Observers = usize;

    fn observers(&self) -> &usize {
        &self.runs
    }

    fn observers_mut(&mut self) -> &mut usize {
        &mut self.runs
    }
}

fn pointers() -> TrialPointers {
    TrialPointers { executor: 0x10, fuzzer: 0x20, state: 0x30, event_mgr: 0x40, input: 0x50 }
}

fn run_pair(first: ExitKind, second: ExitKind) -> ExitKind {
    let mgr = NopEventManager::new();
    let fuzzer = NopFuzzer::new();
    let mut executor =
        InterleavedExecutor::new(Fixed::new(Ok(first)), Fixed::new(Ok(second)), &mgr, &fuzzer);
    let mut state = NopState::new();
    executor
        .run_target(&mut NopFuzzer::new(), &mut state, &mut NopEventManager::new(), &NopInput {})
        .unwrap()
}

#[test]
fn test_inmem_exec() {
    let harness = |_buf: &NopInput| ExitKind::Normal;

    let mut in_process_executor =
        GenericInProcessExecutor::new(harness, (), InProcessHandlers::nop());
    let input = NopInput {};
    let mut data = InProcessExecutorHandlerData::new();
    in_process_executor
        .run_target(&mut data, pointers(), &mut NopState::new(), &input)
        .unwrap();
    let _ = (NopFuzzer::new(), NopEventManager::new());
}

#[test]
fn test_inprocessfork_exec() {
    let harness = |_buf: &NopInput| ExitKind::Normal;
    let mut in_process_fork_executor =
        InProcessForkExecutor::new(harness, (), InChildProcessHandlers::nop().crash_handler);
    let mut state = NopState::new();
    in_process_fork_executor
        .run_target(&mut state, ForkReport::Waited(ChildStatus::Exited(0)))
        .unwrap();
}

#[test]
fn inprocess_run_counts_once_and_returns_the_harness_verdict() {
    for verdict in [ExitKind::Normal, ExitKind::Crash, ExitKind::Timeout] {
        let harness = move |_buf: &NopInput| verdict;
        let mut executor = GenericInProcessExecutor::new(harness, (), InProcessHandlers::nop());
        let mut data = InProcessExecutorHandlerData::new();
        let mut state = NopState::new();
        *state.executions_mut() = 41;
        let outcome = executor.run_target(&mut data, pointers(), &mut state, &NopInput {});
        assert_eq!(outcome, Ok(verdict));
        assert_eq!(*state.executions(), 42);
    }
}

#[test]
fn inprocess_run_leaves_no_trial_in_flight() {
    let harness = |_buf: &NopInput| ExitKind::Normal;
    let handlers = InProcessHandlers::new(0x1000, 0x2000);
    let mut executor = GenericInProcessExecutor::new(harness, (), handlers);
    let mut data = InProcessExecutorHandlerData::new();
    let mut state = NopState::new();
    executor.run_target(&mut data, pointers(), &mut state, &NopInput {}).unwrap();
    assert!(!data.is_valid());
    assert_eq!(data.current_input_ptr, 0);
    assert_eq!(inprocess_get_input(&data), None);
    assert_eq!(inprocess_get_state(&data), Some(0x30));
    assert_eq!(inprocess_get_event_manager(&data), Some(0x40));
    assert_eq!(inprocess_get_fuzzer(&data), Some(0x20));
    assert_eq!(inprocess_get_executor(&data), Some(0x10));
    assert_eq!(data.crash_handler, 0x1000);
    assert_eq!(data.timeout_handler, 0x2000);
    assert!(!inprocess_in_handler(&data));
}

#[test]
fn publishing_arms_and_concluding_clears() {
    let handlers = InProcessHandlers::new(7, 9);
    let mut data = InProcessExecutorHandlerData::new();
    assert_eq!(inprocess_get_state(&data), None);
    handlers.pre_run_target(&mut data, pointers());
    assert!(data.is_valid());
    assert_eq!(inprocess_get_input(&data), Some(0x50));
    assert_eq!(data.crash_handler, 7);
    assert_eq!(data.timeout_handler, 9);
    handlers.post_run_target(&mut data);
    assert!(!data.is_valid());
    assert_eq!(data.executor_ptr, 0x10);
}

#[test]
fn nop_handlers_are_null() {
    let handlers = InProcessHandlers::nop();
    assert_eq!(handlers.crash_handler, 0);
    assert_eq!(handlers.timeout_handler, 0);
    let child = InChildProcessHandlers::nop();
    assert_eq!(child.crash_handler, 0);
    assert_eq!(child.timeout_handler, 0);
    assert_eq!(InChildProcessHandlers::new(5).timeout_handler, 0);
    assert_eq!(InChildProcessHandlers::with_timeout(5, 6).timeout_handler, 6);
}

#[test]
fn take_current_input_concludes_the_trial() {
    let mut data = InProcessExecutorHandlerData::new();
    InProcessHandlers::nop().pre_run_target(&mut data, pointers());
    assert_eq!(data.take_current_input(), 0x50);
    assert!(!data.is_valid());
}

#[test]
fn set_in_handler_returns_the_old_flag() {
    let mut data = InProcessExecutorHandlerData::new();
    assert!(!data.set_in_handler(true));
    assert!(data.set_in_handler(false));
    assert!(!inprocess_in_handler(&data));
}

#[test]
fn handle_dispatches_by_signal() {
    let mut data = InProcessExecutorHandlerData::new();
    InProcessHandlers::new(0xc, 0xd).pre_run_target(&mut data, pointers());
    assert_eq!(data.handle(Signal::SigSegmentationFault), Dispatch::Crash { handler: 0xc });
    assert!(data.in_handler);
    data.leave();
    assert!(!data.in_handler);
    assert_eq!(data.handle(Signal::SigAlarm), Dispatch::Timeout { handler: 0xd });
    data.leave();
    assert_eq!(data.handle(Signal::SigUser2), Dispatch::Timeout { handler: 0xd });
    data.leave();
    let mut bare = InProcessExecutorHandlerData::new();
    assert_eq!(bare.handle(Signal::SigAbort), Dispatch::NoHandler);
    bare.leave();
    assert_eq!(bare.handle(Signal::SigAlarm), Dispatch::NoHandler);
}

#[test]
fn fault_inside_a_handler_is_a_double_fault() {
    let mut data = InProcessExecutorHandlerData::new();
    InProcessHandlers::new(0xc, 0xd).pre_run_target(&mut data, pointers());
    data.set_in_handler(true);
    assert_eq!(
        data.handle(Signal::SigSegmentationFault),
        Dispatch::DoubleFault { exit_code: 128 + 11 }
    );
    // The trial was not taken and nothing is to be reported.
    assert!(data.is_valid());
    assert!(data.in_handler);
}

#[test]
fn panic_inside_a_handler_still_reports_the_trial() {
    let mut data = InProcessExecutorHandlerData::new();
    InProcessHandlers::new(0xc, 0xd).pre_run_target(&mut data, pointers());
    data.set_in_handler(true);
    assert_eq!(
        on_panic(&mut data),
        FaultAction::Report {
            input: 0x50,
            exit_kind: ExitKind::Crash,
            reset_executor: false,
            exit_code: PANIC_EXIT_CODE
        }
    );
    assert_eq!(PANIC_EXIT_CODE, 128 + 6);
    assert!(data.in_handler);
    assert!(!data.is_valid());
    // The trial is gone: a second panic is left to the runtime.
    assert_eq!(on_panic(&mut data), FaultAction::Defer);
    assert!(data.in_handler);
}

#[test]
fn panic_outside_a_trial_is_left_to_the_runtime() {
    let mut idle = InProcessExecutorHandlerData::new();
    assert_eq!(on_panic(&mut idle), FaultAction::Defer);
    assert_eq!(idle, InProcessExecutorHandlerData::new());
    let mut handling = InProcessExecutorHandlerData::new();
    handling.set_in_handler(true);
    let before = handling;
    assert_eq!(on_panic(&mut handling), FaultAction::Defer);
    assert_eq!(handling, before);
}

#[test]
fn crash_in_a_trial_is_reported_once() {
    let mut data = InProcessExecutorHandlerData::new();
    InProcessHandlers::new(0xc, 0xd).pre_run_target(&mut data, pointers());
    let first = inproc_crash_handler(&mut data, Signal::SigSegmentationFault);
    assert_eq!(
        first,
        FaultAction::Report {
            input: 0x50,
            exit_kind: ExitKind::Crash,
            reset_executor: true,
            exit_code: 139
        }
    );
    assert!(!data.is_valid());
    let second = inproc_crash_handler(&mut data, Signal::SigSegmentationFault);
    assert_eq!(second, FaultAction::DoubleFault { exit_code: 139 });
}

#[test]
fn crash_outside_a_trial_is_a_double_fault() {
    let mut data = InProcessExecutorHandlerData::new();
    assert_eq!(
        inproc_crash_handler(&mut data, Signal::SigBus),
        FaultAction::DoubleFault { exit_code: 128 + 7 }
    );
}

#[test]
fn timeout_in_a_trial_is_reported() {
    let mut data = InProcessExecutorHandlerData::new();
    InProcessHandlers::new(0xc, 0xd).pre_run_target(&mut data, pointers());
    assert_eq!(
        inproc_timeout_handler(&mut data, false),
        FaultAction::Report {
            input: 0x50,
            exit_kind: ExitKind::Timeout,
            reset_executor: false,
            exit_code: TIMEOUT_EXIT_CODE
        }
    );
    assert_eq!(TIMEOUT_EXIT_CODE, 55);
    assert_eq!(
        inproc_timeout_handler(&mut data, false),
        FaultAction::DoubleFault { exit_code: 55 }
    );
}

#[test]
fn timeout_executor_has_first_refusal() {
    let mut data = InProcessExecutorHandlerData::new();
    InProcessHandlers::new(0xc, 0xd).pre_run_target(&mut data, pointers());
    assert_eq!(data.timeout_executor(), None);
    // Nobody to ask: what the caller claims does not count.
    let mut unasked = data;
    assert!(matches!(inproc_timeout_handler(&mut unasked, true), FaultAction::Report { .. }));
    data.timeout_executor_ptr = 0x77;
    assert_eq!(data.timeout_executor(), Some(0x77));
    assert_eq!(inproc_timeout_handler(&mut data, true), FaultAction::Resume);
    assert!(data.is_valid());
}

#[test]
fn panic_in_a_trial_is_a_crash() {
    let mut data = InProcessExecutorHandlerData::new();
    assert_eq!(on_panic(&mut data), FaultAction::Defer);
    assert!(!data.in_handler);
    InProcessHandlers::nop().pre_run_target(&mut data, pointers());
    assert_eq!(
        on_panic(&mut data),
        FaultAction::Report {
            input: 0x50,
            exit_kind: ExitKind::Crash,
            reset_executor: false,
            exit_code: 134
        }
    );
    assert!(data.in_handler);
    assert!(!data.is_valid());
}

#[test]
fn signal_numbers_and_exit_codes() {
    assert_eq!(SIGALRM, 14);
    assert_eq!(SIGUSR2, 12);
    assert_eq!(Signal::SigAlarm.number(), 14);
    assert_eq!(Signal::SigUser2.number(), 12);
    assert_eq!(Signal::SigAbort.number(), 6);
    assert_eq!(Signal::SigSegmentationFault.exit_code(), 139);
    assert_eq!(Signal::from_number(11), Some(Signal::SigSegmentationFault));
    assert_eq!(Signal::from_number(9), None);
    assert!(Signal::SigAlarm.is_timeout());
    assert!(!Signal::SigTrap.is_timeout());
    let all = signals();
    assert_eq!(all.len(), 9);
    assert_eq!(all[0], Signal::SigAlarm);
    assert_eq!(all[8], Signal::SigTrap);
    for signal in all {
        assert_eq!(Signal::from_number(signal.number()), Some(signal));
    }
}

#[test]
fn forked_child_status_is_classified() {
    assert_eq!(classify(ChildStatus::Exited(128 + 14)), ExitKind::Timeout);
    assert_eq!(classify(ChildStatus::Exited(128 + 12)), ExitKind::Timeout);
    assert_eq!(classify(ChildStatus::Exited(128 + 11)), ExitKind::Crash);
    assert_eq!(classify(ChildStatus::Exited(0)), ExitKind::Normal);
    assert_eq!(classify(ChildStatus::Exited(1)), ExitKind::Normal);
    assert_eq!(classify(ChildStatus::Exited(128)), ExitKind::Normal);
    assert_eq!(classify(ChildStatus::Exited(129)), ExitKind::Crash);
    assert_eq!(classify(ChildStatus::Exited(159)), ExitKind::Crash);
    assert_eq!(classify(ChildStatus::Exited(160)), ExitKind::Normal);
    assert_eq!(classify(ChildStatus::Exited(55)), ExitKind::Normal);
    assert_eq!(classify(ChildStatus::Signaled(14)), ExitKind::Timeout);
    assert_eq!(classify(ChildStatus::Signaled(12)), ExitKind::Timeout);
    assert_eq!(classify(ChildStatus::Signaled(11)), ExitKind::Crash);
    assert_eq!(classify(ChildStatus::Signaled(9)), ExitKind::Crash);
    assert_eq!(classify(ChildStatus::Other), ExitKind::Normal);
}

#[test]
fn fork_run_counts_once_whatever_the_outcome() {
    let harness = |_buf: &NopInput| ExitKind::Normal;
    let mut executor = InProcessForkExecutor::new(harness, (), 0);
    let mut state = NopState::new();
    let reports = [
        (ForkReport::Waited(ChildStatus::Exited(142)), Ok(ExitKind::Timeout)),
        (ForkReport::Waited(ChildStatus::Exited(139)), Ok(ExitKind::Crash)),
        (ForkReport::Waited(ChildStatus::Exited(0)), Ok(ExitKind::Normal)),
        (ForkReport::ForkFailed(11), Err(Error::Os(11))),
        (ForkReport::WaitFailed(10), Err(Error::Os(10))),
        (ForkReport::SharedMemory(Error::Bookkeeping(3)), Err(Error::Bookkeeping(3))),
    ];
    let mut expected = 0;
    for (report, outcome) in reports {
        assert_eq!(executor.run_target(&mut state, report), outcome);
        expected += 1;
        assert_eq!(*state.executions(), expected);
    }
}

#[test]
fn timed_fork_executor_splits_the_timeout() {
    let harness = |_buf: &NopInput| ExitKind::Normal;
    let mut executor = TimeoutInProcessForkExecutor::new(
        harness,
        (),
        1,
        2,
        2500,
    );
    assert_eq!(executor.itimerspec(), TimerSpec { tv_sec: 2, tv_nsec: 500_000_000 });
    let mut state = NopState::new();
    assert_eq!(
        executor.run_target(&mut state, ForkReport::Waited(ChildStatus::Signaled(14))),
        Ok(ExitKind::Timeout)
    );
    assert_eq!(*state.executions(), 1);
    let _ = executor.harness();
    let _ = executor.harness_mut();
    let _ = executor.observers();
}

#[test]
fn child_handlers_tell_the_observers_once() {
    let mut data = InProcessForkExecutorGlobalData::new();
    let pointers = ChildPointers { executor: 1, state: 2, input: 3 };
    InChildProcessHandlers::with_timeout(0xa, 0xb).pre_run_target(&mut data, pointers);
    assert!(data.is_valid());
    assert_eq!(data.handle(Signal::SigAlarm), ChildDispatch::Timeout { handler: 0xb });
    assert_eq!(data.handle(Signal::SigIllegalInstruction), ChildDispatch::Crash { handler: 0xa });
    let mut timed_out = data;
    assert_eq!(
        child_timeout_handler(&mut timed_out, Signal::SigAlarm),
        ChildAction::ObserveAndExit { input: 3, exit_kind: ExitKind::Timeout, exit_code: 142 }
    );
    assert_eq!(
        child_timeout_handler(&mut timed_out, Signal::SigAlarm),
        ChildAction::Exit { exit_code: 142 }
    );
    let mut crashed = data;
    assert_eq!(
        child_crash_handler(&mut crashed, Signal::SigSegmentationFault),
        ChildAction::ObserveAndExit { input: 3, exit_kind: ExitKind::Crash, exit_code: 139 }
    );
    assert_eq!(on_child_panic(&mut crashed), ChildAction::Defer);
    let mut panicked = data;
    assert_eq!(
        on_child_panic(&mut panicked),
        ChildAction::ObserveAndExit { input: 3, exit_kind: ExitKind::Crash, exit_code: 134 }
    );
    assert_eq!(classify(ChildStatus::Exited(134)), ExitKind::Crash);
    let bare = InProcessForkExecutorGlobalData::new();
    assert_eq!(bare.handle(Signal::SigAlarm), ChildDispatch::NoHandler);
}

#[test]
fn merge_table() {
    assert_eq!(run_pair(ExitKind::Normal, ExitKind::Normal), ExitKind::Normal);
    assert_eq!(run_pair(ExitKind::Crash, ExitKind::Normal), ExitKind::Crash);
    assert_eq!(run_pair(ExitKind::Normal, ExitKind::Timeout), ExitKind::Timeout);
    assert_eq!(run_pair(ExitKind::Crash, ExitKind::Timeout), ExitKind::Crash);
    assert_eq!(run_pair(ExitKind::Timeout, ExitKind::Crash), ExitKind::Crash);
    assert_eq!(run_pair(ExitKind::Normal, ExitKind::Crash), ExitKind::Crash);
    assert_eq!(run_pair(ExitKind::Timeout, ExitKind::Normal), ExitKind::Timeout);
    assert_eq!(run_pair(ExitKind::Timeout, ExitKind::Timeout), ExitKind::Timeout);
    assert_eq!(run_pair(ExitKind::Crash, ExitKind::Crash), ExitKind::Crash);
    assert_eq!(ExitKind::Crash.merge(ExitKind::Timeout), ExitKind::Crash);
    assert_eq!(ExitKind::Normal.merge(ExitKind::Normal), ExitKind::Normal);
}

#[test]
fn interleave_returns_the_first_error() {
    assert_eq!(
        interleave(Err(Error::Os(1)), Err(Error::Os(2))),
        Err(Error::Os(1))
    );
    assert_eq!(interleave(Ok(ExitKind::Crash), Err(Error::Os(2))), Err(Error::Os(2)));
    assert_eq!(interleave(Ok(ExitKind::Normal), Ok(ExitKind::Timeout)), Ok(ExitKind::Timeout));
}

#[test]
fn interleaved_runs_both_in_order_and_counts_one_trial() {
    let mgr = NopEventManager::new();
    let fuzzer = NopFuzzer::new();
    let mut executor = InterleavedExecutor::new(
        Fixed::new(Ok(ExitKind::Normal)),
        Fixed::new(Ok(ExitKind::Timeout)),
        &mgr,
        &fuzzer,
    );
    let mut state = NopState::new();
    let outcome =
        executor.run_target(&mut NopFuzzer::new(), &mut state, &mut NopEventManager::new(), &NopInput {});
    assert_eq!(outcome, Ok(ExitKind::Timeout));
    assert_eq!(*state.executions(), 1);
    assert_eq!(executor.primary().runs, 1);
    assert_eq!(executor.secondary().runs, 1);
    assert_eq!(executor.primary().resets, 1);
    assert_eq!(executor.secondary().resets, 1);
    assert_eq!(*executor.observers(), 1);
    *executor.observers_mut() = 5;
    assert_eq!(executor.primary().runs, 5);
}

#[test]
fn interleaved_stops_at_the_first_error() {
    let mgr = NopEventManager::new();
    let fuzzer = NopFuzzer::new();
    let mut executor = InterleavedExecutor::new(
        Fixed::new(Err(Error::ConnectFailed(3))),
        Fixed::new(Ok(ExitKind::Normal)),
        &mgr,
        &fuzzer,
    );
    let mut state = NopState::new();
    let outcome =
        executor.run_target(&mut NopFuzzer::new(), &mut state, &mut NopEventManager::new(), &NopInput {});
    assert_eq!(outcome, Err(Error::ConnectFailed(3)));
    assert_eq!(*state.executions(), 1);
    assert_eq!(executor.secondary().runs, 0);
    assert_eq!(executor.primary().resets, 0);
}

#[test]
fn interleaved_reset_twice_resets_each_twice() {
    let mgr = NopEventManager::new();
    let fuzzer = NopFuzzer::new();
    let mut executor = InterleavedExecutor::new(
        Fixed::new(Ok(ExitKind::Normal)),
        Fixed::new(Ok(ExitKind::Normal)),
        &mgr,
        &fuzzer,
    );
    Executor::<NopEventManager, NopFuzzer, NopState, NopInput>::post_run_reset(&mut executor);
    Executor::<NopEventManager, NopFuzzer, NopState, NopInput>::post_run_reset(&mut executor);
    assert_eq!(executor.primary().resets, 2);
    assert_eq!(executor.secondary().resets, 2);
}

#[test]
fn exception_that_is_no_crash_resumes() {
    let mut data = InProcessExecutorHandlerData::new();
    InProcessHandlers::nop().pre_run_target(&mut data, pointers());
    assert_eq!(inproc_exception_handler(&mut data, false), FaultAction::Resume);
    assert!(data.is_valid());
    assert_eq!(
        inproc_exception_handler(&mut data, true),
        FaultAction::Report {
            input: 0x50,
            exit_kind: ExitKind::Crash,
            reset_executor: true,
            exit_code: EXCEPTION_EXIT_CODE
        }
    );
    assert_eq!(EXCEPTION_EXIT_CODE, 1);
    assert_eq!(
        inproc_exception_handler(&mut data, true),
        FaultAction::DoubleFault { exit_code: 1 }
    );
}

#[test]
fn sanitizer_death_is_reported_once() {
    let mut data = InProcessExecutorHandlerData::new();
    InProcessHandlers::nop().pre_run_target(&mut data, pointers());
    assert_eq!(
        asan_death_handler(&mut data),
        FaultAction::Report {
            input: 0x50,
            exit_kind: ExitKind::Crash,
            reset_executor: true,
            exit_code: 1
        }
    );
    assert!(data.in_handler);
    assert_eq!(asan_death_handler(&mut data), FaultAction::DoubleFault { exit_code: 1 });
    let mut idle = InProcessExecutorHandlerData::new();
    assert_eq!(asan_death_handler(&mut idle), FaultAction::DoubleFault { exit_code: 1 });
    assert!(idle.in_handler);
    let mut handling = InProcessExecutorHandlerData::new();
    InProcessHandlers::nop().pre_run_target(&mut handling, pointers());
    handling.set_in_handler(true);
    assert!(matches!(asan_death_handler(&mut handling), FaultAction::Report { input: 0x50, .. }));
}
