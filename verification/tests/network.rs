use trial_exec::error::Error;
use trial_exec::exit_kind::ExitKind;
use trial_exec::hmm::{
    apply_coverage, count_packet, may_stop, wait_is_over, HmmExecutor, Reset, Signalled,
};
use trial_exec::seed_file::{is_seed_name, SeedFileGenerator};
use trial_exec::state::{HasExecutions, NopState};
use trial_exec::tcp::{
    monitor_target, split_bytes_at_crlf, split_options, Liveness, ProbeStatus, ProcessState,
    TargetAction,
    TcpCommand, TcpEvent, TcpExecutor, TcpPhase, TcpStep,
};

fn executor() -> TcpExecutor {
    TcpExecutor::new(
        String::from("127.0.0.1"),
        8082,
        Some(String::from("cleanup.sh")),
        Some(String::from("./target")),
        Some(String::from("-p 8082")),
        None,
    )
}

#[test]
fn frames_of_three() {
    let frames = split_bytes_at_crlf(b"AAA\r\nBB\r\nC");
    assert_eq!(frames.len(), 3);
    assert_eq!(frames[0], b"AAA\r\n");
    assert_eq!(frames[1], b"BB\r\n");
    assert_eq!(frames[2], b"C");
}

#[test]
fn frames_edge_cases() {
    assert!(split_bytes_at_crlf(b"").is_empty());
    assert_eq!(split_bytes_at_crlf(b"A"), vec![&b"A"[..]]);
    assert_eq!(split_bytes_at_crlf(b"\r\n"), vec![&b"\r\n"[..]]);
    assert_eq!(split_bytes_at_crlf(b"\r\n\r\n"), vec![&b"\r\n"[..], &b"\r\n"[..]]);
    assert_eq!(split_bytes_at_crlf(b"A\r\n"), vec![&b"A\r\n"[..]]);
    assert_eq!(split_bytes_at_crlf(b"A\rB\nC"), vec![&b"A\rB\nC"[..]]);
    assert_eq!(split_bytes_at_crlf(b"\r\r\nX\r"), vec![&b"\r\r\n"[..], &b"X\r"[..]]);
    assert_eq!(split_bytes_at_crlf(b"\n\r"), vec![&b"\n\r"[..]]);
}

#[test]
fn frames_give_the_input_back() {
    let input = b"USER a\r\nPASS b\r\n\r\nQUIT";
    let frames = split_bytes_at_crlf(input);
    assert_eq!(frames.len(), 4);
    assert_eq!(frames.concat(), input.to_vec());
}

#[test]
fn probe_decides_the_verdict() {
    assert_eq!(
        monitor_target(ProbeStatus::Exited(0)),
        Liveness { outcome: Ok(ExitKind::Normal), restart: false }
    );
    assert_eq!(
        monitor_target(ProbeStatus::Exited(1)),
        Liveness { outcome: Ok(ExitKind::Crash), restart: true }
    );
    assert_eq!(
        monitor_target(ProbeStatus::Exited(2)),
        Liveness { outcome: Err(Error::ProbeFailed), restart: false }
    );
    assert_eq!(
        monitor_target(ProbeStatus::Exited(-7)),
        Liveness { outcome: Err(Error::ProbeExitCode(-7)), restart: false }
    );
    assert_eq!(
        monitor_target(ProbeStatus::Signaled),
        Liveness { outcome: Err(Error::ProbeInterrupted), restart: false }
    );
    assert_eq!(
        monitor_target(ProbeStatus::NotStarted(2)),
        Liveness { outcome: Err(Error::ProbeNotStarted(2)), restart: false }
    );
}

/// Runs a trial on the executor, answering every command from the script:
/// the outcomes of the attempts to connect, then the end of the probe.
/// Returns the commands that were issued.
fn run_scripted(
    executor: &mut TcpExecutor,
    state: &mut NopState,
    process: ProcessState,
    connects: &[bool],
    probe: ProbeStatus,
) -> Vec<TcpCommand> {
    let mut attempts = connects.iter();
    let mut issued = Vec::new();
    let mut step = executor.run_target(state, process);
    loop {
        issued.push(step.command);
        let event = match step.command {
            TcpCommand::Connect => TcpEvent::Connection(*attempts.next().unwrap()),
            TcpCommand::Probe => TcpEvent::Probed(probe),
            TcpCommand::Finish(_) => return issued,
            _ => TcpEvent::Done,
        };
        step = executor.step(step.phase, event).unwrap();
    }
}

#[test]
fn tcp_trial_with_a_live_target() {
    let mut executor = executor();
    let mut state = NopState::new();
    let issued =
        run_scripted(&mut executor, &mut state, ProcessState::NotStarted, &[true], ProbeStatus::Exited(0));
    assert_eq!(
        issued,
        vec![
            TcpCommand::StartTarget,
            TcpCommand::Connect,
            TcpCommand::Deliver,
            TcpCommand::Probe,
            TcpCommand::Shutdown,
            TcpCommand::Finish(Ok(ExitKind::Normal)),
        ]
    );
    assert_eq!(*state.executions(), 1);
}

#[test]
fn tcp_trial_with_a_dead_target_restarts_once() {
    let mut executor = executor();
    let mut state = NopState::new();
    let issued = run_scripted(&mut executor, &mut state, ProcessState::Running, &[true], ProbeStatus::Exited(1));
    assert_eq!(
        issued,
        vec![
            TcpCommand::Connect,
            TcpCommand::Deliver,
            TcpCommand::Probe,
            TcpCommand::RestartTarget,
            TcpCommand::Shutdown,
            TcpCommand::Finish(Ok(ExitKind::Crash)),
        ]
    );
    assert_eq!(*state.executions(), 1);
}

#[test]
fn tcp_trial_with_a_failed_probe_has_no_verdict() {
    let mut executor = executor();
    let mut state = NopState::new();
    let issued = run_scripted(&mut executor, &mut state, ProcessState::Unknown, &[true], ProbeStatus::Exited(2));
    assert_eq!(
        issued,
        vec![
            TcpCommand::Connect,
            TcpCommand::Deliver,
            TcpCommand::Probe,
            TcpCommand::Shutdown,
            TcpCommand::Finish(Err(Error::ProbeFailed)),
        ]
    );
    let killed = run_scripted(&mut executor, &mut state, ProcessState::Running, &[true], ProbeStatus::Signaled);
    assert_eq!(killed.last(), Some(&TcpCommand::Finish(Err(Error::ProbeInterrupted))));
    let odd = run_scripted(&mut executor, &mut state, ProcessState::Running, &[true], ProbeStatus::Exited(77));
    assert_eq!(odd.last(), Some(&TcpCommand::Finish(Err(Error::ProbeExitCode(77)))));
    assert_eq!(*state.executions(), 3);
}

#[test]
fn tcp_trial_with_a_probe_that_did_not_start_has_no_verdict() {
    let mut executor = executor();
    let mut state = NopState::new();
    let issued = run_scripted(
        &mut executor,
        &mut state,
        ProcessState::Running,
        &[true],
        ProbeStatus::NotStarted(13),
    );
    assert_eq!(
        issued,
        vec![
            TcpCommand::Connect,
            TcpCommand::Deliver,
            TcpCommand::Probe,
            TcpCommand::Shutdown,
            TcpCommand::Finish(Err(Error::ProbeNotStarted(13))),
        ]
    );
    assert_eq!(*state.executions(), 1);
}

#[test]
fn tcp_trial_restarts_after_every_failed_attempt() {
    let mut executor = executor();
    let mut state = NopState::new();
    let issued = run_scripted(
        &mut executor,
        &mut state,
        ProcessState::Exited,
        &[false, false, true],
        ProbeStatus::Exited(0),
    );
    assert_eq!(
        issued,
        vec![
            TcpCommand::RestartTarget,
            TcpCommand::Connect,
            TcpCommand::RestartTarget,
            TcpCommand::Connect,
            TcpCommand::RestartTarget,
            TcpCommand::Connect,
            TcpCommand::Deliver,
            TcpCommand::Probe,
            TcpCommand::Shutdown,
            TcpCommand::Finish(Ok(ExitKind::Normal)),
        ]
    );
}

#[test]
fn tcp_trial_gives_up_after_three_attempts() {
    let mut executor = executor();
    let mut state = NopState::new();
    let issued = run_scripted(
        &mut executor,
        &mut state,
        ProcessState::Running,
        &[false, false, false],
        ProbeStatus::Exited(0),
    );
    assert_eq!(
        issued,
        vec![
            TcpCommand::Connect,
            TcpCommand::RestartTarget,
            TcpCommand::Connect,
            TcpCommand::RestartTarget,
            TcpCommand::Connect,
            TcpCommand::RestartTarget,
            TcpCommand::Finish(Err(Error::ConnectFailed(3))),
        ]
    );
    assert_eq!(*state.executions(), 1);
}

#[test]
fn tcp_step_refuses_an_event_that_answers_nothing() {
    let executor = executor();
    assert_eq!(executor.step(TcpPhase::Idle, TcpEvent::Done), None);
    assert_eq!(executor.step(TcpPhase::Starting, TcpEvent::Connection(true)), None);
    assert_eq!(executor.step(TcpPhase::Connecting { failures: 0 }, TcpEvent::Done), None);
    assert_eq!(executor.step(TcpPhase::Connected, TcpEvent::Probed(ProbeStatus::Exited(0))), None);
    assert_eq!(executor.step(TcpPhase::Monitoring, TcpEvent::Done), None);
    assert_eq!(
        executor.step(TcpPhase::Closing { outcome: Ok(ExitKind::Crash) }, TcpEvent::Probed(ProbeStatus::Signaled)),
        None
    );
    assert_eq!(
        executor.step(TcpPhase::Restarting { failures: 255 }, TcpEvent::Done),
        Some(TcpStep {
            phase: TcpPhase::Idle,
            command: TcpCommand::Finish(Err(Error::ConnectFailed(3)))
        })
    );
}

#[test]
fn target_is_started_once_and_restarted_when_gone() {
    let executor = executor();
    assert_eq!(executor.check_target(ProcessState::NotStarted), TargetAction::Start);
    assert_eq!(executor.check_target(ProcessState::Exited), TargetAction::Restart);
    assert_eq!(executor.check_target(ProcessState::Running), TargetAction::Keep);
    assert_eq!(executor.check_target(ProcessState::Unknown), TargetAction::Keep);
    assert_eq!(
        executor.start_target(),
        Some((&String::from("./target"), vec![&b"-p"[..], &b"8082"[..]], 10000))
    );
    assert_eq!(executor.target_port(), 8082);
    assert_eq!(executor.target_ip_addr(), "127.0.0.1");
    assert_eq!(executor.target_options(), &Some(String::from("-p 8082")));
    let unmanaged = TcpExecutor::new(String::from("::1"), 21, None, None, None, Some(5));
    assert_eq!(unmanaged.start_target(), None);
    let slow = TcpExecutor::new(String::from("::1"), 21, None, Some(String::from("t")), None, Some(5));
    assert_eq!(slow.start_target(), Some((&String::from("t"), Vec::new(), 5)));
}

#[test]
fn tcp_reset_twice_gives_the_same_script() {
    let mut executor = executor();
    assert_eq!(executor.post_run_reset(), Some(&String::from("cleanup.sh")));
    assert_eq!(executor.post_run_reset(), Some(&String::from("cleanup.sh")));
    let mut bare = TcpExecutor::new(String::from("::1"), 21, None, None, None, None);
    assert_eq!(bare.post_run_reset(), None);
    assert_eq!(bare.post_run_reset(), None);
}

#[test]
fn hmm_capture_is_stopped_once() {
    let mut executor = HmmExecutor::new(
        8082,
        String::from("/opt/hmm"),
        String::from("/opt/hmm/config.yml"),
        String::from("/opt/hmm/dump"),
    );
    assert_eq!(executor.curr_pcap_path(), "");
    let idle = Reset { stop_capture: false, score: false, delete_capture: false };
    assert_eq!(executor.post_run_reset(), idle);
    let mut state = NopState::new();
    let outcome = executor.run_target(&mut state, String::from("/opt/hmm/dump/17.pcap"));
    assert_eq!(outcome, Ok(ExitKind::Normal));
    assert_eq!(*state.executions(), 1);
    assert_eq!(executor.curr_pcap_path(), "/opt/hmm/dump/17.pcap");
    assert_eq!(
        executor.post_run_reset(),
        Reset { stop_capture: true, score: true, delete_capture: true }
    );
    assert_eq!(executor.post_run_reset(), idle);
    assert_eq!(executor.target_port(), 8082);
    assert_eq!(executor.hmm_lib_path(), "/opt/hmm");
    assert_eq!(executor.config_path(), "/opt/hmm/config.yml");
    assert_eq!(executor.pcap_dump_path(), "/opt/hmm/dump");
}

#[test]
fn capture_loop_decisions() {
    assert_eq!(count_packet(0, true), 1);
    assert_eq!(count_packet(7, false), 7);
    assert_eq!(count_packet(u32::MAX, true), u32::MAX);
    assert!(!may_stop(7));
    assert!(may_stop(8));
    assert!(may_stop(9));
    assert!(wait_is_over(Signalled::Received));
    assert!(wait_is_over(Signalled::Disconnected));
    assert!(!wait_is_over(Signalled::Empty));
}

#[test]
fn coverage_marks_hits_only() {
    let mut map = vec![0u8, 7, 0, 9, 0];
    apply_coverage(&mut map, &vec![1, 0, 1, 2]);
    assert_eq!(map, vec![1, 7, 1, 9, 0]);
    let mut short = vec![0u8, 0];
    apply_coverage(&mut short, &vec![0, 1, 1, 1]);
    assert_eq!(short, vec![0, 1]);
    let mut untouched = vec![3u8];
    apply_coverage(&mut untouched, &vec![]);
    assert_eq!(untouched, vec![3]);
}

#[test]
fn seed_names_end_with_raw() {
    assert!(is_seed_name("a.raw"));
    assert!(is_seed_name(".raw"));
    assert!(is_seed_name("seeds/ftp.login.raw"));
    assert!(!is_seed_name("raw"));
    assert!(!is_seed_name("a.raw.txt"));
    assert!(!is_seed_name("araw"));
    assert!(!is_seed_name(""));
    assert!(!is_seed_name("a.RAW"));
}

#[test]
fn generator_hands_out_seeds_in_order() {
    let files = vec![
        (String::from("one.raw"), b"USER a\r\n".to_vec()),
        (String::from("notes.txt"), b"not a seed".to_vec()),
        (String::from("two.raw"), Vec::new()),
        (String::from("three.raw"), b"QUIT".to_vec()),
    ];
    let mut generator = SeedFileGenerator::new(files);
    let mut state = NopState::new();
    assert_eq!(generator.generate(&mut state), Ok(b"USER a\r\n".to_vec()));
    assert_eq!(generator.generate(&mut state), Ok(Vec::new()));
    assert_eq!(generator.generate(&mut state), Ok(b"QUIT".to_vec()));
    assert_eq!(generator.generate(&mut state), Err(Error::Empty));
    assert_eq!(generator.generate(&mut state), Err(Error::Empty));
    assert_eq!(*state.executions(), 0);
}

#[test]
fn generator_without_seeds_is_empty() {
    let mut generator = SeedFileGenerator::new(vec![(String::from("x"), vec![1u8])]);
    assert_eq!(generator.generate(&mut ()), Err(Error::Empty));
    let cloned = generator.clone();
    let mut none = SeedFileGenerator::new(Vec::new());
    assert_eq!(none.generate(&mut ()), Err(Error::Empty));
    let _ = cloned;
}

#[test]
fn options_are_cut_at_every_space() {
    assert_eq!(split_options("-p 8082"), vec![&b"-p"[..], &b"8082"[..]]);
    assert_eq!(split_options(""), vec![&b""[..]]);
    assert_eq!(split_options("a"), vec![&b"a"[..]]);
    assert_eq!(split_options(" a"), vec![&b""[..], &b"a"[..]]);
    assert_eq!(split_options("a "), vec![&b"a"[..], &b""[..]]);
    assert_eq!(split_options("a  b"), vec![&b"a"[..], &b""[..], &b"b"[..]]);
    assert_eq!(split_options(" "), vec![&b""[..], &b""[..]]);
    let options = "--root /srv/ftp --name \u{e9}t\u{e9} -v";
    let expected: Vec<&[u8]> = options.split(" ").map(|arg| arg.as_bytes()).collect();
    assert_eq!(split_options(options), expected);
}
