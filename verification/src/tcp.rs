//! Delivering a trial to a target that listens on a stream socket, and
//! judging the trial by whether the target still answers a liveness probe.
//!
//! Processes, sockets and the probe are the caller's work. The executor
//! leads the caller through a trial: it issues one command at a time, is
//! told what came of it, and issues the next, until the trial is finished.
//! It decides when the target is started or restarted, how often a
//! connection is attempted, how the input is cut into frames, and what the
//! probe means.
//!
//! Within one trial the target is restarted once for every failed attempt
//! to connect and once more if the probe finds it dead. Over a run of many
//! trials the number of restarts is not bounded.

use vstd::prelude::*;
use vstd::slice::slice_subrange;
use vstd::string::StringSliceAdditionalSpecFns;
use vstd::utf8::encode_utf8;
use crate::error::Error;
use crate::exit_kind::ExitKind;
use crate::state::HasExecutions;

verus! {

/// The carriage return that begins a frame delimiter.
pub const CR: u8 = 13;

/// The line feed that ends a frame delimiter.
pub const LF: u8 = 10;

/// The space that separates the options of the target.
pub const SPACE: u8 = 32;

/// How many connections are attempted for one trial.
pub const CONNECTION_RETRIES: u8 = 3;

/// How long the greeting of a target is waited for after connecting, in seconds.
pub const READ_TIMEOUT_SECS: u64 = 5;

/// How long a target is given to start if nothing else is configured, in microseconds.
pub const DEFAULT_STARTUP_USECS: u64 = 10000;

/// What the caller knows of the target process before a trial.
#[derive(Clone, Copy, Debug, PartialEq, Eq, Structural)]
pub enum ProcessState {
    /// No process was started yet.
    NotStarted,
    /// The process that was started has exited.
    Exited,
    /// The process that was started is running.
    Running,
    /// The state of the process could not be found out.
    Unknown,
}

/// What to do with the target process.
#[derive(Clone, Copy, Debug, PartialEq, Eq, Structural)]
pub enum TargetAction {
    /// Leave it as it is.
    Keep,
    /// Start it.
    Start,
    /// Kill it if it runs, then start it.
    Restart,
}

/// How the probe ended, as the caller saw it.
#[derive(Clone, Copy, Debug, PartialEq, Eq, Structural)]
pub enum ProbeStatus {
    /// The probe ran and exited with this code.
    Exited(i32),
    /// The probe ran and was killed by a signal.
    Signaled,
    /// The probe could not be started; the value is the error number that
    /// the operating system gave, or zero if it gave none.
    NotStarted(i32),
}

/// What a probe found.
#[derive(Clone, Copy, Debug, PartialEq, Eq)]
pub struct Liveness {
    /// The verdict, or the error that prevented one.
    pub outcome: Result<ExitKind, Error>,
    /// Whether the target has to be restarted, once, before the next trial.
    pub restart: bool,
}

/// Where a trial stands.
#[derive(Clone, Copy, Debug, PartialEq, Eq)]
pub enum TcpPhase {
    /// No trial is under way.
    Idle,
    /// The target is being started or restarted before the first attempt to connect.
    Starting,
    /// An attempt to connect is under way; `failures` attempts have failed before.
    Connecting { failures: u8 },
    /// The target is being restarted after an attempt to connect has
    /// failed; `failures` attempts had failed before that one.
    Restarting { failures: u8 },
    /// The connection stands and the input is being delivered.
    Connected,
    /// The probe is under way.
    Monitoring,
    /// The target is being restarted because the probe found it dead.
    Recovering { outcome: Result<ExitKind, Error> },
    /// The connection is being shut down.
    Closing { outcome: Result<ExitKind, Error> },
}

/// What came of the command that was issued last.
#[derive(Clone, Copy, Debug, PartialEq, Eq, Structural)]
pub enum TcpEvent {
    /// The command was carried out: the target was started or restarted,
    /// the input was delivered as far as the connection allowed, or the
    /// connection was shut down.
    Done,
    /// The attempt to connect succeeded or failed.
    Connection(bool),
    /// The probe ended in this way, or did not even start.
    Probed(ProbeStatus),
}

/// What the caller has to do next.
#[derive(Clone, Copy, Debug, PartialEq, Eq)]
pub enum TcpCommand {
    /// Start the target and give it time to come up.
    StartTarget,
    /// Kill the target if it runs, then start it.
    RestartTarget,
    /// Attempt to connect to the target.
    Connect,
    /// Write the frames of the input to the connection, one by one.
    /// Failures while writing or reading are not reported.
    Deliver,
    /// Probe whether the target is alive.
    Probe,
    /// Shut the connection down.
    Shutdown,
    /// The trial is over, with this outcome.
    Finish(Result<ExitKind, Error>),
}

/// A command and the phase in which the trial is while it is carried out.
#[derive(Clone, Copy, Debug, PartialEq, Eq)]
pub struct TcpStep {
    /// Where the trial stands now.
    pub phase: TcpPhase,
    /// What the caller has to do.
    pub command: TcpCommand,
}

/// Sends inputs to a target over a stream socket.
#[derive(Debug)]
pub struct TcpExecutor {
    target_ip_addr: String,
    target_port: u16,
    cleanup_script: Option<String>,
    target_path: Option<String>,
    target_options: Option<String>,
    target_startup_usecs: Option<u64>,
    connection_retries: u8,
}

/// Whether a frame delimiter begins at index `i` of `s`.
pub open spec fn spec_crlf_at(s: Seq<u8>, i: int) -> bool {
    0 <= i && i + 1 < s.len() && s[i] == CR && s[i + 1] == LF
}

/// The index at or after `from` at which the next frame delimiter of `s`
/// begins, or the length of `s` if there is none.
pub open spec fn spec_next_crlf(s: Seq<u8>, from: int) -> int
    decreases s.len() - from,
{
    if from < 0 || from + 1 >= s.len() {
        s.len() as int
    } else if spec_crlf_at(s, from) {
        from
    } else {
        spec_next_crlf(s, from + 1)
    }
}

/// The frames of `s` from index `start` on: each frame ends with the first
/// delimiter after its beginning, and what follows the last delimiter is a
/// frame of its own unless it is empty.
pub open spec fn spec_frames_from(s: Seq<u8>, start: int) -> Seq<Seq<u8>>
    decreases s.len() - start,
{
    if start < 0 || start >= s.len() {
        Seq::empty()
    } else {
        let p = spec_next_crlf(s, start);
        if start <= p && p + 1 < s.len() {
            seq![s.subrange(start, p + 2)] + spec_frames_from(s, p + 2)
        } else {
            seq![s.subrange(start, s.len() as int)]
        }
    }
}

/// The frames of `s`.
pub open spec fn spec_frames(s: Seq<u8>) -> Seq<Seq<u8>> {
    spec_frames_from(s, 0)
}

/// All frames written one after the other.
pub open spec fn spec_concat(frames: Seq<Seq<u8>>) -> Seq<u8>
    decreases frames.len(),
{
    if frames.len() == 0 {
        Seq::empty()
    } else {
        frames[0] + spec_concat(frames.subrange(1, frames.len() as int))
    }
}

/// The index at or after `from` of the next space in `s`, or the length of
/// `s` if there is none.
pub open spec fn spec_next_space(s: Seq<u8>, from: int) -> int
    decreases s.len() - from,
{
    if from < 0 || from >= s.len() {
        s.len() as int
    } else if s[from] == SPACE {
        from
    } else {
        spec_next_space(s, from + 1)
    }
}

/// The options in `s` from index `start` on: what stands between two
/// spaces, before the first and after the last, whether empty or not.
pub open spec fn spec_options_from(s: Seq<u8>, start: int) -> Seq<Seq<u8>>
    decreases s.len() - start,
{
    if start < 0 || start > s.len() {
        Seq::empty()
    } else {
        let p = spec_next_space(s, start);
        if start <= p < s.len() {
            seq![s.subrange(start, p)] + spec_options_from(s, p + 1)
        } else {
            seq![s.subrange(start, s.len() as int)]
        }
    }
}

/// The options in `s`.
pub open spec fn spec_options(s: Seq<u8>) -> Seq<Seq<u8>> {
    spec_options_from(s, 0)
}

/// Whether the slices hold, one by one, the byte sequences in `expected`.
pub open spec fn spec_slices_are(slices: Seq<&[u8]>, expected: Seq<Seq<u8>>) -> bool {
    slices.len() == expected.len() && forall|k: int|
        0 <= k < slices.len() ==> (#[trigger] slices[k])@ == expected[k]
}

/// What a probe that ended with `probe` means for the trial. Only a probe
/// that ran and exited with 0 or 1 says anything about the target.
pub open spec fn spec_monitor(probe: ProbeStatus) -> Liveness {
    match probe {
        ProbeStatus::Exited(code) => if code == 0 {
            Liveness { outcome: Ok(ExitKind::Normal), restart: false }
        } else if code == 1 {
            Liveness { outcome: Ok(ExitKind::Crash), restart: true }
        } else if code == 2 {
            Liveness { outcome: Err(Error::ProbeFailed), restart: false }
        } else {
            Liveness { outcome: Err(Error::ProbeExitCode(code)), restart: false }
        },
        ProbeStatus::Signaled => Liveness { outcome: Err(Error::ProbeInterrupted), restart: false },
        ProbeStatus::NotStarted(errno) => Liveness {
            outcome: Err(Error::ProbeNotStarted(errno)),
            restart: false,
        },
    }
}

/// The first attempt to connect, with a budget of `retries` attempts: with
/// no budget at all the trial fails at once.
pub open spec fn spec_first_attempt(retries: u8) -> TcpStep {
    if retries > 0 {
        TcpStep { phase: TcpPhase::Connecting { failures: 0 }, command: TcpCommand::Connect }
    } else {
        TcpStep {
            phase: TcpPhase::Idle,
            command: TcpCommand::Finish(Err(Error::ConnectFailed(retries))),
        }
    }
}

/// The first step of a trial, given what the caller knows of the target
/// process: a target that was never started is started, one that has exited
/// is restarted, and any other is connected to as it is.
pub open spec fn spec_begin(retries: u8, process: ProcessState) -> TcpStep {
    match process {
        ProcessState::NotStarted => TcpStep {
            phase: TcpPhase::Starting,
            command: TcpCommand::StartTarget,
        },
        ProcessState::Exited => TcpStep {
            phase: TcpPhase::Starting,
            command: TcpCommand::RestartTarget,
        },
        ProcessState::Running => spec_first_attempt(retries),
        ProcessState::Unknown => spec_first_attempt(retries),
    }
}

/// The step that follows when `event` came of the command issued in
/// `phase`, with a budget of `retries` attempts to connect; none if the
/// event does not answer that command.
///
/// Once the target is up, a connection is attempted. A failed attempt is
/// followed by a restart of the target, and then by another attempt unless
/// the budget is used up, in which case the trial ends with an error. Over
/// a connection the input is delivered, then the target is probed. A target
/// found dead is restarted. Only then is the connection shut down, and the
/// trial ends with what the probe found.
pub open spec fn spec_step(retries: u8, phase: TcpPhase, event: TcpEvent) -> Option<TcpStep> {
    match (phase, event) {
        (TcpPhase::Starting, TcpEvent::Done) => Some(spec_first_attempt(retries)),
        (TcpPhase::Connecting { failures }, TcpEvent::Connection(connected)) => if connected {
            Some(TcpStep { phase: TcpPhase::Connected, command: TcpCommand::Deliver })
        } else {
            Some(
                TcpStep {
                    phase: TcpPhase::Restarting { failures },
                    command: TcpCommand::RestartTarget,
                },
            )
        },
        (TcpPhase::Restarting { failures }, TcpEvent::Done) => if failures + 1 < retries {
            Some(
                TcpStep {
                    phase: TcpPhase::Connecting { failures: (failures + 1) as u8 },
                    command: TcpCommand::Connect,
                },
            )
        } else {
            Some(
                TcpStep {
                    phase: TcpPhase::Idle,
                    command: TcpCommand::Finish(Err(Error::ConnectFailed(retries))),
                },
            )
        },
        (TcpPhase::Connected, TcpEvent::Done) => Some(
            TcpStep { phase: TcpPhase::Monitoring, command: TcpCommand::Probe },
        ),
        (TcpPhase::Monitoring, TcpEvent::Probed(probe)) => if spec_monitor(probe).restart {
            Some(
                TcpStep {
                    phase: TcpPhase::Recovering { outcome: spec_monitor(probe).outcome },
                    command: TcpCommand::RestartTarget,
                },
            )
        } else {
            Some(
                TcpStep {
                    phase: TcpPhase::Closing { outcome: spec_monitor(probe).outcome },
                    command: TcpCommand::Shutdown,
                },
            )
        },
        (TcpPhase::Recovering { outcome }, TcpEvent::Done) => Some(
            TcpStep { phase: TcpPhase::Closing { outcome }, command: TcpCommand::Shutdown },
        ),
        (TcpPhase::Closing { outcome }, TcpEvent::Done) => Some(
            TcpStep { phase: TcpPhase::Idle, command: TcpCommand::Finish(outcome) },
        ),
        _ => None,
    }
}

/// Whether a phase can be reached with a budget of `retries` attempts to
/// connect: no attempt is made beyond the budget.
pub open spec fn spec_within_budget(retries: u8, phase: TcpPhase) -> bool {
    match phase {
        TcpPhase::Connecting { failures } => failures < retries,
        TcpPhase::Restarting { failures } => failures < retries,
        _ => true,
    }
}

/// No attempt to connect is made beyond the budget: a trial begins within
/// the budget, and every step keeps it there.
pub proof fn lemma_attempts_stay_within_budget(
    retries: u8,
    process: ProcessState,
    phase: TcpPhase,
    event: TcpEvent,
)
    ensures
        spec_within_budget(retries, spec_begin(retries, process).phase),
        spec_within_budget(retries, phase) ==> (spec_step(retries, phase, event) matches Some(next)
            ==> spec_within_budget(retries, next.phase)),
{
}

/// The probe alone decides how a delivered trial ends. Exit code 0: the
/// connection is shut down and the trial ends with a clean run, without a
/// restart. Exit code 1: the target is restarted, once, then the
/// connection is shut down and the trial ends with a crash. Exit code 2,
/// and a probe that could not be started: the connection is shut down and
/// the trial ends with an error, without a restart and without a verdict.
pub proof fn lemma_probe_decides(retries: u8)
    ensures
        spec_step(retries, TcpPhase::Monitoring, TcpEvent::Probed(ProbeStatus::Exited(0))) == Some(
            TcpStep {
                phase: TcpPhase::Closing { outcome: Ok(ExitKind::Normal) },
                command: TcpCommand::Shutdown,
            },
        ),
        spec_step(retries, TcpPhase::Monitoring, TcpEvent::Probed(ProbeStatus::Exited(1))) == Some(
            TcpStep {
                phase: TcpPhase::Recovering { outcome: Ok(ExitKind::Crash) },
                command: TcpCommand::RestartTarget,
            },
        ),
        spec_step(
            retries,
            TcpPhase::Recovering { outcome: Ok(ExitKind::Crash) },
            TcpEvent::Done,
        ) == Some(
            TcpStep {
                phase: TcpPhase::Closing { outcome: Ok(ExitKind::Crash) },
                command: TcpCommand::Shutdown,
            },
        ),
        spec_step(retries, TcpPhase::Monitoring, TcpEvent::Probed(ProbeStatus::Exited(2))) == Some(
            TcpStep {
                phase: TcpPhase::Closing { outcome: Err(Error::ProbeFailed) },
                command: TcpCommand::Shutdown,
            },
        ),
        forall|errno: i32| #[trigger]
            spec_step(
                retries,
                TcpPhase::Monitoring,
                TcpEvent::Probed(ProbeStatus::NotStarted(errno)),
            ) == Some(
                TcpStep {
                    phase: TcpPhase::Closing { outcome: Err(Error::ProbeNotStarted(errno)) },
                    command: TcpCommand::Shutdown,
                },
            ),
        forall|outcome: Result<ExitKind, Error>| #[trigger]
            spec_step(retries, TcpPhase::Closing { outcome }, TcpEvent::Done) == Some(
                TcpStep { phase: TcpPhase::Idle, command: TcpCommand::Finish(outcome) },
            ),
{
}

/// The connection is shut down only once the probe has ended, and a trial
/// ends with a verdict only once the connection was shut down.
pub proof fn lemma_shutdown_follows_probe(retries: u8, phase: TcpPhase, event: TcpEvent)
    ensures
        spec_step(retries, phase, event) matches Some(next) ==> {
            &&& next.command == TcpCommand::Shutdown ==> phase is Monitoring || phase is Recovering
            &&& next.command is Finish && next.command->Finish_0 is Ok ==> phase is Closing
            &&& next.command == TcpCommand::Deliver ==> phase is Connecting
            &&& next.command == TcpCommand::Probe ==> phase is Connected
        },
{
}

/// The least index at or after `from` with a delimiter is where the search
/// from `from` ends, and no delimiter begins between the two.
proof fn lemma_next_crlf(s: Seq<u8>, from: int)
    requires
        0 <= from,
    ensures
        from <= spec_next_crlf(s, from) || spec_next_crlf(s, from) == s.len(),
        spec_next_crlf(s, from) + 1 < s.len() ==> spec_crlf_at(s, spec_next_crlf(s, from)),
        spec_next_crlf(s, from) + 1 >= s.len() ==> spec_next_crlf(s, from) == s.len(),
        forall|i: int| from <= i < spec_next_crlf(s, from) ==> !spec_crlf_at(s, i),
    decreases s.len() - from,
{
    if from + 1 >= s.len() {
    } else if spec_crlf_at(s, from) {
    } else {
        lemma_next_crlf(s, from + 1);
    }
}

/// Whether `frame` is not empty and holds no delimiter anywhere but at its end.
pub open spec fn spec_whole_frame(frame: Seq<u8>) -> bool {
    frame.len() > 0 && forall|i: int| 0 <= i && i + 2 < frame.len() ==> !spec_crlf_at(frame, i)
}

/// Writing the frames of an input one after the other gives the input
/// back: nothing is lost and nothing is added. No frame is empty, and no
/// frame holds a delimiter anywhere but at its end.
pub proof fn lemma_frames_cover_input(s: Seq<u8>, start: int)
    requires
        0 <= start <= s.len(),
    ensures
        spec_concat(spec_frames_from(s, start)) == s.subrange(start, s.len() as int),
        forall|k: int|
            0 <= k < spec_frames_from(s, start).len() ==> spec_whole_frame(
                #[trigger] spec_frames_from(s, start)[k],
            ),
    decreases s.len() - start,
{
    let frames = spec_frames_from(s, start);
    if start >= s.len() {
        assert(s.subrange(start, s.len() as int) =~= Seq::<u8>::empty());
        assert(spec_concat(frames) =~= Seq::<u8>::empty());
    } else {
        let p = spec_next_crlf(s, start);
        lemma_next_crlf(s, start);
        if start <= p && p + 1 < s.len() {
            let head = s.subrange(start, p + 2);
            let rest = spec_frames_from(s, p + 2);
            lemma_frames_cover_input(s, p + 2);
            assert(frames.subrange(1, frames.len() as int) =~= rest);
            assert(frames[0] == head);
            assert(head + s.subrange(p + 2, s.len() as int) =~= s.subrange(start, s.len() as int));
            assert(spec_concat(frames) == frames[0] + spec_concat(
                frames.subrange(1, frames.len() as int),
            ));
            assert forall|i: int| 0 <= i && i + 2 < head.len() implies !spec_crlf_at(head, i) by {
                assert(!spec_crlf_at(s, start + i));
            }
            assert forall|k: int| 0 <= k < frames.len() implies spec_whole_frame(
                #[trigger] frames[k],
            ) by {
                if k > 0 {
                    assert(frames[k] == rest[k - 1]);
                }
            }
        } else {
            let only = s.subrange(start, s.len() as int);
            assert(frames =~= seq![only]);
            assert(frames.subrange(1, frames.len() as int) =~= Seq::<Seq<u8>>::empty());
            assert(only + Seq::<u8>::empty() =~= only);
            assert(spec_concat(Seq::<Seq<u8>>::empty()) =~= Seq::<u8>::empty());
            assert(spec_concat(frames) == frames[0] + spec_concat(
                frames.subrange(1, frames.len() as int),
            ));
            assert forall|i: int| 0 <= i && i + 2 < only.len() implies !spec_crlf_at(only, i) by {
                assert(!spec_crlf_at(s, start + i));
            }
        }
    }
}

/// Whether `frame` ends with a delimiter.
pub open spec fn spec_ends_with_crlf(frame: Seq<u8>) -> bool {
    frame.len() >= 2 && spec_crlf_at(frame, frame.len() - 2)
}

/// Every frame but the last ends with a delimiter: only what follows the
/// last delimiter of an input is sent without one.
pub proof fn lemma_frames_end_with_delimiter(s: Seq<u8>, start: int)
    requires
        0 <= start <= s.len(),
    ensures
        forall|k: int|
            0 <= k < spec_frames_from(s, start).len() - 1 ==> spec_ends_with_crlf(
                #[trigger] spec_frames_from(s, start)[k],
            ),
    decreases s.len() - start,
{
    let frames = spec_frames_from(s, start);
    if start < s.len() {
        let p = spec_next_crlf(s, start);
        lemma_next_crlf(s, start);
        if start <= p && p + 1 < s.len() {
            let rest = spec_frames_from(s, p + 2);
            lemma_frames_end_with_delimiter(s, p + 2);
            assert forall|k: int| 0 <= k < frames.len() - 1 implies spec_ends_with_crlf(
                #[trigger] frames[k],
            ) by {
                if k > 0 {
                    assert(frames[k] == rest[k - 1]);
                } else {
                    let head = s.subrange(start, p + 2);
                    assert(frames[0] == head);
                    assert(head[head.len() - 2] == s[p]);
                    assert(head[head.len() - 1] == s[p + 1]);
                }
            }
        }
    }
}

/// What a probe that ended with `probe` means for the trial: exit code 0
/// says that the target is alive, exit code 1 that it is gone and must be
/// restarted. Anything else says nothing about the target and is an error:
/// another exit code, a probe killed by a signal, a probe that could not be
/// started. A target that cannot be reached is taken for dead, whatever the
/// reason.
pub fn monitor_target(probe: ProbeStatus) -> (monitoring: Liveness)
    ensures
        monitoring == spec_monitor(probe),
{
    match probe {
        ProbeStatus::Exited(0) => Liveness { outcome: Ok(ExitKind::Normal), restart: false },
        ProbeStatus::Exited(1) => Liveness { outcome: Ok(ExitKind::Crash), restart: true },
        ProbeStatus::Exited(2) => Liveness { outcome: Err(Error::ProbeFailed), restart: false },
        ProbeStatus::Exited(code) => Liveness {
            outcome: Err(Error::ProbeExitCode(code)),
            restart: false,
        },
        ProbeStatus::Signaled => Liveness { outcome: Err(Error::ProbeInterrupted), restart: false },
        ProbeStatus::NotStarted(errno) => Liveness {
            outcome: Err(Error::ProbeNotStarted(errno)),
            restart: false,
        },
    }
}

/// Cuts the options of the target at every space. Two spaces in a row, a
/// space at the beginning and a space at the end each give an empty option.
pub fn split_options<'a>(options: &'a str) -> (args: Vec<&'a [u8]>)
    ensures
        spec_slices_are(args@, spec_options(options.spec_bytes())),
{
    let bytes = options.as_bytes();
    let mut result: Vec<&'a [u8]> = Vec::new();
    let mut start: usize = 0;
    let mut i: usize = 0;
    let len: usize = bytes.len();
    let ghost mut done: Seq<Seq<u8>> = Seq::empty();
    while i < len
        invariant
            len == bytes@.len(),
            start <= i <= len,
            spec_next_space(bytes@, start as int) == spec_next_space(bytes@, i as int),
            spec_options_from(bytes@, 0) == done + spec_options_from(bytes@, start as int),
            result@.len() == done.len(),
            forall|k: int| 0 <= k < result@.len() ==> (#[trigger] result@[k])@ == done[k],
        decreases len - i,
    {
        if bytes[i] == SPACE {
            let arg = slice_subrange(bytes, start, i);
            proof {
                assert(spec_next_space(bytes@, i as int) == i);
                let grown = done.push(arg@);
                assert(done + spec_options_from(bytes@, start as int) =~= grown
                    + spec_options_from(bytes@, i + 1));
                done = grown;
            }
            result.push(arg);
            start = i + 1;
        }
        i = i + 1;
    }
    let arg = slice_subrange(bytes, start, len);
    proof {
        assert(spec_next_space(bytes@, i as int) == len);
        let grown = done.push(arg@);
        assert(done + spec_options_from(bytes@, start as int) =~= grown);
        done = grown;
    }
    result.push(arg);
    result
}

/// Cuts an input into the frames that are written to the target one by one.
pub fn split_bytes_at_crlf<'a>(bytes: &'a [u8]) -> (frames: Vec<&'a [u8]>)
    ensures
        spec_slices_are(frames@, spec_frames(bytes@)),
{
    let mut result: Vec<&'a [u8]> = Vec::new();
    let mut start: usize = 0;
    let mut i: usize = 0;
    let len: usize = bytes.len();
    let ghost mut done: Seq<Seq<u8>> = Seq::empty();
    while i < len && len - i >= 2
        invariant
            len == bytes@.len(),
            start <= i <= len,
            spec_next_crlf(bytes@, start as int) == spec_next_crlf(bytes@, i as int),
            spec_frames(bytes@) == done + spec_frames_from(bytes@, start as int),
            result@.len() == done.len(),
            forall|k: int| 0 <= k < result@.len() ==> (#[trigger] result@[k])@ == done[k],
        decreases len - i,
    {
        if bytes[i] == CR && bytes[i + 1] == LF {
            let frame = slice_subrange(bytes, start, i + 2);
            proof {
                assert(spec_crlf_at(bytes@, i as int));
                assert(spec_next_crlf(bytes@, i as int) == i);
                let grown = done.push(frame@);
                assert(done + spec_frames_from(bytes@, start as int) =~= grown + spec_frames_from(
                    bytes@,
                    i + 2,
                ));
                done = grown;
            }
            result.push(frame);
            i = i + 2;
            start = i;
        } else {
            i = i + 1;
        }
    }
    proof {
        assert(spec_next_crlf(bytes@, i as int) == len);
    }
    if start < len {
        let frame = slice_subrange(bytes, start, len);
        proof {
            let grown = done.push(frame@);
            assert(done + spec_frames_from(bytes@, start as int) =~= grown);
            done = grown;
        }
        result.push(frame);
    } else {
        proof {
            assert(done + spec_frames_from(bytes@, start as int) =~= done);
        }
    }
    result
}

impl TcpExecutor {
    /// The address of the target, as contracts see it.
    pub closed spec fn spec_target_ip_addr(&self) -> Seq<char> {
        self.target_ip_addr@
    }

    /// The port of the target, as contracts see it.
    pub closed spec fn spec_target_port(&self) -> u16 {
        self.target_port
    }

    /// The cleanup script, as contracts see it.
    pub closed spec fn spec_cleanup_script(&self) -> Option<String> {
        self.cleanup_script
    }

    /// The executable of the target, as contracts see it.
    pub closed spec fn spec_target_path(&self) -> Option<String> {
        self.target_path
    }

    /// The options of the target, as contracts see them.
    pub closed spec fn spec_target_options(&self) -> Option<String> {
        self.target_options
    }

    /// The configured startup delay, as contracts see it.
    pub closed spec fn spec_target_startup_usecs(&self) -> Option<u64> {
        self.target_startup_usecs
    }

    /// The budget of connection attempts, as contracts see it.
    pub closed spec fn spec_connection_retries(&self) -> u8 {
        self.connection_retries
    }

    /// An executor for the target at the given address and port. With a
    /// `cleanup_script`, the script is run after every trial. With a
    /// `target_path`, the executor starts the target itself, with the
    /// `target_options`, and gives it `target_startup_usecs` to come up.
    pub fn new(
        target_ip_addr: String,
        target_port: u16,
        cleanup_script: Option<String>,
        target_path: Option<String>,
        target_options: Option<String>,
        target_startup_usecs: Option<u64>,
    ) -> (executor: Self)
        ensures
            executor.spec_target_ip_addr() == target_ip_addr@,
            executor.spec_target_port() == target_port,
            executor.spec_cleanup_script() == cleanup_script,
            executor.spec_target_path() == target_path,
            executor.spec_target_options() == target_options,
            executor.spec_target_startup_usecs() == target_startup_usecs,
            executor.spec_connection_retries() == CONNECTION_RETRIES,
    {
        Self {
            target_ip_addr,
            target_port,
            cleanup_script,
            target_path,
            target_options,
            target_startup_usecs,
            connection_retries: CONNECTION_RETRIES,
        }
    }

    /// The address of the target.
    pub fn target_ip_addr(&self) -> (addr: &String)
        ensures
            addr@ == self.spec_target_ip_addr(),
    {
        &self.target_ip_addr
    }

    /// The port of the target.
    pub fn target_port(&self) -> (port: u16)
        ensures
            port == self.spec_target_port(),
    {
        self.target_port
    }

    /// The options that the target is started with, if any.
    pub fn target_options(&self) -> (options: &Option<String>)
        ensures
            *options == self.spec_target_options(),
    {
        &self.target_options
    }

    /// What to do with the target process before a trial: it is started
    /// when no process was started yet, restarted when it has exited, and
    /// left alone otherwise.
    pub fn check_target(&self, process: ProcessState) -> (action: TargetAction)
        ensures
            action == match process {
                ProcessState::NotStarted => TargetAction::Start,
                ProcessState::Exited => TargetAction::Restart,
                ProcessState::Running => TargetAction::Keep,
                ProcessState::Unknown => TargetAction::Keep,
            },
    {
        match process {
            ProcessState::NotStarted => TargetAction::Start,
            ProcessState::Exited => TargetAction::Restart,
            ProcessState::Running => TargetAction::Keep,
            ProcessState::Unknown => TargetAction::Keep,
        }
    }

    /// The executable to spawn when the target is to be started, its
    /// arguments, and how long to wait for it afterwards, in microseconds;
    /// none if the target is not managed by the executor. The arguments are
    /// the configured options cut at every space, or none at all if no
    /// options are configured.
    pub fn start_target(&self) -> (plan: Option<(&String, Vec<&[u8]>, u64)>)
        ensures
            match plan {
                Some((path, args, delay)) => {
                    &&& self.spec_target_path() == Some(*path)
                    &&& spec_slices_are(
                        args@,
                        match self.spec_target_options() {
                            Some(options) => spec_options(encode_utf8(options@)),
                            None => Seq::empty(),
                        },
                    )
                    &&& delay == match self.spec_target_startup_usecs() {
                        Some(usecs) => usecs,
                        None => DEFAULT_STARTUP_USECS,
                    }
                },
                None => self.spec_target_path().is_none(),
            },
    {
        match &self.target_path {
            Some(path) => {
                let args = match &self.target_options {
                    Some(options) => split_options(options.as_str()),
                    None => Vec::new(),
                };
                let delay = match self.target_startup_usecs {
                    Some(usecs) => usecs,
                    None => DEFAULT_STARTUP_USECS,
                };
                Some((path, args, delay))
            },
            None => None,
        }
    }

    /// The first attempt to connect, if the budget allows one.
    fn first_attempt(&self) -> (step: TcpStep)
        ensures
            step == spec_first_attempt(self.spec_connection_retries()),
    {
        if self.connection_retries > 0 {
            TcpStep { phase: TcpPhase::Connecting { failures: 0 }, command: TcpCommand::Connect }
        } else {
            TcpStep {
                phase: TcpPhase::Idle,
                command: TcpCommand::Finish(Err(Error::ConnectFailed(self.connection_retries))),
            }
        }
    }

    /// Begins a trial: counts it, and says what to do first, given what
    /// the caller knows of the target process. What to do after that,
    /// `step` says, until it says that the trial is finished.
    pub fn run_target<S: HasExecutions>(&mut self, state: &mut S, process: ProcessState) -> (first:
        TcpStep)
        requires
            old(state).spec_executions() < usize::MAX,
        ensures
            *final(self) == *old(self),
            final(state).spec_executions() == old(state).spec_executions() + 1,
            first == spec_begin(old(self).spec_connection_retries(), process),
    {
        let count = state.executions_mut();
        *count = *count + 1;
        match self.check_target(process) {
            TargetAction::Start => TcpStep {
                phase: TcpPhase::Starting,
                command: TcpCommand::StartTarget,
            },
            TargetAction::Restart => TcpStep {
                phase: TcpPhase::Starting,
                command: TcpCommand::RestartTarget,
            },
            TargetAction::Keep => self.first_attempt(),
        }
    }

    /// Says what to do next, when `event` came of the command that was
    /// issued in `phase`; nothing if the event does not answer that command.
    pub fn step(&self, phase: TcpPhase, event: TcpEvent) -> (next: Option<TcpStep>)
        ensures
            next == spec_step(self.spec_connection_retries(), phase, event),
    {
        match (phase, event) {
            (TcpPhase::Starting, TcpEvent::Done) => Some(self.first_attempt()),
            (TcpPhase::Connecting { failures }, TcpEvent::Connection(connected)) => {
                if connected {
                    Some(TcpStep { phase: TcpPhase::Connected, command: TcpCommand::Deliver })
                } else {
                    Some(
                        TcpStep {
                            phase: TcpPhase::Restarting { failures },
                            command: TcpCommand::RestartTarget,
                        },
                    )
                }
            },
            (TcpPhase::Restarting { failures }, TcpEvent::Done) => {
                if failures < self.connection_retries && failures + 1 < self.connection_retries {
                    Some(
                        TcpStep {
                            phase: TcpPhase::Connecting { failures: failures + 1 },
                            command: TcpCommand::Connect,
                        },
                    )
                } else {
                    Some(
                        TcpStep {
                            phase: TcpPhase::Idle,
                            command: TcpCommand::Finish(
                                Err(Error::ConnectFailed(self.connection_retries)),
                            ),
                        },
                    )
                }
            },
            (TcpPhase::Connected, TcpEvent::Done) => Some(
                TcpStep { phase: TcpPhase::Monitoring, command: TcpCommand::Probe },
            ),
            (TcpPhase::Monitoring, TcpEvent::Probed(probe)) => {
                let found = monitor_target(probe);
                if found.restart {
                    Some(
                        TcpStep {
                            phase: TcpPhase::Recovering { outcome: found.outcome },
                            command: TcpCommand::RestartTarget,
                        },
                    )
                } else {
                    Some(
                        TcpStep {
                            phase: TcpPhase::Closing { outcome: found.outcome },
                            command: TcpCommand::Shutdown,
                        },
                    )
                }
            },
            (TcpPhase::Recovering { outcome }, TcpEvent::Done) => Some(
                TcpStep { phase: TcpPhase::Closing { outcome }, command: TcpCommand::Shutdown },
            ),
            (TcpPhase::Closing { outcome }, TcpEvent::Done) => Some(
                TcpStep { phase: TcpPhase::Idle, command: TcpCommand::Finish(outcome) },
            ),
            _ => None,
        }
    }

    /// The script to run after a trial, if one is configured. The executor
    /// itself holds nothing that a trial leaves behind, so asking again
    /// gives the same answer.
    pub fn post_run_reset(&mut self) -> (script: Option<&String>)
        ensures
            *final(self) == *old(self),
            match script {
                Some(path) => old(self).spec_cleanup_script() == Some(*path),
                None => old(self).spec_cleanup_script().is_none(),
            },
    {
        match &self.cleanup_script {
            Some(path) => Some(path),
            None => None,
        }
    }
}

} // verus!
