//! An executor that does not run the target itself: it records the traffic
//! of a trial and lets a scorer say which behaviours of the target the
//! traffic shows.
//!
//! Capturing and scoring are the caller's work. The executor decides when
//! the capture starts and stops and what the scorer's answer does to the
//! observation map.

use vstd::prelude::*;
use crate::error::Error;
use crate::exit_kind::ExitKind;
use crate::state::HasExecutions;

verus! {

/// The name of the scorer's configuration inside the scorer's folder,
/// unless another file is configured.
pub const CONFIG_FILE_NAME: &'static str = "config.yml";

/// The name of the folder for capture files inside the scorer's folder,
/// unless another folder is configured.
pub const DUMP_FOLDER_NAME: &'static str = "dump";

/// The device whose traffic is recorded.
pub const CAPTURE_DEVICE: &'static str = "lo";

/// How many packets a capture must have seen before it may be stopped.
pub const EXPECTED_PACKETS: u32 = 8;

/// The snapshot length of a capture, in bytes.
pub const SNAPLEN: i32 = 5000;

/// The read timeout of a capture, in milliseconds.
pub const CAPTURE_TIMEOUT_MS: i32 = 50;

/// Whether the capture file is removed as soon as it was scored.
pub const DELETE_FILES_IMMEDIATELY: bool = true;

/// What a look into a one-shot channel found.
#[derive(Clone, Copy, Debug, PartialEq, Eq, Structural)]
pub enum Signalled {
    /// A message was there.
    Received,
    /// The other side is gone.
    Disconnected,
    /// Nothing yet.
    Empty,
}

/// What is left to do after a trial.
#[derive(Clone, Copy, Debug, PartialEq, Eq, Structural)]
pub struct Reset {
    /// Whether the capture is told to stop and waited for.
    pub stop_capture: bool,
    /// Whether the capture file is scored and the observation map updated.
    pub score: bool,
    /// Whether the capture file is removed afterwards.
    pub delete_capture: bool,
}

/// Approximates what the target does by a model of its traffic.
#[derive(Debug)]
pub struct HmmExecutor {
    target_port: u16,
    hmm_lib_path: String,
    config_path: String,
    pcap_dump_path: String,
    curr_pcap_path: String,
    capturing: bool,
}

/// The observation map after the scorer answered `hits` for the map `map`:
/// an entry is set to one where the scorer says one, and kept otherwise.
/// Answers beyond the end of the map are dropped.
pub open spec fn spec_apply_coverage(map: Seq<u8>, hits: Seq<i64>) -> Seq<u8> {
    Seq::new(
        map.len(),
        |i: int|
            if i < hits.len() && hits[i] == 1 {
                1u8
            } else {
                map[i]
            },
    )
}

/// What is left to do after a trial, for an executor whose capture is
/// running or not.
pub open spec fn spec_reset(capturing: bool) -> Reset {
    Reset {
        stop_capture: capturing,
        score: capturing,
        delete_capture: capturing && DELETE_FILES_IMMEDIATELY,
    }
}

/// A reset leaves no capture running, and without a running capture a
/// reset asks for nothing: the second of two resets in a row stops, scores
/// and removes nothing.
pub proof fn lemma_second_reset_asks_for_nothing()
    ensures
        spec_reset(false) == (Reset { stop_capture: false, score: false, delete_capture: false }),
        spec_reset(true) == (Reset { stop_capture: true, score: true, delete_capture: true }),
{
}

/// Marking the hits of one answer a second time changes nothing, and a map
/// never loses a mark.
pub proof fn lemma_coverage_is_idempotent(map: Seq<u8>, hits: Seq<i64>)
    ensures
        spec_apply_coverage(spec_apply_coverage(map, hits), hits) == spec_apply_coverage(map, hits),
        spec_apply_coverage(map, hits).len() == map.len(),
        forall|i: int|
            0 <= i < map.len() && map[i] == 1 ==> #[trigger] spec_apply_coverage(map, hits)[i] == 1,
{
    assert(spec_apply_coverage(spec_apply_coverage(map, hits), hits) =~= spec_apply_coverage(
        map,
        hits,
    ));
}

/// Whether a look into a channel ends the wait for the other side.
pub fn wait_is_over(found: Signalled) -> (over: bool)
    ensures
        over == (found != Signalled::Empty),
{
    match found {
        Signalled::Received => true,
        Signalled::Disconnected => true,
        Signalled::Empty => false,
    }
}

/// The number of packets seen after one more read, which gave a packet or not.
pub fn count_packet(count: u32, got_packet: bool) -> (counted: u32)
    ensures
        counted == if got_packet && count < u32::MAX {
            count + 1
        } else {
            count as int
        },
{
    if got_packet && count < u32::MAX {
        count + 1
    } else {
        count
    }
}

/// Whether a capture that has seen `count` packets looks for a request to stop.
pub fn may_stop(count: u32) -> (may: bool)
    ensures
        may == (count >= EXPECTED_PACKETS),
{
    count >= EXPECTED_PACKETS
}

/// Marks in the observation map what the scorer found in the traffic.
pub fn apply_coverage(map: &mut Vec<u8>, hits: &Vec<i64>)
    ensures
        final(map)@ == spec_apply_coverage(old(map)@, hits@),
{
    let n = if hits.len() < map.len() { hits.len() } else { map.len() };
    let mut i: usize = 0;
    while i < n
        invariant
            i <= n,
            n <= hits@.len(),
            n <= map@.len(),
            map@.len() == old(map)@.len(),
            forall|k: int| 0 <= k < i ==> map@[k] == spec_apply_coverage(old(map)@, hits@)[k],
            forall|k: int| i <= k < map@.len() ==> map@[k] == old(map)@[k],
        decreases n - i,
    {
        if hits[i] == 1 {
            map.set(i, 1);
        }
        i = i + 1;
    }
    assert(map@ =~= spec_apply_coverage(old(map)@, hits@));
}

impl HmmExecutor {
    /// The port whose traffic is recorded, as contracts see it.
    pub closed spec fn spec_target_port(&self) -> u16 {
        self.target_port
    }

    /// The folder of the scorer, as contracts see it.
    pub closed spec fn spec_hmm_lib_path(&self) -> Seq<char> {
        self.hmm_lib_path@
    }

    /// The configuration of the scorer, as contracts see it.
    pub closed spec fn spec_config_path(&self) -> Seq<char> {
        self.config_path@
    }

    /// The folder for capture files, as contracts see it.
    pub closed spec fn spec_pcap_dump_path(&self) -> Seq<char> {
        self.pcap_dump_path@
    }

    /// The capture file of the last trial, as contracts see it.
    pub closed spec fn spec_curr_pcap_path(&self) -> Seq<char> {
        self.curr_pcap_path@
    }

    /// Whether a capture is running, as contracts see it.
    pub closed spec fn spec_capturing(&self) -> bool {
        self.capturing
    }

    /// An executor that records the traffic on `target_port` into files
    /// under `pcap_dump_path` and has them scored by the scorer in
    /// `hmm_lib_path`, which reads its configuration from `config_path`.
    pub fn new(target_port: u16, hmm_lib_path: String, config_path: String, pcap_dump_path: String) -> (executor:
        Self)
        ensures
            executor.spec_target_port() == target_port,
            executor.spec_hmm_lib_path() == hmm_lib_path@,
            executor.spec_config_path() == config_path@,
            executor.spec_pcap_dump_path() == pcap_dump_path@,
            executor.spec_curr_pcap_path() == Seq::<char>::empty(),
            !executor.spec_capturing(),
    {
        Self {
            target_port,
            hmm_lib_path,
            config_path,
            pcap_dump_path,
            curr_pcap_path: String::new(),
            capturing: false,
        }
    }

    /// The port whose traffic is recorded.
    pub fn target_port(&self) -> (port: u16)
        ensures
            port == self.spec_target_port(),
    {
        self.target_port
    }

    /// The folder of the scorer.
    pub fn hmm_lib_path(&self) -> (path: &String)
        ensures
            path@ == self.spec_hmm_lib_path(),
    {
        &self.hmm_lib_path
    }

    /// The configuration of the scorer.
    pub fn config_path(&self) -> (path: &String)
        ensures
            path@ == self.spec_config_path(),
    {
        &self.config_path
    }

    /// The folder for capture files.
    pub fn pcap_dump_path(&self) -> (path: &String)
        ensures
            path@ == self.spec_pcap_dump_path(),
    {
        &self.pcap_dump_path
    }

    /// The capture file of the last trial.
    pub fn curr_pcap_path(&self) -> (path: &String)
        ensures
            path@ == self.spec_curr_pcap_path(),
    {
        &self.curr_pcap_path
    }

    /// Counts the trial and notes that a capture into `pcap_path` is
    /// running. The caller has started the capture and waited until it was
    /// set up, so that no traffic of the trial is missed. The verdict is
    /// always a clean run: this executor never sees the target fail.
    pub fn run_target<S: HasExecutions>(&mut self, state: &mut S, pcap_path: String) -> (outcome:
        Result<ExitKind, Error>)
        requires
            old(state).spec_executions() < usize::MAX,
        ensures
            final(state).spec_executions() == old(state).spec_executions() + 1,
            outcome == Ok::<ExitKind, Error>(ExitKind::Normal),
            final(self).spec_capturing(),
            final(self).spec_curr_pcap_path() == pcap_path@,
            final(self).spec_target_port() == old(self).spec_target_port(),
            final(self).spec_hmm_lib_path() == old(self).spec_hmm_lib_path(),
            final(self).spec_config_path() == old(self).spec_config_path(),
            final(self).spec_pcap_dump_path() == old(self).spec_pcap_dump_path(),
    {
        let count = state.executions_mut();
        *count = *count + 1;
        self.curr_pcap_path = pcap_path;
        self.capturing = true;
        Ok(ExitKind::Normal)
    }

    /// Says what is left to do after a trial and notes that it is done. A
    /// running capture is stopped, its file scored and removed. Without a
    /// running capture nothing is left to do, so a second call in a row
    /// asks for nothing.
    pub fn post_run_reset(&mut self) -> (reset: Reset)
        ensures
            reset == spec_reset(old(self).spec_capturing()),
            !final(self).spec_capturing(),
            final(self).spec_curr_pcap_path() == old(self).spec_curr_pcap_path(),
            final(self).spec_target_port() == old(self).spec_target_port(),
            final(self).spec_hmm_lib_path() == old(self).spec_hmm_lib_path(),
            final(self).spec_config_path() == old(self).spec_config_path(),
            final(self).spec_pcap_dump_path() == old(self).spec_pcap_dump_path(),
    {
        let was = self.capturing;
        self.capturing = false;
        Reset { stop_capture: was, score: was, delete_capture: was && DELETE_FILES_IMMEDIATELY }
    }
}

} // verus!
