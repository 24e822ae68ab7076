//! Audio session table: at most one playback or recording worker per
//! (bank, button) cell, with cooperative-then-forced stop semantics, and the
//! cached endpoint discovery that playback depends on.
//!
//! The table never touches a thread itself. Each occupied cell carries a
//! worker token; the embedding program spawns the worker it is handed, keys
//! the thread handle and the shared stop flags by that token, performs the
//! flag writes and joins a stop decision asks for, and reports which workers
//! have finished. The table is mutated only by its single owning caller.

use vstd::prelude::*;
use vstd::pervasive::VecAdditionalExecFns;
use crate::discovery::{
    input_device_matches, matches_input_device, matches_output_device, output_device_matches,
};
use crate::samples::{SampleBank, SampleButtons};

verus! {

/// How long a resolved audio endpoint is served from the cache before the
/// next lookup re-enumerates the system's devices.
pub const DEVICE_CACHE_WINDOW_MS: u64 = 5000;

/// Fade-out duration handed to a player built with fade-on-stop.
pub const FADE_OUT_MS: u64 = 500;

/// An audio-layer failure: local to one call, reported to the trigger
/// caller, and never fatal to the daemon.
#[derive(Debug, Clone, Copy, PartialEq, Eq, Structural)]
pub enum AudioError {
    /// No output endpoint is known, so nothing can be played.
    NoOutputDevice,
    /// The target cell already holds a session; stop that one first.
    SlotOccupied,
    /// The target cell holds a recording session, which a playback stop
    /// request does not apply to.
    WrongSessionType,
}

/// Whether a cell runs playback or recording.
#[derive(Debug, Clone, Copy, PartialEq, Eq, Structural)]
pub enum StreamType {
    Playback,
    Recording,
}

/// One active session in a table cell: its kind, the token the embedding
/// program keys the worker's thread handle and shared flags by, and the two
/// stop flags as last commanded by the control loop.
#[derive(Debug, Clone, Copy, PartialEq, Eq, Structural)]
pub struct StateManager {
    pub stream_type: StreamType,
    pub worker: u64,
    pub stopping: bool,
    pub force_stop: bool,
}

/// What a playback trigger asks to play, as plain values.
#[derive(Debug)]
pub struct AudioFile {
    /// Path of the sound file.
    pub file: String,
    /// Linear gain in thousandths, if the sample carries one.
    pub gain: Option<u32>,
    /// Start of the trimmed region in hundredths of a percent, if any.
    pub start_pct: Option<u32>,
    /// End of the trimmed region in hundredths of a percent, if any.
    pub stop_pct: Option<u32>,
    /// Whether a cooperative stop fades out rather than cuts.
    pub fade_on_stop: bool,
}

/// The playback worker the embedding program must spawn on a dedicated
/// thread: build the player from these plain values, run one pass or a
/// loop, and honour the stop flags shared under `worker`.
#[derive(Debug)]
pub struct PlayerTask {
    pub worker: u64,
    pub file: String,
    pub output_device: String,
    /// Fade-out on cooperative stop, in milliseconds.
    pub fade_out_ms: Option<u64>,
    pub start_pct: Option<u32>,
    pub stop_pct: Option<u32>,
    pub gain: Option<u32>,
    pub loop_track: bool,
}

/// What a stop request decided.
#[derive(Debug, Clone, Copy, PartialEq, Eq, Structural)]
pub enum StopAction {
    /// The cell was empty: nothing to do.
    Ignored,
    /// Cooperative stop: set the stopping flag of this worker; it is
    /// expected to fade out and exit on its own.
    FadeRequested { worker: u64 },
    /// Forced stop: set the force flag of this worker, join its thread, and
    /// only then discard the handle. Its cell is already cleared.
    ForceStop { worker: u64 },
}

/// One cached audio endpoint with the time it was last resolved, in
/// milliseconds of the embedding program's monotonic clock.
struct EndpointCache {
    name: Option<String>,
    last_checked_ms: Option<u64>,
}

/// Position of a bank among the banks.
pub open spec fn spec_bank_index(bank: SampleBank) -> int {
    match bank {
        SampleBank::A => 0,
        SampleBank::B => 1,
        SampleBank::C => 2,
    }
}

/// Position of a button within its bank.
pub open spec fn spec_button_index(button: SampleButtons) -> int {
    match button {
        SampleButtons::TopLeft => 0,
        SampleButtons::TopRight => 1,
        SampleButtons::BottomLeft => 2,
        SampleButtons::BottomRight => 3,
    }
}

/// Position of a cell in the flattened bank-by-button table.
pub open spec fn spec_cell_index(bank: SampleBank, button: SampleButtons) -> int {
    spec_bank_index(bank) * 4 + spec_button_index(button)
}

fn cell_index(bank: SampleBank, button: SampleButtons) -> (r: usize)
    ensures
        r == spec_cell_index(bank, button),
        r < 12,
{
    let bank_index: usize = match bank {
        SampleBank::A => 0,
        SampleBank::B => 1,
        SampleBank::C => 2,
    };
    let button_index: usize = match button {
        SampleButtons::TopLeft => 0,
        SampleButtons::TopRight => 1,
        SampleButtons::BottomLeft => 2,
        SampleButtons::BottomRight => 3,
    };
    bank_index * 4 + button_index
}

/// A cell after one reconciliation pass: cleared when its worker is among
/// the finished ones, untouched otherwise.
pub open spec fn reap_cell(cell: Option<StateManager>, finished: Seq<u64>) -> Option<
    StateManager,
> {
    match cell {
        Some(s) => if finished.contains(s.worker) {
            None
        } else {
            cell
        },
        None => None,
    }
}

/// Whether a value occurs in a vector of worker tokens.
fn contains_worker(v: &Vec<u64>, x: u64) -> (r: bool)
    ensures
        r == v@.contains(x),
{
    let n = v.len();
    let mut i: usize = 0;
    while i < n
        invariant
            i <= n,
            n == v@.len(),
            forall|j: int| 0 <= j < i ==> v@[j] != x,
        decreases n - i,
    {
        if v[i] == x {
            return true;
        }
        i += 1;
    }
    false
}

/// Every position of the flattened table is the cell of some (bank, button)
/// pair.
proof fn lemma_some_pair_has_index(j: int) -> (r: (SampleBank, SampleButtons))
    requires
        0 <= j < 12,
    ensures
        spec_cell_index(r.0, r.1) == j,
{
    let bank = if j < 4 {
        SampleBank::A
    } else if j < 8 {
        SampleBank::B
    } else {
        SampleBank::C
    };
    let button = if j % 4 == 0 {
        SampleButtons::TopLeft
    } else if j % 4 == 1 {
        SampleButtons::TopRight
    } else if j % 4 == 2 {
        SampleButtons::BottomLeft
    } else {
        SampleButtons::BottomRight
    };
    (bank, button)
}

/// The audio session table and the two endpoint caches.
pub struct AudioHandler {
    output_device: EndpointCache,
    input_device: EndpointCache,
    active_streams: Vec<Option<StateManager>>,
}

impl AudioHandler {
    /// Structural validity: one cell for each (bank, button) pair.
    pub closed spec fn wf(&self) -> bool {
        self.active_streams@.len() == 12
    }

    /// The session occupying a cell, if any.
    pub closed spec fn spec_cell(&self, bank: SampleBank, button: SampleButtons) -> Option<
        StateManager,
    > {
        self.active_streams@[spec_cell_index(bank, button)]
    }

    /// The cached output endpoint name, if one is resolved.
    pub closed spec fn spec_output_device(&self) -> Option<Seq<char>> {
        match self.output_device.name {
            Some(s) => Some(s@),
            None => None,
        }
    }

    /// When the output endpoint was last resolved, if ever.
    pub closed spec fn spec_output_last_checked(&self) -> Option<u64> {
        self.output_device.last_checked_ms
    }

    /// The cached input endpoint name, if one is resolved.
    pub closed spec fn spec_input_device(&self) -> Option<Seq<char>> {
        match self.input_device.name {
            Some(s) => Some(s@),
            None => None,
        }
    }

    /// When the input endpoint was last resolved, if ever.
    pub closed spec fn spec_input_last_checked(&self) -> Option<u64> {
        self.input_device.last_checked_ms
    }

    /// Whether the output endpoint must be re-resolved at `now_ms`: it is
    /// absent, was never checked, or its last check is older than the
    /// staleness window.
    pub open spec fn spec_needs_output_check(&self, now_ms: u64) -> bool {
        ||| self.spec_output_device() is None
        ||| self.spec_output_last_checked() is None
        ||| now_ms > self.spec_output_last_checked()->0 + DEVICE_CACHE_WINDOW_MS
    }

    /// Whether the input endpoint must be re-resolved at `now_ms`.
    pub open spec fn spec_needs_input_check(&self, now_ms: u64) -> bool {
        ||| self.spec_input_device() is None
        ||| self.spec_input_last_checked() is None
        ||| now_ms > self.spec_input_last_checked()->0 + DEVICE_CACHE_WINDOW_MS
    }

    /// Whether some cell of the table holds a session owned by worker `w`.
    pub open spec fn has_worker(&self, w: u64) -> bool {
        exists|bank: SampleBank, button: SampleButtons|
            (#[trigger] self.spec_cell(bank, button)) matches Some(s) && s.worker == w
    }

    /// Shorthand: both endpoint caches exactly as they were.
    pub open spec fn caches_unchanged(&self, other: &AudioHandler) -> bool {
        &&& self.spec_output_device() == other.spec_output_device()
        &&& self.spec_output_last_checked() == other.spec_output_last_checked()
        &&& self.spec_input_device() == other.spec_input_device()
        &&& self.spec_input_last_checked() == other.spec_input_last_checked()
    }

    /// An empty table: every cell free, both endpoint caches unresolved.
    pub fn new() -> (r: Self)
        ensures
            r.wf(),
            forall|bank: SampleBank, button: SampleButtons| r.spec_cell(bank, button) is None,
            r.spec_output_device() is None,
            r.spec_output_last_checked() is None,
            r.spec_input_device() is None,
            r.spec_input_last_checked() is None,
    {
        let mut cells: Vec<Option<StateManager>> = Vec::new();
        let mut i: usize = 0;
        while i < 12
            invariant
                i <= 12,
                cells@.len() == i,
                forall|j: int| 0 <= j < i ==> cells@[j] is None,
            decreases 12 - i,
        {
            cells.push(None);
            i += 1;
        }
        let r = AudioHandler {
            output_device: EndpointCache { name: None, last_checked_ms: None },
            input_device: EndpointCache { name: None, last_checked_ms: None },
            active_streams: cells,
        };
        assert forall|bank: SampleBank, button: SampleButtons|
            r.spec_cell(bank, button) is None by {
            assert(0 <= spec_cell_index(bank, button) < 12);
        }
        r
    }

    /// Whether a cell currently holds a session of either kind.
    pub fn is_sample_playing(&self, bank: SampleBank, button: SampleButtons) -> (r: bool)
        requires
            self.wf(),
        ensures
            r == (self.spec_cell(bank, button) is Some),
    {
        let idx = cell_index(bank, button);
        self.active_streams[idx].is_some()
    }

    /// Whether a cell holds a playback session whose cooperative stop has
    /// been requested.
    pub fn is_sample_stopping(&self, bank: SampleBank, button: SampleButtons) -> (r: bool)
        requires
            self.wf(),
        ensures
            r == (self.spec_cell(bank, button) matches Some(s) && s.stream_type
                == StreamType::Playback && s.stopping),
    {
        let idx = cell_index(bank, button);
        match self.active_streams[idx] {
            Some(s) => s.stream_type == StreamType::Playback && s.stopping,
            None => false,
        }
    }

    /// Trigger playback into a cell. Succeeds only into a free cell with a
    /// resolved output endpoint; then the cell records a playback session
    /// with both stop flags clear, and the returned worker task carries the
    /// file, the endpoint, and a fixed fade-out exactly when the file asks
    /// to fade on stop. A failed trigger leaves the whole table unchanged.
    pub fn play_for_button(
        &mut self,
        bank: SampleBank,
        button: SampleButtons,
        audio: AudioFile,
        loop_track: bool,
        worker: u64,
    ) -> (r: Result<PlayerTask, AudioError>)
        requires
            old(self).wf(),
        ensures
            final(self).wf(),
            final(self).caches_unchanged(old(self)),
            match r {
                Err(AudioError::SlotOccupied) => {
                    &&& old(self).spec_cell(bank, button) is Some
                    &&& *final(self) == *old(self)
                },
                Err(AudioError::NoOutputDevice) => {
                    &&& old(self).spec_cell(bank, button) is None
                    &&& old(self).spec_output_device() is None
                    &&& *final(self) == *old(self)
                },
                Err(AudioError::WrongSessionType) => false,
                Ok(task) => {
                    &&& old(self).spec_cell(bank, button) is None
                    &&& old(self).spec_output_device() matches Some(device)
                    &&& task.output_device@ == device
                    &&& final(self).spec_cell(bank, button) == Some(
                        (StateManager {
                            stream_type: StreamType::Playback,
                            worker,
                            stopping: false,
                            force_stop: false,
                        }),
                    )
                    &&& forall|b2: SampleBank, u2: SampleButtons|
                        !(b2 == bank && u2 == button) ==> final(self).spec_cell(b2, u2) == old(
                            self,
                        ).spec_cell(b2, u2)
                    &&& task.worker == worker
                    &&& task.file@ == audio.file@
                    &&& task.fade_out_ms == (if audio.fade_on_stop {
                        Some(FADE_OUT_MS)
                    } else {
                        None::<u64>
                    })
                    &&& task.start_pct == audio.start_pct
                    &&& task.stop_pct == audio.stop_pct
                    &&& task.gain == audio.gain
                    &&& task.loop_track == loop_track
                },
            },
    {
        let idx = cell_index(bank, button);
        if self.active_streams[idx].is_some() {
            return Err(AudioError::SlotOccupied);
        }
        match &self.output_device.name {
            None => Err(AudioError::NoOutputDevice),
            Some(device) => {
                let device = device.clone();
                let fade_out_ms = if audio.fade_on_stop {
                    Some(FADE_OUT_MS)
                } else {
                    None
                };
                self.active_streams.set(
                    idx,
                    Some(
                        StateManager {
                            stream_type: StreamType::Playback,
                            worker,
                            stopping: false,
                            force_stop: false,
                        },
                    ),
                );
                assert forall|b2: SampleBank, u2: SampleButtons|
                    !(b2 == bank && u2 == button) implies self.spec_cell(b2, u2) == old(
                    self,
                ).spec_cell(b2, u2) by {
                    assert(spec_cell_index(b2, u2) != spec_cell_index(bank, button));
                }
                Ok(
                    PlayerTask {
                        worker,
                        file: audio.file,
                        output_device: device,
                        fade_out_ms,
                        start_pct: audio.start_pct,
                        stop_pct: audio.stop_pct,
                        gain: audio.gain,
                        loop_track,
                    },
                )
            },
        }
    }

    /// Two-phase stop of a cell's playback. An empty cell is a no-op; a
    /// recording cell is the wrong kind. The first stop of a playing cell
    /// requests the cooperative fade and leaves the cell occupied; a stop of
    /// an already-stopping cell decides the forced kill and clears the cell,
    /// handing the worker out to be force-flagged and joined.
    pub fn stop_playback(&mut self, bank: SampleBank, button: SampleButtons) -> (r: Result<
        StopAction,
        AudioError,
    >)
        requires
            old(self).wf(),
        ensures
            final(self).wf(),
            final(self).caches_unchanged(old(self)),
            forall|b2: SampleBank, u2: SampleButtons|
                !(b2 == bank && u2 == button) ==> final(self).spec_cell(b2, u2) == old(
                    self,
                ).spec_cell(b2, u2),
            match r {
                Err(e) => {
                    &&& e == AudioError::WrongSessionType
                    &&& old(self).spec_cell(bank, button) matches Some(s)
                    &&& s.stream_type == StreamType::Recording
                    &&& *final(self) == *old(self)
                },
                Ok(StopAction::Ignored) => {
                    &&& old(self).spec_cell(bank, button) is None
                    &&& *final(self) == *old(self)
                },
                Ok(StopAction::FadeRequested { worker }) => {
                    &&& old(self).spec_cell(bank, button) matches Some(s)
                    &&& s.stream_type == StreamType::Playback
                    &&& !s.stopping
                    &&& worker == s.worker
                    &&& final(self).spec_cell(bank, button) == Some(
                        (StateManager {
                            stream_type: StreamType::Playback,
                            worker: s.worker,
                            stopping: true,
                            force_stop: s.force_stop,
                        }),
                    )
                },
                Ok(StopAction::ForceStop { worker }) => {
                    &&& old(self).spec_cell(bank, button) matches Some(s)
                    &&& s.stream_type == StreamType::Playback
                    &&& s.stopping
                    &&& worker == s.worker
                    &&& final(self).spec_cell(bank, button) is None
                },
            },
    {
        let idx = cell_index(bank, button);
        match self.active_streams[idx] {
            None => Ok(StopAction::Ignored),
            Some(s) => {
                if s.stream_type == StreamType::Recording {
                    return Err(AudioError::WrongSessionType);
                }
                if s.stopping {
                    self.active_streams.set(idx, None);
                    assert forall|b2: SampleBank, u2: SampleButtons|
                        !(b2 == bank && u2 == button) implies self.spec_cell(b2, u2) == old(
                        self,
                    ).spec_cell(b2, u2) by {
                        assert(spec_cell_index(b2, u2) != spec_cell_index(bank, button));
                    }
                    Ok(StopAction::ForceStop { worker: s.worker })
                } else {
                    self.active_streams.set(
                        idx,
                        Some(
                            StateManager {
                                stream_type: s.stream_type,
                                worker: s.worker,
                                stopping: true,
                                force_stop: s.force_stop,
                            },
                        ),
                    );
                    assert forall|b2: SampleBank, u2: SampleButtons|
                        !(b2 == bank && u2 == button) implies self.spec_cell(b2, u2) == old(
                        self,
                    ).spec_cell(b2, u2) by {
                        assert(spec_cell_index(b2, u2) != spec_cell_index(bank, button));
                    }
                    Ok(StopAction::FadeRequested { worker: s.worker })
                }
            },
        }
    }

    /// One reconciliation pass, given the workers whose threads have
    /// finished: every cell owned by a finished worker is cleared, every
    /// other cell is left untouched. The pass itself never waits on anyone.
    pub fn check_playing(&mut self, finished: &Vec<u64>)
        requires
            old(self).wf(),
        ensures
            final(self).wf(),
            final(self).caches_unchanged(old(self)),
            forall|bank: SampleBank, button: SampleButtons|
                final(self).spec_cell(bank, button) == reap_cell(
                    old(self).spec_cell(bank, button),
                    finished@,
                ),
    {
        let mut i: usize = 0;
        while i < 12
            invariant
                old(self).wf(),
                self.wf(),
                i <= 12,
                self.output_device.name == old(self).output_device.name,
                self.output_device.last_checked_ms == old(self).output_device.last_checked_ms,
                self.input_device.name == old(self).input_device.name,
                self.input_device.last_checked_ms == old(self).input_device.last_checked_ms,
                forall|j: int|
                    0 <= j < i ==> self.active_streams@[j] == reap_cell(
                        old(self).active_streams@[j],
                        finished@,
                    ),
                forall|j: int| i <= j < 12 ==> self.active_streams@[j] == old(
                    self,
                ).active_streams@[j],
            decreases 12 - i,
        {
            match self.active_streams[i] {
                Some(s) => {
                    if contains_worker(finished, s.worker) {
                        self.active_streams.set(i, None);
                    }
                },
                None => {},
            }
            i += 1;
        }
        assert forall|bank: SampleBank, button: SampleButtons|
            self.spec_cell(bank, button) == reap_cell(
            old(self).spec_cell(bank, button),
            finished@,
        ) by {
            assert(0 <= spec_cell_index(bank, button) < 12);
        }
    }

    /// Clear the whole table for shutdown, handing out the worker token of
    /// every session that was still active: each must be force-flagged and
    /// joined before the daemon exits.
    pub fn stop_all(&mut self) -> (r: Vec<u64>)
        requires
            old(self).wf(),
        ensures
            final(self).wf(),
            final(self).caches_unchanged(old(self)),
            forall|bank: SampleBank, button: SampleButtons|
                final(self).spec_cell(bank, button) is None,
            forall|bank: SampleBank, button: SampleButtons|
                old(self).spec_cell(bank, button) is Some ==> r@.contains(
                    old(self).spec_cell(bank, button)->0.worker,
                ),
            forall|k: int| 0 <= k < r@.len() ==> old(self).has_worker(#[trigger] r@[k]),
    {
        let mut workers: Vec<u64> = Vec::new();
        let mut i: usize = 0;
        while i < 12
            invariant
                old(self).wf(),
                self.wf(),
                i <= 12,
                self.output_device.name == old(self).output_device.name,
                self.output_device.last_checked_ms == old(self).output_device.last_checked_ms,
                self.input_device.name == old(self).input_device.name,
                self.input_device.last_checked_ms == old(self).input_device.last_checked_ms,
                forall|j: int| 0 <= j < i ==> self.active_streams@[j] is None,
                forall|j: int| i <= j < 12 ==> self.active_streams@[j] == old(
                    self,
                ).active_streams@[j],
                forall|j: int|
                    0 <= j < i && old(self).active_streams@[j] is Some ==> workers@.contains(
                        old(self).active_streams@[j]->0.worker,
                    ),
                forall|k: int| 0 <= k < workers@.len() ==> old(self).has_worker(
                    #[trigger] workers@[k],
                ),
            decreases 12 - i,
        {
            match self.active_streams[i] {
                Some(s) => {
                    let ghost pre = workers@;
                    workers.push(s.worker);
                    self.active_streams.set(i, None);
                    proof {
                        assert forall|x: u64| pre.contains(x) implies workers@.contains(x) by {
                            let idx = choose|idx: int| 0 <= idx < pre.len() && pre[idx] == x;
                            assert(workers@[idx] == x);
                        }
                        assert(workers@[pre.len() as int] == s.worker);
                        assert(workers@.contains(s.worker));
                        let (bank, button) = lemma_some_pair_has_index(i as int);
                        assert(old(self).spec_cell(bank, button)
                            == old(self).active_streams@[i as int]);
                        assert(old(self).has_worker(s.worker));
                    }
                },
                None => {},
            }
            i += 1;
        }
        assert forall|bank: SampleBank, button: SampleButtons|
            self.spec_cell(bank, button) is None by {
            assert(0 <= spec_cell_index(bank, button) < 12);
        }
        assert forall|bank: SampleBank, button: SampleButtons|
            old(self).spec_cell(bank, button) is Some implies workers@.contains(
            old(self).spec_cell(bank, button)->0.worker,
        ) by {
            assert(0 <= spec_cell_index(bank, button) < 12);
        }
        workers
    }

    /// Starting a recording is represented structurally but not implemented:
    /// a defined no-op that succeeds and changes nothing.
    pub fn record_for_button(&mut self, bank: SampleBank, button: SampleButtons) -> (r: Result<
        (),
        AudioError,
    >)
        requires
            old(self).wf(),
        ensures
            *final(self) == *old(self),
            r is Ok,
    {
        Ok(())
    }

    /// Whether the endpoint cache of a direction must be re-resolved at
    /// `now_ms` before the next playback or recording trigger.
    pub fn needs_device_check(&self, is_output: bool, now_ms: u64) -> (r: bool)
        ensures
            r == if is_output {
                self.spec_needs_output_check(now_ms)
            } else {
                self.spec_needs_input_check(now_ms)
            },
    {
        let cache = if is_output {
            &self.output_device
        } else {
            &self.input_device
        };
        if cache.name.is_none() {
            return true;
        }
        match cache.last_checked_ms {
            None => true,
            Some(last) => now_ms > DEVICE_CACHE_WINDOW_MS && last < now_ms
                - DEVICE_CACHE_WINDOW_MS,
        }
    }

    /// Resolve the output endpoint from a fresh enumeration of the system's
    /// output devices: the first name matching any known pattern wins, and
    /// the check time is recorded either way. Absence of a match is not an
    /// error here; only a later playback trigger fails on it.
    pub fn find_output_device(&mut self, now_ms: u64, device_list: &Vec<String>)
        requires
            old(self).wf(),
        ensures
            final(self).wf(),
            forall|bank: SampleBank, button: SampleButtons|
                final(self).spec_cell(bank, button) == old(self).spec_cell(bank, button),
            final(self).spec_input_device() == old(self).spec_input_device(),
            final(self).spec_input_last_checked() == old(self).spec_input_last_checked(),
            final(self).spec_output_last_checked() == Some(now_ms),
            match final(self).spec_output_device() {
                None => forall|j: int|
                    0 <= j < device_list@.len() ==> !output_device_matches(device_list@[j]@),
                Some(name) => exists|j: int|
                    {
                        &&& 0 <= j < device_list@.len()
                        &&& name == device_list@[j]@
                        &&& output_device_matches(name)
                        &&& forall|k: int|
                            0 <= k < j ==> !output_device_matches(device_list@[k]@)
                    },
            },
    {
        let n = device_list.len();
        let mut i: usize = 0;
        while i < n
            invariant
                i <= n,
                n == device_list@.len(),
                old(self).wf(),
                forall|j: int| 0 <= j < i ==> !output_device_matches(device_list@[j]@),
                *self == *old(self),
            decreases n - i,
        {
            if matches_output_device(device_list[i].as_str()) {
                self.output_device.name = Some(device_list[i].clone());
                self.output_device.last_checked_ms = Some(now_ms);
                return ;
            }
            i += 1;
        }
        self.output_device.name = None;
        self.output_device.last_checked_ms = Some(now_ms);
    }

    /// Resolve the input endpoint from a fresh enumeration of the system's
    /// input devices, in the same way.
    pub fn find_input_device(&mut self, now_ms: u64, device_list: &Vec<String>)
        requires
            old(self).wf(),
        ensures
            final(self).wf(),
            forall|bank: SampleBank, button: SampleButtons|
                final(self).spec_cell(bank, button) == old(self).spec_cell(bank, button),
            final(self).spec_output_device() == old(self).spec_output_device(),
            final(self).spec_output_last_checked() == old(self).spec_output_last_checked(),
            final(self).spec_input_last_checked() == Some(now_ms),
            match final(self).spec_input_device() {
                None => forall|j: int|
                    0 <= j < device_list@.len() ==> !input_device_matches(device_list@[j]@),
                Some(name) => exists|j: int|
                    {
                        &&& 0 <= j < device_list@.len()
                        &&& name == device_list@[j]@
                        &&& input_device_matches(name)
                        &&& forall|k: int| 0 <= k < j ==> !input_device_matches(device_list@[k]@)
                    },
            },
    {
        let n = device_list.len();
        let mut i: usize = 0;
        while i < n
            invariant
                i <= n,
                n == device_list@.len(),
                old(self).wf(),
                forall|j: int| 0 <= j < i ==> !input_device_matches(device_list@[j]@),
                *self == *old(self),
            decreases n - i,
        {
            if matches_input_device(device_list[i].as_str()) {
                self.input_device.name = Some(device_list[i].clone());
                self.input_device.last_checked_ms = Some(now_ms);
                return ;
            }
            i += 1;
        }
        self.input_device.name = None;
        self.input_device.last_checked_ms = Some(now_ms);
    }
}

/// A resolved, once-checked output endpoint is served from the cache for the
/// whole staleness window and re-resolved exactly when the window has
/// elapsed; the input cache behaves the same way.
pub proof fn lemma_device_cache_window(h: &AudioHandler, now_ms: u64)
    requires
        h.spec_output_device() is Some,
        h.spec_output_last_checked() is Some,
        h.spec_input_device() is Some,
        h.spec_input_last_checked() is Some,
    ensures
        h.spec_needs_output_check(now_ms) <==> now_ms > h.spec_output_last_checked()->0
            + DEVICE_CACHE_WINDOW_MS,
        h.spec_needs_input_check(now_ms) <==> now_ms > h.spec_input_last_checked()->0
            + DEVICE_CACHE_WINDOW_MS,
{
}

} // verus!
