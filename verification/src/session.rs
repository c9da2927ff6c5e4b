//! The playback session as a mathematical state machine: its states, the
//! transition that each command makes, and the work on the pipeline that
//! each transition asks of the caller.

use vstd::prelude::*;
use crate::fraction::{clamped, portion, reached, FRACTION_ONE};

verus! {

/// The total duration assumed for a track that does not tell its own: three
/// minutes, in nanoseconds.
pub const DEFAULT_DURATION: u64 = 180_000_000_000;

/// Where the session stands.
#[derive(Clone, Copy, Debug, PartialEq, Eq, Structural)]
pub enum Phase {
    /// No track is selected.
    Empty,
    /// A track is selected and no pipeline is live.
    Stopped,
    /// A pipeline is live and produces sound.
    Playing,
    /// A pipeline is live and holds silence; the position is frozen.
    Paused,
}

/// Why a pipeline could not be opened.
#[derive(Clone, Copy, Debug, PartialEq, Eq, Structural)]
pub enum SessionError {
    /// The track's file cannot be read.
    FileOpenFailed,
    /// The container or codec of the track is not recognised.
    DecodeUnsupported,
    /// The output device is busy or absent.
    DeviceUnavailable,
}

/// The work on the pipeline that a command asks of the caller.
#[derive(Clone, Copy, Debug, PartialEq, Eq, Structural)]
pub enum Action {
    /// Nothing is to be done.
    Nothing,
    /// Hold the live pipeline silent.
    Pause,
    /// Let the live pipeline produce sound again.
    Resume,
    /// Apply this volume, in millionths, to the live pipeline.
    SetVolume(u32),
    /// Open a pipeline for the selected track and report the outcome.
    Open,
}

/// A pipeline that has been opened and produces sound.
pub struct Opened<H> {
    /// The pipeline itself. Dropping it releases the decoder and the device.
    pub handle: H,
    /// The total duration of the track in nanoseconds, if the decoder knows it.
    pub total: Option<u64>,
}

/// What a poll reports for display.
#[derive(Clone, Copy, Debug, PartialEq, Eq, Structural)]
pub struct Snapshot {
    /// The phase after the poll.
    pub state: Phase,
    /// Playback time since the start of the track, never above `total`.
    pub elapsed: u64,
    /// Total duration of the track, zero while it is not known.
    pub total: u64,
    /// Progress through the track, in millionths.
    pub fraction: u32,
}

/// The state of a session, as contracts speak of it.
pub struct SessionState<H> {
    /// Path of the selected track.
    pub track: Option<Seq<char>>,
    /// Where the session stands.
    pub phase: Phase,
    /// The live pipeline.
    pub handle: Option<H>,
    /// Volume, in millionths.
    pub volume: int,
    /// Progress through the track, in millionths.
    pub progress: int,
    /// Total duration of the track in nanoseconds, once a pipeline has told it.
    pub total: Option<int>,
    /// While playing: the instant at which the start of the track would have
    /// sounded, had it played without interruption up to now.
    pub anchor: Option<int>,
}

/// The total duration that a pipeline yields: its own, or the default where
/// it does not know one.
pub open spec fn effective_total(found: Option<u64>) -> int {
    match found {
        Some(total) => total as int,
        None => DEFAULT_DURATION as int,
    }
}

impl<H> SessionState<H> {
    /// The combinations of fields that a session can be in. A pipeline is
    /// held exactly while playing or paused.
    pub open spec fn wf(self) -> bool {
        &&& 0 <= self.volume <= FRACTION_ONE
        &&& 0 <= self.progress <= FRACTION_ONE
        &&& (self.phase == Phase::Empty <==> self.track is None)
        &&& (self.phase == Phase::Empty ==> self.progress == 0 && self.total is None)
        &&& (self.handle is Some <==> self.phase == Phase::Playing || self.phase == Phase::Paused)
        &&& (self.handle is Some ==> self.total is Some)
        &&& (self.total matches Some(total) ==> 0 <= total)
        &&& (self.anchor is Some <==> self.phase == Phase::Playing)
    }

    /// The state of a new session with the given volume.
    pub open spec fn empty(volume: int) -> SessionState<H> {
        SessionState {
            track: None,
            phase: Phase::Empty,
            handle: None,
            volume,
            progress: 0,
            total: None,
            anchor: None,
        }
    }

    /// Whether a pipeline is live.
    pub open spec fn has_handle(self) -> bool {
        self.handle is Some
    }

    /// The total duration, zero while it is not known.
    pub open spec fn total_or_zero(self) -> int {
        match self.total {
            Some(total) => total,
            None => 0,
        }
    }

    /// While playing: the time for which the track has sounded at `now`,
    /// before any clamping.
    pub open spec fn running_time(self, now: int) -> int {
        now - self.anchor->Some_0
    }

    /// Whether the track, while playing, has come to its end at `now`.
    pub open spec fn ended_at(self, now: int) -> bool {
        self.phase == Phase::Playing && self.running_time(now) >= self.total_or_zero()
    }

    /// The progress that the position at `now` amounts to.
    pub open spec fn progress_at(self, now: int) -> int {
        if self.phase == Phase::Playing {
            reached(self.running_time(now), self.total_or_zero())
        } else {
            self.progress
        }
    }

    /// The playback time to display at `now`: the running time kept between
    /// zero and the total while playing, else the frozen progress taken of
    /// the total.
    pub open spec fn position(self, now: int) -> int {
        if self.phase == Phase::Playing {
            let running: int = self.running_time(now);
            if running >= self.total_or_zero() {
                self.total_or_zero()
            } else if running <= 0 {
                0
            } else {
                running
            }
        } else {
            portion(self.total_or_zero(), self.progress)
        }
    }

    /// Selecting a track: the pipeline goes, the track is replaced and the
    /// position starts anew.
    pub open spec fn select_file(self, path: Seq<char>) -> SessionState<H> {
        SessionState {
            track: Some(path),
            phase: Phase::Stopped,
            handle: None,
            volume: self.volume,
            progress: 0,
            total: None,
            anchor: None,
        }
    }

    /// Play or pause. Playing freezes the progress at its value at `now` and
    /// pauses; paused anchors the frozen position at `now` and plays. With no
    /// pipeline live nothing changes until one has been opened.
    pub open spec fn toggle_play_pause(self, now: int) -> SessionState<H> {
        match self.phase {
            Phase::Playing => SessionState {
                phase: Phase::Paused,
                progress: self.progress_at(now),
                anchor: None,
                ..self
            },
            Phase::Paused => SessionState {
                phase: Phase::Playing,
                anchor: Some(now - portion(self.total_or_zero(), self.progress)),
                ..self
            },
            _ => self,
        }
    }

    /// The work that play or pause asks for.
    pub open spec fn toggle_action(self) -> Action {
        match self.phase {
            Phase::Empty => Action::Nothing,
            Phase::Stopped => Action::Open,
            Phase::Playing => Action::Pause,
            Phase::Paused => Action::Resume,
        }
    }

    /// Seeking: the pipeline, if any, goes, and the progress becomes the
    /// target. Without a track nothing changes.
    pub open spec fn seek(self, fraction: int) -> SessionState<H> {
        match self.phase {
            Phase::Empty => self,
            _ => SessionState {
                phase: Phase::Stopped,
                handle: None,
                progress: clamped(fraction),
                anchor: None,
                ..self
            },
        }
    }

    /// The work that seeking asks for: only a session that was playing has a
    /// pipeline opened again at once.
    pub open spec fn seek_action(self) -> Action {
        match self.phase {
            Phase::Playing => Action::Open,
            _ => Action::Nothing,
        }
    }

    /// Replaying: as seeking to the start.
    pub open spec fn replay(self) -> SessionState<H> {
        self.seek(0)
    }

    /// The work that replaying asks for: a pipeline is opened whatever the
    /// phase was, as long as a track is selected.
    pub open spec fn replay_action(self) -> Action {
        match self.phase {
            Phase::Empty => Action::Nothing,
            _ => Action::Open,
        }
    }

    /// Resetting: the pipeline and the track go; only the volume stays.
    pub open spec fn reset(self) -> SessionState<H> {
        SessionState::empty(self.volume)
    }

    /// Setting the volume.
    pub open spec fn set_volume(self, level: int) -> SessionState<H> {
        SessionState { volume: clamped(level), ..self }
    }

    /// The work that setting the volume asks for: a live pipeline is told.
    pub open spec fn volume_action(self, level: u32) -> Action {
        if self.has_handle() {
            Action::SetVolume(clamped(level as int) as u32)
        } else {
            Action::Nothing
        }
    }

    /// Whether the outcome of opening a pipeline is taken up: it has to be a
    /// success, and the session has to be stopped.
    pub open spec fn accepts(self, outcome: Result<Opened<H>, SessionError>) -> bool {
        self.phase == Phase::Stopped && outcome is Ok
    }

    /// The offset into the track at which a pipeline of the given total
    /// duration has to start.
    pub open spec fn start_offset(self, found: Option<u64>) -> int {
        portion(effective_total(found), self.progress)
    }

    /// Taking up the outcome of opening a pipeline whose output started at
    /// `now`: on success a stopped session holds the pipeline and plays from
    /// its progress. In every other case the session stays as it is.
    pub open spec fn complete_open(
        self,
        now: int,
        outcome: Result<Opened<H>, SessionError>,
    ) -> SessionState<H> {
        if self.accepts(outcome) {
            SessionState {
                phase: Phase::Playing,
                handle: Some(outcome->Ok_0.handle),
                total: Some(effective_total(outcome->Ok_0.total)),
                anchor: Some(now - self.start_offset(outcome->Ok_0.total)),
                ..self
            }
        } else {
            self
        }
    }

    /// What the caller is told of the outcome of opening a pipeline. A
    /// failure is handed on. A success is refused where no track is selected,
    /// as no file can have been read, and where a pipeline is live already,
    /// as it holds the device.
    pub open spec fn open_result(
        self,
        outcome: Result<Opened<H>, SessionError>,
    ) -> Result<(), SessionError> {
        match outcome {
            Err(error) => Err(error),
            Ok(_) => match self.phase {
                Phase::Stopped => Ok(()),
                Phase::Empty => Err(SessionError::FileOpenFailed),
                _ => Err(SessionError::DeviceUnavailable),
            },
        }
    }

    /// Polling at `now`: a playing session whose track has ended gives its
    /// pipeline up and stops at full progress; one that still plays takes the
    /// progress of its position; any other is left as it is.
    pub open spec fn poll(self, now: int) -> SessionState<H> {
        if self.ended_at(now) {
            SessionState {
                phase: Phase::Stopped,
                handle: None,
                progress: FRACTION_ONE as int,
                anchor: None,
                ..self
            }
        } else {
            SessionState { progress: self.progress_at(now), ..self }
        }
    }

    /// Whether a snapshot shows this state at `now`.
    pub open spec fn shown_by(self, now: int, snapshot: Snapshot) -> bool {
        &&& snapshot.state == self.phase
        &&& snapshot.elapsed == self.position(now)
        &&& snapshot.total == self.total_or_zero()
        &&& snapshot.fraction == self.progress
    }
}

} // verus!
