//! The playback session: one selected track, at most one live pipeline, and
//! the playback position reckoned from the caller's clock.

use vstd::prelude::*;
use crate::fraction::{
    clamp_fraction, fraction_reached, lemma_portion_bounds, lemma_reached_bounds, portion_of,
    FRACTION_ONE,
};
use crate::session::{
    effective_total, Action, Opened, Phase, SessionError, SessionState, Snapshot,
    DEFAULT_DURATION,
};

verus! {

/// What a pipeline has to be given when it is opened.
#[derive(Clone, Copy, Debug, PartialEq, Eq, Structural)]
pub struct OpenPlan {
    /// Offset into the track at which output starts, in nanoseconds.
    pub skip: u64,
    /// Total duration that the session will reckon with, in nanoseconds.
    pub total: u64,
    /// Volume to apply before output starts, in millionths.
    pub volume: u32,
}

/// What the session does with its pipeline.
enum Transport<H> {
    /// No pipeline is held.
    Idle,
    /// The pipeline produces sound; `anchor` is the instant at which the
    /// start of the track would have sounded.
    Playing { handle: H, anchor: i128 },
    /// The pipeline holds silence.
    Paused { handle: H },
}

impl<H> Transport<H> {
    spec fn handle(self) -> Option<H> {
        match self {
            Transport::Idle => None,
            Transport::Playing { handle, .. } => Some(handle),
            Transport::Paused { handle } => Some(handle),
        }
    }
}

/// A playback session for one track. `H` is the caller's pipeline: the live
/// pairing of a decoder and an output sink, which releases both when it is
/// dropped.
///
/// The session owns the pipeline from the moment it takes a successful open
/// up, and drops it on every command that tears it down. Commands change the
/// session at once and answer with the [`Action`] that the caller has to
/// perform. Where the action is [`Action::Open`], the session stays stopped
/// until the caller reports the outcome with [`AudioPlayer::complete_open`].
pub struct AudioPlayer<H> {
    audio_file: Option<String>,
    transport: Transport<H>,
    volume: u32,
    progress: u32,
    duration: Option<u64>,
}

impl<H> View for AudioPlayer<H> {
    type V = SessionState<H>;

    closed spec fn view(&self) -> SessionState<H> {
        SessionState {
            track: match self.audio_file {
                Some(path) => Some(path@),
                None => None,
            },
            phase: match self.transport {
                Transport::Idle => if self.audio_file is None {
                    Phase::Empty
                } else {
                    Phase::Stopped
                },
                Transport::Playing { .. } => Phase::Playing,
                Transport::Paused { .. } => Phase::Paused,
            },
            handle: self.transport.handle(),
            volume: self.volume as int,
            progress: self.progress as int,
            total: match self.duration {
                Some(total) => Some(total as int),
                None => None,
            },
            anchor: match self.transport {
                Transport::Playing { anchor, .. } => Some(anchor as int),
                _ => None,
            },
        }
    }
}

impl<H> AudioPlayer<H> {
    #[verifier::type_invariant]
    spec fn inv(self) -> bool {
        &&& self.volume <= FRACTION_ONE
        &&& self.progress <= FRACTION_ONE
        &&& (self.audio_file is None ==> self.transport is Idle && self.progress == 0
            && self.duration is None)
        &&& (!(self.transport is Idle) ==> self.duration is Some)
        &&& (self.transport matches Transport::Playing { anchor, .. } ==> -(u64::MAX as int)
            <= anchor <= u64::MAX as int)
    }

    /// A session without a track, at full volume.
    pub fn new() -> (player: AudioPlayer<H>)
        ensures
            player@ == SessionState::<H>::empty(FRACTION_ONE as int),
            player@.wf(),
    {
        AudioPlayer {
            audio_file: None,
            transport: Transport::Idle,
            volume: FRACTION_ONE,
            progress: 0,
            duration: None,
        }
    }

    /// Where the session stands.
    pub fn phase(&self) -> (phase: Phase)
        ensures
            phase == self@.phase,
            self@.wf(),
    {
        proof {
            use_type_invariant(self);
        }
        match &self.transport {
            Transport::Idle => if self.audio_file.is_none() {
                Phase::Empty
            } else {
                Phase::Stopped
            },
            Transport::Playing { .. } => Phase::Playing,
            Transport::Paused { .. } => Phase::Paused,
        }
    }

    /// The live pipeline, for the caller to perform an action on.
    pub fn handle(&self) -> (handle: Option<&H>)
        ensures
            handle is Some <==> self@.handle is Some,
            handle matches Some(live) ==> self@.handle == Some(*live),
            self@.wf(),
    {
        proof {
            use_type_invariant(self);
        }
        match &self.transport {
            Transport::Idle => None,
            Transport::Playing { handle, .. } => Some(handle),
            Transport::Paused { handle } => Some(handle),
        }
    }

    /// Whether a pipeline is live.
    pub fn has_handle(&self) -> (live: bool)
        ensures
            live == self@.has_handle(),
            self@.wf(),
    {
        proof {
            use_type_invariant(self);
        }
        match &self.transport {
            Transport::Idle => false,
            _ => true,
        }
    }

    /// Whether the session is playing.
    pub fn is_playing(&self) -> (playing: bool)
        ensures
            playing == (self@.phase == Phase::Playing),
            self@.wf(),
    {
        proof {
            use_type_invariant(self);
        }
        match &self.transport {
            Transport::Playing { .. } => true,
            _ => false,
        }
    }

    /// The path of the selected track.
    pub fn track(&self) -> (track: &Option<String>)
        ensures
            track is Some <==> self@.track is Some,
            track matches Some(path) ==> self@.track == Some(path@),
            self@.wf(),
    {
        proof {
            use_type_invariant(self);
        }
        &self.audio_file
    }

    /// The volume, in millionths.
    pub fn volume(&self) -> (level: u32)
        ensures
            level == self@.volume,
            level <= FRACTION_ONE,
            self@.wf(),
    {
        proof {
            use_type_invariant(self);
        }
        self.volume
    }

    /// The progress through the track as of the last command or poll, in
    /// millionths.
    pub fn progress(&self) -> (level: u32)
        ensures
            level == self@.progress,
            level <= FRACTION_ONE,
            self@.wf(),
    {
        proof {
            use_type_invariant(self);
        }
        self.progress
    }

    /// The total duration of the track in nanoseconds, once a pipeline has
    /// told it.
    pub fn total_duration(&self) -> (total: Option<u64>)
        ensures
            total is Some <==> self@.total is Some,
            total matches Some(nanos) ==> self@.total == Some(nanos as int),
            self@.wf(),
    {
        proof {
            use_type_invariant(self);
        }
        self.duration
    }

    /// Selects a track. A live pipeline is dropped, the position starts anew
    /// and the volume stays. The file is not touched before the first
    /// attempt to play it, so selecting cannot fail.
    pub fn select_file(&mut self, path: String)
        ensures
            final(self)@ == old(self)@.select_file(path@),
            final(self)@.wf(),
    {
        proof {
            use_type_invariant(&*self);
        }
        *self = AudioPlayer {
            audio_file: Some(path),
            transport: Transport::Idle,
            volume: self.volume,
            progress: 0,
            duration: None,
        };
    }

    /// Forgets the track. A live pipeline is dropped and only the volume
    /// stays.
    pub fn reset(&mut self)
        ensures
            final(self)@ == old(self)@.reset(),
            final(self)@.wf(),
    {
        proof {
            use_type_invariant(&*self);
        }
        *self = AudioPlayer {
            audio_file: None,
            transport: Transport::Idle,
            volume: self.volume,
            progress: 0,
            duration: None,
        };
    }

    /// Sets the volume, in millionths; a level above one counts as one. A
    /// live pipeline has to be told, and every pipeline opened later starts
    /// with this volume.
    pub fn set_volume(&mut self, level: u32) -> (action: Action)
        ensures
            final(self)@ == old(self)@.set_volume(level as int),
            action == old(self)@.volume_action(level),
            final(self)@.wf(),
    {
        proof {
            use_type_invariant(&*self);
        }
        let level_in_range: u32 = clamp_fraction(level);
        self.volume = level_in_range;
        match &self.transport {
            Transport::Idle => Action::Nothing,
            _ => Action::SetVolume(level_in_range),
        }
    }

    /// Plays or pauses at the instant `now`.
    ///
    /// A playing session freezes its progress at the position of `now` and
    /// pauses. A paused session plays on from its frozen progress, so that
    /// the time spent paused does not count. Both keep their pipeline. A
    /// stopped session asks for a pipeline and changes nothing. Without a
    /// track nothing happens.
    pub fn toggle_play_pause(&mut self, now: u64) -> (action: Action)
        ensures
            final(self)@ == old(self)@.toggle_play_pause(now as int),
            action == old(self)@.toggle_action(),
            final(self)@.wf(),
    {
        proof {
            use_type_invariant(&*self);
        }
        match self.phase() {
            Phase::Empty => Action::Nothing,
            Phase::Stopped => Action::Open,
            Phase::Playing => {
                let level: u32 = self.progress_at(now);
                self.progress = level;
                match self.take_handle() {
                    Some(handle) => {
                        self.transport = Transport::Paused { handle };
                    },
                    None => {},
                }
                Action::Pause
            },
            Phase::Paused => {
                let total: u64 = self.known_total();
                let offset: u64 = portion_of(total, self.progress);
                let anchor: i128 = now as i128 - offset as i128;
                match self.take_handle() {
                    Some(handle) => {
                        self.transport = Transport::Playing { handle, anchor };
                    },
                    None => {},
                }
                Action::Resume
            },
        }
    }

    /// Moves the position to `fraction`, in millionths; a fraction above one
    /// counts as one.
    ///
    /// A live pipeline is dropped. Only a session that was playing asks for
    /// a new pipeline at once, and stays stopped at the new position if that
    /// cannot be opened; any other opens one when it next plays. Without a
    /// track nothing happens.
    pub fn seek(&mut self, fraction: u32) -> (action: Action)
        ensures
            final(self)@ == old(self)@.seek(fraction as int),
            action == old(self)@.seek_action(),
            final(self)@.wf(),
    {
        proof {
            use_type_invariant(&*self);
        }
        let action = match &self.transport {
            Transport::Playing { .. } => Action::Open,
            _ => Action::Nothing,
        };
        if self.audio_file.is_some() {
            self.progress = clamp_fraction(fraction);
            self.transport = Transport::Idle;
        }
        action
    }

    /// Plays the track from its start, whatever the phase was. A live
    /// pipeline is dropped and a new one asked for. Without a track nothing
    /// happens.
    pub fn replay(&mut self) -> (action: Action)
        ensures
            final(self)@ == old(self)@.replay(),
            action == old(self)@.replay_action(),
            final(self)@.wf(),
    {
        proof {
            use_type_invariant(&*self);
        }
        if self.audio_file.is_some() {
            self.progress = 0;
            self.transport = Transport::Idle;
            Action::Open
        } else {
            Action::Nothing
        }
    }

    /// What a pipeline that is being opened has to be given, once its
    /// decoder has told the total duration of the track, or that it does not
    /// know it.
    pub fn open_plan(&self, found: Option<u64>) -> (plan: OpenPlan)
        ensures
            plan.total == effective_total(found),
            plan.skip == self@.start_offset(found),
            plan.skip <= plan.total,
            self@.progress == 0 ==> plan.skip == 0,
            self@.progress == FRACTION_ONE ==> plan.skip == plan.total,
            plan.volume == self@.volume,
            self@.wf(),
    {
        proof {
            use_type_invariant(self);
            lemma_portion_bounds(effective_total(found), self.progress as int);
        }
        let total: u64 = match found {
            Some(total) => total,
            None => DEFAULT_DURATION,
        };
        OpenPlan { skip: portion_of(total, self.progress), total, volume: self.volume }
    }

    /// Takes up the outcome of opening a pipeline: the pipeline with the
    /// total duration that its decoder told, or why it could not be opened.
    /// `now` is the instant at which output started.
    ///
    /// On success a stopped session takes the pipeline and plays from its
    /// progress. A failure is handed back and leaves the session as it was.
    /// A pipeline that the session cannot take, for want of a track or
    /// because it holds one already, is dropped before the error returns.
    pub fn complete_open(&mut self, now: u64, outcome: Result<Opened<H>, SessionError>) -> (result:
        Result<(), SessionError>)
        ensures
            final(self)@ == old(self)@.complete_open(now as int, outcome),
            result == old(self)@.open_result(outcome),
            result is Ok <==> old(self)@.accepts(outcome),
            final(self)@.wf(),
    {
        proof {
            use_type_invariant(&*self);
        }
        match outcome {
            Err(error) => Err(error),
            Ok(opened) => match self.phase() {
                Phase::Stopped => {
                    let plan = self.open_plan(opened.total);
                    let anchor: i128 = now as i128 - plan.skip as i128;
                    self.duration = Some(plan.total);
                    self.transport = Transport::Playing { handle: opened.handle, anchor };
                    Ok(())
                },
                Phase::Empty => Err(SessionError::FileOpenFailed),
                _ => Err(SessionError::DeviceUnavailable),
            },
        }
    }

    /// Brings the position up to the instant `now` and reports it.
    ///
    /// A playing session whose track has run out drops its pipeline and
    /// stops at full progress. One that still plays takes the progress of
    /// its position. A session that does not play is left as it is.
    pub fn poll(&mut self, now: u64) -> (snapshot: Snapshot)
        ensures
            final(self)@ == old(self)@.poll(now as int),
            final(self)@.shown_by(now as int, snapshot),
            snapshot.elapsed <= snapshot.total,
            snapshot.fraction <= FRACTION_ONE,
            final(self)@.wf(),
    {
        proof {
            use_type_invariant(&*self);
        }
        match &self.transport {
            Transport::Playing { anchor, .. } => {
                let total: u64 = self.known_total();
                let running: i128 = now as i128 - *anchor;
                if running >= total as i128 {
                    self.progress = FRACTION_ONE;
                    self.transport = Transport::Idle;
                    proof {
                        lemma_portion_bounds(total as int, FRACTION_ONE as int);
                    }
                    Snapshot {
                        state: Phase::Stopped,
                        elapsed: total,
                        total,
                        fraction: FRACTION_ONE,
                    }
                } else {
                    let level: u32 = self.progress_at(now);
                    self.progress = level;
                    let elapsed: u64 = if running <= 0 {
                        0
                    } else {
                        running as u64
                    };
                    Snapshot { state: Phase::Playing, elapsed, total, fraction: level }
                }
            },
            _ => {
                let total: u64 = match self.duration {
                    Some(total) => total,
                    None => 0,
                };
                Snapshot {
                    state: self.phase(),
                    elapsed: portion_of(total, self.progress),
                    total,
                    fraction: self.progress,
                }
            },
        }
    }

    /// Takes the pipeline out of the session, which is then idle.
    fn take_handle(&mut self) -> (handle: Option<H>)
        ensures
            handle == old(self).transport.handle(),
            final(self).transport is Idle,
            final(self).audio_file == old(self).audio_file,
            final(self).volume == old(self).volume,
            final(self).progress == old(self).progress,
            final(self).duration == old(self).duration,
    {
        proof {
            use_type_invariant(&*self);
        }
        let mut taken: Transport<H> = Transport::Idle;
        core::mem::swap(&mut self.transport, &mut taken);
        match taken {
            Transport::Idle => None,
            Transport::Playing { handle, .. } => Some(handle),
            Transport::Paused { handle } => Some(handle),
        }
    }

    fn known_total(&self) -> (total: u64)
        requires
            self.duration is Some,
        ensures
            total == self@.total_or_zero(),
            Some(total) == self.duration,
    {
        match self.duration {
            Some(total) => total,
            None => 0,
        }
    }

    fn progress_at(&self, now: u64) -> (level: u32)
        requires
            self.transport is Playing,
        ensures
            level == self@.progress_at(now as int),
            level <= FRACTION_ONE,
    {
        proof {
            use_type_invariant(self);
        }
        let total: u64 = self.known_total();
        let running: i128 = match &self.transport {
            Transport::Playing { anchor, .. } => now as i128 - *anchor,
            _ => 0,
        };
        proof {
            lemma_reached_bounds(running as int, total as int);
        }
        if running >= total as i128 {
            FRACTION_ONE
        } else if running <= 0 {
            0
        } else {
            fraction_reached(running as u64, total)
        }
    }
}

impl<H> Default for AudioPlayer<H> {
    /// A session without a track, at full volume.
    fn default() -> (player: AudioPlayer<H>)
        ensures
            player@ == SessionState::<H>::empty(FRACTION_ONE as int),
            player@.wf(),
    {
        AudioPlayer::new()
    }
}

} // verus!
