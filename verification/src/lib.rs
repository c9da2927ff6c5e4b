//! A playback session for one local audio track.
//!
//! The session is a state machine over four phases: no track, a track with
//! no pipeline, playing, and paused. It keeps the selected track, the volume
//! and the playback position, and it decides what each transport command
//! does. It never touches a file or an audio device itself. The pipeline,
//! the live pairing of a decoder and an output sink, is a type of the
//! caller's that releases both when it is dropped. The session owns at most
//! one, and drops it wherever a command tears the pipeline down:
//!
//! - the caller gives a command, such as [`AudioPlayer::toggle_play_pause`],
//!   and performs the [`Action`] that comes back on the pipeline that
//!   [`AudioPlayer::handle`] lends;
//! - where the action asks for a pipeline, the caller opens the decoder,
//!   asks [`AudioPlayer::open_plan`] where output has to start and how loud,
//!   starts the sink, and hands the outcome, the pipeline or the failure, to
//!   [`AudioPlayer::complete_open`];
//! - on every refresh the caller calls [`AudioPlayer::poll`] and shows the
//!   [`Snapshot`]; the poll that finds the track run out drops the pipeline.
//!
//! Time is counted in nanoseconds on a clock chosen by the caller. Levels
//! between zero and one, the volume and the progress through the track, are
//! counted in millionths. The session takes `&mut self` for every command, so
//! one command runs at a time; a caller that shares a session between
//! threads keeps it behind one lock.
//!
//! What holds of every session is proved in [`laws`], over the transitions
//! defined in [`session`].

pub mod clock;
pub mod fraction;
pub mod laws;
pub mod player;
pub mod session;

pub use clock::{clock_label, NANOS_PER_SECOND};
pub use fraction::{clamp_fraction, fraction_reached, portion_of, FRACTION_ONE};
pub use player::{AudioPlayer, OpenPlan};
pub use session::{
    Action, Opened, Phase, SessionError, SessionState, Snapshot, DEFAULT_DURATION,
};
