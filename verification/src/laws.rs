//! What holds of every session, proved from the transitions.

use vstd::prelude::*;
use crate::fraction::{
    clamped, lemma_portion_bounds, lemma_portion_round_trip, lemma_reached_bounds, portion,
    reached, FRACTION_ONE,
};
use crate::session::{effective_total, Action, Opened, Phase, SessionError, SessionState};

verus! {

/// A new session is valid, and every command leaves a valid session valid.
/// So the progress and the volume always lie between zero and one, a
/// session without a track is at the start with no duration known, and a
/// session holds a pipeline, whose duration it knows, exactly while it is
/// playing or paused.
pub proof fn law_validity_is_kept<H>(
    s: SessionState<H>,
    path: Seq<char>,
    now: int,
    level: int,
    outcome: Result<Opened<H>, SessionError>,
)
    requires
        s.wf(),
    ensures
        SessionState::<H>::empty(clamped(level)).wf(),
        s.select_file(path).wf(),
        s.toggle_play_pause(now).wf(),
        s.seek(level).wf(),
        s.replay().wf(),
        s.reset().wf(),
        s.set_volume(level).wf(),
        s.complete_open(now, outcome).wf(),
        s.poll(now).wf(),
{
    if s.phase == Phase::Playing {
        lemma_reached_bounds(s.running_time(now), s.total_or_zero());
    }
}

/// At most one pipeline is live, and the session owns it. A pipeline comes
/// to the session only through an open that it takes up, which it does only
/// while it holds none. Play, pause and the volume leave the pipeline where
/// it is; selecting, seeking, replaying, resetting and the end of the track
/// drop it. The session asks for a pipeline to be opened only when it holds
/// none, and for one to be paused, resumed or told a volume only when it
/// holds one.
pub proof fn law_single_pipeline<H>(
    s: SessionState<H>,
    path: Seq<char>,
    now: int,
    level: u32,
    outcome: Result<Opened<H>, SessionError>,
)
    requires
        s.wf(),
    ensures
        s.has_handle() <==> s.phase == Phase::Playing || s.phase == Phase::Paused,
        s.accepts(outcome) ==> !s.has_handle(),
        s.accepts(outcome) ==> s.complete_open(now, outcome).handle == Some(outcome->Ok_0.handle),
        !s.accepts(outcome) ==> s.complete_open(now, outcome) == s,
        s.toggle_play_pause(now).handle == s.handle,
        s.set_volume(level as int).handle == s.handle,
        s.select_file(path).handle is None,
        s.seek(level as int).handle is None,
        s.replay().handle is None,
        s.reset().handle is None,
        s.poll(now).handle == if s.ended_at(now) {
            None
        } else {
            s.handle
        },
        s.toggle_action() == Action::Open ==> !s.toggle_play_pause(now).has_handle(),
        s.seek_action() == Action::Open ==> !s.seek(level as int).has_handle(),
        s.replay_action() == Action::Open ==> !s.replay().has_handle(),
        s.toggle_action() == Action::Pause || s.toggle_action() == Action::Resume
            ==> s.toggle_play_pause(now).has_handle(),
        s.volume_action(level) != Action::Nothing ==> s.set_volume(level as int).has_handle(),
{
}

/// Seeking while paused opens no pipeline, and a poll at any later instant
/// shows exactly the fraction that was sought.
pub proof fn law_seek_while_paused<H>(s: SessionState<H>, fraction: int, now: int)
    requires
        s.wf(),
        s.phase == Phase::Paused,
        0 <= fraction <= FRACTION_ONE,
    ensures
        s.seek_action() == Action::Nothing,
        s.seek(fraction).poll(now).progress == fraction,
        s.seek(fraction).poll(now) == s.seek(fraction),
        !s.seek(fraction).has_handle(),
{
}

/// Playing a stopped track, whose duration is not zero, and polling at the
/// instant at which it started: the session asks for a pipeline, takes a
/// successful open up, and then shows the progress that it had, less at most
/// what rounding to whole nanoseconds takes. A track at its start shows
/// exactly zero. The session is playing unless its progress was already one.
pub proof fn law_play_from_stopped<H>(s: SessionState<H>, now: int, opened: Opened<H>)
    requires
        s.wf(),
        s.phase == Phase::Stopped,
        effective_total(opened.total) > 0,
    ensures
        s.toggle_action() == Action::Open,
        s.toggle_play_pause(now) == s,
        s.open_result(Ok(opened)) is Ok,
        s.complete_open(now, Ok(opened)).phase == Phase::Playing,
        s.complete_open(now, Ok(opened)).poll(now).progress <= s.progress,
        (s.progress - s.complete_open(now, Ok(opened)).poll(now).progress) * effective_total(
            opened.total,
        ) < FRACTION_ONE + effective_total(opened.total),
        s.progress == 0 ==> s.complete_open(now, Ok(opened)).poll(now).progress == 0,
        s.progress == 0 ==> s.complete_open(now, Ok(opened)).poll(now).position(now) == 0,
        s.progress < FRACTION_ONE ==> s.complete_open(now, Ok(opened)).poll(now).phase
            == Phase::Playing,
{
    let total: int = effective_total(opened.total);
    lemma_portion_bounds(total, s.progress);
    lemma_portion_round_trip(total, s.progress);
    let playing = s.complete_open(now, Ok(opened));
    assert(playing.running_time(now) == portion(total, s.progress));
    lemma_reached_bounds(portion(total, s.progress), total);
    if s.progress == FRACTION_ONE {
        assert((s.progress - playing.poll(now).progress) * total == 0) by (nonlinear_arith)
            requires
                s.progress - playing.poll(now).progress == 0,
        ;
    }
}

/// Resetting twice is resetting once: the session is empty and holds no
/// pipeline.
pub proof fn law_reset_is_idempotent<H>(s: SessionState<H>)
    ensures
        s.reset().reset() == s.reset(),
        s.reset().phase == Phase::Empty,
        s.reset().track is None,
        s.reset().handle is None,
{
}

/// A poll at or after the end of a playing track drops the pipeline, stops
/// the session at full progress and shows the whole duration as elapsed. The
/// next play or pause then asks for a new pipeline, as from any stopped
/// session, and resumes nothing.
pub proof fn law_end_of_track<H>(s: SessionState<H>, now: int, later: int)
    requires
        s.wf(),
        s.phase == Phase::Playing,
        s.running_time(now) >= s.total_or_zero(),
    ensures
        s.poll(now).phase == Phase::Stopped,
        s.poll(now).progress == FRACTION_ONE,
        s.poll(now).position(now) == s.total_or_zero(),
        s.poll(now).handle is None,
        s.poll(now).toggle_action() == Action::Open,
        s.poll(now).toggle_play_pause(later) == s.poll(now),
{
    lemma_portion_bounds(s.total_or_zero(), FRACTION_ONE as int);
}

/// Only setting the volume changes the volume.
pub proof fn law_volume_is_kept<H>(
    s: SessionState<H>,
    path: Seq<char>,
    now: int,
    fraction: int,
    outcome: Result<Opened<H>, SessionError>,
)
    ensures
        s.select_file(path).volume == s.volume,
        s.toggle_play_pause(now).volume == s.volume,
        s.seek(fraction).volume == s.volume,
        s.replay().volume == s.volume,
        s.reset().volume == s.volume,
        s.complete_open(now, outcome).volume == s.volume,
        s.poll(now).volume == s.volume,
{
}

/// A volume set before a seek is the volume of the session after it, and
/// still so once the pipeline that a playing session asks for has been
/// opened.
pub proof fn law_volume_persists_across_seek<H>(
    s: SessionState<H>,
    level: u32,
    fraction: int,
    now: int,
    opened: Opened<H>,
)
    requires
        s.wf(),
    ensures
        s.set_volume(level as int).seek(fraction).volume == clamped(level as int),
        s.phase == Phase::Playing ==> s.volume_action(level) == Action::SetVolume(
            clamped(level as int) as u32,
        ),
        s.phase == Phase::Playing ==> s.set_volume(level as int).seek_action() == Action::Open,
        s.phase == Phase::Playing ==> s.set_volume(level as int).seek(fraction).complete_open(
            now,
            Ok(opened),
        ).phase == Phase::Playing,
        s.set_volume(level as int).seek(fraction).complete_open(now, Ok(opened)).volume == clamped(
            level as int,
        ),
{
}

/// Pausing and resuming: the progress is frozen at the position of the pause
/// and no poll moves it while paused. After resuming, at whatever instant, an
/// immediate poll shows the frozen progress, less at most what rounding to
/// whole nanoseconds takes, so the time spent paused does not count. The
/// session plays again unless the frozen progress was already one.
///
/// Left out is a track without duration paused at an instant before its
/// start, of which this does not hold.
pub proof fn law_pause_resume_round_trip<H>(s: SessionState<H>, paused_at: int, resumed_at: int)
    requires
        s.wf(),
        s.phase == Phase::Playing,
        s.total_or_zero() > 0 || s.running_time(paused_at) >= 0,
    ensures
        s.toggle_action() == Action::Pause,
        s.toggle_play_pause(paused_at).phase == Phase::Paused,
        s.toggle_play_pause(paused_at).progress == reached(
            s.running_time(paused_at),
            s.total_or_zero(),
        ),
        s.toggle_play_pause(paused_at).poll(resumed_at) == s.toggle_play_pause(paused_at),
        s.toggle_play_pause(paused_at).toggle_action() == Action::Resume,
        s.toggle_play_pause(paused_at).toggle_play_pause(resumed_at).phase == Phase::Playing,
        s.toggle_play_pause(paused_at).toggle_play_pause(resumed_at).poll(resumed_at).progress
            <= s.toggle_play_pause(paused_at).progress,
        (s.toggle_play_pause(paused_at).progress - s.toggle_play_pause(paused_at).toggle_play_pause(
            resumed_at,
        ).poll(resumed_at).progress) * s.total_or_zero() < FRACTION_ONE + s.total_or_zero(),
        s.toggle_play_pause(paused_at).progress < FRACTION_ONE ==> s.toggle_play_pause(
            paused_at,
        ).toggle_play_pause(resumed_at).poll(resumed_at).phase == Phase::Playing,
{
    let total: int = s.total_or_zero();
    let paused = s.toggle_play_pause(paused_at);
    let resumed = paused.toggle_play_pause(resumed_at);
    let polled = resumed.poll(resumed_at);
    lemma_reached_bounds(s.running_time(paused_at), total);
    lemma_portion_bounds(total, paused.progress);
    assert(resumed.running_time(resumed_at) == portion(total, paused.progress));
    lemma_reached_bounds(portion(total, paused.progress), total);
    if total > 0 {
        lemma_portion_round_trip(total, paused.progress);
        if paused.progress == FRACTION_ONE {
            assert((paused.progress - polled.progress) * total == 0) by (nonlinear_arith)
                requires
                    paused.progress - polled.progress == 0,
            ;
        }
    } else {
        assert(paused.progress == FRACTION_ONE);
        assert(polled.progress == FRACTION_ONE);
        assert((paused.progress - polled.progress) * total == 0) by (nonlinear_arith)
            requires
                total == 0,
        ;
    }
}

/// Polling twice at one instant is polling once: the second poll changes
/// nothing. A poll does not move the position either: it shows the position
/// that the session had at that instant.
pub proof fn law_poll_is_idempotent<H>(s: SessionState<H>, now: int)
    requires
        s.wf(),
    ensures
        s.poll(now).poll(now) == s.poll(now),
        s.poll(now).position(now) == s.position(now),
{
    if s.phase == Phase::Playing {
        lemma_reached_bounds(s.running_time(now), s.total_or_zero());
        lemma_portion_bounds(s.total_or_zero(), FRACTION_ONE as int);
    }
}

/// While the session does not play, the position is frozen: no poll changes
/// the session, and what is shown does not depend on the instant.
pub proof fn law_frozen_while_not_playing<H>(s: SessionState<H>, now: int, later: int)
    requires
        s.phase != Phase::Playing,
    ensures
        s.poll(now) == s,
        s.position(now) == s.position(later),
        s.progress_at(now) == s.progress,
{
}

/// Playing after a seek starts at the target: once a pipeline has been
/// opened, the position is the target's portion of the total duration. A
/// session that was playing asks for that pipeline with the seek itself; any
/// other asks for it when it is next told to play.
pub proof fn law_seek_then_play_starts_at_target<H>(
    s: SessionState<H>,
    fraction: int,
    now: int,
    opened: Opened<H>,
)
    requires
        s.wf(),
        s.phase != Phase::Empty,
        0 <= fraction <= FRACTION_ONE,
    ensures
        s.seek(fraction).phase == Phase::Stopped,
        s.seek(fraction).progress == fraction,
        s.seek_action() == Action::Open <==> s.phase == Phase::Playing,
        s.seek(fraction).toggle_action() == Action::Open,
        s.seek(fraction).start_offset(opened.total) == portion(
            effective_total(opened.total),
            fraction,
        ),
        s.seek(fraction).complete_open(now, Ok(opened)).phase == Phase::Playing,
        s.seek(fraction).complete_open(now, Ok(opened)).position(now) == portion(
            effective_total(opened.total),
            fraction,
        ),
{
    lemma_portion_bounds(effective_total(opened.total), fraction);
}

/// Replaying is seeking to the start and playing, whatever the phase was:
/// the session drops its pipeline and asks for a new one, and once that has
/// been opened the track plays from its start.
pub proof fn law_replay_plays_from_start<H>(s: SessionState<H>, now: int, opened: Opened<H>)
    requires
        s.wf(),
        s.phase != Phase::Empty,
    ensures
        s.replay() == s.seek(0),
        s.replay_action() == Action::Open,
        s.replay().handle is None,
        s.replay().start_offset(opened.total) == 0,
        s.replay().complete_open(now, Ok(opened)).phase == Phase::Playing,
        s.replay().complete_open(now, Ok(opened)).handle == Some(opened.handle),
        s.replay().complete_open(now, Ok(opened)).running_time(now) == 0,
        s.replay().complete_open(now, Ok(opened)).position(now) == 0,
        effective_total(opened.total) > 0 ==> s.replay().complete_open(now, Ok(opened)).poll(
            now,
        ).progress == 0,
{
    lemma_portion_bounds(effective_total(opened.total), 0);
}

/// A failure to open a pipeline changes nothing, whatever the phase, and is
/// handed back as it came.
pub proof fn law_failed_open_changes_nothing<H>(s: SessionState<H>, now: int, error: SessionError)
    ensures
        s.complete_open(now, Err(error)) == s,
        s.open_result(Err(error)) == Err::<(), SessionError>(error),
        !s.accepts(Err(error)),
{
}

/// While a track plays, the position follows the clock: a poll shows the
/// offset at which the pipeline started plus the time since, kept between
/// zero and the total duration, and the progress is the fraction of the
/// total that this position has reached, rounded down.
pub proof fn law_position_follows_clock<H>(
    s: SessionState<H>,
    started_at: int,
    opened: Opened<H>,
    now: int,
)
    requires
        s.wf(),
        s.phase == Phase::Stopped,
        started_at <= now,
    ensures
        s.complete_open(started_at, Ok(opened)).total == Some(effective_total(opened.total)),
        s.complete_open(started_at, Ok(opened)).running_time(now) == s.start_offset(opened.total)
            + (now - started_at),
        s.complete_open(started_at, Ok(opened)).poll(now).progress == reached(
            s.start_offset(opened.total) + (now - started_at),
            effective_total(opened.total),
        ),
        s.complete_open(started_at, Ok(opened)).poll(now).position(now) == if s.start_offset(
            opened.total,
        ) + (now - started_at) >= effective_total(opened.total) {
            effective_total(opened.total)
        } else {
            s.start_offset(opened.total) + (now - started_at)
        },
        s.progress == 0 ==> s.start_offset(opened.total) == 0,
{
    let total: int = effective_total(opened.total);
    lemma_portion_bounds(total, s.progress);
    lemma_portion_bounds(total, FRACTION_ONE as int);
    let playing = s.complete_open(started_at, Ok(opened));
    lemma_reached_bounds(playing.running_time(now), total);
}

} // verus!
