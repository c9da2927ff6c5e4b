use rusttune::{
    Action, AudioPlayer, Opened, Phase, SessionError, Snapshot, DEFAULT_DURATION, FRACTION_ONE,
};
use std::cell::RefCell;
use std::rc::Rc;

const SECOND: u64 = 1_000_000_000;

/// A pipeline that notes in a shared log when it is dropped.
struct Pipe {
    id: u32,
    dropped: Rc<RefCell<Vec<u32>>>,
}

impl Drop for Pipe {
    fn drop(&mut self) {
        self.dropped.borrow_mut().push(self.id);
    }
}

fn pipe(id: u32, dropped: &Rc<RefCell<Vec<u32>>>, total: Option<u64>) -> Opened<Pipe> {
    Opened { handle: Pipe { id, dropped: Rc::clone(dropped) }, total }
}

fn playing(total_seconds: u64, started_at: u64) -> AudioPlayer<u32> {
    let mut player = AudioPlayer::new();
    player.select_file(String::from("music/track.mp3"));
    assert_eq!(player.toggle_play_pause(started_at), Action::Open);
    let opened = Opened { handle: 1, total: Some(total_seconds * SECOND) };
    assert_eq!(player.complete_open(started_at, Ok(opened)), Ok(()));
    player
}

#[test]
fn two_minute_track_polled_after_thirty_seconds() {
    let mut player: AudioPlayer<u32> = AudioPlayer::new();
    player.select_file(String::from("song.wav"));
    assert_eq!(player.toggle_play_pause(0), Action::Open);
    let plan = player.open_plan(Some(120 * SECOND));
    assert_eq!(plan.skip, 0);
    assert_eq!(plan.total, 120 * SECOND);
    assert_eq!(plan.volume, FRACTION_ONE);
    let opened = Opened { handle: 7, total: Some(120 * SECOND) };
    assert_eq!(player.complete_open(0, Ok(opened)), Ok(()));
    let snapshot = player.poll(30 * SECOND);
    assert_eq!(snapshot.state, Phase::Playing);
    assert_eq!(snapshot.fraction, 250_000);
    assert_eq!(snapshot.elapsed, 30 * SECOND);
    assert_eq!(snapshot.total, 120 * SECOND);
    assert_eq!(snapshot.elapsed_label(), "00:30");
    assert_eq!(snapshot.total_label(), "02:00");
    assert_eq!(snapshot.time_label(), "00:30 / 02:00");
    assert_eq!(player.handle(), Some(&7));
}

#[test]
fn seek_while_paused_shows_the_fraction_and_opens_nothing() {
    let fractions: [u32; 6] = [0, 1, 300_000, 500_000, 999_999, 1_000_000];
    for fraction in fractions {
        let mut player = playing(120, 0);
        assert_eq!(player.toggle_play_pause(10 * SECOND), Action::Pause);
        assert_eq!(player.phase(), Phase::Paused);
        assert_eq!(player.seek(fraction), Action::Nothing);
        assert!(!player.has_handle());
        let snapshot = player.poll(77 * SECOND);
        assert_eq!(snapshot.fraction, fraction);
        assert_eq!(snapshot.state, Phase::Stopped);
        assert_eq!(player.progress(), fraction);
        assert!(!player.has_handle());
    }
}

#[test]
fn play_from_stopped_then_poll_at_once() {
    let mut player: AudioPlayer<u32> = AudioPlayer::new();
    player.select_file(String::from("a.mp3"));
    assert_eq!(player.phase(), Phase::Stopped);
    assert_eq!(player.toggle_play_pause(5 * SECOND), Action::Open);
    assert_eq!(player.phase(), Phase::Stopped);
    let opened = Opened { handle: 1, total: Some(200 * SECOND) };
    assert_eq!(player.complete_open(5 * SECOND, Ok(opened)), Ok(()));
    let snapshot = player.poll(5 * SECOND);
    assert_eq!(
        snapshot,
        Snapshot { state: Phase::Playing, elapsed: 0, total: 200 * SECOND, fraction: 0 }
    );
    assert!(player.is_playing());
}

#[test]
fn play_from_stopped_drifts_by_the_time_of_one_tick() {
    let mut player = playing(200, 5 * SECOND);
    let snapshot = player.poll(5 * SECOND + 500_000_000);
    assert_eq!(snapshot.state, Phase::Playing);
    assert_eq!(snapshot.elapsed, 500_000_000);
    assert_eq!(snapshot.fraction, 2_500);
}

#[test]
fn reset_twice_is_reset_once() {
    let mut once = playing(120, 0);
    once.reset();
    let mut twice = playing(120, 0);
    twice.reset();
    twice.reset();
    assert_eq!(once.phase(), Phase::Empty);
    assert_eq!(twice.phase(), Phase::Empty);
    assert_eq!(once.track(), twice.track());
    assert_eq!(once.track(), &None);
    assert_eq!(once.handle(), None);
    assert_eq!(twice.handle(), None);
    assert_eq!(once.progress(), twice.progress());
    assert_eq!(once.volume(), twice.volume());
    assert_eq!(once.total_duration(), twice.total_duration());
    assert_eq!(once.poll(9 * SECOND), twice.poll(9 * SECOND));
}

#[test]
fn reset_of_an_empty_session() {
    let mut player: AudioPlayer<u32> = AudioPlayer::new();
    player.reset();
    assert_eq!(player.phase(), Phase::Empty);
    player.reset();
    assert_eq!(player.phase(), Phase::Empty);
    assert_eq!(player.volume(), FRACTION_ONE);
}

#[test]
fn end_of_a_two_second_track() {
    let dropped = Rc::new(RefCell::new(Vec::new()));
    let start: u64 = 40 * SECOND;
    let mut player = AudioPlayer::new();
    player.select_file(String::from("short.wav"));
    assert_eq!(player.toggle_play_pause(start), Action::Open);
    assert_eq!(player.complete_open(start, Ok(pipe(1, &dropped, Some(2 * SECOND)))), Ok(()));
    assert!(dropped.borrow().is_empty());
    let snapshot = player.poll(start + 3 * SECOND);
    assert_eq!(snapshot.state, Phase::Stopped);
    assert_eq!(snapshot.fraction, FRACTION_ONE);
    assert_eq!(snapshot.elapsed, 2 * SECOND);
    assert_eq!(snapshot.total, 2 * SECOND);
    assert_eq!(*dropped.borrow(), vec![1]);
    assert!(!player.has_handle());
    assert_eq!(player.toggle_play_pause(start + 4 * SECOND), Action::Open);
    assert_eq!(player.phase(), Phase::Stopped);
}

#[test]
fn end_of_track_at_the_very_instant() {
    let mut player = playing(2, 0);
    let before = player.poll(2 * SECOND - 1);
    assert_eq!(before.state, Phase::Playing);
    assert_eq!(before.fraction, 999_999);
    assert!(player.has_handle());
    let snapshot = player.poll(2 * SECOND);
    assert_eq!(snapshot.state, Phase::Stopped);
    assert_eq!(snapshot.fraction, FRACTION_ONE);
    assert!(!player.has_handle());
}

#[test]
fn polling_after_the_end_changes_nothing_more() {
    let mut player = playing(2, 0);
    let first = player.poll(5 * SECOND);
    let second = player.poll(6 * SECOND);
    assert_eq!(first, second);
    assert_eq!(second.state, Phase::Stopped);
    assert_eq!(second.fraction, FRACTION_ONE);
    assert_eq!(second.elapsed, 2 * SECOND);
}

#[test]
fn playing_again_after_the_end_starts_at_the_end() {
    let mut player = playing(2, 0);
    player.poll(5 * SECOND);
    assert_eq!(player.toggle_play_pause(6 * SECOND), Action::Open);
    assert_eq!(player.open_plan(Some(2 * SECOND)).skip, 2 * SECOND);
    let opened = Opened { handle: 2, total: Some(2 * SECOND) };
    assert_eq!(player.complete_open(6 * SECOND, Ok(opened)), Ok(()));
    let snapshot = player.poll(6 * SECOND);
    assert_eq!(snapshot.state, Phase::Stopped);
    assert_eq!(snapshot.fraction, FRACTION_ONE);
    assert!(!player.has_handle());
}

#[test]
fn volume_persists_across_a_seek_while_playing() {
    let mut player = playing(120, 0);
    assert_eq!(player.set_volume(300_000), Action::SetVolume(300_000));
    assert_eq!(player.seek(500_000), Action::Open);
    assert_eq!(player.volume(), 300_000);
    let plan = player.open_plan(Some(120 * SECOND));
    assert_eq!(plan.volume, 300_000);
    assert_eq!(plan.skip, 60 * SECOND);
    let opened = Opened { handle: 2, total: Some(120 * SECOND) };
    assert_eq!(player.complete_open(9 * SECOND, Ok(opened)), Ok(()));
    assert_eq!(player.volume(), 300_000);
    assert!(player.is_playing());
    assert_eq!(player.handle(), Some(&2));
    let snapshot = player.poll(9 * SECOND);
    assert_eq!(snapshot.fraction, 500_000);
    assert_eq!(snapshot.elapsed, 60 * SECOND);
}

#[test]
fn volume_persists_across_select_replay_and_reset() {
    let mut player: AudioPlayer<u32> = AudioPlayer::new();
    assert_eq!(player.volume(), FRACTION_ONE);
    assert_eq!(player.set_volume(123_456), Action::Nothing);
    player.select_file(String::from("a.wav"));
    assert_eq!(player.volume(), 123_456);
    player.replay();
    assert_eq!(player.volume(), 123_456);
    assert_eq!(player.complete_open(0, Ok(Opened { handle: 1, total: None })), Ok(()));
    assert_eq!(player.volume(), 123_456);
    player.poll(SECOND);
    player.toggle_play_pause(2 * SECOND);
    player.toggle_play_pause(3 * SECOND);
    assert_eq!(player.volume(), 123_456);
    player.reset();
    assert_eq!(player.volume(), 123_456);
}

#[test]
fn pause_and_resume_do_not_count_the_time_paused() {
    let mut player = playing(120, 0);
    assert_eq!(player.toggle_play_pause(40 * SECOND), Action::Pause);
    assert_eq!(player.phase(), Phase::Paused);
    assert_eq!(player.handle(), Some(&1));
    let frozen: u32 = player.progress();
    assert_eq!(frozen, 333_333);
    let while_paused = player.poll(500 * SECOND);
    assert_eq!(while_paused.state, Phase::Paused);
    assert_eq!(while_paused.fraction, frozen);
    assert_eq!(while_paused.elapsed, 39_999_960_000);
    assert_eq!(player.toggle_play_pause(1_000 * SECOND), Action::Resume);
    assert_eq!(player.phase(), Phase::Playing);
    assert_eq!(player.handle(), Some(&1));
    let snapshot = player.poll(1_000 * SECOND);
    assert_eq!(snapshot.state, Phase::Playing);
    assert_eq!(snapshot.fraction, frozen);
    assert_eq!(snapshot.elapsed, 39_999_960_000);
    let later = player.poll(1_020 * SECOND);
    assert_eq!(later.elapsed, 59_999_960_000);
    assert_eq!(later.fraction, 499_999);
}

#[test]
fn pausing_after_the_end_freezes_at_one() {
    let mut player = playing(2, 0);
    assert_eq!(player.toggle_play_pause(3 * SECOND), Action::Pause);
    assert_eq!(player.phase(), Phase::Paused);
    assert_eq!(player.progress(), FRACTION_ONE);
    assert!(player.has_handle());
    assert_eq!(player.toggle_play_pause(9 * SECOND), Action::Resume);
    let snapshot = player.poll(9 * SECOND);
    assert_eq!(snapshot.state, Phase::Stopped);
    assert_eq!(snapshot.fraction, FRACTION_ONE);
    assert!(!player.has_handle());
}

#[test]
fn unknown_duration_falls_back_to_three_minutes() {
    let mut player: AudioPlayer<u32> = AudioPlayer::new();
    player.select_file(String::from("stream.mp3"));
    assert_eq!(player.total_duration(), None);
    assert_eq!(player.seek(500_000), Action::Nothing);
    let plan = player.open_plan(None);
    assert_eq!(plan.total, DEFAULT_DURATION);
    assert_eq!(plan.total, 180 * SECOND);
    assert_eq!(plan.skip, 90 * SECOND);
    assert_eq!(player.complete_open(7 * SECOND, Ok(Opened { handle: 1, total: None })), Ok(()));
    assert_eq!(player.total_duration(), Some(180 * SECOND));
    let snapshot = player.poll(8 * SECOND);
    assert_eq!(snapshot.total, 180 * SECOND);
    assert_eq!(snapshot.elapsed, 91 * SECOND);
    assert_eq!(snapshot.fraction, 505_555);
    assert_eq!(snapshot.time_label(), "01:31 / 03:00");
}

#[test]
fn a_track_without_duration_ends_at_once() {
    let mut player: AudioPlayer<u32> = AudioPlayer::new();
    player.select_file(String::from("empty.wav"));
    let opened = Opened { handle: 1, total: Some(0) };
    assert_eq!(player.complete_open(3 * SECOND, Ok(opened)), Ok(()));
    assert!(player.is_playing());
    let snapshot = player.poll(3 * SECOND);
    assert_eq!(
        snapshot,
        Snapshot { state: Phase::Stopped, elapsed: 0, total: 0, fraction: FRACTION_ONE }
    );
    assert!(!player.has_handle());
}

#[test]
fn a_clock_that_steps_back_shows_the_start() {
    let mut player = playing(100, 10 * SECOND);
    let snapshot = player.poll(4 * SECOND);
    assert_eq!(
        snapshot,
        Snapshot { state: Phase::Playing, elapsed: 0, total: 100 * SECOND, fraction: 0 }
    );
}

#[test]
fn a_seek_offset_reaches_before_the_clock_began() {
    let mut player: AudioPlayer<u32> = AudioPlayer::new();
    player.select_file(String::from("long.mp3"));
    player.seek(500_000);
    let opened = Opened { handle: 1, total: Some(100 * SECOND) };
    assert_eq!(player.complete_open(10 * SECOND, Ok(opened)), Ok(()));
    let at_once = player.poll(10 * SECOND);
    assert_eq!(at_once.elapsed, 50 * SECOND);
    assert_eq!(at_once.fraction, 500_000);
    let earlier = player.poll(5 * SECOND);
    assert_eq!(earlier.elapsed, 45 * SECOND);
    assert_eq!(earlier.fraction, 450_000);
    let first = player.poll(0);
    assert_eq!(first.elapsed, 40 * SECOND);
}

#[test]
fn the_longest_times_do_not_overflow() {
    let mut player: AudioPlayer<u32> = AudioPlayer::new();
    player.select_file(String::from("endless.wav"));
    player.seek(FRACTION_ONE - 1);
    let opened = Opened { handle: 1, total: Some(u64::MAX) };
    assert_eq!(player.complete_open(0, Ok(opened)), Ok(()));
    let first = player.poll(0);
    assert_eq!(first.state, Phase::Playing);
    assert_eq!(first.elapsed, 18_446_725_626_965_477_905);
    assert_eq!(first.fraction, 999_998);
    let last = player.poll(u64::MAX);
    assert_eq!(last.state, Phase::Stopped);
    assert_eq!(last.elapsed, u64::MAX);
    assert_eq!(last.fraction, FRACTION_ONE);
    let mut late: AudioPlayer<u32> = AudioPlayer::new();
    late.select_file(String::from("endless.wav"));
    let opened = Opened { handle: 1, total: Some(u64::MAX) };
    assert_eq!(late.complete_open(u64::MAX, Ok(opened)), Ok(()));
    assert_eq!(late.poll(0).elapsed, 0);
    assert_eq!(late.poll(u64::MAX).elapsed, 0);
    assert_eq!(late.toggle_play_pause(u64::MAX), Action::Pause);
    assert_eq!(late.toggle_play_pause(0), Action::Resume);
    assert_eq!(late.poll(u64::MAX).state, Phase::Stopped);
}

#[test]
fn errors_of_opening_leave_the_session_stopped() {
    let errors: [SessionError; 3] = [
        SessionError::FileOpenFailed,
        SessionError::DecodeUnsupported,
        SessionError::DeviceUnavailable,
    ];
    for error in errors {
        let mut player: AudioPlayer<u32> = AudioPlayer::new();
        player.select_file(String::from("missing.mp3"));
        player.seek(250_000);
        assert_eq!(player.toggle_play_pause(SECOND), Action::Open);
        assert_eq!(player.complete_open(SECOND, Err(error)), Err(error));
        assert_eq!(player.phase(), Phase::Stopped);
        assert_eq!(player.progress(), 250_000);
        assert_eq!(player.total_duration(), None);
        assert!(!player.has_handle());
        assert_eq!(player.track(), &Some(String::from("missing.mp3")));
        assert_eq!(player.toggle_play_pause(2 * SECOND), Action::Open);
    }
}

#[test]
fn the_old_pipeline_is_released_before_a_new_one_is_asked_for() {
    let dropped = Rc::new(RefCell::new(Vec::new()));
    let mut player = AudioPlayer::new();
    player.select_file(String::from("a.mp3"));
    assert_eq!(player.complete_open(0, Ok(pipe(1, &dropped, Some(100 * SECOND)))), Ok(()));
    assert!(dropped.borrow().is_empty());

    assert_eq!(player.seek(400_000), Action::Open);
    assert_eq!(*dropped.borrow(), vec![1]);
    assert_eq!(player.complete_open(SECOND, Ok(pipe(2, &dropped, Some(100 * SECOND)))), Ok(()));
    assert_eq!(*dropped.borrow(), vec![1]);

    assert_eq!(player.replay(), Action::Open);
    assert_eq!(*dropped.borrow(), vec![1, 2]);
    assert_eq!(player.complete_open(SECOND, Ok(pipe(3, &dropped, Some(100 * SECOND)))), Ok(()));

    assert_eq!(player.toggle_play_pause(2 * SECOND), Action::Pause);
    assert_eq!(player.toggle_play_pause(3 * SECOND), Action::Resume);
    assert_eq!(player.set_volume(5), Action::SetVolume(5));
    player.poll(4 * SECOND);
    assert_eq!(*dropped.borrow(), vec![1, 2]);
    assert_eq!(player.handle().map(|live| live.id), Some(3));

    player.select_file(String::from("b.mp3"));
    assert_eq!(*dropped.borrow(), vec![1, 2, 3]);
    assert_eq!(player.complete_open(SECOND, Ok(pipe(4, &dropped, None))), Ok(()));
    player.reset();
    assert_eq!(*dropped.borrow(), vec![1, 2, 3, 4]);
}

#[test]
fn a_pipeline_that_is_refused_is_released() {
    let dropped = Rc::new(RefCell::new(Vec::new()));
    let mut player = AudioPlayer::new();
    assert_eq!(
        player.complete_open(0, Ok(pipe(1, &dropped, None))),
        Err(SessionError::FileOpenFailed)
    );
    assert_eq!(*dropped.borrow(), vec![1]);
    player.select_file(String::from("a.mp3"));
    assert_eq!(player.complete_open(0, Ok(pipe(2, &dropped, None))), Ok(()));
    assert_eq!(
        player.complete_open(0, Ok(pipe(3, &dropped, None))),
        Err(SessionError::DeviceUnavailable)
    );
    assert_eq!(*dropped.borrow(), vec![1, 3]);
    assert_eq!(player.handle().map(|live| live.id), Some(2));
    assert_eq!(player.toggle_play_pause(SECOND), Action::Pause);
    assert_eq!(
        player.complete_open(0, Ok(pipe(4, &dropped, None))),
        Err(SessionError::DeviceUnavailable)
    );
    assert_eq!(*dropped.borrow(), vec![1, 3, 4]);
    assert_eq!(player.handle().map(|live| live.id), Some(2));
}

#[test]
fn dropping_the_session_releases_its_pipeline() {
    let dropped = Rc::new(RefCell::new(Vec::new()));
    {
        let mut player = AudioPlayer::new();
        player.select_file(String::from("a.mp3"));
        assert_eq!(player.complete_open(0, Ok(pipe(9, &dropped, None))), Ok(()));
        assert!(dropped.borrow().is_empty());
    }
    assert_eq!(*dropped.borrow(), vec![9]);
}
