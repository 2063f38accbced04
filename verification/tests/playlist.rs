use termusic::backend::BackendCmd;
use termusic::config::Settings;
use termusic::player::{GeneralPlayer, PlayerMsg, PlayerTrait};
use termusic::playlist::{LoopMode, Playlist, Status, Track};

fn make_tracks(n: usize) -> Vec<Track> {
    let mut tracks = Vec::new();
    let mut i = 0;
    while i < n {
        tracks.push(Track::new(format!("track{i}.mp3"), 100));
        i += 1;
    }
    tracks
}

fn make_player(
    n: usize,
    loop_mode: LoopMode,
    gapless: bool,
) -> (GeneralPlayer, std::sync::mpsc::Receiver<BackendCmd>) {
    let mut cfg = Settings::new();
    cfg.loop_mode = loop_mode;
    cfg.gapless = gapless;
    cfg.shuffle = false;
    let (player, cmd_rx) = GeneralPlayer::new(&cfg, make_tracks(n));
    drain_init_commands(&cmd_rx);
    (player, cmd_rx)
}

/// Construction queues the configured volume, speed and gapless setting;
/// the scenarios below start after those.
fn drain_init_commands(cmd_rx: &std::sync::mpsc::Receiver<BackendCmd>) {
    assert!(matches!(cmd_rx.try_recv(), Ok(BackendCmd::Volume(_))));
    assert!(matches!(cmd_rx.try_recv(), Ok(BackendCmd::Speed(_))));
    assert!(matches!(cmd_rx.try_recv(), Ok(BackendCmd::Gapless(_))));
}

#[test]
fn status_wire_round_trip() {
    for s in [Status::Stopped, Status::Running, Status::Paused] {
        assert_eq!(Status::from_u32(s.as_u32()), s);
    }
    assert_eq!(Status::from_u32(7), Status::Stopped);
}

#[test]
fn loop_mode_cycles_through_all_three() {
    let mut p = Playlist::new(make_tracks(1), LoopMode::Off, false);
    assert_eq!(p.cycle_loop_mode(), LoopMode::Queue);
    assert_eq!(p.cycle_loop_mode(), LoopMode::Single);
    assert_eq!(p.cycle_loop_mode(), LoopMode::Off);
}

#[test]
fn queue_loop_gapless_advances_without_new_play() {
    let (mut p, rx) = make_player(3, LoopMode::Queue, true);
    p.start_play();
    match rx.try_recv() {
        Ok(BackendCmd::Play(f)) => assert_eq!(f, "track0.mp3"),
        other => panic!("expected a play command, got {other:?}"),
    }
    p.enqueue_next();
    assert_eq!(p.playlist.current, Some(0));
    assert_eq!(p.playlist.prefetch, Some(1));
    match rx.try_recv() {
        Ok(BackendCmd::QueueNext(f)) => assert_eq!(f, "track1.mp3"),
        other => panic!("expected a queue-next command, got {other:?}"),
    }
    // Completing the track with the pre-fetch outstanding promotes it: the
    // cursor advances to (0 + 1) % 3 and no further command crosses the
    // transition.
    p.handle_msg(PlayerMsg::Eos);
    assert_eq!(p.playlist.current, Some(1));
    assert_eq!(p.playlist.prefetch, None);
    assert!(rx.try_recv().is_err());
}

#[test]
fn queue_loop_wraps_to_first_track() {
    let (mut p, rx) = make_player(3, LoopMode::Queue, true);
    p.playlist.current = Some(2);
    p.enqueue_next();
    assert_eq!(p.playlist.prefetch, Some(0));
    match rx.try_recv() {
        Ok(BackendCmd::QueueNext(f)) => assert_eq!(f, "track0.mp3"),
        other => panic!("expected a queue-next command, got {other:?}"),
    }
    p.handle_msg(PlayerMsg::Eos);
    assert_eq!(p.playlist.current, Some(0));
    assert!(rx.try_recv().is_err());
}

#[test]
fn single_loop_prefetches_current_and_never_advances() {
    let (mut p, rx) = make_player(3, LoopMode::Single, true);
    p.playlist.current = Some(1);
    p.enqueue_next();
    assert_eq!(p.playlist.prefetch, Some(1));
    match rx.try_recv() {
        Ok(BackendCmd::QueueNext(f)) => assert_eq!(f, "track1.mp3"),
        other => panic!("expected a queue-next command, got {other:?}"),
    }
    p.handle_msg(PlayerMsg::Eos);
    assert_eq!(p.playlist.current, Some(1));
    assert_eq!(p.playlist.prefetch, None);
    assert!(rx.try_recv().is_err());
}

#[test]
fn loop_off_stops_past_the_end() {
    let (mut p, rx) = make_player(2, LoopMode::Off, false);
    p.playlist.current = Some(1);
    p.playlist.status = Status::Running;
    p.handle_msg(PlayerMsg::Eos);
    assert_eq!(p.playlist.current, None);
    assert_eq!(p.playlist.status, Status::Stopped);
    match rx.try_recv() {
        Ok(BackendCmd::Stop) => {},
        other => panic!("expected a stop command, got {other:?}"),
    }
}

#[test]
fn skip_clears_prefetch_and_advances_exactly_once() {
    let (mut p, _rx) = make_player(3, LoopMode::Queue, true);
    p.playlist.current = Some(0);
    p.playlist.prefetch = Some(1);
    p.skip();
    // The outstanding pre-fetch is gone before the end of stream lands.
    assert_eq!(p.playlist.prefetch, None);
    assert_eq!(p.playlist.current, Some(0));
    // The forced end of stream then advances once, not twice.
    p.handle_msg(PlayerMsg::Eos);
    assert_eq!(p.playlist.current, Some(1));
    assert_eq!(p.playlist.prefetch, None);
}

#[test]
fn skip_without_prefetch_advances_the_same_single_step() {
    let (mut p, _rx) = make_player(3, LoopMode::Queue, true);
    p.playlist.current = Some(0);
    p.skip();
    assert_eq!(p.playlist.prefetch, None);
    p.handle_msg(PlayerMsg::Eos);
    assert_eq!(p.playlist.current, Some(1));
}

#[test]
fn shuffle_never_picks_current_when_possible() {
    let mut cfg = Settings::new();
    cfg.loop_mode = LoopMode::Queue;
    cfg.shuffle = true;
    let (mut p, _rx) = GeneralPlayer::new(&cfg, make_tracks(4));
    drain_init_commands(&_rx);
    for _ in 0..32 {
        p.playlist.prefetch = None;
        p.enqueue_next();
        let pick = p.playlist.prefetch.expect("a shuffle pick");
        assert!(pick < 4);
        assert_ne!(Some(pick), p.playlist.current);
    }
}

#[test]
fn toggle_pause_swaps_running_and_paused() {
    let (mut p, rx) = make_player(2, LoopMode::Queue, true);
    p.playlist.status = Status::Running;
    p.toggle_pause();
    assert_eq!(p.playlist.status, Status::Paused);
    assert!(matches!(rx.try_recv(), Ok(BackendCmd::Pause)));
    p.toggle_pause();
    assert_eq!(p.playlist.status, Status::Running);
    assert!(matches!(rx.try_recv(), Ok(BackendCmd::Resume)));
    p.playlist.status = Status::Stopped;
    p.toggle_pause();
    assert_eq!(p.playlist.status, Status::Stopped);
    assert!(rx.try_recv().is_err());
}

#[test]
fn stop_clears_cursor_and_prefetch() {
    let (mut p, rx) = make_player(2, LoopMode::Queue, true);
    p.playlist.current = Some(1);
    p.playlist.prefetch = Some(0);
    p.playlist.status = Status::Running;
    p.stop();
    assert_eq!(p.playlist.status, Status::Stopped);
    assert_eq!(p.playlist.current, None);
    assert_eq!(p.playlist.prefetch, None);
    assert!(matches!(rx.try_recv(), Ok(BackendCmd::Stop)));
}

#[test]
fn start_play_promotes_prefetch_without_command() {
    let (mut p, rx) = make_player(3, LoopMode::Queue, true);
    p.playlist.current = Some(0);
    p.playlist.prefetch = Some(1);
    p.start_play();
    assert_eq!(p.playlist.status, Status::Running);
    assert_eq!(p.playlist.current, Some(1));
    assert_eq!(p.playlist.prefetch, None);
    assert!(rx.try_recv().is_err());
}

#[test]
fn track_start_triggers_the_gapless_prefetch() {
    let (mut p, rx) = make_player(3, LoopMode::Queue, true);
    p.playlist.current = Some(0);
    p.handle_msg(PlayerMsg::CurrentTrackUpdated);
    assert_eq!(p.playlist.prefetch, Some(1));
    assert!(matches!(rx.try_recv(), Ok(BackendCmd::QueueNext(f)) if f == "track1.mp3"));
    // With gapless off nothing is queued ahead.
    let (mut q, rx2) = make_player(3, LoopMode::Queue, false);
    q.playlist.current = Some(0);
    q.handle_msg(PlayerMsg::CurrentTrackUpdated);
    assert_eq!(q.playlist.prefetch, None);
    assert!(rx2.try_recv().is_err());
}

#[test]
fn progress_messages_refresh_the_cache() {
    let (mut p, _rx) = make_player(1, LoopMode::Queue, true);
    p.handle_msg(PlayerMsg::Progress(42, 180));
    assert_eq!(p.get_progress(), (42, 180));
    // Nonsense engine values are held to sane bounds.
    p.handle_msg(PlayerMsg::Progress(-7, -1));
    assert_eq!(p.get_progress(), (0, 0));
}

#[test]
fn skip_signals_exactly_one_end_of_stream() {
    let (mut p, _rx) = make_player(3, LoopMode::Queue, true);
    p.playlist.current = Some(0);
    p.playlist.prefetch = Some(1);
    p.skip();
    assert_eq!(p.message_rx.try_recv(), Ok(PlayerMsg::Eos));
    assert!(p.message_rx.try_recv().is_err());
    // With no current track the same single end-of-stream-equivalent signal
    // is raised, so playback advances instead of wedging.
    let (mut q, _rx2) = make_player(0, LoopMode::Queue, true);
    q.skip();
    assert_eq!(q.message_rx.try_recv(), Ok(PlayerMsg::Eos));
    assert!(q.message_rx.try_recv().is_err());
}
