use termusic::backend::{
    plan_command, seek_target, map_engine_event, BackendCmd, EngineAction, EngineEvent,
};
use termusic::config::Settings;
use termusic::player::{PlayerMsg, PlayerTrait};
use termusic::backend::MpvBackend;

#[test]
fn seek_backward_clamps_at_zero() {
    // Five seconds back from position 2 of a 100 second track lands at 0.
    assert_eq!(seek_target(-5, 2, 100), 0);
}

#[test]
fn seek_forward_clamps_below_duration() {
    // Thirty seconds forward from position 90 of a 100 second track stops
    // at the 5 second guard: 95, never at or past the end.
    assert_eq!(seek_target(30, 90, 100), 95);
}

#[test]
fn seek_inside_range_is_exact() {
    assert_eq!(seek_target(10, 40, 100), 50);
    assert_eq!(seek_target(-10, 40, 100), 30);
}

#[test]
fn seek_on_track_shorter_than_guard_is_zero() {
    assert_eq!(seek_target(1, 0, 3), 0);
}

#[test]
fn plan_seek_pauses_seeks_and_resumes() {
    let (dur, acts, msg) = plan_command(BackendCmd::Seek(30), 90, 100);
    assert_eq!(dur, 100);
    assert_eq!(
        acts,
        vec![
            EngineAction::PauseEngine,
            EngineAction::SeekAbsoluteTo(95),
            EngineAction::ResumeEngine,
        ]
    );
    // The progress report carries the clamped target the seek lands on,
    // optimistically, not the stale pre-seek position.
    assert_eq!(msg, Some(PlayerMsg::Progress(95, 100)));
}

#[test]
fn plan_gapless_sets_the_engine_property() {
    let (dur, acts, msg) = plan_command(BackendCmd::Gapless(true), 0, 100);
    assert_eq!(dur, 100);
    assert_eq!(acts, vec![EngineAction::SetGaplessProp(true)]);
    assert_eq!(msg, None);
}

#[test]
fn plan_play_resets_duration_cache() {
    let (dur, acts, msg) = plan_command(BackendCmd::Play("a.mp3".to_string()), 50, 200);
    assert_eq!(dur, 0);
    assert_eq!(acts, vec![EngineAction::LoadReplace("a.mp3".to_string())]);
    assert_eq!(msg, None);
}

#[test]
fn plan_queue_next_appends() {
    let (dur, acts, _msg) = plan_command(BackendCmd::QueueNext("b.mp3".to_string()), 0, 100);
    assert_eq!(dur, 100);
    assert_eq!(acts, vec![EngineAction::LoadAppend("b.mp3".to_string())]);
}

#[test]
fn engine_events_map_to_messages() {
    assert_eq!(map_engine_event(42, &EngineEvent::EndFile(0)), (42, Some(PlayerMsg::Eos)));
    assert_eq!(map_engine_event(42, &EngineEvent::EndFile(3)), (42, None));
    assert_eq!(
        map_engine_event(42, &EngineEvent::StartFile),
        (42, Some(PlayerMsg::CurrentTrackUpdated))
    );
    assert_eq!(map_engine_event(42, &EngineEvent::PropertyDuration(77)), (77, None));
    assert_eq!(
        map_engine_event(42, &EngineEvent::PropertyTimePos(9)),
        (42, Some(PlayerMsg::Progress(9, 42)))
    );
}

#[test]
fn construction_queues_the_configured_state() {
    let (tx, _rx) = std::sync::mpsc::channel();
    let mut cfg = Settings::new();
    cfg.volume = 150;
    cfg.speed = 0;
    cfg.gapless = true;
    let (_backend, cmd_rx) = MpvBackend::new(&cfg, tx);
    // The engine is initialized from config, clamped, before any other
    // command can reach it.
    assert_eq!(cmd_rx.try_recv(), Ok(BackendCmd::Volume(100)));
    assert_eq!(cmd_rx.try_recv(), Ok(BackendCmd::Speed(1)));
    assert_eq!(cmd_rx.try_recv(), Ok(BackendCmd::Gapless(true)));
    assert!(cmd_rx.try_recv().is_err());
}

#[test]
fn volume_steps_clamp_to_percent_range() {
    let (tx, _rx) = std::sync::mpsc::channel();
    let mut cfg = Settings::new();
    cfg.volume = 98;
    let (mut backend, _cmd_rx) = MpvBackend::new(&cfg, tx);
    backend.volume_up();
    assert_eq!(backend.volume(), 100);
    backend.volume_up();
    assert_eq!(backend.volume(), 100);
    backend.set_volume(-40);
    assert_eq!(backend.volume(), 0);
    backend.volume_down();
    assert_eq!(backend.volume(), 0);
}

#[test]
fn racing_volume_requests_keep_the_last_value_in_range() {
    let (tx, _rx) = std::sync::mpsc::channel();
    let (mut backend, cmd_rx) = MpvBackend::new(&Settings::new(), tx);
    // Two contending requests are serialized through the single writer;
    // whichever lands last wins, and neither the stored value nor any
    // value handed to the engine leaves [0, 100].
    backend.set_volume(150);
    backend.set_volume(60);
    assert_eq!(backend.volume(), 60);
    let mut engine_values = Vec::new();
    while let Ok(cmd) = cmd_rx.try_recv() {
        if let BackendCmd::Volume(v) = cmd {
            engine_values.push(v);
        }
    }
    // The first value is the configured one queued at construction.
    assert_eq!(engine_values, vec![70, 100, 60]);
    for v in engine_values {
        assert!((0..=100).contains(&v));
    }
}

#[test]
fn speed_steps_clamp_to_documented_range() {
    let (tx, _rx) = std::sync::mpsc::channel();
    let mut cfg = Settings::new();
    cfg.speed = 29;
    let (mut backend, _cmd_rx) = MpvBackend::new(&cfg, tx);
    backend.speed_up();
    assert_eq!(backend.speed(), 30);
    backend.speed_up();
    assert_eq!(backend.speed(), 30);
    backend.set_speed(0);
    assert_eq!(backend.speed(), 1);
    backend.speed_down();
    assert_eq!(backend.speed(), 1);
}

#[test]
fn skip_one_signals_end_of_stream() {
    let (tx, rx) = std::sync::mpsc::channel();
    let (mut backend, _cmd_rx) = MpvBackend::new(&Settings::new(), tx);
    backend.skip_one();
    assert_eq!(rx.try_recv(), Ok(PlayerMsg::Eos));
}
