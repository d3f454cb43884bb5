//! Tests for the player worker state machine.

use spotatui::player::commands::PlayerCommand;
use spotatui::player::events::PlayerEvent;
use spotatui::player::worker::{
    Bitrate, EngineAction, EngineError, EngineEvent, InitError, PlayerWorker, PlayerWorkerConfig,
    DEFAULT_CACHE_SIZE,
};

fn fresh_worker() -> PlayerWorker {
    PlayerWorker::new(PlayerWorkerConfig::default())
}

fn initialized_worker() -> PlayerWorker {
    let mut w = fresh_worker();
    let out = w.on_command(PlayerCommand::Initialize {
        client_id: "client".to_string(),
        redirect_port: 8898,
    });
    assert_eq!(out.actions.len(), 1);
    let ev = w.complete_initialize(Ok(()));
    assert!(matches!(ev, PlayerEvent::Initialized));
    assert!(w.initialized);
    w
}

#[test]
fn config_default_values() {
    let c = PlayerWorkerConfig::default();
    assert!(c.audio_backend.is_none());
    assert!(c.audio_device.is_none());
    assert_eq!(c.bitrate, Bitrate::Bitrate320);
    assert!(c.normalize_volume);
    assert!(c.cache_path.is_none());
    assert_eq!(c.cache_size, Some(DEFAULT_CACHE_SIZE));
    assert_eq!(DEFAULT_CACHE_SIZE, 1024 * 1024 * 1024);
}

#[test]
fn new_worker_defaults() {
    let w = fresh_worker();
    assert!(!w.initialized);
    assert!(w.current_track_uri.is_none());
    assert_eq!(w.current_volume, u16::MAX / 2);
    assert!(!w.terminated);
}

#[test]
fn commands_applied_in_order() {
    // The worker applies a queued command sequence strictly in FIFO order,
    // observable through the engine action log.
    let mut w = initialized_worker();
    let out = w.run_commands(vec![
        PlayerCommand::load("service:track:aaa".to_string()),
        PlayerCommand::Play,
        PlayerCommand::Pause,
        PlayerCommand::load("service:track:bbb".to_string()),
    ]);
    assert_eq!(out.actions.len(), 4);
    assert!(
        matches!(&out.actions[0], EngineAction::Load { uri, start_playing, position_ms }
            if uri == "service:track:aaa" && *start_playing && *position_ms == 0)
    );
    assert!(matches!(out.actions[1], EngineAction::Play));
    assert!(matches!(out.actions[2], EngineAction::Pause));
    assert!(
        matches!(&out.actions[3], EngineAction::Load { uri, .. } if uri == "service:track:bbb")
    );
    assert!(out.events.is_empty());
}

#[test]
fn shutdown_from_uninitialized_worker() {
    // A Shutdown at any state yields exactly one terminal Shutdown event
    // and stops the loop, even before initialization.
    let mut w = fresh_worker();
    let out = w.on_command(PlayerCommand::Shutdown);
    assert!(w.terminated);
    assert_eq!(out.events.len(), 1);
    assert!(matches!(out.events[0], PlayerEvent::Shutdown));
    assert!(out.actions.is_empty());
}

#[test]
fn shutdown_from_initialized_worker_stops_engine() {
    let mut w = initialized_worker();
    let out = w.on_command(PlayerCommand::Shutdown);
    assert!(w.terminated);
    assert_eq!(out.events.len(), 1);
    assert!(matches!(out.events[0], PlayerEvent::Shutdown));
    assert_eq!(out.actions.len(), 1);
    assert!(matches!(out.actions[0], EngineAction::Stop));
}

#[test]
fn set_volume_works_in_any_state() {
    for v in [0u16, 1, 32767, 65535] {
        let mut w = fresh_worker();
        let out = w.on_command(PlayerCommand::SetVolume(v));
        assert_eq!(w.current_volume, v);
        assert_eq!(out.events.len(), 1);
        assert!(matches!(out.events[0], PlayerEvent::VolumeChanged { volume } if volume == v));
        assert!(out.actions.is_empty());
    }
}

#[test]
fn stop_twice_is_a_noop() {
    let mut w = initialized_worker();
    let out = w.on_command(PlayerCommand::load("service:track:aaa".to_string()));
    assert!(out.events.is_empty());
    assert_eq!(w.current_track_uri.as_deref(), Some("service:track:aaa"));
    let first = w.on_command(PlayerCommand::Stop);
    assert!(first.events.is_empty());
    assert!(w.current_track_uri.is_none());
    let second = w.on_command(PlayerCommand::Stop);
    assert!(second.events.is_empty());
    assert!(w.current_track_uri.is_none());
    assert!(w.initialized);
}

#[test]
fn failed_initialize_leaves_worker_uninitialized_and_retryable() {
    let mut w = fresh_worker();
    let out = w.on_command(PlayerCommand::Initialize {
        client_id: "client".to_string(),
        redirect_port: 8898,
    });
    assert_eq!(out.actions.len(), 1);
    // The token endpoint was unreachable: the handshake reports a failure.
    let ev = w.complete_initialize(Err(InitError::Engine(EngineError::SessionConnectFailed)));
    assert!(
        matches!(&ev, PlayerEvent::InitializationFailed { message }
            if message == "Failed to connect session")
    );
    assert!(!w.initialized);
    // A retry is accepted: the worker asks for the handshake again.
    let retry = w.on_command(PlayerCommand::Initialize {
        client_id: "client".to_string(),
        redirect_port: 8898,
    });
    assert_eq!(retry.actions.len(), 1);
    assert!(matches!(&retry.actions[0], EngineAction::Initialize { .. }));
}

#[test]
fn load_before_initialize_reports_error_without_engine_call() {
    let mut w = fresh_worker();
    let out = w.on_command(PlayerCommand::Load {
        uri: "service:track:abc".to_string(),
        start_playing: true,
        position_ms: 0,
    });
    assert!(out.actions.is_empty());
    assert_eq!(out.events.len(), 1);
    assert!(
        matches!(&out.events[0], PlayerEvent::Error { message }
            if message == "Failed to load track: Player not initialized")
    );
    assert!(w.current_track_uri.is_none());
}

#[test]
fn load_malformed_uri_reports_error() {
    let mut w = initialized_worker();
    let out = w.on_command(PlayerCommand::load("nonsense".to_string()));
    assert!(out.actions.is_empty());
    assert_eq!(out.events.len(), 1);
    assert!(
        matches!(&out.events[0], PlayerEvent::Error { message }
            if message == "Failed to load track: invalid track URI: nonsense")
    );
    assert!(w.current_track_uri.is_none());
}

#[test]
fn preload_malformed_uri_reports_error() {
    let mut w = initialized_worker();
    let out = w.on_command(PlayerCommand::Preload("service:episode:abc".to_string()));
    assert!(out.actions.is_empty());
    assert_eq!(out.events.len(), 1);
    assert!(
        matches!(&out.events[0], PlayerEvent::Error { message }
            if message == "Failed to preload track: invalid track URI: service:episode:abc")
    );
}

#[test]
fn preload_before_initialize_is_ignored() {
    let mut w = fresh_worker();
    let out = w.on_command(PlayerCommand::Preload("service:track:abc".to_string()));
    assert!(out.actions.is_empty());
    assert!(out.events.is_empty());
}

#[test]
fn play_pause_seek_ignored_before_initialize() {
    let mut w = fresh_worker();
    for cmd in [PlayerCommand::Play, PlayerCommand::Pause, PlayerCommand::Seek(1000)] {
        let out = w.on_command(cmd);
        assert!(out.actions.is_empty());
        assert!(out.events.is_empty());
    }
}

#[test]
fn unavailable_track_yields_single_error_and_keeps_state() {
    let mut w = initialized_worker();
    w.on_command(PlayerCommand::load("service:track:abc".to_string()));
    let ev = w.on_engine_event(EngineEvent::Unavailable {
        track_id: "service:track:abc".to_string(),
    });
    match ev {
        Some(PlayerEvent::Error { message }) => {
            assert_eq!(message, "Track unavailable: service:track:abc");
        }
        other => panic!("unexpected event: {:?}", other),
    }
    // Playback state is unchanged: the track is still the loaded one.
    assert_eq!(w.current_track_uri.as_deref(), Some("service:track:abc"));
    assert!(w.initialized);
}

#[test]
fn engine_event_translation() {
    let mut w = initialized_worker();
    w.on_command(PlayerCommand::load("service:track:abc".to_string()));
    assert!(matches!(
        w.on_engine_event(EngineEvent::Playing { position_ms: 250 }),
        Some(PlayerEvent::Playing { track_uri, position_ms: 250, duration_ms: 0 })
            if track_uri == "service:track:abc"
    ));
    assert!(matches!(
        w.on_engine_event(EngineEvent::Paused { position_ms: 99 }),
        Some(PlayerEvent::Paused { track_uri, position_ms: 99 })
            if track_uri == "service:track:abc"
    ));
    assert!(matches!(w.on_engine_event(EngineEvent::Stopped), Some(PlayerEvent::Stopped)));
    assert!(matches!(
        w.on_engine_event(EngineEvent::EndOfTrack),
        Some(PlayerEvent::TrackEnded { track_uri }) if track_uri == "service:track:abc"
    ));
    assert!(matches!(
        w.on_engine_event(EngineEvent::TimeToPreloadNextTrack),
        Some(PlayerEvent::TimeToPreloadNextTrack)
    ));
    assert!(matches!(
        w.on_engine_event(EngineEvent::Loading),
        Some(PlayerEvent::Loading { track_uri }) if track_uri == "service:track:abc"
    ));
    assert!(w.on_engine_event(EngineEvent::Other).is_none());
}

#[test]
fn disconnect_acts_as_shutdown() {
    let mut w = fresh_worker();
    let ev = w.on_disconnect();
    assert!(matches!(ev, PlayerEvent::Shutdown));
    assert!(w.terminated);
}

#[test]
fn command_constructors() {
    assert!(matches!(
        PlayerCommand::load("service:track:x".to_string()),
        PlayerCommand::Load { uri, start_playing: true, position_ms: 0 } if uri == "service:track:x"
    ));
    assert!(matches!(
        PlayerCommand::load_at("service:track:x".to_string(), 1234),
        PlayerCommand::Load { start_playing: true, position_ms: 1234, .. }
    ));
    assert!(matches!(
        PlayerCommand::load_paused("service:track:x".to_string()),
        PlayerCommand::Load { start_playing: false, position_ms: 0, .. }
    ));
}

#[test]
fn event_predicates() {
    let err = PlayerEvent::Error { message: "m".to_string() };
    let playing = PlayerEvent::Playing {
        track_uri: "service:track:x".to_string(),
        position_ms: 0,
        duration_ms: 0,
    };
    let paused = PlayerEvent::Paused { track_uri: "service:track:x".to_string(), position_ms: 0 };
    assert!(err.is_error() && !err.is_playing() && !err.is_paused());
    assert!(playing.is_playing() && !playing.is_error() && !playing.is_paused());
    assert!(paused.is_paused() && !paused.is_error() && !paused.is_playing());
    assert!(!PlayerEvent::Stopped.is_error());
}
