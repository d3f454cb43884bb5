//! Tests for the UI-facing player handle and the command/event bridge.

use spotatui::player::commands::PlayerCommand;
use spotatui::player::events::PlayerEvent;
use spotatui::player::{LocalPlayer, LocalPlayerState, PlaybackMode};
use std::sync::mpsc;

#[test]
fn playback_mode_defaults_to_remote() {
    assert_eq!(PlaybackMode::default(), PlaybackMode::Remote(None));
    assert_ne!(PlaybackMode::default(), PlaybackMode::Local);
}

#[test]
fn local_player_state_defaults() {
    let s = LocalPlayerState::default();
    assert!(!s.is_initialized);
    assert!(!s.is_playing);
    assert!(s.current_track_uri.is_none());
    assert_eq!(s.position_ms, 0);
    assert_eq!(s.duration_ms, 0);
    assert_eq!(s.volume, 0);
}

#[test]
fn commands_travel_in_order() {
    let (cmd_tx, cmd_rx) = mpsc::channel();
    let (_event_tx, event_rx) = mpsc::channel();
    let player = LocalPlayer::new(cmd_tx, event_rx);
    player.send_command(PlayerCommand::Play).unwrap();
    player.send_command(PlayerCommand::SetVolume(9)).unwrap();
    player.send_command(PlayerCommand::Shutdown).unwrap();
    assert!(matches!(cmd_rx.try_recv().unwrap(), PlayerCommand::Play));
    assert!(matches!(cmd_rx.try_recv().unwrap(), PlayerCommand::SetVolume(9)));
    assert!(matches!(cmd_rx.try_recv().unwrap(), PlayerCommand::Shutdown));
    assert!(cmd_rx.try_recv().is_err());
}

#[test]
fn send_fails_when_worker_is_gone() {
    let (cmd_tx, cmd_rx) = mpsc::channel();
    let (_event_tx, event_rx) = mpsc::channel();
    let player = LocalPlayer::new(cmd_tx, event_rx);
    drop(cmd_rx);
    assert!(player.send_command(PlayerCommand::Play).is_err());
}

#[test]
fn try_recv_event_is_non_blocking() {
    let (cmd_tx, _cmd_rx) = mpsc::channel();
    let (event_tx, event_rx) = mpsc::channel();
    let player = LocalPlayer::new(cmd_tx, event_rx);
    assert!(player.try_recv_event().is_none());
    event_tx.send(PlayerEvent::Initialized).unwrap();
    event_tx.send(PlayerEvent::VolumeChanged { volume: 3 }).unwrap();
    assert!(matches!(player.try_recv_event(), Some(PlayerEvent::Initialized)));
    assert!(matches!(player.try_recv_event(), Some(PlayerEvent::VolumeChanged { volume: 3 })));
    assert!(player.try_recv_event().is_none());
}
