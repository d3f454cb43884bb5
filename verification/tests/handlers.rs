//! Tests for the keyboard handlers.

use spotatui::app::{
    ActiveBlock, App, Device, DevicePayload, PlayHistoryItem, PlayedTrack, RecentlyPlayedResult,
    RecommendationsContext,
};
use spotatui::event::Key;
use spotatui::handlers::{recently_played, select_device};
use spotatui::network::IoEvent;

fn history(ids: Vec<Option<&str>>) -> RecentlyPlayedResult {
    RecentlyPlayedResult {
        items: ids
            .into_iter()
            .enumerate()
            .map(|(i, id)| PlayHistoryItem {
                track: PlayedTrack {
                    id: id.map(|s| s.to_string()),
                    name: format!("track {}", i),
                },
            })
            .collect(),
    }
}

#[test]
fn on_left_press() {
    let mut app = App::default();
    app.set_current_route_state(
        Some(ActiveBlock::AlbumTracks),
        Some(ActiveBlock::AlbumTracks),
    );

    recently_played::handler(Key::Left, &mut app);
    let current_route = app.get_current_route();
    assert_eq!(current_route.active_block, ActiveBlock::Empty);
    assert_eq!(current_route.hovered_block, ActiveBlock::Library);
}

#[test]
fn on_esc() {
    let mut app = App::default();

    recently_played::handler(Key::Esc, &mut app);

    let current_route = app.get_current_route();
    assert_eq!(current_route.active_block, ActiveBlock::Empty);
}

#[test]
fn recently_played_down_wraps() {
    let mut app = App::default();
    app.recently_played.result = Some(history(vec![Some("aaa"), Some("bbb"), Some("ccc")]));
    app.recently_played.index = 2;
    recently_played::handler(Key::Down, &mut app);
    assert_eq!(app.recently_played.index, 0);
    recently_played::handler(Key::Down, &mut app);
    assert_eq!(app.recently_played.index, 1);
    recently_played::handler(Key::Up, &mut app);
    assert_eq!(app.recently_played.index, 0);
    recently_played::handler(Key::Up, &mut app);
    assert_eq!(app.recently_played.index, 2);
}

#[test]
fn recently_played_save_dispatches_valid_id() {
    let mut app = App::default();
    app.recently_played.result = Some(history(vec![Some("abcDEF123")]));
    recently_played::handler(Key::Char('s'), &mut app);
    assert_eq!(app.io_events.len(), 1);
    assert!(matches!(&app.io_events[0], IoEvent::ToggleSaveTrack(id) if id == "abcDEF123"));
}

#[test]
fn recently_played_save_skips_malformed_id() {
    let mut app = App::default();
    app.recently_played.result = Some(history(vec![Some("not alnum!")]));
    recently_played::handler(Key::Char('s'), &mut app);
    assert!(app.io_events.is_empty());
}

#[test]
fn recently_played_enter_starts_playback_with_valid_ids() {
    let mut app = App::default();
    app.recently_played.result = Some(history(vec![
        Some("aaa"),
        None,
        Some("has space"),
        Some("bbb"),
    ]));
    app.recently_played.index = 3;
    recently_played::handler(Key::Enter, &mut app);
    assert_eq!(app.io_events.len(), 1);
    match &app.io_events[0] {
        IoEvent::StartPlayback(context, uris, offset) => {
            assert!(context.is_none());
            assert_eq!(uris.as_deref(), Some(&["aaa".to_string(), "bbb".to_string()][..]));
            assert_eq!(*offset, Some(3));
        }
        other => panic!("unexpected io event: {:?}", other),
    }
}

#[test]
fn recently_played_recommendations() {
    let mut app = App::default();
    app.recently_played.result = Some(history(vec![Some("seedid")]));
    recently_played::handler(Key::Char('r'), &mut app);
    assert_eq!(app.recommendations_context, Some(RecommendationsContext::Song));
    assert_eq!(app.recommendations_seed, "track 0");
    assert_eq!(app.io_events.len(), 1);
    assert!(
        matches!(&app.io_events[0], IoEvent::GetRecommendationsForTrackId(id) if id == "seedid")
    );
}

#[test]
fn recently_played_queue_key() {
    let mut app = App::default();
    app.recently_played.result = Some(history(vec![Some("qqq")]));
    recently_played::handler(Key::Char('z'), &mut app);
    assert_eq!(app.io_events.len(), 1);
    assert!(matches!(&app.io_events[0], IoEvent::AddItemToQueue(id) if id == "qqq"));
}

fn app_with_devices(ids: Vec<Option<&str>>) -> App {
    let mut app = App::default();
    app.devices = Some(DevicePayload {
        devices: ids
            .into_iter()
            .map(|id| Device { id: id.map(|s| s.to_string()) })
            .collect(),
    });
    app
}

#[test]
fn select_device_esc_returns_to_library() {
    let mut app = App::default();
    select_device::handler(Key::Esc, &mut app);
    assert_eq!(app.get_current_route().active_block, ActiveBlock::Library);
}

#[test]
fn select_device_navigation_wraps_over_local_entry() {
    // Two remote devices plus the local entry: three positions.
    let mut app = app_with_devices(vec![Some("d1"), Some("d2")]);
    app.selected_device_index = Some(2);
    select_device::handler(Key::Down, &mut app);
    assert_eq!(app.selected_device_index, Some(0));
    select_device::handler(Key::Up, &mut app);
    assert_eq!(app.selected_device_index, Some(2));
    select_device::handler(Key::Char('H'), &mut app);
    assert_eq!(app.selected_device_index, Some(0));
    select_device::handler(Key::Char('L'), &mut app);
    assert_eq!(app.selected_device_index, Some(2));
    select_device::handler(Key::Char('M'), &mut app);
    assert_eq!(app.selected_device_index, Some(1));
}

#[test]
fn select_device_enter_first_entry_switches_to_local() {
    let mut app = app_with_devices(vec![Some("d1")]);
    app.selected_device_index = Some(0);
    select_device::handler(Key::Enter, &mut app);
    assert_eq!(app.io_events.len(), 1);
    assert!(matches!(&app.io_events[0], IoEvent::SwitchToLocalPlayback));
}

#[test]
fn select_device_enter_remote_entry_transfers_playback() {
    let mut app = app_with_devices(vec![Some("d1"), Some("d2")]);
    app.selected_device_index = Some(2);
    select_device::handler(Key::Enter, &mut app);
    assert_eq!(app.io_events.len(), 1);
    assert!(matches!(&app.io_events[0], IoEvent::TransferPlaybackToDevice(id) if id == "d2"));
}

#[test]
fn select_device_enter_without_device_id_does_nothing() {
    let mut app = app_with_devices(vec![None]);
    app.selected_device_index = Some(1);
    select_device::handler(Key::Enter, &mut app);
    assert!(app.io_events.is_empty());
}
