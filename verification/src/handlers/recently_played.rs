//! Keyboard handler for the recently played pane.

use crate::app::{
    nav_state_set, same_but_io, same_but_recommendations, same_but_rp_index, ActiveBlock, App,
    PlayHistoryItem, RecommendationsContext,
};
use crate::event::Key;
use crate::handlers::common_key_events;
use crate::network::IoEvent;
use vstd::prelude::*;
use vstd::string::StringSliceAdditionalSpecFns;
use vstd::utf8::encode_utf8;

verus! {

/// True of ASCII alphanumeric bytes.
pub open spec fn is_alnum_byte(b: u8) -> bool {
    ('0' as u8) <= b <= ('9' as u8) || ('a' as u8) <= b <= ('z' as u8) || ('A' as u8) <= b
        <= ('Z' as u8)
}

/// A well-formed track id: nonempty, ASCII alphanumeric bytes only.
pub open spec fn valid_track_id_bytes(b: Seq<u8>) -> bool {
    b.len() > 0 && (forall|i: int| 0 <= i < b.len() ==> is_alnum_byte(b[i]))
}

/// A well-formed track id, over the characters of the id string.
pub open spec fn valid_id(s: Seq<char>) -> bool {
    valid_track_id_bytes(encode_utf8(s))
}

/// Whether a track id is well-formed (nonempty ASCII alphanumeric).
pub fn is_valid_track_id(id: &str) -> (r: bool)
    ensures
        r == valid_id(id@),
{
    let b = id.as_bytes();
    if b.len() == 0 {
        return false;
    }
    let mut i: usize = 0;
    while i < b.len()
        invariant
            b@ == id.spec_bytes(),
            i <= b@.len(),
            forall|k: int| 0 <= k < i ==> is_alnum_byte(b@[k]),
        decreases b@.len() - i,
    {
        let c = b[i];
        let ok = (('0' as u8) <= c && c <= ('9' as u8)) || (('a' as u8) <= c && c <= ('z' as u8))
            || (('A' as u8) <= c && c <= ('Z' as u8));
        if !ok {
            return false;
        }
        i = i + 1;
    }
    true
}

/// The well-formed ids of the history entries from position `i` on, in
/// order: entries without an id or with a malformed one are skipped.
pub open spec fn playable_ids_from(items: Seq<PlayHistoryItem>, i: int) -> Seq<Seq<char>>
    decreases items.len() - i,
{
    if i < 0 || i >= items.len() {
        Seq::empty()
    } else {
        let rest = playable_ids_from(items, i + 1);
        match items[i].track.id {
            Some(id) => if valid_id(id@) {
                seq![id@] + rest
            } else {
                rest
            },
            None => rest,
        }
    }
}

/// Collect the well-formed ids of the history entries from position `i` on.
fn collect_playable(items: &Vec<PlayHistoryItem>, i: usize) -> (r: Vec<String>)
    requires
        i <= items@.len(),
    ensures
        r.deep_view() =~~= playable_ids_from(items@, i as int),
    decreases items@.len() - i,
{
    if i >= items.len() {
        let r: Vec<String> = Vec::new();
        proof {
            assert(r.deep_view() =~~= playable_ids_from(items@, i as int));
        }
        r
    } else {
        let mut rest = collect_playable(items, i + 1);
        let head: Option<String> = match &items[i].track.id {
            Some(id) => {
                if is_valid_track_id(id.as_str()) {
                    Some(id.clone())
                } else {
                    None
                }
            },
            None => None,
        };
        match head {
            Some(id) => {
                let mut v: Vec<String> = Vec::new();
                v.push(id);
                v.append(&mut rest);
                proof {
                    assert(v.deep_view() =~~= playable_ids_from(items@, i as int));
                }
                v
            },
            None => {
                proof {
                    assert(rest.deep_view() =~~= playable_ids_from(items@, i as int));
                }
                rest
            },
        }
    }
}

/// What the save key and the queue key dispatch for the selected entry,
/// when it exists and carries a well-formed id (`queue` selects which of
/// the two operations is requested).  Nothing happens otherwise.
pub open spec fn selected_id_step(pre: App, post: App, queue: bool) -> bool {
    match pre.recently_played.result {
        Some(res) => {
            if pre.recently_played.index < res.items@.len() {
                match res.items@[pre.recently_played.index as int].track.id {
                    Some(id) => {
                        if valid_id(id@) {
                            &&& same_but_io(post, pre)
                            &&& post.io_events@ =~= pre.io_events@.push(
                                if queue {
                                    IoEvent::AddItemToQueue(id)
                                } else {
                                    IoEvent::ToggleSaveTrack(id)
                                },
                            )
                        } else {
                            post == pre
                        }
                    },
                    None => post == pre,
                }
            } else {
                post == pre
            }
        },
        None => post == pre,
    }
}

/// The recently played pane's reaction to one key press.
pub open spec fn recently_played_step(pre: App, key: Key, post: App) -> bool {
    let rp = pre.recently_played;
    if common_key_events::is_left_key(key) {
        nav_state_set(post, pre, Some(ActiveBlock::Empty), Some(ActiveBlock::Library))
    } else if common_key_events::is_down_key(key) {
        match rp.result {
            Some(res) => same_but_rp_index(post, pre) && post.recently_played.index
                == common_key_events::next_index_down(res.items@.len(), Some(rp.index)),
            None => post == pre,
        }
    } else if common_key_events::is_up_key(key) {
        match rp.result {
            Some(res) => same_but_rp_index(post, pre) && post.recently_played.index
                == common_key_events::next_index_up(res.items@.len(), Some(rp.index)),
            None => post == pre,
        }
    } else if common_key_events::is_high_key(key) {
        match rp.result {
            Some(res) => same_but_rp_index(post, pre) && post.recently_played.index == 0,
            None => post == pre,
        }
    } else if common_key_events::is_middle_key(key) {
        match rp.result {
            Some(res) => same_but_rp_index(post, pre) && post.recently_played.index
                == res.items@.len() / 2,
            None => post == pre,
        }
    } else if common_key_events::is_low_key(key) {
        match rp.result {
            Some(res) => same_but_rp_index(post, pre) && post.recently_played.index == (
            if res.items@.len() > 0 {
                (res.items@.len() - 1) as nat
            } else {
                0nat
            }),
            None => post == pre,
        }
    } else if key == Key::Char('s') {
        selected_id_step(pre, post, false)
    } else if key == Key::Enter {
        match rp.result {
            Some(res) => {
                &&& same_but_io(post, pre)
                &&& post.io_events@.len() == pre.io_events@.len() + 1
                &&& post.io_events@.take(pre.io_events@.len() as int) =~= pre.io_events@
                &&& (post.io_events@.last() matches IoEvent::StartPlayback(ctx, uris, offset)
                    && ctx is None && (uris matches Some(v) && v.deep_view() =~~= playable_ids_from(
                    res.items@,
                    0,
                )) && offset == Some(rp.index))
            },
            None => post == pre,
        }
    } else if key == Key::Char('r') {
        match rp.result {
            Some(res) => {
                if rp.index < res.items@.len() {
                    match res.items@[rp.index as int].track.id {
                        Some(id) => {
                            &&& same_but_recommendations(post, pre)
                            &&& post.recommendations_context == Some(RecommendationsContext::Song)
                            &&& post.recommendations_seed == res.items@[rp.index as int].track.name
                            &&& post.io_events@ =~= pre.io_events@.push(
                                IoEvent::GetRecommendationsForTrackId(id),
                            )
                        },
                        None => post == pre,
                    }
                } else {
                    post == pre
                }
            },
            None => post == pre,
        }
    } else if key == pre.user_config.keys.add_item_to_queue {
        selected_id_step(pre, post, true)
    } else {
        post == pre
    }
}

/// React to one key press on the recently played pane.
pub fn handler(key: Key, app: &mut App)
    ensures
        recently_played_step(*old(app), key, *final(app)),
{
    if common_key_events::left_event(key) {
        common_key_events::handle_left_event(app);
    } else if common_key_events::down_event(key) {
        if let Some(recently_played_result) = &app.recently_played.result {
            let next_index = common_key_events::on_down_press_handler(
                &recently_played_result.items,
                Some(app.recently_played.index),
            );
            app.recently_played.index = next_index;
        }
    } else if common_key_events::up_event(key) {
        if let Some(recently_played_result) = &app.recently_played.result {
            let next_index = common_key_events::on_up_press_handler(
                &recently_played_result.items,
                Some(app.recently_played.index),
            );
            app.recently_played.index = next_index;
        }
    } else if common_key_events::high_event(key) {
        if let Some(_recently_played_result) = &app.recently_played.result {
            let next_index = common_key_events::on_high_press_handler();
            app.recently_played.index = next_index;
        }
    } else if common_key_events::middle_event(key) {
        if let Some(recently_played_result) = &app.recently_played.result {
            let next_index = common_key_events::on_middle_press_handler(
                &recently_played_result.items,
            );
            app.recently_played.index = next_index;
        }
    } else if common_key_events::low_event(key) {
        if let Some(recently_played_result) = &app.recently_played.result {
            let next_index = common_key_events::on_low_press_handler(
                &recently_played_result.items,
            );
            app.recently_played.index = next_index;
        }
    } else if key == Key::Char('s') {
        let ev: Option<IoEvent> = match &app.recently_played.result {
            Some(res) => {
                if app.recently_played.index < res.items.len() {
                    match &res.items[app.recently_played.index].track.id {
                        Some(id) => {
                            if is_valid_track_id(id.as_str()) {
                                Some(IoEvent::ToggleSaveTrack(id.clone()))
                            } else {
                                None
                            }
                        },
                        None => None,
                    }
                } else {
                    None
                }
            },
            None => None,
        };
        if let Some(ev) = ev {
            app.dispatch(ev);
        }
    } else if key == Key::Enter {
        let payload: Option<(Vec<String>, usize)> = match &app.recently_played.result {
            Some(res) => {
                let track_uris = collect_playable(&res.items, 0);
                Some((track_uris, app.recently_played.index))
            },
            None => None,
        };
        if let Some((track_uris, offset)) = payload {
            app.dispatch(IoEvent::StartPlayback(None, Some(track_uris), Some(offset)));
        }
    } else if key == Key::Char('r') {
        let seed: Option<(String, String)> = match &app.recently_played.result {
            Some(res) => {
                if app.recently_played.index < res.items.len() {
                    let item = &res.items[app.recently_played.index];
                    match &item.track.id {
                        Some(id) => Some((id.clone(), item.track.name.clone())),
                        None => None,
                    }
                } else {
                    None
                }
            },
            None => None,
        };
        if let Some((id, name)) = seed {
            app.recommendations_context = Some(RecommendationsContext::Song);
            app.recommendations_seed = name;
            app.get_recommendations_for_track_id(id);
        }
    } else if key == app.user_config.keys.add_item_to_queue {
        let ev: Option<IoEvent> = match &app.recently_played.result {
            Some(res) => {
                if app.recently_played.index < res.items.len() {
                    match &res.items[app.recently_played.index].track.id {
                        Some(id) => {
                            if is_valid_track_id(id.as_str()) {
                                Some(IoEvent::AddItemToQueue(id.clone()))
                            } else {
                                None
                            }
                        },
                        None => None,
                    }
                } else {
                    None
                }
            },
            None => None,
        };
        if let Some(ev) = ev {
            app.dispatch(ev);
        }
    }
}

} // verus!
