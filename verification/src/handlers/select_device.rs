//! Keyboard handler for the device selection pane.
//!
//! The device list shown to the user has the local player as its first
//! entry, followed by the remote devices, so the effective entry count is
//! one more than the number of remote devices.

use crate::app::{nav_state_set, same_but_io, same_but_selection, ActiveBlock, App};
use crate::event::Key;
use crate::handlers::common_key_events;
use crate::network::IoEvent;
use vstd::prelude::*;

verus! {

/// The effective number of device entries: the remote devices plus the
/// local-playback entry.
pub open spec fn spec_device_count(app: App) -> nat {
    (match app.devices {
        Some(d) => d.devices@.len(),
        None => 0nat,
    }) + 1
}

/// The remote device count is small enough that the extra local entry still
/// fits in a `usize`.
pub open spec fn devices_in_range(app: App) -> bool {
    spec_device_count(app) <= usize::MAX
}

/// Get the effective number of devices (the local entry included).
fn get_device_count(app: &App) -> (r: usize)
    requires
        devices_in_range(*app),
    ensures
        r == spec_device_count(*app),
{
    let remote_count = match &app.devices {
        Some(d) => d.devices.len(),
        None => 0,
    };
    remote_count + 1
}

/// What pressing Enter dispatches: the first entry switches to local
/// playback; a later entry transfers playback to the remote device at that
/// position, when the device list has it and it carries an id.  Anything
/// else leaves the state untouched.
pub open spec fn enter_step(pre: App, post: App) -> bool {
    match pre.selected_device_index {
        None => post == pre,
        Some(index) => {
            if index == 0 {
                &&& same_but_io(post, pre)
                &&& post.io_events@ =~= pre.io_events@.push(IoEvent::SwitchToLocalPlayback)
            } else {
                match pre.devices {
                    Some(dp) => {
                        if index - 1 < dp.devices@.len() {
                            match dp.devices@[index - 1].id {
                                Some(id) => {
                                    &&& same_but_io(post, pre)
                                    &&& post.io_events@ =~= pre.io_events@.push(
                                        IoEvent::TransferPlaybackToDevice(id),
                                    )
                                },
                                None => post == pre,
                            }
                        } else {
                            post == pre
                        }
                    },
                    None => post == pre,
                }
            }
        },
    }
}

/// The device pane's reaction to one key press.
pub open spec fn select_device_step(pre: App, key: Key, post: App) -> bool {
    let count = spec_device_count(pre);
    if key == Key::Esc {
        nav_state_set(post, pre, Some(ActiveBlock::Library), None)
    } else if common_key_events::is_down_key(key) {
        &&& same_but_selection(post, pre)
        &&& post.selected_device_index == (match pre.selected_device_index {
            Some(i) => Some(common_key_events::next_index_down(count, Some(i)) as usize),
            None => pre.selected_device_index,
        })
    } else if common_key_events::is_up_key(key) {
        &&& same_but_selection(post, pre)
        &&& post.selected_device_index == (match pre.selected_device_index {
            Some(i) => Some(common_key_events::next_index_up(count, Some(i)) as usize),
            None => pre.selected_device_index,
        })
    } else if common_key_events::is_high_key(key) {
        &&& same_but_selection(post, pre)
        &&& post.selected_device_index == Some(0usize)
    } else if common_key_events::is_middle_key(key) {
        &&& same_but_selection(post, pre)
        &&& post.selected_device_index == Some((count / 2) as usize)
    } else if common_key_events::is_low_key(key) {
        &&& same_but_selection(post, pre)
        &&& post.selected_device_index == Some((count - 1) as usize)
    } else if key == Key::Enter {
        enter_step(pre, post)
    } else {
        post == pre
    }
}

/// React to one key press on the device selection pane.
pub fn handler(key: Key, app: &mut App)
    requires
        devices_in_range(*old(app)),
    ensures
        select_device_step(*old(app), key, *final(app)),
{
    if key == Key::Esc {
        app.set_current_route_state(Some(ActiveBlock::Library), None);
    } else if common_key_events::down_event(key) {
        let device_count = get_device_count(app);
        if device_count > 0 {
            if let Some(selected_device_index) = app.selected_device_index {
                let next_index = if selected_device_index >= device_count - 1 {
                    0
                } else {
                    selected_device_index + 1
                };
                app.selected_device_index = Some(next_index);
            }
        }
    } else if common_key_events::up_event(key) {
        let device_count = get_device_count(app);
        if device_count > 0 {
            if let Some(selected_device_index) = app.selected_device_index {
                let next_index = if selected_device_index == 0 {
                    device_count - 1
                } else {
                    selected_device_index - 1
                };
                app.selected_device_index = Some(next_index);
            }
        }
    } else if common_key_events::high_event(key) {
        if get_device_count(app) > 0 {
            app.selected_device_index = Some(0);
        }
    } else if common_key_events::middle_event(key) {
        let device_count = get_device_count(app);
        if device_count > 0 {
            app.selected_device_index = Some(device_count / 2);
        }
    } else if common_key_events::low_event(key) {
        let device_count = get_device_count(app);
        if device_count > 0 {
            app.selected_device_index = Some(device_count - 1);
        }
    } else if key == Key::Enter {
        if let Some(index) = app.selected_device_index {
            // The first entry stands for local playback; switching to it is
            // handled by the network layer.
            if index == 0 {
                app.dispatch(IoEvent::SwitchToLocalPlayback);
                return;
            }
            // Later entries are remote devices, shifted down by one.
            let remote_index = index - 1;
            let device_id: Option<String> = match &app.devices {
                Some(devices) => {
                    if remote_index < devices.devices.len() {
                        match &devices.devices[remote_index].id {
                            Some(id) => Some(id.clone()),
                            None => None,
                        }
                    } else {
                        None
                    }
                },
                None => None,
            };
            if let Some(device_id) = device_id {
                app.dispatch(IoEvent::TransferPlaybackToDevice(device_id));
            }
        }
    }
}

} // verus!
