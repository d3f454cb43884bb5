//! Key classification and list-navigation arithmetic shared by the handlers.

use crate::app::{ActiveBlock, App};
use crate::event::Key;
use vstd::prelude::*;

verus! {

/// Keys that move the selection down.
pub open spec fn is_down_key(key: Key) -> bool {
    key == Key::Down || key == Key::Char('j')
}

/// Keys that move the selection up.
pub open spec fn is_up_key(key: Key) -> bool {
    key == Key::Up || key == Key::Char('k')
}

/// Keys that move focus to the left.
pub open spec fn is_left_key(key: Key) -> bool {
    key == Key::Left || key == Key::Char('h')
}

/// Keys that move focus to the right.
pub open spec fn is_right_key(key: Key) -> bool {
    key == Key::Right || key == Key::Char('l')
}

/// The key that jumps to the top of a list.
pub open spec fn is_high_key(key: Key) -> bool {
    key == Key::Char('H')
}

/// The key that jumps to the middle of a list.
pub open spec fn is_middle_key(key: Key) -> bool {
    key == Key::Char('M')
}

/// The key that jumps to the bottom of a list.
pub open spec fn is_low_key(key: Key) -> bool {
    key == Key::Char('L')
}

/// True for keys that move the selection down.
pub fn down_event(key: Key) -> (r: bool)
    ensures
        r == is_down_key(key),
{
    matches!(key, Key::Down | Key::Char('j'))
}

/// True for keys that move the selection up.
pub fn up_event(key: Key) -> (r: bool)
    ensures
        r == is_up_key(key),
{
    matches!(key, Key::Up | Key::Char('k'))
}

/// True for keys that move focus to the left.
pub fn left_event(key: Key) -> (r: bool)
    ensures
        r == is_left_key(key),
{
    matches!(key, Key::Left | Key::Char('h'))
}

/// True for keys that move focus to the right.
pub fn right_event(key: Key) -> (r: bool)
    ensures
        r == is_right_key(key),
{
    matches!(key, Key::Right | Key::Char('l'))
}

/// True for the key that jumps to the top of a list.
pub fn high_event(key: Key) -> (r: bool)
    ensures
        r == is_high_key(key),
{
    matches!(key, Key::Char('H'))
}

/// True for the key that jumps to the middle of a list.
pub fn middle_event(key: Key) -> (r: bool)
    ensures
        r == is_middle_key(key),
{
    matches!(key, Key::Char('M'))
}

/// True for the key that jumps to the bottom of a list.
pub fn low_event(key: Key) -> (r: bool)
    ensures
        r == is_low_key(key),
{
    matches!(key, Key::Char('L'))
}

/// The selection index after a down press: one step down, wrapping from the
/// last entry to the first.
pub open spec fn next_index_down(len: nat, index: Option<usize>) -> nat {
    match index {
        Some(i) => if len > 0 {
            if i + 1 > len - 1 {
                0
            } else {
                (i + 1) as nat
            }
        } else {
            0
        },
        None => 0,
    }
}

/// The selection index after an up press: one step up, wrapping from the
/// first entry to the last.
pub open spec fn next_index_up(len: nat, index: Option<usize>) -> nat {
    match index {
        Some(i) => if len > 0 {
            if i > 0 {
                (i - 1) as nat
            } else {
                (len - 1) as nat
            }
        } else {
            0
        },
        None => 0,
    }
}

/// Move the selection one entry down, wrapping at the end of the list.
pub fn on_down_press_handler<T>(selection_data: &Vec<T>, selection_index: Option<usize>) -> (r: usize)
    ensures
        r == next_index_down(selection_data@.len(), selection_index),
{
    match selection_index {
        Some(selection_index) => {
            if selection_data.len() > 0 {
                if selection_index >= selection_data.len() - 1 {
                    0
                } else {
                    selection_index + 1
                }
            } else {
                0
            }
        }
        None => 0,
    }
}

/// Move the selection one entry up, wrapping at the start of the list.
pub fn on_up_press_handler<T>(selection_data: &Vec<T>, selection_index: Option<usize>) -> (r: usize)
    ensures
        r == next_index_up(selection_data@.len(), selection_index),
{
    match selection_index {
        Some(selection_index) => {
            if selection_data.len() > 0 {
                if selection_index > 0 {
                    selection_index - 1
                } else {
                    selection_data.len() - 1
                }
            } else {
                0
            }
        }
        None => 0,
    }
}

/// Jump the selection to the first entry.
pub fn on_high_press_handler() -> (r: usize)
    ensures
        r == 0,
{
    0
}

/// Jump the selection to the middle entry.
pub fn on_middle_press_handler<T>(selection_data: &Vec<T>) -> (r: usize)
    ensures
        r == selection_data@.len() / 2,
{
    selection_data.len() / 2
}

/// Jump the selection to the last entry, or the first for an empty list.
pub fn on_low_press_handler<T>(selection_data: &Vec<T>) -> (r: usize)
    ensures
        selection_data@.len() > 0 ==> r == selection_data@.len() - 1,
        selection_data@.len() == 0 ==> r == 0,
{
    if selection_data.len() > 0 {
        selection_data.len() - 1
    } else {
        0
    }
}

/// Leave the current pane: focus moves away and the library is hovered.
pub fn handle_left_event(app: &mut App)
    ensures
        crate::app::nav_state_set(
            *final(app),
            *old(app),
            Some(ActiveBlock::Empty),
            Some(ActiveBlock::Library),
        ),
{
    app.set_current_route_state(Some(ActiveBlock::Empty), Some(ActiveBlock::Library));
}

} // verus!
