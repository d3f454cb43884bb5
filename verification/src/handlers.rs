//! Keyboard handlers: one module per pane, plus shared key classification.

pub mod common_key_events;
pub mod recently_played;
pub mod select_device;
