//! Local playback: the command/event bridge and the worker state machine.
//!
//! The UI thread and the worker thread communicate only over two unbounded
//! channels: commands one way, events the other.  [`LocalPlayer`] is the
//! UI-facing handle holding the sending half of the command channel and the
//! receiving half of the event channel.  Within each channel, delivery
//! order is send order; across the two channels no interleaving is
//! guaranteed, so the UI must not assume request/response semantics.

pub mod commands;
pub mod events;
pub mod oauth;
pub mod worker;

use commands::PlayerCommand;
use events::PlayerEvent;
use vstd::prelude::*;

verus! {

#[verifier::external_type_specification]
#[verifier::external_body]
#[verifier::reject_recursive_types(T)]
/// The sending half of a std mpsc channel, declared so it can stand in
/// fields and signatures.
pub struct ExSender<T>(std::sync::mpsc::Sender<T>);

#[verifier::external_type_specification]
#[verifier::external_body]
#[verifier::reject_recursive_types(T)]
/// The receiving half of a std mpsc channel, declared so it can stand in
/// fields and signatures.
pub struct ExReceiver<T>(std::sync::mpsc::Receiver<T>);

#[verifier::external_type_specification]
#[verifier::external_body]
#[verifier::reject_recursive_types(T)]
/// The error a std mpsc send reports when the receiver is gone.
pub struct ExSendError<T>(std::sync::mpsc::SendError<T>);

/// Relies on std's `mpsc::Sender::send`: queues the value for the receiver
/// and fails exactly when the receiver has been dropped; which of the two
/// occurs depends on the other thread, so nothing is promised of the result.
#[verifier::external_body]
fn channel_send<T>(tx: &std::sync::mpsc::Sender<T>, value: T) -> Result<
    (),
    std::sync::mpsc::SendError<T>,
> {
    tx.send(value)
}

/// Relies on std's `mpsc::Receiver::try_recv`: the next queued value
/// without blocking, or nothing when the queue is empty or the sender is
/// gone; what arrives depends on the other thread, so nothing is promised of
/// the result.
#[verifier::external_body]
fn channel_try_recv<T>(rx: &std::sync::mpsc::Receiver<T>) -> Option<T> {
    rx.try_recv().ok()
}

/// Represents the current playback mode.
#[derive(Debug, Clone, PartialEq)]
pub enum PlaybackMode {
    /// Playback through the local player worker.
    Local,
    /// Playback through a remote network-connected device, identified by an
    /// optional device id.
    Remote(Option<String>),
}

impl Default for PlaybackMode {
    /// Remote playback with no device chosen.
    fn default() -> (m: Self)
        ensures
            m matches PlaybackMode::Remote(d) && d is None,
    {
        PlaybackMode::Remote(None)
    }
}

/// Current state of the local player, as the UI tracks it.
#[derive(Debug, Clone)]
pub struct LocalPlayerState {
    /// Whether the player has been initialized.
    pub is_initialized: bool,
    /// Whether playback is currently active.
    pub is_playing: bool,
    /// Current track URI (if any).
    pub current_track_uri: Option<String>,
    /// Current position in milliseconds.
    pub position_ms: u32,
    /// Duration of the current track in milliseconds.
    pub duration_ms: u32,
    /// Current volume (0-65535).
    pub volume: u16,
}

impl Default for LocalPlayerState {
    /// Uninitialized, not playing, nothing loaded, everything at zero.
    fn default() -> (s: Self)
        ensures
            !s.is_initialized,
            !s.is_playing,
            s.current_track_uri is None,
            s.position_ms == 0,
            s.duration_ms == 0,
            s.volume == 0,
    {
        LocalPlayerState {
            is_initialized: false,
            is_playing: false,
            current_track_uri: None,
            position_ms: 0,
            duration_ms: 0,
            volume: 0,
        }
    }
}

/// Handle for controlling the local player from the main application.
pub struct LocalPlayer {
    /// Sender to send commands to the player worker thread.
    pub command_tx: std::sync::mpsc::Sender<PlayerCommand>,
    /// Receiver to receive events from the player worker thread.
    pub event_rx: std::sync::mpsc::Receiver<PlayerEvent>,
    /// Current playback state.
    pub state: LocalPlayerState,
}

impl LocalPlayer {
    /// Create a new local player handle from the UI-facing channel halves.
    pub fn new(
        command_tx: std::sync::mpsc::Sender<PlayerCommand>,
        event_rx: std::sync::mpsc::Receiver<PlayerEvent>,
    ) -> (p: Self)
        ensures
            !p.state.is_initialized,
            !p.state.is_playing,
            p.state.current_track_uri is None,
            p.state.position_ms == 0,
            p.state.duration_ms == 0,
            p.state.volume == 0,
    {
        LocalPlayer { command_tx, event_rx, state: Default::default() }
    }

    /// Send a command to the player worker.  Fails only when the worker is
    /// gone and has dropped its receiving half.
    pub fn send_command(&self, cmd: PlayerCommand) -> Result<
        (),
        std::sync::mpsc::SendError<PlayerCommand>,
    > {
        channel_send(&self.command_tx, cmd)
    }

    /// Try to receive an event from the player worker, without blocking.
    pub fn try_recv_event(&self) -> Option<PlayerEvent> {
        channel_try_recv(&self.event_rx)
    }
}

} // verus!
