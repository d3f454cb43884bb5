//! Commands for controlling the local player.
//!
//! These commands are sent from the main thread to the player worker thread.

use vstd::prelude::*;

verus! {

/// Commands that can be sent to the player worker.
#[derive(Debug, Clone)]
pub enum PlayerCommand {
    /// Initialize the player with OAuth configuration.
    Initialize {
        /// Client ID for OAuth.
        client_id: String,
        /// Redirect port for the OAuth callback.
        redirect_port: u16,
    },
    /// Load a track and optionally start playing.
    Load {
        /// Track URI of the form `service:track:<id>`.
        uri: String,
        /// Whether to start playing immediately.
        start_playing: bool,
        /// Position to start at (in milliseconds).
        position_ms: u32,
    },
    /// Start or resume playback.
    Play,
    /// Pause playback.
    Pause,
    /// Stop playback completely.
    Stop,
    /// Seek to a position (in milliseconds).
    Seek(u32),
    /// Set volume (0-65535, where 65535 is 100%).
    SetVolume(u16),
    /// Preload a track for gapless playback.
    Preload(String),
    /// Shut down the player worker.
    Shutdown,
}

impl PlayerCommand {
    /// Create a load command with defaults: start playing at the beginning.
    pub fn load(uri: String) -> (cmd: Self)
        ensures
            cmd matches PlayerCommand::Load { uri: u, start_playing, position_ms }
                && u@ == uri@ && start_playing && position_ms == 0,
    {
        Self::Load { uri, start_playing: true, position_ms: 0 }
    }

    /// Create a load command starting at a specific position.
    pub fn load_at(uri: String, position_ms: u32) -> (cmd: Self)
        ensures
            cmd matches PlayerCommand::Load { uri: u, start_playing, position_ms: p }
                && u@ == uri@ && start_playing && p == position_ms,
    {
        Self::Load { uri, start_playing: true, position_ms }
    }

    /// Create a load command without auto-play.
    pub fn load_paused(uri: String) -> (cmd: Self)
        ensures
            cmd matches PlayerCommand::Load { uri: u, start_playing, position_ms }
                && u@ == uri@ && !start_playing && position_ms == 0,
    {
        Self::Load { uri, start_playing: false, position_ms: 0 }
    }
}

} // verus!
