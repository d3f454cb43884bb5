//! The player worker's state machine.
//!
//! The worker runs on a background thread and drives an opaque external
//! audio engine.  Everything the worker *decides* is here, verified: how each
//! command changes its state, which events it emits, and which engine actions
//! it asks for.  The embedding application runs the loop around this state
//! machine: it polls the command channel, performs the [`EngineAction`]s
//! against the real engine, feeds engine events back in as [`EngineEvent`]s,
//! and forwards the produced [`PlayerEvent`]s to the UI.

use super::commands::PlayerCommand;
use super::events::PlayerEvent;
use super::oauth::{auth_error_message, AuthError};
use vstd::prelude::*;
use vstd::string::{StringExecFns, StringSliceAdditionalSpecFns};
use vstd::utf8::encode_utf8;

verus! {

/// Audio encoding bitrate, in kilobits per second.
#[derive(Debug, Clone, Copy, PartialEq, Eq, Structural)]
pub enum Bitrate {
    /// 96 kbit/s.
    Bitrate96,
    /// 160 kbit/s.
    Bitrate160,
    /// 320 kbit/s.
    Bitrate320,
}

/// The default cache budget: one gibibyte.
pub const DEFAULT_CACHE_SIZE: u64 = 1024 * 1024 * 1024;

/// Configuration for the player worker, supplied once at construction.
#[derive(Debug, Clone)]
pub struct PlayerWorkerConfig {
    /// Audio backend to use (`None` for the platform default).
    pub audio_backend: Option<String>,
    /// Specific audio device (`None` for the default device).
    pub audio_device: Option<String>,
    /// Audio bitrate.
    pub bitrate: Bitrate,
    /// Enable volume normalization.
    pub normalize_volume: bool,
    /// Cache directory for credentials and audio files.
    pub cache_path: Option<String>,
    /// Maximum cache size in bytes.
    pub cache_size: Option<u64>,
}

impl Default for PlayerWorkerConfig {
    /// Platform-default audio, highest bitrate, normalization on, a
    /// one-gibibyte cache budget and no cache directory.
    fn default() -> (c: Self)
        ensures
            c.audio_backend is None,
            c.audio_device is None,
            c.bitrate == Bitrate::Bitrate320,
            c.normalize_volume,
            c.cache_path is None,
            c.cache_size == Some(DEFAULT_CACHE_SIZE),
    {
        PlayerWorkerConfig {
            audio_backend: None,
            audio_device: None,
            bitrate: Bitrate::Bitrate320,
            normalize_volume: true,
            cache_path: None,
            cache_size: Some(DEFAULT_CACHE_SIZE),
        }
    }
}

/// A failure of the engine adapter.
#[derive(Debug, Clone)]
pub enum EngineError {
    /// The configured audio backend could not be resolved.
    BackendNotFound,
    /// No volume mixer was available.
    MixerUnavailable,
    /// The given string is not a well-formed track URI; carries it.
    InvalidUri(String),
    /// The engine session could not be connected.
    SessionConnectFailed,
}

/// The words of each [`EngineError`], used by [`EngineError::message`].
pub open spec fn engine_error_message(e: EngineError) -> Seq<char> {
    match e {
        EngineError::BackendNotFound => "Audio backend not found"@,
        EngineError::MixerUnavailable => "No mixer available"@,
        EngineError::InvalidUri(u) => "invalid track URI: "@ + u@,
        EngineError::SessionConnectFailed => "Failed to connect session"@,
    }
}

impl EngineError {
    /// A human-readable description of the failure.
    pub fn message(&self) -> (r: String)
        ensures
            r@ == engine_error_message(*self),
    {
        match self {
            EngineError::BackendNotFound => String::from_str("Audio backend not found"),
            EngineError::MixerUnavailable => String::from_str("No mixer available"),
            EngineError::InvalidUri(u) => {
                let mut m = String::from_str("invalid track URI: ");
                m.append(u.as_str());
                m
            },
            EngineError::SessionConnectFailed => String::from_str("Failed to connect session"),
        }
    }
}

/// A failure of the initialization handshake: either the OAuth bootstrap or
/// the engine setup went wrong.
#[derive(Debug, Clone)]
pub enum InitError {
    /// The OAuth bootstrap failed.
    Auth(AuthError),
    /// The engine session or player could not be set up.
    Engine(EngineError),
}

/// The words of each [`InitError`], used by [`InitError::message`].
pub open spec fn init_error_message(e: InitError) -> Seq<char> {
    match e {
        InitError::Auth(a) => auth_error_message(a),
        InitError::Engine(a) => engine_error_message(a),
    }
}

impl InitError {
    /// A human-readable description of the failure.
    pub fn message(&self) -> (r: String)
        ensures
            r@ == init_error_message(*self),
    {
        match self {
            InitError::Auth(a) => a.message(),
            InitError::Engine(a) => a.message(),
        }
    }
}

/// An event of the external engine's own stream, as a plain value.
#[derive(Debug, Clone)]
pub enum EngineEvent {
    /// Playback is running at the given position.
    Playing {
        /// Position in milliseconds.
        position_ms: u32,
    },
    /// Playback is paused at the given position.
    Paused {
        /// Position in milliseconds.
        position_ms: u32,
    },
    /// Playback has stopped.
    Stopped,
    /// The current track played to its end.
    EndOfTrack,
    /// The engine wants the next track preloaded now.
    TimeToPreloadNextTrack,
    /// The engine is loading a track.
    Loading,
    /// The track cannot be played (rights, region, or key failure).
    Unavailable {
        /// The engine's description of the affected track.
        track_id: String,
    },
    /// Any engine event the bridge does not surface.
    Other,
}

/// An operation the worker asks the embedding loop to perform against the
/// external engine.
#[derive(Debug, Clone)]
pub enum EngineAction {
    /// Run the initialization handshake (OAuth bootstrap, session connect,
    /// player construction) and report the outcome via
    /// [`PlayerWorker::complete_initialize`].
    Initialize {
        /// OAuth client id requested by the UI.
        client_id: String,
        /// OAuth callback port requested by the UI.
        redirect_port: u16,
    },
    /// Load the track with the given URI.
    Load {
        /// The track URI.
        uri: String,
        /// Whether to start playing immediately.
        start_playing: bool,
        /// Position to start at (in milliseconds).
        position_ms: u32,
    },
    /// Start or resume playback.
    Play,
    /// Pause playback.
    Pause,
    /// Stop playback.
    Stop,
    /// Seek to a position (in milliseconds).
    Seek(u32),
    /// Preload the track with the given URI.
    Preload {
        /// The track URI.
        uri: String,
    },
}

/// What one command produced: events for the UI and actions for the engine.
/// The loop performs the actions first, then forwards the events.
#[derive(Debug)]
pub struct CommandOutcome {
    /// Events to forward to the UI, in order.
    pub events: Vec<PlayerEvent>,
    /// Engine actions to perform, in order.
    pub actions: Vec<EngineAction>,
}

/// The byte form of the track URI prefix `service:track:`.
pub open spec fn track_uri_prefix() -> Seq<u8> {
    seq![
        ('s' as u8), ('e' as u8), ('r' as u8), ('v' as u8), ('i' as u8), ('c' as u8),
        ('e' as u8), (':' as u8), ('t' as u8), ('r' as u8), ('a' as u8), ('c' as u8),
        ('k' as u8), (':' as u8),
    ]
}

/// A valid track URI: the bytes `service:track:` followed by a nonempty
/// opaque id containing no further colon.
pub open spec fn valid_track_uri_bytes(b: Seq<u8>) -> bool {
    b.len() > 14 && b.subrange(0, 14) == track_uri_prefix() && (forall|i: int|
        14 <= i < b.len() ==> b[i] != (':' as u8))
}

/// A valid track URI, over the characters of the URI string.
pub open spec fn valid_uri(u: Seq<char>) -> bool {
    valid_track_uri_bytes(encode_utf8(u))
}

/// Whether a track URI is well-formed (`service:track:<opaque-id>`).
pub fn is_valid_track_uri(uri: &str) -> (r: bool)
    ensures
        r == valid_uri(uri@),
{
    let b = uri.as_bytes();
    if b.len() <= 14 {
        return false;
    }
    let prefix: Vec<u8> = vec![
        's' as u8, 'e' as u8, 'r' as u8, 'v' as u8, 'i' as u8, 'c' as u8,
        'e' as u8, ':' as u8, 't' as u8, 'r' as u8, 'a' as u8, 'c' as u8,
        'k' as u8, ':' as u8,
    ];
    proof {
        assert(prefix@ =~= track_uri_prefix());
    }
    let mut i: usize = 0;
    while i < 14
        invariant
            i <= 14,
            b@ == uri.spec_bytes(),
            b@.len() > 14,
            prefix@ =~= track_uri_prefix(),
            prefix@.len() == 14,
            forall|k: int| 0 <= k < i ==> b@[k] == track_uri_prefix()[k],
        decreases 14 - i,
    {
        if b[i] != prefix[i] {
            proof {
                assert(b@.subrange(0, 14)[i as int] != track_uri_prefix()[i as int]);
            }
            return false;
        }
        i = i + 1;
    }
    proof {
        assert(b@.subrange(0, 14) =~= track_uri_prefix());
    }
    let mut j: usize = 14;
    while j < b.len()
        invariant
            b@ == uri.spec_bytes(),
            b@.subrange(0, 14) == track_uri_prefix(),
            14 <= j <= b@.len(),
            b@.len() > 14,
            forall|k: int| 14 <= k < j ==> b@[k] != (':' as u8),
        decreases b@.len() - j,
    {
        if b[j] == ':' as u8 {
            return false;
        }
        j = j + 1;
    }
    true
}

/// The message of the error event for a `Load` of a malformed URI.
pub open spec fn load_invalid_msg(u: Seq<char>) -> Seq<char> {
    "Failed to load track: invalid track URI: "@ + u
}

/// [`load_invalid_msg`] is the load prefix on the [`EngineError::InvalidUri`]
/// message for the same URI.
pub proof fn lemma_load_invalid_msg_is_engine_error(uri: String)
    ensures
        load_invalid_msg(uri@) == "Failed to load track: "@ + engine_error_message(
            EngineError::InvalidUri(uri),
        ),
{
    reveal_strlit("Failed to load track: invalid track URI: ");
    reveal_strlit("Failed to load track: ");
    reveal_strlit("invalid track URI: ");
    assert(load_invalid_msg(uri@) =~= "Failed to load track: "@ + ("invalid track URI: "@
        + uri@));
}

/// The message of the error event for a `Load` before initialization.
pub open spec fn load_uninitialized_msg() -> Seq<char> {
    "Failed to load track: Player not initialized"@
}

/// The message of the error event for a `Preload` of a malformed URI.
pub open spec fn preload_invalid_msg(u: Seq<char>) -> Seq<char> {
    "Failed to preload track: invalid track URI: "@ + u
}

/// The message of the error event for an engine `Unavailable` report.
pub open spec fn unavailable_msg(track_id: Seq<char>) -> Seq<char> {
    "Track unavailable: "@ + track_id
}

/// The player worker's own state.  The live engine and session handles
/// themselves are owned by the embedding loop; `initialized` mirrors
/// whether they exist.
#[derive(Debug)]
pub struct PlayerWorker {
    /// Configuration supplied at construction, never mutated.
    pub config: PlayerWorkerConfig,
    /// Whether the initialization handshake has completed successfully.
    pub initialized: bool,
    /// URI of the loaded track; `None` when stopped.
    pub current_track_uri: Option<String>,
    /// Current volume (0-65535).
    pub current_volume: u16,
    /// Whether the worker loop must exit.
    pub terminated: bool,
}

/// All fields of `post` equal those of `pre`.
pub open spec fn state_like(post: PlayerWorker, pre: PlayerWorker) -> bool {
    &&& post.config == pre.config
    &&& post.initialized == pre.initialized
    &&& post.current_track_uri == pre.current_track_uri
    &&& post.current_volume == pre.current_volume
    &&& post.terminated == pre.terminated
}

/// The command dispatch relation: how the worker state changes and what one
/// command emits.
///
/// - `Initialize` always requests the handshake action; the state changes
///   only when the outcome is reported back.
/// - `Load` with a malformed URI, or before initialization, emits one
///   `Error` and touches nothing; otherwise it records the URI and requests
///   the load.
/// - `Play`/`Pause`/`Seek` pass through when initialized and are silently
///   ignored otherwise.
/// - `Stop` always clears the track URI and passes through when initialized.
/// - `SetVolume` records the volume and emits `VolumeChanged`, in any state.
/// - `Preload` with a malformed URI emits one `Error`; otherwise it passes
///   through when initialized and is silently ignored before initialization.
/// - `Shutdown` stops the engine when initialized, marks the loop
///   terminated, and emits the terminal `Shutdown` event.
pub open spec fn command_step(
    pre: PlayerWorker,
    cmd: PlayerCommand,
    post: PlayerWorker,
    out: CommandOutcome,
) -> bool {
    match cmd {
        PlayerCommand::Initialize { client_id, redirect_port } => {
            &&& state_like(post, pre)
            &&& out.events@.len() == 0
            &&& out.actions@.len() == 1
            &&& (out.actions@[0] matches EngineAction::Initialize { client_id: c, redirect_port: p }
                && c@ == client_id@ && p == redirect_port)
        },
        PlayerCommand::Load { uri, start_playing, position_ms } => {
            if !valid_uri(uri@) {
                &&& state_like(post, pre)
                &&& out.actions@.len() == 0
                &&& out.events@.len() == 1
                &&& (out.events@[0] matches PlayerEvent::Error { message } && message@
                    == load_invalid_msg(uri@))
            } else if !pre.initialized {
                &&& state_like(post, pre)
                &&& out.actions@.len() == 0
                &&& out.events@.len() == 1
                &&& (out.events@[0] matches PlayerEvent::Error { message } && message@
                    == load_uninitialized_msg())
            } else {
                &&& post.config == pre.config
                &&& post.initialized == pre.initialized
                &&& post.current_volume == pre.current_volume
                &&& post.terminated == pre.terminated
                &&& (post.current_track_uri matches Some(u) && u@ == uri@)
                &&& out.events@.len() == 0
                &&& out.actions@.len() == 1
                &&& (out.actions@[0] matches EngineAction::Load {
                    uri: u,
                    start_playing: sp,
                    position_ms: p,
                } && u@ == uri@ && sp == start_playing && p == position_ms)
            }
        },
        PlayerCommand::Play => {
            &&& state_like(post, pre)
            &&& out.events@.len() == 0
            &&& if pre.initialized {
                out.actions@.len() == 1 && out.actions@[0] is Play
            } else {
                out.actions@.len() == 0
            }
        },
        PlayerCommand::Pause => {
            &&& state_like(post, pre)
            &&& out.events@.len() == 0
            &&& if pre.initialized {
                out.actions@.len() == 1 && out.actions@[0] is Pause
            } else {
                out.actions@.len() == 0
            }
        },
        PlayerCommand::Stop => {
            &&& post.config == pre.config
            &&& post.initialized == pre.initialized
            &&& post.current_volume == pre.current_volume
            &&& post.terminated == pre.terminated
            &&& post.current_track_uri is None
            &&& out.events@.len() == 0
            &&& if pre.initialized {
                out.actions@.len() == 1 && out.actions@[0] is Stop
            } else {
                out.actions@.len() == 0
            }
        },
        PlayerCommand::Seek(pos) => {
            &&& state_like(post, pre)
            &&& out.events@.len() == 0
            &&& if pre.initialized {
                out.actions@.len() == 1 && (out.actions@[0] matches EngineAction::Seek(q) && q
                    == pos)
            } else {
                out.actions@.len() == 0
            }
        },
        PlayerCommand::SetVolume(v) => {
            &&& post.config == pre.config
            &&& post.initialized == pre.initialized
            &&& post.current_track_uri == pre.current_track_uri
            &&& post.terminated == pre.terminated
            &&& post.current_volume == v
            &&& out.actions@.len() == 0
            &&& out.events@.len() == 1
            &&& (out.events@[0] matches PlayerEvent::VolumeChanged { volume } && volume == v)
        },
        PlayerCommand::Preload(uri) => {
            if !valid_uri(uri@) {
                &&& state_like(post, pre)
                &&& out.actions@.len() == 0
                &&& out.events@.len() == 1
                &&& (out.events@[0] matches PlayerEvent::Error { message } && message@
                    == preload_invalid_msg(uri@))
            } else if pre.initialized {
                &&& state_like(post, pre)
                &&& out.events@.len() == 0
                &&& out.actions@.len() == 1
                &&& (out.actions@[0] matches EngineAction::Preload { uri: u } && u@ == uri@)
            } else {
                &&& state_like(post, pre)
                &&& out.events@.len() == 0
                &&& out.actions@.len() == 0
            }
        },
        PlayerCommand::Shutdown => {
            &&& post.config == pre.config
            &&& post.initialized == pre.initialized
            &&& post.current_track_uri == pre.current_track_uri
            &&& post.current_volume == pre.current_volume
            &&& post.terminated
            &&& if pre.initialized {
                out.actions@.len() == 1 && out.actions@[0] is Stop
            } else {
                out.actions@.len() == 0
            }
            &&& out.events@.len() == 1
            &&& out.events@[0] is Shutdown
        },
    }
}

/// How reporting the initialization outcome changes the state: success marks
/// the worker initialized and yields `Initialized`; failure leaves the state
/// as it was and yields `InitializationFailed` with the failure's message.
pub open spec fn init_step(
    pre: PlayerWorker,
    result: Result<(), InitError>,
    post: PlayerWorker,
    ev: PlayerEvent,
) -> bool {
    match result {
        Ok(_) => {
            &&& post.config == pre.config
            &&& post.initialized
            &&& post.current_track_uri == pre.current_track_uri
            &&& post.current_volume == pre.current_volume
            &&& post.terminated == pre.terminated
            &&& ev is Initialized
        },
        Err(e) => {
            &&& state_like(post, pre)
            &&& (ev matches PlayerEvent::InitializationFailed { message } && message@
                == init_error_message(e))
        },
    }
}

/// The engine-event translation relation, against the worker's current
/// track URI (empty when none is loaded): each engine event maps to exactly
/// one bridge event or to none.
pub open spec fn engine_event_step(uri: Seq<char>, event: EngineEvent, r: Option<PlayerEvent>) -> bool {
    match event {
        EngineEvent::Playing { position_ms } => r matches Some(e) && (e
            matches PlayerEvent::Playing { track_uri, position_ms: p, duration_ms } && track_uri@
            == uri && p == position_ms && duration_ms == 0),
        EngineEvent::Paused { position_ms } => r matches Some(e) && (e
            matches PlayerEvent::Paused { track_uri, position_ms: p } && track_uri@ == uri && p
            == position_ms),
        EngineEvent::Stopped => r matches Some(e) && e is Stopped,
        EngineEvent::EndOfTrack => r matches Some(e) && (e matches PlayerEvent::TrackEnded {
            track_uri,
        } && track_uri@ == uri),
        EngineEvent::TimeToPreloadNextTrack => r matches Some(e) && e is TimeToPreloadNextTrack,
        EngineEvent::Loading => r matches Some(e) && (e matches PlayerEvent::Loading { track_uri }
            && track_uri@ == uri),
        EngineEvent::Unavailable { track_id } => r matches Some(e) && (e
            matches PlayerEvent::Error { message } && message@ == unavailable_msg(track_id@)),
        EngineEvent::Other => r is None,
    }
}

/// The worker's current track URI, or the empty sequence when none is
/// loaded.
pub open spec fn uri_or_empty(o: Option<String>) -> Seq<char> {
    match o {
        Some(u) => u@,
        None => Seq::empty(),
    }
}

impl PlayerWorker {
    /// A fresh worker: uninitialized, nothing loaded, volume at half of the
    /// 16-bit range.
    pub fn new(config: PlayerWorkerConfig) -> (w: Self)
        ensures
            w.config == config,
            !w.initialized,
            w.current_track_uri is None,
            w.current_volume == 32767,
            !w.terminated,
    {
        PlayerWorker {
            config,
            initialized: false,
            current_track_uri: None,
            current_volume: u16::MAX / 2,
            terminated: false,
        }
    }

    /// Dispatch one command: apply its state change and report the events
    /// and engine actions it produces, per [`command_step`].
    pub fn on_command(&mut self, cmd: PlayerCommand) -> (out: CommandOutcome)
        ensures
            command_step(*old(self), cmd, *final(self), out),
    {
        let mut events: Vec<PlayerEvent> = Vec::new();
        let mut actions: Vec<EngineAction> = Vec::new();
        match cmd {
            PlayerCommand::Initialize { client_id, redirect_port } => {
                actions.push(EngineAction::Initialize { client_id, redirect_port });
            },
            PlayerCommand::Load { uri, start_playing, position_ms } => {
                if !is_valid_track_uri(uri.as_str()) {
                    let mut m = String::from_str("Failed to load track: invalid track URI: ");
                    m.append(uri.as_str());
                    events.push(PlayerEvent::Error { message: m });
                } else if !self.initialized {
                    events.push(PlayerEvent::Error {
                        message: String::from_str("Failed to load track: Player not initialized"),
                    });
                } else {
                    self.current_track_uri = Some(uri.clone());
                    actions.push(EngineAction::Load { uri, start_playing, position_ms });
                }
            },
            PlayerCommand::Play => {
                if self.initialized {
                    actions.push(EngineAction::Play);
                }
            },
            PlayerCommand::Pause => {
                if self.initialized {
                    actions.push(EngineAction::Pause);
                }
            },
            PlayerCommand::Stop => {
                if self.initialized {
                    actions.push(EngineAction::Stop);
                }
                self.current_track_uri = None;
            },
            PlayerCommand::Seek(pos) => {
                if self.initialized {
                    actions.push(EngineAction::Seek(pos));
                }
            },
            PlayerCommand::SetVolume(v) => {
                self.current_volume = v;
                events.push(PlayerEvent::VolumeChanged { volume: v });
            },
            PlayerCommand::Preload(uri) => {
                if !is_valid_track_uri(uri.as_str()) {
                    let mut m = String::from_str("Failed to preload track: invalid track URI: ");
                    m.append(uri.as_str());
                    events.push(PlayerEvent::Error { message: m });
                } else if self.initialized {
                    actions.push(EngineAction::Preload { uri });
                }
            },
            PlayerCommand::Shutdown => {
                if self.initialized {
                    actions.push(EngineAction::Stop);
                }
                self.terminated = true;
                events.push(PlayerEvent::Shutdown);
            },
        }
        CommandOutcome { events, actions }
    }

    /// Report the outcome of the initialization handshake, per
    /// [`init_step`].
    pub fn complete_initialize(&mut self, result: Result<(), InitError>) -> (ev: PlayerEvent)
        ensures
            init_step(*old(self), result, *final(self), ev),
    {
        match result {
            Ok(_) => {
                self.initialized = true;
                PlayerEvent::Initialized
            },
            Err(e) => PlayerEvent::InitializationFailed { message: e.message() },
        }
    }

    /// Translate one event of the engine's own stream into at most one
    /// bridge event, per [`engine_event_step`].
    pub fn on_engine_event(&self, event: EngineEvent) -> (r: Option<PlayerEvent>)
        ensures
            engine_event_step(uri_or_empty(self.current_track_uri), event, r),
    {
        let track_uri = match &self.current_track_uri {
            Some(u) => u.clone(),
            None => String::new(),
        };
        match event {
            EngineEvent::Playing { position_ms } => Some(PlayerEvent::Playing {
                track_uri,
                position_ms,
                duration_ms: 0,
            }),
            EngineEvent::Paused { position_ms } => Some(PlayerEvent::Paused {
                track_uri,
                position_ms,
            }),
            EngineEvent::Stopped => Some(PlayerEvent::Stopped),
            EngineEvent::EndOfTrack => Some(PlayerEvent::TrackEnded { track_uri }),
            EngineEvent::TimeToPreloadNextTrack => Some(PlayerEvent::TimeToPreloadNextTrack),
            EngineEvent::Loading => Some(PlayerEvent::Loading { track_uri }),
            EngineEvent::Unavailable { track_id } => {
                let mut m = String::from_str("Track unavailable: ");
                m.append(track_id.as_str());
                Some(PlayerEvent::Error { message: m })
            },
            EngineEvent::Other => None,
        }
    }

    /// React to the command channel's producer going away: the loop must
    /// exit as if `Shutdown` had been sent, yielding the terminal event.
    pub fn on_disconnect(&mut self) -> (ev: PlayerEvent)
        ensures
            final(self).config == old(self).config,
            final(self).initialized == old(self).initialized,
            final(self).current_track_uri == old(self).current_track_uri,
            final(self).current_volume == old(self).current_volume,
            final(self).terminated,
            ev is Shutdown,
    {
        self.terminated = true;
        PlayerEvent::Shutdown
    }
}

/// Law: a `Shutdown` command, from any state whatsoever (an uninitialized
/// worker included), terminates the loop and yields exactly one terminal
/// `Shutdown` event.
pub proof fn lemma_shutdown_terminal(pre: PlayerWorker, post: PlayerWorker, out: CommandOutcome)
    requires
        command_step(pre, PlayerCommand::Shutdown, post, out),
    ensures
        post.terminated,
        out.events@.len() == 1,
        out.events@[0] is Shutdown,
{
}

/// Law: `SetVolume(v)` immediately yields exactly `VolumeChanged { volume: v }`
/// and records `v`, with no dependency on initialization state and no engine
/// action.
pub proof fn lemma_set_volume(pre: PlayerWorker, post: PlayerWorker, out: CommandOutcome, v: u16)
    requires
        command_step(pre, PlayerCommand::SetVolume(v), post, out),
    ensures
        post.current_volume == v,
        out.events@.len() == 1,
        (out.events@[0] matches PlayerEvent::VolumeChanged { volume } && volume == v),
        out.actions@.len() == 0,
{
}

/// Law: a second `Stop` in a row is a harmless no-op: it emits no event (in
/// particular no error), leaves the track URI unset, and leaves the state
/// exactly as the first `Stop` left it.
pub proof fn lemma_stop_idempotent(
    s0: PlayerWorker,
    s1: PlayerWorker,
    o1: CommandOutcome,
    s2: PlayerWorker,
    o2: CommandOutcome,
)
    requires
        command_step(s0, PlayerCommand::Stop, s1, o1),
        command_step(s1, PlayerCommand::Stop, s2, o2),
    ensures
        s1.current_track_uri is None,
        o2.events@.len() == 0,
        state_like(s2, s1),
{
}

/// Law: an engine `Unavailable` report for a loaded track maps to exactly
/// one `Error` event whose message names that track; the translation takes
/// the worker by shared reference, so playback state is unchanged.
pub proof fn lemma_unavailable_single_error(uri: Seq<char>, track_id: String, r: Option<PlayerEvent>)
    requires
        engine_event_step(uri, EngineEvent::Unavailable { track_id }, r),
    ensures
        r matches Some(e) && e is Error,
        (r->0 matches PlayerEvent::Error { message } && message@ == unavailable_msg(track_id@)),
{
}

/// The worker's behavior on a whole command sequence, applied strictly in
/// arrival order (FIFO): the state threads through one [`command_step`] per
/// command, and the events and engine actions are the per-command outputs
/// concatenated in that same order.
pub open spec fn steps(
    pre: PlayerWorker,
    cmds: Seq<PlayerCommand>,
    post: PlayerWorker,
    events: Seq<PlayerEvent>,
    actions: Seq<EngineAction>,
) -> bool
    decreases cmds.len(),
{
    if cmds.len() == 0 {
        &&& post == pre
        &&& events == Seq::<PlayerEvent>::empty()
        &&& actions == Seq::<EngineAction>::empty()
    } else {
        exists|mid: PlayerWorker, out: CommandOutcome, ev2: Seq<PlayerEvent>, ac2: Seq<
            EngineAction,
        >|
            #[trigger] steps_witness(pre, cmds[0], mid, out, events, actions, ev2, ac2)
                && steps(mid, cmds.drop_first(), post, ev2, ac2)
    }
}

/// The first step of an ordered run: `pre` steps to `mid` on the first
/// command with output `out`, and the run's events and actions start with
/// that output.
pub open spec fn steps_witness(
    pre: PlayerWorker,
    first: PlayerCommand,
    mid: PlayerWorker,
    out: CommandOutcome,
    events: Seq<PlayerEvent>,
    actions: Seq<EngineAction>,
    ev2: Seq<PlayerEvent>,
    ac2: Seq<EngineAction>,
) -> bool {
    &&& command_step(pre, first, mid, out)
    &&& events =~= out.events@ + ev2
    &&& actions =~= out.actions@ + ac2
}

/// Extending an ordered run by one more command keeps it an ordered run,
/// with the new command's output appended at the end.
pub proof fn lemma_steps_snoc(
    pre: PlayerWorker,
    cmds: Seq<PlayerCommand>,
    mid: PlayerWorker,
    events: Seq<PlayerEvent>,
    actions: Seq<EngineAction>,
    c: PlayerCommand,
    post: PlayerWorker,
    out: CommandOutcome,
)
    requires
        steps(pre, cmds, mid, events, actions),
        command_step(mid, c, post, out),
    ensures
        steps(pre, cmds.push(c), post, events + out.events@, actions + out.actions@),
    decreases cmds.len(),
{
    let whole = cmds.push(c);
    assert(whole[0] == if cmds.len() == 0 { c } else { cmds[0] });
    if cmds.len() == 0 {
        assert(whole.drop_first() =~= Seq::<PlayerCommand>::empty());
        assert(steps(post, whole.drop_first(), post, Seq::empty(), Seq::empty()));
        assert(command_step(pre, whole[0], post, out));
        assert(steps_witness(
            pre,
            whole[0],
            post,
            out,
            events + out.events@,
            actions + out.actions@,
            Seq::empty(),
            Seq::empty(),
        ));
        assert(steps(pre, whole, post, events + out.events@, actions + out.actions@));
    } else {
        let (m1, o1, e2, a2) = choose|m1: PlayerWorker, o1: CommandOutcome, e2: Seq<PlayerEvent>, a2: Seq<EngineAction>|
            #[trigger] steps_witness(pre, cmds[0], m1, o1, events, actions, e2, a2) && steps(
                m1,
                cmds.drop_first(),
                mid,
                e2,
                a2,
            );
        lemma_steps_snoc(m1, cmds.drop_first(), mid, e2, a2, c, post, out);
        assert(whole.drop_first() =~= cmds.drop_first().push(c));
        assert(steps(m1, whole.drop_first(), post, e2 + out.events@, a2 + out.actions@));
        assert(command_step(pre, whole[0], m1, o1));
        assert(events + out.events@ =~= o1.events@ + (e2 + out.events@));
        assert(actions + out.actions@ =~= o1.actions@ + (a2 + out.actions@));
        assert(steps_witness(
            pre,
            whole[0],
            m1,
            o1,
            events + out.events@,
            actions + out.actions@,
            e2 + out.events@,
            a2 + out.actions@,
        ));
        assert(steps(pre, whole, post, events + out.events@, actions + out.actions@));
    }
}

impl PlayerWorker {
    /// Law: dispatch a whole queue of commands strictly in arrival order.
    /// The command channel delivers in send order, and this driver applies
    /// what it delivers in that order: the combined output is exactly the
    /// per-command outputs concatenated, per [`steps`].
    pub fn run_commands(&mut self, cmds: Vec<PlayerCommand>) -> (out: CommandOutcome)
        ensures
            steps(*old(self), cmds@, *final(self), out.events@, out.actions@),
    {
        let ghost all = cmds@;
        let ghost pre = *self;
        let ghost mut done: Seq<PlayerCommand> = Seq::empty();
        let mut queue = cmds;
        let mut events: Vec<PlayerEvent> = Vec::new();
        let mut actions: Vec<EngineAction> = Vec::new();
        proof {
            assert(steps(pre, done, *self, events@, actions@));
            assert(all =~= done + queue@);
        }
        while queue.len() > 0
            invariant
                steps(pre, done, *self, events@, actions@),
                all =~= done + queue@,
            decreases queue@.len(),
        {
            let ghost mid = *self;
            let cmd = queue.remove(0);
            let ghost c = cmd;
            let mut o = self.on_command(cmd);
            let ghost ov = o;
            proof {
                lemma_steps_snoc(pre, done, mid, events@, actions@, c, *self, ov);
                done = done.push(c);
            }
            events.append(&mut o.events);
            actions.append(&mut o.actions);
            proof {
                assert(all =~= done + queue@);
            }
        }
        proof {
            assert(done =~= all);
        }
        CommandOutcome { events, actions }
    }
}

} // verus!
