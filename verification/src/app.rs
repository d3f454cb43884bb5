//! UI state shared by the keyboard handlers.
//!
//! [`App`] is a plain-data model of the parts of the interface the handlers
//! read and mutate: the navigation stack, the device list, the recently
//! played list, and a log of the operations dispatched to the network layer.

use crate::event::Key;
use crate::network::IoEvent;
use vstd::prelude::*;

verus! {

/// A pane of the interface that can hold focus or hover.
#[derive(Debug, Clone, Copy, PartialEq, Eq, Structural)]
pub enum ActiveBlock {
    /// No pane.
    Empty,
    /// The library pane.
    Library,
    /// The album tracks pane.
    AlbumTracks,
    /// The recently played pane.
    RecentlyPlayed,
    /// The device selection pane.
    SelectDevice,
}

/// One entry of the navigation stack: which pane is active and which is
/// hovered.
#[derive(Debug, Clone, Copy, PartialEq, Eq, Structural)]
pub struct Route {
    /// The pane that holds focus.
    pub active_block: ActiveBlock,
    /// The pane the cursor hovers over.
    pub hovered_block: ActiveBlock,
}

/// What kind of item seeded the recommendations view.
#[derive(Debug, Clone, Copy, PartialEq, Eq, Structural)]
pub enum RecommendationsContext {
    /// Seeded from a single track.
    Song,
    /// Seeded from an artist.
    Artist,
}

/// A track as it appears in the play history.
#[derive(Debug, Clone)]
pub struct PlayedTrack {
    /// Service-assigned track id, when the item has one.
    pub id: Option<String>,
    /// Display name of the track.
    pub name: String,
}

/// One entry of the play history.
#[derive(Debug, Clone)]
pub struct PlayHistoryItem {
    /// The track that was played.
    pub track: PlayedTrack,
}

/// The page of play history the UI currently shows.
#[derive(Debug, Clone)]
pub struct RecentlyPlayedResult {
    /// The history entries, most recent first.
    pub items: Vec<PlayHistoryItem>,
}

/// State of the recently played pane.
#[derive(Debug, Clone)]
pub struct RecentlyPlayed {
    /// The fetched history, if any.
    pub result: Option<RecentlyPlayedResult>,
    /// Index of the selected entry.
    pub index: usize,
}

/// A remote playback device.
#[derive(Debug, Clone)]
pub struct Device {
    /// Device id, when the service reports one.
    pub id: Option<String>,
}

/// The device list the UI currently shows.
#[derive(Debug, Clone)]
pub struct DevicePayload {
    /// The remote devices.
    pub devices: Vec<Device>,
}

/// The user's key bindings.
#[derive(Debug, Clone, Copy, PartialEq, Eq, Structural)]
pub struct KeyBindings {
    /// Key that appends the selected item to the playback queue.
    pub add_item_to_queue: Key,
}

/// User-level configuration the handlers consult.
#[derive(Debug, Clone, Copy, PartialEq, Eq, Structural)]
pub struct UserConfig {
    /// The user's key bindings.
    pub keys: KeyBindings,
}

/// The route the navigation stack starts from.
pub open spec fn default_route() -> Route {
    Route { active_block: ActiveBlock::Empty, hovered_block: ActiveBlock::Library }
}

/// A route with its active and hovered panes replaced where the arguments
/// are `Some`.
pub open spec fn route_with(r: Route, active: Option<ActiveBlock>, hovered: Option<ActiveBlock>) -> Route {
    Route {
        active_block: if active is Some { active->0 } else { r.active_block },
        hovered_block: if hovered is Some { hovered->0 } else { r.hovered_block },
    }
}

/// All fields of `post` equal those of `pre` except possibly the
/// navigation stack.
pub open spec fn same_but_nav(post: App, pre: App) -> bool {
    &&& post.devices == pre.devices
    &&& post.selected_device_index == pre.selected_device_index
    &&& post.recently_played == pre.recently_played
    &&& post.recommendations_context == pre.recommendations_context
    &&& post.recommendations_seed == pre.recommendations_seed
    &&& post.user_config == pre.user_config
    &&& post.io_events == pre.io_events
}

/// `post` is `pre` with the current route's panes replaced (where given):
/// what [`App::set_current_route_state`] leaves behind.
pub open spec fn nav_state_set(
    post: App,
    pre: App,
    active: Option<ActiveBlock>,
    hovered: Option<ActiveBlock>,
) -> bool {
    &&& same_but_nav(post, pre)
    &&& if pre.navigation_stack@.len() == 0 {
        post.navigation_stack@ == pre.navigation_stack@
    } else {
        post.navigation_stack@ =~= pre.navigation_stack@.update(
            pre.navigation_stack@.len() - 1,
            route_with(pre.navigation_stack@.last(), active, hovered),
        )
    }
}

/// All fields of `post` equal those of `pre` except possibly the selected
/// device index.
pub open spec fn same_but_selection(post: App, pre: App) -> bool {
    &&& post.navigation_stack == pre.navigation_stack
    &&& post.devices == pre.devices
    &&& post.recently_played == pre.recently_played
    &&& post.recommendations_context == pre.recommendations_context
    &&& post.recommendations_seed == pre.recommendations_seed
    &&& post.user_config == pre.user_config
    &&& post.io_events == pre.io_events
}

/// All fields of `post` equal those of `pre` except possibly the dispatch
/// log.
pub open spec fn same_but_io(post: App, pre: App) -> bool {
    &&& post.navigation_stack == pre.navigation_stack
    &&& post.devices == pre.devices
    &&& post.selected_device_index == pre.selected_device_index
    &&& post.recently_played == pre.recently_played
    &&& post.recommendations_context == pre.recommendations_context
    &&& post.recommendations_seed == pre.recommendations_seed
    &&& post.user_config == pre.user_config
}

/// All fields of `post` equal those of `pre` except possibly the recently
/// played selection index.
pub open spec fn same_but_rp_index(post: App, pre: App) -> bool {
    &&& post.navigation_stack == pre.navigation_stack
    &&& post.devices == pre.devices
    &&& post.selected_device_index == pre.selected_device_index
    &&& post.recently_played.result == pre.recently_played.result
    &&& post.recommendations_context == pre.recommendations_context
    &&& post.recommendations_seed == pre.recommendations_seed
    &&& post.user_config == pre.user_config
    &&& post.io_events == pre.io_events
}

/// All fields of `post` equal those of `pre` except possibly the
/// recommendations seed, its context, and the dispatch log.
pub open spec fn same_but_recommendations(post: App, pre: App) -> bool {
    &&& post.navigation_stack == pre.navigation_stack
    &&& post.devices == pre.devices
    &&& post.selected_device_index == pre.selected_device_index
    &&& post.recently_played == pre.recently_played
    &&& post.user_config == pre.user_config
}

/// UI state read and mutated by the keyboard handlers.
#[derive(Debug)]
pub struct App {
    /// The navigation stack; the last entry is the current route.
    pub navigation_stack: Vec<Route>,
    /// The fetched device list, if any.
    pub devices: Option<DevicePayload>,
    /// Index of the selected device entry, if any.
    pub selected_device_index: Option<usize>,
    /// State of the recently played pane.
    pub recently_played: RecentlyPlayed,
    /// What kind of item seeded the recommendations view, if any.
    pub recommendations_context: Option<RecommendationsContext>,
    /// Display name the recommendations were seeded from.
    pub recommendations_seed: String,
    /// The user's configuration.
    pub user_config: UserConfig,
    /// Operations handed to the network layer, in dispatch order.
    pub io_events: Vec<IoEvent>,
}

impl Default for App {
    /// Fresh UI state: one default route on the stack and nothing fetched.
    fn default() -> (app: Self)
        ensures
            app.navigation_stack@ =~= seq![default_route()],
            app.devices is None,
            app.selected_device_index is None,
            app.recently_played.result is None,
            app.recently_played.index == 0,
            app.recommendations_context is None,
            app.recommendations_seed@ == Seq::<char>::empty(),
            app.user_config.keys.add_item_to_queue == Key::Char('z'),
            app.io_events@ == Seq::<IoEvent>::empty(),
    {
        let mut navigation_stack: Vec<Route> = Vec::new();
        navigation_stack.push(Route {
            active_block: ActiveBlock::Empty,
            hovered_block: ActiveBlock::Library,
        });
        App {
            navigation_stack,
            devices: None,
            selected_device_index: None,
            recently_played: RecentlyPlayed { result: None, index: 0 },
            recommendations_context: None,
            recommendations_seed: String::new(),
            user_config: UserConfig { keys: KeyBindings { add_item_to_queue: Key::Char('z') } },
            io_events: Vec::new(),
        }
    }
}

impl App {
    /// The current route: the top of the navigation stack, or the default
    /// route when the stack is empty.
    pub fn get_current_route(&self) -> (r: Route)
        ensures
            r == if self.navigation_stack@.len() > 0 {
                self.navigation_stack@.last()
            } else {
                default_route()
            },
    {
        if self.navigation_stack.len() > 0 {
            self.navigation_stack[self.navigation_stack.len() - 1]
        } else {
            Route { active_block: ActiveBlock::Empty, hovered_block: ActiveBlock::Library }
        }
    }

    /// Replace the active and hovered panes of the current route where the
    /// arguments are `Some`.  With an empty navigation stack nothing changes.
    pub fn set_current_route_state(
        &mut self,
        active_block: Option<ActiveBlock>,
        hovered_block: Option<ActiveBlock>,
    )
        ensures
            old(self).navigation_stack@.len() == 0 ==> final(self).navigation_stack@
                == old(self).navigation_stack@,
            old(self).navigation_stack@.len() > 0 ==> final(self).navigation_stack@
                =~= old(self).navigation_stack@.update(
                    old(self).navigation_stack@.len() - 1,
                    route_with(old(self).navigation_stack@.last(), active_block, hovered_block),
                ),
            final(self).devices == old(self).devices,
            final(self).selected_device_index == old(self).selected_device_index,
            final(self).recently_played == old(self).recently_played,
            final(self).recommendations_context == old(self).recommendations_context,
            final(self).recommendations_seed == old(self).recommendations_seed,
            final(self).user_config == old(self).user_config,
            final(self).io_events == old(self).io_events,
    {
        if let Some(mut route) = self.navigation_stack.pop() {
            if let Some(active) = active_block {
                route.active_block = active;
            }
            if let Some(hovered) = hovered_block {
                route.hovered_block = hovered;
            }
            self.navigation_stack.push(route);
        }
    }

    /// Hand an operation to the network layer by appending it to the
    /// dispatch log.
    pub fn dispatch(&mut self, io_event: IoEvent)
        ensures
            final(self).io_events@ == old(self).io_events@.push(io_event),
            final(self).navigation_stack == old(self).navigation_stack,
            final(self).devices == old(self).devices,
            final(self).selected_device_index == old(self).selected_device_index,
            final(self).recently_played == old(self).recently_played,
            final(self).recommendations_context == old(self).recommendations_context,
            final(self).recommendations_seed == old(self).recommendations_seed,
            final(self).user_config == old(self).user_config,
    {
        self.io_events.push(io_event);
    }

    /// Ask the network layer for recommendations seeded from a track id.
    pub fn get_recommendations_for_track_id(&mut self, id: String)
        ensures
            final(self).io_events@ == old(self).io_events@.push(
                IoEvent::GetRecommendationsForTrackId(id),
            ),
            final(self).navigation_stack == old(self).navigation_stack,
            final(self).devices == old(self).devices,
            final(self).selected_device_index == old(self).selected_device_index,
            final(self).recently_played == old(self).recently_played,
            final(self).recommendations_context == old(self).recommendations_context,
            final(self).recommendations_seed == old(self).recommendations_seed,
            final(self).user_config == old(self).user_config,
    {
        self.dispatch(IoEvent::GetRecommendationsForTrackId(id));
    }
}

} // verus!
