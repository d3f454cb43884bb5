//! Requests the UI hands to the network layer.
//!
//! The network layer itself performs remote calls outside this library; the
//! UI records which operation it wants as a plain value.

use vstd::prelude::*;

verus! {

/// An operation the UI asks the network layer to perform.
#[derive(Debug, Clone)]
pub enum IoEvent {
    /// Route playback through the local player worker.
    SwitchToLocalPlayback,
    /// Route playback to the remote device with the given id.
    TransferPlaybackToDevice(String),
    /// Save or unsave the track with the given id.
    ToggleSaveTrack(String),
    /// Start playback of the given track ids at the given offset.
    StartPlayback(Option<String>, Option<Vec<String>>, Option<usize>),
    /// Append the track with the given id to the playback queue.
    AddItemToQueue(String),
    /// Fetch recommendations seeded from the track with the given id.
    GetRecommendationsForTrackId(String),
}

} // verus!
