//! Replies and events of the companion server.
use vstd::prelude::*;
use crate::models::shared::{LikeStatus, RepeatMode, Thumbnail, TrackState};

verus! {

/// The pairing code that the server hands out.
#[derive(Debug, Clone)]
pub struct AuthCodeResponse {
    pub code: String,
}

/// The token that the server grants for a pairing code.
#[derive(Debug, Clone)]
pub struct AuthResponse {
    pub token: String,
}

/// The whole state of the player.
#[derive(Debug)]
pub struct StateResponse {
    pub player: Player,
    pub video: Option<Video>,
    pub playlist_id: Option<String>,
}

/// What the player is doing.
#[derive(Debug)]
pub struct Player {
    pub ad_playing: bool,
    pub queue: Option<Queue>,
    pub track_state: TrackState,
    pub video_progress: u32,
    pub volume: u32,
    pub muted: bool,
}

/// The play queue.
#[derive(Debug)]
pub struct Queue {
    pub autoplay: bool,
    pub items: Vec<QueueItem>,
    pub automix_items: Vec<QueueItem>,
    pub is_generating: bool,
    pub is_infinite: bool,
    pub repeat_mode: RepeatMode,
    pub selected_item_index: u32,
}

/// One entry of the queue.
#[derive(Debug)]
pub struct QueueItem {
    pub thumbnails: Vec<Thumbnail>,
    pub title: String,
    pub author: String,
    pub duration: String,
    pub selected: bool,
    pub video_id: String,
    pub counterparts: Option<Vec<QueueItem>>,
}

/// The video being played.
#[derive(Debug, Clone)]
pub struct Video {
    pub author: String,
    pub channel_id: String,
    pub title: String,
    pub album: String,
    pub album_id: String,
    pub like_status: LikeStatus,
    pub thumbnails: Vec<Thumbnail>,
    pub duration_seconds: u32,
    pub id: String,
}

/// An event of the realtime connection.
#[derive(Debug)]
pub enum WebsocketEvent {
    StateUpdate(StateResponse),
    Error(String),
}

} // verus!
