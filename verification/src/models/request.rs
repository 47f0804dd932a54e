//! Bodies of the requests sent to the companion server.
use vstd::prelude::*;
use crate::models::shared::RepeatMode;

verus! {

/// Asks the server for a pairing code.
#[derive(Debug, Clone)]
pub struct AuthCodeRequest {
    pub app_id: String,
    pub app_name: String,
    pub app_version: String,
}

/// Trades a pairing code for a token.
#[derive(Debug, Clone)]
pub struct AuthRequest {
    pub app_id: String,
    pub code: String,
}

/// A command for the player.
#[derive(Debug, Clone, Copy, PartialEq, Eq, Structural)]
pub enum CommandRequest {
    PlayPause,
    Play,
    Pause,
    VolumeUp,
    VolumeDown,
    SetVolume(u8),
    Mute,
    Unmute,
    SeekTo(u64),
    Next,
    Previous,
    RepeatMode(RepeatMode),
    Shuffle(bool),
    PlayQueueIndex(u32),
    ToggleLike,
    ToggleDislike,
}

} // verus!
