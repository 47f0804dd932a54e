//! The part of the player's state that the plugin's keys show.
use vstd::prelude::*;
use crate::models::response::{StateResponse, WebsocketEvent};
use crate::models::shared::{RepeatMode, TrackState};

verus! {

/// What the keys of the plugin show of the player.
#[derive(Debug, Clone, Copy, PartialEq, Eq, Structural)]
pub struct PlayerWrapper {
    pub track_state: TrackState,
    pub muted: bool,
    pub volume: u32,
    pub repeat_mode: RepeatMode,
}

/// The repeat mode of a state: that of its queue, or off without a queue.
pub open spec fn state_repeat_mode(state: StateResponse) -> RepeatMode {
    match state.player.queue {
        Some(q) => q.repeat_mode,
        None => RepeatMode::Off,
    }
}

/// The mirrored repeat mode is the queue's own, and off when there is no queue.
pub proof fn lemma_repeat_mode_follows_queue(state: StateResponse)
    ensures
        state.player.queue matches Some(q) ==> state_repeat_mode(state) == q.repeat_mode,
        state.player.queue is None ==> state_repeat_mode(state) == RepeatMode::Off,
{
}

impl Default for PlayerWrapper {
    /// A paused, unmuted player at volume 0 that does not repeat.
    fn default() -> (p: Self)
        ensures
            p.track_state == TrackState::Paused,
            !p.muted,
            p.volume == 0,
            p.repeat_mode == RepeatMode::Off,
    {
        PlayerWrapper { track_state: TrackState::Paused, muted: false, volume: 0, repeat_mode: RepeatMode::Off }
    }
}

impl PlayerWrapper {
    /// What the keys show of a new state of the player.
    pub fn apply_state_update(state: &StateResponse) -> (p: PlayerWrapper)
        ensures
            p.track_state == state.player.track_state,
            p.muted == state.player.muted,
            p.volume == state.player.volume,
            p.repeat_mode == state_repeat_mode(*state),
            state.player.queue matches Some(q) ==> p.repeat_mode == q.repeat_mode,
            state.player.queue is None ==> p.repeat_mode == RepeatMode::Off,
    {
        let repeat_mode = match &state.player.queue {
            Some(q) => q.repeat_mode,
            None => RepeatMode::Off,
        };
        PlayerWrapper {
            track_state: state.player.track_state,
            muted: state.player.muted,
            volume: state.player.volume,
            repeat_mode,
        }
    }
}

/// What an event of the realtime connection calls for.
#[derive(Debug)]
pub enum WsEventAction {
    /// Show this player state, and have the repeat keys redraw.
    StorePlayer(PlayerWrapper),
    /// Report this error.
    Report(String),
}

/// What an event of the realtime connection calls for: a state update is
/// shown, an error is reported.
pub fn handle_ws_event(event: &WebsocketEvent) -> (a: WsEventAction)
    ensures
        event matches WebsocketEvent::StateUpdate(state) ==> (a matches WsEventAction::StorePlayer(p) && p == (PlayerWrapper {
            track_state: state.player.track_state,
            muted: state.player.muted,
            volume: state.player.volume,
            repeat_mode: state_repeat_mode(*state),
        })),
        event matches WebsocketEvent::StateUpdate(state) ==> (a matches WsEventAction::StorePlayer(p)
            && (state.player.queue matches Some(q) ==> p.repeat_mode == q.repeat_mode)
            && (state.player.queue is None ==> p.repeat_mode == RepeatMode::Off)),
        event matches WebsocketEvent::Error(m) ==> a == WsEventAction::Report(*m),
{
    match event {
        WebsocketEvent::StateUpdate(state) => WsEventAction::StorePlayer(PlayerWrapper::apply_state_update(state)),
        WebsocketEvent::Error(m) => WsEventAction::Report(m.clone()),
    }
}

} // verus!
