//! The buttons of the plugin and what pressing them does.
use vstd::prelude::*;
use crate::error::Error;
use crate::models::request::CommandRequest;
use crate::models::shared::RepeatMode;

verus! {

/// How sending a command ended.
#[derive(Debug)]
pub enum CommandOutcome {
    /// There was no client to send it with.
    NotConnected,
    /// The server accepted it.
    Sent,
    /// The server or the transport refused it.
    Failed(Error),
}

/// Whether the button that sent a command should flash an alert: whenever
/// the command did not get through.
pub fn send_command(outcome: &CommandOutcome) -> (alert: bool)
    ensures
        alert <==> !(outcome is Sent),
{
    match outcome {
        CommandOutcome::Sent => false,
        _ => true,
    }
}

/// Skips to the next track.
#[derive(Debug, Clone, Copy)]
pub struct NextAction;

impl NextAction {
    /// The command sent when the key is released.
    pub fn key_up() -> (c: CommandRequest)
        ensures
            c == CommandRequest::Next,
    {
        CommandRequest::Next
    }
}

/// Toggles between playing and pausing.
#[derive(Debug, Clone, Copy)]
pub struct PlayPauseAction;

impl PlayPauseAction {
    /// The command sent when the key is released.
    pub fn key_up() -> (c: CommandRequest)
        ensures
            c == CommandRequest::PlayPause,
    {
        CommandRequest::PlayPause
    }
}

/// The repeat mode that follows `mode` when the repeat key is pressed:
/// off, all, one, and off again; an unknown mode turns into off.
pub open spec fn next_repeat_mode(mode: RepeatMode) -> RepeatMode {
    match mode {
        RepeatMode::Unknown => RepeatMode::Off,
        RepeatMode::Off => RepeatMode::All,
        RepeatMode::All => RepeatMode::One,
        RepeatMode::One => RepeatMode::Off,
    }
}

/// The key state that shows a repeat mode: 0 for off (or unknown), 1 for
/// all, 2 for one.
pub open spec fn repeat_state_index(mode: RepeatMode) -> u16 {
    match mode {
        RepeatMode::Unknown | RepeatMode::Off => 0,
        RepeatMode::All => 1,
        RepeatMode::One => 2,
    }
}

/// What follows a press of the repeat key.
#[derive(Debug, Clone, Copy, PartialEq, Eq, Structural)]
pub enum RepeatFollowup {
    /// Show this key state.
    SetState(u16),
    /// Flash an alert.
    ShowAlert,
}

/// Cycles the repeat mode.
#[derive(Debug, Clone, Copy)]
pub struct RepeatAction;

impl RepeatAction {
    /// The key state that shows `mode`.
    pub fn set_new_state(mode: &RepeatMode) -> (state: u16)
        ensures
            state == repeat_state_index(*mode),
            *mode == RepeatMode::Unknown ==> state == 0,
            *mode == RepeatMode::Off ==> state == 0,
            *mode == RepeatMode::All ==> state == 1,
            *mode == RepeatMode::One ==> state == 2,
    {
        match mode {
            RepeatMode::Unknown | RepeatMode::Off => 0,
            RepeatMode::All => 1,
            RepeatMode::One => 2,
        }
    }

    /// The repeat mode that follows `mode`.
    pub fn next_mode(mode: &RepeatMode) -> (next: RepeatMode)
        ensures
            next == next_repeat_mode(*mode),
            *mode == RepeatMode::Unknown ==> next == RepeatMode::Off,
            *mode == RepeatMode::Off ==> next == RepeatMode::All,
            *mode == RepeatMode::All ==> next == RepeatMode::One,
            *mode == RepeatMode::One ==> next == RepeatMode::Off,
    {
        match mode {
            RepeatMode::Unknown => RepeatMode::Off,
            RepeatMode::Off => RepeatMode::All,
            RepeatMode::All => RepeatMode::One,
            RepeatMode::One => RepeatMode::Off,
        }
    }

    /// The command sent when the key is released while the player repeats
    /// in `mode`: switch to the next mode.
    pub fn key_up(mode: &RepeatMode) -> (c: CommandRequest)
        ensures
            c == CommandRequest::RepeatMode(next_repeat_mode(*mode)),
            *mode == RepeatMode::Unknown ==> c == CommandRequest::RepeatMode(RepeatMode::Off),
            *mode == RepeatMode::Off ==> c == CommandRequest::RepeatMode(RepeatMode::All),
            *mode == RepeatMode::All ==> c == CommandRequest::RepeatMode(RepeatMode::One),
            *mode == RepeatMode::One ==> c == CommandRequest::RepeatMode(RepeatMode::Off),
    {
        CommandRequest::RepeatMode(Self::next_mode(mode))
    }

    /// What follows the command: when sending it went through, the key shows
    /// the new mode; otherwise it flashes an alert.
    pub fn after_key_up(new_mode: &RepeatMode, delivered: bool) -> (f: RepeatFollowup)
        ensures
            delivered ==> f == RepeatFollowup::SetState(repeat_state_index(*new_mode)),
            !delivered ==> f == RepeatFollowup::ShowAlert,
    {
        if delivered {
            RepeatFollowup::SetState(Self::set_new_state(new_mode))
        } else {
            RepeatFollowup::ShowAlert
        }
    }
}

/// The repeat key cycles: it never asks for an unknown mode, every key state
/// it shows is one of three, from a known mode the shown state advances by
/// one modulo three, three presses bring a known mode back, and an unknown
/// mode is left for off.
pub proof fn lemma_repeat_cycle(mode: RepeatMode)
    ensures
        next_repeat_mode(mode) != RepeatMode::Unknown,
        repeat_state_index(mode) < 3,
        mode != RepeatMode::Unknown ==> repeat_state_index(next_repeat_mode(mode)) == (repeat_state_index(mode) + 1) % 3,
        mode != RepeatMode::Unknown ==> next_repeat_mode(next_repeat_mode(next_repeat_mode(mode))) == mode,
        mode == RepeatMode::Unknown ==> next_repeat_mode(mode) == RepeatMode::Off,
{
}

/// The repeat key steps through off, all, one and back to off, and shows
/// them as key states 0, 1 and 2; an unknown mode shows as 0 and steps to off.
pub proof fn lemma_repeat_values()
    ensures
        next_repeat_mode(RepeatMode::Unknown) == RepeatMode::Off,
        next_repeat_mode(RepeatMode::Off) == RepeatMode::All,
        next_repeat_mode(RepeatMode::All) == RepeatMode::One,
        next_repeat_mode(RepeatMode::One) == RepeatMode::Off,
        repeat_state_index(RepeatMode::Unknown) == 0,
        repeat_state_index(RepeatMode::Off) == 0,
        repeat_state_index(RepeatMode::All) == 1,
        repeat_state_index(RepeatMode::One) == 2,
{
}

/// The settings of the volume dial.
#[derive(Debug, Clone, Copy)]
pub struct VolumeControlActionSettings {
    /// How many volume points one tick of the dial is worth.
    pub step_size: u8,
}

impl Default for VolumeControlActionSettings {
    /// Three points per tick.
    fn default() -> (s: Self)
        ensures
            s.step_size == 3,
    {
        VolumeControlActionSettings { step_size: 3 }
    }
}

/// The volume dial: turning changes the volume, pressing toggles mute.
#[derive(Debug, Clone, Copy)]
pub struct VolumeControlAction;

impl VolumeControlAction {
    /// The command sent when the dial is released: mute a player that is not
    /// muted, unmute one that is.
    pub fn dial_up(muted: bool) -> (c: CommandRequest)
        ensures
            !muted ==> c == CommandRequest::Mute,
            muted ==> c == CommandRequest::Unmute,
    {
        if !muted {
            CommandRequest::Mute
        } else {
            CommandRequest::Unmute
        }
    }

    /// The volume change of a turn of `ticks` (negative: down).
    pub fn dial_rotate(settings: &VolumeControlActionSettings, ticks: i16) -> (delta: i16)
        requires
            i16::MIN <= ticks * settings.step_size <= i16::MAX,
        ensures
            delta == ticks * settings.step_size,
    {
        ticks * (settings.step_size as i16)
    }
}

} // verus!
