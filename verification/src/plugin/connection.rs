//! Keeping the connection to the companion server up.
use vstd::prelude::*;
use vstd::string::*;
use crate::error::{Error, error_text};
use crate::plugin::settings::GlobalSettings;
use crate::text::{concat_str, opt_view};
use crate::ytmd::ClientSettings;

verus! {

/// Lets at most one reconnection loop run at a time.
#[derive(Debug)]
pub struct ReconnectGate {
    reconnecting: bool,
}

impl ReconnectGate {
    /// Whether a reconnection loop runs.
    pub closed spec fn active(&self) -> bool {
        self.reconnecting
    }

    /// No loop runs.
    pub fn new() -> (g: ReconnectGate)
        ensures
            !g.active(),
    {
        ReconnectGate { reconnecting: false }
    }

    /// Asks to start a reconnection loop: granted (`true`) only when none
    /// runs; either way a loop runs afterwards.
    pub fn schedule_reconnect(&mut self) -> (start: bool)
        ensures
            start == !old(self).active(),
            final(self).active(),
    {
        let was = self.reconnecting;
        self.reconnecting = true;
        !was
    }

    /// Whether the loop should try again.
    pub fn is_active(&self) -> (b: bool)
        ensures
            b == self.active(),
    {
        self.reconnecting
    }

    /// A connection was made: the loop ends.
    pub fn connected(&mut self)
        ensures
            !final(self).active(),
    {
        self.reconnecting = false;
    }
}

/// The text of a failed connection attempt.
pub fn connect_failure(e: &Error) -> (s: String)
    ensures
        s@ == "Failed to connect to YTMD: "@ + error_text(*e),
{
    let m = e.to_string();
    concat_str("Failed to connect to YTMD: ", m.as_str())
}

/// The text of a failure to listen to the realtime connection.
pub fn event_handler_failure(e: &Error) -> (s: String)
    ensures
        s@ == "Failed to set up event handler for YTMD client: "@ + error_text(*e),
{
    let m = e.to_string();
    concat_str("Failed to set up event handler for YTMD client: ", m.as_str())
}

/// What follows an attempt to set up the client.
#[derive(Debug)]
pub enum ReinitAction {
    /// Show this error in the settings.
    ShowError(String),
    /// Store these settings, which carry the client's token.
    PersistToken(GlobalSettings),
}

/// What follows an attempt to set up the client, with `current` settings
/// in force. On success the reconnection loop ends and the settings are
/// stored with the token of the client that connected; on failure the error
/// is shown as `Connection failed: ` followed by its text.
pub fn reinitialize(gate: &mut ReconnectGate, current: &GlobalSettings, setup: Result<&ClientSettings, String>) -> (a: ReinitAction)
    ensures
        setup matches Ok(connected) ==> {
            &&& !final(gate).active()
            &&& (a matches ReinitAction::PersistToken(g)
                && g.client_settings == (ClientSettings { token: connected.token, ..current.client_settings })
                && opt_view(g.error) == opt_view(current.error))
        },
        setup matches Err(m) ==> {
            &&& final(gate).active() == old(gate).active()
            &&& (a matches ReinitAction::ShowError(s) && s@ == "Connection failed: "@ + m@)
        },
{
    match setup {
        Ok(connected) => {
            gate.connected();
            let token = match &connected.token {
                Some(t) => Some(t.clone()),
                None => None,
            };
            ReinitAction::PersistToken(current.with_token(token))
        },
        Err(m) => ReinitAction::ShowError(concat_str("Connection failed: ", m.as_str())),
    }
}

} // verus!
