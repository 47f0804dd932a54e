//! The plugin's global settings: the client settings and the last error shown.
use vstd::prelude::*;
use vstd::string::*;
use crate::rest::opt_str_view;
use crate::text::{opt_string_clone, opt_string_eq, opt_string_eq_str, opt_view};
use crate::ytmd::ClientSettings;

verus! {

/// What the plugin host stores for the plugin.
#[derive(Debug)]
pub struct GlobalSettings {
    pub client_settings: ClientSettings,
    /// The connection error to show, if any.
    pub error: Option<String>,
}

/// Whether newly received settings call for a new connection: the server or
/// the token changed, or the settings in force never named a server or a token.
pub open spec fn settings_changed_spec(current: GlobalSettings, incoming: GlobalSettings) -> bool {
    ||| current.client_settings.host@ != incoming.client_settings.host@
    ||| current.client_settings.port != incoming.client_settings.port
    ||| opt_view(current.client_settings.token) != opt_view(incoming.client_settings.token)
    ||| current.client_settings.host@.len() == 0
    ||| current.client_settings.token is None
}

/// What recording `error` does to `before`: nothing (`None`) when that error
/// is already the one recorded; else the same client settings with `error`.
pub open spec fn error_update(before: GlobalSettings, error: Option<Seq<char>>, after: Option<GlobalSettings>) -> bool {
    if opt_view(before.error) == error {
        after is None
    } else {
        after matches Some(g) && g.client_settings == before.client_settings && opt_view(g.error) == error
    }
}

impl GlobalSettings {
    /// The settings a fresh plugin starts from: the companion server on the
    /// local machine at port 9863, no token, no error, and this application
    /// named `YTMD Controller` with the given id and version.
    pub fn default_for(app_id: String, app_version: String) -> (g: GlobalSettings)
        ensures
            g.client_settings.app_id == app_id,
            g.client_settings.app_name@ == "YTMD Controller"@,
            g.client_settings.app_version == app_version,
            g.client_settings.host@ == "127.0.0.1"@,
            g.client_settings.port == 9863,
            g.client_settings.token is None,
            g.error is None,
    {
        GlobalSettings {
            client_settings: ClientSettings {
                app_id,
                app_name: String::from_str("YTMD Controller"),
                app_version,
                host: String::from_str("127.0.0.1"),
                port: 9863,
                token: None,
            },
            error: None,
        }
    }

    /// The client settings.
    pub fn client_settings(&self) -> (s: &ClientSettings)
        ensures
            *s == self.client_settings,
    {
        &self.client_settings
    }

    /// Whether `incoming` settings call for a new connection, with `self` in force.
    pub fn settings_changed(&self, incoming: &GlobalSettings) -> (changed: bool)
        ensures
            changed == settings_changed_spec(*self, *incoming),
            self.client_settings.host@ != incoming.client_settings.host@ ==> changed,
            self.client_settings.port != incoming.client_settings.port ==> changed,
            opt_view(self.client_settings.token) != opt_view(incoming.client_settings.token) ==> changed,
            self.client_settings.host@.len() == 0 ==> changed,
            self.client_settings.token is None ==> changed,
            self.client_settings.host@ == incoming.client_settings.host@
                && self.client_settings.port == incoming.client_settings.port
                && opt_view(self.client_settings.token) == opt_view(incoming.client_settings.token)
                && self.client_settings.host@.len() > 0
                && self.client_settings.token is Some ==> !changed,
    {
        let current = &self.client_settings;
        let other = &incoming.client_settings;
        !(current.host == other.host)
            || current.port != other.port
            || !opt_string_eq(&current.token, &other.token)
            || current.host.as_str().is_empty()
            || current.token.is_none()
    }

    /// These settings with `error` recorded, or `None` when it already is.
    pub fn with_error(&self, error: Option<&str>) -> (after: Option<GlobalSettings>)
        ensures
            error_update(*self, opt_str_view(error), after),
            opt_view(self.error) == opt_str_view(error) ==> after is None,
            opt_view(self.error) != opt_str_view(error) ==> (after matches Some(g)
                && g.client_settings == self.client_settings
                && opt_view(g.error) == opt_str_view(error)),
    {
        if opt_string_eq_str(&self.error, error) {
            return None;
        }
        let new_error = match error {
            Some(e) => Some(e.to_owned()),
            None => None,
        };
        Some(GlobalSettings { client_settings: self.client_settings.clone(), error: new_error })
    }

    /// These settings with `token` as the client's token.
    pub fn with_token(&self, token: Option<String>) -> (after: GlobalSettings)
        ensures
            after.client_settings == (ClientSettings { token, ..self.client_settings }),
            opt_view(after.error) == opt_view(self.error),
    {
        let mut client_settings = self.client_settings.clone();
        client_settings.token = token;
        GlobalSettings { client_settings, error: opt_string_clone(&self.error) }
    }
}

impl Clone for GlobalSettings {
    fn clone(&self) -> (r: Self)
        ensures
            r == *self,
    {
        GlobalSettings {
            client_settings: self.client_settings.clone(),
            error: match &self.error {
                Some(e) => Some(e.clone()),
                None => None,
            },
        }
    }
}

/// Recording an error settles: once recorded, recording the same error again
/// changes nothing, and the client settings are never touched.
pub proof fn lemma_error_update_settles(before: GlobalSettings, error: Option<Seq<char>>, after: GlobalSettings)
    requires
        error_update(before, error, Some(after)),
    ensures
        error_update(after, error, None),
        after.client_settings == before.client_settings,
{
}

/// When to reconnect: any change of server host, port or token calls for a
/// new connection, and so does settings in force that name no server or no
/// token; settings that keep host, port and token, with both present, do not.
pub proof fn lemma_reconnect_rules(current: GlobalSettings, incoming: GlobalSettings)
    ensures
        current.client_settings.host@ != incoming.client_settings.host@ ==> settings_changed_spec(current, incoming),
        current.client_settings.port != incoming.client_settings.port ==> settings_changed_spec(current, incoming),
        opt_view(current.client_settings.token) != opt_view(incoming.client_settings.token) ==> settings_changed_spec(current, incoming),
        current.client_settings.host@.len() == 0 ==> settings_changed_spec(current, incoming),
        current.client_settings.token is None ==> settings_changed_spec(current, incoming),
        current.client_settings.host@ == incoming.client_settings.host@
            && current.client_settings.port == incoming.client_settings.port
            && opt_view(current.client_settings.token) == opt_view(incoming.client_settings.token)
            && current.client_settings.host@.len() > 0
            && current.client_settings.token is Some ==> !settings_changed_spec(current, incoming),
{
}

/// Recording an error leaves nothing to record again: recording the error
/// already held is a no-op, and recording another one holds exactly that
/// error beside unchanged client settings.
pub proof fn lemma_error_update_exact(before: GlobalSettings, error: Option<Seq<char>>, after: Option<GlobalSettings>)
    requires
        error_update(before, error, after),
    ensures
        opt_view(before.error) == error ==> after is None,
        opt_view(before.error) != error ==> (after matches Some(g) && g.client_settings == before.client_settings
            && opt_view(g.error) == error),
{
}

/// Settings compared with themselves call for a new connection exactly when
/// they name no server or no token.
pub proof fn lemma_same_settings_unchanged(g: GlobalSettings)
    ensures
        settings_changed_spec(g, g) <==> (g.client_settings.host@.len() == 0 || g.client_settings.token is None),
{
}

/// Receives the settings that the plugin host sends.
#[derive(Debug, Clone, Copy)]
pub struct GlobalEventHandler;

impl GlobalEventHandler {
    /// The settings to put in force and reconnect with when `incoming`
    /// arrives while `current` is in force, or `None` when nothing changed.
    pub fn did_receive_global_settings(current: &GlobalSettings, incoming: GlobalSettings) -> (r: Option<GlobalSettings>)
        ensures
            settings_changed_spec(*current, incoming) ==> r == Some(incoming),
            !settings_changed_spec(*current, incoming) ==> r is None,
            current.client_settings.host@ != incoming.client_settings.host@ ==> r == Some(incoming),
            current.client_settings.port != incoming.client_settings.port ==> r == Some(incoming),
            opt_view(current.client_settings.token) != opt_view(incoming.client_settings.token) ==> r == Some(incoming),
            current.client_settings.host@.len() == 0 ==> r == Some(incoming),
            current.client_settings.token is None ==> r == Some(incoming),
            current.client_settings.host@ == incoming.client_settings.host@
                && current.client_settings.port == incoming.client_settings.port
                && opt_view(current.client_settings.token) == opt_view(incoming.client_settings.token)
                && current.client_settings.host@.len() > 0
                && current.client_settings.token is Some ==> r is None,
    {
        if current.settings_changed(&incoming) {
            Some(incoming)
        } else {
            None
        }
    }
}

} // verus!
