//! The companion client whose settings give the server root, with the API
//! and the realtime connection beneath it.
use vstd::prelude::*;
use vstd::string::*;
use crate::error::Error;
use crate::models::request::{AuthCodeRequest, AuthRequest, CommandRequest};
use crate::models::response::{AuthCodeResponse, AuthResponse};
use crate::rest::{HttpMethod, HttpRequest, RequestBody, RestClient, opt_str_view};
use crate::text::{decimal, lemma_decimal_roundtrip, opt_view, push_decimal};

pub mod socket;

verus! {

/// Where the companion server listens and how this application presents itself.
#[derive(Debug)]
pub struct ClientSettings {
    pub app_id: String,
    pub app_name: String,
    pub app_version: String,
    pub host: String,
    pub port: u16,
    pub token: Option<String>,
}

/// The root of the server for a host and a port.
pub open spec fn server_root(host: Seq<char>, port: u16) -> Seq<char> {
    "http://"@ + host + ":"@ + decimal(port as nat)
}

/// The root of the REST API for a host and a port.
pub open spec fn api_root(host: Seq<char>, port: u16) -> Seq<char> {
    server_root(host, port) + "/api/v1"@
}

impl ClientSettings {
    /// The root of the server: `http://{host}:{port}`.
    pub fn base_url(&self) -> (s: String)
        ensures
            s@ == server_root(self.host@, self.port),
            s@ == "http://"@ + self.host@ + ":"@ + decimal(self.port as nat),
    {
        let mut s = String::from_str("http://");
        s.append(self.host.as_str());
        s.append(":");
        push_decimal(&mut s, self.port);
        s
    }

    /// The root of the REST API: the server root followed by `/api/v1`.
    pub fn api_url(&self) -> (s: String)
        ensures
            s@ == api_root(self.host@, self.port),
            s@ == "http://"@ + self.host@ + ":"@ + decimal(self.port as nat) + "/api/v1"@,
    {
        let mut s = self.base_url();
        s.append("/api/v1");
        s
    }

    /// The token as a string slice, when there is one.
    pub fn token_str(&self) -> (t: Option<&str>)
        ensures
            opt_str_view(t) == opt_view(self.token),
    {
        match &self.token {
            Some(t) => Some(t.as_str()),
            None => None,
        }
    }
}

/// The REST root is always the server root followed by `/api/v1`: the same
/// settings give both, and the second extends the first.
pub proof fn lemma_api_root_extends_server_root(host: Seq<char>, port: u16)
    ensures
        api_root(host, port).subrange(0, server_root(host, port).len() as int) == server_root(host, port),
        api_root(host, port).len() == server_root(host, port).len() + "/api/v1"@.len(),
{
    assert(api_root(host, port).subrange(0, server_root(host, port).len() as int) =~= server_root(host, port));
}

/// The server root names its port: for one host, two ports give the same
/// root only when they are the same port.
pub proof fn lemma_server_root_names_port(host: Seq<char>, p1: u16, p2: u16)
    requires
        server_root(host, p1) == server_root(host, p2),
    ensures
        p1 == p2,
{
    let pre = "http://"@ + host + ":"@;
    let d1 = decimal(p1 as nat);
    let d2 = decimal(p2 as nat);
    assert(server_root(host, p1) == pre + d1);
    assert(server_root(host, p2) == pre + d2);
    assert(d1 =~= (pre + d1).subrange(pre.len() as int, (pre + d1).len() as int));
    assert(d2 =~= (pre + d2).subrange(pre.len() as int, (pre + d2).len() as int));
    lemma_decimal_roundtrip(p1 as nat);
    lemma_decimal_roundtrip(p2 as nat);
}

impl Clone for ClientSettings {
    fn clone(&self) -> (r: Self)
        ensures
            r == *self,
    {
        ClientSettings {
            app_id: self.app_id.clone(),
            app_name: self.app_name.clone(),
            app_version: self.app_version.clone(),
            host: self.host.clone(),
            port: self.port,
            token: match &self.token {
                Some(t) => Some(t.clone()),
                None => None,
            },
        }
    }
}

impl Default for ClientSettings {
    /// Empty names, host and token, and port 0.
    fn default() -> (r: Self)
        ensures
            r.app_id@.len() == 0,
            r.app_name@.len() == 0,
            r.app_version@.len() == 0,
            r.host@.len() == 0,
            r.port == 0,
            r.token is None,
    {
        ClientSettings {
            app_id: String::new(),
            app_name: String::new(),
            app_version: String::new(),
            host: String::new(),
            port: 0,
            token: None,
        }
    }
}

/// The next thing to do while connecting.
#[derive(Debug)]
pub enum ConnectStep {
    /// Ask for a pairing code: send `auth_request_code` and hand its reply to
    /// `connect_with_code`.
    RequestCode,
    /// Trade this code for a token: send `auth_request` with it and hand the
    /// reply to `connect_with_token`.
    RequestToken(String),
    /// Open the realtime connection at the server root `url` with `token`.
    OpenSocket { url: String, token: Option<String> },
    /// Connecting failed with this error.
    Failed(Error),
}

/// A client of the companion server: its settings, and the REST client for
/// the API root that they name.
#[derive(Debug)]
pub struct Client {
    settings: ClientSettings,
    rest: RestClient,
}

impl Client {
    /// The REST client always points at the API root of the settings.
    #[verifier::type_invariant]
    closed spec fn rest_matches_settings(self) -> bool {
        self.rest.base() == api_root(self.settings.host@, self.settings.port)
    }

    /// The settings in force.
    pub closed spec fn current(&self) -> ClientSettings {
        self.settings
    }

    /// The base URL of the REST client in force.
    pub closed spec fn rest_base(&self) -> Seq<char> {
        self.rest.base()
    }

    /// A client for `settings`, with its REST client at their API root.
    pub fn new(settings: ClientSettings) -> (c: Client)
        ensures
            c.current() == settings,
            c.rest_base() == api_root(settings.host@, settings.port),
    {
        let rest_client = RestClient::new(settings.api_url());
        Client { settings, rest: rest_client }
    }

    /// The settings in force.
    pub fn settings(&self) -> (s: &ClientSettings)
        ensures
            *s == self.current(),
    {
        &self.settings
    }

    /// Replaces the settings, and the REST client with one at their API root.
    pub fn set_settings(&mut self, new_settings: ClientSettings)
        ensures
            final(self).current() == new_settings,
            final(self).rest_base() == api_root(new_settings.host@, new_settings.port),
    {
        *self = Client::new(new_settings);
    }

    /// The first step of connecting. A pairing is needed when it is forced or
    /// when there is no token yet; otherwise the realtime connection opens
    /// at once with the token in force.
    pub fn connect(&self, force_reauth: bool) -> (step: ConnectStep)
        ensures
            force_reauth || self.current().token is None ==> step is RequestCode,
            !force_reauth && self.current().token is Some ==> (step matches ConnectStep::OpenSocket { url, token }
                && url@ == server_root(self.current().host@, self.current().port)
                && token == self.current().token),
    {
        if force_reauth || self.settings.token.is_none() {
            ConnectStep::RequestCode
        } else {
            let token = match &self.settings.token {
                Some(t) => Some(t.clone()),
                None => None,
            };
            ConnectStep::OpenSocket { url: self.settings.base_url(), token }
        }
    }

    /// The step after asking for a pairing code: trade the code, or fail
    /// (a reply without content is an unexpected response).
    pub fn connect_with_code(reply: Result<Option<AuthCodeResponse>, Error>) -> (step: ConnectStep)
        ensures
            reply matches Ok(Some(c)) ==> step == ConnectStep::RequestToken(c.code),
            reply is Ok && reply->Ok_0 is None ==> (step matches ConnectStep::Failed(Error::UnexpectedResponse(m))
                && m@ == "No auth code received"@),
            reply matches Err(e) ==> step == ConnectStep::Failed(e),
    {
        match reply {
            Ok(Some(c)) => ConnectStep::RequestToken(c.code),
            Ok(None) => ConnectStep::Failed(Error::UnexpectedResponse(String::from_str("No auth code received"))),
            Err(e) => ConnectStep::Failed(e),
        }
    }

    /// The step after trading the code. A granted token becomes the token of
    /// the settings, the REST client is renewed at their API root, and the
    /// realtime connection opens with the new token. Otherwise connecting
    /// fails and the settings stay as they were.
    pub fn connect_with_token(&mut self, reply: Result<Option<AuthResponse>, Error>) -> (step: ConnectStep)
        ensures
            reply matches Ok(Some(resp)) ==> {
                &&& final(self).current() == (ClientSettings { token: Some(resp.token), ..old(self).current() })
                &&& (step matches ConnectStep::OpenSocket { url, token }
                    && url@ == server_root(old(self).current().host@, old(self).current().port)
                    && token == Some(resp.token))
            },
            reply is Ok && reply->Ok_0 is None ==> {
                &&& (step matches ConnectStep::Failed(Error::UnexpectedResponse(m)) && m@ == "No auth token received"@)
                &&& final(self).current() == old(self).current()
            },
            reply matches Err(e) ==> step == ConnectStep::Failed(e) && final(self).current() == old(self).current(),
            final(self).rest_base() == api_root(final(self).current().host@, final(self).current().port),
    {
        proof { use_type_invariant(&*self); }
        match reply {
            Ok(Some(resp)) => {
                let mut new_settings = self.settings.clone();
                new_settings.token = Some(resp.token.clone());
                let url = new_settings.base_url();
                *self = Client::new(new_settings);
                ConnectStep::OpenSocket { url, token: Some(resp.token) }
            },
            Ok(None) => ConnectStep::Failed(Error::UnexpectedResponse(String::from_str("No auth token received"))),
            Err(e) => ConnectStep::Failed(e),
        }
    }

    /// Whether events can be listened to: only once the realtime connection
    /// is open.
    pub fn setup_event_handler(socket_connected: bool) -> (r: Result<(), Error>)
        ensures
            socket_connected ==> r is Ok,
            !socket_connected ==> r matches Err(Error::SocketClientNotConnected),
    {
        if socket_connected {
            Ok(())
        } else {
            Err(Error::SocketClientNotConnected)
        }
    }

    /// The error when the realtime connection cannot be opened, whatever the
    /// transport said.
    pub fn socket_connect_failed() -> (e: Error)
        ensures
            e is UnableToConnect,
    {
        Error::UnableToConnect
    }

    /// The request for the player's state: `GET /state`.
    pub fn get_state(&self) -> (r: HttpRequest)
        ensures
            r.method == HttpMethod::Get,
            r.url@ == api_root(self.current().host@, self.current().port) + "/state"@,
            opt_view(r.authorization) == opt_view(self.current().token),
            r.body is Empty,
    {
        proof { use_type_invariant(self); }
        self.rest.get("/state", self.settings.token_str())
    }

    /// The request that asks for a pairing code: `POST /auth/requestcode`
    /// with this application's id, name and version.
    pub fn auth_request_code(&self) -> (r: HttpRequest)
        ensures
            r.method == HttpMethod::Post,
            r.url@ == api_root(self.current().host@, self.current().port) + "/auth/requestcode"@,
            opt_view(r.authorization) == opt_view(self.current().token),
            (r.body matches RequestBody::AuthCode(b) && b.app_id == self.current().app_id
                && b.app_name == self.current().app_name
                && b.app_version == self.current().app_version),
    {
        proof { use_type_invariant(self); }
        let body = AuthCodeRequest {
            app_id: self.settings.app_id.clone(),
            app_name: self.settings.app_name.clone(),
            app_version: self.settings.app_version.clone(),
        };
        self.rest.post("/auth/requestcode", RequestBody::AuthCode(body), self.settings.token_str())
    }

    /// The request that trades a pairing code for a token: `POST /auth/request`
    /// with this application's id and the code.
    pub fn auth_request(&self, code: String) -> (r: HttpRequest)
        ensures
            r.method == HttpMethod::Post,
            r.url@ == api_root(self.current().host@, self.current().port) + "/auth/request"@,
            opt_view(r.authorization) == opt_view(self.current().token),
            (r.body matches RequestBody::Auth(b) && b.app_id == self.current().app_id && b.code == code),
    {
        proof { use_type_invariant(self); }
        let body = AuthRequest { app_id: self.settings.app_id.clone(), code };
        self.rest.post("/auth/request", RequestBody::Auth(body), self.settings.token_str())
    }

    /// The request that sends a command to the player: `POST /command`.
    pub fn send_command(&self, command: &CommandRequest) -> (r: HttpRequest)
        ensures
            r.method == HttpMethod::Post,
            r.url@ == api_root(self.current().host@, self.current().port) + "/command"@,
            opt_view(r.authorization) == opt_view(self.current().token),
            r.body == RequestBody::Command(*command),
    {
        proof { use_type_invariant(self); }
        self.rest.post("/command", RequestBody::Command(*command), self.settings.token_str())
    }

    /// The outcome of sending a command: whatever the server replied with,
    /// success carries nothing.
    pub fn finish_send_command<T>(reply: Result<Option<T>, Error>) -> (r: Result<(), Error>)
        ensures
            reply is Ok ==> r is Ok,
            reply matches Err(e) ==> r == Err::<(), Error>(e),
    {
        match reply {
            Ok(_) => Ok(()),
            Err(e) => Err(e),
        }
    }
}

} // verus!
