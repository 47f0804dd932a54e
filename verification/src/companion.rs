//! The companion client whose settings give the API root directly.
use vstd::prelude::*;
use vstd::string::*;
use crate::error::Error;
use crate::models::request::{AuthCodeRequest, AuthRequest, CommandRequest};
use crate::models::response::{AuthCodeResponse, AuthResponse};
use crate::rest::{HttpMethod, HttpRequest, RequestBody, RestClient, opt_str_view};
use crate::text::{decimal, opt_view, push_decimal};

pub mod socket;

verus! {

/// Where the companion server listens and how this application presents itself.
#[derive(Debug)]
pub struct ClientSettings {
    pub app_id: String,
    pub app_name: String,
    pub app_version: String,
    pub host: String,
    pub port: u16,
    pub token: Option<String>,
}

/// The root of the REST API for a host and a port.
pub open spec fn api_root(host: Seq<char>, port: u16) -> Seq<char> {
    "http://"@ + host + ":"@ + decimal(port as nat) + "/api/v1"@
}

impl ClientSettings {
    /// The root of the REST API: `http://{host}:{port}/api/v1`.
    pub fn base_url(&self) -> (s: String)
        ensures
            s@ == api_root(self.host@, self.port),
            s@ == "http://"@ + self.host@ + ":"@ + decimal(self.port as nat) + "/api/v1"@,
    {
        let mut s = String::from_str("http://");
        s.append(self.host.as_str());
        s.append(":");
        push_decimal(&mut s, self.port);
        s.append("/api/v1");
        s
    }

    /// The token as a string slice, when there is one.
    pub fn token_str(&self) -> (t: Option<&str>)
        ensures
            opt_str_view(t) == opt_view(self.token),
    {
        match &self.token {
            Some(t) => Some(t.as_str()),
            None => None,
        }
    }
}

impl Clone for ClientSettings {
    fn clone(&self) -> (r: Self)
        ensures
            r == *self,
    {
        ClientSettings {
            app_id: self.app_id.clone(),
            app_name: self.app_name.clone(),
            app_version: self.app_version.clone(),
            host: self.host.clone(),
            port: self.port,
            token: match &self.token {
                Some(t) => Some(t.clone()),
                None => None,
            },
        }
    }
}

impl Default for ClientSettings {
    /// Empty names, host and token, and port 0.
    fn default() -> (r: Self)
        ensures
            r.app_id@.len() == 0,
            r.app_name@.len() == 0,
            r.app_version@.len() == 0,
            r.host@.len() == 0,
            r.port == 0,
            r.token is None,
    {
        ClientSettings {
            app_id: String::new(),
            app_name: String::new(),
            app_version: String::new(),
            host: String::new(),
            port: 0,
            token: None,
        }
    }
}

/// A client of the companion server: its settings, and the REST client for
/// the API root that they name.
#[derive(Debug)]
pub struct Client {
    settings: ClientSettings,
    rest: RestClient,
}

impl Client {
    /// The REST client always points at the API root of the settings.
    #[verifier::type_invariant]
    closed spec fn rest_matches_settings(self) -> bool {
        self.rest.base() == api_root(self.settings.host@, self.settings.port)
    }

    /// The settings in force.
    pub closed spec fn current(&self) -> ClientSettings {
        self.settings
    }

    /// The base URL of the REST client in force.
    pub closed spec fn rest_base(&self) -> Seq<char> {
        self.rest.base()
    }

    /// A client for `settings`, with its REST client at their API root.
    pub fn new(settings: ClientSettings) -> (c: Client)
        ensures
            c.current() == settings,
            c.rest_base() == api_root(settings.host@, settings.port),
    {
        let rest_client = RestClient::new(settings.base_url());
        Client { settings, rest: rest_client }
    }

    /// The settings in force.
    pub fn settings(&self) -> (s: &ClientSettings)
        ensures
            *s == self.current(),
    {
        &self.settings
    }

    /// Replaces the settings, and the REST client with one at their API root.
    pub fn set_settings(&mut self, new_settings: ClientSettings)
        ensures
            final(self).current() == new_settings,
            final(self).rest_base() == api_root(new_settings.host@, new_settings.port),
    {
        *self = Client::new(new_settings);
    }

    /// The request for the player's state: `GET /state`.
    pub fn get_state(&self) -> (r: HttpRequest)
        ensures
            r.method == HttpMethod::Get,
            r.url@ == api_root(self.current().host@, self.current().port) + "/state"@,
            opt_view(r.authorization) == opt_view(self.current().token),
            r.body is Empty,
    {
        proof { use_type_invariant(self); }
        self.rest.get("/state", self.settings.token_str())
    }

    /// The request that asks for a pairing code: `POST /auth/requestcode`
    /// with this application's id, name and version.
    pub fn auth_request_code(&self) -> (r: HttpRequest)
        ensures
            r.method == HttpMethod::Post,
            r.url@ == api_root(self.current().host@, self.current().port) + "/auth/requestcode"@,
            opt_view(r.authorization) == opt_view(self.current().token),
            (r.body matches RequestBody::AuthCode(b) && b.app_id == self.current().app_id
                && b.app_name == self.current().app_name
                && b.app_version == self.current().app_version),
    {
        proof { use_type_invariant(self); }
        let body = AuthCodeRequest {
            app_id: self.settings.app_id.clone(),
            app_name: self.settings.app_name.clone(),
            app_version: self.settings.app_version.clone(),
        };
        self.rest.post("/auth/requestcode", RequestBody::AuthCode(body), self.settings.token_str())
    }

    /// The outcome of asking for a pairing code: a reply without content is
    /// an unexpected response.
    pub fn finish_auth_request_code(reply: Result<Option<AuthCodeResponse>, Error>) -> (r: Result<AuthCodeResponse, Error>)
        ensures
            reply matches Ok(Some(code)) ==> r == Ok::<AuthCodeResponse, Error>(code),
            reply is Ok && reply->Ok_0 is None ==> (r matches Err(Error::UnexpectedResponse(m)) && m@ == "No auth code received"@),
            reply matches Err(e) ==> r == Err::<AuthCodeResponse, Error>(e),
    {
        match reply {
            Ok(Some(code)) => Ok(code),
            Ok(None) => Err(Error::UnexpectedResponse(String::from_str("No auth code received"))),
            Err(e) => Err(e),
        }
    }

    /// The request that trades a pairing code for a token: `POST /auth/request`
    /// with this application's id and the code.
    pub fn auth_request(&self, code: String) -> (r: HttpRequest)
        ensures
            r.method == HttpMethod::Post,
            r.url@ == api_root(self.current().host@, self.current().port) + "/auth/request"@,
            opt_view(r.authorization) == opt_view(self.current().token),
            (r.body matches RequestBody::Auth(b) && b.app_id == self.current().app_id && b.code == code),
    {
        proof { use_type_invariant(self); }
        let body = AuthRequest { app_id: self.settings.app_id.clone(), code };
        self.rest.post("/auth/request", RequestBody::Auth(body), self.settings.token_str())
    }

    /// The outcome of trading a code for a token. A granted token becomes the
    /// token of the settings; a reply without content is an unexpected
    /// response; on any error the settings stay as they were.
    pub fn finish_auth_request(&mut self, reply: Result<Option<AuthResponse>, Error>) -> (r: Result<AuthResponse, Error>)
        ensures
            reply matches Ok(Some(resp)) ==> {
                &&& r == Ok::<AuthResponse, Error>(resp)
                &&& final(self).current() == (ClientSettings { token: Some(resp.token), ..old(self).current() })
            },
            reply is Ok && reply->Ok_0 is None ==> {
                &&& (r matches Err(Error::UnexpectedResponse(m)) && m@ == "No auth token received"@)
                &&& final(self).current() == old(self).current()
            },
            reply matches Err(e) ==> r == Err::<AuthResponse, Error>(e) && final(self).current() == old(self).current(),
            final(self).rest_base() == old(self).rest_base(),
    {
        proof { use_type_invariant(&*self); }
        match reply {
            Ok(Some(resp)) => {
                self.settings.token = Some(resp.token.clone());
                Ok(resp)
            },
            Ok(None) => Err(Error::UnexpectedResponse(String::from_str("No auth token received"))),
            Err(e) => Err(e),
        }
    }

    /// The request that sends a command to the player: `POST /command`.
    pub fn send_command(&self, command: &CommandRequest) -> (r: HttpRequest)
        ensures
            r.method == HttpMethod::Post,
            r.url@ == api_root(self.current().host@, self.current().port) + "/command"@,
            opt_view(r.authorization) == opt_view(self.current().token),
            r.body == RequestBody::Command(*command),
    {
        proof { use_type_invariant(self); }
        self.rest.post("/command", RequestBody::Command(*command), self.settings.token_str())
    }

    /// The outcome of sending a command: whatever the server replied with,
    /// success carries nothing.
    pub fn finish_send_command<T>(reply: Result<Option<T>, Error>) -> (r: Result<(), Error>)
        ensures
            reply is Ok ==> r is Ok,
            reply matches Err(e) ==> r == Err::<(), Error>(e),
    {
        match reply {
            Ok(_) => Ok(()),
            Err(e) => Err(e),
        }
    }
}

} // verus!
