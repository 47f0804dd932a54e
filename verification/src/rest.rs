//! The REST side of the companion API: the requests to send and what their
//! replies mean. The caller performs each request over HTTP and hands the
//! status back.
use vstd::prelude::*;
use vstd::string::*;
use crate::error::Error;
use crate::models::request::{AuthCodeRequest, AuthRequest, CommandRequest};
use crate::text::{concat_str, opt_view};

verus! {

/// The HTTP method of a request.
#[derive(Debug, Clone, Copy, PartialEq, Eq, Structural)]
pub enum HttpMethod {
    Get,
    Post,
}

/// The JSON body of a request.
#[derive(Debug, Clone)]
pub enum RequestBody {
    Empty,
    AuthCode(AuthCodeRequest),
    Auth(AuthRequest),
    Command(CommandRequest),
}

/// A request, ready to be sent.
#[derive(Debug, Clone)]
pub struct HttpRequest {
    pub method: HttpMethod,
    pub url: String,
    /// The value of the `Authorization` header, when there is one.
    pub authorization: Option<String>,
    pub body: RequestBody,
}

/// What to do with a reply, given its status.
#[derive(Debug, Clone, Copy, PartialEq, Eq, Structural)]
pub enum ReplyAction {
    /// Decode the body as the expected payload.
    Decode,
    /// The reply has no content: the request succeeded without a payload.
    NoContent,
    /// The reply failed: read its body, if any, into an `Upstream` error.
    Reject,
}

/// The status `204 No Content`.
pub const NO_CONTENT: u16 = 204;

/// Whether a status is a success (`200..=299`).
pub open spec fn spec_is_success(status: u16) -> bool {
    200 <= status < 300
}

/// Success is exactly the statuses from 200 to 299: every status below 200
/// or above 299 is a failure, and no failure is a success.
pub proof fn lemma_success_is_2xx(status: u16)
    ensures
        spec_is_success(status) <==> (200 <= status && status <= 299),
        status < 200 || status > 299 ==> !spec_is_success(status),
{
}

/// The view of an optional string slice.
pub open spec fn opt_str_view(s: Option<&str>) -> Option<Seq<char>> {
    match s {
        Some(t) => Some(t@),
        None => None,
    }
}

/// A client for the REST API under one base URL.
#[derive(Debug)]
pub struct RestClient {
    base_url: String,
}

impl RestClient {
    /// The base URL that request paths are appended to.
    pub closed spec fn base(&self) -> Seq<char> {
        self.base_url@
    }

    /// A client for the API under `base_url`.
    pub fn new(base_url: String) -> (r: RestClient)
        ensures
            r.base() == base_url@,
    {
        RestClient { base_url }
    }

    /// The base URL that request paths are appended to.
    pub fn base_url(&self) -> (s: &String)
        ensures
            s@ == self.base(),
    {
        &self.base_url
    }

    /// The `Authorization` header for a token: the token itself, or none.
    fn build_request(token: Option<&str>) -> (h: Option<String>)
        ensures
            opt_view(h) == opt_str_view(token),
    {
        match token {
            Some(t) => Some(t.to_owned()),
            None => None,
        }
    }

    /// A GET request for `path`, authorized by `token` when there is one.
    pub fn get(&self, path: &str, token: Option<&str>) -> (r: HttpRequest)
        ensures
            r.method == HttpMethod::Get,
            r.url@ == self.base() + path@,
            opt_view(r.authorization) == opt_str_view(token),
            r.body is Empty,
    {
        HttpRequest {
            method: HttpMethod::Get,
            url: concat_str(self.base_url.as_str(), path),
            authorization: Self::build_request(token),
            body: RequestBody::Empty,
        }
    }

    /// A POST request for `path` with a JSON `body`, authorized by `token`
    /// when there is one.
    pub fn post(&self, path: &str, body: RequestBody, token: Option<&str>) -> (r: HttpRequest)
        ensures
            r.method == HttpMethod::Post,
            r.url@ == self.base() + path@,
            opt_view(r.authorization) == opt_str_view(token),
            r.body == body,
    {
        HttpRequest {
            method: HttpMethod::Post,
            url: concat_str(self.base_url.as_str(), path),
            authorization: Self::build_request(token),
            body,
        }
    }

    /// Whether a status is a success (`200..=299`).
    pub fn is_success(status: u16) -> (b: bool)
        ensures
            b == spec_is_success(status),
            b <==> (200 <= status && status <= 299),
    {
        200 <= status && status < 300
    }

    /// What to do with the reply to a GET: decode it on success, else reject it.
    pub fn get_reply_action(status: u16) -> (a: ReplyAction)
        ensures
            a == (if spec_is_success(status) { ReplyAction::Decode } else { ReplyAction::Reject }),
            200 <= status <= 299 ==> a == ReplyAction::Decode,
            status < 200 || status > 299 ==> a == ReplyAction::Reject,
    {
        if Self::is_success(status) {
            ReplyAction::Decode
        } else {
            ReplyAction::Reject
        }
    }

    /// What to do with the reply to a POST: `204` carries no payload, any
    /// other success is decoded, anything else is rejected.
    pub fn post_reply_action(status: u16) -> (a: ReplyAction)
        ensures
            status == NO_CONTENT ==> a == ReplyAction::NoContent,
            status != NO_CONTENT && spec_is_success(status) ==> a == ReplyAction::Decode,
            !spec_is_success(status) ==> a == ReplyAction::Reject,
            status == 204 ==> a == ReplyAction::NoContent,
            200 <= status <= 299 && status != 204 ==> a == ReplyAction::Decode,
            status < 200 || status > 299 ==> a == ReplyAction::Reject,
    {
        if status == NO_CONTENT {
            ReplyAction::NoContent
        } else {
            Self::get_reply_action(status)
        }
    }

    /// The error for a rejected reply: its status and, when it could be
    /// read, its body.
    pub fn upstream_error(status: u16, body: Option<String>) -> (e: Error)
        ensures
            e == (Error::Upstream { status_code: status, message: body }),
    {
        Error::Upstream { status_code: status, message: body }
    }
}

} // verus!
