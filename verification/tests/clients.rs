use oaytmd::companion;
use oaytmd::error::Error;
use oaytmd::models::request::CommandRequest;
use oaytmd::models::response::{AuthCodeResponse, AuthResponse};
use oaytmd::models::shared::RepeatMode;
use oaytmd::rest::{HttpMethod, ReplyAction, RequestBody, RestClient};
use oaytmd::text::decimal_string;
use oaytmd::ytmd::{self, ConnectStep};

fn ytmd_settings(token: Option<&str>) -> ytmd::ClientSettings {
    ytmd::ClientSettings {
        app_id: "oaytmd".to_string(),
        app_name: "YTMD Controller".to_string(),
        app_version: "1.2.3".to_string(),
        host: "127.0.0.1".to_string(),
        port: 9863,
        token: token.map(|t| t.to_string()),
    }
}

fn companion_settings(token: Option<&str>) -> companion::ClientSettings {
    companion::ClientSettings {
        app_id: "oaytmd".to_string(),
        app_name: "YTMD Controller".to_string(),
        app_version: "1.2.3".to_string(),
        host: "localhost".to_string(),
        port: 80,
        token: token.map(|t| t.to_string()),
    }
}

#[test]
fn decimal_rendering() {
    assert_eq!(decimal_string(0), "0");
    assert_eq!(decimal_string(7), "7");
    assert_eq!(decimal_string(10), "10");
    assert_eq!(decimal_string(9863), "9863");
    assert_eq!(decimal_string(65535), "65535");
}

#[test]
fn ytmd_urls() {
    let s = ytmd_settings(None);
    assert_eq!(s.base_url(), "http://127.0.0.1:9863");
    assert_eq!(s.api_url(), "http://127.0.0.1:9863/api/v1");
    let mut t = ytmd_settings(None);
    t.host = "example.org".to_string();
    t.port = 0;
    assert_eq!(t.base_url(), "http://example.org:0");
}

#[test]
fn companion_base_url_includes_api_root() {
    let s = companion_settings(None);
    assert_eq!(s.base_url(), "http://localhost:80/api/v1");
}

#[test]
fn default_settings_are_empty() {
    let s = ytmd::ClientSettings::default();
    assert_eq!(s.host, "");
    assert_eq!(s.port, 0);
    assert!(s.token.is_none());
    assert_eq!(s.base_url(), "http://:0");
    let c = companion::ClientSettings::default();
    assert_eq!(c.app_id, "");
    assert!(c.token.is_none());
}

#[test]
fn rest_requests() {
    let rest = RestClient::new("http://h:1/api/v1".to_string());
    assert_eq!(rest.base_url(), "http://h:1/api/v1");
    let get = rest.get("/state", Some("tok"));
    assert_eq!(get.method, HttpMethod::Get);
    assert_eq!(get.url, "http://h:1/api/v1/state");
    assert_eq!(get.authorization.as_deref(), Some("tok"));
    assert!(matches!(get.body, RequestBody::Empty));
    let post = rest.post("/command", RequestBody::Command(CommandRequest::Next), None);
    assert_eq!(post.method, HttpMethod::Post);
    assert_eq!(post.url, "http://h:1/api/v1/command");
    assert!(post.authorization.is_none());
    assert!(matches!(post.body, RequestBody::Command(CommandRequest::Next)));
}

#[test]
fn reply_statuses() {
    assert!(RestClient::is_success(200));
    assert!(RestClient::is_success(299));
    assert!(!RestClient::is_success(199));
    assert!(!RestClient::is_success(300));
    assert_eq!(RestClient::get_reply_action(200), ReplyAction::Decode);
    assert_eq!(RestClient::get_reply_action(204), ReplyAction::Decode);
    assert_eq!(RestClient::get_reply_action(404), ReplyAction::Reject);
    assert_eq!(RestClient::post_reply_action(204), ReplyAction::NoContent);
    assert_eq!(RestClient::post_reply_action(201), ReplyAction::Decode);
    assert_eq!(RestClient::post_reply_action(500), ReplyAction::Reject);
    assert_eq!(RestClient::post_reply_action(301), ReplyAction::Reject);
}

#[test]
fn error_texts() {
    let e = RestClient::upstream_error(403, Some("denied".to_string()));
    assert_eq!(e.to_string(), "HTTP error 403: denied");
    let e = RestClient::upstream_error(500, None);
    assert_eq!(e.to_string(), "HTTP error 500");
    assert_eq!(Error::Reqwest("timed out".to_string()).to_string(), "timed out");
    assert_eq!(Error::UnableToConnect.to_string(), "Unable to connect to YTMD");
    assert_eq!(Error::SocketClientNotConnected.to_string(), "Socket client not connected");
    assert_eq!(Error::UnexpectedResponse("x".to_string()).to_string(), "Unexpected response: x");
}

#[test]
fn companion_client_requests() {
    let client = companion::Client::new(companion_settings(Some("abc")));
    let r = client.get_state();
    assert_eq!(r.method, HttpMethod::Get);
    assert_eq!(r.url, "http://localhost:80/api/v1/state");
    assert_eq!(r.authorization.as_deref(), Some("abc"));
    let r = client.auth_request_code();
    assert_eq!(r.url, "http://localhost:80/api/v1/auth/requestcode");
    match r.body {
        RequestBody::AuthCode(b) => {
            assert_eq!(b.app_id, "oaytmd");
            assert_eq!(b.app_name, "YTMD Controller");
            assert_eq!(b.app_version, "1.2.3");
        }
        _ => panic!("wrong body"),
    }
    let r = client.auth_request("1234".to_string());
    assert_eq!(r.url, "http://localhost:80/api/v1/auth/request");
    match r.body {
        RequestBody::Auth(b) => {
            assert_eq!(b.app_id, "oaytmd");
            assert_eq!(b.code, "1234");
        }
        _ => panic!("wrong body"),
    }
    let r = client.send_command(&CommandRequest::SetVolume(40));
    assert_eq!(r.url, "http://localhost:80/api/v1/command");
    assert!(matches!(r.body, RequestBody::Command(CommandRequest::SetVolume(40))));
}

#[test]
fn companion_auth_stores_token() {
    let mut client = companion::Client::new(companion_settings(None));
    let r = client.finish_auth_request(Ok(Some(AuthResponse { token: "t1".to_string() })));
    assert_eq!(r.unwrap().token, "t1");
    assert_eq!(client.settings().token.as_deref(), Some("t1"));
    assert_eq!(client.get_state().authorization.as_deref(), Some("t1"));

    let r = client.finish_auth_request(Ok(None));
    match r {
        Err(Error::UnexpectedResponse(m)) => assert_eq!(m, "No auth token received"),
        _ => panic!("expected an unexpected response"),
    }
    assert_eq!(client.settings().token.as_deref(), Some("t1"));

    let r = client.finish_auth_request(Err(Error::UnableToConnect));
    assert!(matches!(r, Err(Error::UnableToConnect)));
}

#[test]
fn companion_auth_code_outcomes() {
    let r = companion::Client::finish_auth_request_code(Ok(Some(AuthCodeResponse { code: "42".to_string() })));
    assert_eq!(r.unwrap().code, "42");
    match companion::Client::finish_auth_request_code(Ok(None)) {
        Err(Error::UnexpectedResponse(m)) => assert_eq!(m, "No auth code received"),
        _ => panic!("expected an unexpected response"),
    }
    let r: Result<(), Error> = companion::Client::finish_send_command(Ok(Some(5u8)));
    assert!(r.is_ok());
    let r: Result<(), Error> = companion::Client::finish_send_command::<u8>(Ok(None));
    assert!(r.is_ok());
    let r = companion::Client::finish_send_command::<u8>(Err(Error::SocketClientNotConnected));
    assert!(matches!(r, Err(Error::SocketClientNotConnected)));
}

#[test]
fn companion_set_settings_moves_rest_client() {
    let mut client = companion::Client::new(companion_settings(None));
    let mut s = companion_settings(Some("z"));
    s.host = "10.0.0.2".to_string();
    s.port = 1234;
    client.set_settings(s);
    assert_eq!(client.get_state().url, "http://10.0.0.2:1234/api/v1/state");
    assert_eq!(client.settings().port, 1234);
}

#[test]
fn ytmd_connect_with_token_opens_socket() {
    let client = ytmd::Client::new(ytmd_settings(Some("tok")));
    match client.connect(false) {
        ConnectStep::OpenSocket { url, token } => {
            assert_eq!(url, "http://127.0.0.1:9863");
            assert_eq!(token.as_deref(), Some("tok"));
        }
        other => panic!("unexpected step {:?}", other),
    }
    assert!(matches!(client.connect(true), ConnectStep::RequestCode));
}

#[test]
fn ytmd_connect_pairs_without_token() {
    let mut client = ytmd::Client::new(ytmd_settings(None));
    assert!(matches!(client.connect(false), ConnectStep::RequestCode));
    let step = ytmd::Client::connect_with_code(Ok(Some(AuthCodeResponse { code: "5555".to_string() })));
    let code = match step {
        ConnectStep::RequestToken(c) => c,
        other => panic!("unexpected step {:?}", other),
    };
    assert_eq!(code, "5555");
    let req = client.auth_request(code);
    assert_eq!(req.url, "http://127.0.0.1:9863/api/v1/auth/request");
    match client.connect_with_token(Ok(Some(AuthResponse { token: "granted".to_string() }))) {
        ConnectStep::OpenSocket { url, token } => {
            assert_eq!(url, "http://127.0.0.1:9863");
            assert_eq!(token.as_deref(), Some("granted"));
        }
        other => panic!("unexpected step {:?}", other),
    }
    assert_eq!(client.settings().token.as_deref(), Some("granted"));
    assert_eq!(client.get_state().authorization.as_deref(), Some("granted"));
    match client.connect(false) {
        ConnectStep::OpenSocket { token, .. } => assert_eq!(token.as_deref(), Some("granted")),
        other => panic!("unexpected step {:?}", other),
    }
}

#[test]
fn ytmd_connect_failures() {
    match ytmd::Client::connect_with_code(Ok(None)) {
        ConnectStep::Failed(Error::UnexpectedResponse(m)) => assert_eq!(m, "No auth code received"),
        other => panic!("unexpected step {:?}", other),
    }
    assert!(matches!(
        ytmd::Client::connect_with_code(Err(Error::UnableToConnect)),
        ConnectStep::Failed(Error::UnableToConnect)
    ));
    let mut client = ytmd::Client::new(ytmd_settings(None));
    match client.connect_with_token(Ok(None)) {
        ConnectStep::Failed(Error::UnexpectedResponse(m)) => assert_eq!(m, "No auth token received"),
        other => panic!("unexpected step {:?}", other),
    }
    assert!(client.settings().token.is_none());
    assert!(matches!(
        client.connect_with_token(Err(Error::Reqwest("refused".to_string()))),
        ConnectStep::Failed(Error::Reqwest(_))
    ));
    assert!(client.settings().token.is_none());
    assert!(ytmd::Client::setup_event_handler(true).is_ok());
    assert!(matches!(ytmd::Client::setup_event_handler(false), Err(Error::SocketClientNotConnected)));
    assert!(matches!(ytmd::Client::socket_connect_failed(), Error::UnableToConnect));
}

#[test]
fn ytmd_requests() {
    let mut client = ytmd::Client::new(ytmd_settings(None));
    let r = client.send_command(&CommandRequest::RepeatMode(RepeatMode::All));
    assert_eq!(r.url, "http://127.0.0.1:9863/api/v1/command");
    assert!(r.authorization.is_none());
    assert!(matches!(r.body, RequestBody::Command(CommandRequest::RepeatMode(RepeatMode::All))));
    let r = client.auth_request_code();
    assert_eq!(r.url, "http://127.0.0.1:9863/api/v1/auth/requestcode");
    let mut s = ytmd_settings(Some("x"));
    s.port = 8080;
    client.set_settings(s);
    assert_eq!(client.get_state().url, "http://127.0.0.1:8080/api/v1/state");
    assert_eq!(client.get_state().authorization.as_deref(), Some("x"));
    let r: Result<(), Error> = ytmd::Client::finish_send_command(Ok(Some(1u8)));
    assert!(r.is_ok());
}
