//! Errors of the companion client.
use vstd::prelude::*;
use vstd::string::*;
use crate::text::{decimal, decimal_string, concat_str};

verus! {

/// What can go wrong when talking to the companion server.
#[derive(Debug)]
pub enum Error {
    /// The HTTP transport failed, or a reply could not be decoded; the text
    /// is the transport's own description of the failure.
    Reqwest(String),
    /// The server answered with a status outside 200..=299.
    Upstream {
        status_code: u16,
        message: Option<String>,
    },
    /// The realtime connection could not be opened.
    UnableToConnect,
    /// An operation needed the realtime connection before it was opened.
    SocketClientNotConnected,
    /// The server answered without the payload that was expected.
    UnexpectedResponse(String),
}

/// The human-readable text of an error.
pub open spec fn error_text(e: Error) -> Seq<char> {
    match e {
        Error::Reqwest(m) => m@,
        Error::Upstream { status_code, message } => {
            let head = "HTTP error "@ + decimal(status_code as nat);
            match message {
                Some(m) => head + ": "@ + m@,
                None => head,
            }
        },
        Error::UnableToConnect => "Unable to connect to YTMD"@,
        Error::SocketClientNotConnected => "Socket client not connected"@,
        Error::UnexpectedResponse(m) => "Unexpected response: "@ + m@,
    }
}

impl Error {
    /// The human-readable text of this error.
    pub fn to_string(&self) -> (s: String)
        ensures
            s@ == error_text(*self),
            self matches Error::Reqwest(m) ==> s@ == m@,
            self matches Error::Upstream { status_code, message: None } ==> s@ == "HTTP error "@ + decimal(*status_code as nat),
            self matches Error::Upstream { status_code, message: Some(m) } ==> s@ == "HTTP error "@ + decimal(*status_code as nat) + ": "@ + m@,
            self matches Error::UnableToConnect ==> s@ == "Unable to connect to YTMD"@,
            self matches Error::SocketClientNotConnected ==> s@ == "Socket client not connected"@,
            self matches Error::UnexpectedResponse(m) ==> s@ == "Unexpected response: "@ + m@,
    {
        match self {
            Error::Reqwest(m) => m.clone(),
            Error::Upstream { status_code, message } => {
                let mut s = String::from_str("HTTP error ");
                let code = decimal_string(*status_code);
                s.append(code.as_str());
                match message {
                    Some(m) => {
                        s.append(": ");
                        s.append(m.as_str());
                    },
                    None => {},
                }
                s
            },
            Error::UnableToConnect => String::from_str("Unable to connect to YTMD"),
            Error::SocketClientNotConnected => String::from_str("Socket client not connected"),
            Error::UnexpectedResponse(m) => concat_str("Unexpected response: ", m.as_str()),
        }
    }
}

} // verus!
