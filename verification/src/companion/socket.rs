//! The state of the realtime connection.
use vstd::prelude::*;

verus! {

/// Where the realtime connection stands.
#[derive(Debug, Clone, Copy, PartialEq, Eq, Structural)]
pub enum SocketState {
    Connecting,
    Connected,
    Disconnected,
    Error,
}

} // verus!
