//! The data exchanged with the companion server.
pub mod shared;
pub mod request;
pub mod response;
