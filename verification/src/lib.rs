//! Verified core of a Stream Deck / OpenAction plugin that drives the
//! YouTube Music Desktop companion server.
//!
//! The library holds the data model of the companion API, the planning of
//! its REST requests and the reading of its replies, the decoding of its
//! realtime events, and the decisions of the plugin's actions. Network,
//! timers and the plugin host stay with the caller, which performs the
//! requests the library prepares and hands back what came of them.
pub mod text;
pub mod models;
pub mod error;
pub mod rest;
pub mod companion;
pub mod ytmd;
pub mod plugin;
