//! The decisions of the plugin: its actions, its global settings, the
//! player state it mirrors, and its connection upkeep.
pub mod actions;
pub mod volume;
pub mod settings;
pub mod player;
pub mod connection;
