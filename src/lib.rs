//! Background controller of a radial application launcher: key-chord and
//! scroll detection over decoded input events, and the menu state machine
//! that drives the renderer process.

pub mod commands;
pub mod config;
pub mod controller;
pub mod detector;
pub mod events;
pub mod keys;
pub mod protocol;
pub mod raw_input;
pub mod shortcut;
