//! Verified core of a campus-network authentication client.

pub mod text;
pub mod json;
pub mod config;
pub mod portal;
pub mod watcher;
pub mod fixer;
pub mod codec;
pub mod logbus;
pub mod net;
pub mod commands;
pub mod dpapi;
pub mod autostart;
pub mod startup;
