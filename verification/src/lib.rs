//! Ferrosonic: the logic of a music daemon and its terminal client.

pub mod audio;
pub mod binary64;
pub mod command;
pub mod config;
pub mod counter;
pub mod daemon;
pub mod secret;
pub mod strings;
pub mod ui;
