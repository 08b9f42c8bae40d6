//! Terminal user interface.

pub mod cover_art;
