//! Core of a terminal demo shell: the key-spec language and binding table, settings resolution
//! from several sources, the screen geometry behind pointer hit-testing, and the session's state
//! transitions.
pub mod app;
pub mod binding_laws;
pub mod bindings;
pub mod cli;
pub mod config;
pub mod config_file;
pub mod key_laws;
pub mod keys;
pub mod layout;
pub mod text;
pub mod theme;
