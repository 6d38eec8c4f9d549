//! Decisions behind `nh system`: which System Manager configuration to build, when to ask, and
//! what to activate.
pub mod args;
pub mod attribute;
pub mod command;
pub mod error;
pub mod installable;
pub mod os_text;
pub mod rebuild;
pub mod rebuild_laws;
pub mod repl;
pub mod repl_laws;
pub mod search;
pub mod select;
pub mod select_laws;
pub mod session;
pub mod system;
pub mod system_laws;
pub mod text;
