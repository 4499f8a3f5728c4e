//! A small interactive command shell engine: a registry of typed commands,
//! an argument validator, and sessions that dispatch lines, classify the
//! severity of failures and spawn nested sessions.

pub mod text;
pub mod command;
pub mod registry;
pub mod symbols;
pub mod session;
pub mod handlers;
pub mod builtins;
pub mod laws;
pub mod startup;
