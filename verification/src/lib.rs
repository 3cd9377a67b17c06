//! Lifecycle and dispatch logic of a local stand-in for an Athena-style
//! query-execution service.

pub mod advancer;
pub mod config;
pub mod dispatch;
pub mod identifier;
pub mod state;
pub mod store;
pub mod text;
