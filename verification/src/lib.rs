//! Verified core of an IRC desktop client: server and channel state, the
//! connection state machine of each server, persistence records, CTCP
//! parsing and the decisions that a connection task takes on each event.
pub mod types;
pub mod error;
pub mod state;
pub mod persistence;
pub mod memento;
pub mod manager;
pub mod actor;
pub mod ctcp;
pub mod commands;
pub mod events;
pub mod menu;
mod trusted;
