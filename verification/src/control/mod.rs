//! The action-driven session: participants, menu items, the session state and
//! the actions that move it from one phase to the next.

pub mod action;
pub mod laws;
pub mod listing;
pub mod menu;
pub mod state;
pub mod store;
pub mod user;
