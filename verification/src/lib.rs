//! A verified core for an interactive time-tracking client.
//!
//! The crate holds the rules of the client: which records may be offered
//! and chosen, how a time entry is built from the choices, how the
//! service's reply is read and rendered, and in which order all of this
//! happens. Terminal and network work is left to the caller, which feeds
//! the outcome of each step back into [`flow::Flow`].

pub mod api;
pub mod entry;
pub mod failure;
pub mod flow;
pub mod json;
pub mod model;
pub mod receipt;
pub mod select;
pub mod text;
