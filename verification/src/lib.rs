//! Verified core of a live cricket score gateway.
//!
//! The gateway reads match state out of a key-value store whose values are
//! string-valued hashes, lists the currently live matches over HTTP, and fans
//! match update notifications out to subscribed WebSocket sessions.  This
//! crate holds the verified logic; the unverified binary around it owns the
//! sockets and the store connection and hands plain values in.
//!
//! - [`store`] models a store hash as a list of string fields with lookup.
//! - [`text`] holds character-level string utilities: equality, decimal
//!   parsing as the standard library does it, splitting.
//! - [`models`] defines the typed match state and parses it out of hashes.
//! - [`adapter`] builds the live match list and the subscriber snapshot.
//! - [`json`] renders every outbound frame, against specs that pin the text.
//! - [`hub`] is the per-match broadcast channel registry.
//! - [`session`] is the per-connection command and subscription machine.
//! - [`pump`] derives the published messages from one upstream notification.
//! - [`laws`] states the cross-cutting guarantees.

pub mod adapter;
pub mod hub;
pub mod json;
pub mod laws;
pub mod models;
pub mod pump;
pub mod session;
pub mod store;
pub mod text;
