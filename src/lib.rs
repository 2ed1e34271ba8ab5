//! Lifecycle core of a set of network listeners: binding outcomes, the accept
//! loop's decisions, per-connection dispatch, and the bookkeeping that brings
//! every listener of a group back when the group is stopped.
//!
//! The sockets, acceptors and cancellation scopes themselves belong to the
//! runtime that drives this core; here they are carried as opaque values.
pub mod address;
pub mod config;
pub mod connection;
pub mod group;
pub mod listener;
pub mod logging;
pub mod signalling;
pub mod tls;
