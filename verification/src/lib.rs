//! Provisioning engine for a road-warrior WireGuard setup: one server host and
//! any number of roaming clients.
//!
//! The library decides what has to happen on the host: which programs to
//! run, which files to write and read, in which order, and what their
//! outcome means. It leaves the running, writing and reading to its caller.
//! Every decision is a function from plain values to plain values with a
//! verified contract.
//!
//! - [`workflow`] sequences a whole run, one action at a time.
//! - [`keys`], [`network`], [`peers`] and [`system`] name the host commands
//!   and read their answers.
//! - [`server_config`] and [`client_config`] render the configuration texts;
//!   [`config`] is their line format.
//! - [`address`] and [`text`] are the notation underneath.
//! - [`command`] and [`error`] are what crosses the boundary to the caller.

pub mod address;
pub mod client_config;
pub mod command;
pub mod config;
pub mod error;
pub mod keys;
pub mod network;
pub mod peers;
pub mod server_config;
pub mod system;
pub mod text;
pub mod workflow;
