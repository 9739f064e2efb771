//! A message-driven component runtime for terminal applications, and the
//! request-building logic of a client for a dataspace connector's management API.
//!
//! - [`envelope`]: the message envelope and relabeling of payloads.
//! - [`bundle`]: the effect bundle (messages, deferred commands, actions) and its lifting.
//! - [`laws`]: lifting commutes with running commands; lifting by the identity changes nothing.
//! - [`component`]: the component contract and the parent/child forwarding helpers.
//! - [`action`]: actions and notifications.
//! - [`driver`]: the driver's state and the action switch.
//! - [`query`], [`client`], [`auth`], [`participants`], [`config`]: the management-API side.

pub mod action;
pub mod auth;
pub mod bundle;
pub mod client;
pub mod component;
pub mod config;
pub mod driver;
pub mod envelope;
pub mod laws;
pub mod participants;
pub mod query;
