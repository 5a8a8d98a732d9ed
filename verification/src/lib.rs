//! OAuth2 authorization-code flow management for the ndl client and its
//! relay.
//!
//! The relay side ([`auth`], [`routes`], [`ratelimit`], [`server`]) keeps a
//! registry of login sessions, each a small state machine, and answers the
//! `start`, `callback` and `poll` requests against it. The client side
//! ([`oauth`]) either captures the provider's redirect on a loopback listener
//! or polls the relay until the login settles. Both meet the provider
//! through [`token`].
//!
//! Nothing here opens a socket, sleeps or reads a file: the caller does
//! that and hands over what it saw. What is decided on the way is decided
//! here, and stated in the contracts of the functions that decide it.

pub mod api;
pub mod auth;
pub mod config;
pub mod encoding;
pub mod oauth;
pub mod platform;
pub mod ratelimit;
pub mod routes;
pub mod server;
pub mod text;
pub mod token;
pub mod tui;
