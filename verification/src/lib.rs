//! Client core for a machine-learning service that is reached over a REST
//! API and over a WebSocket: request signing and wire framing, with the
//! preparation of each operation's request and the reading of its answer.
//!
//! Executable code is verified against contracts over the views of its
//! values. Digests, keyed tags, base64, JSON string literals and the calendar
//! come from the crates that implement them and are known by names.

pub mod auth;
pub mod cli;
pub mod clock;
pub mod commands;
pub mod common;
pub mod config;
pub mod crypto;
pub mod numbers;
pub mod rest;
pub mod text;
pub mod ws;
