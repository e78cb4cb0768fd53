//! Locating, fetching and launching the Package.swift language server.
//!
//! The crate decides; the host performs. Every function here maps plain
//! values to plain values, and the resolver in [`resolver`] is a state machine
//! whose requests the embedding program carries out.

pub mod cleanup;
pub mod command;
pub mod laws;
pub mod platform;
pub mod protocol;
pub mod release;
pub mod resolver;
pub mod text;
