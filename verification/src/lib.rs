//! A minimal persisted-state contract: one initializer that may run exactly
//! once, and one read-only query that returns a fixed greeting.
//!
//! The host environment owns durable storage and serializes calls; this crate
//! holds the contract state itself ([`contract`]) and the lifecycle rules that
//! decide how a named call is dispatched against the stored state
//! ([`lifecycle`]).

pub mod contract;
pub mod lifecycle;

pub use contract::Contract;
