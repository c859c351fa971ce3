//! Core of a long-lived event-processing service: a keyed counter store
//! that many concurrent event handlers increment, a dispatcher that routes
//! inbound platform events, a periodic scheduler that reads the aggregate
//! count and forwards it to a reporting sink, and a lifecycle controller
//! that orders startup and makes shutdown idempotent.
//!
//! The store, the dispatch decisions and the two state machines are the
//! verified logic; the gateway connection, timers and signal handling are
//! left to the embedding program, which drives these types from its own
//! loops.

pub mod event;
pub mod laws;
pub mod lifecycle;
pub mod scheduler;
pub mod store;
