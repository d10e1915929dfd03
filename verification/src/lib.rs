//! Change detection and event normalization for a service-discovery browser.
//!
//! A discovery transport delivers snapshot notifications as pairs of optional
//! result handles (previous and current state of one advertised service).
//! This crate classifies each pair into a change kind, extracts stable
//! endpoint attributes, and publishes well-formed change events, together
//! with the session lifecycle and shutdown bookkeeping around that stream.

pub mod change;
pub mod descriptor;
pub mod event;
pub mod session;
pub mod shutdown;
