//! Polling-driven transition detection for a speedrun timer.
//!
//! The library turns raw, asynchronously changing process state into discrete
//! timing events. A set of typed watched values ([`watched::Watched`]) each
//! remember the sample taken on the previous tick, so that a decision engine
//! ([`engine`]) can ask edge questions ("did this flag just become true") and
//! map transitions to timer actions in a fixed priority order. The sampling
//! pass ([`sampling`]) absorbs read failures and gates context-dependent
//! reads, so the engine only ever sees values, never errors.
//!
//! Reading the observed process, resolving addresses and driving the timer
//! are left to the host around this crate; the host hands every tick's raw
//! read results to [`sampling::apply_tick`] as plain values and forwards the
//! returned [`engine::TickDecision`] to its timer.

pub mod config;
pub mod engine;
pub mod levels;
pub mod sampling;
pub mod scenes;
pub mod watched;
