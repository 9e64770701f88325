//! One-shot item systems: handlers that are registered with the engine once
//! and run on demand through the identifiers the engine hands out.
//!
//! - [`registry`] holds the identifiers of the registered handlers.
//! - [`triggers`] run a handler when an item is picked up, later or at once.
//! - [`handlers`] say what a handler brings about.
//! - [`engine`] is the boundary to the engine: what is assumed of it.

pub mod engine;
pub mod handlers;
pub mod registry;
pub mod triggers;
