//! Compact, sortable, unique 64-bit identifiers for distributed nodes, in the
//! style of Snowflake IDs.
//!
//! A [`WebeIDFactory`](factory::WebeIDFactory) packs three fields into each
//! identifier, most significant first: 40 bits of milliseconds elapsed since a
//! caller-chosen epoch, an 8-bit node identifier, and a 16-bit per-millisecond
//! sequence counter. Construction validates the epoch against the system
//! clock; generation detects clock rewind and sequence exhaustion and fails
//! closed on both.
//!
//! The clock-independent core of every operation is exposed as a function
//! that takes the clock reading as an argument (`new_at`, `next_at`, ...), so
//! the generation algorithm is verified for every possible clock value and
//! can be exercised deterministically.

mod clock;
pub mod factory;
pub mod laws;

pub use factory::{WebeID, WebeIDError, WebeIDFactory};
