//! A bipartite circular buffer.
//!
//! The buffer owns a fixed number of element slots and keeps committed data in
//! at most two regions, so that a reader is always handed one contiguous block
//! and a writer is always handed one contiguous block, without copying around
//! the end of the store.
//!
//! `regions` holds the mathematical model of a buffer and its transitions,
//! `laws` what is proved of that model, `buffer` the executable buffer, and
//! `error` the failure reasons.
pub mod buffer;
pub mod error;
pub mod laws;
pub mod regions;

pub use crate::buffer::BipBuffer;
pub use crate::error::{Error, ErrorKind};
pub use crate::regions::Regions;
