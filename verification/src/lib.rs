//! The core of a loudness meter for several audio input buses: the processor
//! that runs once per audio buffer, the timer that paces its publications,
//! the snapshots that it publishes, and the decisions of the consumer-facing
//! side.

pub mod text;
pub mod table;
pub mod loudness;
pub mod timer;
pub mod config;
pub mod analyzer;
pub mod broadcast;
pub mod measure;
pub mod snapshot;
pub mod registry;
pub mod processor;
pub mod control;
pub mod session;
