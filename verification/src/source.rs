//! Sources of samples.

pub mod wait;
