//! baal: the decision logic of a small audio player for games.
//!
//! The library keeps, in plain values, the state that the audio thread and
//! the control side of the player act upon, and proves what each operation
//! does to it: which effect voices are playing, how a music transition
//! proceeds, which status the player reports and when a setting is refused.
//! Sample mixing, file decoding and the audio stream stand outside it.

pub mod channel;
pub mod config;
pub mod control;
pub mod effect;
pub mod music;
pub mod setting;
pub mod source;

pub use config::CheckLevel;
pub use setting::InitError;
