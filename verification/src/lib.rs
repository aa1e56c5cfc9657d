//! Verified control core of a real-time neural amp-model effect.
//!
//! The effect runs a trained amplifier model over live audio, block by block,
//! and lets the player load another model while the audio keeps running. This
//! crate holds the part of it that decides: which handle stands for a loaded
//! model ([`nam`]), how a new model reaches the audio thread and how the
//! replaced one leaves it ([`exchange`], [`engine`]), what happens to a block
//! while no model is loaded ([`block`]), how the tone stack is laid out
//! ([`tone`]) and on which sample a gain glide arrives ([`smoothing`]). The
//! inference engine, the filters and the gain itself work on floating-point
//! samples and stay with the caller.

pub mod block;
pub mod engine;
pub mod exchange;
pub mod nam;
pub mod smoothing;
pub mod tone;
