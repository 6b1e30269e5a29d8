//! A composable audio-sample streaming abstraction.
//!
//! A source produces a lazy sequence of decoded audio samples together with
//! stream metadata (channel count, sample rate, span boundaries, optional
//! total duration) and supports mid-stream repositioning.  The heart of the
//! crate is [`stoppable::Stoppable`], a decorator that transparently forwards
//! all metadata and sample production from an inner source while adding one
//! behaviour: the ability to halt sample production externally, at an
//! arbitrary point, without cooperation from producer or consumer.

pub mod buffer;
pub mod source;
pub mod stoppable;
