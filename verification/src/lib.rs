//! Real-time audio preview engine: the verified core.
//!
//! The engine takes finite runs of mono samples and streams them to an
//! output device through a bounded channel: a producer pushes interleaved
//! frames, the driver's callback drains them and plays silence when they
//! run out. This crate holds everything of that which is computation; the
//! device itself is reached through the closures that callers hand in.
//!
//! Samples travel through this crate as `u32` values holding the IEEE-754
//! bit pattern of a single-precision sample, so silence is the value `0`.
//!
//! - [`audio`] holds the engine: configuration and its negotiation, the
//!   sample channel with its laws, the stream callback, the interleaver,
//!   and the engine handle with its lifecycle.
//! - [`widgets`] and [`page`] hold the data behind the editor's interface.

pub mod audio;
pub mod page;
pub mod widgets;
