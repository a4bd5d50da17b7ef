//! Verified core of a cross-platform media encoding bridge: error
//! categories and messages, what the C interface answers through its
//! callbacks, the per-thread runtime context, the scripts that drive the
//! WebCodecs encoders, sample packing, and the Media Foundation media types
//! and muxer stream states.

pub mod api;
pub mod error;
pub mod runtime;
pub mod samples;
pub mod text;
pub mod webcodecs;
pub mod windows_mf;
