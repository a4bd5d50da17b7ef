//! The Media Foundation back end: its error type, the media types that its
//! encoders are configured with, the muxer's stream states and the task that
//! feeds each stream sink.

pub mod error;
pub mod media_type;
pub mod mux;
pub mod stream;
