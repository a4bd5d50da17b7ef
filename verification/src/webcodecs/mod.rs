//! The WebCodecs back end: the scripts through which the module drives the
//! page's encoders, the buffer that collects the muxer's output, and what
//! the muxer inputs answer when finished.

pub mod js;
pub mod fragments;
pub mod mux;

use vstd::prelude::*;

verus! {

/// The WebCodecs encoding system: the options every encoder and muxer it
/// makes is configured with, and the runtime their work runs on.
pub struct WebCodecsEncodingSystem<V, A, R> {
    video_options: V,
    audio_options: A,
    runtime: R,
}

impl<V: Copy, A: Copy, R> WebCodecsEncodingSystem<V, A, R> {
    /// A system with copies of the given options, running on `runtime`.
    pub fn new(video_options: &V, audio_options: &A, runtime: R) -> (res: Self)
        ensures
            res.spec_video_options() == *video_options,
            res.spec_audio_options() == *audio_options,
            res.spec_runtime() == runtime,
    {
        WebCodecsEncodingSystem { video_options: *video_options, audio_options: *audio_options, runtime }
    }

    pub closed spec fn spec_video_options(&self) -> V {
        self.video_options
    }

    pub closed spec fn spec_audio_options(&self) -> A {
        self.audio_options
    }

    pub closed spec fn spec_runtime(&self) -> R {
        self.runtime
    }

    /// The video options.
    pub fn video_options(&self) -> (res: &V)
        ensures
            *res == self.spec_video_options(),
    {
        &self.video_options
    }

    /// The audio options.
    pub fn audio_options(&self) -> (res: &A)
        ensures
            *res == self.spec_audio_options(),
    {
        &self.audio_options
    }

    /// The runtime.
    pub fn runtime(&self) -> (res: &R)
        ensures
            *res == self.spec_runtime(),
    {
        &self.runtime
    }
}

} // verus!
