# unienc

The verified core of a media encoding bridge that lets a game engine record
video and audio through each platform's encoders (WebCodecs in the browser,
Media Foundation on Windows).

- `src/` is the library, verified with Verus:
  - error categories and texts;
  - the answers of the C interface (argument checks, handle slots, decode
    failures, push and creation results);
  - the per-thread runtime context;
  - the scripts that drive the page's encoders;
  - PCM and NV12 packing;
  - the Media Foundation media types, muxer stream states and stream sink
    feeder.
- `app/` is the platform side that Verus does not see: the executor and its
  thread-local current runtime, the C interface over the WebCodecs back end
  (runtime, encoding system, muxer handles, blit source), the Emscripten
  calls, the in-memory MP4 muxer, the WebCodecs encoders, and the
  asynchronous channel work of the Media Foundation muxer.
- `tests/` exercises the library on concrete values.

Not held here:
- the Media Foundation COM code (encoder transforms, sink creation and
  finalization, sample serialization), which needs the `windows` crate;
- the C functions that need the engine's shared buffers or graphics
  integration (shared-buffer video push, encoder creation and pulls).
