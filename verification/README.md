# voice_engine

The logic of a voice agent engine, verified with Verus: sessions and their events, speech
recognition and synthesis providers, voice activity detection, denoiser framing, recording, and
the sinks that store and export what happened.

## Layout

- `src/` is the library. Every function states what it returns or changes, and Verus proves it.
  Functions take the time, random values and the outcomes of network calls as arguments, so that
  what follows from them is decided here.
- `app/` runs the library: sockets, HTTP, files, databases, the model runtimes and the Python
  bindings.
- `tests/` runs the library with the crates that it calls.

## Conventions

- Instants are nanoseconds on a monotonic clock; `clock::Millis` is a span of them.
- Floating-point values are carried as their bits (`event::Float64`, `float32::Float32`) and are
  only ever compared in the library.
- A type with an invariant has a spec function `wf`; its constructors establish it and its methods
  keep it.
- Proof functions named `law_*` state what holds across several functions. Those named `lemma_*`
  are steps of proofs.
- Calls into other crates stand in small functions marked `external_body`. The comment above each
  says what is taken on trust.
