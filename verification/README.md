# whisper_bind_rs

Safe Rust bindings for whisper.cpp, with their core verified by Verus.

- `src/` is the verified library: the parameter builders (`WhisperContextParams`,
  `WhisperFullParams`, `VadParams`, `VadContextParams`), the check that a text
  can travel as a C string, the error type, the sampling strategy, and the
  decisions taken on what whisper.cpp hands back (return codes, null handles,
  token buffers, language detection, speech probabilities, segment texts).
- `app/` holds what cannot be verified: the calls into the `whisper_sys` FFI
  crate, the raw C handles (`WhisperContext`, `WhisperState`, `VadContext`,
  `VadSegments`, the heap-allocated parameter blocks), the model-loader C
  callbacks and every floating-point value (token probabilities, timings,
  audio samples, the floating-point settings).
- `tests/` exercises the library on concrete values.
