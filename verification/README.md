# maplibre_native

Rust bindings to the MapLibre Native map rendering engine, with their logic
verified in Verus.

- `src/` is the verified library: the builder's configuration, the renderer's
  state and the decisions it takes around each request to the native engine
  (when rendering is allowed, how the camera is placed in each projection, how
  a style path becomes a URL), the reading of rendered images from the engine's
  raw bytes, and the log lines made of the engine's messages.
- `app/` talks to the C++ engine through `cxx`, logs through `log`, and holds
  the floating-point geometry (tile centres and the globe re-projection).
- `tests/` exercises the library.
