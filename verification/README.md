# osvr

Rust bindings for the OSVR client and its OpenGL render manager, with the
decision logic verified in Verus.

- `src/` is the verified library: the button and time reports, the C-string
  encoding of identifiers and interface paths, the GL bookkeeping of a render
  manager, and the step functions that decide each call of opening a render
  manager, registering its buffers, rendering a frame and releasing its GL
  objects. `src/laws.rs` proves properties that span steps and operations.
- `app/` makes the OSVR and GL calls (all of them `unsafe` FFI) and runs the
  step functions: `Context`, `Interface`, `RenderManager`, the `glutil`
  helpers and the GL 1.x entry points in `gl1x`.
- `tests/` runs the library on concrete values.
