# rcms

The verified core of an ICC colour-management engine, written in Verus.

- `src/io.rs` — big-endian readers over profile bytes (`ProfileReader`, `MemReader`).
- `src/profile/` — the 128-byte header, the tag directory and `Profile::open`;
  `types/curve.rs` reads `curv` and `para` tags into `CurveData`.
- `src/link/intents.rs` — the decisions made when profiles are linked:
  black-point-compensation adjustment, junction compatibility, channel counts,
  the PCS-adaptation stages a junction needs, and how each profile of a chain
  is connected.
- `src/format.rs` — packed 8-bit pixel formats of the device spaces.
- `app/` — the floating-point side (matrices, the layer-emptiness test,
  fixed-point decoding), which Verus does not check.
- `tests/` — tests of the library.
