# nae (verified core)

The platform-independent logic of the Nae multimedia layer, written in Verus
and proved against its contracts:

- `pcg`: the PCG32 generator, `Random`, and typed and ranged draws.
- `extras`: seeded shuffling on top of `rand_pcg`, and the shuffle bag.
- `input`: mouse buttons, key codes, and the web key/button mappings.
- `color`: packed `0xRRGGBBAA` colors and their text form.
- `pipeline`, `resources`, `texture`, `vertex`, `shader`, `system`: the
  descriptions of render pipelines, textures, vertex layouts, SPIR-V modules
  and applications.
- `gl`, `gfx`, `render_state`, `draw_state`, `context2d`: the decisions of the
  OpenGL backends (GL enumerants, the state a pipeline binds, draw bookkeeping,
  masks and paint modes), returned as plain values for the caller to issue.

`app/` holds what stays outside the proofs: floating point colors, matrices and
random draws, the clock, input event queues, reading SPIR-V files, and issuing
the decided GL calls through `glow`.
