# citro_3d

Helpers for rendering with citro3d/citro2d on the Nintendo 3DS, split in two:

- `src/` — the verified library (Verus): colour packing (`color`), display-transfer
  flags (`transfer`), texture-combiner stages (`texenv`), vector and matrix layout
  conversion (`matrix`) and the float-uniform registers of the shader units
  (`uniforms`). Floats are carried as their IEEE-754 bit patterns.
- `app/` — the 3DS side: declarations of the C interfaces, the two renderers (3D scene
  and 2D shapes) with their set-up and frame loops, and the float-only helpers.
- `tests/` — tests of the library on concrete values.
