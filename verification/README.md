# the_code

A viewer that morphs one textured mesh into another on the GPU. The verified
library (`src/`) holds the program's logic; `app/` is the window, the GPU calls
and the floating-point camera and geometry code around it.

- `resources`: the vertex creator's uniform block and the byte sizes of the GPU records.
- `sizing`: buffer sizes of the transition, the uniform block for two meshes, workgroup counts.
- `bindings`: bind group layouts, bind groups, how each buffer is created, the per-frame copies,
  with proofs that the groups fit their layouts and the copies are valid.
- `mesh`: de-indexing of mesh attributes, index lists, choosing the leading model.
- `texture`: conversion of embedded images to RGBA bytes.
- `controls`: what each window event does to the viewer.

The shaders `create_vertices.wgsl` and `render.wgsl` are read at run time from `src/gpu/` under
the crate directory (the build's `CARGO_MANIFEST_DIR` where it is known, else the working
directory); the models are read from `src/assets/` under the working directory.
