# wormhole

The core of a small game engine, verified with Verus: its clocks, input
state, asset registries and the CPU-side bookkeeping of what is drawn.

`src/` is the verified library:

- `time`: spans and instants with exact nanosecond views, the generic
  clock, the fixed-step clock (accumulate and spend steps) and the wall
  clock.
- `input`: keyboard and mouse-button state kept from frame to frame, the
  window requests of a frame, and the per-frame input systems that apply a
  frame's events in order.
- `assets`: the asset registries (textures, materials, models, glTF
  documents), kept in insertion order without repeated ids, and the
  registration of a glTF document's assets. The registries are generic in
  their asset types (GPU textures, materials with float factors, parsed
  documents), so an outside ordered map could only be trusted with a model
  of its contents that is generic, which this project does not allow;
  `AssetMap` is a verified insertion-ordered map instead.
- `render`: vertex formats and material flags as bit sets, meshes and
  their parts, per-frame instance and mesh writers, and the growth rule of
  GPU buffers.
- `scene`: the shared mesh buffers (where each uploaded mesh lands, and the
  plans that flush them to the GPU) and the order of the frame's
  schedules.
- `components`: the mesh renderer and the draws it prepares.

`app/` is the program around the library: the window and its event loop,
file loading (glTF, OBJ, images), the floating-point parts of cameras,
lights, materials and clocks, and the frame loop that drives the library.
The program prepares each frame's data; it does not submit it to a GPU.

`tests/` exercises the library on concrete values.
