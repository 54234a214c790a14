# pine

A small 2D game engine, split in two:

- `src/` — the verified core (Verus): key codes, integer points and rectangles, colors,
  the registry of active components and global variables that callbacks reach through
  the command context (`Commands`, `Engine`), the texture table and its path rule, the
  window's event dispatch and error handling (`EventLoop`), the choice of collision
  partners, the end-of-video decision and the packing of decoded RGBA frames.
- `app/` — the runtime around it: SDL windowing and rendering, floating-point geometry
  (`Vec2`, `Math`, `Transform`), collision bounds and gravity, FFmpeg decoding, frame
  timing, the dynamic casts of components and attributes, and demo programs.
- `tests/` — tests of the core on concrete values.
