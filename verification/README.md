# stl_gallery

A headless renderer that turns an STL mesh into a gallery of 56 PNG images:
14 camera angles × 2 framings × 2 styles (shaded and edge-detected).

- `src/` is the verified library (Verus): the camera angles and their
  names (`camera`), the gallery plan and file names (`gallery`), the
  reading of ASCII and binary STL files and their expansion into a
  per-corner triangle list (`mesh`),
  the render modes and readback-buffer layout with its row-padding
  removal (`renderer`), and the PNG encoding of a frame (`encode`).
- `app/` is the command-line program around it: argument parsing, reading the STL
  file from disk and its bounding box, the wgpu renderer, matrix math, and writing the PNG files
  from worker threads.
- `tests/` exercises the library on concrete values.
