# referenceframe_core

Decision logic of a picture-frame design calculator's diagrams, verified with Verus.

- `src/` — the verified library: diagram vocabulary (`types`), which callouts a
  view shows and their labels (`callouts`), callout stacking order, anchors and
  two-line labels (`layout`), text width estimation and axis-break choice
  (`geometry`), the collision pass's decisions (`collision`), SVG escaping,
  body extraction and viewBox splitting (`svg_util`) with the laws of escaping
  (`escape_laws`), the plan SVG's group structure (`plan_svg`), legend, title,
  rabbet and clearance text (`section_svg`), snapshot file paths and cases
  (`snapshot`), and character-level helpers (`text`).
- `app/` — ordinary Rust around it: floating-point geometry types, styles and
  rendering primitives (arrows, zigzags, dimension arrows, legend, title
  block), collision resolution, callout layout, axis-break measurements, serde
  forms of the library's types, and snapshot files on disk. The full plan and
  section view builders are not part of it.
- `tests/` — tests of the library.
