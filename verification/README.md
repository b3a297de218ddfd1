# fourdeers

The discrete core of a stereoscopic 4D polytope explorer, verified with Verus.

`src/` is the verified library:

- `polytopes`, `golden`: the six regular 4-polytopes with exact vertices (integer
  coordinates for the 8-, 16- and 24-cell, coordinates in ℤ[φ] for the 5-, 120- and
  600-cell) and edge lists, with proofs that edges join distinct vertices in order, that no
  edge list repeats an edge, that all edges of a polytope have one length, that the edge
  lists of the 5- to 24-cell have the documented sizes and uniform vertex degrees, that the
  5-cell has no opposite vertices, and that the polytopes with integer coordinates are
  centered and centrally symmetric. For the 120- and 600-cell, edge counts and degrees are
  decided by verified counting functions (`hundred_twenty_cell_is_regular`,
  `six_hundred_cell_is_regular`), whose answers the tests check.
- `input`, `tap`: tap zones of the stereo view halves, the movement each zone and key
  triggers, zone bindings and the control overlay, camera control settings.
- `gesture`: the pointer state between frames, deciding taps, double-tap suppression, drags
  and holds.
- `camera`, `rotation4d`: movement directions and actions as signed camera axes, and how a
  plane rotation is encoded in a quaternion pair.
- `render`, `tetrahedron`, `map`: label texts and modes, the zone tetrahedra layout, color
  packing, the tesseract's edge axes and the map view's pointer decisions.
- `toy`: the toy registry order and the manager that keeps one toy active.

`app/` holds the floating-point and screen code around the library (rotations, the camera,
pointer analysis over screen rects, colors, polytope vertex positions); it is ordinary Rust
built on `egui`, `nalgebra` and `bytemuck`.

`tests/` exercises the library on concrete values.
