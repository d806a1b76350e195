# Forge

The verified core of a 2D CAD application, written in Verus.

* `src/` — the library, proved with Verus:
  * `layer` — layer table (ids, unique names, default layer, active layer)
    and the layer manager that counts `LayerRef` components in the
    `hecs` entity world before deleting a layer;
  * `block` — block definition table, block editing sessions, and the
    bookkeeping of exploding a block insert;
  * `history` — undo/redo journal with a depth limit, and the remapping of
    entity handles after re-spawns;
  * `commands` — the command-line grammar (numbers are read by `nom`),
    text dispatch, and the state machines of LINE, RECTANGLE, POLYGON,
    ELLIPSE, SPLINE, ERASE, MOVE, COPY, ROTATE, SCALE, MIRROR, OFFSET,
    EXPLODE and MATCHPROP;
  * `grip`, `input` — grip layouts and drag targets; mouse-button, key and
    pan decisions of the input mapper;
  * `ecs`, `util` — entity handles and components, colours, trimming and
    decimal formatting.
* `app/` — a command-line front end with the floating-point geometry:
  points, bounding boxes, transforms, Bézier curves, the geometry each
  command computes, undo/redo replay on the entity world, grips and camera.
* `tests/` — tests of the library.

## Design notes

* `LayerTable` and `BlockTable` keep their entries in a `Vec` ordered by
  ascending id, with the table's invariant (ids ascending and below the
  next id, names unique, the default layer present) stated and proved.
  A lookup by name must compare strings, and a map keyed by a `String`, or
  by a struct whose `Eq` and `Hash` are derived, gives no usable
  specification in Verus; a sorted vector gives both lookups (by id and by
  name) exact contracts, and keeps the listing order (ascending ids) that
  iteration over the tables exposes.
* Geometry is floating-point and stays in `app/`: the library takes the
  results it needs (bounds of a block's entities, the entity picked by a
  hit test) as arguments, and decides everything else.
