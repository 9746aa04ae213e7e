# ryot

Layers, tile flags and prepared appearances of a tile-based 2D world, verified with Verus.

- `src/layer.rs`: the stacking layers of a tile (ground, edge, the bottom stack of
  objects, creatures, effects and missiles, top, HUD), stepping up and down through
  them, and the laws of stepping.
- `src/layer_order.rs`: the drawing order of layers and its laws (a total order; within
  the bottom stack, the order of drawing depths).
- `src/text.rs`: layers and numbers written out as text.
- `src/appearance.rs`: appearances as the appearance file holds them and their
  preparation (id, main sprite, name, layer).
- `src/prepared.rs`: the prepared appearances by group and id, kept in bevy hash maps,
  and the preparation of a whole appearance file.
- `src/tile_flags.rs`: the flags of a tile and the cache that keeps them per position.
- `src/drawing.rs`, `src/debug_color.rs`, `src/camera.rs`: what the editor draws, the
  decisions of its drawing step, debug colors and camera movement direction.
- `app/`: the bevy plugins and systems, the protobuf loader of the appearance file,
  serde forms of layers, and the floating-point drawing depths.
