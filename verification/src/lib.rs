//! Layers, tile flags and prepared appearances of a tile-based 2D world,
//! with their stacking order, stepping rules and caches stated and proved.

pub mod layer;
pub mod layer_order;
pub mod text;
pub mod appearance;
pub mod prepared;
pub mod tile_flags;
pub mod drawing;
pub mod debug_color;
pub mod camera;
