//! Drawing appearances onto tiles: what is drawn, brushes, and the decisions of the
//! drawing step.

use vstd::prelude::*;

use crate::appearance::AppearanceGroup;
use crate::layer::Layer;
use crate::prepared::PreparedAppearances;
use crate::tile_flags::{TilePosition, TileVisibility};

verus! {

/// Which appearance a thing shows: its group, its id in the group, and which of the
/// appearance's frame groups is shown.
#[derive(Debug, Clone, Copy, PartialEq, Eq, Structural, Hash)]
pub struct AppearanceDescriptor {
    pub group: AppearanceGroup,
    pub id: u32,
    pub frame_group_index: u32,
}

impl AppearanceDescriptor {
    pub fn new(group: AppearanceGroup, id: u32, frame_group_index: u32) -> (d: AppearanceDescriptor)
        ensures
            d == (AppearanceDescriptor { group, id, frame_group_index }),
    {
        AppearanceDescriptor { group, id, frame_group_index }
    }
}

/// What is drawn on one layer of one tile, and whether it is shown.
#[derive(Debug, Clone, Copy, PartialEq, Eq, Structural)]
pub struct DrawingBundle {
    pub layer: Layer,
    pub tile_pos: TilePosition,
    pub appearance: AppearanceDescriptor,
    pub visibility: TileVisibility,
}

impl DrawingBundle {
    /// A bundle whose visibility is inherited.
    pub fn new(layer: Layer, tile_pos: TilePosition, appearance: AppearanceDescriptor) -> (b: DrawingBundle)
        ensures
            b == (DrawingBundle { layer, tile_pos, appearance, visibility: TileVisibility::Inherited }),
    {
        DrawingBundle { layer, tile_pos, appearance, visibility: TileVisibility::Inherited }
    }

    /// The same bundle with the given visibility.
    pub fn with_visibility(self, visibility: TileVisibility) -> (b: DrawingBundle)
        ensures
            b == (DrawingBundle { visibility, ..self }),
    {
        DrawingBundle { visibility, ..self }
    }
}

/// A brush turns the bundle drawn at its center into the bundles it draws.
pub trait BrushAction {
    fn apply(&self, center: DrawingBundle) -> Vec<DrawingBundle>;
}

/// The brush that draws on the center tile alone.
#[derive(Debug, Clone, Copy, PartialEq, Eq, Structural, Hash, Default)]
pub struct SingleTileBrush;

impl BrushAction for SingleTileBrush {
    fn apply(&self, center: DrawingBundle) -> (r: Vec<DrawingBundle>)
        ensures
            r@ == seq![center],
    {
        vec![center]
    }
}

/// What the drawing step does for one cursor.
#[derive(Debug, Clone, Copy, PartialEq, Eq, Structural)]
pub enum DrawStep {
    /// Drawing is off for this cursor: go on with the next one.
    Skip,
    /// The appearance is not known or the draw action did not fire: stop the step.
    Stop,
    /// Draw the appearance on this layer.
    Draw(Layer),
}

/// Decides the first part of the drawing step for a cursor that shows appearance `id`
/// of `group`: nothing while drawing is off, a stop where the appearance is not
/// prepared, and otherwise its layer, on which it is drawn once the draw action is
/// found to fire (`draw_on_action`). The action is looked at only in that last case.
pub fn draw_step(
    drawing_enabled: bool,
    appearances: &PreparedAppearances,
    group: AppearanceGroup,
    id: u32,
) -> (step: DrawStep)
    ensures
        step == (if !drawing_enabled {
            DrawStep::Skip
        } else if !(appearances@.contains_key(group) && appearances@[group].contains_key(id)) {
            DrawStep::Stop
        } else {
            DrawStep::Draw(appearances@[group][id].layer)
        }),
{
    if !drawing_enabled {
        return DrawStep::Skip;
    }
    match appearances.get_for_group(group, id) {
        Some(prepared) => DrawStep::Draw(prepared.layer),
        None => DrawStep::Stop,
    }
}

/// The second part of the drawing step: draw on `layer` when the draw action fired,
/// stop otherwise.
pub fn draw_on_action(layer: Layer, action_fired: bool) -> (step: DrawStep)
    ensures
        step == (if action_fired {
            DrawStep::Draw(layer)
        } else {
            DrawStep::Stop
        }),
{
    if action_fired {
        DrawStep::Draw(layer)
    } else {
        DrawStep::Stop
    }
}

/// Whether drawing `new` changes the tile: it does unless the tile already holds
/// exactly that bundle.
pub fn changes_tile(old: Option<DrawingBundle>, new: DrawingBundle) -> (r: bool)
    ensures
        r == (old != Some(new)),
{
    match old {
        Some(old) => old != new,
        None => true,
    }
}

} // verus!
