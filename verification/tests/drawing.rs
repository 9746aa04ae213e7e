use ryot::appearance::{AppearanceGroup, Flags, Frame, SpriteInfo, VisualElement};
use ryot::drawing::{changes_tile, draw_on_action, draw_step, AppearanceDescriptor, BrushAction, DrawStep, DrawingBundle, SingleTileBrush};
use ryot::layer::Layer;
use ryot::prepared::PreparedAppearances;
use ryot::tile_flags::{TilePosition, TileVisibility};

fn bundle() -> DrawingBundle {
    DrawingBundle::new(
        Layer::Top,
        TilePosition { x: 3, y: 4, z: 7 },
        AppearanceDescriptor::new(AppearanceGroup::Object, 12, 0),
    )
}

#[test]
fn new_bundles_inherit_visibility() {
    let b = bundle();
    assert_eq!(b.visibility, TileVisibility::Inherited);
    assert_eq!(b.with_visibility(TileVisibility::Hidden).visibility, TileVisibility::Hidden);
    assert_eq!(b.with_visibility(TileVisibility::Hidden).layer, Layer::Top);
}

#[test]
fn single_tile_brush_draws_the_center_only() {
    assert_eq!(SingleTileBrush.apply(bundle()), vec![bundle()]);
}

#[test]
fn drawing_step_decisions() {
    let mut prepared = PreparedAppearances::default();
    prepared.insert(
        AppearanceGroup::Object,
        12,
        VisualElement {
            id: Some(12),
            name: None,
            frames: vec![Frame { sprite_info: Some(SpriteInfo { sprite_ids: vec![1] }) }],
            flags: Some(Flags { is_edge: Some(true), ..Flags::default() }),
        },
    );
    assert_eq!(draw_step(false, &prepared, AppearanceGroup::Object, 12), DrawStep::Skip);
    assert_eq!(draw_step(true, &prepared, AppearanceGroup::Object, 13), DrawStep::Stop);
    assert_eq!(draw_step(true, &prepared, AppearanceGroup::Object, 12), DrawStep::Draw(Layer::Edge));
    assert_eq!(draw_on_action(Layer::Edge, false), DrawStep::Stop);
    assert_eq!(draw_on_action(Layer::Edge, true), DrawStep::Draw(Layer::Edge));
}

#[test]
fn only_a_different_bundle_changes_a_tile() {
    assert!(changes_tile(None, bundle()));
    assert!(!changes_tile(Some(bundle()), bundle()));
    assert!(changes_tile(Some(bundle().with_visibility(TileVisibility::Visible)), bundle()));
    let mut other_frames = bundle();
    other_frames.appearance.frame_group_index = 1;
    assert!(changes_tile(Some(other_frames), bundle()));
}
