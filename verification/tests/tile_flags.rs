use ryot::appearance::{AppearanceGroup, Flags, Frame, SpriteInfo, VisualElement};
use ryot::prepared::PreparedAppearances;
use ryot::tile_flags::{update_tile_flag_cache, TileFlagCache, TileFlags, TilePosition, TileVisibility};

fn pos(x: i32, y: i32, z: i32) -> TilePosition {
    TilePosition { x, y, z }
}

fn wall() -> VisualElement {
    VisualElement {
        id: Some(7),
        name: Some("wall".to_string()),
        frames: vec![Frame { sprite_info: Some(SpriteInfo { sprite_ids: vec![70] }) }],
        flags: Some(Flags { is_not_walkable: Some(true), blocks_sight: Some(true), ..Flags::default() }),
    }
}

#[test]
fn unknown_tiles_are_visible_walkable_and_see_through() {
    assert_eq!(TileFlags::default(), TileFlags { visible: true, walkable: true, blocks_sight: false });
    assert_eq!(TileFlagCache::default().get(pos(0, 0, 7)), None);
}

#[test]
fn appearance_flags_set_walkable_and_sight_but_keep_visibility() {
    let mut f = TileFlags { visible: false, walkable: true, blocks_sight: false };
    f.for_appearance_flags(Flags { is_not_walkable: Some(true), blocks_sight: Some(true), ..Flags::default() });
    assert_eq!(f, TileFlags { visible: false, walkable: false, blocks_sight: true });
    f.for_appearance_flags(Flags::default());
    assert_eq!(f, TileFlags { visible: false, walkable: true, blocks_sight: false });
}

#[test]
fn cache_stores_what_is_set() {
    let mut cache = TileFlagCache::default();
    cache.set_visible(pos(1, 2, 7), false);
    assert_eq!(cache.get(pos(1, 2, 7)), Some(TileFlags { visible: false, walkable: true, blocks_sight: false }));
    cache.apply_appearance_flags(pos(1, 2, 7), Flags { blocks_sight: Some(true), ..Flags::default() });
    assert_eq!(cache.get(pos(1, 2, 7)), Some(TileFlags { visible: false, walkable: true, blocks_sight: true }));
    assert_eq!(cache.get(pos(2, 1, 7)), None);
}

#[test]
fn last_visibility_change_wins() {
    let mut cache = TileFlagCache::default();
    let prepared = PreparedAppearances::default();
    let changes = vec![
        (pos(1, 1, 7), TileVisibility::Hidden),
        (pos(2, 2, 7), TileVisibility::Visible),
        (pos(1, 1, 7), TileVisibility::Inherited),
        (pos(3, 3, 7), TileVisibility::Hidden),
    ];
    update_tile_flag_cache(&mut cache, &prepared, &changes, &vec![]);
    assert_eq!(cache.get(pos(1, 1, 7)).unwrap().visible, true);
    assert_eq!(cache.get(pos(2, 2, 7)).unwrap().visible, true);
    assert_eq!(cache.get(pos(3, 3, 7)).unwrap().visible, false);
    assert_eq!(cache.get(pos(4, 4, 7)), None);
}

#[test]
fn things_on_a_tile_set_its_flags() {
    let mut prepared = PreparedAppearances::default();
    prepared.insert(AppearanceGroup::Object, 7, wall());
    let mut cache = TileFlagCache::default();
    let objects = vec![
        (pos(5, 5, 7), Some((AppearanceGroup::Object, 7))),
        (pos(6, 6, 7), Some((AppearanceGroup::Object, 8))),
        (pos(7, 7, 7), None),
        (pos(8, 8, 7), Some((AppearanceGroup::Outfit, 7))),
    ];
    update_tile_flag_cache(&mut cache, &prepared, &vec![(pos(5, 5, 7), TileVisibility::Hidden)], &objects);
    assert_eq!(cache.get(pos(5, 5, 7)), Some(TileFlags { visible: false, walkable: false, blocks_sight: true }));
    assert_eq!(cache.get(pos(6, 6, 7)), None);
    assert_eq!(cache.get(pos(7, 7, 7)), None);
    assert_eq!(cache.get(pos(8, 8, 7)), None);
}

#[test]
fn things_without_flags_leave_the_tile_alone() {
    let mut prepared = PreparedAppearances::default();
    let mut plain = wall();
    plain.flags = None;
    prepared.insert(AppearanceGroup::Object, 7, plain);
    let mut cache = TileFlagCache::default();
    update_tile_flag_cache(&mut cache, &prepared, &vec![], &vec![(pos(1, 1, 7), Some((AppearanceGroup::Object, 7)))]);
    assert_eq!(cache.get(pos(1, 1, 7)), None);
}
