use ryot::appearance::{
    is_true, layer_for_flags, prepare_appearance, AppearanceGroup, Flags, Frame, SpriteInfo,
    VisualElement, VisualElements,
};
use ryot::layer::{BottomLayer, Layer, RelativeLayer};
use ryot::prepared::{prepare_appearances, PreparedAppearances};

fn element(id: Option<u32>, name: Option<&str>, sprites: Option<Vec<u32>>, flags: Option<Flags>) -> VisualElement {
    VisualElement {
        id,
        name: name.map(|n| n.to_string()),
        frames: match sprites {
            Some(ids) => vec![Frame { sprite_info: Some(SpriteInfo { sprite_ids: ids }) }],
            None => vec![],
        },
        flags,
    }
}

#[test]
fn flags_are_true_only_when_set() {
    assert!(is_true(Some(true)));
    assert!(!is_true(Some(false)));
    assert!(!is_true(None));
}

#[test]
fn layer_follows_the_flags() {
    let object = Layer::Bottom(BottomLayer::stack(RelativeLayer::Object));
    assert_eq!(layer_for_flags(None), object);
    assert_eq!(layer_for_flags(Some(Flags::default())), object);
    assert_eq!(layer_for_flags(Some(Flags { is_ground: Some(true), is_top: Some(true), ..Flags::default() })), Layer::Ground);
    assert_eq!(layer_for_flags(Some(Flags { is_edge: Some(true), ..Flags::default() })), Layer::Edge);
    assert_eq!(layer_for_flags(Some(Flags { is_top: Some(true), ..Flags::default() })), Layer::Top);
    assert_eq!(layer_for_flags(Some(Flags { is_bottom: Some(true), ..Flags::default() })), object);
    assert_eq!(layer_for_flags(Some(Flags { is_ground: Some(false), ..Flags::default() })), object);
}

#[test]
fn preparing_needs_an_id_and_a_main_sprite() {
    assert!(prepare_appearance(element(None, None, Some(vec![1]), None)).is_none());
    assert!(prepare_appearance(element(Some(1), None, None, None)).is_none());
    assert!(prepare_appearance(element(Some(1), None, Some(vec![]), None)).is_none());
    let no_sprite_info = VisualElement { id: Some(1), name: None, frames: vec![Frame { sprite_info: None }], flags: None };
    assert!(prepare_appearance(no_sprite_info).is_none());
}

#[test]
fn preparing_keeps_the_fields() {
    let flags = Flags { is_top: Some(true), ..Flags::default() };
    let mut item = element(Some(42), Some("torch"), Some(vec![7, 8]), Some(flags));
    item.frames.push(Frame { sprite_info: Some(SpriteInfo { sprite_ids: vec![9] }) });
    let p = prepare_appearance(item).unwrap();
    assert_eq!(p.id, 42);
    assert_eq!(p.name, "torch");
    assert_eq!(p.layer, Layer::Top);
    assert_eq!(p.main_sprite_id, 7);
    assert_eq!(p.frame_groups.len(), 2);
    assert_eq!(p.frame_groups[1].sprite_info.as_ref().unwrap().sprite_ids, vec![9]);
    assert_eq!(p.flags, Some(flags));
}

#[test]
fn an_appearance_without_name_is_named_by_its_id() {
    let p = prepare_appearance(element(Some(3071), None, Some(vec![1]), None)).unwrap();
    assert_eq!(p.name, "3071");
    assert_eq!(p.layer, Layer::Bottom(BottomLayer::stack(RelativeLayer::Object)));
}

#[test]
fn lookup_after_insert_gives_back_the_prepared_appearance() {
    let mut prepared = PreparedAppearances::default();
    assert!(prepared.is_empty());
    prepared.insert(AppearanceGroup::Outfit, 5, element(Some(5), Some("knight"), Some(vec![11]), None));
    assert!(!prepared.is_empty());
    let p = prepared.get_for_group(AppearanceGroup::Outfit, 5).unwrap();
    assert_eq!(p.name, "knight");
    assert_eq!(p.main_sprite_id, 11);
    assert!(prepared.get_for_group(AppearanceGroup::Object, 5).is_none());
    assert!(prepared.get_for_group(AppearanceGroup::Outfit, 6).is_none());
    assert!(prepared.get_group(AppearanceGroup::Outfit).unwrap().get(5).is_some());
    assert!(prepared.get_group(AppearanceGroup::Effect).is_none());
}

#[test]
fn insert_drops_what_cannot_be_prepared() {
    let mut prepared = PreparedAppearances::default();
    prepared.insert(AppearanceGroup::Object, 1, element(Some(1), None, None, None));
    assert!(prepared.is_empty());
    assert!(prepared.get_group(AppearanceGroup::Object).is_none());
}

#[test]
fn insert_replaces_under_the_same_id() {
    let mut prepared = PreparedAppearances::default();
    prepared.insert(AppearanceGroup::Effect, 9, element(Some(9), Some("first"), Some(vec![1]), None));
    prepared.insert(AppearanceGroup::Effect, 9, element(Some(9), Some("second"), Some(vec![2]), None));
    prepared.insert(AppearanceGroup::Effect, 10, element(Some(10), None, Some(vec![3]), None));
    assert_eq!(prepared.get_for_group(AppearanceGroup::Effect, 9).unwrap().name, "second");
    assert_eq!(prepared.get_for_group(AppearanceGroup::Effect, 10).unwrap().name, "10");
}

#[test]
fn appearances_are_prepared_by_group() {
    let appearances = VisualElements {
        objects: vec![
            element(Some(100), Some("stone"), Some(vec![1000]), Some(Flags { is_ground: Some(true), ..Flags::default() })),
            element(None, Some("no id"), Some(vec![1001]), None),
            element(Some(101), Some("no frames"), None, None),
            element(Some(100), Some("stone again"), Some(vec![1002]), None),
            element(Some(102), None, Some(vec![]), None),
        ],
        outfits: vec![element(Some(1), Some("citizen"), Some(vec![5]), None)],
        effects: vec![],
        missiles: vec![element(Some(1), None, Some(vec![6]), None)],
    };
    let mut prepared = PreparedAppearances::default();
    prepare_appearances(&mut prepared, appearances);
    let stone = prepared.get_for_group(AppearanceGroup::Object, 100).unwrap();
    assert_eq!(stone.name, "stone again");
    assert_eq!(stone.main_sprite_id, 1002);
    assert!(prepared.get_for_group(AppearanceGroup::Object, 101).is_none());
    assert!(prepared.get_for_group(AppearanceGroup::Object, 102).is_none());
    assert_eq!(prepared.get_for_group(AppearanceGroup::Outfit, 1).unwrap().name, "citizen");
    assert_eq!(prepared.get_for_group(AppearanceGroup::Missile, 1).unwrap().name, "1");
    assert!(prepared.get_group(AppearanceGroup::Effect).is_none());
    assert_eq!(AppearanceGroup::default(), AppearanceGroup::Object);
}
