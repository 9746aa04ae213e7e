//! Appearances as they are read from the appearance file, and the prepared form
//! in which they are looked up while drawing.

use vstd::prelude::*;

use crate::layer::{BottomLayer, Layer, Order, RelativeLayer};
use crate::text::{decimal, decimal_string, digits_value, lemma_decimal_reads_back};

verus! {

/// The groups in which appearances are kept apart.
#[derive(Debug, Clone, Copy, PartialEq, Eq, Structural, Hash)]
pub enum AppearanceGroup {
    Object,
    Outfit,
    Effect,
    Missile,
}

impl Default for AppearanceGroup {
    fn default() -> (g: AppearanceGroup)
        ensures
            g == AppearanceGroup::Object,
    {
        AppearanceGroup::Object
    }
}

/// The sprites of one frame group.
#[derive(Debug, Clone, Default)]
pub struct SpriteInfo {
    pub sprite_ids: Vec<u32>,
}

/// One frame group of an appearance.
#[derive(Debug, Clone, Default)]
pub struct Frame {
    pub sprite_info: Option<SpriteInfo>,
}

/// The flags of an appearance that decide where and how it stands on a tile.
#[derive(Debug, Clone, Copy, PartialEq, Eq, Structural, Default)]
pub struct Flags {
    pub is_ground: Option<bool>,
    pub is_edge: Option<bool>,
    pub is_bottom: Option<bool>,
    pub is_top: Option<bool>,
    pub is_not_walkable: Option<bool>,
    pub blocks_sight: Option<bool>,
}

/// One appearance as the appearance file holds it.
#[derive(Debug, Clone, Default)]
pub struct VisualElement {
    pub id: Option<u32>,
    pub name: Option<String>,
    pub frames: Vec<Frame>,
    pub flags: Option<Flags>,
}

/// All appearances of the appearance file, by group.
#[derive(Debug, Clone, Default)]
pub struct VisualElements {
    pub objects: Vec<VisualElement>,
    pub outfits: Vec<VisualElement>,
    pub effects: Vec<VisualElement>,
    pub missiles: Vec<VisualElement>,
}

/// A flag that is set, as opposed to unset or absent.
pub open spec fn flag_is_set(value: Option<bool>) -> bool {
    value == Some(true)
}

/// Whether an optional flag is present and set.
pub fn is_true(value: Option<bool>) -> (r: bool)
    ensures
        r == flag_is_set(value),
{
    match value {
        Some(v) => v,
        None => false,
    }
}

/// The layer on which an appearance with these flags is drawn: ground, edge or top
/// where the flag says so (in that order of precedence), and the top of the object
/// stack otherwise. This placement rule is this library's own; a set `is_bottom` flag
/// places an appearance on the object stack, as no flag at all does.
pub open spec fn layer_of_flags(flags: Option<Flags>) -> Layer {
    match flags {
        Some(f) => if flag_is_set(f.is_ground) {
            Layer::Ground
        } else if flag_is_set(f.is_edge) {
            Layer::Edge
        } else if flag_is_set(f.is_top) {
            Layer::Top
        } else {
            Layer::Bottom(BottomLayer { order: Order::MAX, relative_layer: RelativeLayer::Object })
        },
        None => Layer::Bottom(BottomLayer { order: Order::MAX, relative_layer: RelativeLayer::Object }),
    }
}

/// The layer on which an appearance with these flags is drawn.
pub fn layer_for_flags(flags: Option<Flags>) -> (l: Layer)
    ensures
        l == layer_of_flags(flags),
{
    match flags {
        Some(f) => {
            if is_true(f.is_ground) {
                Layer::Ground
            } else if is_true(f.is_edge) {
                Layer::Edge
            } else if is_true(f.is_top) {
                Layer::Top
            } else {
                Layer::Bottom(BottomLayer::stack(RelativeLayer::Object))
            }
        },
        None => Layer::Bottom(BottomLayer::stack(RelativeLayer::Object)),
    }
}

/// An appearance ready to be drawn: it has an id and a main sprite.
#[derive(Debug, Clone)]
pub struct PreparedAppearance {
    pub id: u32,
    pub name: String,
    pub layer: Layer,
    pub main_sprite_id: u32,
    pub frame_groups: Vec<Frame>,
    pub flags: Option<Flags>,
}

impl Default for PreparedAppearance {
    fn default() -> (p: PreparedAppearance)
        ensures
            p.id == 0,
            p.name@ == Seq::<char>::empty(),
            p.layer == Layer::Ground,
            p.main_sprite_id == 0,
            p.frame_groups@ == Seq::<Frame>::empty(),
            p.flags is None,
    {
        PreparedAppearance {
            id: 0,
            name: String::new(),
            layer: Layer::Ground,
            main_sprite_id: 0,
            frame_groups: Vec::new(),
            flags: None,
        }
    }
}

/// The main sprite of an appearance: the first sprite of its first frame group.
pub open spec fn main_sprite_of(item: VisualElement) -> Option<u32> {
    if item.frames@.len() > 0 {
        match item.frames@[0].sprite_info {
            Some(info) => if info.sprite_ids@.len() > 0 {
                Some(info.sprite_ids@[0])
            } else {
                None
            },
            None => None,
        }
    } else {
        None
    }
}

/// An appearance can be prepared when it has an id and a main sprite.
pub open spec fn can_prepare(item: VisualElement) -> bool {
    item.id is Some && main_sprite_of(item) is Some
}

/// `p` is what preparing `item` gives: its id, its name (the id in decimal where it
/// has none), the layer of its flags, its main sprite, its frame groups and its flags.
pub open spec fn is_prepared_from(item: VisualElement, p: PreparedAppearance) -> bool {
    &&& can_prepare(item)
    &&& item.id == Some(p.id)
    &&& p.name@ == (match item.name {
        Some(name) => name@,
        None => decimal(p.id as nat),
    })
    &&& p.layer == layer_of_flags(item.flags)
    &&& main_sprite_of(item) == Some(p.main_sprite_id)
    &&& p.frame_groups@ == item.frames@
    &&& p.flags == item.flags
}

/// Prepares an appearance: `None` unless it has an id and a main sprite.
pub fn prepare_appearance(item: VisualElement) -> (r: Option<PreparedAppearance>)
    ensures
        r is Some <==> can_prepare(item),
        r matches Some(p) ==> is_prepared_from(item, p),
{
    let VisualElement { id, name, frames, flags } = item;
    let id = match id {
        Some(id) => id,
        None => return None,
    };
    if frames.len() == 0 {
        return None;
    }
    let main_sprite_id = match &frames[0].sprite_info {
        Some(info) => {
            if info.sprite_ids.len() == 0 {
                return None;
            }
            info.sprite_ids[0]
        },
        None => return None,
    };
    let name = match name {
        Some(name) => name,
        None => decimal_string(id),
    };
    Some(PreparedAppearance {
        id,
        name,
        layer: layer_for_flags(flags),
        main_sprite_id,
        frame_groups: frames,
        flags,
    })
}


/// An appearance can be prepared exactly when it has an id, a first frame group with
/// sprites, and at least one sprite there; what preparing gives keeps its id, names it
/// by its own name or else by its id written in decimal, takes the first sprite of the
/// first frame group as main sprite, and keeps its frame groups and flags.
pub proof fn lemma_preparation_keeps_the_appearance(item: VisualElement, p: PreparedAppearance)
    ensures
        can_prepare(item) <==> (item.id is Some && item.frames@.len() > 0
            && item.frames@[0].sprite_info is Some
            && item.frames@[0].sprite_info.unwrap().sprite_ids@.len() > 0),
        is_prepared_from(item, p) ==> {
            &&& item.id == Some(p.id)
            &&& item.frames@.len() > 0
            &&& item.frames@[0].sprite_info matches Some(info)
            &&& info.sprite_ids@.len() > 0
            &&& p.main_sprite_id == info.sprite_ids@[0]
            &&& p.frame_groups@ == item.frames@
            &&& p.flags == item.flags
        },
        is_prepared_from(item, p) && item.name is None ==> digits_value(p.name@) == p.id && p.name@.len() >= 1,
        is_prepared_from(item, p) && item.name is Some ==> p.name@ == item.name.unwrap()@,
{
    if is_prepared_from(item, p) && item.name is None {
        lemma_decimal_reads_back(p.id as nat);
    }
}

/// Where an appearance is drawn by its flags: on the ground when marked as ground, else
/// on the edge when marked as edge, else on top when marked as top, and otherwise (no
/// flags, or none of these set) at the highest place of the object stack.
pub proof fn lemma_layer_of_flags(flags: Option<Flags>)
    ensures
        flags matches Some(f) && f.is_ground == Some(true) ==> layer_of_flags(flags) == Layer::Ground,
        flags matches Some(f) && f.is_ground != Some(true) && f.is_edge == Some(true)
            ==> layer_of_flags(flags) == Layer::Edge,
        flags matches Some(f) && f.is_ground != Some(true) && f.is_edge != Some(true) && f.is_top == Some(true)
            ==> layer_of_flags(flags) == Layer::Top,
        (flags is None || (flags matches Some(f) && f.is_ground != Some(true) && f.is_edge != Some(true)
            && f.is_top != Some(true))) ==> layer_of_flags(flags) == Layer::Bottom(
            BottomLayer { relative_layer: RelativeLayer::Object, order: Order::MAX },
        ),
        flag_is_set(Some(true)) && !flag_is_set(Some(false)) && !flag_is_set(None),
{
}

} // verus!
