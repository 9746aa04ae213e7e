//! How layers compare: the order in which they are drawn, from the lowest up.

use core::cmp::Ordering;
use vstd::prelude::*;
use vstd::std_specs::cmp::{PartialOrdSpec, PartialOrdSpecImpl};

use crate::layer::{BottomLayer, Layer, RelativeLayer};

verus! {

/// How `a` compares with `b` as integers.
pub open spec fn compare_ints(a: int, b: int) -> Ordering {
    if a < b {
        Ordering::Less
    } else if a == b {
        Ordering::Equal
    } else {
        Ordering::Greater
    }
}

/// How `a` compares with `b` as orders.
pub open spec fn compare_orders(a: u8, b: u8) -> Ordering {
    if a < b {
        Ordering::Less
    } else if a == b {
        Ordering::Equal
    } else {
        Ordering::Greater
    }
}

fn compare_u8(a: u8, b: u8) -> (r: Ordering)
    ensures
        r == compare_orders(a, b),
{
    if a < b {
        Ordering::Less
    } else if a == b {
        Ordering::Equal
    } else {
        Ordering::Greater
    }
}

impl PartialOrdSpecImpl for RelativeLayer {
    open spec fn obeys_partial_cmp_spec() -> bool {
        true
    }

    open spec fn partial_cmp_spec(&self, other: &RelativeLayer) -> Option<Ordering> {
        Some(compare_ints(self.index(), other.index()))
    }
}

impl PartialOrd for RelativeLayer {
    /// Kinds compare by their position in the bottom stack.
    fn partial_cmp(&self, other: &RelativeLayer) -> (r: Option<Ordering>) {
        Some(compare_u8(self.position(), other.position()))
    }
}

/// How two places of the bottom stack compare: by kind, and within one kind by order.
pub open spec fn compare_bottom(a: BottomLayer, b: BottomLayer) -> Ordering {
    if a.relative_layer != b.relative_layer {
        compare_ints(a.relative_layer.index(), b.relative_layer.index())
    } else {
        compare_orders(a.order, b.order)
    }
}

impl PartialOrdSpecImpl for BottomLayer {
    open spec fn obeys_partial_cmp_spec() -> bool {
        true
    }

    open spec fn partial_cmp_spec(&self, other: &BottomLayer) -> Option<Ordering> {
        Some(compare_bottom(*self, *other))
    }
}

impl PartialOrd for BottomLayer {
    fn partial_cmp(&self, other: &BottomLayer) -> (r: Option<Ordering>) {
        if self.relative_layer != other.relative_layer {
            Some(compare_u8(self.relative_layer.position(), other.relative_layer.position()))
        } else {
            Some(compare_u8(self.order, other.order))
        }
    }
}

/// How two layers compare: by variant, then by what they hold.
pub open spec fn compare_layers(a: Layer, b: Layer) -> Ordering {
    if a.variant_index() != b.variant_index() {
        compare_ints(a.variant_index(), b.variant_index())
    } else {
        match (a, b) {
            (Layer::Bottom(x), Layer::Bottom(y)) => compare_bottom(x, y),
            (Layer::Hud(x), Layer::Hud(y)) => compare_orders(x, y),
            _ => Ordering::Equal,
        }
    }
}

impl PartialOrdSpecImpl for Layer {
    open spec fn obeys_partial_cmp_spec() -> bool {
        true
    }

    open spec fn partial_cmp_spec(&self, other: &Layer) -> Option<Ordering> {
        Some(compare_layers(*self, *other))
    }
}

impl PartialOrd for Layer {
    fn partial_cmp(&self, other: &Layer) -> (r: Option<Ordering>) {
        match (self, other) {
            (Layer::Bottom(x), Layer::Bottom(y)) => x.partial_cmp(y),
            (Layer::Hud(x), Layer::Hud(y)) => Some(compare_u8(*x, *y)),
            _ => Some(compare_u8(self.variant_position(), other.variant_position())),
        }
    }
}


// Laws of the drawing order.

/// Layers are totally ordered: two layers compare equal exactly when they are the
/// same, `a < b` exactly when `b > a`, and `<` is transitive.
pub proof fn lemma_layer_order_is_total(a: Layer, b: Layer, c: Layer)
    ensures
        (compare_layers(a, b) == Ordering::Equal) <==> a == b,
        (compare_layers(a, b) == Ordering::Less) <==> (compare_layers(b, a) == Ordering::Greater),
        compare_layers(a, b) == Ordering::Less && compare_layers(b, c) == Ordering::Less
            ==> compare_layers(a, c) == Ordering::Less,
{
}

/// Places of the bottom stack compare as their depths do: comparing by kind first
/// and by order second is the order of the depths at which they are drawn.
pub proof fn lemma_bottom_order_is_depth_order(a: BottomLayer, b: BottomLayer)
    ensures
        compare_bottom(a, b) == compare_ints(a.depth(), b.depth()),
{
}


/// Each step up the layers reaches a layer drawn higher, and each step down a layer
/// drawn lower.
pub proof fn lemma_steps_follow_drawing_order(l: Layer)
    ensures
        Layer::entered_from_below(l.rank() + 1) matches Some(m) ==> compare_layers(l, m) == Ordering::Less,
        Layer::entered_from_above(l.rank() - 1) matches Some(m) ==> compare_layers(m, l) == Ordering::Less,
{
}


/// Kinds of the bottom stack are drawn in stack order: a kind at a lower position
/// compares less, and only a kind compares equal to itself.
pub proof fn lemma_kinds_compare_by_position(r: RelativeLayer, s: RelativeLayer)
    ensures
        PartialOrdSpec::partial_cmp_spec(&r, &s) == Some(if r.index() < s.index() {
            Ordering::Less
        } else if r == s {
            Ordering::Equal
        } else {
            Ordering::Greater
        }),
{
}

/// Places of the bottom stack, alone or as layers, compare by kind first and by order
/// within one kind: a lower kind is drawn below a higher one whatever their orders, and
/// within one kind a lower order is drawn below a higher one.
pub proof fn lemma_bottom_places_compare_by_kind_then_order(x: BottomLayer, y: BottomLayer)
    ensures
        x.relative_layer.index() < y.relative_layer.index() ==> {
            &&& PartialOrdSpec::partial_cmp_spec(&x, &y) == Some(Ordering::Less)
            &&& PartialOrdSpec::partial_cmp_spec(&Layer::Bottom(x), &Layer::Bottom(y)) == Some(Ordering::Less)
        },
        x.relative_layer == y.relative_layer && x.order < y.order ==> {
            &&& PartialOrdSpec::partial_cmp_spec(&x, &y) == Some(Ordering::Less)
            &&& PartialOrdSpec::partial_cmp_spec(&Layer::Bottom(x), &Layer::Bottom(y)) == Some(Ordering::Less)
        },
        x == y ==> {
            &&& PartialOrdSpec::partial_cmp_spec(&x, &y) == Some(Ordering::Equal)
            &&& PartialOrdSpec::partial_cmp_spec(&Layer::Bottom(x), &Layer::Bottom(y)) == Some(Ordering::Equal)
        },
        PartialOrdSpec::partial_cmp_spec(&Layer::Bottom(x), &Layer::Bottom(y)) == PartialOrdSpec::partial_cmp_spec(&x, &y),
        PartialOrdSpec::partial_cmp_spec(&x, &y) == Some(compare_ints(
            x.relative_layer.index() * 256 + x.order,
            y.relative_layer.index() * 256 + y.order,
        )),
{
}

/// Layers of different variants are drawn in the order Ground, Edge, bottom stack,
/// Top, HUD, whatever they hold; HUD layers compare by their order.
pub proof fn lemma_layers_compare_by_variant_then_content(a: Layer, b: Layer)
    ensures
        a.variant_index() < b.variant_index() ==> PartialOrdSpec::partial_cmp_spec(&a, &b) == Some(Ordering::Less),
        (a matches Layer::Hud(x) && b matches Layer::Hud(y) && x < y) ==> PartialOrdSpec::partial_cmp_spec(&a, &b) == Some(Ordering::Less),
        a == b ==> PartialOrdSpec::partial_cmp_spec(&a, &b) == Some(Ordering::Equal),
{
}

} // verus!
