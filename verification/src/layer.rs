//! The stacking layers of a tile: ground, edge, the bottom stack, top and the HUD.

use vstd::prelude::*;

verus! {

/// The order of an item in an ordered layer. There is a virtual limit of
/// 256 items in the ordered layers.
pub type Order = u8;

/// The kinds of things that share the bottom stack of a tile, from the lowest up.
#[derive(Debug, Clone, Copy, PartialEq, Eq, Structural, Hash, Ord)]
pub enum RelativeLayer {
    Object,
    Creature,
    Effect,
    Missile,
}

impl RelativeLayer {
    /// Position of the kind in the bottom stack, counted from 0.
    pub open spec fn index(self) -> int {
        match self {
            RelativeLayer::Object => 0,
            RelativeLayer::Creature => 1,
            RelativeLayer::Effect => 2,
            RelativeLayer::Missile => 3,
        }
    }

    /// Position of the kind in the bottom stack, as a number.
    pub(crate) fn position(&self) -> (i: u8)
        ensures
            i == self.index(),
    {
        match *self {
            RelativeLayer::Object => 0,
            RelativeLayer::Creature => 1,
            RelativeLayer::Effect => 2,
            RelativeLayer::Missile => 3,
        }
    }

    /// The kind at position `i` of the bottom stack, if there is one.
    pub open spec fn at(i: int) -> Option<RelativeLayer> {
        if i == 0 {
            Some(RelativeLayer::Object)
        } else if i == 1 {
            Some(RelativeLayer::Creature)
        } else if i == 2 {
            Some(RelativeLayer::Effect)
        } else if i == 3 {
            Some(RelativeLayer::Missile)
        } else {
            None
        }
    }

    /// The kind one step above this one; `None` above the last kind.
    /// The value itself is left as it is.
    pub fn next(&mut self) -> (r: Option<RelativeLayer>)
        ensures
            *final(self) == *old(self),
            r == RelativeLayer::at(old(self).index() + 1),
    {
        match *self {
            RelativeLayer::Object => Some(RelativeLayer::Creature),
            RelativeLayer::Creature => Some(RelativeLayer::Effect),
            RelativeLayer::Effect => Some(RelativeLayer::Missile),
            RelativeLayer::Missile => None,
        }
    }

    /// The kind one step below this one; `None` below the first kind.
    /// The value itself is left as it is.
    pub fn next_back(&mut self) -> (r: Option<RelativeLayer>)
        ensures
            *final(self) == *old(self),
            r == RelativeLayer::at(old(self).index() - 1),
    {
        match *self {
            RelativeLayer::Object => None,
            RelativeLayer::Creature => Some(RelativeLayer::Object),
            RelativeLayer::Effect => Some(RelativeLayer::Creature),
            RelativeLayer::Missile => Some(RelativeLayer::Effect),
        }
    }
}


impl Default for RelativeLayer {
    /// Objects are the lowest kind of the bottom stack.
    fn default() -> (r: RelativeLayer)
        ensures
            r == RelativeLayer::Object,
    {
        RelativeLayer::Object
    }
}

/// Highest order that stepping through a bottom stack reaches.
pub const TOP_MOST_LAYER: Order = 10;

/// A place in the bottom stack: the kind of thing and its order among things of that kind.
/// Places are drawn kind by kind, each kind in a window of its own, and by order within
/// the window of their kind. The kind is declared first so that the derived `Ord`
/// compares in that same order.
#[derive(Debug, Clone, Copy, PartialEq, Eq, Structural, Hash, Ord)]
pub struct BottomLayer {
    pub relative_layer: RelativeLayer,
    pub order: Order,
}

impl Default for BottomLayer {
    /// The highest order among objects.
    fn default() -> (r: BottomLayer)
        ensures
            r == (BottomLayer { order: Order::MAX, relative_layer: RelativeLayer::Object }),
    {
        BottomLayer { order: Order::MAX, relative_layer: RelativeLayer::Object }
    }
}

impl BottomLayer {
    pub fn new(order: Order, relative_layer: RelativeLayer) -> (r: BottomLayer)
        ensures
            r == (BottomLayer { order, relative_layer }),
    {
        BottomLayer { order, relative_layer }
    }

    /// The highest place of a kind of thing: new things of that kind stack on top.
    pub fn stack(relative_layer: RelativeLayer) -> (r: BottomLayer)
        ensures
            r == (BottomLayer { order: Order::MAX, relative_layer }),
    {
        BottomLayer { order: Order::MAX, relative_layer }
    }

    /// How deep a place lies in the bottom stack, as a whole number. Each kind has a
    /// window of the stack's depth, one after the other from objects to missiles, and a
    /// place lies within the window of its kind at its order out of 256: at depth
    /// `(index + order / 256) * v`, where `index` is the position of its kind and `v` the
    /// width of a window. This is that depth in units of `v / 256`.
    pub open spec fn depth(self) -> int {
        self.relative_layer.index() * 256 + self.order
    }

    /// The same kind one order higher, while the order stays within `TOP_MOST_LAYER`.
    pub open spec fn step_up(self) -> Option<BottomLayer> {
        if self.order < TOP_MOST_LAYER {
            Some(BottomLayer { order: (self.order + 1) as u8, relative_layer: self.relative_layer })
        } else {
            None
        }
    }

    /// The same kind one order lower, while the order stays above 0.
    pub open spec fn step_down(self) -> Option<BottomLayer> {
        if self.order > 0 {
            Some(BottomLayer { order: (self.order - 1) as u8, relative_layer: self.relative_layer })
        } else {
            None
        }
    }

    /// The next place up the stack of this kind. The value itself is left as it is.
    pub fn next(&mut self) -> (r: Option<BottomLayer>)
        ensures
            *final(self) == *old(self),
            r == old(self).step_up(),
    {
        if self.order < TOP_MOST_LAYER {
            Some(BottomLayer { order: self.order + 1, relative_layer: self.relative_layer })
        } else {
            None
        }
    }

    /// The next place down the stack of this kind. The value itself is left as it is.
    pub fn next_back(&mut self) -> (r: Option<BottomLayer>)
        ensures
            *final(self) == *old(self),
            r == old(self).step_down(),
    {
        if self.order > 0 {
            Some(BottomLayer { order: self.order - 1, relative_layer: self.relative_layer })
        } else {
            None
        }
    }
}

/// The stacking layers of a tile, from the lowest up.
#[derive(Debug, Clone, Copy, PartialEq, Eq, Structural, Hash, Ord)]
pub enum Layer {
    Ground,
    Edge,
    Bottom(BottomLayer),
    Top,
    Hud(Order),
}

impl Layer {
    /// Position of the variant in the declaration, from `Ground` (0) to `Hud` (4).
    pub open spec fn variant_index(self) -> int {
        match self {
            Layer::Ground => 0,
            Layer::Edge => 1,
            Layer::Bottom(_) => 2,
            Layer::Top => 3,
            Layer::Hud(_) => 4,
        }
    }

    pub(crate) fn variant_position(&self) -> (i: u8)
        ensures
            i == self.variant_index(),
    {
        match *self {
            Layer::Ground => 0,
            Layer::Edge => 1,
            Layer::Bottom(_) => 2,
            Layer::Top => 3,
            Layer::Hud(_) => 4,
        }
    }
}

impl Default for Layer {
    fn default() -> (r: Layer)
        ensures
            r == Layer::Ground,
    {
        Layer::Ground
    }
}

impl Layer {
    /// Position of a layer in the stepping sequence
    /// Ground, Edge, the four kinds of the bottom stack, Top, Hud(0) .. Hud(255).
    /// All places of one kind of the bottom stack share a position.
    pub open spec fn rank(self) -> int {
        match self {
            Layer::Ground => 0,
            Layer::Edge => 1,
            Layer::Bottom(b) => 2 + b.relative_layer.index(),
            Layer::Top => 6,
            Layer::Hud(order) => 7 + order,
        }
    }

    /// The layer that stepping up reaches at position `r` of the sequence: the
    /// bottom stack is entered at the default place (the highest object), and each
    /// further kind at order 0.
    pub open spec fn entered_from_below(r: int) -> Option<Layer> {
        if r == 0 {
            Some(Layer::Ground)
        } else if r == 1 {
            Some(Layer::Edge)
        } else if r == 2 {
            Some(Layer::Bottom(BottomLayer { order: Order::MAX, relative_layer: RelativeLayer::Object }))
        } else if 3 <= r <= 5 {
            Some(Layer::Bottom(BottomLayer { order: 0, relative_layer: RelativeLayer::at(r - 2).unwrap() }))
        } else if r == 6 {
            Some(Layer::Top)
        } else if 7 <= r <= 7 + Order::MAX {
            Some(Layer::Hud((r - 7) as u8))
        } else {
            None
        }
    }

    /// The layer that stepping down reaches at position `r` of the sequence: each
    /// kind of the bottom stack is entered at order `TOP_MOST_LAYER`.
    pub open spec fn entered_from_above(r: int) -> Option<Layer> {
        if r == 0 {
            Some(Layer::Ground)
        } else if r == 1 {
            Some(Layer::Edge)
        } else if 2 <= r <= 5 {
            Some(Layer::Bottom(BottomLayer { order: TOP_MOST_LAYER, relative_layer: RelativeLayer::at(r - 2).unwrap() }))
        } else if r == 6 {
            Some(Layer::Top)
        } else if 7 <= r <= 7 + Order::MAX {
            Some(Layer::Hud((r - 7) as u8))
        } else {
            None
        }
    }

    /// The layer one step up the sequence; `None` after `Hud(255)`.
    /// The value itself is left as it is.
    pub fn next(&mut self) -> (r: Option<Layer>)
        ensures
            *final(self) == *old(self),
            r == Layer::entered_from_below(old(self).rank() + 1),
    {
        match *self {
            Layer::Ground => Some(Layer::Edge),
            Layer::Edge => Some(Layer::Bottom(BottomLayer::default())),
            Layer::Bottom(bottom_layer) => {
                let mut relative_layer = bottom_layer.relative_layer;
                match relative_layer.next() {
                    Some(relative_layer) => Some(Layer::Bottom(BottomLayer { order: 0, relative_layer })),
                    None => Some(Layer::Top),
                }
            },
            Layer::Top => Some(Layer::Hud(0)),
            Layer::Hud(order) => {
                if order < Order::MAX {
                    Some(Layer::Hud(order + 1))
                } else {
                    None
                }
            },
        }
    }

    /// The layer one step down the sequence; `None` below `Ground`.
    /// The value itself is left as it is.
    pub fn next_back(&mut self) -> (r: Option<Layer>)
        ensures
            *final(self) == *old(self),
            r == Layer::entered_from_above(old(self).rank() - 1),
    {
        match *self {
            Layer::Ground => None,
            Layer::Edge => Some(Layer::Ground),
            Layer::Bottom(bottom_layer) => {
                let mut relative_layer = bottom_layer.relative_layer;
                match relative_layer.next_back() {
                    Some(relative_layer) => Some(Layer::Bottom(BottomLayer { order: TOP_MOST_LAYER, relative_layer })),
                    None => Some(Layer::Edge),
                }
            },
            Layer::Top => Some(Layer::Bottom(BottomLayer { order: TOP_MOST_LAYER, relative_layer: RelativeLayer::last() })),
            Layer::Hud(order) => {
                if order == 0 {
                    Some(Layer::Top)
                } else {
                    Some(Layer::Hud(order - 1))
                }
            },
        }
    }
}

impl RelativeLayer {
    /// The highest kind of the bottom stack.
    fn last() -> (r: RelativeLayer)
        ensures
            r == RelativeLayer::at(3).unwrap(),
    {
        RelativeLayer::Missile
    }
}


// Laws of stepping through the layers.

/// Stepping a kind of the bottom stack up and stepping back down are inverse:
/// `r.next() == Some(s)` exactly when `s.next_back() == Some(r)`.
pub proof fn lemma_relative_steps_are_inverse(r: RelativeLayer, s: RelativeLayer)
    ensures
        RelativeLayer::at(r.index() + 1) == Some(s) <==> RelativeLayer::at(s.index() - 1) == Some(r),
{
}

/// Stepping a place of the bottom stack up and back down returns to it.
pub proof fn lemma_bottom_step_up_then_down(b: BottomLayer)
    ensures
        b.step_up() matches Some(c) ==> c.step_down() == Some(b),
{
}

/// Stepping a place of the bottom stack down and back up returns to it, for every
/// place whose order is at most `TOP_MOST_LAYER` (above it, stepping up stops).
pub proof fn lemma_bottom_step_down_then_up(b: BottomLayer)
    requires
        b.order <= TOP_MOST_LAYER,
    ensures
        b.step_down() matches Some(c) ==> c.step_up() == Some(b),
{
}

/// Each step up the layers moves exactly one position up the sequence, and the
/// only layer without a step up is `Hud(255)`; so stepping up from any layer ends
/// after at most 263 steps.
pub proof fn lemma_layer_step_up_advances(l: Layer)
    ensures
        match Layer::entered_from_below(l.rank() + 1) {
            Some(m) => m.rank() == l.rank() + 1,
            None => l == Layer::Hud(Order::MAX),
        },
{
}

/// Each step down the layers moves exactly one position down the sequence, and the
/// only layer without a step down is `Ground`.
pub proof fn lemma_layer_step_down_retreats(l: Layer)
    ensures
        match Layer::entered_from_above(l.rank() - 1) {
            Some(m) => m.rank() == l.rank() - 1,
            None => l == Layer::Ground,
        },
{
}

/// A step up followed by a step down returns to the starting layer, for every layer
/// but the places of the bottom stack whose order is not `TOP_MOST_LAYER` (a step
/// down enters a kind of the bottom stack at that order).
pub proof fn lemma_layer_step_up_then_down(l: Layer)
    requires
        l matches Layer::Bottom(b) ==> b.order == TOP_MOST_LAYER,
    ensures
        Layer::entered_from_below(l.rank() + 1) matches Some(m)
            ==> Layer::entered_from_above(m.rank() - 1) == Some(l),
{
}

/// A step down followed by a step up returns to the starting layer, for every layer
/// but the places of the bottom stack other than those where a step up enters:
/// order 255 for objects and order 0 for the other kinds.
pub proof fn lemma_layer_step_down_then_up(l: Layer)
    requires
        l matches Layer::Bottom(b) ==> (if b.relative_layer == RelativeLayer::Object {
            b.order == Order::MAX
        } else {
            b.order == 0
        }),
    ensures
        Layer::entered_from_above(l.rank() - 1) matches Some(m)
            ==> Layer::entered_from_below(m.rank() + 1) == Some(l),
{
}


/// The layer reached after `k` steps up from `Ground`; `None` once stepping has stopped.
pub open spec fn step_up_chain(k: nat) -> Option<Layer>
    decreases k,
{
    if k == 0 {
        Some(Layer::Ground)
    } else {
        match step_up_chain((k - 1) as nat) {
            Some(l) => Layer::entered_from_below(l.rank() + 1),
            None => None,
        }
    }
}

/// Stepping up from `Ground` passes through the whole sequence in turn: after `k` steps
/// it is at position `k` (Edge, the highest object, creatures, effects and missiles at
/// order 0, Top, Hud(0), ..), after 262 steps at `Hud(255)`, and no 263rd step follows.
pub proof fn lemma_step_up_chain(k: nat)
    ensures
        step_up_chain(k) == Layer::entered_from_below(k as int),
        k <= 262 ==> (step_up_chain(k) matches Some(l) && l.rank() == k),
        k == 262 ==> step_up_chain(k) == Some(Layer::Hud(Order::MAX)),
        k >= 263 ==> step_up_chain(k) is None,
    decreases k,
{
    if k > 0 {
        lemma_step_up_chain((k - 1) as nat);
    }
}


/// Stepping a kind up or down moves exactly one position in the stack: a step up
/// exists for every kind but missiles and reaches the kind just above, a step down
/// exists for every kind but objects and reaches the kind just below.
pub proof fn lemma_relative_steps_move_one_position(r: RelativeLayer)
    ensures
        (RelativeLayer::at(r.index() + 1) is Some) <==> r != RelativeLayer::Missile,
        RelativeLayer::at(r.index() + 1) matches Some(s) ==> s.index() == r.index() + 1,
        (RelativeLayer::at(r.index() - 1) is Some) <==> r != RelativeLayer::Object,
        RelativeLayer::at(r.index() - 1) matches Some(s) ==> s.index() == r.index() - 1,
{
}

/// Stepping a place of the bottom stack keeps its kind and moves its order by exactly
/// one: up for every order below `TOP_MOST_LAYER`, down for every order above 0 (all
/// the way from 255), and not at all otherwise.
pub proof fn lemma_bottom_steps_move_one_order(b: BottomLayer)
    ensures
        (b.step_up() is Some) <==> b.order < TOP_MOST_LAYER,
        b.step_up() matches Some(c) ==> c.relative_layer == b.relative_layer && c.order == b.order + 1,
        (b.step_down() is Some) <==> b.order > 0,
        b.step_down() matches Some(c) ==> c.relative_layer == b.relative_layer && c.order + 1 == b.order,
{
}

/// Where single steps of the layers lead, for every layer: the HUD counts up and down
/// by one; from the edge the bottom stack is entered at the highest object; a place of
/// the bottom stack steps up to order 0 of the next kind (or to Top after missiles) and
/// down to order `TOP_MOST_LAYER` of the kind before (or to Edge before objects),
/// whatever its own order; Top steps down to missiles at `TOP_MOST_LAYER`.
pub proof fn lemma_layer_steps_by_kind(l: Layer)
    ensures
        l matches Layer::Hud(o) ==> (Layer::entered_from_below(l.rank() + 1) == if o < Order::MAX {
            Some(Layer::Hud((o + 1) as u8))
        } else {
            None::<Layer>
        }),
        l matches Layer::Hud(o) ==> (Layer::entered_from_above(l.rank() - 1) == if o > 0 {
            Some(Layer::Hud((o - 1) as u8))
        } else {
            Some(Layer::Top)
        }),
        l == Layer::Edge ==> Layer::entered_from_below(l.rank() + 1) == Some(
            Layer::Bottom(BottomLayer { relative_layer: RelativeLayer::Object, order: Order::MAX }),
        ),
        l == Layer::Top ==> Layer::entered_from_above(l.rank() - 1) == Some(
            Layer::Bottom(BottomLayer { relative_layer: RelativeLayer::Missile, order: TOP_MOST_LAYER }),
        ),
        l matches Layer::Bottom(b) ==> (Layer::entered_from_below(l.rank() + 1) == match b.relative_layer {
            RelativeLayer::Object => Some(Layer::Bottom(BottomLayer { relative_layer: RelativeLayer::Creature, order: 0 })),
            RelativeLayer::Creature => Some(Layer::Bottom(BottomLayer { relative_layer: RelativeLayer::Effect, order: 0 })),
            RelativeLayer::Effect => Some(Layer::Bottom(BottomLayer { relative_layer: RelativeLayer::Missile, order: 0 })),
            RelativeLayer::Missile => Some(Layer::Top),
        }),
        l matches Layer::Bottom(b) ==> (Layer::entered_from_above(l.rank() - 1) == match b.relative_layer {
            RelativeLayer::Object => Some(Layer::Edge),
            RelativeLayer::Creature => Some(Layer::Bottom(BottomLayer { relative_layer: RelativeLayer::Object, order: TOP_MOST_LAYER })),
            RelativeLayer::Effect => Some(Layer::Bottom(BottomLayer { relative_layer: RelativeLayer::Creature, order: TOP_MOST_LAYER })),
            RelativeLayer::Missile => Some(Layer::Bottom(BottomLayer { relative_layer: RelativeLayer::Effect, order: TOP_MOST_LAYER })),
        }),
        l == Layer::Ground ==> Layer::entered_from_below(l.rank() + 1) == Some(Layer::Edge)
            && Layer::entered_from_above(l.rank() - 1) is None,
        l == Layer::Edge ==> Layer::entered_from_above(l.rank() - 1) == Some(Layer::Ground),
        l == Layer::Top ==> Layer::entered_from_below(l.rank() + 1) == Some(Layer::Hud(0)),
{
}

} // verus!
