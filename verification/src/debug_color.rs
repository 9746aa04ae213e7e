//! The colors in which layers are shown when debugging.

use vstd::prelude::*;

use crate::layer::{Layer, RelativeLayer};

verus! {

/// The named colors that mark layers.
#[derive(Debug, Clone, Copy, PartialEq, Eq, Structural, Hash)]
pub enum LayerColor {
    OrangeRed,
    Yellow,
    Pink,
    Turquoise,
    Red,
    Green,
    Blue,
    AliceBlue,
}

/// The color of a kind of the bottom stack.
pub open spec fn relative_layer_color(r: RelativeLayer) -> LayerColor {
    match r {
        RelativeLayer::Object => LayerColor::Red,
        RelativeLayer::Creature => LayerColor::Green,
        RelativeLayer::Effect => LayerColor::Blue,
        RelativeLayer::Missile => LayerColor::AliceBlue,
    }
}

/// The color of a layer; a place of the bottom stack has the color of its kind.
pub open spec fn layer_color(l: Layer) -> LayerColor {
    match l {
        Layer::Ground => LayerColor::OrangeRed,
        Layer::Edge => LayerColor::Yellow,
        Layer::Bottom(b) => relative_layer_color(b.relative_layer),
        Layer::Top => LayerColor::Pink,
        Layer::Hud(_) => LayerColor::Turquoise,
    }
}

impl RelativeLayer {
    pub fn debug_color(&self) -> (c: LayerColor)
        ensures
            c == relative_layer_color(*self),
    {
        match *self {
            RelativeLayer::Object => LayerColor::Red,
            RelativeLayer::Creature => LayerColor::Green,
            RelativeLayer::Effect => LayerColor::Blue,
            RelativeLayer::Missile => LayerColor::AliceBlue,
        }
    }
}

impl Layer {
    pub fn debug_color(&self) -> (c: LayerColor)
        ensures
            c == layer_color(*self),
    {
        match *self {
            Layer::Ground => LayerColor::OrangeRed,
            Layer::Edge => LayerColor::Yellow,
            Layer::Bottom(b) => b.relative_layer.debug_color(),
            Layer::Top => LayerColor::Pink,
            Layer::Hud(_) => LayerColor::Turquoise,
        }
    }
}


/// Every layer has its debug color: ground orange-red, edge yellow, top pink, the HUD
/// turquoise, and a place of the bottom stack the color of its kind whatever its order
/// (objects red, creatures green, effects blue, missiles alice blue); the four kinds have
/// four different colors.
pub proof fn lemma_layer_colors(l: Layer, r: RelativeLayer, s: RelativeLayer)
    ensures
        l == Layer::Ground ==> layer_color(l) == LayerColor::OrangeRed,
        l == Layer::Edge ==> layer_color(l) == LayerColor::Yellow,
        l == Layer::Top ==> layer_color(l) == LayerColor::Pink,
        l is Hud ==> layer_color(l) == LayerColor::Turquoise,
        l matches Layer::Bottom(b) ==> layer_color(l) == relative_layer_color(b.relative_layer),
        r == RelativeLayer::Object ==> relative_layer_color(r) == LayerColor::Red,
        r == RelativeLayer::Creature ==> relative_layer_color(r) == LayerColor::Green,
        r == RelativeLayer::Effect ==> relative_layer_color(r) == LayerColor::Blue,
        r == RelativeLayer::Missile ==> relative_layer_color(r) == LayerColor::AliceBlue,
        r != s ==> relative_layer_color(r) != relative_layer_color(s),
{
}

} // verus!
