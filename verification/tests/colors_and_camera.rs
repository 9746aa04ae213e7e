use ryot::camera::movement_direction;
use ryot::debug_color::LayerColor;
use ryot::layer::{BottomLayer, Layer, RelativeLayer};

#[test]
fn layers_have_debug_colors() {
    assert_eq!(Layer::Ground.debug_color(), LayerColor::OrangeRed);
    assert_eq!(Layer::Edge.debug_color(), LayerColor::Yellow);
    assert_eq!(Layer::Top.debug_color(), LayerColor::Pink);
    assert_eq!(Layer::Hud(9).debug_color(), LayerColor::Turquoise);
    assert_eq!(Layer::Bottom(BottomLayer::new(1, RelativeLayer::Creature)).debug_color(), LayerColor::Green);
    assert_eq!(RelativeLayer::Object.debug_color(), LayerColor::Red);
    assert_eq!(RelativeLayer::Effect.debug_color(), LayerColor::Blue);
    assert_eq!(RelativeLayer::Missile.debug_color(), LayerColor::AliceBlue);
}

#[test]
fn camera_moves_along_the_keys_held() {
    assert_eq!(movement_direction(false, false, false, false), (0, 0));
    assert_eq!(movement_direction(true, false, false, false), (-1, 0));
    assert_eq!(movement_direction(false, true, true, false), (1, 1));
    assert_eq!(movement_direction(false, false, false, true), (0, -1));
    assert_eq!(movement_direction(true, true, true, true), (0, 0));
}
