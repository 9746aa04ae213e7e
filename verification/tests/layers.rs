use ryot::layer::{BottomLayer, Layer, RelativeLayer, TOP_MOST_LAYER};
use ryot::text::decimal_string;

#[test]
fn relative_layer_steps_up_and_down() {
    let mut r = RelativeLayer::Object;
    assert_eq!(r.next(), Some(RelativeLayer::Creature));
    assert_eq!(r, RelativeLayer::Object);
    assert_eq!(RelativeLayer::Creature.next(), Some(RelativeLayer::Effect));
    assert_eq!(RelativeLayer::Effect.next(), Some(RelativeLayer::Missile));
    assert_eq!(RelativeLayer::Missile.next(), None);
    assert_eq!(RelativeLayer::Object.next_back(), None);
    assert_eq!(RelativeLayer::Missile.next_back(), Some(RelativeLayer::Effect));
}

#[test]
fn relative_steps_are_inverse() {
    let all = [RelativeLayer::Object, RelativeLayer::Creature, RelativeLayer::Effect, RelativeLayer::Missile];
    for r in all {
        for s in all {
            assert_eq!(r.clone().next() == Some(s), s.clone().next_back() == Some(r));
        }
    }
}

#[test]
fn bottom_layer_defaults_and_constructors() {
    assert_eq!(BottomLayer::default(), BottomLayer { order: 255, relative_layer: RelativeLayer::Object });
    assert_eq!(BottomLayer::new(3, RelativeLayer::Effect), BottomLayer { order: 3, relative_layer: RelativeLayer::Effect });
    assert_eq!(BottomLayer::stack(RelativeLayer::Creature), BottomLayer { order: 255, relative_layer: RelativeLayer::Creature });
    assert_eq!(Layer::default(), Layer::Ground);
    assert_eq!(RelativeLayer::default(), RelativeLayer::Object);
}

#[test]
fn bottom_layer_steps_stop_at_the_top_most_order() {
    let mut b = BottomLayer::new(9, RelativeLayer::Effect);
    assert_eq!(b.next(), Some(BottomLayer::new(10, RelativeLayer::Effect)));
    assert_eq!(b, BottomLayer::new(9, RelativeLayer::Effect));
    assert_eq!(BottomLayer::new(TOP_MOST_LAYER, RelativeLayer::Effect).next(), None);
    assert_eq!(BottomLayer::default().next(), None);
    assert_eq!(BottomLayer::new(0, RelativeLayer::Missile).next_back(), None);
    assert_eq!(BottomLayer::new(255, RelativeLayer::Missile).next_back(), Some(BottomLayer::new(254, RelativeLayer::Missile)));
}

#[test]
fn bottom_step_up_then_down_returns() {
    for order in 0..=255u8 {
        let mut b = BottomLayer::new(order, RelativeLayer::Creature);
        if let Some(mut c) = b.next() {
            assert_eq!(c.next_back(), Some(b));
        }
    }
}

#[test]
fn bottom_step_down_then_up_returns_within_top_most_order() {
    for order in 0..=TOP_MOST_LAYER {
        let mut b = BottomLayer::new(order, RelativeLayer::Object);
        if let Some(mut c) = b.next_back() {
            assert_eq!(c.next(), Some(b));
        }
    }
    // Above the top-most order the round trip fails.
    let mut b = BottomLayer::new(255, RelativeLayer::Object);
    let mut c = b.next_back().unwrap();
    assert_eq!(c.next(), None);
}

fn step_up_sequence() -> Vec<Layer> {
    let mut seq = vec![Layer::Ground];
    let mut cur = Layer::Ground;
    while let Some(next) = cur.next() {
        seq.push(next);
        cur = next;
    }
    seq
}

#[test]
fn layer_steps_up_through_the_whole_sequence() {
    let seq = step_up_sequence();
    assert_eq!(seq.len(), 263);
    assert_eq!(seq[0], Layer::Ground);
    assert_eq!(seq[1], Layer::Edge);
    assert_eq!(seq[2], Layer::Bottom(BottomLayer::default()));
    assert_eq!(seq[3], Layer::Bottom(BottomLayer::new(0, RelativeLayer::Creature)));
    assert_eq!(seq[4], Layer::Bottom(BottomLayer::new(0, RelativeLayer::Effect)));
    assert_eq!(seq[5], Layer::Bottom(BottomLayer::new(0, RelativeLayer::Missile)));
    assert_eq!(seq[6], Layer::Top);
    assert_eq!(seq[7], Layer::Hud(0));
    assert_eq!(seq[262], Layer::Hud(255));
    assert_eq!(Layer::Hud(255).next(), None);
}

#[test]
fn layer_steps_down() {
    assert_eq!(Layer::Ground.next_back(), None);
    assert_eq!(Layer::Edge.next_back(), Some(Layer::Ground));
    assert_eq!(Layer::Bottom(BottomLayer::new(4, RelativeLayer::Object)).next_back(), Some(Layer::Edge));
    assert_eq!(
        Layer::Bottom(BottomLayer::new(0, RelativeLayer::Effect)).next_back(),
        Some(Layer::Bottom(BottomLayer::new(10, RelativeLayer::Creature)))
    );
    assert_eq!(Layer::Top.next_back(), Some(Layer::Bottom(BottomLayer::new(10, RelativeLayer::Missile))));
    assert_eq!(Layer::Hud(0).next_back(), Some(Layer::Top));
    assert_eq!(Layer::Hud(200).next_back(), Some(Layer::Hud(199)));
}

#[test]
fn layer_step_up_then_down_returns() {
    let mut layers = vec![Layer::Ground, Layer::Edge, Layer::Top];
    for order in 0..=255u8 {
        layers.push(Layer::Hud(order));
    }
    for r in [RelativeLayer::Object, RelativeLayer::Creature, RelativeLayer::Effect, RelativeLayer::Missile] {
        layers.push(Layer::Bottom(BottomLayer::new(TOP_MOST_LAYER, r)));
    }
    for mut l in layers {
        if let Some(mut m) = l.next() {
            assert_eq!(m.next_back(), Some(l));
        }
    }
    // A place of the bottom stack at another order does not come back.
    let mut l = Layer::Bottom(BottomLayer::new(0, RelativeLayer::Object));
    let mut m = l.next().unwrap();
    assert_ne!(m.next_back(), Some(l));
}

#[test]
fn layer_step_down_then_up_returns() {
    let mut layers = vec![Layer::Ground, Layer::Edge, Layer::Top, Layer::Bottom(BottomLayer::default())];
    for order in 0..=255u8 {
        layers.push(Layer::Hud(order));
    }
    for r in [RelativeLayer::Creature, RelativeLayer::Effect, RelativeLayer::Missile] {
        layers.push(Layer::Bottom(BottomLayer::new(0, r)));
    }
    for mut l in layers {
        if let Some(mut m) = l.next_back() {
            assert_eq!(m.next(), Some(l));
        }
    }
}

#[test]
fn layers_are_ordered_by_variant_then_content() {
    assert!(Layer::Ground < Layer::Edge);
    assert!(Layer::Edge < Layer::Bottom(BottomLayer::new(0, RelativeLayer::Object)));
    assert!(Layer::Bottom(BottomLayer::default()) < Layer::Top);
    assert!(Layer::Top < Layer::Hud(0));
    assert!(Layer::Hud(3) < Layer::Hud(4));
    assert!(Layer::Hud(4) <= Layer::Hud(4));
    assert!(!(Layer::Hud(5) < Layer::Hud(4)));
    assert_eq!(Layer::Top.partial_cmp(&Layer::Top), Some(std::cmp::Ordering::Equal));
}

#[test]
fn bottom_layers_are_ordered_by_kind_then_order() {
    let low_missile = BottomLayer::new(0, RelativeLayer::Missile);
    let high_object = BottomLayer::new(255, RelativeLayer::Object);
    assert!(high_object < low_missile);
    assert!(BottomLayer::new(7, RelativeLayer::Object) < BottomLayer::new(7, RelativeLayer::Creature));
    assert!(BottomLayer::new(3, RelativeLayer::Effect) < BottomLayer::new(4, RelativeLayer::Effect));
    assert!(RelativeLayer::Effect > RelativeLayer::Creature);
    assert_eq!(high_object.cmp(&low_missile), std::cmp::Ordering::Less);
    assert_eq!(low_missile.cmp(&low_missile), std::cmp::Ordering::Equal);
}

#[test]
fn each_step_up_is_drawn_higher() {
    let mut cur = Layer::Ground;
    while let Some(next) = cur.next() {
        assert!(cur < next);
        let mut back = next;
        if let Some(prev) = back.next_back() {
            assert!(prev < next);
        }
        cur = next;
    }
}

#[test]
fn bottom_layer_order_is_depth_order() {
    // The depth of a place of the bottom stack: the window of its kind, and its order
    // out of 256 within that window.
    fn depth(b: BottomLayer) -> f64 {
        let layer_width = 773.0 / (2.0 * 65535.0);
        let window = layer_width / 5.0 / 4.0;
        let index = b.relative_layer as u8 as f64;
        index * window + (b.order as f64 / 256.0) * window
    }
    let kinds = [RelativeLayer::Object, RelativeLayer::Creature, RelativeLayer::Effect, RelativeLayer::Missile];
    for a_order in [0u8, 1, 10, 254, 255] {
        for b_order in [0u8, 1, 10, 254, 255] {
            for a_kind in kinds {
                for b_kind in kinds {
                    let a = BottomLayer::new(a_order, a_kind);
                    let b = BottomLayer::new(b_order, b_kind);
                    assert_eq!(a.partial_cmp(&b), depth(a).partial_cmp(&depth(b)));
                }
            }
        }
    }
}

#[test]
fn sorting_layers_follows_their_order() {
    let mut layers = vec![
        Layer::Hud(2),
        Layer::Top,
        Layer::Bottom(BottomLayer::new(3, RelativeLayer::Object)),
        Layer::Ground,
        Layer::Bottom(BottomLayer::new(2, RelativeLayer::Missile)),
        Layer::Edge,
    ];
    layers.sort();
    assert_eq!(
        layers,
        vec![
            Layer::Ground,
            Layer::Edge,
            Layer::Bottom(BottomLayer::new(3, RelativeLayer::Object)),
            Layer::Bottom(BottomLayer::new(2, RelativeLayer::Missile)),
            Layer::Top,
            Layer::Hud(2),
        ]
    );
}

#[test]
fn layers_are_written_out() {
    assert_eq!(Layer::Ground.to_string(), "Ground");
    assert_eq!(Layer::Edge.to_string(), "Edge");
    assert_eq!(Layer::Top.to_string(), "Top");
    assert_eq!(Layer::Hud(0).to_string(), "Hud(0)");
    assert_eq!(Layer::Hud(255).to_string(), "Hud(255)");
    assert_eq!(Layer::Bottom(BottomLayer::new(3, RelativeLayer::Effect)).to_string(), "Bottom(Effect(3))");
    assert_eq!(BottomLayer::default().to_string(), "Object(255)");
    assert_eq!(BottomLayer::new(0, RelativeLayer::Missile).to_string(), format!("{:?}(0)", RelativeLayer::Missile));
}

#[test]
fn numbers_are_written_in_decimal() {
    assert_eq!(decimal_string(0), "0");
    assert_eq!(decimal_string(7), "7");
    assert_eq!(decimal_string(10), "10");
    assert_eq!(decimal_string(4096), "4096");
    assert_eq!(decimal_string(u32::MAX), "4294967295");
    for n in [1u32, 9, 99, 100, 12345, 1000000] {
        assert_eq!(decimal_string(n), n.to_string());
    }
}
