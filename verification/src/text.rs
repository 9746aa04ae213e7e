//! How layers and numbers are written out as text.

use vstd::prelude::*;
use vstd::string::*;

use crate::layer::{BottomLayer, Layer, RelativeLayer};

verus! {

/// The character of the decimal digit `d`.
pub open spec fn digit_char(d: int) -> char {
    (48 + d) as char
}

/// The decimal digits of `n`, most significant first, without leading zeros
/// (`0` is written as one digit).
pub open spec fn decimal(n: nat) -> Seq<char>
    decreases n,
{
    if n < 10 {
        seq![digit_char(n as int)]
    } else {
        decimal(n / 10).push(digit_char((n % 10) as int))
    }
}

/// The number that a string of decimal digits stands for.
pub open spec fn digits_value(s: Seq<char>) -> int
    decreases s.len(),
{
    if s.len() == 0 {
        0
    } else {
        digits_value(s.drop_last()) * 10 + (s.last() as int - 48)
    }
}

/// The decimal text of a number reads back as that number, has at least one digit,
/// and starts with `0` only for 0 itself.
pub proof fn lemma_decimal_reads_back(n: nat)
    ensures
        digits_value(decimal(n)) == n,
        decimal(n).len() >= 1,
        decimal(n)[0] == '0' ==> n == 0,
    decreases n,
{
    if n >= 10 {
        lemma_decimal_reads_back(n / 10);
        assert(decimal(n).drop_last() == decimal(n / 10));
    } else {
        assert(digits_value(decimal(n).drop_last()) == 0);
    }
}

/// Appends the decimal digit `d` to `s`.
fn push_digit(s: &mut String, d: u32)
    requires
        d < 10,
    ensures
        final(s)@ == old(s)@.push(digit_char(d as int)),
{
    proof {
        reveal_strlit("0");
        reveal_strlit("1");
        reveal_strlit("2");
        reveal_strlit("3");
        reveal_strlit("4");
        reveal_strlit("5");
        reveal_strlit("6");
        reveal_strlit("7");
        reveal_strlit("8");
        reveal_strlit("9");
    }
    match d {
        0 => s.append("0"),
        1 => s.append("1"),
        2 => s.append("2"),
        3 => s.append("3"),
        4 => s.append("4"),
        5 => s.append("5"),
        6 => s.append("6"),
        7 => s.append("7"),
        8 => s.append("8"),
        _ => s.append("9"),
    }
}

fn push_decimal(s: &mut String, n: u32)
    ensures
        final(s)@ == old(s)@ + decimal(n as nat),
    decreases n,
{
    if n >= 10 {
        push_decimal(s, n / 10);
    }
    push_digit(s, n % 10);
}

/// `n` written in decimal, as `n.to_string()` writes it.
pub fn decimal_string(n: u32) -> (s: String)
    ensures
        s@ == decimal(n as nat),
{
    let mut s = String::new();
    push_decimal(&mut s, n);
    s
}

/// The name of a kind of the bottom stack.
pub open spec fn relative_layer_text(r: RelativeLayer) -> Seq<char> {
    match r {
        RelativeLayer::Object => "Object"@,
        RelativeLayer::Creature => "Creature"@,
        RelativeLayer::Effect => "Effect"@,
        RelativeLayer::Missile => "Missile"@,
    }
}

/// A place of the bottom stack written as `Kind(order)`, such as `Effect(3)`.
pub open spec fn bottom_layer_text(b: BottomLayer) -> Seq<char> {
    relative_layer_text(b.relative_layer) + "("@ + decimal(b.order as nat) + ")"@
}

/// A layer written out: `Ground`, `Edge`, `Bottom(Kind(order))`, `Top` or `Hud(order)`.
pub open spec fn layer_text(l: Layer) -> Seq<char> {
    match l {
        Layer::Ground => "Ground"@,
        Layer::Edge => "Edge"@,
        Layer::Bottom(b) => "Bottom("@ + bottom_layer_text(b) + ")"@,
        Layer::Top => "Top"@,
        Layer::Hud(order) => "Hud("@ + decimal(order as nat) + ")"@,
    }
}

fn push_relative_layer(s: &mut String, r: RelativeLayer)
    ensures
        final(s)@ == old(s)@ + relative_layer_text(r),
{
    match r {
        RelativeLayer::Object => s.append("Object"),
        RelativeLayer::Creature => s.append("Creature"),
        RelativeLayer::Effect => s.append("Effect"),
        RelativeLayer::Missile => s.append("Missile"),
    }
}

fn push_bottom_layer(s: &mut String, b: BottomLayer)
    ensures
        final(s)@ == old(s)@ + bottom_layer_text(b),
{
    push_relative_layer(s, b.relative_layer);
    s.append("(");
    push_decimal(s, b.order as u32);
    s.append(")");
}

impl BottomLayer {
    /// The place written as `Kind(order)`.
    pub fn to_string(&self) -> (s: String)
        ensures
            s@ == bottom_layer_text(*self),
    {
        let mut s = String::new();
        push_bottom_layer(&mut s, *self);
        s
    }
}

impl Layer {
    /// The layer written out, as `layer_text` says.
    pub fn to_string(&self) -> (s: String)
        ensures
            s@ == layer_text(*self),
    {
        let mut s = String::new();
        match *self {
            Layer::Ground => s.append("Ground"),
            Layer::Edge => s.append("Edge"),
            Layer::Bottom(b) => {
                s.append("Bottom(");
                push_bottom_layer(&mut s, b);
                s.append(")");
            },
            Layer::Top => s.append("Top"),
            Layer::Hud(order) => {
                s.append("Hud(");
                push_decimal(&mut s, order as u32);
                s.append(")");
            },
        }
        s
    }
}


/// How every layer is written: its variant's name, with the HUD order or the bottom
/// place in parentheses; a bottom place is its kind's name followed by its order in
/// parentheses, the order in decimal.
pub proof fn lemma_layer_texts(l: Layer)
    ensures
        l == Layer::Ground ==> layer_text(l) == "Ground"@,
        l == Layer::Edge ==> layer_text(l) == "Edge"@,
        l == Layer::Top ==> layer_text(l) == "Top"@,
        l matches Layer::Hud(o) ==> layer_text(l) == "Hud("@ + decimal(o as nat) + ")"@,
        l matches Layer::Bottom(b) ==> layer_text(l) == "Bottom("@ + (match b.relative_layer {
            RelativeLayer::Object => "Object"@,
            RelativeLayer::Creature => "Creature"@,
            RelativeLayer::Effect => "Effect"@,
            RelativeLayer::Missile => "Missile"@,
        }) + "("@ + decimal(b.order as nat) + ")"@ + ")"@,
{
}

} // verus!
