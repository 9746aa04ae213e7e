//! The direction in which the camera moves for the keys held down.

use vstd::prelude::*;

verus! {

/// One unit in a direction for a key held down, nothing otherwise.
pub open spec fn key_unit(pressed: bool) -> int {
    if pressed {
        1
    } else {
        0
    }
}

/// The direction of camera movement for the keys held down: left (A) and right (D)
/// along x, up (W) and down (S) along y; opposite keys cancel out.
pub fn movement_direction(left: bool, right: bool, up: bool, down: bool) -> (d: (i8, i8))
    ensures
        d.0 == key_unit(right) - key_unit(left),
        d.1 == key_unit(up) - key_unit(down),
{
    let mut x: i8 = 0;
    let mut y: i8 = 0;
    if left {
        x = x - 1;
    }
    if right {
        x = x + 1;
    }
    if up {
        y = y + 1;
    }
    if down {
        y = y - 1;
    }
    (x, y)
}


/// Each held key moves the camera one unit its way along its own axis, and a key held
/// with its opposite cancels out: left alone moves -1 along x, right alone +1, up alone
/// +1 along y, down alone -1, and the other axis does not move.
pub proof fn lemma_keys_move_one_unit(left: bool, right: bool, up: bool, down: bool)
    ensures
        key_unit(right) - key_unit(left) == (if left && !right {
            -1int
        } else if right && !left {
            1int
        } else {
            0int
        }),
        key_unit(up) - key_unit(down) == (if down && !up {
            -1int
        } else if up && !down {
            1int
        } else {
            0int
        }),
{
}

} // verus!
