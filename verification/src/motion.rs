//! Moving an agent by its velocity and keeping it in the area.

use vstd::prelude::*;
use crate::fixed::{Vec2, Vec2View};
use crate::params::{Bounds, BoundsView};

verus! {

/// A coordinate brought back into `[-half, half]`.
pub open spec fn clamp_axis(place: int, half: int) -> int {
    if place > half {
        half
    } else if place <= -half {
        -half
    } else {
        place
    }
}

/// The position after one tick at the given velocity: the sum, with each
/// coordinate brought back into the area.
pub open spec fn moved(position: Vec2View, velocity: Vec2View, b: BoundsView) -> Vec2View {
    Vec2View {
        x: clamp_axis(position.x + velocity.x, b.half_width),
        y: clamp_axis(position.y + velocity.y, b.half_height),
    }
}

/// A position that was moved lies in the area.
pub proof fn lemma_moved_in_bounds(position: Vec2View, velocity: Vec2View, b: BoundsView)
    requires
        b.valid(),
    ensures
        b.contains(moved(position, velocity, b).x, moved(position, velocity, b).y),
{
}

/// One coordinate moved and brought back into `[-half, half]`.
fn move_axis(place: i64, speed: i64, half: i64) -> (r: i64)
    requires
        0 <= half,
    ensures
        r == clamp_axis(place + speed, half as int),
{
    let sum: i128 = place as i128 + speed as i128;
    if sum > half as i128 {
        half
    } else if sum <= -(half as i128) {
        -half
    } else {
        sum as i64
    }
}

/// Advances the position by the velocity and brings each coordinate back
/// into the area.
pub fn compute_new_position(position: Vec2, velocity: Vec2, bounds: &Bounds) -> (r: Vec2)
    ensures
        r@ == moved(position@, velocity@, bounds@),
        bounds@.contains(r@.x, r@.y),
{
    proof {
        use_type_invariant(bounds);
    }
    Vec2 {
        x: move_axis(position.x, velocity.x, bounds.half_width()),
        y: move_axis(position.y, velocity.y, bounds.half_height()),
    }
}

} // verus!
