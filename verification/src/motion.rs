//! How a moving sprite is posed: which way it faces and whether it bobs.
//!
//! Both decisions read a real-valued quantity only through its comparison with
//! zero, so they take that comparison as the host program obtained it:
//! `Some(Greater)`, `Some(Less)`, `Some(Equal)`, or `None` where the quantity
//! does not compare at all.

use std::cmp::Ordering;
use vstd::prelude::*;

verus! {

/// The side a sprite looks towards.
#[derive(Clone, Copy, Debug, PartialEq, Eq, Structural)]
pub enum Facing {
    Left,
    Right,
}

/// The walk cycle of a sprite in one frame.
#[derive(Clone, Copy, Debug, PartialEq, Eq, Structural)]
pub enum Bob {
    /// The sprite stands: its rotation is `REST_ROTATION` and its vertical
    /// scale `REST_SCALE_Y`, whatever they were the frame before.
    Rest,
    /// The sprite walks: rotation and vertical scale swing with the phase of
    /// its stride, which the host program computes.
    Swing,
}

/// Rotation about the depth axis of a sprite at rest.
pub const REST_ROTATION: i8 = 0;

/// Vertical scale of a sprite at rest.
pub const REST_SCALE_Y: i8 = 1;

/// The facing that a horizontal velocity asks for, given how that velocity
/// compares with zero: right when above, left when below, and none (the sprite
/// keeps the facing it has) when it is zero or does not compare.
pub open spec fn facing_of(horizontal: Option<Ordering>) -> Option<Facing> {
    match horizontal {
        Some(Ordering::Greater) => Some(Facing::Right),
        Some(Ordering::Less) => Some(Facing::Left),
        _ => None,
    }
}

/// The walk cycle that a speed asks for, given how that speed compares with
/// zero: a swing when above, rest otherwise.
pub open spec fn bob_of(speed: Option<Ordering>) -> Bob {
    if speed == Some(Ordering::Greater) {
        Bob::Swing
    } else {
        Bob::Rest
    }
}

impl Facing {
    /// Horizontal scale of a sprite with this facing: +1 towards the right, -1
    /// (mirrored) towards the left.
    pub open spec fn scale_x_spec(self) -> int {
        match self {
            Facing::Right => 1,
            Facing::Left => -1,
        }
    }

    /// Returns the horizontal scale of a sprite with this facing.
    pub fn scale_x(self) -> (s: i8)
        ensures
            s == self.scale_x_spec(),
    {
        match self {
            Facing::Right => 1,
            Facing::Left => -1,
        }
    }

    /// The facing of a sprite after a frame in which its horizontal velocity
    /// compared with zero as `horizontal`.
    pub open spec fn after(self, horizontal: Option<Ordering>) -> Facing {
        match facing_of(horizontal) {
            Some(turned) => turned,
            None => self,
        }
    }
}

/// Decides whether a sprite turns, from the comparison of its horizontal
/// velocity with zero. `None` leaves the sprite's scale as it is.
pub fn facing_for(horizontal: Option<Ordering>) -> (turn: Option<Facing>)
    ensures
        turn == facing_of(horizontal),
{
    match horizontal {
        Some(Ordering::Greater) => Some(Facing::Right),
        Some(Ordering::Less) => Some(Facing::Left),
        _ => None,
    }
}

/// Decides whether a sprite bobs, from the comparison of its speed with zero.
pub fn bob_for(speed: Option<Ordering>) -> (bob: Bob)
    ensures
        bob == bob_of(speed),
{
    match speed {
        Some(Ordering::Greater) => Bob::Swing,
        _ => Bob::Rest,
    }
}

/// A sprite moving right is scaled by +1 along x, one moving left by -1, and one
/// with no horizontal velocity keeps the facing it had.
pub proof fn lemma_facing_follows_horizontal_velocity(before: Facing, horizontal: Option<Ordering>)
    ensures
        horizontal == Some(Ordering::Greater) ==> before.after(horizontal).scale_x_spec() == 1,
        horizontal == Some(Ordering::Less) ==> before.after(horizontal).scale_x_spec() == -1,
        horizontal == Some(Ordering::Equal) ==> before.after(horizontal) == before,
        horizontal is None ==> before.after(horizontal) == before,
{
}

/// A sprite whose speed is not above zero rests, with rotation 0 and vertical
/// scale 1, whatever its pose was before.
pub proof fn lemma_still_sprite_rests(speed: Option<Ordering>)
    requires
        speed != Some(Ordering::Greater),
    ensures
        bob_of(speed) == Bob::Rest,
        REST_ROTATION == 0,
        REST_SCALE_Y == 1,
{
}

} // verus!
