//! Keyboard steering: from the four movement keys to a heading.

use vstd::prelude::*;

verus! {

/// Which of the four movement keys are held down in the current frame.
#[derive(Clone, Copy, Debug, PartialEq, Eq, Structural)]
pub struct MoveKeys {
    pub up: bool,
    pub down: bool,
    pub left: bool,
    pub right: bool,
}

/// The direction the held keys point in, one step of -1, 0 or +1 per axis.
///
/// Along each axis a steered entity moves at its speed where the step is +1,
/// at its negated speed where the step is -1, and not at all where the step is
/// 0. The heading is computed afresh every frame and never depends on the frame
/// before.
#[derive(Clone, Copy, Debug, PartialEq, Eq, Structural)]
pub struct Heading {
    pub x: i8,
    pub y: i8,
}

/// The pull of a pair of opposed keys along their axis: each held key adds one
/// step in its own direction, so that two held keys cancel.
pub open spec fn axis_pull(forward: bool, backward: bool) -> int {
    (if forward { 1int } else { 0int }) - (if backward { 1int } else { 0int })
}

impl MoveKeys {
    /// True when none of the four keys is held.
    pub open spec fn all_released(self) -> bool {
        !self.up && !self.down && !self.left && !self.right
    }

    /// The heading of these keys: right against left along x, up against down
    /// along y.
    pub open spec fn heading_spec(self) -> Heading {
        Heading {
            x: axis_pull(self.right, self.left) as i8,
            y: axis_pull(self.up, self.down) as i8,
        }
    }

    /// The state in which no key is held.
    pub fn released() -> (keys: MoveKeys)
        ensures
            keys.all_released(),
    {
        MoveKeys { up: false, down: false, left: false, right: false }
    }

    /// Computes the heading of the held keys.
    pub fn heading(&self) -> (h: Heading)
        ensures
            h == self.heading_spec(),
            h.x == axis_pull(self.right, self.left),
            h.y == axis_pull(self.up, self.down),
            self.all_released() ==> h.is_zero(),
    {
        let mut x: i8 = 0;
        let mut y: i8 = 0;
        if self.up {
            y = y + 1;
        }
        if self.down {
            y = y - 1;
        }
        if self.left {
            x = x - 1;
        }
        if self.right {
            x = x + 1;
        }
        Heading { x, y }
    }
}

impl Heading {
    /// True when the heading points nowhere.
    pub open spec fn is_zero(self) -> bool {
        self.x == 0 && self.y == 0
    }

    /// True when each step of the heading is -1, 0 or +1.
    pub open spec fn well_formed(self) -> bool {
        -1 <= self.x <= 1 && -1 <= self.y <= 1
    }
}

/// With every movement key released the heading is zero.
pub proof fn lemma_released_keys_stand_still(keys: MoveKeys)
    requires
        keys.all_released(),
    ensures
        keys.heading_spec().is_zero(),
{
}

/// Opposed keys held together cancel along their axis.
pub proof fn lemma_opposed_keys_cancel(keys: MoveKeys)
    ensures
        keys.up == keys.down ==> keys.heading_spec().y == 0,
        keys.left == keys.right ==> keys.heading_spec().x == 0,
{
}

/// A heading made from keys never steps further than one unit along an axis.
pub proof fn lemma_heading_is_well_formed(keys: MoveKeys)
    ensures
        keys.heading_spec().well_formed(),
{
}

} // verus!
