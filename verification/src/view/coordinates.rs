//! Positions on the world: x wraps around the world's width (the world is a
//! horizontal cylinder), y saturates into the world's height on movement but
//! may transiently leave `[0, WORLD_HEIGHT)` through plain offsets, within a
//! double-height sanity band.
use crate::config::{WORLD_HEIGHT, WORLD_WIDTH};
use vstd::prelude::*;

verus! {

/// A signed delta pair `(dx, dy)` applied to a position.
pub type Movement = (i16, i16);

/// What an x-position becomes after wrapping around the world seam.
/// Defined for deltas no further left than one full world width.
pub open spec fn wrap_x_spec(x: int) -> int {
    if x < 0 {
        x + WORLD_WIDTH as int
    } else {
        x % (WORLD_WIDTH as int)
    }
}

/// What a y-position becomes after saturating into `[0, WORLD_HEIGHT)`.
pub open spec fn saturate_y_spec(y: int) -> int {
    if y < 0 {
        0
    } else if y > WORLD_HEIGHT - 1 {
        WORLD_HEIGHT - 1
    } else {
        y
    }
}

/// A position: x in `[0, WORLD_WIDTH)`, y within one world height of the
/// playfield in either direction (actors may briefly sit above the ceiling
/// when spawned or dip below the floor before they are swept).
#[derive(Clone, Copy, Debug, PartialEq, Eq, Structural)]
pub struct Coordinates(pub u8, pub i8);

impl Coordinates {
    /// The geometry invariant every stored position satisfies.
    pub open spec fn wf(self) -> bool {
        &&& self.0 < WORLD_WIDTH
        &&& -(2 * WORLD_HEIGHT as int) < self.1 < 2 * WORLD_HEIGHT as int
    }

    /// Strict constructor: the caller must already be in bounds. This is the
    /// hard-validation policy for positions that are expected to always stay
    /// in bounds; out-of-bounds arguments are a programming error.
    pub fn new(x: u8, y: i8) -> (r: Self)
        requires
            x < WORLD_WIDTH,
            -(2 * WORLD_HEIGHT as int) < y < 2 * WORLD_HEIGHT as int,
        ensures
            r == Coordinates(x, y),
            r.wf(),
    {
        Self(x, y)
    }

    /// Lenient constructor for positions derived from arithmetic that could
    /// transiently exceed bounds (such as firing right at the world seam):
    /// wraps x and saturates y instead of rejecting them.
    pub fn new_wrapped_and_saturated(x: u8, y: i8) -> (r: Self)
        ensures
            r.0 == wrap_x_spec(x as int),
            r.1 == saturate_y_spec(y as int),
            r.wf(),
    {
        let wrapped_x = wrap_x(x as i16);
        let saturated_y = saturate_y(y as i16);
        Self(wrapped_x, saturated_y)
    }

    /// Moves by a signed delta, wrapping x around the world seam and
    /// saturating y into the playfield.
    pub fn movement(&mut self, m: Movement)
        requires
            old(self).0 + m.0 >= -(WORLD_WIDTH as int),
            old(self).0 + m.0 <= i16::MAX,
            i16::MIN <= old(self).1 + m.1 <= i16::MAX,
        ensures
            final(self).0 == wrap_x_spec(old(self).0 + m.0),
            final(self).1 == saturate_y_spec(old(self).1 + m.1),
            final(self).wf(),
    {
        let (dx, dy) = m;
        let x = self.0 as i16;
        let y = self.1 as i16;
        self.0 = wrap_x(x + dx);
        self.1 = saturate_y(y + dy);
    }

    /// Shifts by another position read as a delta: x wraps, y is a plain
    /// offset that must stay within the double-height band.
    pub fn offset(&mut self, other: Coordinates)
        requires
            old(self).0 + other.0 >= -(WORLD_WIDTH as int),
            i8::MIN <= old(self).1 + other.1 <= i8::MAX,
            -(2 * WORLD_HEIGHT as int) < old(self).1 + other.1 < 2 * WORLD_HEIGHT as int,
        ensures
            final(self).0 == wrap_x_spec(old(self).0 + other.0),
            final(self).1 == old(self).1 + other.1,
            final(self).wf(),
    {
        let Coordinates(x, y) = other;
        self.offset_inner(x as i16, y as i16);
    }

    /// Shifts only the x-position, wrapping around the world seam.
    pub fn offset_x(&mut self, dx: i16)
        requires
            old(self).0 + dx >= -(WORLD_WIDTH as int),
            old(self).0 + dx <= i16::MAX,
            -(2 * WORLD_HEIGHT as int) < old(self).1 < 2 * WORLD_HEIGHT as int,
        ensures
            final(self).0 == wrap_x_spec(old(self).0 + dx),
            final(self).1 == old(self).1,
            final(self).wf(),
    {
        self.offset_inner(dx, 0);
    }

    /// Shifts only the y-position, without saturation: projectiles climb past
    /// the ceiling and actors dip below the floor before they are swept.
    pub fn offset_y(&mut self, dy: i16)
        requires
            -128 <= dy <= 127,
            i8::MIN <= old(self).1 + dy <= i8::MAX,
            -(2 * WORLD_HEIGHT as int) < old(self).1 + dy < 2 * WORLD_HEIGHT as int,
            old(self).0 < WORLD_WIDTH,
        ensures
            final(self).0 == old(self).0,
            final(self).1 == old(self).1 + dy,
            final(self).wf(),
    {
        self.offset_inner(0, dy);
    }

    /// The position as a plain `(x, y)` pair.
    pub fn as_tuple(&self) -> (r: (u8, i8))
        ensures
            r == (self.0, self.1),
    {
        (self.0, self.1)
    }

    fn offset_inner(&mut self, dx: i16, dy: i16)
        requires
            old(self).0 + dx >= -(WORLD_WIDTH as int),
            old(self).0 + dx <= i16::MAX,
            -128 <= dy <= 127,
            i8::MIN <= old(self).1 + dy <= i8::MAX,
            -(2 * WORLD_HEIGHT as int) < old(self).1 + dy < 2 * WORLD_HEIGHT as int,
        ensures
            final(self).0 == wrap_x_spec(old(self).0 + dx),
            final(self).1 == old(self).1 + dy,
            final(self).wf(),
    {
        let x = self.0 as i16;
        self.0 = wrap_x(x + dx);
        self.1 = self.1 + (dy as i8);
    }
}

/// Wraps an x-position around the world seam; callers keep the delta within
/// one world width to the left.
fn wrap_x(x: i16) -> (r: u8)
    requires
        x >= -(WORLD_WIDTH as int),
    ensures
        r == wrap_x_spec(x as int),
        r < WORLD_WIDTH,
{
    let wrapped: i16 = if x < 0 {
        x + (WORLD_WIDTH as i16)
    } else {
        x % (WORLD_WIDTH as i16)
    };
    wrapped as u8
}

/// Clamps a y-position into the playfield `[0, WORLD_HEIGHT)`.
fn saturate_y(y: i16) -> (r: i8)
    ensures
        r == saturate_y_spec(y as int),
        0 <= r < WORLD_HEIGHT,
{
    let max_y: i16 = WORLD_HEIGHT as i16 - 1;
    let saturated: i16 = if y < 0 {
        0
    } else if y > max_y {
        max_y
    } else {
        y
    };
    saturated as i8
}

/// Law: at the left edge, one step left wraps to the far right column.
pub proof fn lemma_wrap_left_edge()
    ensures
        wrap_x_spec(0 - 1) == WORLD_WIDTH - 1,
{
}

/// Law: moving a whole world width to the right returns any in-bounds
/// x-position to itself.
pub proof fn lemma_wrap_full_cycle(x: int)
    requires
        0 <= x < WORLD_WIDTH,
    ensures
        wrap_x_spec(x + WORLD_WIDTH as int) == x,
{
}

/// Law: any delta that outweighs the whole position band downward saturates
/// to the floor, any that outweighs it upward saturates to the ceiling, and
/// no delta at all escapes the bounds.
pub proof fn lemma_saturate_extremes(y: int, dy: int)
    requires
        -(2 * WORLD_HEIGHT as int) < y < 2 * WORLD_HEIGHT as int,
    ensures
        dy <= -(2 * WORLD_HEIGHT as int) ==> saturate_y_spec(y + dy) == 0,
        dy >= 3 * WORLD_HEIGHT as int ==> saturate_y_spec(y + dy) == WORLD_HEIGHT - 1,
        0 <= saturate_y_spec(y + dy) < WORLD_HEIGHT,
{
}

} // verus!
