//! Axis-aligned bounding rectangles over the wrapping world, used both for
//! rendering placement and for collision bounds.
use crate::config::{WORLD_HEIGHT, WORLD_WIDTH};
use crate::view::coordinates::{saturate_y_spec, wrap_x_spec, Coordinates};
use vstd::prelude::*;

verus! {

/// Halves an integer the way executable signed division does: toward zero.
pub open spec fn div2_trunc(n: int) -> int {
    if n >= 0 {
        n / 2
    } else {
        -((-n) / 2)
    }
}

/// An interval laid left of the world seam: an interval that would cross the
/// seam is read one world width to the left, so that plain interval overlap
/// tests account for the wraparound.
pub open spec fn seam_shift(x: int, len: int) -> int {
    if x + len > WORLD_WIDTH as int {
        x - WORLD_WIDTH as int
    } else {
        x
    }
}

/// Two 1-D intervals share at least one unit.
pub open spec fn intervals_overlap(pos1: int, len1: int, pos2: int, len2: int) -> bool {
    pos1 < pos2 + len2 && pos1 + len1 > pos2
}

/// A rectangle: bottom-left corner plus a positive width and height.
#[derive(Clone, Copy, Debug, PartialEq, Eq, Structural)]
pub struct Viewport {
    pub bottom_left: Coordinates,
    pub width: u8,
    pub height: u8,
}

impl Viewport {
    /// The geometry invariant every stored viewport satisfies.
    pub open spec fn wf(self) -> bool {
        &&& self.width > 0
        &&& self.height > 0
        &&& self.bottom_left.wf()
    }

    /// Horizontal overlap, reading seam-crossing intervals one world width to
    /// the left.
    pub open spec fn spec_intersects_horizontally(self, other: Self) -> bool {
        intervals_overlap(
            seam_shift(self.bottom_left.0 as int, self.width as int),
            self.width as int,
            seam_shift(other.bottom_left.0 as int, other.width as int),
            other.width as int,
        )
    }

    /// Vertical overlap of the two height intervals.
    pub open spec fn spec_intersects_vertically(self, other: Self) -> bool {
        intervals_overlap(
            self.bottom_left.1 as int,
            self.height as int,
            other.bottom_left.1 as int,
            other.height as int,
        )
    }

    /// Rectangles intersect iff they overlap on both axes.
    pub open spec fn spec_intersects(self, other: Self) -> bool {
        self.spec_intersects_horizontally(other) && self.spec_intersects_vertically(other)
    }

    /// The center position: half the extent along each axis from the corner,
    /// wrapped and saturated back into the world.
    pub open spec fn spec_centered(self) -> Coordinates {
        Coordinates(
            wrap_x_spec(self.bottom_left.0 + self.width as int / 2) as u8,
            saturate_y_spec(div2_trunc(2 * self.bottom_left.1 + self.height)) as i8,
        )
    }

    /// A rectangle at the origin.
    pub fn new(width: u8, height: u8) -> (r: Self)
        requires
            width > 0,
            height > 0,
        ensures
            r == (Viewport { bottom_left: Coordinates(0, 0), width, height }),
            r.wf(),
    {
        Self::new_with_coordinates(width, height, Coordinates::new(0, 0))
    }

    /// The rectangle of the whole world.
    pub fn new_for_world() -> (r: Self)
        ensures
            r == (Viewport {
                bottom_left: Coordinates(0, 0),
                width: WORLD_WIDTH,
                height: WORLD_HEIGHT,
            }),
            r.wf(),
    {
        Self::new(WORLD_WIDTH, WORLD_HEIGHT)
    }

    /// A rectangle of the given positive extent at the given corner.
    pub fn new_with_coordinates(width: u8, height: u8, bottom_left: Coordinates) -> (r: Self)
        requires
            width > 0,
            height > 0,
        ensures
            r == (Viewport { bottom_left, width, height }),
            bottom_left.wf() ==> r.wf(),
    {
        Self { bottom_left, width, height }
    }

    /// The bottom-left corner.
    pub fn bottom_left(&self) -> (r: Coordinates)
        ensures
            r == self.bottom_left,
    {
        self.bottom_left
    }

    /// The center position of the rectangle.
    pub fn centered(&self) -> (r: Coordinates)
        requires
            self.wf(),
            self.bottom_left.0 + self.width as int / 2 < 256,
            self.bottom_left.1 + self.height as int / 2 < 128,
        ensures
            r == self.spec_centered(),
            r.wf(),
    {
        let (x, y) = self.bottom_left().as_tuple();

        let x16 = x as u16;
        let w16 = self.width as u16;
        let cx = ((2 * x16 + w16) / 2) as u8;

        let y16 = y as i16;
        let h16 = self.height as i16;
        let n = 2 * y16 + h16;
        let cy_wide: i16 = if n >= 0 {
            n / 2
        } else {
            -((-n) / 2)
        };
        let cy = cy_wide as i8;
        Coordinates::new_wrapped_and_saturated(cx, cy)
    }

    /// The corner a rectangle of this extent must sit at for the given corner
    /// to be its center: half the extent back along each axis, wrapping x.
    pub fn centered_around_bottom_left(&self) -> (r: Coordinates)
        requires
            self.wf(),
            -(2 * WORLD_HEIGHT as int) < self.bottom_left.1 - self.height as int / 2,
            self.height < 128,
        ensures
            r.0 == wrap_x_spec(self.bottom_left.0 - self.width as int / 2),
            r.1 == self.bottom_left.1 - self.height as int / 2,
            r.wf(),
    {
        let (x, y) = self.bottom_left().as_tuple();

        let x16 = x as i16;
        let w16 = self.width as i16;
        let mut shifted = x16 - w16 / 2;
        if shifted < 0 {
            shifted = shifted + WORLD_WIDTH as i16;
        }
        let rx = shifted as u8;

        let h8 = self.height as i8;
        let ry = y - h8 / 2;
        Coordinates::new(rx, ry)
    }

    /// Translates the other rectangle's corner the least it takes to fit its
    /// row span inside this rectangle's row span.
    pub fn contained_vertically(&self, other: Viewport) -> (r: Coordinates)
        requires
            self.wf(),
            self.height < 128,
            self.bottom_left.0 + self.width - 1 < 256,
            self.bottom_left.1 + self.height as int - 1 < 2 * WORLD_HEIGHT as int,
            other.bottom_left.0 < WORLD_WIDTH,
        ensures
            r.0 == other.bottom_left.0,
            r.1 == ({
                let low = self.bottom_left.1 as int;
                let high = self.bottom_left.1 + self.height - 1;
                let y = other.bottom_left.1 as int;
                if y < low {
                    low
                } else if y > high {
                    high
                } else {
                    y
                }
            }),
            r.wf(),
    {
        let (_, y_max) = self.top_right().as_tuple();
        let (_, y_min) = self.bottom_left().as_tuple();
        let (x, y) = other.bottom_left().as_tuple();
        let mut clamped = y;
        if clamped < y_min {
            clamped = y_min;
        }
        if clamped > y_max {
            clamped = y_max;
        }
        Coordinates::new(x, clamped)
    }

    /// The corner this rectangle's content must move to so that it stays
    /// centered when the extent grows to the given larger one: half the extra
    /// extent back along each axis, wrapping x around the seam.
    pub fn expanded(&self, wider_width: u8, taller_height: u8) -> (r: Coordinates)
        requires
            self.wf(),
            -(2 * WORLD_HEIGHT as int) < self.bottom_left.1 - sat_sub_spec(
                taller_height as int,
                self.height as int,
            ) / 2,
        ensures
            r.0 == wrap_x_spec(
                self.bottom_left.0 - sat_sub_spec(wider_width as int, self.width as int) / 2,
            ),
            r.1 == self.bottom_left.1 - sat_sub_spec(taller_height as int, self.height as int) / 2,
            r.wf(),
    {
        let (x, y) = self.bottom_left().as_tuple();
        let x_offset = sat_sub(wider_width, self.width) / 2;
        let y_offset = (sat_sub(taller_height, self.height) / 2) as i8;
        let mut shifted = Coordinates::new(x, y);
        shifted.offset_x(-(x_offset as i16));
        Coordinates::new(shifted.as_tuple().0, y - y_offset)
    }

    /// True iff the rectangles share at least one position, accounting for
    /// the world's horizontal wraparound.
    pub fn intersects(&self, other: Self) -> (r: bool)
        ensures
            r == self.spec_intersects(other),
    {
        self.intersects_horizontally(other) && self.intersects_vertically(other)
    }

    /// Horizontal overlap alone, accounting for the world seam.
    pub fn intersects_horizontally(&self, other: Self) -> (r: bool)
        ensures
            r == self.spec_intersects_horizontally(other),
    {
        let world_width = WORLD_WIDTH as i16;
        let mut x1 = self.bottom_left.0 as i16;
        let mut x2 = other.bottom_left.0 as i16;
        let w1 = self.width as i16;
        let w2 = other.width as i16;
        if x1 + w1 > world_width {
            x1 = x1 - world_width;
        }
        if x2 + w2 > world_width {
            x2 = x2 - world_width;
        }
        overlaps(x1, x2, w1, w2)
    }

    /// Vertical overlap alone.
    pub fn intersects_vertically(&self, other: Self) -> (r: bool)
        ensures
            r == self.spec_intersects_vertically(other),
    {
        let y1 = self.bottom_left.1 as i16;
        let y2 = other.bottom_left.1 as i16;
        let h1 = self.height as i16;
        let h2 = other.height as i16;
        overlaps(y1, y2, h1, h2)
    }

    /// Shifts the rectangle by another position read as a delta: x wraps, y
    /// is a plain offset.
    pub fn offset(&mut self, offset: Coordinates)
        requires
            old(self).bottom_left.0 + offset.0 >= -(WORLD_WIDTH as int),
            i8::MIN <= old(self).bottom_left.1 + offset.1 <= i8::MAX,
            -(2 * WORLD_HEIGHT as int) < old(self).bottom_left.1 + offset.1 < 2 * (
            WORLD_HEIGHT as int),
        ensures
            final(self).bottom_left.0 == wrap_x_spec(old(self).bottom_left.0 + offset.0),
            final(self).bottom_left.1 == old(self).bottom_left.1 + offset.1,
            final(self).width == old(self).width,
            final(self).height == old(self).height,
    {
        self.bottom_left.offset(offset);
    }

    /// The corner this rectangle's content must move to so that it stays
    /// centered when the extent shrinks to the given smaller one: half the
    /// lost extent forward along each axis, wrapping x around the seam.
    pub fn shrunk(&self, narrower_width: u8, shorter_height: u8) -> (r: Coordinates)
        requires
            self.wf(),
            self.bottom_left.1 + sat_sub_spec(self.height as int, shorter_height as int) / 2 < 2 * (
            WORLD_HEIGHT as int),
        ensures
            r.0 == wrap_x_spec(
                self.bottom_left.0 + sat_sub_spec(self.width as int, narrower_width as int) / 2,
            ),
            r.1 == self.bottom_left.1 + sat_sub_spec(self.height as int, shorter_height as int) / 2,
            r.wf(),
    {
        let (x, y) = self.bottom_left().as_tuple();
        let x_offset = sat_sub(self.width, narrower_width) / 2;
        let y_offset = (sat_sub(self.height, shorter_height) / 2) as i8;
        let mut shifted = Coordinates::new(x, y);
        shifted.offset_x(x_offset as i16);
        Coordinates::new(shifted.as_tuple().0, y + y_offset)
    }

    /// The top-right corner, wrapping x around the seam.
    pub fn top_right(&self) -> (r: Coordinates)
        requires
            self.wf(),
            self.height < 128,
            self.bottom_left.0 + self.width - 1 < 256,
            self.bottom_left.1 + self.height - 1 < 2 * WORLD_HEIGHT as int,
        ensures
            r.0 == (self.bottom_left.0 + self.width - 1) % (WORLD_WIDTH as int),
            r.1 == self.bottom_left.1 + self.height - 1,
            r.wf(),
    {
        let (x, y) = self.bottom_left().as_tuple();
        let rx = ((x as u16 + self.width as u16 - 1) % WORLD_WIDTH as u16) as u8;
        let ry = y + self.height as i8 - 1;
        Coordinates::new(rx, ry)
    }

    /// The horizontal extent.
    pub fn width(&self) -> (r: u8)
        ensures
            r == self.width,
    {
        self.width
    }

    /// The same extent at a different corner.
    pub fn with_coordinates(&self, coordinates: Coordinates) -> (r: Self)
        requires
            self.width > 0,
            self.height > 0,
        ensures
            r == (Viewport { bottom_left: coordinates, width: self.width, height: self.height }),
    {
        Self::new_with_coordinates(self.width, self.height, coordinates)
    }
}

/// Subtraction on naturals that stops at zero.
pub open spec fn sat_sub_spec(a: int, b: int) -> int {
    if a >= b {
        a - b
    } else {
        0
    }
}

fn sat_sub(a: u8, b: u8) -> (r: u8)
    ensures
        r == sat_sub_spec(a as int, b as int),
{
    if a >= b {
        a - b
    } else {
        0
    }
}

fn overlaps(pos_1: i16, pos_2: i16, len_1: i16, len_2: i16) -> (r: bool)
    requires
        -(WORLD_WIDTH as int) <= pos_1 + len_1 <= i16::MAX,
        -(WORLD_WIDTH as int) <= pos_2 + len_2 <= i16::MAX,
    ensures
        r == intervals_overlap(pos_1 as int, len_1 as int, pos_2 as int, len_2 as int),
{
    pos_1 < pos_2 + len_2 && pos_1 + len_1 > pos_2
}

/// Law: the intersection test is symmetric, so each side of a collision pair
/// sees the collision exactly when the other does.
pub proof fn lemma_intersects_symmetric(a: Viewport, b: Viewport)
    ensures
        a.spec_intersects(b) == b.spec_intersects(a),
        a.spec_intersects_horizontally(b) == b.spec_intersects_horizontally(a),
        a.spec_intersects_vertically(b) == b.spec_intersects_vertically(a),
{
}

} // verus!
