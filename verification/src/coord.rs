//! The coordinate primitive: an integer grid point with unit-step movement.

use vstd::prelude::*;

verus! {

/// Largest coordinate magnitude the collision arithmetic is specified for.
/// Within this range every cross product, dot product and determinant of
/// coordinate differences fits in an `i64`.
pub const MAX_COORD: i64 = 1_000_000_000;

/// A 2D grid point. Plain value semantics: no identity beyond its fields.
#[derive(Clone, Copy, Debug, PartialEq, Eq, Structural)]
pub struct Coord {
    pub x: i64,
    pub y: i64,
}

/// Magnitude of a mathematical integer.
pub open spec fn abs_val(a: int) -> int {
    if a >= 0 {
        a
    } else {
        -a
    }
}

/// Both components of `c` lie within the range the collision engine accepts.
pub open spec fn in_bounds(c: Coord) -> bool {
    &&& -MAX_COORD <= c.x <= MAX_COORD
    &&& -MAX_COORD <= c.y <= MAX_COORD
}

/// Manhattan distance between two grid points.
pub open spec fn manhattan(a: Coord, b: Coord) -> int {
    abs_val(a.x - b.x) + abs_val(a.y - b.y)
}

/// -1, 0 or 1 according to the sign of `d`.
pub open spec fn sign(d: int) -> int {
    if d > 0 {
        1
    } else if d < 0 {
        -1
    } else {
        0
    }
}

/// One unit step of `a` toward `b`: each axis independently moves by one
/// toward `b`'s value, or stays put where the values already agree.
pub open spec fn step_toward(a: Coord, b: Coord) -> Coord {
    Coord { x: (a.x + sign(b.x - a.x)) as i64, y: (a.y + sign(b.y - a.y)) as i64 }
}

impl Coord {
    pub fn new(x: i64, y: i64) -> (c: Coord)
        ensures
            c == (Coord { x, y }),
    {
        Coord { x, y }
    }

    pub fn move_left(&mut self, speed: i64)
        requires
            i64::MIN <= old(self).x - speed <= i64::MAX,
        ensures
            *final(self) == (Coord { x: (old(self).x - speed) as i64, y: old(self).y }),
    {
        self.x = self.x - speed;
    }

    pub fn move_right(&mut self, speed: i64)
        requires
            i64::MIN <= old(self).x + speed <= i64::MAX,
        ensures
            *final(self) == (Coord { x: (old(self).x + speed) as i64, y: old(self).y }),
    {
        self.x = self.x + speed;
    }

    pub fn move_up(&mut self, speed: i64)
        requires
            i64::MIN <= old(self).y + speed <= i64::MAX,
        ensures
            *final(self) == (Coord { x: old(self).x, y: (old(self).y + speed) as i64 }),
    {
        self.y = self.y + speed;
    }

    pub fn move_down(&mut self, speed: i64)
        requires
            i64::MIN <= old(self).y - speed <= i64::MAX,
        ensures
            *final(self) == (Coord { x: old(self).x, y: (old(self).y - speed) as i64 }),
    {
        self.y = self.y - speed;
    }

    /// Horizontal distance between two points.
    pub fn get_x_distance(c1: &Coord, c2: &Coord) -> (d: i64)
        requires
            abs_val(c1.x - c2.x) <= i64::MAX,
        ensures
            d == abs_val(c1.x - c2.x),
    {
        if c1.x >= c2.x {
            c1.x - c2.x
        } else {
            c2.x - c1.x
        }
    }

    /// Vertical distance between two points.
    pub fn get_y_distance(c1: &Coord, c2: &Coord) -> (d: i64)
        requires
            abs_val(c1.y - c2.y) <= i64::MAX,
        ensures
            d == abs_val(c1.y - c2.y),
    {
        if c1.y >= c2.y {
            c1.y - c2.y
        } else {
            c2.y - c1.y
        }
    }

    /// A fresh grid point drawn at random, each component centred on zero:
    /// `x` in `[-x_max / 2, x_max / 2]` and `y` in `[-y_max / 2, y_max / 2]`.
    pub fn randomize(x_max: i64, y_max: i64) -> (c: Coord)
        requires
            0 <= x_max,
            0 <= y_max,
        ensures
            -(x_max / 2) <= c.x <= x_max / 2,
            -(y_max / 2) <= c.y <= y_max / 2,
    {
        let half_x = x_max / 2;
        let half_y = y_max / 2;
        let x = random_in_range(-half_x, half_x);
        let y = random_in_range(-half_y, half_y);
        Coord::new(x, y)
    }

    /// Advance this point one unit step toward `c` (diagonal steps allowed).
    pub fn move_toward(&mut self, c: &Coord)
        ensures
            *final(self) == step_toward(*old(self), *c),
    {
        if self.x < c.x {
            self.x = self.x + 1;
        } else if self.x > c.x {
            self.x = self.x - 1;
        }
        if self.y < c.y {
            self.y = self.y + 1;
        } else if self.y > c.y {
            self.y = self.y - 1;
        }
    }

    /// Exact equality of both components.
    pub fn compare(&self, c: &Coord) -> (r: bool)
        ensures
            r == (*self == *c),
    {
        self.x == c.x && self.y == c.y
    }
}

/// Relies on rand's `Rng::gen_range` on `lo..=hi`: the sample lies in that
/// closed range; the range is non-empty, so the call does not panic.
#[verifier::external_body]
pub(crate) fn random_in_range(lo: i64, hi: i64) -> (r: i64)
    requires
        lo <= hi,
    ensures
        lo <= r <= hi,
{
    rand::Rng::gen_range(&mut rand::thread_rng(), lo..=hi)
}

} // verus!
