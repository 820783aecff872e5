//! The collectible point: a single random grid coordinate inside the
//! arena, re-rolled each time the snake eats it.

use vstd::prelude::*;

use crate::collision::Collidable;
use crate::coord::Coord;

verus! {

/// A point placed at random within `[-max_x / 2, max_x / 2]` by
/// `[-max_y / 2, max_y / 2]`.
pub struct Point {
    pub coord: Coord,
    pub max_x: i64,
    pub max_y: i64,
}

impl Point {
    /// The coordinate lies within the stored arena extents.
    pub open spec fn wf(&self) -> bool {
        &&& -(self.max_x / 2) <= self.coord.x <= self.max_x / 2
        &&& -(self.max_y / 2) <= self.coord.y <= self.max_y / 2
    }

    pub fn new(max_x: i64, max_y: i64) -> (p: Point)
        requires
            0 <= max_x,
            0 <= max_y,
        ensures
            p.max_x == max_x,
            p.max_y == max_y,
            p.wf(),
    {
        let coord = Point::get_random_coord(max_x, max_y);
        Point { coord, max_x, max_y }
    }

    /// A random coordinate with `x` in `[-x_max / 2, x_max / 2]` and `y`
    /// in `[-y_max / 2, y_max / 2]`.
    pub fn get_random_coord(x_max: i64, y_max: i64) -> (c: Coord)
        requires
            0 <= x_max,
            0 <= y_max,
        ensures
            -(x_max / 2) <= c.x <= x_max / 2,
            -(y_max / 2) <= c.y <= y_max / 2,
    {
        Coord::randomize(x_max, y_max)
    }

    /// Re-roll the point's coordinate within the stored extents.
    pub fn create_new_point(&mut self)
        requires
            0 <= old(self).max_x,
            0 <= old(self).max_y,
        ensures
            final(self).max_x == old(self).max_x,
            final(self).max_y == old(self).max_y,
            final(self).wf(),
    {
        self.coord = Point::get_random_coord(self.max_x, self.max_y);
    }
}

impl Collidable for Point {
    open spec fn border_spec(&self) -> Seq<Coord> {
        seq![self.coord]
    }

    fn get_border(&self) -> (b: Vec<Coord>) {
        let border = vec![self.coord];
        proof {
            assert(border@ =~= seq![self.coord]);
        }
        border
    }
}

} // verus!
