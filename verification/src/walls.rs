//! The arena walls: a rectangle around the playing field whose border is
//! the closed polygon over its four corners.

use vstd::prelude::*;

use crate::collision::Collidable;
use crate::coord::Coord;

verus! {

/// The four wall corners, in order: top right, bottom right, bottom left,
/// top left. The rectangle spans `[-width / 2, width / 2]` horizontally
/// and `[-height, height]` vertically.
pub struct Walls {
    pub corners: [Coord; 4],
}

impl Walls {
    pub fn new(width: i64, height: i64) -> (w: Walls)
        requires
            0 <= width,
            0 <= height,
        ensures
            w.corners@ =~= seq![
                Coord { x: (width / 2) as i64, y: height },
                Coord { x: (width / 2) as i64, y: (-height) as i64 },
                Coord { x: (-(width / 2)) as i64, y: (-height) as i64 },
                Coord { x: (-(width / 2)) as i64, y: height },
            ],
    {
        let half_width = width / 2;
        Walls {
            corners: [
                Coord::new(half_width, height),
                Coord::new(half_width, -height),
                Coord::new(-half_width, -height),
                Coord::new(-half_width, height),
            ],
        }
    }
}

impl Collidable for Walls {
    /// The closed polygon over the corners: the first corner is repeated
    /// as the last element to close the rectangle.
    open spec fn border_spec(&self) -> Seq<Coord> {
        self.corners@.push(self.corners@[0])
    }

    fn get_border(&self) -> (b: Vec<Coord>) {
        let border = vec![
            self.corners[0],
            self.corners[1],
            self.corners[2],
            self.corners[3],
            self.corners[0],
        ];
        proof {
            assert(border@ =~= self.corners@.push(self.corners@[0]));
        }
        border
    }
}

} // verus!
