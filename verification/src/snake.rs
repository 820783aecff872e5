//! The path model: the snake's head, its body as an ordered corner list,
//! and the grow/shrink rules that keep the body consistent with movement.
//!
//! The body is the ordered sequence of corner coordinates, oldest (tail
//! end) first; the head is kept separately and is not stored in the corner
//! list. The corner list is never empty: it always holds at least the tail
//! anchor. A corner is appended on every direction change, and the oldest
//! corner is advanced and eventually collapsed as the tail catches up.

use vstd::prelude::*;

use crate::collision::{collides, Collidable};
use crate::coord::{manhattan, step_toward, Coord};
use crate::game::Direction;

verus! {

/// The coordinate one unit step away from `c` in direction `d`
/// (up is `+y`, down is `-y`, left is `-x`, right is `+x`).
pub open spec fn step_in(c: Coord, d: Direction) -> Coord {
    match d {
        Direction::Up => Coord { x: c.x, y: (c.y + 1) as i64 },
        Direction::Down => Coord { x: c.x, y: (c.y - 1) as i64 },
        Direction::Left => Coord { x: (c.x - 1) as i64, y: c.y },
        Direction::Right => Coord { x: (c.x + 1) as i64, y: c.y },
    }
}

/// A step in direction `d` from `c` stays within the machine range.
pub open spec fn can_step(c: Coord, d: Direction) -> bool {
    match d {
        Direction::Up => c.y < i64::MAX,
        Direction::Down => i64::MIN < c.y,
        Direction::Left => i64::MIN < c.x,
        Direction::Right => c.x < i64::MAX,
    }
}

/// What one tail move does to the corner list `corners`, for a head at
/// `head` and a target length `total_length`.
///
/// With a single corner, the tail advances one step toward the head only
/// while the Manhattan distance to the head exceeds the target length.
/// With several corners, the oldest corner advances one step toward the
/// next one and is dropped once it exactly reaches it.
pub open spec fn tail_step(corners: Seq<Coord>, head: Coord, total_length: int) -> Seq<Coord>
    recommends
        corners.len() >= 1,
{
    if corners.len() == 1 {
        if manhattan(corners[0], head) > total_length {
            corners.update(0, step_toward(corners[0], head))
        } else {
            corners
        }
    } else {
        let moved = step_toward(corners[0], corners[1]);
        if moved == corners[1] {
            corners.drop_first()
        } else {
            corners.update(0, moved)
        }
    }
}

/// The snake's head: a position and the direction it travels in.
pub struct SnakeHead {
    pub coord: Coord,
    pub direction: Direction,
}

impl SnakeHead {
    pub fn new() -> (h: SnakeHead)
        ensures
            h.coord == (Coord { x: 12, y: 0 }),
            h.direction == Direction::Right,
    {
        SnakeHead { coord: Coord::new(12, 0), direction: Direction::Right }
    }

    pub fn change_direction(&mut self, direction: Direction)
        ensures
            *final(self) == (SnakeHead { direction, ..*old(self) }),
    {
        self.direction = direction;
    }

    /// Translate the head one unit step in its current direction.
    pub fn move_head(&mut self)
        requires
            can_step(old(self).coord, old(self).direction),
        ensures
            *final(self) == (SnakeHead {
                coord: step_in(old(self).coord, old(self).direction),
                ..*old(self)
            }),
    {
        match self.direction {
            Direction::Up => self.coord.move_up(1),
            Direction::Down => self.coord.move_down(1),
            Direction::Left => self.coord.move_left(1),
            Direction::Right => self.coord.move_right(1),
        }
    }
}

impl Collidable for SnakeHead {
    open spec fn border_spec(&self) -> Seq<Coord> {
        seq![self.coord]
    }

    fn get_border(&self) -> (b: Vec<Coord>) {
        let border = vec![self.coord];
        proof {
            assert(border@ =~= seq![self.coord]);
        }
        border
    }
}

/// The snake's body: the ordered corner list, oldest corner first.
pub struct SnakeBody {
    corners: Vec<Coord>,
}

impl View for SnakeBody {
    type V = Seq<Coord>;

    closed spec fn view(&self) -> Seq<Coord> {
        self.corners@
    }
}

impl SnakeBody {
    /// The corner list always keeps at least the tail anchor.
    pub open spec fn wf(&self) -> bool {
        self@.len() >= 1
    }

    pub fn new() -> (b: SnakeBody)
        ensures
            b@ =~= seq![Coord { x: 0, y: 0 }],
    {
        SnakeBody { corners: vec![Coord { x: 0, y: 0 }] }
    }

    /// Advance the tail end one step, as [`tail_step`] states: toward the
    /// head while the body is over its target length, or toward the next
    /// corner, collapsing the oldest corner once it is reached exactly.
    pub fn move_tail(&mut self, head_coord: &Coord, total_length: i64)
        requires
            old(self).wf(),
            old(self)@.len() == 1 ==> manhattan(old(self)@[0], *head_coord) <= i64::MAX,
        ensures
            final(self)@ == tail_step(old(self)@, *head_coord, total_length as int),
            final(self).wf(),
    {
        if self.corners.len() == 1 {
            let tail_distance_x = Coord::get_x_distance(&self.corners[0], head_coord);
            let tail_distance_y = Coord::get_y_distance(&self.corners[0], head_coord);

            if tail_distance_x + tail_distance_y > total_length {
                let mut tail = self.corners[0];
                tail.move_toward(head_coord);
                self.corners[0] = tail;
            }
        } else {
            let next_corner = self.corners[1];
            let mut oldest = self.corners[0];
            oldest.move_toward(&next_corner);
            self.corners[0] = oldest;

            if oldest.compare(&next_corner) {
                self.corners.remove(0);
                proof {
                    assert(self@ =~= old(self)@.drop_first());
                }
            }
        }
    }
}

impl Collidable for SnakeBody {
    open spec fn border_spec(&self) -> Seq<Coord> {
        self@
    }

    fn get_border(&self) -> (b: Vec<Coord>) {
        let mut border: Vec<Coord> = Vec::new();
        let len: usize = self.corners.len();
        let mut i: usize = 0;
        while i < len
            invariant
                len == self.corners@.len(),
                i <= len,
                border@ =~= self.corners@.subrange(0, i as int),
            decreases len - i,
        {
            border.push(self.corners[i]);
            i = i + 1;
        }
        proof {
            assert(border@ =~= self@);
        }
        border
    }
}

/// The whole snake: head, body and the target total length the tail
/// contracts toward.
pub struct Snake {
    pub total_length: i32,
    pub body: SnakeBody,
    pub head: SnakeHead,
}

impl Snake {
    pub open spec fn wf(&self) -> bool {
        self.body.wf()
    }

    pub fn new() -> (s: Snake)
        ensures
            s.total_length == 12,
            s.body@ =~= seq![Coord { x: 0, y: 0 }],
            s.head.coord == (Coord { x: 12, y: 0 }),
            s.head.direction == Direction::Right,
            s.wf(),
    {
        Snake { total_length: 12, body: SnakeBody::new(), head: SnakeHead::new() }
    }

    /// Lengthen the snake by one unit (called when a point is eaten).
    pub fn grow(&mut self)
        requires
            old(self).total_length < i32::MAX,
        ensures
            final(self).total_length == old(self).total_length + 1,
            final(self).body == old(self).body,
            final(self).head == old(self).head,
    {
        self.total_length = self.total_length + 1;
    }

    /// One logic tick of movement: the head steps in its direction, then
    /// the tail advances as [`tail_step`] states.
    pub fn move_snake(&mut self)
        requires
            old(self).wf(),
            can_step(old(self).head.coord, old(self).head.direction),
            old(self).body@.len() == 1 ==> manhattan(
                old(self).body@[0],
                step_in(old(self).head.coord, old(self).head.direction),
            ) <= i64::MAX,
        ensures
            final(self).head == (SnakeHead {
                coord: step_in(old(self).head.coord, old(self).head.direction),
                ..old(self).head
            }),
            final(self).body@ == tail_step(
                old(self).body@,
                step_in(old(self).head.coord, old(self).head.direction),
                old(self).total_length as int,
            ),
            final(self).total_length == old(self).total_length,
            final(self).wf(),
    {
        self.head.move_head();
        self.body.move_tail(&self.head.coord, self.total_length as i64);
    }

    /// Record a pivot: the head turns to `direction`, the current head
    /// position is appended as a new corner, and one movement tick runs.
    pub fn change_direction(&mut self, direction: Direction)
        requires
            old(self).wf(),
            can_step(old(self).head.coord, direction),
        ensures
            final(self).head == (SnakeHead {
                coord: step_in(old(self).head.coord, direction),
                direction,
            }),
            final(self).body@ == tail_step(
                old(self).body@.push(old(self).head.coord),
                step_in(old(self).head.coord, direction),
                old(self).total_length as int,
            ),
            final(self).total_length == old(self).total_length,
            final(self).wf(),
    {
        self.head.change_direction(direction);
        self.body.corners.push(Coord::new(self.head.coord.x, self.head.coord.y));
        self.move_snake();
    }
}

/// While a single-corner body is longer than its target length, each tail
/// move strictly shrinks the Manhattan distance between tail and head and
/// never moves the tail past the head on either axis; once the distance is
/// within the target length, the tail no longer moves.
pub proof fn lemma_tail_contraction(corners: Seq<Coord>, head: Coord, total_length: int)
    requires
        corners.len() == 1,
        0 <= total_length,
    ensures
        manhattan(corners[0], head) <= total_length ==> tail_step(corners, head, total_length)
            == corners,
        manhattan(corners[0], head) > total_length ==> {
            let stepped = tail_step(corners, head, total_length);
            &&& stepped.len() == 1
            &&& manhattan(stepped[0], head) < manhattan(corners[0], head)
            &&& (corners[0].x <= head.x ==> corners[0].x <= stepped[0].x <= head.x)
            &&& (corners[0].x >= head.x ==> head.x <= stepped[0].x <= corners[0].x)
            &&& (corners[0].y <= head.y ==> corners[0].y <= stepped[0].y <= head.y)
            &&& (corners[0].y >= head.y ==> head.y <= stepped[0].y <= corners[0].y)
        },
{
}

/// A straight path never collides with itself: while the snake has made no
/// turn, its body border is the single tail anchor, and testing the head
/// against the body reports a collision only if the head sits exactly on
/// that anchor.
pub proof fn lemma_no_false_self_collision(s: Snake)
    requires
        s.body@.len() == 1,
        s.head.coord != s.body@[0],
    ensures
        !collides(s.head.border_spec(), s.body.border_spec()),
{
    assert(s.head.border_spec()[0] == s.head.coord);
}

/// A multi-corner body loses exactly its oldest corner the moment the tail
/// steps onto the next corner, and keeps its length otherwise.
pub proof fn lemma_corner_collapse(corners: Seq<Coord>, head: Coord, total_length: int)
    requires
        corners.len() >= 2,
    ensures
        step_toward(corners[0], corners[1]) == corners[1] ==> tail_step(
            corners,
            head,
            total_length,
        ) =~= corners.drop_first(),
        step_toward(corners[0], corners[1]) == corners[1] ==> tail_step(
            corners,
            head,
            total_length,
        ).len() == corners.len() - 1,
        step_toward(corners[0], corners[1]) != corners[1] ==> tail_step(
            corners,
            head,
            total_length,
        ).len() == corners.len(),
{
}

} // verus!
