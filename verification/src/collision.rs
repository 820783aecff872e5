//! The collision engine: an exact intersection test over "bordered" shapes.
//!
//! A border is a non-empty coordinate sequence. A border of length 1 is a
//! point; a longer border is an open polyline whose edges are the
//! consecutive pairs. All tests are exact over the integer grid; pairs of
//! parallel or collinear edges are deliberately skipped (the `den == 0`
//! case), so exactly overlapping collinear segments report no collision.

use vstd::prelude::*;

use crate::coord::{in_bounds, Coord};

verus! {

/// Cross product of `(p - s)` and `(e - s)`: zero exactly when `p` lies on
/// the infinite line through `s` and `e`.
pub open spec fn cross_of(p: Coord, s: Coord, e: Coord) -> int {
    (p.y - s.y) * (e.x - s.x) - (p.x - s.x) * (e.y - s.y)
}

/// Dot product of `(p - s)` and `(e - s)`.
pub open spec fn dot_of(p: Coord, s: Coord, e: Coord) -> int {
    (p.x - s.x) * (e.x - s.x) + (p.y - s.y) * (e.y - s.y)
}

/// Squared length of the segment from `s` to `e`.
pub open spec fn square_len_of(s: Coord, e: Coord) -> int {
    (e.x - s.x) * (e.x - s.x) + (e.y - s.y) * (e.y - s.y)
}

/// `p` lies on the closed segment from `s` to `e`: collinear with it, and
/// its projection falls between the endpoints (both included).
pub open spec fn point_on_segment(p: Coord, s: Coord, e: Coord) -> bool {
    &&& cross_of(p, s, e) == 0
    &&& 0 <= dot_of(p, s, e) <= square_len_of(s, e)
}

/// Determinant of the 2x2 system solved for the intersection of the lines
/// through `a1`-`a2` and `b1`-`b2`; zero for parallel or collinear lines.
pub open spec fn den_of(a1: Coord, a2: Coord, b1: Coord, b2: Coord) -> int {
    (a1.x - a2.x) * (b1.y - b2.y) - (a1.y - a2.y) * (b1.x - b2.x)
}

/// Numerator of the intersection parameter `t` along `a1`-`a2`.
pub open spec fn t_num_of(a1: Coord, a2: Coord, b1: Coord, b2: Coord) -> int {
    (a1.x - b1.x) * (b1.y - b2.y) - (a1.y - b1.y) * (b1.x - b2.x)
}

/// Numerator of the intersection parameter `u` along `b1`-`b2`.
pub open spec fn u_num_of(a1: Coord, a2: Coord, b1: Coord, b2: Coord) -> int {
    -((a1.x - a2.x) * (a1.y - b1.y) - (a1.y - a2.y) * (a1.x - b1.x))
}

/// The rational `num / den` lies in the closed interval `[0, 1]`
/// (`den` is expected to be non-zero).
pub open spec fn ratio_in_unit(num: int, den: int) -> bool {
    if den > 0 {
        0 <= num <= den
    } else {
        den <= num <= 0
    }
}

/// The two closed segments cross at a single point. Parallel and collinear
/// pairs (`den == 0`) never count, even when they overlap.
pub open spec fn segments_intersect(a1: Coord, a2: Coord, b1: Coord, b2: Coord) -> bool {
    &&& den_of(a1, a2, b1, b2) != 0
    &&& ratio_in_unit(t_num_of(a1, a2, b1, b2), den_of(a1, a2, b1, b2))
    &&& ratio_in_unit(u_num_of(a1, a2, b1, b2), den_of(a1, a2, b1, b2))
}

/// `p` lies on some edge of the polyline `b`.
pub open spec fn point_hits_polyline(p: Coord, b: Seq<Coord>) -> bool {
    exists|i: int| 0 <= i < b.len() - 1 && #[trigger] point_on_segment(p, b[i], b[i + 1])
}

/// Some edge of `a` crosses some edge of `b`.
pub open spec fn polylines_intersect(a: Seq<Coord>, b: Seq<Coord>) -> bool {
    exists|i: int, j: int|
        0 <= i < a.len() - 1 && 0 <= j < b.len() - 1 && #[trigger] segments_intersect(
            a[i],
            a[i + 1],
            b[j],
            b[j + 1],
        )
}

/// What a collision between the borders `a` and `b` means, by case on their
/// lengths: point against point is exact equality, a point against a
/// polyline is a point-on-edge test, and two polylines collide when any
/// pair of edges crosses.
pub open spec fn collides(a: Seq<Coord>, b: Seq<Coord>) -> bool
    recommends
        a.len() >= 1,
        b.len() >= 1,
{
    if a.len() == 1 && b.len() == 1 {
        a[0] == b[0]
    } else if a.len() == 1 {
        point_hits_polyline(a[0], b)
    } else if b.len() == 1 {
        point_hits_polyline(b[0], a)
    } else {
        polylines_intersect(a, b)
    }
}

/// Every coordinate of `b` is within the range the engine's arithmetic
/// is proved exact for.
pub open spec fn border_in_bounds(b: Seq<Coord>) -> bool {
    forall|i: int| 0 <= i < b.len() ==> in_bounds(#[trigger] b[i])
}

/// The product of two values of magnitude at most `m` has magnitude at
/// most `m * m`.
proof fn lemma_mul_bound(a: int, b: int, m: int)
    by (nonlinear_arith)
    requires
        -m <= a <= m,
        -m <= b <= m,
        0 <= m,
    ensures
        -m * m <= a * b <= m * m,
{
}

/// Whether `point_coord` lies on the closed segment from `start_coord` to
/// `end_coord`: an exact collinearity test followed by a projection test
/// that includes both endpoints.
fn is_point_on_line(point_coord: &Coord, start_coord: &Coord, end_coord: &Coord) -> (r: bool)
    requires
        in_bounds(*point_coord),
        in_bounds(*start_coord),
        in_bounds(*end_coord),
    ensures
        r == point_on_segment(*point_coord, *start_coord, *end_coord),
{
    let px = point_coord.x - start_coord.x;
    let py = point_coord.y - start_coord.y;
    let dx = end_coord.x - start_coord.x;
    let dy = end_coord.y - start_coord.y;
    proof {
        lemma_mul_bound(px as int, dx as int, 2_000_000_000);
        lemma_mul_bound(px as int, dy as int, 2_000_000_000);
        lemma_mul_bound(py as int, dx as int, 2_000_000_000);
        lemma_mul_bound(py as int, dy as int, 2_000_000_000);
        lemma_mul_bound(dx as int, dx as int, 2_000_000_000);
        lemma_mul_bound(dy as int, dy as int, 2_000_000_000);
    }

    let cross_product = py * dx - px * dy;
    if cross_product != 0 {
        return false;
    }

    let dot_product = px * dx + py * dy;
    if dot_product < 0 {
        return false;
    }

    let squared_length = dx * dx + dy * dy;
    if dot_product > squared_length {
        return false;
    }

    true
}

/// Whether the closed segments `a1`-`a2` and `b1`-`b2` cross, by the
/// determinant method; a zero determinant (parallel or collinear lines) is
/// skipped and reports no crossing.
fn do_segments_intersect(a1: &Coord, a2: &Coord, b1: &Coord, b2: &Coord) -> (r: bool)
    requires
        in_bounds(*a1),
        in_bounds(*a2),
        in_bounds(*b1),
        in_bounds(*b2),
    ensures
        r == segments_intersect(*a1, *a2, *b1, *b2),
{
    let ax = a1.x - a2.x;
    let ay = a1.y - a2.y;
    let bx = b1.x - b2.x;
    let by = b1.y - b2.y;
    let sx = a1.x - b1.x;
    let sy = a1.y - b1.y;
    proof {
        lemma_mul_bound(ax as int, by as int, 2_000_000_000);
        lemma_mul_bound(ay as int, bx as int, 2_000_000_000);
        lemma_mul_bound(sx as int, by as int, 2_000_000_000);
        lemma_mul_bound(sy as int, bx as int, 2_000_000_000);
        lemma_mul_bound(ax as int, sy as int, 2_000_000_000);
        lemma_mul_bound(ay as int, sx as int, 2_000_000_000);
    }

    let den = ax * by - ay * bx;
    if den == 0 {
        return false;
    }

    let t_num = sx * by - sy * bx;
    let u_num = -(ax * sy - ay * sx);

    let t_in_unit = if den > 0 {
        0 <= t_num && t_num <= den
    } else {
        den <= t_num && t_num <= 0
    };
    let u_in_unit = if den > 0 {
        0 <= u_num && u_num <= den
    } else {
        den <= u_num && u_num <= 0
    };

    t_in_unit && u_in_unit
}

/// Whether `point` lies on any edge of the polyline `line`.
fn point_meets_polyline(point: &Coord, line: &Vec<Coord>) -> (r: bool)
    requires
        line@.len() >= 2,
        in_bounds(*point),
        border_in_bounds(line@),
    ensures
        r == point_hits_polyline(*point, line@),
{
    let len: usize = line.len();
    let mut i: usize = 0;
    while i + 1 < len
        invariant
            len == line@.len(),
            i + 1 <= len,
            in_bounds(*point),
            border_in_bounds(line@),
            forall|k: int| 0 <= k < i ==> !(#[trigger] point_on_segment(*point, line@[k], line@[k + 1])),
        decreases line@.len() - i,
    {
        if is_point_on_line(point, &line[i], &line[i + 1]) {
            assert(point_on_segment(*point, line@[i as int], line@[i as int + 1]));
            return true;
        }
        i = i + 1;
    }
    false
}

/// The sole collision query: do the two borders touch?
///
/// Dispatches on the border lengths exactly as [`collides`] states: two
/// points collide when equal, a point collides with a polyline when it lies
/// on an edge, and two polylines collide when any pair of edges crosses
/// (parallel and collinear pairs skipped). The first hit short-circuits.
pub fn check_collisions(border1: &Vec<Coord>, border2: &Vec<Coord>) -> (r: bool)
    requires
        border1@.len() >= 1,
        border2@.len() >= 1,
        border_in_bounds(border1@),
        border_in_bounds(border2@),
    ensures
        r == collides(border1@, border2@),
{
    if border1.len() == 1 && border2.len() == 1 {
        // collision between points
        if border1[0].x == border2[0].x && border1[0].y == border2[0].y {
            return true;
        }
    } else if border1.len() == 1 || border2.len() == 1 {
        // collision between point and line
        let (point, line) = if border1.len() == 1 {
            (&border1[0], border2)
        } else {
            (&border2[0], border1)
        };
        if point_meets_polyline(point, line) {
            return true;
        }
    } else {
        // collision between two lines or shapes
        let len1: usize = border1.len();
        let len2: usize = border2.len();
        let mut i: usize = 0;
        while i + 1 < len1
            invariant
                len1 == border1@.len(),
                len2 == border2@.len(),
                i + 1 <= len1,
                len1 >= 2,
                len2 >= 2,
                border_in_bounds(border1@),
                border_in_bounds(border2@),
                forall|k: int, l: int|
                    0 <= k < i && 0 <= l < border2@.len() - 1 ==> !(#[trigger] segments_intersect(
                        border1@[k],
                        border1@[k + 1],
                        border2@[l],
                        border2@[l + 1],
                    )),
            decreases border1@.len() - i,
        {
            let mut j: usize = 0;
            while j + 1 < len2
                invariant
                    len1 == border1@.len(),
                    len2 == border2@.len(),
                    i + 1 < len1,
                    j + 1 <= len2,
                    len2 >= 2,
                    border_in_bounds(border1@),
                    border_in_bounds(border2@),
                    forall|l: int| 0 <= l < j ==> !(#[trigger] segments_intersect(
                        border1@[i as int],
                        border1@[i as int + 1],
                        border2@[l],
                        border2@[l + 1],
                    )),
                decreases border2@.len() - j,
            {
                if do_segments_intersect(&border1[i], &border1[i + 1], &border2[j], &border2[j + 1]) {
                    assert(segments_intersect(
                        border1@[i as int],
                        border1@[i as int + 1],
                        border2@[j as int],
                        border2@[j as int + 1],
                    ));
                    return true;
                }
                j = j + 1;
            }
            i = i + 1;
        }
    }
    false
}

/// The capability of producing a border: any shape that can hand out an
/// ordered coordinate sequence can be passed to the collision engine.
pub trait Collidable {
    /// The border the shape would hand out, as a mathematical sequence.
    spec fn border_spec(&self) -> Seq<Coord>;

    /// Produce the shape's current border.
    fn get_border(&self) -> (b: Vec<Coord>)
        ensures
            b@ == self.border_spec(),
    ;
}

/// Two point borders collide exactly when they hold the same coordinate:
/// every point collides with itself, and no two distinct points collide.
pub proof fn lemma_point_point_collision(p: Coord, q: Coord)
    ensures
        collides(seq![p], seq![q]) <==> p == q,
        collides(seq![p], seq![p]),
{
    assert(seq![p][0] == p);
    assert(seq![q][0] == q);
}

/// Parallel and collinear edge pairs are skipped by design: two single
/// segments whose determinant is zero never report a collision, even when
/// they exactly overlap.
pub proof fn lemma_parallel_segments_skipped(a1: Coord, a2: Coord, b1: Coord, b2: Coord)
    requires
        den_of(a1, a2, b1, b2) == 0,
    ensures
        !collides(seq![a1, a2], seq![b1, b2]),
{
    let a = seq![a1, a2];
    let b = seq![b1, b2];
    assert forall|i: int, j: int|
        0 <= i < a.len() - 1 && 0 <= j < b.len() - 1 implies !(#[trigger] segments_intersect(
        a[i],
        a[i + 1],
        b[j],
        b[j + 1],
    )) by {
        assert(i == 0 && j == 0);
        assert(a[0] == a1 && a[1] == a2 && b[0] == b1 && b[1] == b2);
    }
}

} // verus!
