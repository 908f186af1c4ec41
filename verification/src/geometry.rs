//! Coordinates of the abstract drawing surface and of the host surface.

use vstd::prelude::*;

verus! {

/// A point of the abstract drawing surface's pixel grid.
pub type Coord = (i32, i32);

/// A point in the host surface's coordinate space. The host space is wide
/// enough that the far corner of a pixel at the edge of the grid still has
/// exact coordinates.
#[derive(Clone, Copy, Debug, PartialEq, Eq, Structural)]
pub struct ScreenPoint {
    pub x: i64,
    pub y: i64,
}

/// The host-space point of a grid coordinate: the same numbers, neither
/// scaled nor clipped.
pub open spec fn screen_point(c: Coord) -> ScreenPoint {
    ScreenPoint { x: c.0 as i64, y: c.1 as i64 }
}

/// The host-space point one unit right of and one unit below `c`.
pub open spec fn screen_point_past(c: Coord) -> ScreenPoint {
    ScreenPoint { x: (c.0 + 1) as i64, y: (c.1 + 1) as i64 }
}

/// The coordinates of `points` laid out one after another:
/// `x0, y0, x1, y1, ...`.
pub open spec fn flatten(points: Seq<Coord>) -> Seq<i32> {
    Seq::new(2 * points.len(), |i: int| if i % 2 == 0 { points[i / 2].0 } else { points[i / 2].1 })
}

/// Maps a grid coordinate into the host surface's space.
pub fn imgui_point(point: Coord) -> (p: ScreenPoint)
    ensures
        p == screen_point(point),
        p.x == point.0,
        p.y == point.1,
{
    ScreenPoint { x: point.0 as i64, y: point.1 as i64 }
}

/// The corner diagonally opposite `point` in the unit square that `point`
/// names.
pub fn imgui_point_past(point: Coord) -> (p: ScreenPoint)
    ensures
        p == screen_point_past(point),
        p.x == point.0 + 1,
        p.y == point.1 + 1,
{
    ScreenPoint { x: point.0 as i64 + 1, y: point.1 as i64 + 1 }
}

/// Lays a polygon's boundary out as the flat buffer a triangulator reads.
/// A boundary of fewer than three points encloses nothing and yields `None`,
/// so that no triangulator is ever run on it.
pub fn flatten_coords(points: &Vec<Coord>) -> (flat: Option<Vec<i32>>)
    ensures
        points.len() < 3 <==> flat is None,
        flat matches Some(v) ==> v@ == flatten(points@),
        flat matches Some(v) ==> v@.len() == 2 * points@.len() && forall|k: int|
            0 <= k < points@.len() ==> v@[2 * k] == points@[k].0 && v@[2 * k + 1] == points@[k].1,
{
    let n = points.len();
    if n < 3 {
        return None;
    }
    let mut v: Vec<i32> = Vec::new();
    let mut i: usize = 0;
    while i < n
        invariant
            n == points.len(),
            i <= n,
            v@ == flatten(points@.take(i as int)),
        decreases n - i,
    {
        let c = points[i];
        v.push(c.0);
        v.push(c.1);
        i += 1;
        assert(v@ =~= flatten(points@.take(i as int)));
    }
    assert(points@.take(n as int) =~= points@);
    Some(v)
}

} // verus!
