//! The primitives a host draw list accepts, and which of them each drawing
//! request stands for.

use crate::geometry::{screen_point, screen_point_past, Coord, ScreenPoint};
use crate::style::{Color, Style};
use vstd::prelude::*;

verus! {

/// One command of a host draw list.
#[derive(Debug, PartialEq, Eq)]
pub enum Primitive {
    /// A rectangle between two opposite corners.
    Rect { p1: ScreenPoint, p2: ScreenPoint, color: Color, thickness: u32, filled: bool },
    /// A line segment from `p1` to `p2`.
    Line { p1: ScreenPoint, p2: ScreenPoint, color: Color, thickness: u32 },
    /// A triangle through three corners.
    Triangle {
        p1: ScreenPoint,
        p2: ScreenPoint,
        p3: ScreenPoint,
        color: Color,
        thickness: u32,
        filled: bool,
    },
    /// A text whose draw origin is half of `origin_doubled`.
    Text { origin_doubled: ScreenPoint, color: Color, text: String },
}

/// The stroke thickness of a rectangle for which none was asked.
pub const DEFAULT_THICKNESS: u32 = 1;

/// A pixel: the filled unit square from `point` to `point + (1, 1)`.
pub open spec fn pixel_rect(point: Coord, color: Color) -> Primitive {
    Primitive::Rect {
        p1: screen_point(point),
        p2: screen_point_past(point),
        color,
        thickness: DEFAULT_THICKNESS,
        filled: true,
    }
}

/// The line segment from `from` to `to` in the given style.
pub open spec fn line_primitive(from: Coord, to: Coord, style: Style) -> Primitive {
    Primitive::Line {
        p1: screen_point(from),
        p2: screen_point(to),
        color: style.color,
        thickness: style.stroke_width,
    }
}

/// The rectangle between two corners in the given style.
pub open spec fn rect_primitive(
    upper_left: Coord,
    bottom_right: Coord,
    style: Style,
    fill: bool,
) -> Primitive {
    Primitive::Rect {
        p1: screen_point(upper_left),
        p2: screen_point(bottom_right),
        color: style.color,
        thickness: style.stroke_width,
        filled: fill,
    }
}

/// A filled triangle without a stroke, so that neighbouring triangles show
/// no seam.
pub open spec fn triangle_primitive(a: Coord, b: Coord, c: Coord, color: Color) -> Primitive {
    Primitive::Triangle {
        p1: screen_point(a),
        p2: screen_point(b),
        p3: screen_point(c),
        color,
        thickness: 0,
        filled: true,
    }
}

/// The number of segments of an open path of `points` points.
pub open spec fn segment_count(points: nat) -> nat {
    if points >= 1 {
        (points - 1) as nat
    } else {
        0
    }
}

/// The segments of an open path: segment `i` joins point `i` to point
/// `i + 1`; the last point is not joined to the first.
pub open spec fn path_lines(path: Seq<Coord>, style: Style) -> Seq<Primitive> {
    Seq::new(segment_count(path.len()), |i: int| line_primitive(path[i], path[i + 1], style))
}

/// Whether each index names one of `n` vertices.
pub open spec fn indices_in_range(indices: Seq<usize>, n: nat) -> bool {
    forall|i: int| 0 <= i < indices.len() ==> (#[trigger] indices[i]) < n
}

/// The triangles that a list of vertex indices stands for: each full group
/// of three indices is one triangle over the vertices they name, in the
/// order given. Indices left over after the last full group are ignored.
pub open spec fn polygon_triangles(points: Seq<Coord>, indices: Seq<usize>, color: Color) -> Seq<
    Primitive,
> {
    Seq::new(
        (indices.len() / 3) as nat,
        |k: int|
            triangle_primitive(
                points[indices[3 * k] as int],
                points[indices[3 * k + 1] as int],
                points[indices[3 * k + 2] as int],
                color,
            ),
    )
}

/// Whether `p` is the host-space point of one of the polygon's vertices.
pub open spec fn is_vertex(points: Seq<Coord>, p: ScreenPoint) -> bool {
    exists|j: int| 0 <= j < points.len() && screen_point(#[trigger] points[j]) == p
}

/// Whether `p` is a filled, unstroked triangle in `color` whose three
/// corners are vertices of the polygon.
pub open spec fn is_fill_triangle(points: Seq<Coord>, color: Color, p: Primitive) -> bool {
    p matches Primitive::Triangle { p1, p2, p3, color: c, thickness, filled } && is_vertex(
        points,
        p1,
    ) && is_vertex(points, p2) && is_vertex(points, p3) && c == color && thickness == 0 && filled
}

/// A triangulation that spends `n - 2` index triples on a polygon of
/// `n >= 3` vertices stands for exactly `n - 2` triangles.
pub proof fn lemma_triangle_count(points: Seq<Coord>, indices: Seq<usize>, color: Color)
    requires
        points.len() >= 3,
        indices.len() == 3 * (points.len() - 2),
    ensures
        polygon_triangles(points, indices, color).len() == points.len() - 2,
{
}

/// Filling never leaves the polygon's own vertices: every triangle that a
/// list of valid indices stands for is filled, unstroked, in the asked
/// colour, and has three of the polygon's vertices as its corners.
pub proof fn lemma_triangles_span_vertices(points: Seq<Coord>, indices: Seq<usize>, color: Color)
    requires
        indices_in_range(indices, points.len()),
    ensures
        forall|k: int|
            0 <= k < polygon_triangles(points, indices, color).len() ==> is_fill_triangle(
                points,
                color,
                #[trigger] polygon_triangles(points, indices, color)[k],
            ),
{
    let triangles = polygon_triangles(points, indices, color);
    assert forall|k: int| 0 <= k < triangles.len() implies is_fill_triangle(
        points,
        color,
        #[trigger] triangles[k],
    ) by {
        assert(is_vertex(points, screen_point(points[indices[3 * k] as int])));
        assert(is_vertex(points, screen_point(points[indices[3 * k + 1] as int])));
        assert(is_vertex(points, screen_point(points[indices[3 * k + 2] as int])));
    }
}

/// An open path of `k` points has `max(0, k - 1)` segments; segment `i`
/// runs from point `i` to point `i + 1`, and none runs from the last point
/// back to the first.
pub proof fn lemma_path_segments(path: Seq<Coord>, style: Style)
    ensures
        path.len() == 0 ==> path_lines(path, style).len() == 0,
        path.len() >= 1 ==> path_lines(path, style).len() == path.len() - 1,
        forall|i: int|
            0 <= i < path.len() - 1 ==> #[trigger] path_lines(path, style)[i] == line_primitive(
                path[i],
                path[i + 1],
                style,
            ),
{
}

/// Whether `p` is the text `text` drawn in `color` at half of
/// `origin_doubled`.
pub open spec fn is_text(
    p: Primitive,
    origin_doubled: ScreenPoint,
    color: Color,
    text: Seq<char>,
) -> bool {
    p matches Primitive::Text { origin_doubled: o, color: c, text: t } && o == origin_doubled && c
        == color && t@ == text
}

} // verus!
