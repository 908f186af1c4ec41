//! The emitter: one method per drawing request, each appending to the draw
//! list the primitives the request stands for.

use crate::geometry::{imgui_point, imgui_point_past, Coord};
use crate::primitive::{
    indices_in_range, is_text, line_primitive, path_lines, pixel_rect, polygon_triangles,
    rect_primitive, segment_count, Primitive, DEFAULT_THICKNESS,
};
use crate::style::{resolve_text_origin, text_origin_doubled, Color, Style, TextExtents, TextStyle};
use vstd::prelude::*;

verus! {

/// The one error a drawing request can end in: something the emitter relies
/// on, the host surface or a triangulator, did not do its part.
#[derive(Clone, Copy, Debug, PartialEq, Eq, Structural)]
pub struct ImguiError;

impl ImguiError {
    /// The error's text.
    pub fn message(&self) -> (s: String)
        ensures
            s@ == "ImguiError"@,
    {
        "ImguiError".to_owned()
    }
}

/// A drawing surface of fixed size. It keeps no draw list of its own: each
/// request appends its primitives to the list the caller hands in, and
/// leaves what the list already holds as it is.
#[derive(Debug)]
pub struct ImguiBackend {
    size: (u32, u32),
}

impl ImguiBackend {
    /// The surface's width and height.
    pub closed spec fn surface_size(&self) -> (u32, u32) {
        self.size
    }

    /// A surface of the given size.
    pub fn new(size: (u32, u32)) -> (backend: Self)
        ensures
            backend.surface_size() == size,
    {
        Self { size }
    }

    /// The size the surface was made with.
    pub fn get_size(&self) -> (size: (u32, u32))
        ensures
            size == self.surface_size(),
    {
        self.size
    }

    /// Nothing has to be prepared before a frame: always succeeds and
    /// changes nothing.
    pub fn ensure_prepared(&mut self) -> (r: Result<(), ImguiError>)
        ensures
            r is Ok,
            *final(self) == *old(self),
    {
        Ok(())
    }

    /// Nothing has to be flushed after a frame: always succeeds and changes
    /// nothing.
    pub fn present(&mut self) -> (r: Result<(), ImguiError>)
        ensures
            r is Ok,
            *final(self) == *old(self),
    {
        Ok(())
    }

    /// Draws one pixel as the filled unit square from `point` to
    /// `point + (1, 1)`.
    pub fn draw_pixel(
        &mut self,
        draw_list: &mut Vec<Primitive>,
        point: Coord,
        color: Color,
    ) -> (r: Result<(), ImguiError>)
        ensures
            r is Ok,
            *final(self) == *old(self),
            final(draw_list)@ == old(draw_list)@.push(pixel_rect(point, color)),
    {
        draw_list.push(
            Primitive::Rect {
                p1: imgui_point(point),
                p2: imgui_point_past(point),
                color,
                thickness: DEFAULT_THICKNESS,
                filled: true,
            },
        );
        Ok(())
    }

    /// Draws one line segment from `from` to `to`, as thick as the style's
    /// stroke.
    pub fn draw_line(
        &mut self,
        draw_list: &mut Vec<Primitive>,
        from: Coord,
        to: Coord,
        style: &Style,
    ) -> (r: Result<(), ImguiError>)
        ensures
            r is Ok,
            *final(self) == *old(self),
            final(draw_list)@ == old(draw_list)@.push(line_primitive(from, to, *style)),
    {
        draw_list.push(
            Primitive::Line {
                p1: imgui_point(from),
                p2: imgui_point(to),
                color: style.color,
                thickness: style.stroke_width,
            },
        );
        Ok(())
    }

    /// Draws one rectangle between two corners, filled or not as asked.
    pub fn draw_rect(
        &mut self,
        draw_list: &mut Vec<Primitive>,
        upper_left: Coord,
        bottom_right: Coord,
        style: &Style,
        fill: bool,
    ) -> (r: Result<(), ImguiError>)
        ensures
            r is Ok,
            *final(self) == *old(self),
            final(draw_list)@ == old(draw_list)@.push(
                rect_primitive(upper_left, bottom_right, *style, fill),
            ),
    {
        draw_list.push(
            Primitive::Rect {
                p1: imgui_point(upper_left),
                p2: imgui_point(bottom_right),
                color: style.color,
                thickness: style.stroke_width,
                filled: fill,
            },
        );
        Ok(())
    }

    /// Draws an open path as one line per pair of consecutive points, in
    /// order. A path of fewer than two points draws nothing.
    pub fn draw_path(
        &mut self,
        draw_list: &mut Vec<Primitive>,
        path: &Vec<Coord>,
        style: &Style,
    ) -> (r: Result<(), ImguiError>)
        ensures
            r is Ok,
            *final(self) == *old(self),
            final(draw_list)@ == old(draw_list)@ + path_lines(path@, *style),
            final(draw_list)@.len() == old(draw_list)@.len() + segment_count(path@.len()),
            forall|i: int|
                0 <= i < path@.len() - 1 ==> #[trigger] final(draw_list)@[old(draw_list)@.len()
                    + i] == line_primitive(path@[i], path@[i + 1], *style),
    {
        let n = path.len();
        let ghost lines = path_lines(path@, *style);
        if n == 0 {
            assert(draw_list@ =~= old(draw_list)@ + lines);
            return Ok(());
        }
        let mut i: usize = 1;
        assert(draw_list@ =~= old(draw_list)@ + lines.take(0));
        while i < n
            invariant
                n == path.len(),
                1 <= i <= n,
                lines == path_lines(path@, *style),
                *self == *old(self),
                draw_list@ == old(draw_list)@ + lines.take(i - 1),
            decreases n - i,
        {
            let ghost before = draw_list@;
            let _ = self.draw_line(draw_list, path[i - 1], path[i], style);
            assert(before.push(lines[i - 1]) =~= old(draw_list)@ + lines.take(i as int));
            i += 1;
        }
        assert(lines.take(n - 1) =~= lines);
        Ok(())
    }

    /// Fills a polygon with the triangles of a triangulation of its
    /// boundary. `indices` is the triangulation: three vertex indices per
    /// triangle.
    ///
    /// A boundary of fewer than three points encloses nothing: nothing is
    /// drawn, whatever `indices` holds. Otherwise one filled, unstroked
    /// triangle is drawn per full group of three indices, in order. An
    /// index that names no vertex is an error, and then nothing is drawn.
    pub fn fill_polygon(
        &mut self,
        draw_list: &mut Vec<Primitive>,
        path: &Vec<Coord>,
        indices: &Vec<usize>,
        style: &Style,
    ) -> (r: Result<(), ImguiError>)
        ensures
            *final(self) == *old(self),
            r is Ok <==> path@.len() < 3 || indices_in_range(indices@, path@.len()),
            r is Err ==> final(draw_list)@ == old(draw_list)@,
            path@.len() < 3 ==> final(draw_list)@ == old(draw_list)@,
            path@.len() >= 3 && r is Ok ==> final(draw_list)@ == old(draw_list)@
                + polygon_triangles(path@, indices@, style.color),
            path@.len() >= 3 && r is Ok ==> final(draw_list)@.len() == old(draw_list)@.len()
                + indices@.len() / 3,
    {
        let n = path.len();
        if n < 3 {
            return Ok(());
        }
        if !all_below(indices, n) {
            return Err(ImguiError);
        }
        let m = indices.len();
        let ghost triangles = polygon_triangles(path@, indices@, style.color);
        let mut i: usize = 0;
        assert(draw_list@ =~= old(draw_list)@ + triangles.take(0));
        while m - i >= 3
            invariant
                n == path.len(),
                m == indices.len(),
                i <= m,
                i % 3 == 0,
                indices_in_range(indices@, n as nat),
                triangles == polygon_triangles(path@, indices@, style.color),
                *self == *old(self),
                draw_list@ == old(draw_list)@ + triangles.take(i as int / 3),
            decreases m - i,
        {
            let ghost before = draw_list@;
            let ghost k = i as int / 3;
            assert(3 * k == i);
            assert(k < triangles.len());
            draw_list.push(
                Primitive::Triangle {
                    p1: imgui_point(path[indices[i]]),
                    p2: imgui_point(path[indices[i + 1]]),
                    p3: imgui_point(path[indices[i + 2]]),
                    color: style.color,
                    thickness: 0,
                    filled: true,
                },
            );
            assert(before.push(triangles[k]) =~= old(draw_list)@ + triangles.take(k + 1));
            i += 3;
        }
        assert(i as int / 3 == m as int / 3);
        assert(triangles.take(i as int / 3) =~= triangles);
        Ok(())
    }

    /// Draws a text so that the anchor of its style lands on `pos`.
    /// `extents` is the measured size of the rendered text.
    pub fn draw_text(
        &mut self,
        draw_list: &mut Vec<Primitive>,
        text: &str,
        style: &TextStyle,
        pos: Coord,
        extents: TextExtents,
    ) -> (r: Result<(), ImguiError>)
        ensures
            r is Ok,
            *final(self) == *old(self),
            final(draw_list)@.len() == old(draw_list)@.len() + 1,
            final(draw_list)@.drop_last() == old(draw_list)@,
            is_text(
                final(draw_list)@.last(),
                text_origin_doubled(pos, extents, style.anchor),
                style.color,
                text@,
            ),
    {
        let origin = resolve_text_origin(pos, extents, style.anchor);
        draw_list.push(
            Primitive::Text { origin_doubled: origin, color: style.color, text: text.to_owned() },
        );
        assert(draw_list@.drop_last() =~= old(draw_list)@);
        Ok(())
    }
}

/// Whether every index names one of `n` vertices, that is, is below `n`.
pub fn all_below(indices: &Vec<usize>, n: usize) -> (ok: bool)
    ensures
        ok == indices_in_range(indices@, n as nat),
{
    let mut i: usize = 0;
    while i < indices.len()
        invariant
            i <= indices.len(),
            forall|j: int| 0 <= j < i ==> (#[trigger] indices@[j]) < n,
        decreases indices.len() - i,
    {
        if indices[i] >= n {
            return false;
        }
        i += 1;
    }
    true
}

} // verus!
