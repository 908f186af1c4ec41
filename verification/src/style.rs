//! Colours, stroke styles and text anchoring.

use crate::geometry::{Coord, ScreenPoint};
use vstd::prelude::*;

verus! {

/// An RGB colour with an opacity. The opacity is carried as the bit pattern
/// of a double-precision number between zero and one; nothing here reads it,
/// it is handed on unchanged.
#[derive(Clone, Copy, Debug, PartialEq, Eq, Structural)]
pub struct Color {
    pub red: u8,
    pub green: u8,
    pub blue: u8,
    pub alpha_bits: u64,
}

/// How a shape is drawn: its colour and the width of its stroke.
#[derive(Clone, Copy, Debug, PartialEq, Eq, Structural)]
pub struct Style {
    pub color: Color,
    pub stroke_width: u32,
}

/// Where the reference point sits horizontally in a text's bounding box.
#[derive(Clone, Copy, Debug, PartialEq, Eq, Structural)]
pub enum HPos {
    Left,
    Right,
    Center,
}

/// Where the reference point sits vertically in a text's bounding box.
#[derive(Clone, Copy, Debug, PartialEq, Eq, Structural)]
pub enum VPos {
    Top,
    Center,
    Bottom,
}

/// The reference point of a text relative to its bounding box.
#[derive(Clone, Copy, Debug, PartialEq, Eq, Structural)]
pub struct Anchor {
    pub h_pos: HPos,
    pub v_pos: VPos,
}

/// How a text is drawn: its colour and its anchor.
#[derive(Clone, Copy, Debug, PartialEq, Eq, Structural)]
pub struct TextStyle {
    pub color: Color,
    pub anchor: Anchor,
}

/// The measured size of a rendered text, in grid units.
#[derive(Clone, Copy, Debug, PartialEq, Eq, Structural)]
pub struct TextExtents {
    pub width: u32,
    pub height: u32,
}

/// Twice the horizontal offset of the draw origin from the anchored
/// position: nothing for `Left`, minus the width for `Right`, minus half the
/// width for `Center`.
pub open spec fn h_offset_doubled(h: HPos, width: int) -> int {
    match h {
        HPos::Left => 0,
        HPos::Right => -2 * width,
        HPos::Center => -width,
    }
}

/// Twice the vertical offset of the draw origin from the anchored position:
/// the height for `Top`, half the height for `Center`, nothing for `Bottom`.
pub open spec fn v_offset_doubled(v: VPos, height: int) -> int {
    match v {
        VPos::Top => 2 * height,
        VPos::Center => height,
        VPos::Bottom => 0,
    }
}

/// Twice the draw origin of a text of the given extents anchored at `pos`.
/// The origin is kept doubled so that centring an odd extent loses nothing.
pub open spec fn text_origin_doubled(
    pos: Coord,
    extents: TextExtents,
    anchor: Anchor,
) -> ScreenPoint {
    ScreenPoint {
        x: (2 * pos.0 + h_offset_doubled(anchor.h_pos, extents.width as int)) as i64,
        y: (2 * pos.1 + v_offset_doubled(anchor.v_pos, extents.height as int)) as i64,
    }
}

/// Resolves where a text must be drawn so that its anchor lands on `pos`.
/// The result is twice the draw origin.
pub fn resolve_text_origin(pos: Coord, extents: TextExtents, anchor: Anchor) -> (origin:
    ScreenPoint)
    ensures
        origin == text_origin_doubled(pos, extents, anchor),
        origin.x == 2 * pos.0 + h_offset_doubled(anchor.h_pos, extents.width as int),
        origin.y == 2 * pos.1 + v_offset_doubled(anchor.v_pos, extents.height as int),
{
    let w: i64 = extents.width as i64;
    let h: i64 = extents.height as i64;
    let x: i64 = pos.0 as i64;
    let y: i64 = pos.1 as i64;
    let dx: i64 = match anchor.h_pos {
        HPos::Left => 0,
        HPos::Right => 0 - w - w,
        HPos::Center => 0 - w,
    };
    let dy: i64 = match anchor.v_pos {
        VPos::Top => h + h,
        VPos::Center => h,
        VPos::Bottom => 0,
    };
    ScreenPoint { x: x + x + dx, y: y + y + dy }
}

} // verus!
