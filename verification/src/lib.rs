//! A drawing backend that turns abstract 2-D drawing requests (pixels, lines,
//! rectangles, open paths, filled polygons, anchored text) into the small set
//! of primitives an immediate-mode draw list accepts.
//!
//! All geometry in this crate is integral. The emitter keeps no state beyond
//! the surface size: each drawing operation appends [`Primitive`] values to a
//! draw list that the caller owns, and states exactly which ones.

pub mod backend;
pub mod geometry;
pub mod primitive;
pub mod style;

pub use backend::{all_below, ImguiBackend, ImguiError};
pub use geometry::{flatten_coords, imgui_point, imgui_point_past, Coord, ScreenPoint};
pub use primitive::Primitive;
pub use style::{resolve_text_origin, Anchor, Color, HPos, Style, TextExtents, TextStyle, VPos};
