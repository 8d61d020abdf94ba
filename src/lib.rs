//! Text layout: itemization by script and font coverage, and retained layout sessions.

use vstd::prelude::*;

pub mod collection;
pub mod hb_layout;
pub mod segment;
pub mod session;
pub mod tables;
pub mod text;
pub mod unicode_funcs;

pub use crate::collection::{FontCollection, FontFamily, FontRef};
pub use crate::hb_layout::{build_fragment, layout_fragment, ShapedGlyph};
pub use crate::session::{GlyphInfo, LayoutFragment, LayoutRangeIter, LayoutRun, LayoutSession};
pub use font_kit::properties::Style;

verus! {

/// font_kit's face style, held opaquely.
#[verifier::external_type_specification]
#[verifier::external_body]
pub struct ExStyle(font_kit::properties::Style);

/// Relies on the `Default` of font_kit's `Style`, which is the upright style, `Normal`.
pub assume_specification[ <font_kit::properties::Style as Default>::default ]() -> font_kit::properties::Style;

/// Size and style of text.
#[derive(Clone, Copy)]
pub struct TextStyle {
    /// The size in 1/64 of a point.
    pub size: u32,
    pub style: font_kit::properties::Style,
}

impl TextStyle {
    /// The upright style at `size`, in 1/64 of a point.
    pub fn from_size(size: u32) -> (r: TextStyle)
        ensures
            r.size == size,
    {
        TextStyle { size, style: font_kit::properties::Style::default() }
    }
}

} // verus!
