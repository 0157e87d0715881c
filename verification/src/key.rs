//! Glyph identity and the request styles the cache distinguishes.

use vstd::prelude::*;

verus! {

/// Exact identity of one cacheable glyph instance.
///
/// Equality is exact over all five fields. The font size is stored as the
/// bit pattern of its single-precision representation, so two sizes that
/// print identically but differ in bits are distinct keys.
///
/// The key deliberately excludes the request style and the variation
/// coordinates; only requests for which both are fixed by the eligibility
/// rule are ever stored under it.
#[derive(Copy, Clone, PartialEq, Eq, Structural, Hash, Default, Debug)]
pub struct GlyphKey {
    pub font_id: u64,
    pub font_index: u32,
    pub glyph_id: u32,
    pub font_size_bits: u32,
    pub hint: bool,
}

/// Winding rule deciding which regions a self-overlapping contour fills.
#[derive(Copy, Clone, PartialEq, Eq, Structural, Debug)]
pub enum FillRule {
    NonZero,
    EvenOdd,
}

/// The rendering style of one glyph request.
///
/// Stroke parameters (width, caps, joins, dashing) are opaque to this core:
/// they only steer the expansion of the outline into fill geometry, which
/// happens before the geometry reaches the encoder.
#[derive(Copy, Clone, PartialEq, Eq, Structural, Debug)]
pub enum GlyphStyle {
    Fill(FillRule),
    Stroke,
}

/// The eligibility rule: a request may be memoized iff it is a
/// non-zero-winding fill of the non-variable (default) instance.
///
/// Anything else would be stored under a key that does not record the style
/// or the variation coordinates, and a later request could silently reuse
/// the wrong geometry.
pub open spec fn eligible(style: GlyphStyle, coords: Seq<i16>) -> bool {
    style == GlyphStyle::Fill(FillRule::NonZero) && coords.len() == 0
}

/// The winding rule actually encoded for a request: a fill keeps its own
/// rule; a stroked outline is always filled with non-zero winding once it
/// has been expanded to fill geometry.
pub open spec fn effective_rule(style: GlyphStyle) -> FillRule {
    match style {
        GlyphStyle::Fill(rule) => rule,
        GlyphStyle::Stroke => FillRule::NonZero,
    }
}

} // verus!
