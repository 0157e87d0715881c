//! Positions and spans within the shared append-only encoding stream.

use vstd::prelude::*;

verus! {

/// A position in the shared encoding stream, as one counter per stream
/// section: path tag bytes, path data words, draw tags, draw data words,
/// transforms and styles.
#[derive(Clone, Copy, PartialEq, Eq, Structural, Debug, Default)]
pub struct StreamOffsets {
    pub path_tags: usize,
    pub path_data: usize,
    pub draw_tags: usize,
    pub draw_data: usize,
    pub transforms: usize,
    pub styles: usize,
}

impl StreamOffsets {
    /// Component-wise order: `self` lies at or before `other` in the stream.
    pub open spec fn le(self, other: StreamOffsets) -> bool {
        &&& self.path_tags <= other.path_tags
        &&& self.path_data <= other.path_data
        &&& self.draw_tags <= other.draw_tags
        &&& self.draw_data <= other.draw_data
        &&& self.transforms <= other.transforms
        &&& self.styles <= other.styles
    }

    /// The position at the very start of an empty stream.
    pub open spec fn spec_zero() -> StreamOffsets {
        StreamOffsets {
            path_tags: 0,
            path_data: 0,
            draw_tags: 0,
            draw_data: 0,
            transforms: 0,
            styles: 0,
        }
    }

    /// Returns the zero position, the start of an empty stream.
    pub fn zero() -> (o: StreamOffsets)
        ensures
            o == StreamOffsets::spec_zero(),
    {
        StreamOffsets { path_tags: 0, path_data: 0, draw_tags: 0, draw_data: 0, transforms: 0, styles: 0 }
    }
}

/// The span of the shared encoding stream holding one encoded glyph:
/// everything from `start` (inclusive) to `end` (exclusive).
///
/// The stream is append-only, so `end` never lies before `start`.
#[derive(Clone, Copy, PartialEq, Eq, Structural, Debug, Default)]
pub struct CachedRange {
    pub start: StreamOffsets,
    pub end: StreamOffsets,
}

impl CachedRange {
    /// The range is a forward span: `start` at or before `end`, component-wise.
    pub open spec fn wf(self) -> bool {
        self.start.le(self.end)
    }

    /// The size of the span: the component-wise difference of `end` and
    /// `start`.
    pub fn len(&self) -> (o: StreamOffsets)
        requires
            self.wf(),
        ensures
            o.path_tags == self.end.path_tags - self.start.path_tags,
            o.path_data == self.end.path_data - self.start.path_data,
            o.draw_tags == self.end.draw_tags - self.start.draw_tags,
            o.draw_data == self.end.draw_data - self.start.draw_data,
            o.transforms == self.end.transforms - self.start.transforms,
            o.styles == self.end.styles - self.start.styles,
    {
        StreamOffsets {
            path_tags: self.end.path_tags - self.start.path_tags,
            path_data: self.end.path_data - self.start.path_data,
            draw_tags: self.end.draw_tags - self.start.draw_tags,
            draw_data: self.end.draw_data - self.start.draw_data,
            transforms: self.end.transforms - self.start.transforms,
            styles: self.end.styles - self.start.styles,
        }
    }
}

} // verus!
