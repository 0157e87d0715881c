//! Path elements and the layout of their encoding in the stream.
//!
//! A glyph outline reaches the encoder as a sequence of [`PathElement`]s.
//! Coordinates are carried as the bit patterns of their single-precision
//! values; the encoder never interprets them, it only lays them down.
//!
//! The encoding of a sequence is defined here as a small state machine
//! folded over the elements: a drawing element (line, quadratic, cubic) or a
//! close is encoded only while a subpath is open, that is after a move and
//! before the next close. Elements outside an open subpath are skipped, so
//! a degenerate outline (no drawing element inside a subpath) encodes to
//! zero segments.

use vstd::prelude::*;

verus! {

/// Tag byte for a move in the path tag stream.
pub const TAG_MOVE: u8 = 1;

/// Tag byte for a line segment.
pub const TAG_LINE: u8 = 2;

/// Tag byte for a quadratic segment.
pub const TAG_QUAD: u8 = 3;

/// Tag byte for a cubic segment.
pub const TAG_CUBIC: u8 = 4;

/// Tag byte closing the open subpath.
pub const TAG_CLOSE: u8 = 5;

/// One element of a glyph path. Coordinates are bit patterns of
/// single-precision values, stored as plain 32-bit words.
#[derive(Copy, Clone, PartialEq, Eq, Structural, Debug)]
pub enum PathElement {
    MoveTo { x: u32, y: u32 },
    LineTo { x: u32, y: u32 },
    QuadTo { x0: u32, y0: u32, x1: u32, y1: u32 },
    CurveTo { x0: u32, y0: u32, x1: u32, y1: u32, x2: u32, y2: u32 },
    Close,
}

/// Whether a subpath is open after this element, given whether one was open
/// before it.
pub open spec fn el_opens(e: PathElement, open: bool) -> bool {
    match e {
        PathElement::MoveTo { .. } => true,
        PathElement::Close => false,
        _ => open,
    }
}

/// The tag bytes this element appends, given whether a subpath is open.
pub open spec fn el_tags(e: PathElement, open: bool) -> Seq<u8> {
    match e {
        PathElement::MoveTo { .. } => seq![TAG_MOVE],
        PathElement::LineTo { .. } => if open {
            seq![TAG_LINE]
        } else {
            Seq::empty()
        },
        PathElement::QuadTo { .. } => if open {
            seq![TAG_QUAD]
        } else {
            Seq::empty()
        },
        PathElement::CurveTo { .. } => if open {
            seq![TAG_CUBIC]
        } else {
            Seq::empty()
        },
        PathElement::Close => if open {
            seq![TAG_CLOSE]
        } else {
            Seq::empty()
        },
    }
}

/// The coordinate words this element appends, given whether a subpath is
/// open.
pub open spec fn el_data(e: PathElement, open: bool) -> Seq<u32> {
    match e {
        PathElement::MoveTo { x, y } => seq![x, y],
        PathElement::LineTo { x, y } => if open {
            seq![x, y]
        } else {
            Seq::empty()
        },
        PathElement::QuadTo { x0, y0, x1, y1 } => if open {
            seq![x0, y0, x1, y1]
        } else {
            Seq::empty()
        },
        PathElement::CurveTo { x0, y0, x1, y1, x2, y2 } => if open {
            seq![x0, y0, x1, y1, x2, y2]
        } else {
            Seq::empty()
        },
        PathElement::Close => Seq::empty(),
    }
}

/// The drawn segments this element contributes: one for a line, quadratic
/// or cubic inside an open subpath, none otherwise.
pub open spec fn el_segments(e: PathElement, open: bool) -> nat {
    match e {
        PathElement::LineTo { .. } => if open {
            1
        } else {
            0
        },
        PathElement::QuadTo { .. } => if open {
            1
        } else {
            0
        },
        PathElement::CurveTo { .. } => if open {
            1
        } else {
            0
        },
        _ => 0,
    }
}

/// Tag bytes of a whole element sequence, folded from the front.
pub open spec fn tags_from(els: Seq<PathElement>, open: bool) -> Seq<u8>
    decreases els.len(),
{
    if els.len() == 0 {
        Seq::empty()
    } else {
        el_tags(els[0], open) + tags_from(els.drop_first(), el_opens(els[0], open))
    }
}

/// Coordinate words of a whole element sequence, folded from the front.
pub open spec fn data_from(els: Seq<PathElement>, open: bool) -> Seq<u32>
    decreases els.len(),
{
    if els.len() == 0 {
        Seq::empty()
    } else {
        el_data(els[0], open) + data_from(els.drop_first(), el_opens(els[0], open))
    }
}

/// Drawn segment count of a whole element sequence, folded from the front.
pub open spec fn segments_from(els: Seq<PathElement>, open: bool) -> nat
    decreases els.len(),
{
    if els.len() == 0 {
        0
    } else {
        el_segments(els[0], open) + segments_from(els.drop_first(), el_opens(els[0], open))
    }
}

/// Tag bytes of an outline encoded from scratch (no open subpath).
pub open spec fn path_tags_of(els: Seq<PathElement>) -> Seq<u8> {
    tags_from(els, false)
}

/// Coordinate words of an outline encoded from scratch.
pub open spec fn path_data_of(els: Seq<PathElement>) -> Seq<u32> {
    data_from(els, false)
}

/// Drawn segment count of an outline encoded from scratch.
pub open spec fn segment_count(els: Seq<PathElement>) -> nat {
    segments_from(els, false)
}

/// Unfolds the three folds one element at a time: processing the suffix from
/// position `i` is processing element `i` and then the suffix from `i + 1`.
pub proof fn lemma_fold_step(els: Seq<PathElement>, i: int, open: bool)
    requires
        0 <= i < els.len(),
    ensures
        tags_from(els.skip(i), open) == el_tags(els[i], open) + tags_from(
            els.skip(i + 1),
            el_opens(els[i], open),
        ),
        data_from(els.skip(i), open) == el_data(els[i], open) + data_from(
            els.skip(i + 1),
            el_opens(els[i], open),
        ),
        segments_from(els.skip(i), open) == el_segments(els[i], open) + segments_from(
            els.skip(i + 1),
            el_opens(els[i], open),
        ),
{
    assert(els.skip(i)[0] == els[i]);
    assert(els.skip(i).drop_first() =~= els.skip(i + 1));
}

} // verus!
