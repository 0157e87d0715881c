//! The shared append-only encoding stream and the glyph encode procedure.

use vstd::prelude::*;

use crate::key::FillRule;
use crate::offsets::CachedRange;
use crate::offsets::StreamOffsets;
use crate::path::data_from;
use crate::path::el_data;
use crate::path::el_opens;
use crate::path::el_segments;
use crate::path::el_tags;
use crate::path::lemma_fold_step;
use crate::path::path_data_of;
use crate::path::path_tags_of;
use crate::path::segment_count;
use crate::path::segments_from;
use crate::path::tags_from;
use crate::path::PathElement;
use crate::path::TAG_CLOSE;
use crate::path::TAG_CUBIC;
use crate::path::TAG_LINE;
use crate::path::TAG_MOVE;
use crate::path::TAG_QUAD;

verus! {

/// The abstract contents of the stream: one sequence per section.
#[verifier::ext_equal]
pub struct EncodingModel {
    pub path_tags: Seq<u8>,
    pub path_data: Seq<u32>,
    pub draw_tags: Seq<u32>,
    pub draw_data: Seq<u32>,
    pub transforms: Seq<u32>,
    pub styles: Seq<u32>,
}

impl EncodingModel {
    /// The position at the current end of the stream: the length of each
    /// section.
    pub open spec fn offsets(self) -> StreamOffsets {
        StreamOffsets {
            path_tags: self.path_tags.len() as usize,
            path_data: self.path_data.len() as usize,
            draw_tags: self.draw_tags.len() as usize,
            draw_data: self.draw_data.len() as usize,
            transforms: self.transforms.len() as usize,
            styles: self.styles.len() as usize,
        }
    }

    /// The model of an empty stream.
    pub open spec fn empty() -> EncodingModel {
        EncodingModel {
            path_tags: Seq::empty(),
            path_data: Seq::empty(),
            draw_tags: Seq::empty(),
            draw_data: Seq::empty(),
            transforms: Seq::empty(),
            styles: Seq::empty(),
        }
    }

    /// Every section is short enough for its length to be a position. This
    /// holds of every stream an [`Encoding`] value can actually hold.
    pub open spec fn fits(self) -> bool {
        &&& self.path_tags.len() <= usize::MAX
        &&& self.path_data.len() <= usize::MAX
        &&& self.draw_tags.len() <= usize::MAX
        &&& self.draw_data.len() <= usize::MAX
        &&& self.transforms.len() <= usize::MAX
        &&& self.styles.len() <= usize::MAX
    }
}

/// The word a winding rule is recorded as in the style section.
pub open spec fn style_word(rule: FillRule) -> u32 {
    match rule {
        FillRule::NonZero => 0,
        FillRule::EvenOdd => 1,
    }
}

/// The stream after one glyph encode: a style record carrying the winding
/// rule, then the tag bytes and coordinate words of the outline's path
/// record. The draw and transform sections are this core's to count but not
/// to write.
pub open spec fn glyph_encoded(
    m: EncodingModel,
    rule: FillRule,
    els: Seq<PathElement>,
) -> EncodingModel {
    EncodingModel {
        path_tags: m.path_tags + path_tags_of(els),
        path_data: m.path_data + path_data_of(els),
        styles: m.styles.push(style_word(rule)),
        ..m
    }
}

/// The shared append-only output stream being encoded into.
///
/// Path geometry is stored section by section: tag bytes describing the
/// shape of each record and coordinate words carrying its data. Positions in
/// the stream are [`StreamOffsets`], one counter per section.
pub struct Encoding {
    pub path_tags: Vec<u8>,
    pub path_data: Vec<u32>,
    pub draw_tags: Vec<u32>,
    pub draw_data: Vec<u32>,
    pub transforms: Vec<u32>,
    pub styles: Vec<u32>,
}

impl View for Encoding {
    type V = EncodingModel;

    open spec fn view(&self) -> EncodingModel {
        EncodingModel {
            path_tags: self.path_tags@,
            path_data: self.path_data@,
            draw_tags: self.draw_tags@,
            draw_data: self.draw_data@,
            transforms: self.transforms@,
            styles: self.styles@,
        }
    }
}

impl Default for Encoding {
    /// An empty stream.
    fn default() -> (e: Encoding)
        ensures
            e@ == EncodingModel::empty(),
    {
        let e = Encoding {
            path_tags: Vec::new(),
            path_data: Vec::new(),
            draw_tags: Vec::new(),
            draw_data: Vec::new(),
            transforms: Vec::new(),
            styles: Vec::new(),
        };
        proof {
            assert(e@ =~= EncodingModel::empty());
        }
        e
    }
}

impl Encoding {
    /// Snapshots the current end of the stream.
    pub fn stream_offsets(&self) -> (o: StreamOffsets)
        ensures
            o == self@.offsets(),
            self@.fits(),
    {
        StreamOffsets {
            path_tags: self.path_tags.len(),
            path_data: self.path_data.len(),
            draw_tags: self.draw_tags.len(),
            draw_data: self.draw_data.len(),
            transforms: self.transforms.len(),
            styles: self.styles.len(),
        }
    }

    /// Empties the stream. Every position taken from it beforehand is
    /// meaningless afterwards.
    pub fn reset(&mut self)
        ensures
            final(self)@ == EncodingModel::empty(),
    {
        self.path_tags.clear();
        self.path_data.clear();
        self.draw_tags.clear();
        self.draw_data.clear();
        self.transforms.clear();
        self.styles.clear();
        proof {
            assert(self@ =~= EncodingModel::empty());
        }
    }

    /// Cuts the stream back to a position previously snapshotted from it,
    /// discarding everything appended since.
    pub fn truncate_to(&mut self, o: StreamOffsets)
        requires
            o.path_tags <= old(self)@.path_tags.len(),
            o.path_data <= old(self)@.path_data.len(),
            o.draw_tags <= old(self)@.draw_tags.len(),
            o.draw_data <= old(self)@.draw_data.len(),
            o.transforms <= old(self)@.transforms.len(),
            o.styles <= old(self)@.styles.len(),
        ensures
            final(self)@ == (EncodingModel {
                path_tags: old(self)@.path_tags.take(o.path_tags as int),
                path_data: old(self)@.path_data.take(o.path_data as int),
                draw_tags: old(self)@.draw_tags.take(o.draw_tags as int),
                draw_data: old(self)@.draw_data.take(o.draw_data as int),
                transforms: old(self)@.transforms.take(o.transforms as int),
                styles: old(self)@.styles.take(o.styles as int),
            }),
    {
        self.path_tags.truncate(o.path_tags);
        self.path_data.truncate(o.path_data);
        self.draw_tags.truncate(o.draw_tags);
        self.draw_data.truncate(o.draw_data);
        self.transforms.truncate(o.transforms);
        self.styles.truncate(o.styles);
    }

    /// Appends a fill-style record carrying the winding rule.
    pub fn encode_fill_style(&mut self, rule: FillRule)
        ensures
            final(self)@ == (EncodingModel {
                styles: old(self)@.styles.push(style_word(rule)),
                ..old(self)@
            }),
    {
        let word: u32 = match rule {
            FillRule::NonZero => 0,
            FillRule::EvenOdd => 1,
        };
        self.styles.push(word);
    }

    /// Appends the path record of an outline: its tag bytes and coordinate
    /// words, as [`path_tags_of`] and [`path_data_of`] lay them out. Returns
    /// the number of drawn segments the record holds.
    pub fn encode_path_elements(&mut self, els: &Vec<PathElement>) -> (n: usize)
        ensures
            final(self)@ == (EncodingModel {
                path_tags: old(self)@.path_tags + path_tags_of(els@),
                path_data: old(self)@.path_data + path_data_of(els@),
                ..old(self)@
            }),
            n == segment_count(els@),
    {
        let ghost pre = self@;
        let mut i: usize = 0;
        let mut n: usize = 0;
        let mut open: bool = false;
        proof {
            assert(els@.skip(0) =~= els@);
        }
        while i < els.len()
            invariant
                i <= els@.len(),
                n <= i,
                self@.draw_tags == pre.draw_tags,
                self@.draw_data == pre.draw_data,
                self@.transforms == pre.transforms,
                self@.styles == pre.styles,
                pre.path_tags + path_tags_of(els@) == self@.path_tags + tags_from(
                    els@.skip(i as int),
                    open,
                ),
                pre.path_data + path_data_of(els@) == self@.path_data + data_from(
                    els@.skip(i as int),
                    open,
                ),
                segment_count(els@) == n + segments_from(els@.skip(i as int), open),
            decreases els@.len() - i,
        {
            proof {
                lemma_fold_step(els@, i as int, open);
            }
            let ghost i0 = i as int;
            let ghost open0 = open;
            let ghost tags0 = self@.path_tags;
            let ghost data0 = self@.path_data;
            let ghost segs0 = n as nat;
            let e = els[i];
            match e {
                PathElement::MoveTo { x, y } => {
                    self.path_tags.push(TAG_MOVE);
                    self.path_data.push(x);
                    self.path_data.push(y);
                    open = true;
                },
                PathElement::LineTo { x, y } => {
                    if open {
                        self.path_tags.push(TAG_LINE);
                        self.path_data.push(x);
                        self.path_data.push(y);
                        n = n + 1;
                    }
                },
                PathElement::QuadTo { x0, y0, x1, y1 } => {
                    if open {
                        self.path_tags.push(TAG_QUAD);
                        self.path_data.push(x0);
                        self.path_data.push(y0);
                        self.path_data.push(x1);
                        self.path_data.push(y1);
                        n = n + 1;
                    }
                },
                PathElement::CurveTo { x0, y0, x1, y1, x2, y2 } => {
                    if open {
                        self.path_tags.push(TAG_CUBIC);
                        self.path_data.push(x0);
                        self.path_data.push(y0);
                        self.path_data.push(x1);
                        self.path_data.push(y1);
                        self.path_data.push(x2);
                        self.path_data.push(y2);
                        n = n + 1;
                    }
                },
                PathElement::Close => {
                    if open {
                        self.path_tags.push(TAG_CLOSE);
                        open = false;
                    }
                },
            }
            proof {
                assert(self@.path_tags =~= tags0 + el_tags(els@[i0], open0));
                assert(self@.path_data =~= data0 + el_data(els@[i0], open0));
                assert(open == el_opens(els@[i0], open0));
                assert(n as nat == segs0 + el_segments(els@[i0], open0));
                assert(tags0 + tags_from(els@.skip(i0), open0) =~= self@.path_tags + tags_from(
                    els@.skip(i0 + 1),
                    open,
                ));
                assert(data0 + data_from(els@.skip(i0), open0) =~= self@.path_data + data_from(
                    els@.skip(i0 + 1),
                    open,
                ));
            }
            i = i + 1;
        }
        proof {
            assert(els@.skip(els@.len() as int) =~= Seq::<PathElement>::empty());
            assert(self@.path_tags =~= pre.path_tags + path_tags_of(els@));
            assert(self@.path_data =~= pre.path_data + path_data_of(els@));
        }
        n
    }
}

/// Encodes one prepared outline into the stream, all or nothing: a
/// fill-style record carrying `rule`, then the outline's path record. An
/// outline with no drawn segments is degenerate; the stream is cut back to
/// exactly where it was and nothing is returned. Otherwise the returned
/// range spans precisely what this call appended.
pub fn encode_glyph(encoding: &mut Encoding, rule: FillRule, els: &Vec<PathElement>) -> (r: Option<
    CachedRange,
>)
    ensures
        segment_count(els@) == 0 ==> r is None && final(encoding)@ == old(encoding)@,
        segment_count(els@) != 0 ==> {
            &&& final(encoding)@ == glyph_encoded(old(encoding)@, rule, els@)
            &&& r == Some(
                CachedRange { start: old(encoding)@.offsets(), end: final(encoding)@.offsets() },
            )
        },
        r is Some ==> r.unwrap().wf(),
{
    let start = encoding.stream_offsets();
    encoding.encode_fill_style(rule);
    let n = encoding.encode_path_elements(els);
    if n == 0 {
        encoding.truncate_to(start);
        proof {
            assert(encoding@ =~= old(encoding)@) by {
                assert((old(encoding)@.path_tags + path_tags_of(els@)).take(
                    old(encoding)@.path_tags.len() as int,
                ) =~= old(encoding)@.path_tags);
                assert((old(encoding)@.path_data + path_data_of(els@)).take(
                    old(encoding)@.path_data.len() as int,
                ) =~= old(encoding)@.path_data);
                assert(old(encoding)@.styles.push(style_word(rule)).take(
                    old(encoding)@.styles.len() as int,
                ) =~= old(encoding)@.styles);
                assert(old(encoding)@.draw_tags.take(old(encoding)@.draw_tags.len() as int)
                    =~= old(encoding)@.draw_tags);
                assert(old(encoding)@.draw_data.take(old(encoding)@.draw_data.len() as int)
                    =~= old(encoding)@.draw_data);
                assert(old(encoding)@.transforms.take(old(encoding)@.transforms.len() as int)
                    =~= old(encoding)@.transforms);
            }
        }
        None
    } else {
        proof {
            assert(encoding@ =~= glyph_encoded(old(encoding)@, rule, els@));
        }
        let end = encoding.stream_offsets();
        Some(CachedRange { start, end })
    }
}

} // verus!
