//! The glyph cache: the shared stream, the memo map, and the
//! encode-or-reuse decision.

use vstd::prelude::*;

use crate::encoding::encode_glyph;
use crate::encoding::glyph_encoded;
use crate::encoding::Encoding;
use crate::encoding::EncodingModel;
use crate::key::effective_rule;
use crate::key::eligible;
use crate::key::FillRule;
use crate::key::GlyphKey;
use crate::key::GlyphStyle;
use crate::offsets::CachedRange;
use crate::path::segment_count;
use crate::path::PathElement;

verus! {

/// The abstract state of a cache: the stream contents and the memo map.
#[verifier::ext_equal]
pub struct CacheModel {
    pub enc: EncodingModel,
    pub glyphs: Map<GlyphKey, CachedRange>,
}

/// No key occurs twice among the memo entries.
pub open spec fn keys_distinct(entries: Seq<(GlyphKey, CachedRange)>) -> bool {
    forall|i: int, j: int|
        0 <= i < j < entries.len() ==> (#[trigger] entries[i]).0 != (#[trigger] entries[j]).0
}

/// The map the memo entries spell out.
pub open spec fn map_of(entries: Seq<(GlyphKey, CachedRange)>) -> Map<GlyphKey, CachedRange>
    decreases entries.len(),
{
    if entries.len() == 0 {
        Map::empty()
    } else {
        map_of(entries.drop_last()).insert(entries.last().0, entries.last().1)
    }
}

/// A key is in the map exactly when some entry carries it.
proof fn lemma_map_of_contains(entries: Seq<(GlyphKey, CachedRange)>, key: GlyphKey)
    ensures
        map_of(entries).contains_key(key) <==> exists|i: int|
            0 <= i < entries.len() && (#[trigger] entries[i]).0 == key,
    decreases entries.len(),
{
    if entries.len() > 0 {
        lemma_map_of_contains(entries.drop_last(), key);
        if entries.last().0 == key {
            assert(entries[entries.len() - 1].0 == key);
        } else if map_of(entries).contains_key(key) {
            let i = choose|i: int| 0 <= i < entries.drop_last().len() && (#[trigger] entries.drop_last()[i]).0 == key;
            assert(entries[i].0 == key);
        } else {
            assert forall|i: int| 0 <= i < entries.len() implies (#[trigger] entries[i]).0 != key by {
                if i < entries.len() - 1 {
                    assert(entries.drop_last()[i] == entries[i]);
                }
            }
        }
    }
}

/// With distinct keys, the entry carrying a key gives its value in the map.
proof fn lemma_map_of_index(entries: Seq<(GlyphKey, CachedRange)>, i: int)
    requires
        keys_distinct(entries),
        0 <= i < entries.len(),
    ensures
        map_of(entries).contains_key(entries[i].0),
        map_of(entries)[entries[i].0] == entries[i].1,
    decreases entries.len(),
{
    if i == entries.len() - 1 {
        lemma_map_of_contains(entries, entries[i].0);
    } else {
        assert(entries.drop_last()[i] == entries[i]);
        lemma_map_of_index(entries.drop_last(), i);
        assert(entries[entries.len() - 1].0 != entries[i].0);
    }
}

/// The cache: the shared output stream it encodes into, and the memo map
/// from glyph identity to the stream range already holding that glyph.
///
/// The two are created together and cleared together: a stored range is a
/// pair of positions into the stream, so it must never outlive a reset of
/// the stream.
pub struct GlyphCache {
    pub encoding: Encoding,
    glyphs: Vec<(GlyphKey, CachedRange)>,
}

impl View for GlyphCache {
    type V = CacheModel;

    closed spec fn view(&self) -> CacheModel {
        CacheModel { enc: self.encoding@, glyphs: map_of(self.glyphs@) }
    }
}

impl Default for GlyphCache {
    /// An empty cache over an empty stream.
    fn default() -> (c: GlyphCache)
        ensures
            c.wf(),
            c@.enc == EncodingModel::empty(),
            c@.glyphs == Map::<GlyphKey, CachedRange>::empty(),
    {
        GlyphCache { encoding: Encoding::default(), glyphs: Vec::new() }
    }
}

impl GlyphCache {
    /// Internal consistency: the memo entries carry distinct keys, and every
    /// stored range is a forward span lying inside the current stream.
    pub closed spec fn wf(&self) -> bool {
        &&& keys_distinct(self.glyphs@)
        &&& forall|i: int|
            0 <= i < self.glyphs@.len() ==> {
                &&& (#[trigger] self.glyphs@[i]).1.wf()
                &&& self.glyphs@[i].1.end.le(self.encoding@.offsets())
            }
    }

    /// Empties the stream and the memo map together, atomically from the
    /// caller's point of view: no stored range survives the stream it
    /// points into.
    pub fn clear(&mut self)
        ensures
            final(self).wf(),
            final(self)@.enc == EncodingModel::empty(),
            final(self)@.glyphs == Map::<GlyphKey, CachedRange>::empty(),
    {
        self.encoding.reset();
        self.glyphs.clear();
    }

    /// Looks a key up in the memo map.
    fn map_get(&self, key: GlyphKey) -> (r: Option<CachedRange>)
        requires
            self.wf(),
        ensures
            match r {
                Some(range) => {
                    &&& self@.glyphs.contains_key(key)
                    &&& self@.glyphs[key] == range
                    &&& range.wf()
                    &&& range.end.le(self@.enc.offsets())
                },
                None => !self@.glyphs.contains_key(key),
            },
    {
        let n = self.glyphs.len();
        let mut i: usize = 0;
        while i < n
            invariant
                self.wf(),
                n == self.glyphs@.len(),
                i <= n,
                forall|j: int| 0 <= j < i ==> (#[trigger] self.glyphs@[j]).0 != key,
            decreases n - i,
        {
            let (entry_key, entry_range) = self.glyphs[i];
            if entry_key == key {
                proof {
                    lemma_map_of_index(self.glyphs@, i as int);
                }
                return Some(entry_range);
            }
            i = i + 1;
        }
        proof {
            lemma_map_of_contains(self.glyphs@, key);
        }
        None
    }

    /// Records a freshly encoded range under a key not yet present.
    fn map_insert(&mut self, key: GlyphKey, range: CachedRange)
        requires
            old(self).wf(),
            !old(self)@.glyphs.contains_key(key),
            range.wf(),
            range.end.le(old(self).encoding@.offsets()),
        ensures
            final(self).wf(),
            final(self)@.glyphs == old(self)@.glyphs.insert(key, range),
            final(self)@.enc == old(self)@.enc,
            final(self).encoding == old(self).encoding,
    {
        proof {
            lemma_map_of_contains(self.glyphs@, key);
        }
        self.glyphs.push((key, range));
        proof {
            assert(self.glyphs@.drop_last() =~= old(self).glyphs@);
        }
    }

    /// Decides one request and encodes it if the memo map cannot serve it.
    ///
    /// An eligible request (see [`eligible`]) already in the map is a hit:
    /// its stored range is returned and nothing is touched. Otherwise `draw`
    /// is asked once for the outline's elements: fill geometry drawn at the
    /// requested size and variation, or the stroked expansion of the outline
    /// for a stroke request. If it yields none (unknown glyph id, drawing
    /// failure) or the elements encode to zero drawn segments, nothing is
    /// returned and the cache is exactly as it was. Otherwise the outline is
    /// encoded, the fresh range is stored iff the request was eligible, and
    /// the range is returned.
    ///
    /// The whole step is [`step_result`] of whatever `draw` yielded.
    pub fn get_or_insert<F: FnOnce() -> Option<Vec<PathElement>>>(
        &mut self,
        key: GlyphKey,
        style: GlyphStyle,
        coords: &[i16],
        draw: F,
    ) -> (r: Option<CachedRange>)
        requires
            old(self).wf(),
            call_requires(draw, ()),
        ensures
            final(self).wf(),
            r is None ==> final(self)@ == old(self)@,
            eligible(style, coords@) && old(self)@.glyphs.contains_key(key) ==> {
                &&& r == Some(old(self)@.glyphs[key])
                &&& final(self)@ == old(self)@
            },
            !(eligible(style, coords@) && old(self)@.glyphs.contains_key(key)) ==> exists|
                drawn: Option<Vec<PathElement>>,
            |
                {
                    &&& #[trigger] call_ensures(draw, (), drawn)
                    &&& (final(self)@, r) == step_result(
                        old(self)@,
                        key,
                        style,
                        coords@,
                        drawn_view(drawn),
                    )
                },
            r is Some ==> r.unwrap().wf() && r.unwrap().end.le(final(self)@.enc.offsets()),
    {
        let is_eligible = match style {
            GlyphStyle::Fill(FillRule::NonZero) => coords.len() == 0,
            _ => false,
        };
        proof {
            assert(is_eligible == eligible(style, coords@));
        }
        if is_eligible {
            let cached = self.map_get(key);
            if let Some(range) = cached {
                return Some(range);
            }
        }
        let drawn = draw();
        let ghost gdrawn = drawn;
        match drawn {
            Option::None => {
                proof {
                    assert(call_ensures(draw, (), gdrawn));
                    assert((self@, Option::None::<CachedRange>) == step_result(
                        old(self)@,
                        key,
                        style,
                        coords@,
                        drawn_view(gdrawn),
                    ));
                }
                None
            },
            Option::Some(els) => {
                let rule = match style {
                    GlyphStyle::Fill(fill) => fill,
                    GlyphStyle::Stroke => FillRule::NonZero,
                };
                proof {
                    assert(rule == effective_rule(style));
                }
                let result = encode_glyph(&mut self.encoding, rule, &els);
                match result {
                    Option::None => {
                        proof {
                            assert(self@ =~= old(self)@);
                            assert(call_ensures(draw, (), gdrawn));
                            assert((self@, Option::None::<CachedRange>) == step_result(
                                old(self)@,
                                key,
                                style,
                                coords@,
                                drawn_view(gdrawn),
                            ));
                        }
                        None
                    },
                    Option::Some(range) => {
                        if is_eligible {
                            self.map_insert(key, range);
                        }
                        proof {
                            assert(call_ensures(draw, (), gdrawn));
                            assert(self@.enc =~= glyph_encoded(
                                old(self)@.enc,
                                effective_rule(style),
                                els@,
                            ));
                            assert((self@, Option::Some(range)) == step_result(
                                old(self)@,
                                key,
                                style,
                                coords@,
                                drawn_view(gdrawn),
                            ));
                        }
                        Some(range)
                    },
                }
            },
        }
    }
}

/// The view of one draw outcome: the outline's elements, if the glyph was
/// resolved and drawn.
pub open spec fn drawn_view(drawn: Option<Vec<PathElement>>) -> Option<Seq<PathElement>> {
    match drawn {
        Option::None => Option::None,
        Option::Some(els) => Option::Some(els@),
    }
}

/// What one `get_or_insert` request does to a cache, as a function of the
/// draw outcome: the state afterwards and the returned range.
///
/// An eligible request whose key is present is served from the map and
/// changes nothing, whatever the outcome would have been. Otherwise a failed
/// or degenerate outcome changes nothing and yields no range; a drawn
/// outline is appended to the stream under the request's effective winding
/// rule, and recorded in the map exactly when the request was eligible.
pub open spec fn step_result(
    pre: CacheModel,
    key: GlyphKey,
    style: GlyphStyle,
    coords: Seq<i16>,
    drawn: Option<Seq<PathElement>>,
) -> (CacheModel, Option<CachedRange>) {
    if eligible(style, coords) && pre.glyphs.contains_key(key) {
        (pre, Some(pre.glyphs[key]))
    } else {
        match drawn {
            Option::None => (pre, Option::None),
            Option::Some(els) => {
                if segment_count(els) == 0 {
                    (pre, Option::None)
                } else {
                    let enc = glyph_encoded(pre.enc, effective_rule(style), els);
                    let range = CachedRange { start: pre.enc.offsets(), end: enc.offsets() };
                    let glyphs = if eligible(style, coords) {
                        pre.glyphs.insert(key, range)
                    } else {
                        pre.glyphs
                    };
                    (CacheModel { enc, glyphs }, Option::Some(range))
                }
            },
        }
    }
}

} // verus!
