//! The guarantees the cache gives across calls, each proved over
//! [`step_result`], the transition that `get_or_insert`'s contract ties every
//! call to.

use vstd::prelude::*;

use crate::cache::step_result;
use crate::cache::CacheModel;
use crate::encoding::glyph_encoded;
use crate::encoding::EncodingModel;
use crate::key::effective_rule;
use crate::key::eligible;
use crate::key::GlyphKey;
use crate::key::GlyphStyle;
use crate::offsets::CachedRange;
use crate::offsets::StreamOffsets;
use crate::path::segment_count;
use crate::path::PathElement;

verus! {

/// Idempotence: once an eligible request has returned a range, an identical
/// request returns the very same range and leaves the cache — the stream
/// included — exactly as it was, whatever a second draw would have yielded.
pub proof fn lemma_idempotence(
    pre: CacheModel,
    key: GlyphKey,
    style: GlyphStyle,
    coords: Seq<i16>,
    first: Option<Seq<PathElement>>,
    second: Option<Seq<PathElement>>,
)
    requires
        eligible(style, coords),
        step_result(pre, key, style, coords, first).1 is Some,
    ensures
        ({
            let after_first = step_result(pre, key, style, coords, first).0;
            &&& step_result(after_first, key, style, coords, second).0 == after_first
            &&& step_result(after_first, key, style, coords, second).1 == step_result(
                pre,
                key,
                style,
                coords,
                first,
            ).1
        }),
{
}

/// Non-memoization: an ineligible request — a stroke, or any non-empty
/// variation — never touches the memo map, and when it does return a range
/// it freshly encoded it: the style section grew by its record, so the
/// stream's offsets advanced. An identical ineligible request therefore
/// re-encodes rather than being served from the map.
pub proof fn lemma_ineligible_never_memoized(
    pre: CacheModel,
    key: GlyphKey,
    style: GlyphStyle,
    coords: Seq<i16>,
    drawn: Option<Seq<PathElement>>,
)
    requires
        !eligible(style, coords),
    ensures
        step_result(pre, key, style, coords, drawn).0.glyphs == pre.glyphs,
        step_result(pre, key, style, coords, drawn).1 is Some ==> {
            &&& step_result(pre, key, style, coords, drawn).0.enc.styles.len() == pre.enc.styles.len() + 1
            &&& step_result(pre, key, style, coords, drawn).1.unwrap().start == pre.enc.offsets()
        },
{
}

/// Key discrimination: two keys differing only in the size bit pattern are
/// distinct keys, so a request under one never creates, changes or serves an
/// entry of the other — even when the two patterns denote sizes that print
/// identically.
pub proof fn lemma_key_discrimination(
    pre: CacheModel,
    key: GlyphKey,
    other: GlyphKey,
    style: GlyphStyle,
    coords: Seq<i16>,
    drawn: Option<Seq<PathElement>>,
)
    requires
        key.font_size_bits != other.font_size_bits,
    ensures
        key != other,
        step_result(pre, key, style, coords, drawn).0.glyphs.contains_key(other)
            == pre.glyphs.contains_key(other),
        pre.glyphs.contains_key(other) ==> step_result(
            pre,
            key,
            style,
            coords,
            drawn,
        ).0.glyphs[other] == pre.glyphs[other],
{
}

/// Atomicity on lookup failure: when the outline source has no glyph under
/// the requested id, the request yields the absence signal and the cache —
/// stream offsets and memo map alike — is exactly as before.
pub proof fn lemma_absent_glyph_atomic(
    pre: CacheModel,
    key: GlyphKey,
    style: GlyphStyle,
    coords: Seq<i16>,
)
    requires
        !(eligible(style, coords) && pre.glyphs.contains_key(key)),
    ensures
        step_result(pre, key, style, coords, Option::None).0 == pre,
        step_result(pre, key, style, coords, Option::None).1 is None,
{
}

/// Atomicity on degeneracy: an outline that encodes to zero drawn segments
/// yields the absence signal, leaves the stream exactly as it was, and is
/// never recorded in the map.
pub proof fn lemma_degenerate_atomic(
    pre: CacheModel,
    key: GlyphKey,
    style: GlyphStyle,
    coords: Seq<i16>,
    els: Seq<PathElement>,
)
    requires
        !(eligible(style, coords) && pre.glyphs.contains_key(key)),
        segment_count(els) == 0,
    ensures
        step_result(pre, key, style, coords, Option::Some(els)).0 == pre,
        step_result(pre, key, style, coords, Option::Some(els)).1 is None,
{
}

/// Range arithmetic across calls: of two requests that both freshly encode,
/// the second range starts exactly where the first one ended.
pub proof fn lemma_sequential_ranges(
    pre: CacheModel,
    first_key: GlyphKey,
    first_style: GlyphStyle,
    first_coords: Seq<i16>,
    first_drawn: Option<Seq<PathElement>>,
    second_key: GlyphKey,
    second_style: GlyphStyle,
    second_coords: Seq<i16>,
    second_drawn: Option<Seq<PathElement>>,
)
    requires
        !(eligible(first_style, first_coords) && pre.glyphs.contains_key(first_key)),
        step_result(pre, first_key, first_style, first_coords, first_drawn).1 is Some,
        !(eligible(second_style, second_coords) && step_result(
            pre,
            first_key,
            first_style,
            first_coords,
            first_drawn,
        ).0.glyphs.contains_key(second_key)),
        step_result(
            step_result(pre, first_key, first_style, first_coords, first_drawn).0,
            second_key,
            second_style,
            second_coords,
            second_drawn,
        ).1 is Some,
    ensures
        ({
            let after_first = step_result(pre, first_key, first_style, first_coords, first_drawn);
            let after_second = step_result(
                after_first.0,
                second_key,
                second_style,
                second_coords,
                second_drawn,
            );
            after_second.1.unwrap().start == after_first.1.unwrap().end
        }),
{
}

/// Reset semantics: against a cleared cache every key is a miss, so a
/// request that draws a non-degenerate outline re-encodes it, and the new
/// range starts at the zero offset.
pub proof fn lemma_reset_restart(
    key: GlyphKey,
    style: GlyphStyle,
    coords: Seq<i16>,
    els: Seq<PathElement>,
)
    requires
        segment_count(els) != 0,
    ensures
        ({
            let cleared = CacheModel {
                enc: EncodingModel::empty(),
                glyphs: Map::<GlyphKey, CachedRange>::empty(),
            };
            let step = step_result(cleared, key, style, coords, Option::Some(els));
            &&& step.1 is Some
            &&& step.1.unwrap().start == StreamOffsets::spec_zero()
            &&& step.1.unwrap().end == glyph_encoded(
                EncodingModel::empty(),
                effective_rule(style),
                els,
            ).offsets()
        }),
{
}

} // verus!
