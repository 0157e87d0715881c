use std::cell::Cell;

use glyph_cache::CachedRange;
use glyph_cache::FillRule;
use glyph_cache::GlyphCache;
use glyph_cache::GlyphKey;
use glyph_cache::GlyphStyle;
use glyph_cache::PathElement;
use glyph_cache::StreamOffsets;

fn key_of(glyph_id: u32, font_size_bits: u32) -> GlyphKey {
    GlyphKey { font_id: 1, font_index: 0, glyph_id, font_size_bits, hint: false }
}

fn triangle() -> Vec<PathElement> {
    vec![
        PathElement::MoveTo { x: 0, y: 0 },
        PathElement::LineTo { x: 64, y: 0 },
        PathElement::LineTo { x: 64, y: 64 },
        PathElement::Close,
    ]
}

fn offsets(cache: &GlyphCache) -> StreamOffsets {
    cache.encoding.stream_offsets()
}

const FILL: GlyphStyle = GlyphStyle::Fill(FillRule::NonZero);

#[test]
fn idempotence_second_call_is_served_from_the_map() {
    let mut cache = GlyphCache::default();
    let key = key_of(5, 1.0f32.to_bits());
    let calls = Cell::new(0u32);

    let r1 = cache
        .get_or_insert(key, FILL, &[], || {
            calls.set(calls.get() + 1);
            Some(triangle())
        })
        .unwrap();
    let mid = offsets(&cache);

    let r2 = cache
        .get_or_insert(key, FILL, &[], || {
            calls.set(calls.get() + 1);
            Some(triangle())
        })
        .unwrap();

    assert_eq!(r1, r2);
    assert_eq!(calls.get(), 1, "a hit must do no outline work");
    assert_eq!(offsets(&cache), mid, "a hit must not write to the stream");
}

#[test]
fn stroke_requests_are_never_memoized() {
    let mut cache = GlyphCache::default();
    let key = key_of(5, 1.0f32.to_bits());

    let r1 = cache.get_or_insert(key, GlyphStyle::Stroke, &[], || Some(triangle())).unwrap();
    let r2 = cache.get_or_insert(key, GlyphStyle::Stroke, &[], || Some(triangle())).unwrap();
    assert_eq!(r2.start, r1.end, "an identical stroke request must re-encode");

    // The stroke requests must not have seeded the map: an eligible request
    // under the same key still has to encode.
    let calls = Cell::new(0u32);
    cache
        .get_or_insert(key, FILL, &[], || {
            calls.set(calls.get() + 1);
            Some(triangle())
        })
        .unwrap();
    assert_eq!(calls.get(), 1);
}

#[test]
fn even_odd_fills_are_never_memoized() {
    let mut cache = GlyphCache::default();
    let key = key_of(5, 1.0f32.to_bits());
    let even_odd = GlyphStyle::Fill(FillRule::EvenOdd);

    let r1 = cache.get_or_insert(key, even_odd, &[], || Some(triangle())).unwrap();
    let r2 = cache.get_or_insert(key, even_odd, &[], || Some(triangle())).unwrap();
    assert_eq!(r2.start, r1.end, "only non-zero fills are eligible");
}

#[test]
fn variable_requests_are_never_memoized() {
    let mut cache = GlyphCache::default();
    let key = key_of(5, 1.0f32.to_bits());
    let coords: [i16; 2] = [0, -64];

    let r1 = cache.get_or_insert(key, FILL, &coords, || Some(triangle())).unwrap();
    let r2 = cache.get_or_insert(key, FILL, &coords, || Some(triangle())).unwrap();
    assert_eq!(r2.start, r1.end, "an identical variable request must re-encode");
}

#[test]
fn size_bit_patterns_discriminate_keys() {
    // 0.0 and -0.0 compare equal and print alike, but their bit patterns
    // differ, so they are distinct cache entries.
    let plus = 0.0f32;
    let minus = -0.0f32;
    assert_eq!(plus, minus);
    assert_ne!(plus.to_bits(), minus.to_bits());

    let mut cache = GlyphCache::default();
    let r1 = cache.get_or_insert(key_of(5, plus.to_bits()), FILL, &[], || Some(triangle())).unwrap();

    let calls = Cell::new(0u32);
    let r2 = cache
        .get_or_insert(key_of(5, minus.to_bits()), FILL, &[], || {
            calls.set(calls.get() + 1);
            Some(triangle())
        })
        .unwrap();
    assert_eq!(calls.get(), 1, "the other bit pattern must be a miss");
    assert_eq!(r2.start, r1.end);
}

#[test]
fn absent_glyph_leaves_the_stream_untouched() {
    let mut cache = GlyphCache::default();
    cache.get_or_insert(key_of(5, 1.0f32.to_bits()), FILL, &[], || Some(triangle())).unwrap();
    let before = offsets(&cache);

    let missing = cache.get_or_insert(key_of(9999, 1.0f32.to_bits()), FILL, &[], || None);
    assert!(missing.is_none());
    assert_eq!(offsets(&cache), before);
}

#[test]
fn degenerate_outline_is_rolled_back_and_never_cached() {
    let mut cache = GlyphCache::default();
    let key = key_of(32, 1.0f32.to_bits());
    let before = offsets(&cache);

    // A whitespace glyph: its outline draws nothing.
    let r = cache.get_or_insert(key, FILL, &[], || Some(vec![]));
    assert!(r.is_none());
    assert_eq!(offsets(&cache), before, "a failed encode must leave no partial records");

    // A bare move still draws no segment.
    let r = cache.get_or_insert(key, FILL, &[], || {
        Some(vec![PathElement::MoveTo { x: 0, y: 0 }])
    });
    assert!(r.is_none());
    assert_eq!(offsets(&cache), before);

    // The failures must not have been cached: the next request still draws.
    let calls = Cell::new(0u32);
    cache
        .get_or_insert(key, FILL, &[], || {
            calls.set(calls.get() + 1);
            Some(triangle())
        })
        .unwrap();
    assert_eq!(calls.get(), 1);
}

#[test]
fn range_len_is_the_component_wise_difference() {
    let start = StreamOffsets {
        path_tags: 2,
        path_data: 10,
        draw_tags: 1,
        draw_data: 4,
        transforms: 3,
        styles: 5,
    };
    let end = StreamOffsets {
        path_tags: 6,
        path_data: 18,
        draw_tags: 1,
        draw_data: 9,
        transforms: 3,
        styles: 7,
    };
    let len = CachedRange { start, end }.len();
    assert_eq!(
        len,
        StreamOffsets {
            path_tags: 4,
            path_data: 8,
            draw_tags: 0,
            draw_data: 5,
            transforms: 0,
            styles: 2,
        }
    );
}

#[test]
fn sequential_encodes_are_contiguous() {
    let mut cache = GlyphCache::default();
    let r1 = cache.get_or_insert(key_of(5, 1.0f32.to_bits()), FILL, &[], || Some(triangle())).unwrap();
    let r2 = cache.get_or_insert(key_of(6, 1.0f32.to_bits()), FILL, &[], || Some(triangle())).unwrap();
    assert_eq!(r1.start, StreamOffsets::zero());
    assert_eq!(r2.start, r1.end);
}

#[test]
fn clear_purges_the_map_and_resets_the_stream() {
    let mut cache = GlyphCache::default();
    let key = key_of(5, 1.0f32.to_bits());
    let r1 = cache.get_or_insert(key, FILL, &[], || Some(triangle())).unwrap();

    cache.clear();
    assert_eq!(offsets(&cache), StreamOffsets::zero());

    let calls = Cell::new(0u32);
    let r2 = cache
        .get_or_insert(key, FILL, &[], || {
            calls.set(calls.get() + 1);
            Some(triangle())
        })
        .unwrap();
    assert_eq!(calls.get(), 1, "a cleared key must re-encode");
    assert_eq!(r2.start, StreamOffsets::zero());
    assert_eq!(r2.len(), r1.len(), "the re-encoded range has the shape of the first");
}

#[test]
fn fill_then_reuse_then_stroke_then_clear() {
    // One request after another, watching the stream and the map.
    let mut cache = GlyphCache::default();
    let key = key_of(5, 12.0f32.to_bits());

    let r1 = cache.get_or_insert(key, FILL, &[], || Some(triangle())).unwrap();
    assert_eq!(r1.start, StreamOffsets::zero());

    let again = cache.get_or_insert(key, FILL, &[], || Some(triangle())).unwrap();
    assert_eq!(again, r1);
    assert_eq!(offsets(&cache), r1.end);

    let r2 = cache.get_or_insert(key, GlyphStyle::Stroke, &[], || Some(triangle())).unwrap();
    assert_eq!(r2.start, r1.end);

    // The stroke result must not be in the map: the eligible entry r1 still
    // serves the key.
    let served = cache.get_or_insert(key, FILL, &[], || Some(triangle())).unwrap();
    assert_eq!(served, r1);

    cache.clear();
    assert_eq!(offsets(&cache), StreamOffsets::zero());
    let r3 = cache.get_or_insert(key, FILL, &[], || Some(triangle())).unwrap();
    assert_eq!(r3.start, StreamOffsets::zero());
    assert_eq!(r3.len(), r1.len());
}
