use glyph_cache::encoding::encode_glyph;
use glyph_cache::path::TAG_CLOSE;
use glyph_cache::path::TAG_CUBIC;
use glyph_cache::path::TAG_LINE;
use glyph_cache::path::TAG_MOVE;
use glyph_cache::path::TAG_QUAD;
use glyph_cache::Encoding;
use glyph_cache::FillRule;
use glyph_cache::PathElement;

#[test]
fn path_elements_are_laid_out_tag_by_tag() {
    let mut enc = Encoding::default();
    let els = vec![
        PathElement::MoveTo { x: 1, y: 2 },
        PathElement::LineTo { x: 3, y: 4 },
        PathElement::QuadTo { x0: 5, y0: 6, x1: 7, y1: 8 },
        PathElement::CurveTo { x0: 9, y0: 10, x1: 11, y1: 12, x2: 13, y2: 14 },
        PathElement::Close,
    ];
    let n = enc.encode_path_elements(&els);
    assert_eq!(n, 3);
    assert_eq!(enc.path_tags, vec![TAG_MOVE, TAG_LINE, TAG_QUAD, TAG_CUBIC, TAG_CLOSE]);
    assert_eq!(enc.path_data, vec![1, 2, 3, 4, 5, 6, 7, 8, 9, 10, 11, 12, 13, 14]);
    assert!(enc.styles.is_empty());
}

#[test]
fn drawing_outside_a_subpath_is_skipped() {
    let mut enc = Encoding::default();
    let els = vec![
        PathElement::LineTo { x: 3, y: 4 },
        PathElement::Close,
        PathElement::MoveTo { x: 1, y: 2 },
        PathElement::Close,
        PathElement::LineTo { x: 5, y: 6 },
    ];
    let n = enc.encode_path_elements(&els);
    assert_eq!(n, 0, "no drawing element fell inside an open subpath");
    assert_eq!(enc.path_tags, vec![TAG_MOVE, TAG_CLOSE]);
    assert_eq!(enc.path_data, vec![1, 2]);
}

#[test]
fn winding_rules_get_distinct_style_words() {
    let mut enc = Encoding::default();
    let els = vec![PathElement::MoveTo { x: 0, y: 0 }, PathElement::LineTo { x: 1, y: 0 }];
    encode_glyph(&mut enc, FillRule::NonZero, &els).unwrap();
    encode_glyph(&mut enc, FillRule::EvenOdd, &els).unwrap();
    assert_eq!(enc.styles, vec![0, 1]);
}

#[test]
fn failed_encode_rolls_the_style_record_back() {
    let mut enc = Encoding::default();
    let good = vec![PathElement::MoveTo { x: 0, y: 0 }, PathElement::LineTo { x: 1, y: 0 }];
    let degenerate = vec![PathElement::MoveTo { x: 0, y: 0 }];

    let r1 = encode_glyph(&mut enc, FillRule::NonZero, &good).unwrap();
    let tags_before = enc.path_tags.clone();
    let styles_before = enc.styles.clone();

    assert!(encode_glyph(&mut enc, FillRule::NonZero, &degenerate).is_none());
    assert_eq!(enc.path_tags, tags_before);
    assert_eq!(enc.styles, styles_before);
    assert_eq!(enc.stream_offsets(), r1.end);
}

#[test]
fn ranges_count_every_stream_section() {
    let mut enc = Encoding::default();
    let els = vec![
        PathElement::MoveTo { x: 1, y: 2 },
        PathElement::LineTo { x: 3, y: 4 },
        PathElement::Close,
    ];
    let range = encode_glyph(&mut enc, FillRule::NonZero, &els).unwrap();
    let len = range.len();
    assert_eq!(len.path_tags, 3);
    assert_eq!(len.path_data, 4);
    assert_eq!(len.styles, 1);
    assert_eq!(len.draw_tags, 0);
    assert_eq!(len.draw_data, 0);
    assert_eq!(len.transforms, 0);
}
