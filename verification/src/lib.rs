//! Memoizing encoder for font glyph outlines.
//!
//! A [`GlyphCache`](cache::GlyphCache) owns a shared append-only
//! [`Encoding`](encoding::Encoding) stream and a memo map from glyph
//! identities to the ranges of the stream holding their encoded paths.
//! Eligible requests (non-zero-winding fills of non-variable instances) are
//! encoded once and reused; every other request is freshly encoded and never
//! stored. A failed encode leaves the stream exactly as it was.

pub mod cache;
pub mod encoding;
pub mod key;
pub mod laws;
pub mod offsets;
pub mod path;

pub use cache::GlyphCache;
pub use encoding::Encoding;
pub use key::FillRule;
pub use key::GlyphKey;
pub use key::GlyphStyle;
pub use offsets::CachedRange;
pub use offsets::StreamOffsets;
pub use path::PathElement;
