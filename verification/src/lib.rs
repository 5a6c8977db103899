//! A bounded, growable glyph atlas: variable-sized glyph bitmaps are packed
//! into two square surfaces (one for coverage masks, one for colour), cached
//! by glyph identity, and re-uploaded when a surface is grown.
//!
//! The library decides *where* glyphs go and *what* has to be written to the
//! GPU; creating textures and writing texels is left to the caller.

pub mod atlas;
pub mod cache;
pub mod glyph;
pub mod inner;
pub mod kind;
pub mod packer;
pub mod upload;
pub mod usage;

pub use crate::atlas::TextAtlas;
pub use crate::glyph::{
    CacheKey, CustomGlyphCacheKey, CustomGlyphId, GlyphDetails, GlyphonCacheKey, GpuCacheStatus,
    RasterizationError, RasterizeCustomGlyphRequest, RasterizedCustomGlyph, SubpixelBin,
};
pub use crate::inner::InnerAtlas;
pub use crate::kind::{ColorMode, ContentType, Kind};
pub use crate::packer::{Allocation, Point, Rectangle};
pub use crate::upload::{GlyphSource, GlyphUpload, TexelWrite};

use vstd::prelude::*;

verus! {

/// Number of pixels kept free on every side of a packed glyph so that blur
/// and shadow effects never sample a neighbouring glyph.
pub const SHADOW_MARGIN_PX: u32 = 8;

} // verus!
