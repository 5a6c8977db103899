//! What has to be written into a surface's fresh texture after it has grown:
//! one upload per cached glyph that is placed in the atlas, at the place it
//! already has.

use crate::cache::CacheEntry;
use crate::glyph::{CacheKey, GlyphonCacheKey, GpuCacheStatus, RasterizeCustomGlyphRequest};
use crate::kind::Kind;
use vstd::prelude::*;

verus! {

/// Where the pixels of an upload come from.
#[derive(Debug, Clone, Copy, PartialEq, Eq, Structural)]
pub enum GlyphSource {
    /// Fetch the bitmap of this shaped glyph again, bypassing any bitmap cache.
    Text(CacheKey),
    /// Invoke the custom rasterizer with this request again.
    Custom(RasterizeCustomGlyphRequest),
}

/// One glyph to write into a fresh texture: where its pixels come from and the
/// texel its top-left pixel goes to.
#[derive(Debug, Clone, Copy, PartialEq, Eq, Structural)]
pub struct GlyphUpload {
    pub source: GlyphSource,
    pub x: u16,
    pub y: u16,
}

/// The parameters of one write of pixel rows into a texture.
#[derive(Debug, Clone, Copy, PartialEq, Eq, Structural)]
pub struct TexelWrite {
    /// Column of the first texel written.
    pub origin_x: u32,
    /// Row of the first texel written.
    pub origin_y: u32,
    /// Distance in bytes between two pixel rows of the source data.
    pub bytes_per_row: u32,
    /// Number of texels written per row.
    pub width: u32,
    /// Number of rows written.
    pub height: u32,
}

/// Where the pixels of the glyph cached under `key` come from.
pub open spec fn source_of(key: GlyphonCacheKey) -> GlyphSource {
    match key {
        GlyphonCacheKey::Text(text) => GlyphSource::Text(text),
        GlyphonCacheKey::Custom(custom) => GlyphSource::Custom(custom.spec_request()),
    }
}

/// The upload that a cache entry asks for: none for a glyph that was never
/// rasterized, and otherwise one at the entry's own coordinates.
pub open spec fn upload_of(entry: CacheEntry) -> Option<GlyphUpload> {
    match entry.1.gpu_cache {
        GpuCacheStatus::InAtlas { x, y, .. } => Some(
            GlyphUpload { source: source_of(entry.0), x, y },
        ),
        GpuCacheStatus::SkipRasterization => None,
    }
}

/// The uploads that a sequence of cache entries asks for, in the order of
/// the entries.
pub open spec fn uploads_of(entries: Seq<CacheEntry>) -> Seq<GlyphUpload>
    decreases entries.len(),
{
    if entries.len() == 0 {
        Seq::empty()
    } else {
        let before = uploads_of(entries.drop_last());
        match upload_of(entries.last()) {
            Some(upload) => before.push(upload),
            None => before,
        }
    }
}

/// The plan holds the upload of every placed entry, and nothing else: each of
/// its items is the upload of some entry.
pub proof fn lemma_uploads_cover_placed(entries: Seq<CacheEntry>)
    ensures
        forall|i: int|
            0 <= i < entries.len() && upload_of(#[trigger] entries[i]) is Some ==> uploads_of(
                entries,
            ).contains(upload_of(entries[i])->Some_0),
        forall|j: int|
            0 <= j < uploads_of(entries).len() ==> exists|i: int|
                0 <= i < entries.len() && upload_of(#[trigger] entries[i]) == Some(
                    #[trigger] uploads_of(entries)[j],
                ),
        uploads_of(entries).len() <= entries.len(),
    decreases entries.len(),
{
    if entries.len() > 0 {
        let front = entries.drop_last();
        let before = uploads_of(front);
        let plan = uploads_of(entries);
        lemma_uploads_cover_placed(front);
        assert forall|i: int|
            0 <= i < entries.len() && upload_of(#[trigger] entries[i]) is Some implies plan.contains(
            upload_of(entries[i])->Some_0,
        ) by {
            let upload = upload_of(entries[i])->Some_0;
            if i < front.len() {
                assert(front[i] == entries[i]);
                assert(before.contains(upload));
                let j = choose|j: int| 0 <= j < before.len() && before[j] == upload;
                assert(plan[j] == upload);
            } else {
                assert(entries[i] == entries.last());
                assert(plan[before.len() as int] == upload);
            }
        }
        assert forall|j: int| 0 <= j < plan.len() implies exists|i: int|
            0 <= i < entries.len() && upload_of(#[trigger] entries[i]) == Some(
                #[trigger] plan[j],
            ) by {
            if j < before.len() {
                assert(plan[j] == before[j]);
                let i = choose|i: int|
                    0 <= i < front.len() && upload_of(#[trigger] front[i]) == Some(before[j]);
                assert(entries[i] == front[i]);
            } else {
                assert(upload_of(entries[entries.len() - 1]) == Some(plan[j]));
            }
        }
    }
}

/// The uploads of a cache's entries, in the order of the entries.
pub fn plan_uploads(entries: &Vec<CacheEntry>) -> (plan: Vec<GlyphUpload>)
    ensures
        plan@ == uploads_of(entries@),
{
    let mut plan: Vec<GlyphUpload> = Vec::new();
    let mut i: usize = 0;
    while i < entries.len()
        invariant
            i <= entries.len(),
            plan@ == uploads_of(entries@.take(i as int)),
        decreases entries.len() - i,
    {
        let (cache_key, glyph) = entries[i];
        proof {
            assert(entries@.take(i + 1).drop_last() == entries@.take(i as int));
            assert(entries@.take(i + 1).last() == entries@[i as int]);
        }
        match glyph.gpu_cache {
            GpuCacheStatus::InAtlas { x, y, .. } => {
                let source = match cache_key {
                    GlyphonCacheKey::Text(text) => GlyphSource::Text(text),
                    GlyphonCacheKey::Custom(custom) => GlyphSource::Custom(custom.request()),
                };
                plan.push(GlyphUpload { source, x, y });
            },
            GpuCacheStatus::SkipRasterization => {},
        }
        i += 1;
    }
    proof {
        assert(entries@.take(entries.len() as int) == entries@);
    }
    plan
}

impl GlyphSource {
    /// The size in pixels of the bitmap to write: for a custom glyph the size
    /// that was requested, for a text glyph the size the rasterizer reports.
    pub open spec fn spec_extent(self, rasterized_width: u32, rasterized_height: u32) -> (u32, u32) {
        match self {
            GlyphSource::Text(_) => (rasterized_width, rasterized_height),
            GlyphSource::Custom(request) => (request.width as u32, request.height as u32),
        }
    }

    /// The size in pixels of the bitmap to write: for a custom glyph the size
    /// that was requested, for a text glyph the size the rasterizer reports.
    #[verifier::when_used_as_spec(spec_extent)]
    pub fn extent(self, rasterized_width: u32, rasterized_height: u32) -> (extent: (u32, u32))
        ensures
            extent == self.spec_extent(rasterized_width, rasterized_height),
    {
        match self {
            GlyphSource::Text(_) => (rasterized_width, rasterized_height),
            GlyphSource::Custom(request) => (request.width as u32, request.height as u32),
        }
    }
}

impl GlyphUpload {
    /// The write that puts a bitmap of `width` by `height` pixels at this
    /// upload's place in a surface of `kind`: rows are tightly packed, so one
    /// row takes `width` times the number of channels in bytes.
    pub fn texel_write(&self, kind: Kind, width: u32, height: u32) -> (write: TexelWrite)
        requires
            width * kind.spec_num_channels() <= u32::MAX,
        ensures
            write.origin_x == self.x,
            write.origin_y == self.y,
            write.bytes_per_row == width * kind.spec_num_channels(),
            write.width == width,
            write.height == height,
    {
        let channels: u32 = match kind {
            Kind::Mask => 1,
            Kind::Color { .. } => 4,
        };
        TexelWrite {
            origin_x: self.x as u32,
            origin_y: self.y as u32,
            bytes_per_row: width * channels,
            width,
            height,
        }
    }
}

} // verus!
