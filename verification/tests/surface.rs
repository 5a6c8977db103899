use text_atlas::glyph::{
    CacheKey, CustomGlyphCacheKey, GlyphDetails, GlyphonCacheKey, GpuCacheStatus,
    RasterizeCustomGlyphRequest, SubpixelBin,
};
use text_atlas::inner::{visible_region, InnerAtlas, INITIAL_SIZE};
use text_atlas::kind::{ContentType, Kind};
use text_atlas::packer::{Allocation, Point, Rectangle, MAX_PACKER_SIDE};
use text_atlas::upload::{GlyphSource, GlyphUpload};
use text_atlas::SHADOW_MARGIN_PX;

const M: i32 = SHADOW_MARGIN_PX as i32;

fn text_key(glyph_id: u16) -> GlyphonCacheKey {
    GlyphonCacheKey::Text(CacheKey {
        font_id: 7,
        glyph_id,
        font_size_bits: 0x4180_0000,
        x_bin: SubpixelBin::Zero,
        y_bin: SubpixelBin::Two,
        flags: 0,
    })
}

fn custom_key(glyph_id: u16, width: u16, height: u16) -> GlyphonCacheKey {
    GlyphonCacheKey::Custom(CustomGlyphCacheKey {
        glyph_id,
        width,
        height,
        x_bin: SubpixelBin::One,
        y_bin: SubpixelBin::Three,
    })
}

fn placed(x: u16, y: u16, width: u16, height: u16, content_type: ContentType) -> GlyphDetails {
    GlyphDetails {
        width,
        height,
        gpu_cache: GpuCacheStatus::InAtlas { x, y, content_type },
        atlas_id: Some(1),
        top: 3,
        left: -2,
    }
}

fn skipped() -> GlyphDetails {
    GlyphDetails {
        width: 0,
        height: 0,
        gpu_cache: GpuCacheStatus::SkipRasterization,
        atlas_id: None,
        top: 0,
        left: 0,
    }
}

/// The rectangle the packer reserved for `a`: the region and the margin
/// before its `min` corner.
fn reserved(a: &Allocation) -> (i32, i32, i32, i32) {
    (a.rectangle.min.x - M, a.rectangle.min.y - M, a.rectangle.max.x, a.rectangle.max.y)
}

fn overlap(a: (i32, i32, i32, i32), b: (i32, i32, i32, i32)) -> bool {
    a.0 < b.2 && b.0 < a.2 && a.1 < b.3 && b.1 < a.3
}

#[test]
fn fresh_surface_has_initial_size() {
    let atlas = InnerAtlas::new(8192, Kind::Mask);
    assert_eq!(atlas.size(), 4096);
    assert_eq!(atlas.size(), INITIAL_SIZE);
    assert_eq!(atlas.max_texture_dimension_2d(), 8192);
    assert_eq!(atlas.kind(), Kind::Mask);
    assert_eq!(atlas.num_channels(), 1);
    assert!(atlas.cached_glyphs().is_empty());
    assert!(atlas.reupload_plan().is_empty());
}

#[test]
fn fresh_surface_is_capped_by_hardware() {
    let atlas = InnerAtlas::new(2048, Kind::Color { srgb: true });
    assert_eq!(atlas.size(), 2048);
    assert_eq!(atlas.num_channels(), 4);
}

#[test]
fn grow_doubles_then_stops_at_hardware_maximum() {
    let mut atlas = InnerAtlas::new(8192, Kind::Mask);
    assert_eq!(atlas.next_size(), Some(8192));
    assert!(atlas.grow());
    assert_eq!(atlas.size(), 8192);
    assert_eq!(atlas.next_size(), None);
    assert!(!atlas.grow());
    assert_eq!(atlas.size(), 8192);
}

#[test]
fn grow_is_capped_at_hardware_maximum() {
    let mut atlas = InnerAtlas::new(6000, Kind::Mask);
    assert_eq!(atlas.next_size(), Some(6000));
    assert!(atlas.grow());
    assert_eq!(atlas.size(), 6000);
    assert!(!atlas.grow());
}

#[test]
fn grow_at_maximum_changes_nothing() {
    let mut atlas = InnerAtlas::new(4096, Kind::Color { srgb: false });
    let a = atlas.try_allocate(30, 40).unwrap();
    atlas.cache_glyph(text_key(1), placed(8, 8, 30, 40, ContentType::Color));
    atlas.mark_in_use(text_key(1));
    let before = atlas.cached_glyphs();

    assert!(!atlas.grow());

    assert_eq!(atlas.size(), 4096);
    assert_eq!(atlas.max_texture_dimension_2d(), 4096);
    assert_eq!(atlas.kind(), Kind::Color { srgb: false });
    assert_eq!(atlas.cached_glyphs(), before);
    assert!(atlas.is_in_use(&text_key(1)));
    let b = atlas.try_allocate(30, 40).unwrap();
    assert!(!overlap(reserved(&a), reserved(&b)));
}

#[test]
fn grow_up_to_the_packer_limit() {
    let mut atlas = InnerAtlas::new(MAX_PACKER_SIDE, Kind::Mask);
    let mut sizes = vec![atlas.size()];
    while atlas.grow() {
        sizes.push(atlas.size());
    }
    assert_eq!(sizes, vec![4096, 8192, 16384, 32768, 46340]);
    assert!(atlas.try_allocate(46340 - 16, 100).is_some());
}

#[test]
fn first_region_starts_behind_the_margin() {
    let mut atlas = InnerAtlas::new(8192, Kind::Mask);
    let a = atlas.try_allocate(10, 20).unwrap();
    // The first shelf starts at the top of the canvas.
    assert_eq!(a.rectangle.min.y, 8);
    assert!(a.rectangle.min.x >= 8);
    assert_eq!(a.rectangle.max.x - a.rectangle.min.x, 10 + M);
    assert!(a.rectangle.max.y - a.rectangle.min.y >= 20 + M);
    assert!(a.rectangle.max.x <= 4096 && a.rectangle.max.y <= 4096);
}

#[test]
fn region_keeps_the_margin_on_every_side() {
    let mut atlas = InnerAtlas::new(8192, Kind::Mask);
    let sizes: [(usize, usize); 6] = [(1, 1), (10, 20), (33, 7), (128, 128), (500, 3), (0, 0)];
    for (w, h) in sizes {
        let a = atlas.try_allocate(w, h).unwrap();
        let r = reserved(&a);
        assert!(r.0 >= 0 && r.1 >= 0);
        assert!(r.2 <= 4096 && r.3 <= 4096);
        assert_eq!(r.2 - r.0, w as i32 + 2 * M);
        assert!(r.3 - r.1 >= h as i32 + 2 * M);
        assert!(a.rectangle.min.x + w as i32 + M <= r.2);
        assert!(a.rectangle.min.y + h as i32 + M <= r.3);
    }
}

#[test]
fn regions_never_overlap() {
    let mut atlas = InnerAtlas::new(8192, Kind::Mask);
    let mut live: Vec<Allocation> = Vec::new();
    for i in 0..400usize {
        let w = 1 + (i * 7) % 61;
        let h = 1 + (i * 13) % 47;
        let a = atlas.try_allocate(w, h).unwrap();
        for other in &live {
            assert_ne!(other.id, a.id);
            assert!(!overlap(reserved(other), reserved(&a)));
        }
        live.push(a);
    }
}

#[test]
fn allocation_larger_than_canvas_fails() {
    let mut atlas = InnerAtlas::new(4096, Kind::Mask);
    assert!(atlas.try_allocate(4096 - 15, 10).is_none());
    assert!(atlas.try_allocate(10, 4096 - 15).is_none());
    assert!(atlas.try_allocate(4096, 4096).is_none());
    assert!(atlas.try_allocate(usize::MAX, 1).is_none());
    assert!(atlas.try_allocate(1, usize::MAX).is_none());
    assert!(atlas.try_allocate((1usize << 32) + 5, 5).is_none());
    // The canvas is still empty: the largest bitmap that fits gets it all.
    let a = atlas.try_allocate(4096 - 16, 4096 - 16).unwrap();
    assert_eq!(a.rectangle.min, Point { x: 8, y: 8 });
    assert_eq!(a.rectangle.max, Point { x: 4096, y: 4096 });
}

#[test]
fn refused_request_leaves_the_surface_as_it_was() {
    let mut atlas = InnerAtlas::new(4096, Kind::Mask);
    let first = atlas.try_allocate(4096 - 16, 2000).unwrap();
    atlas.cache_glyph(text_key(1), placed(8, 8, 30, 40, ContentType::Mask));
    atlas.mark_in_use(text_key(1));
    let entries = atlas.cached_glyphs();

    // Too high for what is left below the first shelf.
    assert!(atlas.try_allocate(4096 - 16, 3000).is_none());
    assert!(atlas.try_allocate(5000, 5000).is_none());

    assert_eq!(atlas.size(), 4096);
    assert_eq!(atlas.cached_glyphs(), entries);
    assert!(atlas.is_in_use(&text_key(1)));
    // What fitted before the refusals still fits after them.
    let second = atlas.try_allocate(4096 - 16, 1000).unwrap();
    assert!(!overlap(reserved(&first), reserved(&second)));
    assert!(reserved(&second).3 <= 4096);
}

#[test]
fn exhausted_surface_allocates_again_after_growing() {
    let mut atlas = InnerAtlas::new(8192, Kind::Mask);
    let first = atlas.try_allocate(4096 - 16, 4096 - 16).unwrap();
    assert!(atlas.try_allocate(1, 1).is_none());
    assert!(atlas.grow());
    let second = atlas.try_allocate(100, 100).unwrap();
    assert!(!overlap(reserved(&first), reserved(&second)));
    let r = reserved(&second);
    assert!(r.2 <= 8192 && r.3 <= 8192);
}

#[test]
fn regions_after_grow_avoid_regions_from_before() {
    let mut atlas = InnerAtlas::new(16384, Kind::Color { srgb: true });
    let mut before: Vec<Allocation> = Vec::new();
    for i in 0..50usize {
        before.push(atlas.try_allocate(20 + i, 30).unwrap());
    }
    assert!(atlas.grow());
    assert_eq!(atlas.size(), 8192);
    for i in 0..200usize {
        let a = atlas.try_allocate(5 + i % 90, 5 + i % 70).unwrap();
        for old in &before {
            assert!(!overlap(reserved(old), reserved(&a)));
        }
    }
}

#[test]
fn visible_region_moves_min_corner_only() {
    let raw = Allocation {
        id: 42,
        rectangle: Rectangle { min: Point { x: 100, y: 64 }, max: Point { x: 130, y: 96 } },
    };
    let a = visible_region(raw);
    assert_eq!(
        a,
        Allocation {
            id: 42,
            rectangle: Rectangle { min: Point { x: 108, y: 72 }, max: Point { x: 130, y: 96 } },
        }
    );
}

#[test]
fn cache_lists_most_recent_first() {
    let mut atlas = InnerAtlas::new(8192, Kind::Mask);
    assert_eq!(atlas.cache_glyph(text_key(1), placed(8, 8, 5, 5, ContentType::Mask)), None);
    assert_eq!(atlas.cache_glyph(text_key(2), skipped()), None);
    assert_eq!(atlas.cache_glyph(custom_key(3, 4, 6), placed(40, 8, 4, 6, ContentType::Mask)), None);
    assert_eq!(
        atlas.cached_glyphs(),
        vec![
            (custom_key(3, 4, 6), placed(40, 8, 4, 6, ContentType::Mask)),
            (text_key(2), skipped()),
            (text_key(1), placed(8, 8, 5, 5, ContentType::Mask)),
        ]
    );
}

#[test]
fn caching_again_replaces_and_promotes() {
    let mut atlas = InnerAtlas::new(8192, Kind::Mask);
    atlas.cache_glyph(text_key(1), placed(8, 8, 5, 5, ContentType::Mask));
    atlas.cache_glyph(text_key(2), skipped());
    let previous = atlas.cache_glyph(text_key(1), placed(90, 8, 5, 5, ContentType::Mask));
    assert_eq!(previous, Some(placed(8, 8, 5, 5, ContentType::Mask)));
    assert_eq!(
        atlas.cached_glyphs(),
        vec![(text_key(1), placed(90, 8, 5, 5, ContentType::Mask)), (text_key(2), skipped())]
    );
}

#[test]
fn reupload_plan_lists_placed_glyphs_at_their_coordinates() {
    let mut atlas = InnerAtlas::new(8192, Kind::Color { srgb: true });
    atlas.cache_glyph(text_key(1), placed(8, 8, 5, 5, ContentType::Color));
    atlas.cache_glyph(text_key(2), skipped());
    atlas.cache_glyph(custom_key(3, 4, 6), placed(40, 24, 4, 6, ContentType::Color));
    let before = atlas.reupload_plan();

    assert!(atlas.grow());

    let plan = atlas.reupload_plan();
    assert_eq!(plan, before);
    assert_eq!(
        plan,
        vec![
            GlyphUpload {
                source: GlyphSource::Custom(RasterizeCustomGlyphRequest {
                    id: 3,
                    width: 4,
                    height: 6,
                    x_bin: SubpixelBin::One,
                    y_bin: SubpixelBin::Three,
                }),
                x: 40,
                y: 24,
            },
            GlyphUpload {
                source: GlyphSource::Text(CacheKey {
                    font_id: 7,
                    glyph_id: 1,
                    font_size_bits: 0x4180_0000,
                    x_bin: SubpixelBin::Zero,
                    y_bin: SubpixelBin::Two,
                    flags: 0,
                }),
                x: 8,
                y: 8,
            },
        ]
    );
}

#[test]
fn grow_keeps_cache_and_usage() {
    let mut atlas = InnerAtlas::new(8192, Kind::Mask);
    atlas.cache_glyph(text_key(1), placed(8, 8, 5, 5, ContentType::Mask));
    atlas.cache_glyph(text_key(2), skipped());
    atlas.mark_in_use(text_key(2));
    let entries = atlas.cached_glyphs();
    assert!(atlas.grow());
    assert_eq!(atlas.cached_glyphs(), entries);
    assert!(atlas.is_in_use(&text_key(2)));
    assert!(!atlas.is_in_use(&text_key(1)));
    assert_eq!(atlas.kind(), Kind::Mask);
    assert_eq!(atlas.max_texture_dimension_2d(), 8192);
}

#[test]
fn trim_empties_usage_and_keeps_the_rest() {
    let mut atlas = InnerAtlas::new(8192, Kind::Mask);
    let a = atlas.try_allocate(12, 12).unwrap();
    atlas.cache_glyph(text_key(1), placed(8, 8, 12, 12, ContentType::Mask));
    atlas.cache_glyph(text_key(2), skipped());
    assert!(atlas.mark_in_use(text_key(1)));
    assert!(!atlas.mark_in_use(text_key(1)));
    assert!(atlas.mark_in_use(custom_key(9, 1, 1)));
    let entries = atlas.cached_glyphs();

    atlas.trim();

    assert!(!atlas.is_in_use(&text_key(1)));
    assert!(!atlas.is_in_use(&custom_key(9, 1, 1)));
    assert_eq!(atlas.cached_glyphs(), entries);
    assert_eq!(atlas.size(), 4096);
    let b = atlas.try_allocate(12, 12).unwrap();
    assert!(!overlap(reserved(&a), reserved(&b)));
    assert!(atlas.mark_in_use(text_key(1)));
}
