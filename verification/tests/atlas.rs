use text_atlas::atlas::TextAtlas;
use text_atlas::glyph::{CacheKey, GlyphDetails, GlyphonCacheKey, GpuCacheStatus, SubpixelBin};
use text_atlas::kind::{ColorMode, ContentType, Kind};
use wgpu::TextureFormat;

fn key(glyph_id: u16) -> GlyphonCacheKey {
    GlyphonCacheKey::Text(CacheKey {
        font_id: 1,
        glyph_id,
        font_size_bits: 12,
        x_bin: SubpixelBin::Zero,
        y_bin: SubpixelBin::Zero,
        flags: 0,
    })
}

fn details(x: u16, y: u16, content_type: ContentType) -> GlyphDetails {
    GlyphDetails {
        width: 9,
        height: 11,
        gpu_cache: GpuCacheStatus::InAtlas { x, y, content_type },
        atlas_id: Some(0),
        top: 0,
        left: 0,
    }
}

#[test]
fn accurate_mode_uses_srgb_color_format() {
    let atlas = TextAtlas::with_color_mode(8192, TextureFormat::Bgra8Unorm, ColorMode::Accurate);
    let format = atlas.inner_for_content(ContentType::Color).kind().texture_format();
    assert_eq!(format, TextureFormat::Rgba8UnormSrgb);
    assert!(format.is_srgb());
    assert_eq!(atlas.inner_for_content(ContentType::Color).kind(), Kind::Color { srgb: true });
}

#[test]
fn web_mode_uses_linear_color_format() {
    let atlas = TextAtlas::with_color_mode(8192, TextureFormat::Bgra8Unorm, ColorMode::Web);
    let format = atlas.inner_for_content(ContentType::Color).kind().texture_format();
    assert_eq!(format, TextureFormat::Rgba8Unorm);
    assert!(!format.is_srgb());
    assert_eq!(atlas.inner_for_content(ContentType::Color).kind(), Kind::Color { srgb: false });
}

#[test]
fn mask_format_is_independent_of_color_mode() {
    for mode in [ColorMode::Accurate, ColorMode::Web] {
        let atlas = TextAtlas::with_color_mode(8192, TextureFormat::Bgra8Unorm, mode);
        let kind = atlas.inner_for_content(ContentType::Mask).kind();
        assert_eq!(kind, Kind::Mask);
        assert_eq!(kind.texture_format(), TextureFormat::R8Unorm);
        assert!(!kind.texture_format().is_srgb());
    }
}

#[test]
fn color_kind_follows_color_mode() {
    assert_eq!(ColorMode::Accurate.color_kind(), Kind::Color { srgb: true });
    assert_eq!(ColorMode::Web.color_kind(), Kind::Color { srgb: false });
}

#[test]
fn kinds_report_channels_and_content_type() {
    assert_eq!(Kind::Mask.num_channels(), 1);
    assert_eq!(Kind::Color { srgb: true }.num_channels(), 4);
    assert_eq!(Kind::Color { srgb: false }.num_channels(), 4);
    assert_eq!(Kind::Mask.as_content_type(), ContentType::Mask);
    assert_eq!(Kind::Color { srgb: true }.as_content_type(), ContentType::Color);
    assert_eq!(Kind::Color { srgb: false }.as_content_type(), ContentType::Color);
    assert_eq!(ContentType::Mask.bytes_per_pixel(), 1);
    assert_eq!(ContentType::Color.bytes_per_pixel(), 4);
}

#[test]
fn new_atlas_is_accurate_and_keeps_output_format() {
    let atlas = TextAtlas::new(16384, TextureFormat::Bgra8UnormSrgb);
    assert_eq!(atlas.color_mode(), ColorMode::Accurate);
    assert_eq!(atlas.format(), TextureFormat::Bgra8UnormSrgb);
    assert_eq!(atlas.inner_for_content(ContentType::Color).size(), 4096);
    assert_eq!(atlas.inner_for_content(ContentType::Mask).size(), 4096);
    assert_eq!(atlas.inner_for_content(ContentType::Mask).max_texture_dimension_2d(), 16384);
    assert_eq!(atlas.inner_for_content(ContentType::Color).num_channels(), 4);
    assert_eq!(atlas.inner_for_content(ContentType::Mask).num_channels(), 1);
}

#[test]
fn grow_touches_only_the_chosen_surface() {
    let mut atlas = TextAtlas::new(8192, TextureFormat::Bgra8Unorm);
    assert!(atlas.grow(ContentType::Mask));
    assert_eq!(atlas.inner_for_content(ContentType::Mask).size(), 8192);
    assert_eq!(atlas.inner_for_content(ContentType::Color).size(), 4096);
    assert!(!atlas.grow(ContentType::Mask));
    assert!(atlas.grow(ContentType::Color));
    assert_eq!(atlas.inner_for_content(ContentType::Color).size(), 8192);
    assert!(!atlas.grow(ContentType::Color));
    assert_eq!(atlas.format(), TextureFormat::Bgra8Unorm);
    assert_eq!(atlas.color_mode(), ColorMode::Accurate);
}

#[test]
fn trim_clears_both_usage_sets() {
    let mut atlas = TextAtlas::new(8192, TextureFormat::Bgra8Unorm);
    {
        let mask = atlas.inner_for_content_mut(ContentType::Mask);
        mask.cache_glyph(key(1), details(8, 8, ContentType::Mask));
        mask.mark_in_use(key(1));
    }
    {
        let color = atlas.inner_for_content_mut(ContentType::Color);
        color.cache_glyph(key(2), details(8, 8, ContentType::Color));
        color.mark_in_use(key(2));
    }
    assert!(atlas.inner_for_content(ContentType::Mask).is_in_use(&key(1)));
    assert!(atlas.inner_for_content(ContentType::Color).is_in_use(&key(2)));

    atlas.trim();

    assert!(!atlas.inner_for_content(ContentType::Mask).is_in_use(&key(1)));
    assert!(!atlas.inner_for_content(ContentType::Color).is_in_use(&key(2)));
    assert_eq!(
        atlas.inner_for_content(ContentType::Mask).cached_glyphs(),
        vec![(key(1), details(8, 8, ContentType::Mask))]
    );
    assert_eq!(
        atlas.inner_for_content(ContentType::Color).cached_glyphs(),
        vec![(key(2), details(8, 8, ContentType::Color))]
    );
}

#[test]
fn mutable_access_reaches_the_matching_surface() {
    let mut atlas = TextAtlas::with_color_mode(8192, TextureFormat::Bgra8Unorm, ColorMode::Web);
    assert_eq!(atlas.inner_for_content_mut(ContentType::Color).kind(), Kind::Color { srgb: false });
    assert_eq!(atlas.inner_for_content_mut(ContentType::Mask).kind(), Kind::Mask);
    assert!(atlas.inner_for_content_mut(ContentType::Mask).try_allocate(3, 3).is_some());
    assert!(atlas.inner_for_content_mut(ContentType::Color).grow());
    assert_eq!(atlas.inner_for_content(ContentType::Color).size(), 8192);
    assert_eq!(atlas.inner_for_content(ContentType::Mask).size(), 4096);
}
