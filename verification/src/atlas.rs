//! The atlas: one colour surface and one mask surface that grow
//! independently of each other.

use crate::inner::{grown_size, InnerAtlas};
use crate::packer::MAX_PACKER_SIDE;
use crate::kind::{ColorMode, ContentType, Kind};
use vstd::prelude::*;
use wgpu::TextureFormat;

verus! {

/// An atlas containing a cache of rasterized glyphs that can be rendered.
pub struct TextAtlas {
    color_atlas: InnerAtlas,
    mask_atlas: InnerAtlas,
    format: TextureFormat,
    color_mode: ColorMode,
}

impl TextAtlas {
    /// The surface for colour glyphs.
    pub closed spec fn spec_color_atlas(&self) -> InnerAtlas {
        self.color_atlas
    }

    /// The surface for mask glyphs.
    pub closed spec fn spec_mask_atlas(&self) -> InnerAtlas {
        self.mask_atlas
    }

    /// The format of the render target the atlas is drawn to.
    pub closed spec fn spec_format(&self) -> TextureFormat {
        self.format
    }

    /// The colour mode the atlas was created with.
    pub closed spec fn spec_color_mode(&self) -> ColorMode {
        self.color_mode
    }

    /// The surface that holds glyphs of `content_type`.
    pub open spec fn surface(&self, content_type: ContentType) -> InnerAtlas {
        match content_type {
            ContentType::Color => self.spec_color_atlas(),
            ContentType::Mask => self.spec_mask_atlas(),
        }
    }

    /// The invariant of an atlas: both surfaces are well formed, the mask
    /// surface is of the mask kind, and the colour surface is of the colour
    /// kind that the colour mode asks for.
    pub open spec fn wf(&self) -> bool {
        &&& self.spec_color_atlas().wf()
        &&& self.spec_mask_atlas().wf()
        &&& self.spec_mask_atlas().spec_kind() == Kind::Mask
        &&& self.spec_color_atlas().spec_kind() == self.spec_color_mode().spec_color_kind()
    }

    /// Creates a new [`TextAtlas`] with accurate colour management, for
    /// hardware whose largest texture side is `max_texture_dimension_2d` and a
    /// render target of `format`.
    pub fn new(max_texture_dimension_2d: u32, format: TextureFormat) -> (atlas: TextAtlas)
        ensures
            atlas.wf(),
            atlas.spec_format() == format,
            atlas.spec_color_mode() == ColorMode::Accurate,
            atlas.is_fresh(max_texture_dimension_2d),
    {
        Self::with_color_mode(max_texture_dimension_2d, format, ColorMode::Accurate)
    }

    /// Whether both surfaces are as [`InnerAtlas::new`] makes them for
    /// hardware whose largest texture side is `max_texture_dimension_2d`.
    pub open spec fn is_fresh(&self, max_texture_dimension_2d: u32) -> bool {
        &&& surface_is_fresh(self.spec_color_atlas(), max_texture_dimension_2d)
        &&& surface_is_fresh(self.spec_mask_atlas(), max_texture_dimension_2d)
    }

    /// Creates a new [`TextAtlas`] with the given [`ColorMode`], for hardware
    /// whose largest texture side is `max_texture_dimension_2d` and a render
    /// target of `format`.
    pub fn with_color_mode(
        max_texture_dimension_2d: u32,
        format: TextureFormat,
        color_mode: ColorMode,
    ) -> (atlas: TextAtlas)
        ensures
            atlas.wf(),
            atlas.spec_format() == format,
            atlas.spec_color_mode() == color_mode,
            atlas.is_fresh(max_texture_dimension_2d),
    {
        let color_atlas = InnerAtlas::new(max_texture_dimension_2d, color_mode.color_kind());
        let mask_atlas = InnerAtlas::new(max_texture_dimension_2d, Kind::Mask);
        TextAtlas { color_atlas, mask_atlas, format, color_mode }
    }

    /// Empties the usage sets of both surfaces. Cache entries and regions
    /// stay.
    pub fn trim(&mut self)
        requires
            old(self).wf(),
        ensures
            final(self).wf(),
            final(self).spec_format() == old(self).spec_format(),
            final(self).spec_color_mode() == old(self).spec_color_mode(),
            forall|content_type: ContentType|
                {
                    let after = #[trigger] final(self).surface(content_type);
                    let before = old(self).surface(content_type);
                    &&& after.in_use() == Set::<crate::glyph::GlyphonCacheKey>::empty()
                    &&& after.glyphs() == before.glyphs()
                    &&& after.same_surface(&before)
                },
    {
        self.mask_atlas.trim();
        self.color_atlas.trim();
        proof {
            assert forall|content_type: ContentType|
                {
                    let after = #[trigger] self.surface(content_type);
                    let before = old(self).surface(content_type);
                    &&& after.in_use() == Set::<crate::glyph::GlyphonCacheKey>::empty()
                    &&& after.glyphs() == before.glyphs()
                    &&& after.same_surface(&before)
                } by {
                match content_type {
                    ContentType::Color => {},
                    ContentType::Mask => {},
                }
            }
        }
    }

    /// Grows the surface for `content_type` as [`InnerAtlas::grow`] does and
    /// leaves the other surface alone. When this returns `true` the grown
    /// surface needs a new texture, and whatever binds the two textures has to
    /// be rebuilt from the current ones.
    ///
    /// Returns `false`, and changes nothing, exactly when that surface has
    /// reached the hardware maximum.
    pub fn grow(&mut self, content_type: ContentType) -> (did_grow: bool)
        requires
            old(self).wf(),
            old(self).surface(content_type).spec_size() < old(self).surface(
                content_type,
            ).spec_max_texture_dimension_2d() ==> grown_size(
                old(self).surface(content_type).spec_size(),
                old(self).surface(content_type).spec_max_texture_dimension_2d(),
            ) <= MAX_PACKER_SIDE,
        ensures
            final(self).wf(),
            final(self).spec_format() == old(self).spec_format(),
            final(self).spec_color_mode() == old(self).spec_color_mode(),
            did_grow == (old(self).surface(content_type).spec_size() < old(self).surface(
                content_type,
            ).spec_max_texture_dimension_2d()),
            !did_grow ==> *final(self) == *old(self),
            did_grow ==> final(self).surface(content_type).spec_size() == grown_size(
                old(self).surface(content_type).spec_size(),
                old(self).surface(content_type).spec_max_texture_dimension_2d(),
            ),
            final(self).surface(content_type).spec_kind() == old(self).surface(
                content_type,
            ).spec_kind(),
            final(self).surface(content_type).spec_max_texture_dimension_2d() == old(self).surface(
                content_type,
            ).spec_max_texture_dimension_2d(),
            final(self).surface(content_type).regions() == old(self).surface(
                content_type,
            ).regions(),
            final(self).surface(content_type).untouched() == old(self).surface(
                content_type,
            ).untouched(),
            final(self).surface(content_type).glyphs() == old(self).surface(content_type).glyphs(),
            final(self).surface(content_type).in_use() == old(self).surface(content_type).in_use(),
            forall|other: ContentType|
                other != content_type ==> #[trigger] final(self).surface(other) == old(
                    self,
                ).surface(other),
    {
        let did_grow = match content_type {
            ContentType::Mask => self.mask_atlas.grow(),
            ContentType::Color => self.color_atlas.grow(),
        };
        did_grow
    }

    /// The surface that holds glyphs of `content_type`.
    pub fn inner_for_content(&self, content_type: ContentType) -> (inner: &InnerAtlas)
        ensures
            *inner == self.surface(content_type),
    {
        match content_type {
            ContentType::Color => &self.color_atlas,
            ContentType::Mask => &self.mask_atlas,
        }
    }

    /// The surface that holds glyphs of `content_type`, for changing it in
    /// place. The other surface and the atlas's settings stay as they are.
    pub fn inner_for_content_mut(&mut self, content_type: ContentType) -> (inner: &mut InnerAtlas)
        ensures
            *inner == old(self).surface(content_type),
            final(self).surface(content_type) == *final(inner),
            forall|other: ContentType|
                other != content_type ==> #[trigger] final(self).surface(other) == old(
                    self,
                ).surface(other),
            final(self).spec_format() == old(self).spec_format(),
            final(self).spec_color_mode() == old(self).spec_color_mode(),
    {
        match content_type {
            ContentType::Color => &mut self.color_atlas,
            ContentType::Mask => &mut self.mask_atlas,
        }
    }

    /// The format of the render target the atlas is drawn to.
    #[verifier::when_used_as_spec(spec_format)]
    pub fn format(&self) -> (format: TextureFormat)
        ensures
            format == self.spec_format(),
    {
        self.format
    }

    /// The colour mode the atlas was created with.
    #[verifier::when_used_as_spec(spec_color_mode)]
    pub fn color_mode(&self) -> (color_mode: ColorMode)
        ensures
            color_mode == self.spec_color_mode(),
    {
        self.color_mode
    }
}

/// Whether `surface` is as [`InnerAtlas::new`] makes it for hardware whose
/// largest texture side is `max_texture_dimension_2d`.
pub open spec fn surface_is_fresh(surface: InnerAtlas, max_texture_dimension_2d: u32) -> bool {
    &&& surface.spec_max_texture_dimension_2d() == max_texture_dimension_2d
    &&& surface.spec_size() == crate::inner::initial_size(max_texture_dimension_2d)
    &&& surface.regions() == crate::packer::no_regions()
    &&& surface.untouched()
    &&& surface.glyphs() == Seq::<crate::cache::CacheEntry>::empty()
    &&& surface.in_use() == Set::<crate::glyph::GlyphonCacheKey>::empty()
}

} // verus!
