//! Content kinds of an atlas surface and the texture format each one is
//! stored in.

use vstd::prelude::*;
use wgpu::TextureFormat;

verus! {

/// Block dimensions of wgpu's ASTC formats; declared only because
/// `wgpu::TextureFormat` carries them in one of its variants.
#[verifier::external_type_specification]
pub struct ExAstcBlock(wgpu::AstcBlock);

/// Channel layout of wgpu's ASTC formats; declared only because
/// `wgpu::TextureFormat` carries it in one of its variants.
#[verifier::external_type_specification]
pub struct ExAstcChannel(wgpu::AstcChannel);

/// wgpu's texture format enum, with all of its variants visible to the
/// verifier.
#[verifier::external_type_specification]
pub struct ExTextureFormat(wgpu::TextureFormat);

/// What a glyph bitmap holds: one coverage byte per pixel, or four colour
/// bytes per pixel.
#[derive(Debug, Clone, Copy, PartialEq, Eq, Hash, Structural)]
pub enum ContentType {
    /// Each pixel is four bytes of RGBA colour.
    Color,
    /// Each pixel is a single byte of coverage.
    Mask,
}

impl ContentType {
    /// Bytes that one pixel of this content occupies.
    pub open spec fn spec_bytes_per_pixel(self) -> usize {
        match self {
            ContentType::Color => 4,
            ContentType::Mask => 1,
        }
    }

    /// Bytes that one pixel of this content occupies.
    #[verifier::when_used_as_spec(spec_bytes_per_pixel)]
    pub fn bytes_per_pixel(self) -> (n: usize)
        ensures
            n == self.spec_bytes_per_pixel(),
    {
        match self {
            ContentType::Color => 4,
            ContentType::Mask => 1,
        }
    }
}

/// The color mode of a [`crate::atlas::TextAtlas`].
#[derive(Debug, Clone, Copy, PartialEq, Eq, Structural)]
pub enum ColorMode {
    /// Accurate color management.
    ///
    /// This mode will use a proper sRGB texture for colored glyphs. This will
    /// produce physically accurate color blending when rendering.
    Accurate,
    /// Web color management.
    ///
    /// This mode reproduces the color management strategy used in the Web and
    /// implemented by browsers.
    ///
    /// This entails storing glyphs colored using the sRGB color space in a
    /// linear RGB texture. Blending will not be physically accurate, but will
    /// produce the same results as most UI toolkits.
    ///
    /// This mode should be used to render to a linear RGB texture containing
    /// sRGB colors.
    Web,
}

impl ColorMode {
    /// The kind of the colour surface under this mode: sRGB-encoded storage
    /// exactly for `Accurate`.
    pub open spec fn spec_color_kind(self) -> Kind {
        Kind::Color { srgb: self == ColorMode::Accurate }
    }

    /// The kind of the colour surface under this mode.
    #[verifier::when_used_as_spec(spec_color_kind)]
    pub fn color_kind(self) -> (kind: Kind)
        ensures
            kind == self.spec_color_kind(),
    {
        Kind::Color {
            srgb: match self {
                ColorMode::Accurate => true,
                ColorMode::Web => false,
            },
        }
    }
}

/// The content kind of one atlas surface.
#[derive(Debug, Clone, Copy, PartialEq, Eq, Structural)]
pub enum Kind {
    /// Single-channel coverage.
    Mask,
    /// Four-channel colour, stored sRGB-encoded when `srgb` is set and as
    /// linear bytes otherwise.
    Color { srgb: bool },
}

impl Kind {
    /// Channels per texel: 1 for a mask, 4 for colour.
    pub open spec fn spec_num_channels(self) -> usize {
        match self {
            Kind::Mask => 1,
            Kind::Color { .. } => 4,
        }
    }

    /// The texture format a surface of this kind is stored in.
    pub open spec fn spec_texture_format(self) -> TextureFormat {
        match self {
            Kind::Mask => TextureFormat::R8Unorm,
            Kind::Color { srgb } => if srgb {
                TextureFormat::Rgba8UnormSrgb
            } else {
                TextureFormat::Rgba8Unorm
            },
        }
    }

    /// The content type of the bitmaps a surface of this kind accepts.
    pub open spec fn spec_as_content_type(&self) -> ContentType {
        match self {
            Kind::Mask => ContentType::Mask,
            Kind::Color { .. } => ContentType::Color,
        }
    }

    /// Channels per texel: 1 for a mask, 4 for colour.
    #[verifier::when_used_as_spec(spec_num_channels)]
    pub fn num_channels(self) -> (n: usize)
        ensures
            n == self.spec_num_channels(),
    {
        match self {
            Kind::Mask => 1,
            Kind::Color { .. } => 4,
        }
    }

    /// The texture format a surface of this kind is stored in.
    #[verifier::when_used_as_spec(spec_texture_format)]
    pub fn texture_format(self) -> (format: TextureFormat)
        ensures
            format == self.spec_texture_format(),
    {
        match self {
            Kind::Mask => TextureFormat::R8Unorm,
            Kind::Color { srgb } => {
                if srgb {
                    TextureFormat::Rgba8UnormSrgb
                } else {
                    TextureFormat::Rgba8Unorm
                }
            },
        }
    }

    /// The content type of the bitmaps a surface of this kind accepts.
    #[verifier::when_used_as_spec(spec_as_content_type)]
    pub fn as_content_type(&self) -> (content_type: ContentType)
        ensures
            content_type == self.spec_as_content_type(),
    {
        match self {
            Kind::Mask => ContentType::Mask,
            Kind::Color { .. } => ContentType::Color,
        }
    }
}

/// The mask surface's format does not depend on the colour mode, and the
/// colour surface's format is the sRGB one exactly under
/// [`ColorMode::Accurate`]; a texel always has as many channels as a pixel of
/// the surface's content type has bytes.
pub proof fn lemma_format_policy(mode: ColorMode)
    ensures
        Kind::Mask.spec_texture_format() == TextureFormat::R8Unorm,
        mode == ColorMode::Accurate ==> mode.spec_color_kind().spec_texture_format()
            == TextureFormat::Rgba8UnormSrgb,
        mode == ColorMode::Web ==> mode.spec_color_kind().spec_texture_format()
            == TextureFormat::Rgba8Unorm,
        mode.spec_color_kind().spec_num_channels()
            == mode.spec_color_kind().spec_as_content_type().spec_bytes_per_pixel(),
        Kind::Mask.spec_num_channels() == Kind::Mask.spec_as_content_type().spec_bytes_per_pixel(),
{
}

} // verus!
