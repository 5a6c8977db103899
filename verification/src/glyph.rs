//! Glyph identities, what the cache remembers about each glyph, and the checks
//! on re-rasterized custom glyphs.

use crate::kind::ContentType;
use vstd::prelude::*;

verus! {

/// Identifier that the caller gives to a custom glyph.
pub type CustomGlyphId = u16;

/// A quarter-pixel offset at which a glyph was rasterized.
#[derive(Debug, Clone, Copy, PartialEq, Eq, Hash, Structural)]
pub enum SubpixelBin {
    Zero,
    One,
    Two,
    Three,
}

/// Identity of a shaped, positioned glyph as the text-shaping subsystem
/// hands it out.
#[derive(Debug, Clone, Copy, PartialEq, Eq, Hash, Structural)]
pub struct CacheKey {
    /// Font the glyph belongs to.
    pub font_id: u64,
    /// Glyph index within the font.
    pub glyph_id: u16,
    /// Bit pattern of the font size.
    pub font_size_bits: u32,
    /// Horizontal sub-pixel bin.
    pub x_bin: SubpixelBin,
    /// Vertical sub-pixel bin.
    pub y_bin: SubpixelBin,
    /// Rendering flags.
    pub flags: u32,
}

/// Identity of a custom glyph at one size and sub-pixel position.
#[derive(Debug, Clone, Copy, PartialEq, Eq, Hash, Structural)]
pub struct CustomGlyphCacheKey {
    /// Identifier of the custom glyph.
    pub glyph_id: CustomGlyphId,
    /// Width of the bitmap in pixels.
    pub width: u16,
    /// Height of the bitmap in pixels.
    pub height: u16,
    /// Horizontal sub-pixel bin.
    pub x_bin: SubpixelBin,
    /// Vertical sub-pixel bin.
    pub y_bin: SubpixelBin,
}

/// Identity of a cached glyph. Two equal keys always stand for pixel-identical
/// bitmaps.
#[derive(Debug, Clone, Copy, PartialEq, Eq, Hash, Structural)]
pub enum GlyphonCacheKey {
    /// A glyph produced by text shaping.
    Text(CacheKey),
    /// A glyph produced by the caller's custom rasterizer.
    Custom(CustomGlyphCacheKey),
}

/// Where a cached glyph lives on the GPU.
#[derive(Debug, Clone, Copy, PartialEq, Eq, Structural)]
pub enum GpuCacheStatus {
    /// The glyph's pixels start at `(x, y)` in the surface for `content_type`.
    InAtlas { x: u16, y: u16, content_type: ContentType },
    /// The glyph is visually empty and was deliberately not rasterized.
    SkipRasterization,
}

/// What the cache remembers about one glyph.
#[derive(Debug, Clone, Copy, PartialEq, Eq, Structural)]
pub struct GlyphDetails {
    /// Width of the bitmap in pixels.
    pub width: u16,
    /// Height of the bitmap in pixels.
    pub height: u16,
    /// Placement on the GPU.
    pub gpu_cache: GpuCacheStatus,
    /// Identifier of the packed region, if the glyph has one.
    pub atlas_id: Option<u32>,
    /// Distance from the baseline to the bitmap's top edge.
    pub top: i16,
    /// Distance from the pen position to the bitmap's left edge.
    pub left: i16,
}

/// What the custom rasterizer is asked for. The caller adds the scale factor
/// of the frame before invoking the rasterizer.
#[derive(Debug, Clone, Copy, PartialEq, Eq, Structural)]
pub struct RasterizeCustomGlyphRequest {
    /// Identifier of the custom glyph.
    pub id: CustomGlyphId,
    /// Width of the requested bitmap in pixels.
    pub width: u16,
    /// Height of the requested bitmap in pixels.
    pub height: u16,
    /// Horizontal sub-pixel bin.
    pub x_bin: SubpixelBin,
    /// Vertical sub-pixel bin.
    pub y_bin: SubpixelBin,
}

impl CustomGlyphCacheKey {
    /// The request that reproduces the bitmap cached under this key.
    pub open spec fn spec_request(self) -> RasterizeCustomGlyphRequest {
        RasterizeCustomGlyphRequest {
            id: self.glyph_id,
            width: self.width,
            height: self.height,
            x_bin: self.x_bin,
            y_bin: self.y_bin,
        }
    }

    /// The request that reproduces the bitmap cached under this key.
    #[verifier::when_used_as_spec(spec_request)]
    pub fn request(self) -> (request: RasterizeCustomGlyphRequest)
        ensures
            request == self.spec_request(),
    {
        RasterizeCustomGlyphRequest {
            id: self.glyph_id,
            width: self.width,
            height: self.height,
            x_bin: self.x_bin,
            y_bin: self.y_bin,
        }
    }
}

impl RasterizeCustomGlyphRequest {
    /// Number of bytes a bitmap answering this request must hold when its
    /// pixels are of `content_type`.
    pub open spec fn expected_len(self, content_type: ContentType) -> int {
        self.width * self.height * content_type.spec_bytes_per_pixel()
    }
}

/// The output of the custom rasterizer.
#[derive(Debug, Clone, PartialEq, Eq)]
pub struct RasterizedCustomGlyph {
    /// Tightly packed pixel rows.
    pub data: Vec<u8>,
    /// What each pixel holds.
    pub content_type: ContentType,
}

/// Why the output of the custom rasterizer cannot be uploaded. Each of these
/// means that the rasterizer is not the deterministic function of its request
/// that the atlas relies on; callers are expected to abort on them.
#[derive(Debug, Clone, Copy, PartialEq, Eq, Structural)]
pub enum RasterizationError {
    /// The rasterizer produced nothing for a request it answered before.
    Missing { request: RasterizeCustomGlyphRequest },
    /// The bitmap's content type is not the one of the surface it goes to.
    ContentTypeMismatch {
        request: RasterizeCustomGlyphRequest,
        expected: ContentType,
        actual: ContentType,
    },
    /// The bitmap does not hold `width * height` pixels.
    SizeMismatch { request: RasterizeCustomGlyphRequest, expected_len: u64, actual_len: usize },
}

impl RasterizedCustomGlyph {
    /// Whether this bitmap answers `input`: it has the expected content type,
    /// where one is expected, and holds exactly the requested pixels.
    pub open spec fn answers(
        self,
        input: RasterizeCustomGlyphRequest,
        expected_type: Option<ContentType>,
    ) -> bool {
        &&& expected_type matches Some(t) ==> self.content_type == t
        &&& self.data@.len() == input.expected_len(self.content_type)
    }

    /// Checks this bitmap against the request it was rasterized for.
    ///
    /// The content type is checked first, so a bitmap that is wrong in both
    /// respects is reported as a content type mismatch.
    pub fn validate(
        &self,
        input: &RasterizeCustomGlyphRequest,
        expected_type: Option<ContentType>,
    ) -> (outcome: Result<(), RasterizationError>)
        ensures
            outcome is Ok <==> self.answers(*input, expected_type),
            outcome matches Err(e) ==> {
                if expected_type is Some && expected_type != Some(self.content_type) {
                    e == (RasterizationError::ContentTypeMismatch {
                        request: *input,
                        expected: expected_type->Some_0,
                        actual: self.content_type,
                    })
                } else {
                    e == (RasterizationError::SizeMismatch {
                        request: *input,
                        expected_len: input.expected_len(self.content_type) as u64,
                        actual_len: self.data@.len() as usize,
                    })
                }
            },
    {
        if let Some(expected) = expected_type {
            if self.content_type != expected {
                return Err(
                    RasterizationError::ContentTypeMismatch {
                        request: *input,
                        expected,
                        actual: self.content_type,
                    },
                );
            }
        }
        let bytes_per_pixel: u64 = match self.content_type {
            ContentType::Color => 4,
            ContentType::Mask => 1,
        };
        assert(input.width * input.height <= 0xffff * 0xffff) by (nonlinear_arith)
            requires
                input.width <= 0xffff,
                input.height <= 0xffff,
        ;
        let pixels: u64 = (input.width as u64) * (input.height as u64);
        let expected_len: u64 = pixels * bytes_per_pixel;
        let actual: usize = self.data.len();
        if actual as u64 == expected_len {
            Ok(())
        } else {
            Err(
                RasterizationError::SizeMismatch {
                    request: *input,
                    expected_len,
                    actual_len: actual,
                },
            )
        }
    }
}

/// Decides what becomes of the custom rasterizer's answer to `input` when a
/// glyph that is already cached is rasterized again: the bitmap is handed on
/// only if there is one and it answers the request.
pub fn check_rasterized(
    rasterized: Option<RasterizedCustomGlyph>,
    input: &RasterizeCustomGlyphRequest,
    expected_type: ContentType,
) -> (outcome: Result<RasterizedCustomGlyph, RasterizationError>)
    ensures
        outcome is Ok <==> (rasterized matches Some(glyph) && glyph.answers(
            *input,
            Some(expected_type),
        )),
        outcome matches Ok(glyph) ==> rasterized == Some(glyph),
        rasterized is None ==> outcome == Err::<RasterizedCustomGlyph, RasterizationError>(
            RasterizationError::Missing { request: *input },
        ),
        (rasterized matches Some(glyph) && glyph.content_type != expected_type) ==> outcome
            == Err::<RasterizedCustomGlyph, RasterizationError>(
            RasterizationError::ContentTypeMismatch {
                request: *input,
                expected: expected_type,
                actual: rasterized->Some_0.content_type,
            },
        ),
        (rasterized matches Some(glyph) && glyph.content_type == expected_type && glyph.data@.len()
            != input.expected_len(expected_type)) ==> outcome == Err::<
            RasterizedCustomGlyph,
            RasterizationError,
        >(
            RasterizationError::SizeMismatch {
                request: *input,
                expected_len: input.expected_len(expected_type) as u64,
                actual_len: rasterized->Some_0.data@.len() as usize,
            },
        ),
{
    match rasterized {
        None => Err(RasterizationError::Missing { request: *input }),
        Some(glyph) => match glyph.validate(input, Some(expected_type)) {
            Ok(()) => Ok(glyph),
            Err(e) => Err(e),
        },
    }
}

} // verus!
