//! One surface of the atlas: a square canvas of a single content kind with its
//! packer, its glyph cache and the set of glyphs used in the current frame.

use crate::cache::{
    cache_entries, cache_new, cache_put, cache_snapshot, find_key, keys_distinct, lemma_put_front,
    put_front, CacheEntry, GlyphCache,
};
use crate::glyph::{GlyphDetails, GlyphonCacheKey};
use crate::kind::Kind;
use crate::packer::{
    all_within, lemma_insert_keeps_disjoint, no_regions, packer_allocate, packer_bounds,
    packer_grow, packer_live, packer_new, packer_unused, pairwise_disjoint, Allocation, Point,
    Rectangle, MAX_PACKER_SIDE,
};
use crate::upload::{plan_uploads, uploads_of, GlyphUpload};
use crate::usage::UsageSet;
use crate::SHADOW_MARGIN_PX;
use etagere::BucketedAtlasAllocator;
use vstd::prelude::*;

verus! {

/// Side of a fresh surface in pixels, unless the hardware allows less.
pub const INITIAL_SIZE: u32 = 4096;

/// Factor by which a surface's side grows, unless the hardware allows less.
pub const GROWTH_FACTOR: u32 = 2;

/// The side a fresh surface gets on hardware whose largest texture side is
/// `max_texture_dimension_2d`.
pub open spec fn initial_size(max_texture_dimension_2d: u32) -> u32 {
    if INITIAL_SIZE <= max_texture_dimension_2d {
        INITIAL_SIZE
    } else {
        max_texture_dimension_2d
    }
}

/// The side a surface of side `size` grows to: twice the side, capped at the
/// hardware maximum.
pub open spec fn grown_size(size: u32, max_texture_dimension_2d: u32) -> int {
    if size * GROWTH_FACTOR <= max_texture_dimension_2d {
        size * GROWTH_FACTOR
    } else {
        max_texture_dimension_2d as int
    }
}

/// The rectangle that the packer reserved for a region handed to a caller:
/// the region itself and the margin before its `min` corner.
pub open spec fn padded_region(allocation: Allocation) -> Rectangle {
    Rectangle {
        min: Point {
            x: (allocation.rectangle.min.x - SHADOW_MARGIN_PX) as i32,
            y: (allocation.rectangle.min.y - SHADOW_MARGIN_PX) as i32,
        },
        max: allocation.rectangle.max,
    }
}

/// Whether a bitmap of `width` by `height` pixels fits, with the margin on
/// every side, on an empty square canvas of side `size`.
pub open spec fn fits_empty_canvas(width: int, height: int, size: int) -> bool {
    &&& width + 2 * SHADOW_MARGIN_PX <= size
    &&& height + 2 * SHADOW_MARGIN_PX <= size
}

/// Whether a glyph of `width` by `height` pixels placed at the `min` corner of
/// `allocation` keeps the margin on all four sides inside `reserved`.
pub open spec fn margin_reserved(
    allocation: Allocation,
    width: int,
    height: int,
    reserved: Rectangle,
) -> bool {
    &&& reserved.min.x <= allocation.rectangle.min.x - SHADOW_MARGIN_PX
    &&& reserved.min.y <= allocation.rectangle.min.y - SHADOW_MARGIN_PX
    &&& allocation.rectangle.min.x + width + SHADOW_MARGIN_PX <= reserved.max.x
    &&& allocation.rectangle.min.y + height + SHADOW_MARGIN_PX <= reserved.max.y
}

/// Turns the rectangle that the packer reserved into the region handed to the
/// caller: the `min` corner moves inward by the margin, the rest stays.
pub fn visible_region(reserved: Allocation) -> (allocation: Allocation)
    requires
        reserved.rectangle.min.x + SHADOW_MARGIN_PX <= i32::MAX,
        reserved.rectangle.min.y + SHADOW_MARGIN_PX <= i32::MAX,
    ensures
        allocation.id == reserved.id,
        allocation.rectangle.min.x == reserved.rectangle.min.x + SHADOW_MARGIN_PX,
        allocation.rectangle.min.y == reserved.rectangle.min.y + SHADOW_MARGIN_PX,
        allocation.rectangle.max == reserved.rectangle.max,
        padded_region(allocation) == reserved.rectangle,
{
    let margin: i32 = SHADOW_MARGIN_PX as i32;
    let mut allocation = reserved;
    allocation.rectangle.min.x = allocation.rectangle.min.x + margin;
    allocation.rectangle.min.y = allocation.rectangle.min.y + margin;
    allocation
}

/// One surface of the atlas.
pub struct InnerAtlas {
    kind: Kind,
    packer: BucketedAtlasAllocator,
    size: u32,
    glyph_cache: GlyphCache,
    glyphs_in_use: UsageSet,
    max_texture_dimension_2d: u32,
}

impl InnerAtlas {
    /// The content kind of the surface.
    pub closed spec fn spec_kind(&self) -> Kind {
        self.kind
    }

    /// The side of the square canvas in pixels.
    pub closed spec fn spec_size(&self) -> u32 {
        self.size
    }

    /// The largest side the hardware supports.
    pub closed spec fn spec_max_texture_dimension_2d(&self) -> u32 {
        self.max_texture_dimension_2d
    }

    /// The rectangles reserved on the canvas, margins included, each under
    /// the identifier of its region.
    pub closed spec fn regions(&self) -> Map<u32, Rectangle> {
        packer_live(self.packer)
    }

    /// Whether the surface has never handed out a region.
    pub closed spec fn untouched(&self) -> bool {
        packer_unused(self.packer)
    }

    /// The `(width, height)` that the packer packs into.
    pub closed spec fn canvas(&self) -> (int, int) {
        packer_bounds(self.packer)
    }

    /// The cached glyphs, most recently used first.
    pub closed spec fn glyphs(&self) -> Seq<CacheEntry> {
        cache_entries(self.glyph_cache)
    }

    /// The glyphs referenced during the current frame.
    pub closed spec fn in_use(&self) -> Set<GlyphonCacheKey> {
        self.glyphs_in_use@
    }

    /// Whether the usage set is well formed.
    pub closed spec fn usage_wf(&self) -> bool {
        self.glyphs_in_use.wf()
    }

    /// The invariant of a surface: the packer packs into the square of the
    /// current side, which is at least the side of a fresh surface and
    /// neither exceeds the hardware maximum nor what the packer can work
    /// with; every reserved rectangle lies on the canvas and no two of them
    /// overlap; a surface that has never handed out a region holds none; no
    /// glyph is cached twice.
    pub open spec fn wf(&self) -> bool {
        &&& self.canvas() == (self.spec_size() as int, self.spec_size() as int)
        &&& initial_size(self.spec_max_texture_dimension_2d()) <= self.spec_size()
        &&& self.spec_size() <= self.spec_max_texture_dimension_2d()
        &&& self.spec_size() <= MAX_PACKER_SIDE
        &&& all_within(self.regions(), self.spec_size() as int, self.spec_size() as int)
        &&& pairwise_disjoint(self.regions())
        &&& self.untouched() ==> self.regions() == no_regions()
        &&& keys_distinct(self.glyphs())
        &&& self.usage_wf()
    }

    /// Whether packing state and settings are those of `other`: everything
    /// but the cache and the usage set.
    pub open spec fn same_surface(&self, other: &InnerAtlas) -> bool {
        &&& self.spec_kind() == other.spec_kind()
        &&& self.spec_size() == other.spec_size()
        &&& self.spec_max_texture_dimension_2d() == other.spec_max_texture_dimension_2d()
        &&& self.regions() == other.regions()
        &&& self.untouched() == other.untouched()
        &&& self.canvas() == other.canvas()
    }

    /// A fresh surface of `kind` for hardware whose largest texture side is
    /// `max_texture_dimension_2d`: nothing is packed, cached or in use.
    pub fn new(max_texture_dimension_2d: u32, kind: Kind) -> (atlas: InnerAtlas)
        ensures
            atlas.wf(),
            atlas.spec_kind() == kind,
            atlas.spec_max_texture_dimension_2d() == max_texture_dimension_2d,
            atlas.spec_size() == initial_size(max_texture_dimension_2d),
            atlas.regions() == no_regions(),
            atlas.untouched(),
            atlas.glyphs() == Seq::<CacheEntry>::empty(),
            atlas.in_use() == Set::<GlyphonCacheKey>::empty(),
    {
        let size: u32 = if INITIAL_SIZE <= max_texture_dimension_2d {
            INITIAL_SIZE
        } else {
            max_texture_dimension_2d
        };
        let packer = packer_new(size as i32, size as i32);
        let glyph_cache = cache_new();
        let glyphs_in_use = UsageSet::new();
        InnerAtlas { kind, packer, size, glyph_cache, glyphs_in_use, max_texture_dimension_2d }
    }

    /// The content kind of the surface.
    #[verifier::when_used_as_spec(spec_kind)]
    pub fn kind(&self) -> (kind: Kind)
        ensures
            kind == self.spec_kind(),
    {
        self.kind
    }

    /// The side of the square canvas in pixels.
    #[verifier::when_used_as_spec(spec_size)]
    pub fn size(&self) -> (size: u32)
        ensures
            size == self.spec_size(),
    {
        self.size
    }

    /// The largest side the hardware supports.
    #[verifier::when_used_as_spec(spec_max_texture_dimension_2d)]
    pub fn max_texture_dimension_2d(&self) -> (max: u32)
        ensures
            max == self.spec_max_texture_dimension_2d(),
    {
        self.max_texture_dimension_2d
    }

    /// Channels per texel of the surface's texture.
    pub fn num_channels(&self) -> (n: usize)
        ensures
            n == self.spec_kind().spec_num_channels(),
    {
        self.kind.num_channels()
    }

    /// Reserves room for a bitmap of `width` by `height` pixels with the
    /// shadow margin on every side, and returns the region whose `min` corner
    /// is where the bitmap's first pixel goes.
    ///
    /// Nothing is returned, and nothing changes, when the packer has no room
    /// left. A bitmap that does not fit on the empty canvas together with its
    /// margins never gets a region; on a surface that has never handed out a
    /// region, every other bitmap gets one.
    pub fn try_allocate(&mut self, width: usize, height: usize) -> (allocation: Option<Allocation>)
        requires
            old(self).wf(),
        ensures
            final(self).wf(),
            final(self).spec_kind() == old(self).spec_kind(),
            final(self).spec_size() == old(self).spec_size(),
            final(self).spec_max_texture_dimension_2d() == old(
                self,
            ).spec_max_texture_dimension_2d(),
            final(self).glyphs() == old(self).glyphs(),
            final(self).in_use() == old(self).in_use(),
            allocation is None ==> *final(self) == *old(self),
            allocation is Some ==> !final(self).untouched(),
            !fits_empty_canvas(width as int, height as int, old(self).spec_size() as int)
                ==> allocation is None,
            old(self).untouched() && fits_empty_canvas(
                width as int,
                height as int,
                old(self).spec_size() as int,
            ) ==> allocation is Some,
            allocation matches Some(a) ==> {
                &&& !old(self).regions().contains_key(a.id)
                &&& final(self).regions() == old(self).regions().insert(a.id, padded_region(a))
                &&& padded_region(a).within(
                    old(self).spec_size() as int,
                    old(self).spec_size() as int,
                )
                &&& a.rectangle.min.x == padded_region(a).min.x + SHADOW_MARGIN_PX
                &&& a.rectangle.min.y == padded_region(a).min.y + SHADOW_MARGIN_PX
                &&& padded_region(a).width() == width + 2 * SHADOW_MARGIN_PX
                &&& padded_region(a).height() >= height + 2 * SHADOW_MARGIN_PX
                &&& margin_reserved(a, width as int, height as int, padded_region(a))
                &&& forall|other: u32| #[trigger]
                    old(self).regions().contains_key(other) ==> !padded_region(a).overlaps(
                        old(self).regions()[other],
                    )
            },
    {
        if width > self.size as usize || height > self.size as usize {
            return None;
        }
        let margin: i32 = SHADOW_MARGIN_PX as i32;
        let padded_width: i32 = width as i32 + 2 * margin;
        let padded_height: i32 = height as i32 + 2 * margin;
        match packer_allocate(&mut self.packer, padded_width, padded_height) {
            None => None,
            Some(reserved) => {
                proof {
                    lemma_insert_keeps_disjoint(
                        old(self).regions(),
                        reserved.id,
                        reserved.rectangle,
                    );
                }
                Some(visible_region(reserved))
            },
        }
    }

    /// Grows the surface: the side doubles, capped at the hardware maximum,
    /// and the packer extends its canvas to it. Every reserved rectangle,
    /// every cache entry and the usage set stay as they are. The caller has
    /// to create a texture of the new size and fill it as
    /// [`InnerAtlas::reupload_plan`] says.
    ///
    /// Returns `false`, and changes nothing, exactly when the side has
    /// reached the hardware maximum.
    ///
    /// The side grown to has to be one the packer can work with; on hardware
    /// whose limit is at most [`MAX_PACKER_SIDE`] it always is.
    pub fn grow(&mut self) -> (did_grow: bool)
        requires
            old(self).wf(),
            old(self).spec_size() < old(self).spec_max_texture_dimension_2d() ==> grown_size(
                old(self).spec_size(),
                old(self).spec_max_texture_dimension_2d(),
            ) <= MAX_PACKER_SIDE,
        ensures
            final(self).wf(),
            did_grow == (old(self).spec_size() < old(self).spec_max_texture_dimension_2d()),
            !did_grow ==> *final(self) == *old(self),
            did_grow ==> final(self).spec_size() == grown_size(
                old(self).spec_size(),
                old(self).spec_max_texture_dimension_2d(),
            ),
            did_grow ==> final(self).spec_size() > old(self).spec_size(),
            final(self).spec_kind() == old(self).spec_kind(),
            final(self).spec_max_texture_dimension_2d() == old(
                self,
            ).spec_max_texture_dimension_2d(),
            final(self).regions() == old(self).regions(),
            final(self).untouched() == old(self).untouched(),
            final(self).glyphs() == old(self).glyphs(),
            final(self).in_use() == old(self).in_use(),
    {
        if self.size >= self.max_texture_dimension_2d {
            return false;
        }
        let doubled: u32 = self.size * GROWTH_FACTOR;
        let new_size: u32 = if doubled <= self.max_texture_dimension_2d {
            doubled
        } else {
            self.max_texture_dimension_2d
        };
        packer_grow(&mut self.packer, new_size as i32, new_size as i32);
        self.size = new_size;
        true
    }

    /// The side that [`InnerAtlas::grow`] would grow the surface to, or
    /// nothing when the side has reached the hardware maximum.
    pub fn next_size(&self) -> (next: Option<u32>)
        requires
            self.wf(),
        ensures
            next is Some <==> self.spec_size() < self.spec_max_texture_dimension_2d(),
            next matches Some(side) ==> side == grown_size(
                self.spec_size(),
                self.spec_max_texture_dimension_2d(),
            ),
    {
        if self.size >= self.max_texture_dimension_2d {
            None
        } else {
            let doubled: u32 = self.size * GROWTH_FACTOR;
            if doubled <= self.max_texture_dimension_2d {
                Some(doubled)
            } else {
                Some(self.max_texture_dimension_2d)
            }
        }
    }

    /// The uploads that fill a fresh texture of this surface: one for every
    /// cached glyph that is placed in the atlas, at the coordinates recorded
    /// for it, from the most to the least recently used.
    pub fn reupload_plan(&self) -> (plan: Vec<GlyphUpload>)
        ensures
            plan@ == uploads_of(self.glyphs()),
    {
        let entries = cache_snapshot(&self.glyph_cache);
        plan_uploads(&entries)
    }

    /// Empties the set of glyphs in use. Cache entries and regions stay.
    pub fn trim(&mut self)
        requires
            old(self).wf(),
        ensures
            final(self).wf(),
            final(self).in_use() == Set::<GlyphonCacheKey>::empty(),
            final(self).glyphs() == old(self).glyphs(),
            final(self).same_surface(old(self)),
    {
        self.glyphs_in_use.clear();
    }

    /// Caches `details` under `key` as the most recently used glyph, in place
    /// of what was cached under `key` before, which is returned.
    pub fn cache_glyph(
        &mut self,
        key: GlyphonCacheKey,
        details: GlyphDetails,
    ) -> (previous: Option<GlyphDetails>)
        requires
            old(self).wf(),
        ensures
            final(self).wf(),
            final(self).glyphs() == put_front(old(self).glyphs(), key, details),
            previous == find_key(old(self).glyphs(), key),
            final(self).in_use() == old(self).in_use(),
            final(self).same_surface(old(self)),
    {
        proof {
            lemma_put_front(self.glyphs(), key, details);
        }
        cache_put(&mut self.glyph_cache, key, details)
    }

    /// The cached glyphs, from the most to the least recently used.
    pub fn cached_glyphs(&self) -> (entries: Vec<CacheEntry>)
        ensures
            entries@ == self.glyphs(),
    {
        cache_snapshot(&self.glyph_cache)
    }

    /// Records that `key` is referenced in the current frame, and tells
    /// whether it had not been so far.
    pub fn mark_in_use(&mut self, key: GlyphonCacheKey) -> (newly: bool)
        requires
            old(self).wf(),
        ensures
            final(self).wf(),
            final(self).in_use() == old(self).in_use().insert(key),
            newly == !old(self).in_use().contains(key),
            final(self).glyphs() == old(self).glyphs(),
            final(self).same_surface(old(self)),
    {
        self.glyphs_in_use.insert(key)
    }

    /// Whether `key` is referenced in the current frame.
    pub fn is_in_use(&self, key: &GlyphonCacheKey) -> (used: bool)
        ensures
            used == self.in_use().contains(*key),
    {
        self.glyphs_in_use.contains(key)
    }
}

/// No two regions of a surface overlap, margins included, and each lies on
/// the canvas.
pub proof fn lemma_regions_never_overlap(atlas: &InnerAtlas, a: u32, b: u32)
    requires
        atlas.wf(),
        atlas.regions().contains_key(a),
        atlas.regions().contains_key(b),
        a != b,
    ensures
        !atlas.regions()[a].overlaps(atlas.regions()[b]),
        atlas.regions()[a].within(atlas.spec_size() as int, atlas.spec_size() as int),
        atlas.regions()[b].within(atlas.spec_size() as int, atlas.spec_size() as int),
{
}

} // verus!
