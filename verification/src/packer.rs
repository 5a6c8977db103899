//! The rectangle packer behind a surface: etagere's bucketed shelf allocator,
//! seen through the set of rectangles it has handed out and the bounds of its
//! canvas.

use etagere::BucketedAtlasAllocator;
use vstd::prelude::*;

verus! {

/// A pixel position on a surface.
#[derive(Debug, Clone, Copy, PartialEq, Eq, Structural)]
pub struct Point {
    pub x: i32,
    pub y: i32,
}

/// An axis-aligned rectangle on a surface. `min` is inclusive and `max` is
/// exclusive.
#[derive(Debug, Clone, Copy, PartialEq, Eq, Structural)]
pub struct Rectangle {
    pub min: Point,
    pub max: Point,
}

/// A packed region together with the identifier the packer knows it by.
#[derive(Debug, Clone, Copy, PartialEq, Eq, Structural)]
pub struct Allocation {
    pub id: u32,
    pub rectangle: Rectangle,
}

impl Rectangle {
    /// Horizontal extent in pixels.
    pub open spec fn width(self) -> int {
        self.max.x - self.min.x
    }

    /// Vertical extent in pixels.
    pub open spec fn height(self) -> int {
        self.max.y - self.min.y
    }

    /// Whether the two rectangles share a pixel.
    pub open spec fn overlaps(self, other: Rectangle) -> bool {
        &&& self.min.x < other.max.x
        &&& other.min.x < self.max.x
        &&& self.min.y < other.max.y
        &&& other.min.y < self.max.y
    }

    /// Whether the rectangle lies on a canvas of `width` by `height` pixels.
    pub open spec fn within(self, width: int, height: int) -> bool {
        &&& 0 <= self.min.x <= self.max.x <= width
        &&& 0 <= self.min.y <= self.max.y <= height
    }
}

/// etagere's bucketed allocator, opaque to the verifier.
#[verifier::external_type_specification]
#[verifier::external_body]
pub struct ExBucketedAtlasAllocator(BucketedAtlasAllocator);

/// The rectangles that the allocator has handed out, each under the bits of
/// its `AllocId`. This library never gives a rectangle back, so it is the
/// record of every request that succeeded.
pub uninterp spec fn packer_live(packer: BucketedAtlasAllocator) -> Map<u32, Rectangle>;

/// The `(width, height)` of the canvas the allocator packs into: what its
/// `size()` reports.
pub uninterp spec fn packer_bounds(packer: BucketedAtlasAllocator) -> (int, int);

/// Whether the allocator has not been used yet: it has laid out no shelf and
/// no bucket, because no request has succeeded since it was created.
pub uninterp spec fn packer_unused(packer: BucketedAtlasAllocator) -> bool;

/// Largest side of a canvas the allocator is used with. The allocator keeps
/// coordinates in 16 bits and refuses a side of 65535 or more, rounds shelf
/// heights up by as much as 63 within those 16 bits, and counts allocated
/// pixels in an `i32`. With both sides at most 46340 none of these
/// overflows: 46340 + 63 is below 65535, and 46340 times 46340 is the
/// largest square that fits in an `i32`.
pub const MAX_PACKER_SIDE: u32 = 46340;

/// The canvas sizes the allocator can be created with or grown to: neither
/// side exceeds [`MAX_PACKER_SIDE`].
pub open spec fn packer_accepts(width: int, height: int) -> bool {
    &&& 0 <= width <= MAX_PACKER_SIDE
    &&& 0 <= height <= MAX_PACKER_SIDE
}

/// The family of regions of a packer that has handed out nothing.
pub open spec fn no_regions() -> Map<u32, Rectangle> {
    Map::empty()
}

/// Whether no two of `live`'s rectangles share a pixel.
pub open spec fn pairwise_disjoint(live: Map<u32, Rectangle>) -> bool {
    forall|a: u32, b: u32|
        #![trigger live[a], live[b]]
        live.contains_key(a) && live.contains_key(b) && a != b ==> !live[a].overlaps(live[b])
}

/// Whether every rectangle of `live` lies on a canvas of `width` by `height`.
pub open spec fn all_within(live: Map<u32, Rectangle>, width: int, height: int) -> bool {
    forall|a: u32| #[trigger] live.contains_key(a) ==> live[a].within(width, height)
}

/// Whether a request for `width` by `height` pixels is not empty and no
/// larger than a canvas of `bounds`.
pub open spec fn request_fits(width: int, height: int, bounds: (int, int)) -> bool {
    &&& 0 < width <= bounds.0
    &&& 0 < height <= bounds.1
}

/// What an allocator that held `before` may answer to a request for
/// `width` by `height` pixels, and what it holds afterwards.
pub open spec fn packer_allocated(
    before: BucketedAtlasAllocator,
    after: BucketedAtlasAllocator,
    width: int,
    height: int,
    allocation: Option<Allocation>,
) -> bool {
    let live = packer_live(before);
    let bounds = packer_bounds(before);
    &&& packer_bounds(after) == bounds
    &&& packer_unused(before) && request_fits(width, height, bounds) ==> allocation is Some
    &&& match allocation {
        None => after == before,
        Some(a) => {
            &&& request_fits(width, height, bounds)
            &&& !packer_unused(after)
            &&& !live.contains_key(a.id)
            &&& packer_live(after) == live.insert(a.id, a.rectangle)
            &&& a.rectangle.within(bounds.0, bounds.1)
            &&& a.rectangle.width() == width
            &&& a.rectangle.height() >= height
            &&& forall|other: u32| #[trigger]
                live.contains_key(other) ==> !a.rectangle.overlaps(live[other])
        },
    }
}

/// `BucketedAtlasAllocator::new` with the default options: an allocator over
/// a canvas of the given size that has handed out nothing yet.
#[verifier::external_body]
pub(crate) fn packer_new(width: i32, height: i32) -> (packer: BucketedAtlasAllocator)
    requires
        packer_accepts(width as int, height as int),
    ensures
        packer_live(packer) == no_regions(),
        packer_unused(packer),
        packer_bounds(packer).0 == width,
        packer_bounds(packer).1 == height,
{
    BucketedAtlasAllocator::new(etagere::size2(width, height))
}

/// `BucketedAtlasAllocator::allocate`: either nothing is returned and the
/// allocator is left as it was (every refusal returns before anything is
/// written), or a new rectangle is handed out. A new rectangle lies on the
/// canvas, is exactly as wide and at least as high as requested (a shelf may
/// be higher than the item placed on it), shares no pixel with any rectangle
/// still held, and is recorded under an identifier not in use. A request
/// that is empty or larger than the canvas is never served. An allocator
/// that has not been used yet serves every other request: it opens its first
/// shelf for it.
#[verifier::external_body]
pub(crate) fn packer_allocate(
    packer: &mut BucketedAtlasAllocator,
    width: i32,
    height: i32,
) -> (allocation: Option<Allocation>)
    requires
        packer_accepts(packer_bounds(*old(packer)).0, packer_bounds(*old(packer)).1),
    ensures
        packer_allocated(*old(packer), *final(packer), width as int, height as int, allocation),
{
    match packer.allocate(etagere::size2(width, height)) {
        Some(a) => Some(
            Allocation {
                id: a.id.serialize(),
                rectangle: Rectangle {
                    min: Point { x: a.rectangle.min.x, y: a.rectangle.min.y },
                    max: Point { x: a.rectangle.max.x, y: a.rectangle.max.y },
                },
            },
        ),
        None => None,
    }
}

/// `BucketedAtlasAllocator::grow`: the canvas takes the new size, and every
/// rectangle handed out before stays where it is. Growing lays out buckets
/// only on shelves that exist, so an unused allocator stays unused.
#[verifier::external_body]
pub(crate) fn packer_grow(packer: &mut BucketedAtlasAllocator, width: i32, height: i32)
    requires
        packer_accepts(width as int, height as int),
        packer_bounds(*old(packer)).0 <= width,
        packer_bounds(*old(packer)).1 <= height,
    ensures
        packer_live(*final(packer)) == packer_live(*old(packer)),
        packer_unused(*final(packer)) == packer_unused(*old(packer)),
        packer_bounds(*final(packer)).0 == width,
        packer_bounds(*final(packer)).1 == height,
{
    packer.grow(etagere::size2(width, height))
}

/// A rectangle that overlaps none of `live` and carries a fresh identifier
/// keeps a pairwise disjoint family pairwise disjoint.
pub proof fn lemma_insert_keeps_disjoint(live: Map<u32, Rectangle>, id: u32, rectangle: Rectangle)
    requires
        pairwise_disjoint(live),
        !live.contains_key(id),
        forall|other: u32| #[trigger] live.contains_key(other) ==> !rectangle.overlaps(live[other]),
    ensures
        pairwise_disjoint(live.insert(id, rectangle)),
{
    let grown = live.insert(id, rectangle);
    assert forall|a: u32, b: u32|
        #![trigger grown[a], grown[b]]
        grown.contains_key(a) && grown.contains_key(b) && a != b implies !grown[a].overlaps(
        grown[b],
    ) by {
        if a == id {
            assert(live.contains_key(b));
        } else if b == id {
            assert(live.contains_key(a));
        } else {
            assert(live.contains_key(a) && live.contains_key(b));
        }
    }
}

} // verus!
