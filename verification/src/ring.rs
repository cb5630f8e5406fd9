//! The ring of quads that joins consecutive boundary pairs into a closed track
//! surface.

use vstd::prelude::*;
use bevy::math::Vec2;
use crate::bounds::boundary_pairs;
use crate::bounds::track_bounds;
use crate::curve::fitted;
use crate::selection::lemma_successor;

verus! {

/// One quad of the track surface, spanned by a boundary pair and the pair that follows
/// it round the loop.
#[derive(Clone, Copy, Debug)]
pub struct TrackPart {
    /// The outer boundary point where the quad starts.
    pub outer_start: Vec2,
    /// The inner boundary point where the quad starts.
    pub inner_start: Vec2,
    /// The outer boundary point where the quad ends.
    pub outer_end: Vec2,
    /// The inner boundary point where the quad ends.
    pub inner_end: Vec2,
}

/// The index that follows `i` on a ring of `count` places.
pub open spec fn ring_successor(i: int, count: int) -> int {
    (i + 1) % count
}

/// The quad that starts at boundary pair `i` and ends at its successor on the ring.
pub open spec fn ring_part(bounds: Seq<(Vec2, Vec2)>, i: int) -> TrackPart {
    let j = ring_successor(i, bounds.len() as int);
    TrackPart {
        outer_start: bounds[i].0,
        inner_start: bounds[i].1,
        outer_end: bounds[j].0,
        inner_end: bounds[j].1,
    }
}

/// One quad per boundary pair, in the pairs' order; the last quad closes the ring.
pub open spec fn ring_parts(bounds: Seq<(Vec2, Vec2)>) -> Seq<TrackPart> {
    Seq::new(bounds.len(), |i: int| ring_part(bounds, i))
}

impl TrackPart {
    /// The quad's vertex buffer: outer start, inner start, outer end, inner end.
    pub open spec fn spec_vertices(&self) -> Seq<Vec2> {
        seq![self.outer_start, self.inner_start, self.outer_end, self.inner_end]
    }

    /// The quad's index buffer over [`Self::spec_vertices`]: two triangles that share
    /// the diagonal from outer start to inner end.
    pub open spec fn spec_indices() -> Seq<u32> {
        seq![0u32, 2u32, 3u32, 0u32, 1u32, 3u32]
    }

    /// The quad's corners in winding order: outer start, outer end, inner end, inner
    /// start.
    pub open spec fn spec_hull(&self) -> Seq<Vec2> {
        seq![self.outer_start, self.outer_end, self.inner_end, self.inner_start]
    }

    /// The two triangles of the quad, as the vertices that the index buffer selects.
    pub open spec fn spec_triangles(&self) -> Seq<Seq<Vec2>> {
        seq![
            seq![self.outer_start, self.outer_end, self.inner_end],
            seq![self.outer_start, self.inner_start, self.inner_end],
        ]
    }

    /// The four vertices, in the order the index buffer refers to.
    pub fn vertices(&self) -> (v: [Vec2; 4])
        ensures
            v@ == self.spec_vertices(),
    {
        let v = [self.outer_start, self.inner_start, self.outer_end, self.inner_end];
        assert(v@ =~= self.spec_vertices());
        v
    }

    /// The six indices of the quad's two triangles.
    pub fn indices(&self) -> (ix: [u32; 6])
        ensures
            ix@ == Self::spec_indices(),
            forall|k: int| 0 <= k < 6 ==> (#[trigger] ix@[k]) < 4,
            forall|t: int, c: int|
                0 <= t < 2 && 0 <= c < 3 ==> self.spec_vertices()[ix@[3 * t + c] as int]
                    == #[trigger] self.spec_triangles()[t][c],
    {
        let ix: [u32; 6] = [0, 2, 3, 0, 1, 3];
        assert(ix@ =~= Self::spec_indices());
        ix
    }

    /// The corners of the quad's collision hull, in winding order.
    pub fn hull(&self) -> (h: [Vec2; 4])
        ensures
            h@ == self.spec_hull(),
    {
        let h = [self.outer_start, self.outer_end, self.inner_end, self.inner_start];
        assert(h@ =~= self.spec_hull());
        h
    }
}

/// The track surface: one quad and one collision hull per boundary pair.
#[derive(Debug)]
pub struct RingMesh {
    /// The quads, in the order of the boundary pairs they start at.
    pub parts: Vec<TrackPart>,
}

impl Default for RingMesh {
    /// A surface without quads.
    fn default() -> (mesh: RingMesh)
        ensures
            mesh.parts@.len() == 0,
    {
        RingMesh::new()
    }
}

impl RingMesh {
    /// A surface without quads.
    pub fn new() -> (mesh: RingMesh)
        ensures
            mesh.parts@.len() == 0,
    {
        RingMesh { parts: Vec::new() }
    }

    /// The number of quads, which is also the number of collision hulls.
    pub fn quad_count(&self) -> (count: usize)
        ensures
            count == self.parts@.len(),
    {
        self.parts.len()
    }

    /// Replaces the surface by the ring over `bounds`. Nothing of the earlier surface
    /// stays.
    pub fn regenerate(&mut self, bounds: &[(Vec2, Vec2)])
        ensures
            final(self).parts@ == ring_parts(bounds@),
    {
        self.parts.clear();
        let count = bounds.len();
        let mut i: usize = 0;
        while i < count
            invariant
                count == bounds@.len(),
                i <= count,
                self.parts@.len() == i,
                forall|k: int| 0 <= k < i ==> self.parts@[k] == ring_part(bounds@, k),
            decreases count - i,
        {
            let j: usize = if i + 1 == count {
                0
            } else {
                i + 1
            };
            proof {
                lemma_successor(i as int, count as int);
            }
            let (outer_start, inner_start) = bounds[i];
            let (outer_end, inner_end) = bounds[j];
            self.parts.push(TrackPart { outer_start, inner_start, outer_end, inner_end });
            i += 1;
        }
        assert(self.parts@ =~= ring_parts(bounds@));
    }
}

/// The surface of the track through `points`: the ring over its boundary pairs at
/// `per_segment` samples to each control point and the half-width `half_width`.
pub open spec fn track_surface(
    points: Seq<Vec2>,
    per_segment: nat,
    half_width: int,
) -> Seq<TrackPart> {
    ring_parts(track_bounds(points, per_segment, half_width))
}

/// The number of quads on the surface of a track of `points` control points, sampled
/// `per_segment` times per control point: none below two points.
pub open spec fn surface_size(points: nat, per_segment: nat) -> nat {
    if points < 2 {
        0
    } else {
        per_segment * points
    }
}

/// Joins the boundary pairs into a ring: quad `i` runs from pair `i` to pair
/// `(i + 1) mod N`. No pairs give a surface without quads.
pub fn tessellate(bounds: &[(Vec2, Vec2)]) -> (mesh: RingMesh)
    ensures
        mesh.parts@ == ring_parts(bounds@),
        mesh.parts@.len() == bounds@.len(),
{
    let mut mesh = RingMesh::new();
    mesh.regenerate(bounds);
    mesh
}

/// The pipeline keeps the count: samples have one boundary pair each, and boundary
/// pairs one quad each.
pub proof fn lemma_one_quad_per_sample(samples: Seq<Vec2>, half_width: int)
    ensures
        boundary_pairs(samples, half_width).len() == samples.len(),
        ring_parts(boundary_pairs(samples, half_width)).len() == samples.len(),
{
}

/// Degenerate input: fewer than two control points have no curve, no boundary pair and
/// no quad, whatever the resolution and the half-width.
pub proof fn lemma_degenerate_track(points: Seq<Vec2>, per_segment: nat, half_width: int)
    requires
        points.len() < 2,
    ensures
        fitted(points).is_none(),
        track_bounds(points, per_segment, half_width).len() == 0,
        track_surface(points, per_segment, half_width).len() == 0,
{
}

/// The ring is closed: the quad that starts at the last boundary pair ends at the
/// first one, and every other quad ends where the next one starts.
pub proof fn lemma_ring_is_closed(bounds: Seq<(Vec2, Vec2)>, i: int)
    requires
        0 <= i < bounds.len(),
    ensures
        ring_parts(bounds)[i].outer_end == ring_parts(bounds)[ring_successor(
            i,
            bounds.len() as int,
        )].outer_start,
        ring_parts(bounds)[i].inner_end == ring_parts(bounds)[ring_successor(
            i,
            bounds.len() as int,
        )].inner_start,
        ring_successor(i, bounds.len() as int) == if i + 1 == bounds.len() {
            0
        } else {
            i + 1
        },
{
    lemma_successor(i, bounds.len() as int);
}

} // verus!
