//! The two boundaries of a track: every sample of the centre curve is offset to both
//! sides, along the normal of a tangent estimated from the neighbouring samples.

use vstd::prelude::*;
use bevy::math::Vec2;
use crate::curve::fitted;
use crate::curve::positions_fit;
use crate::curve::sampled;
use crate::curve::Curve;
use crate::vector::vec2_add;
use crate::vector::vec2_at;
use crate::vector::vec2_difference;
use crate::vector::vec2_div;
use crate::vector::vec2_from_ints;
use crate::vector::vec2_mul;
use crate::vector::vec2_normalize_or_zero;
use crate::vector::vec2_product;
use crate::vector::vec2_quotient;
use crate::vector::vec2_rotate;
use crate::vector::vec2_rotated;
use crate::vector::vec2_sub;
use crate::vector::vec2_sum;
use crate::vector::vec2_unit;

verus! {

/// The distance from the centre curve to either boundary of a track.
pub const HALF_WIDTH: i32 = 20;

/// The index of the sample from which the tangent at sample `i` of `count` is measured
/// forwards: the next sample, or `i` itself at the last one.
pub open spec fn ahead_of(i: int, count: int) -> int {
    if i + 1 < count {
        i + 1
    } else {
        i
    }
}

/// The index of the sample from which the tangent at sample `i` is measured backwards:
/// the previous sample, or `i` itself at the first one.
pub open spec fn behind_of(i: int) -> int {
    if i > 0 {
        i - 1
    } else {
        i
    }
}

/// Whether the tangent at sample `i` of `count` is a one-sided difference: at the first
/// and at the last sample.
pub open spec fn one_sided(i: int, count: int) -> bool {
    i == 0 || i == count - 1
}

/// The tangent estimate at sample `i`: the difference of the sample ahead and the
/// sample behind, times the tension of one half; a one-sided difference spans half
/// the distance and is doubled. So the first sample has the forward difference
/// `(p[1] - p[0]) / 2 * 2`, the last the backward difference
/// `(p[last] - p[last - 1]) / 2 * 2`, and every other the central difference
/// `(p[i + 1] - p[i - 1]) / 2`. A lone sample has the zero difference `p[0] - p[0]`.
pub open spec fn tangent_at(samples: Seq<Vec2>, i: int) -> Vec2 {
    let count = samples.len() as int;
    let span = vec2_difference(samples[ahead_of(i, count)], samples[behind_of(i)]);
    let halved = vec2_quotient(span, vec2_at(2, 2));
    if one_sided(i, count) {
        vec2_product(halved, vec2_at(2, 2))
    } else {
        halved
    }
}

/// The offset from a sample to the outer boundary: the unit tangent, or zero where the
/// tangent has no direction, turned by a quarter turn clockwise and scaled to the
/// half-width.
pub open spec fn outer_offset(tangent: Vec2, half_width: int) -> Vec2 {
    vec2_product(
        vec2_rotated(vec2_unit(tangent), vec2_at(0, -1)),
        vec2_at(half_width, half_width),
    )
}

/// The offset from a sample to the inner boundary: the outer offset turned by a half
/// turn.
pub open spec fn inner_offset(outer: Vec2) -> Vec2 {
    vec2_rotated(outer, vec2_at(-1, 0))
}

/// The boundary pair of sample `i`: the sample moved by the outer offset and by the
/// inner offset.
pub open spec fn boundary_pair(samples: Seq<Vec2>, i: int, half_width: int) -> (Vec2, Vec2) {
    let outer = outer_offset(tangent_at(samples, i), half_width);
    (vec2_sum(samples[i], outer), vec2_sum(samples[i], inner_offset(outer)))
}

/// One boundary pair per sample, in the samples' order.
pub open spec fn boundary_pairs(samples: Seq<Vec2>, half_width: int) -> Seq<(Vec2, Vec2)> {
    Seq::new(samples.len(), |i: int| boundary_pair(samples, i, half_width))
}

/// The tangent estimate at sample `i`.
pub fn tangent(samples: &[Vec2], i: usize) -> (t: Vec2)
    requires
        i < samples@.len(),
    ensures
        t == tangent_at(samples@, i as int),
{
    let count = samples.len();
    let ahead: usize = if i + 1 < count {
        i + 1
    } else {
        i
    };
    let behind: usize = if i > 0 {
        i - 1
    } else {
        i
    };
    let two = vec2_from_ints(2, 2);
    let halved = vec2_div(vec2_sub(samples[ahead], samples[behind]), two);
    if i == 0 || i == count - 1 {
        vec2_mul(halved, two)
    } else {
        halved
    }
}

/// The outer and the inner boundary point of sample `i`.
pub fn boundary_pair_at(samples: &[Vec2], i: usize, half_width: i32) -> (pair: (Vec2, Vec2))
    requires
        i < samples@.len(),
    ensures
        pair == boundary_pair(samples@, i as int, half_width as int),
{
    let direction = vec2_normalize_or_zero(tangent(samples, i));
    let quarter_turn = vec2_from_ints(0, -1);
    let half_turn = vec2_from_ints(-1, 0);
    let scale = vec2_from_ints(half_width, half_width);
    let outer = vec2_mul(vec2_rotate(direction, quarter_turn), scale);
    let inner = vec2_rotate(outer, half_turn);
    (vec2_add(samples[i], outer), vec2_add(samples[i], inner))
}

/// Offsets every sample to both sides by `half_width`. The result has one pair per
/// sample and is read as a loop: the last pair is the neighbour of the first.
pub fn offset_samples(samples: &[Vec2], half_width: i32) -> (bounds: Vec<(Vec2, Vec2)>)
    ensures
        bounds@ == boundary_pairs(samples@, half_width as int),
        bounds@.len() == samples@.len(),
{
    let mut bounds: Vec<(Vec2, Vec2)> = Vec::new();
    let mut i: usize = 0;
    while i < samples.len()
        invariant
            i <= samples@.len(),
            bounds@.len() == i,
            forall|k: int|
                0 <= k < i ==> bounds@[k] == boundary_pair(samples@, k, half_width as int),
        decreases samples@.len() - i,
    {
        bounds.push(boundary_pair_at(samples, i, half_width));
        i += 1;
    }
    assert(bounds@ =~= boundary_pairs(samples@, half_width as int));
    bounds
}

/// The boundary pairs of `control_points` at the standard half-width.
pub fn compute_bounds(control_points: &[Vec2]) -> (bounds: Vec<(Vec2, Vec2)>)
    ensures
        bounds@ == boundary_pairs(control_points@, HALF_WIDTH as int),
        bounds@.len() == control_points@.len(),
{
    offset_samples(control_points, HALF_WIDTH)
}

/// Samples `curve` at `resolution` positions and offsets each to both sides by
/// `half_width`.
pub fn offsets(curve: &Curve, resolution: usize, half_width: i32) -> (bounds: Vec<(Vec2, Vec2)>)
    requires
        positions_fit(resolution + 1),
    ensures
        bounds@ == boundary_pairs(sampled(*curve, resolution as nat), half_width as int),
        bounds@.len() == resolution,
{
    let samples = curve.positions(resolution);
    offset_samples(samples.as_slice(), half_width)
}

/// The boundary pairs of the track through `points`: none where the points have no
/// curve, else the curve sampled `per_segment` times per control point and offset by
/// `half_width`.
pub open spec fn track_bounds(
    points: Seq<Vec2>,
    per_segment: nat,
    half_width: int,
) -> Seq<(Vec2, Vec2)> {
    match fitted(points) {
        None => Seq::empty(),
        Some(curve) => boundary_pairs(sampled(curve, per_segment * points.len()), half_width),
    }
}

/// Builds the boundary pairs of a fitted curve, sampled `per_segment` times per
/// segment. No curve gives no pairs.
pub fn bounds_of(
    curve: Option<&Curve>,
    per_segment: usize,
    half_width: i32,
) -> (bounds: Vec<(Vec2, Vec2)>)
    requires
        curve matches Some(c) ==> positions_fit(per_segment * c.spec_segment_count() + 1),
    ensures
        curve.is_none() ==> bounds@.len() == 0,
        curve matches Some(c) ==> bounds@ == boundary_pairs(
            sampled(*c, per_segment as nat * c.spec_segment_count()),
            half_width as int,
        ) && bounds@.len() == per_segment * c.spec_segment_count(),
{
    match curve {
        None => Vec::new(),
        Some(c) => {
            let resolution: usize = per_segment * c.segment_count();
            offsets(c, resolution, half_width)
        },
    }
}

} // verus!
