//! The closed interpolating curve through a track's control points.

use vstd::prelude::*;
use bevy::math::cubic_splines::CubicCardinalSpline;
use bevy::math::cubic_splines::CubicCurve;
use bevy::math::cubic_splines::CyclicCubicGenerator;
use bevy::math::Vec2;

verus! {

/// A closed cubic curve: bevy's `CubicCurve<Vec2>`, one cubic segment per control
/// point. The segments' coefficients stay hidden from the verifier; contracts speak of
/// a curve through [`curve_segment_count`] and [`curve_positions`].
#[verifier::external_body]
#[derive(Debug)]
pub struct Curve {
    cubic: CubicCurve<Vec2>,
}

/// The cyclic Catmull-Rom curve (tension one half) through `points`: what
/// `CubicCardinalSpline::new_catmull_rom(points).to_curve_cyclic()` yields when it
/// succeeds.
pub uninterp spec fn catmull_rom_cycle(points: Seq<Vec2>) -> Curve;

/// The number of cubic segments of `curve`.
pub uninterp spec fn curve_segment_count(curve: Curve) -> nat;

/// The positions that `CubicCurve::iter_positions(subdivisions)` yields for `curve`:
/// the curve evaluated at `subdivisions + 1` evenly spaced parameters, the last of
/// which closes the loop.
pub uninterp spec fn curve_positions(curve: Curve, subdivisions: nat) -> Seq<Vec2>;

/// Whether a vector of `count` positions fits in memory: its size in bytes must not
/// exceed `isize::MAX`.
pub open spec fn positions_fit(count: int) -> bool {
    0 <= count && 8 * count <= isize::MAX
}

/// Calls bevy's `CubicCardinalSpline::new_catmull_rom` and
/// `CyclicCubicGenerator::to_curve_cyclic`. Trusted: the fit fails exactly on fewer than
/// two control points, and a fitted curve has one segment per control point.
#[verifier::external_body]
fn fit_cyclic(points: &[Vec2]) -> (r: Option<Curve>)
    ensures
        r.is_some() <==> points@.len() >= 2,
        r matches Some(c) ==> c == catmull_rom_cycle(points@) && curve_segment_count(c)
            == points@.len(),
{
    match CubicCardinalSpline::new_catmull_rom(points.iter().copied()).to_curve_cyclic() {
        Ok(cubic) => Some(Curve { cubic }),
        Err(_) => None,
    }
}

/// Calls bevy's `CubicCurve::segments` and takes the slice's length. Trusted: the
/// result is the curve's segment count.
#[verifier::external_body]
fn cubic_segment_count(curve: &Curve) -> (r: usize)
    ensures
        r == curve_segment_count(*curve),
{
    curve.cubic.segments().len()
}

/// Calls bevy's `CubicCurve::iter_positions` and collects what it yields. Trusted: the
/// iterator runs over `0..=subdivisions`, so it yields `subdivisions + 1` positions.
#[verifier::external_body]
fn cubic_positions(curve: &Curve, subdivisions: usize) -> (r: Vec<Vec2>)
    requires
        positions_fit(subdivisions + 1),
    ensures
        r@ == curve_positions(*curve, subdivisions as nat),
        r@.len() == subdivisions + 1,
{
    curve.cubic.iter_positions(subdivisions).collect()
}

/// The curve through `points`, if they suffice for one: a closed curve takes at least
/// two control points.
pub open spec fn fitted(points: Seq<Vec2>) -> Option<Curve> {
    if points.len() >= 2 {
        Some(catmull_rom_cycle(points))
    } else {
        None
    }
}

/// Whether `resolution` positions, and the closing one that the sampling drops, fit in
/// memory.
pub fn resolution_fits(resolution: usize) -> (fits: bool)
    ensures
        fits == positions_fit(resolution + 1),
{
    resolution < isize::MAX as usize / 8
}

/// Whether a curve of `segments` segments can be sampled `per_segment` times per
/// segment.
pub fn sampling_fits(segments: usize, per_segment: usize) -> (fits: bool)
    ensures
        fits == positions_fit(per_segment * segments + 1),
{
    match per_segment.checked_mul(segments) {
        Some(resolution) => resolution_fits(resolution),
        None => {
            assert(per_segment * segments > usize::MAX);
            false
        },
    }
}

/// The `resolution` positions at which a curve is sampled: the evenly spaced positions
/// of `resolution` subdivisions without the last one, which repeats the first on a
/// closed curve.
pub open spec fn sampled(curve: Curve, resolution: nat) -> Seq<Vec2> {
    curve_positions(curve, resolution).take(resolution as int)
}

impl Curve {
    /// Fits the closed Catmull-Rom curve through `points`, taken in order as a loop.
    /// Fewer than two points have no curve.
    pub fn fit(points: &[Vec2]) -> (curve: Option<Curve>)
        ensures
            curve == fitted(points@),
            curve.is_some() <==> points@.len() >= 2,
            curve matches Some(c) ==> c.spec_segment_count() == points@.len(),
    {
        fit_cyclic(points)
    }

    /// The number of segments, as a specification.
    pub open spec fn spec_segment_count(&self) -> nat {
        curve_segment_count(*self)
    }

    /// The number of segments: one per control point the curve was fitted to.
    pub fn segment_count(&self) -> (count: usize)
        ensures
            count == self.spec_segment_count(),
    {
        cubic_segment_count(self)
    }

    /// Samples the curve at `resolution` evenly spaced parameters, starting at the first
    /// control point. Resolution zero gives no position.
    pub fn positions(&self, resolution: usize) -> (samples: Vec<Vec2>)
        requires
            positions_fit(resolution + 1),
        ensures
            samples@ == sampled(*self, resolution as nat),
            samples@.len() == resolution,
    {
        let mut samples = cubic_positions(self, resolution);
        samples.truncate(resolution);
        samples
    }
}

/// The curve presently on display, if the control points suffice for one.
#[derive(Debug)]
pub struct Curves(pub Option<Curve>);

impl Default for Curves {
    /// No curve.
    fn default() -> (curves: Curves)
        ensures
            curves.0.is_none(),
    {
        Curves(None)
    }
}

} // verus!
