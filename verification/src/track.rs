//! A race track: a name and the ordered loop of its control points.

use vstd::prelude::*;
use bevy::math::Vec2;
use crate::bounds::bounds_of;
use crate::bounds::track_bounds;
use crate::bounds::HALF_WIDTH;
use crate::curve::fitted;
use crate::curve::positions_fit;
use crate::curve::Curve;
use crate::curve::Curves;
use crate::vector::vec2_at;
use crate::vector::vec2_from_ints;

verus! {

/// The number of samples taken per curve segment when a track's boundaries are built.
pub const RESOLUTION: usize = 5;

/// The path that a new track starts with.
pub open spec fn seed_path() -> Seq<Vec2> {
    seq![vec2_at(-500, -200), vec2_at(-500, -150)]
}

/// The two control points that a new track starts with.
pub fn seed_points() -> (points: Vec<Vec2>)
    ensures
        points@ == seed_path(),
{
    let mut points: Vec<Vec2> = Vec::new();
    points.push(vec2_from_ints(-500, -200));
    points.push(vec2_from_ints(-500, -150));
    assert(points@ =~= seed_path());
    points
}

/// A copy of `points`.
pub fn copy_points(points: &[Vec2]) -> (copy: Vec<Vec2>)
    ensures
        copy@ == points@,
{
    let mut copy: Vec<Vec2> = Vec::new();
    let mut i: usize = 0;
    while i < points.len()
        invariant
            i <= points@.len(),
            copy@ == points@.take(i as int),
        decreases points@.len() - i,
    {
        copy.push(points[i]);
        assert(copy@ =~= points@.take(i + 1));
        i += 1;
    }
    assert(points@.take(points@.len() as int) =~= points@);
    copy
}

/// A named track. The order of the control points is the direction of travel round
/// the loop.
#[derive(Debug)]
pub struct RaceTrack {
    /// The track's name.
    pub track_name: String,
    /// The control points, in loop order.
    pub points: Vec<Vec2>,
}

/// What a track holds, as mathematical values.
pub struct RaceTrackView {
    /// The track's name.
    pub track_name: Seq<char>,
    /// The control points, in loop order.
    pub points: Seq<Vec2>,
}

impl View for RaceTrack {
    type V = RaceTrackView;

    open spec fn view(&self) -> RaceTrackView {
        RaceTrackView { track_name: self.track_name@, points: self.points@ }
    }
}

impl Clone for RaceTrack {
    /// A track of the same name and the same control points.
    fn clone(&self) -> (copy: RaceTrack)
        ensures
            copy@ == self@,
    {
        RaceTrack {
            track_name: self.track_name.clone(),
            points: copy_points(self.points.as_slice()),
        }
    }
}

/// The track that stands in for a missing one: unnamed, on the seed path.
pub open spec fn default_track() -> RaceTrackView {
    RaceTrackView { track_name: Seq::empty(), points: seed_path() }
}

impl Default for RaceTrack {
    /// The unnamed track on the seed path.
    fn default() -> (track: RaceTrack)
        ensures
            track@ == default_track(),
    {
        RaceTrack { track_name: String::new(), points: seed_points() }
    }
}

impl RaceTrack {
    /// The track to use for a track document that was read and parsed: the parsed
    /// track, or the default track where the document could not be read or parsed and
    /// comes as `None`.
    pub fn load(parsed: Option<RaceTrack>) -> (track: RaceTrack)
        ensures
            parsed matches Some(document) ==> track == document,
            parsed.is_none() ==> track@ == default_track(),
    {
        match parsed {
            Some(document) => document,
            None => RaceTrack::default(),
        }
    }

    /// Fits the closed curve through the control points. Fewer than two points have
    /// none.
    pub fn form_curve(&self) -> (curves: Curves)
        ensures
            curves.0 == fitted(self.points@),
            curves.0.is_some() <==> self.points@.len() >= 2,
            curves.0 matches Some(c) ==> c.spec_segment_count() == self.points@.len(),
    {
        Curves(Curve::fit(self.points.as_slice()))
    }

    /// The track's boundary pairs: the curve through the control points, sampled
    /// [`RESOLUTION`] times per control point and offset by [`HALF_WIDTH`]. A track
    /// without a curve has none.
    pub fn get_bounds(&self) -> (bounds: Vec<(Vec2, Vec2)>)
        requires
            positions_fit(RESOLUTION * self.points@.len() + 1),
        ensures
            bounds@ == track_bounds(self.points@, RESOLUTION as nat, HALF_WIDTH as int),
            self.points@.len() < 2 ==> bounds@.len() == 0,
            self.points@.len() >= 2 ==> bounds@.len() == RESOLUTION * self.points@.len(),
    {
        let curves = self.form_curve();
        bounds_of(curves.0.as_ref(), RESOLUTION, HALF_WIDTH)
    }
}

/// The track in play, if there is one.
#[derive(Debug)]
pub struct CurrentTrack(pub Option<RaceTrack>);

impl Clone for CurrentTrack {
    /// The same track, or none.
    fn clone(&self) -> (copy: CurrentTrack)
        ensures
            copy.0.is_some() == self.0.is_some(),
            copy.0 matches Some(track) ==> track@ == self.0.unwrap()@,
    {
        match &self.0 {
            None => CurrentTrack(None),
            Some(track) => CurrentTrack(Some(track.clone())),
        }
    }
}

impl Default for CurrentTrack {
    /// No track.
    fn default() -> (current: CurrentTrack)
        ensures
            current.0.is_none(),
    {
        CurrentTrack(None)
    }
}

} // verus!
