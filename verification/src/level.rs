//! The track in play, and the surface built from it.

use vstd::prelude::*;
use crate::bounds::HALF_WIDTH;
use crate::curve::positions_fit;
use crate::ring::surface_size;
use crate::ring::track_surface;
use crate::ring::RingMesh;
use crate::track::CurrentTrack;
use crate::track::RESOLUTION;

verus! {

/// Brings the track surface up to date with the track in play. Nothing is done while
/// there is no track, or unless the track changed since the last time; then the
/// surface is rebuilt from scratch from the track's boundary pairs. A track without a
/// curve leaves an empty surface.
pub fn instantiate_track(current_track: &CurrentTrack, changed: bool, mesh: &mut RingMesh)
    requires
        current_track.0 matches Some(track) ==> positions_fit(
            RESOLUTION * track.points@.len() + 1,
        ),
    ensures
        current_track.0.is_none() || !changed ==> *final(mesh) == *old(mesh),
        current_track.0.is_some() && changed ==> final(mesh).parts@ == track_surface(
            current_track.0.unwrap().points@,
            RESOLUTION as nat,
            HALF_WIDTH as int,
        ),
        current_track.0.is_some() && changed ==> final(mesh).parts@.len() == surface_size(
            current_track.0.unwrap().points@.len(),
            RESOLUTION as nat,
        ),
{
    if !changed {
        return;
    }
    match &current_track.0 {
        None => {},
        Some(track) => {
            let bounds = track.get_bounds();
            mesh.regenerate(bounds.as_slice());
        },
    }
}

} // verus!
