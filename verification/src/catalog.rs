//! The catalog of tracks: an ordered collection with at most one track selected.
//!
//! The selection is a small state machine. With no track the catalog is empty and
//! nothing is selected; creating or storing a track selects it; deleting the selected
//! track leaves nothing selected; advancing and retreating walk the selection round the
//! collection.

use vstd::prelude::*;
use bevy::math::Vec2;
use crate::selection::advance;
use crate::selection::advanced;
use crate::selection::advanced_by;
use crate::selection::retreat;
use crate::selection::retreated;
use crate::selection::retreated_by;
use crate::selection::selects_within;
use crate::track::seed_path;
use crate::track::seed_points;
use crate::track::RaceTrack;
use crate::track::RaceTrackView;

verus! {

/// The decimal digit `d`, for `d` below ten.
pub open spec fn decimal_digit(d: nat) -> char {
    if d == 0 {
        '0'
    } else if d == 1 {
        '1'
    } else if d == 2 {
        '2'
    } else if d == 3 {
        '3'
    } else if d == 4 {
        '4'
    } else if d == 5 {
        '5'
    } else if d == 6 {
        '6'
    } else if d == 7 {
        '7'
    } else if d == 8 {
        '8'
    } else {
        '9'
    }
}

/// `n` written in decimal, without leading zeros.
pub open spec fn decimal(n: nat) -> Seq<char>
    decreases n,
{
    if n < 10 {
        seq![decimal_digit(n)]
    } else {
        decimal(n / 10).push(decimal_digit(n % 10))
    }
}

/// The name given to the track created as number `ordinal`: the word `Track`, a space,
/// and the number in decimal.
pub open spec fn track_name_of(ordinal: nat) -> Seq<char> {
    "Track "@ + decimal(ordinal)
}

/// The track that is created as number `ordinal`: named after its number, on the seed
/// path.
pub open spec fn seed_track(ordinal: nat) -> RaceTrackView {
    RaceTrackView { track_name: track_name_of(ordinal), points: seed_path() }
}

/// Formats a track name with std's `format!`. Trusted: `{}` writes an unsigned integer
/// in decimal without padding or sign, after the literal text.
#[verifier::external_body]
fn track_label(ordinal: u128) -> (name: String)
    ensures
        name@ == track_name_of(ordinal as nat),
{
    format!("Track {}", ordinal)
}

/// The catalog: the tracks in the order they were stored, and the index of the
/// selected one.
#[derive(Debug)]
pub struct TracksAsset {
    /// The tracks, in the order they were stored.
    pub tracks: Vec<RaceTrack>,
    /// The index of the selected track, if one is selected.
    pub current_track_index: Option<usize>,
}

/// What a catalog holds, as mathematical values.
pub struct TracksAssetView {
    /// The tracks, in the order they were stored.
    pub tracks: Seq<RaceTrackView>,
    /// The index of the selected track, if one is selected.
    pub current_track_index: Option<usize>,
}

impl View for TracksAsset {
    type V = TracksAssetView;

    open spec fn view(&self) -> TracksAssetView {
        TracksAssetView {
            tracks: Seq::new(self.tracks@.len(), |i: int| self.tracks@[i]@),
            current_track_index: self.current_track_index,
        }
    }
}

/// The catalog that stands in for a missing one: one new track, which is selected.
pub open spec fn default_catalog() -> TracksAssetView {
    TracksAssetView { tracks: seq![seed_track(1)], current_track_index: Some(0usize) }
}

impl Clone for TracksAsset {
    /// A catalog of the same tracks with the same selection.
    fn clone(&self) -> (copy: TracksAsset)
        ensures
            copy@ == self@,
    {
        let mut tracks: Vec<RaceTrack> = Vec::new();
        let mut i: usize = 0;
        while i < self.tracks.len()
            invariant
                i <= self.tracks@.len(),
                tracks@.len() == i,
                forall|k: int| 0 <= k < i ==> tracks@[k]@ == self.tracks@[k]@,
            decreases self.tracks@.len() - i,
        {
            tracks.push(self.tracks[i].clone());
            i += 1;
        }
        let copy = TracksAsset { tracks, current_track_index: self.current_track_index };
        assert(copy@.tracks =~= self@.tracks);
        copy
    }
}

impl TracksAsset {
    /// The index invariant: a selection always points at a track of the catalog.
    pub open spec fn wf(&self) -> bool {
        selects_within(self.current_track_index, self.tracks@.len())
    }

    /// The selected track, as a specification: none where nothing is selected or the
    /// index points at no track.
    pub open spec fn spec_current_track(&self) -> Option<RaceTrack> {
        match self.current_track_index {
            Some(i) if i < self.tracks@.len() => Some(self.tracks@[i as int]),
            _ => None,
        }
    }

    /// The tracks after the control points of the selected one are replaced by
    /// `points`: the same tracks where nothing is selected.
    pub open spec fn spec_updated(&self, points: Vec<Vec2>) -> Seq<RaceTrack> {
        match self.spec_current_track() {
            Some(track) => self.tracks@.update(
                self.current_track_index.unwrap() as int,
                RaceTrack { track_name: track.track_name, points },
            ),
            None => self.tracks@,
        }
    }

    /// The tracks after the selected one is removed: the same tracks where nothing is
    /// selected.
    pub open spec fn spec_without_current(&self) -> Seq<RaceTrack> {
        match self.current_track_index {
            Some(i) => self.tracks@.remove(i as int),
            None => self.tracks@,
        }
    }

    /// A catalog without tracks: the `Empty` state.
    pub fn new() -> (catalog: TracksAsset)
        ensures
            catalog.tracks@.len() == 0,
            catalog.current_track_index.is_none(),
            catalog.wf(),
    {
        TracksAsset { tracks: Vec::new(), current_track_index: None }
    }

    /// The number of tracks.
    pub fn len(&self) -> (count: usize)
        ensures
            count == self.tracks@.len(),
    {
        self.tracks.len()
    }

    /// Whether the index invariant holds.
    pub fn is_well_formed(&self) -> (ok: bool)
        ensures
            ok == self.wf(),
    {
        match self.current_track_index {
            None => true,
            Some(i) => i < self.tracks.len(),
        }
    }

    /// Appends a new track on the seed path, named after its place in the catalog, and
    /// selects it.
    pub fn new_track(&mut self)
        ensures
            final(self)@.tracks == old(self)@.tracks.push(
                seed_track(old(self).tracks@.len() + 1),
            ),
            final(self).tracks@.take(old(self).tracks@.len() as int) == old(self).tracks@,
            final(self).current_track_index == Some(old(self).tracks.len()),
            final(self).wf(),
    {
        let ordinal: u128 = self.tracks.len() as u128 + 1;
        let track = RaceTrack { track_name: track_label(ordinal), points: seed_points() };
        self.store_track(track);
        assert(self.tracks@.take(old(self).tracks@.len() as int) =~= old(self).tracks@);
        assert(self@.tracks =~= old(self)@.tracks.push(
            seed_track(old(self).tracks@.len() + 1),
        ));
    }

    /// Replaces the control points of the selected track. Without a selection nothing
    /// changes.
    pub fn update_current_track(&mut self, points: Vec<Vec2>)
        ensures
            final(self).tracks@ == old(self).spec_updated(points),
            final(self).current_track_index == old(self).current_track_index,
            old(self).wf() ==> final(self).wf(),
    {
        match self.get_current_track_mut() {
            None => {},
            Some(track) => {
                track.points = points;
            },
        }
    }

    /// Appends `track` and selects it.
    pub fn store_track(&mut self, track: RaceTrack)
        ensures
            final(self).tracks@ == old(self).tracks@.push(track),
            final(self).current_track_index == Some(old(self).tracks.len()),
            final(self).wf(),
    {
        self.tracks.push(track);
        self.current_track_index = Some(self.tracks.len() - 1);
    }

    /// Removes the selected track; afterwards nothing is selected. Without a selection
    /// nothing changes.
    pub fn delete_current_track(&mut self)
        requires
            old(self).wf(),
        ensures
            final(self).current_track_index.is_none(),
            final(self).wf(),
            final(self).tracks@ == old(self).spec_without_current(),
    {
        match self.current_track_index {
            None => {},
            Some(index) => {
                self.tracks.remove(index);
                self.current_track_index = None;
            },
        }
    }

    /// The selected track, for changing it in place.
    pub fn get_current_track_mut(&mut self) -> (track: Option<&mut RaceTrack>)
        ensures
            final(self).current_track_index == old(self).current_track_index,
            track.is_some() == old(self).spec_current_track().is_some(),
            track.is_none() ==> final(self).tracks == old(self).tracks,
            track matches Some(t) ==> Some(*t) == old(self).spec_current_track(),
            track matches Some(t) ==> final(self).tracks@ == old(self).tracks@.update(
                old(self).current_track_index.unwrap() as int,
                *final(t),
            ),
    {
        match self.current_track_index {
            None => None,
            Some(index) => {
                if index < self.tracks.len() {
                    Some(&mut self.tracks[index])
                } else {
                    None
                }
            },
        }
    }

    /// The selected track.
    pub fn get_current_track(&self) -> (track: Option<&RaceTrack>)
        ensures
            track.is_some() == self.spec_current_track().is_some(),
            track matches Some(t) ==> Some(*t) == self.spec_current_track(),
    {
        match self.current_track_index {
            None => None,
            Some(index) => {
                if index < self.tracks.len() {
                    Some(&self.tracks[index])
                } else {
                    None
                }
            },
        }
    }

    /// Moves the selection one track forwards, round the end to the first, and returns
    /// the track now selected. Without a selection the first track is selected. An
    /// empty catalog stays as it is.
    pub fn get_next_track(&mut self) -> (track: Option<&RaceTrack>)
        requires
            old(self).wf(),
        ensures
            final(self).tracks == old(self).tracks,
            final(self).current_track_index == advanced(
                old(self).current_track_index,
                old(self).tracks@.len(),
            ),
            final(self).wf(),
            track.is_some() == (old(self).tracks@.len() > 0),
            track matches Some(t) ==> Some(*t) == final(self).spec_current_track(),
    {
        self.current_track_index = advance(self.current_track_index, self.tracks.len());
        match self.current_track_index {
            None => None,
            Some(index) => Some(&self.tracks[index]),
        }
    }

    /// Moves the selection one track backwards, round the start to the last, and
    /// returns the track now selected. Without a selection the first track is selected.
    /// An empty catalog stays as it is.
    pub fn get_prev_track(&mut self) -> (track: Option<&RaceTrack>)
        requires
            old(self).wf(),
        ensures
            final(self).tracks == old(self).tracks,
            final(self).current_track_index == retreated(
                old(self).current_track_index,
                old(self).tracks@.len(),
            ),
            final(self).wf(),
            track.is_some() == (old(self).tracks@.len() > 0),
            track matches Some(t) ==> Some(*t) == final(self).spec_current_track(),
    {
        self.current_track_index = retreat(self.current_track_index, self.tracks.len());
        match self.current_track_index {
            None => None,
            Some(index) => Some(&self.tracks[index]),
        }
    }
}

impl Default for TracksAsset {
    /// The catalog of one new track, which is selected.
    fn default() -> (catalog: TracksAsset)
        ensures
            catalog@ == default_catalog(),
            catalog.wf(),
    {
        let mut catalog = TracksAsset::new();
        catalog.new_track();
        assert(catalog@.tracks =~= default_catalog().tracks);
        catalog
    }
}

/// The file extension of a stored catalog.
pub const TRACKS_EXTENSION: &'static str = "tracks";

/// Decides what catalog a stored document yields.
#[derive(Debug)]
pub struct TracksAssetLoader;

impl TracksAssetLoader {
    /// Whether a parsed document can be used as it is: there is one, and its selection
    /// points at one of its tracks.
    pub open spec fn usable(parsed: Option<TracksAsset>) -> bool {
        parsed matches Some(document) && document.wf()
    }

    /// The catalog to use for a document that was read and parsed: the parsed catalog
    /// where there is one and its selection points at one of its tracks, else the
    /// default catalog of one new track. A document that could not be read or parsed
    /// comes as `None`.
    pub fn load(&self, parsed: Option<TracksAsset>) -> (catalog: TracksAsset)
        ensures
            catalog.wf(),
            Self::usable(parsed) ==> catalog == parsed.unwrap(),
            !Self::usable(parsed) ==> catalog@ == default_catalog(),
    {
        match parsed {
            Some(document) => {
                if document.is_well_formed() {
                    document
                } else {
                    TracksAsset::default()
                }
            },
            None => TracksAsset::default(),
        }
    }

    /// The file extensions of the documents that hold a catalog.
    pub fn extensions(&self) -> (extensions: &'static [&'static str])
        ensures
            extensions@.len() == 1,
            extensions@[0]@ == TRACKS_EXTENSION@,
    {
        &["tracks"]
    }
}

/// Closure of advancing: from any selected track, one step forwards for each track of
/// the catalog ends at the track where it started.
pub proof fn lemma_catalog_advance_closure(catalog: TracksAsset)
    requires
        catalog.wf(),
        catalog.current_track_index.is_some(),
    ensures
        advanced_by(catalog.current_track_index, catalog.tracks@.len(), catalog.tracks@.len())
            == catalog.current_track_index,
{
    assert(catalog.tracks@.len() == catalog.tracks.len());
    crate::selection::lemma_advance_closure(
        catalog.current_track_index.unwrap(),
        catalog.tracks@.len(),
    );
}

/// Closure of retreating: from any selected track, one step backwards for each track
/// of the catalog ends at the track where it started.
pub proof fn lemma_catalog_retreat_closure(catalog: TracksAsset)
    requires
        catalog.wf(),
        catalog.current_track_index.is_some(),
    ensures
        retreated_by(catalog.current_track_index, catalog.tracks@.len(), catalog.tracks@.len())
            == catalog.current_track_index,
{
    assert(catalog.tracks@.len() == catalog.tracks.len());
    crate::selection::lemma_retreat_closure(
        catalog.current_track_index.unwrap(),
        catalog.tracks@.len(),
    );
}

} // verus!
