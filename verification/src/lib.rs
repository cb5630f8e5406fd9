//! Race-track geometry and the catalog of tracks.
//!
//! A track is an ordered loop of control points. From them the crate fits a closed
//! Catmull-Rom curve, samples it, offsets every sample to both sides by a half-width,
//! and joins consecutive offset pairs into a ring of quads. Around that pipeline stand
//! the catalog of named tracks with its current selection, and the editing session that
//! authors a track's control points.
//!
//! Positions are glam's `Vec2`, which the verifier treats as an opaque value: every
//! statement about a computed position is made over the named results of the glam
//! operations in [`vector`].

pub mod selection;
pub mod vector;
pub mod curve;
pub mod bounds;
pub mod ring;
pub mod track;
pub mod catalog;
pub mod editor;
pub mod level;
pub mod input;
pub mod screens;
