//! The vocabulary of player input: the actions a player can take and the contexts in
//! which they apply. Binding them to keys or buttons is left to the host.

use vstd::prelude::*;

verus! {

/// The action of driving forwards.
#[derive(Debug, Clone, Copy, PartialEq, Eq)]
pub struct Forward;

/// The action of driving backwards.
#[derive(Debug, Clone, Copy, PartialEq, Eq)]
pub struct Reverse;

/// The action of steering left.
#[derive(Debug, Clone, Copy, PartialEq, Eq)]
pub struct Left;

/// The action of steering right.
#[derive(Debug, Clone, Copy, PartialEq, Eq)]
pub struct Right;

/// The action of firing.
#[derive(Debug, Clone, Copy, PartialEq, Eq)]
pub struct Fire;

/// The input context in which the driving actions apply.
#[derive(Debug, Clone, Copy, PartialEq, Eq)]
pub struct Racing;

/// The input context in which the firing action applies.
#[derive(Debug, Clone, Copy, PartialEq, Eq)]
pub struct Shooting;

} // verus!
