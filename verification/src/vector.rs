//! Planar positions: glam's `Vec2`, and the few operations on it that the track
//! geometry is built from.
//!
//! `Vec2` holds two single-precision floats. The verifier does not look inside it, so
//! each operation is a thin call into glam whose result is given a name; the geometry
//! contracts are written over those names.

use vstd::prelude::*;
use bevy::math::IVec2;
use bevy::math::Vec2;

verus! {

/// glam's two-dimensional single-precision vector, carried as an opaque value.
#[verifier::external_type_specification]
#[verifier::external_body]
pub struct ExVec2(Vec2);

/// The vector whose components are the integers `x` and `y` converted to floats:
/// what `IVec2::new(x, y).as_vec2()` returns.
pub uninterp spec fn vec2_at(x: int, y: int) -> Vec2;

/// The component-wise sum `a + b`.
pub uninterp spec fn vec2_sum(a: Vec2, b: Vec2) -> Vec2;

/// The component-wise difference `a - b`.
pub uninterp spec fn vec2_difference(a: Vec2, b: Vec2) -> Vec2;

/// The component-wise product `a * b`.
pub uninterp spec fn vec2_product(a: Vec2, b: Vec2) -> Vec2;

/// The component-wise quotient `a / b`.
pub uninterp spec fn vec2_quotient(a: Vec2, b: Vec2) -> Vec2;

/// `v` scaled to length one, or the zero vector where `v` is zero, too short to
/// scale, or not finite: what `Vec2::normalize_or_zero` returns.
pub uninterp spec fn vec2_unit(v: Vec2) -> Vec2;

/// The complex product of `v` and `by`, which turns `v` by the angle of `by` when `by`
/// has length one: what `v.rotate(by)` returns.
pub uninterp spec fn vec2_rotated(v: Vec2, by: Vec2) -> Vec2;

/// Calls glam's `IVec2::as_vec2` on the integer vector `(x, y)`. Trusted: the result is
/// the value that glam's cast of the two components yields, named [`vec2_at`].
#[verifier::external_body]
pub(crate) fn vec2_from_ints(x: i32, y: i32) -> (r: Vec2)
    ensures
        r == vec2_at(x as int, y as int),
{
    IVec2::new(x, y).as_vec2()
}

/// Calls glam's `Add` for `Vec2`. Trusted: the result is the component-wise float sum,
/// named [`vec2_sum`].
#[verifier::external_body]
pub(crate) fn vec2_add(a: Vec2, b: Vec2) -> (r: Vec2)
    ensures
        r == vec2_sum(a, b),
{
    a + b
}

/// Calls glam's `Sub` for `Vec2`. Trusted: the result is the component-wise float
/// difference, named [`vec2_difference`].
#[verifier::external_body]
pub(crate) fn vec2_sub(a: Vec2, b: Vec2) -> (r: Vec2)
    ensures
        r == vec2_difference(a, b),
{
    a - b
}

/// Calls glam's `Mul<Vec2>` for `Vec2`. Trusted: the result is the component-wise float
/// product, named [`vec2_product`].
#[verifier::external_body]
pub(crate) fn vec2_mul(a: Vec2, b: Vec2) -> (r: Vec2)
    ensures
        r == vec2_product(a, b),
{
    a * b
}

/// Calls glam's `Div<Vec2>` for `Vec2`. Trusted: the result is the component-wise float
/// quotient, named [`vec2_quotient`]; a zero divisor yields infinities or NaN, never a
/// panic.
#[verifier::external_body]
pub(crate) fn vec2_div(a: Vec2, b: Vec2) -> (r: Vec2)
    ensures
        r == vec2_quotient(a, b),
{
    a / b
}

/// Calls glam's `Vec2::normalize_or_zero`. Trusted: the result is the value glam
/// computes from `v` alone, named [`vec2_unit`].
#[verifier::external_body]
pub(crate) fn vec2_normalize_or_zero(v: Vec2) -> (r: Vec2)
    ensures
        r == vec2_unit(v),
{
    v.normalize_or_zero()
}

/// Calls glam's `Vec2::rotate`. Trusted: the result is the complex product glam
/// computes from `v` and `by`, named [`vec2_rotated`].
#[verifier::external_body]
pub(crate) fn vec2_rotate(v: Vec2, by: Vec2) -> (r: Vec2)
    ensures
        r == vec2_rotated(v, by),
{
    v.rotate(by)
}

} // verus!
