//! World-space geometry on the integer grid.

use vstd::prelude::*;

verus! {

/// A point of world space.
#[derive(Clone, Copy, Debug, PartialEq, Eq, Structural)]
pub struct Point2 {
    pub x: i32,
    pub y: i32,
}

/// Width and height of an axis-aligned rectangle.
#[derive(Clone, Copy, Debug, PartialEq, Eq, Structural)]
pub struct Size2 {
    pub width: u32,
    pub height: u32,
}

impl Point2 {
    /// The point with the given coordinates.
    pub fn new(x: i32, y: i32) -> (p: Point2)
        ensures
            p == (Point2 { x, y }),
    {
        Point2 { x, y }
    }
}

/// The smaller of two coordinates.
pub open spec fn spec_lower(a: i32, b: i32) -> i32 {
    if a <= b {
        a
    } else {
        b
    }
}

/// The larger of two coordinates.
pub open spec fn spec_upper(a: i32, b: i32) -> i32 {
    if a <= b {
        b
    } else {
        a
    }
}

/// The distance between two coordinates.
pub open spec fn spec_extent(a: i32, b: i32) -> u32 {
    (spec_upper(a, b) - spec_lower(a, b)) as u32
}

/// Computes the smaller of two coordinates.
#[verifier::when_used_as_spec(spec_lower)]
pub fn lower(a: i32, b: i32) -> (m: i32)
    ensures
        m == spec_lower(a, b),
{
    if a <= b {
        a
    } else {
        b
    }
}

/// Computes the larger of two coordinates.
#[verifier::when_used_as_spec(spec_upper)]
pub fn upper(a: i32, b: i32) -> (m: i32)
    ensures
        m == spec_upper(a, b),
{
    if a <= b {
        b
    } else {
        a
    }
}

/// Computes the distance between two coordinates. The distance of any two
/// `i32` fits a `u32`, so nothing overflows.
#[verifier::when_used_as_spec(spec_extent)]
pub fn extent(a: i32, b: i32) -> (d: u32)
    ensures
        d == spec_extent(a, b),
        d == vstd::math::abs(b - a),
{
    let low: i64 = lower(a, b) as i64;
    let high: i64 = upper(a, b) as i64;
    (high - low) as u32
}

/// The smaller and the larger of two coordinates are their minimum and their
/// maximum, and the distance between them is their absolute difference,
/// whichever comes first.
pub proof fn lemma_extent_is_absolute_difference(a: i32, b: i32)
    ensures
        lower(a, b) == vstd::math::min(a as int, b as int),
        upper(a, b) == vstd::math::max(a as int, b as int),
        extent(a, b) == vstd::math::abs(b - a),
        extent(a, b) == upper(a, b) - lower(a, b),
        extent(a, b) == extent(b, a),
        extent(a, b) == 0 <==> a == b,
{
}

} // verus!
