//! Annotation records and the rectangle that each one spans.

use crate::geometry::{extent, lower, upper, Point2, Size2};
use vstd::prelude::*;

verus! {

/// The durable description of one drawn shape.
///
/// `start` is where the drag began and `end` is where the pointer was last
/// seen. The two are stored as given, in no particular order: a drag towards
/// smaller coordinates leaves `end` below `start`. Only the rectangle that is
/// drawn from a record is put in order.
#[derive(Clone, Copy, Debug, PartialEq, Eq, Structural)]
pub enum Annotation {
    Rect { start: Point2, end: Point2 },
}

impl Annotation {
    /// The corner with the smaller coordinate on each axis.
    pub open spec fn spec_top_left(&self) -> Point2 {
        Point2 { x: lower(self->start.x, self->end.x), y: lower(self->start.y, self->end.y) }
    }

    /// The corner with the larger coordinate on each axis.
    pub open spec fn spec_bottom_right(&self) -> Point2 {
        Point2 { x: upper(self->start.x, self->end.x), y: upper(self->start.y, self->end.y) }
    }

    /// The distance between `start` and `end` on each axis.
    pub open spec fn spec_size(&self) -> Size2 {
        Size2 {
            width: extent(self->start.x, self->end.x),
            height: extent(self->start.y, self->end.y),
        }
    }

    /// The record with its `end` replaced.
    pub open spec fn with_end(self, end: Point2) -> Annotation {
        Annotation::Rect { start: self->start, end }
    }

    /// The record of a drag that has just begun at `point`.
    pub fn anchored(point: Point2) -> (annotation: Annotation)
        ensures
            annotation == (Annotation::Rect { start: point, end: point }),
    {
        Annotation::Rect { start: point, end: point }
    }

    /// Where the drag began.
    pub fn start(&self) -> (point: Point2)
        ensures
            point == self->start,
    {
        match self {
            Annotation::Rect { start, .. } => *start,
        }
    }

    /// Where the pointer was last seen.
    pub fn end(&self) -> (point: Point2)
        ensures
            point == self->end,
    {
        match self {
            Annotation::Rect { end, .. } => *end,
        }
    }

    /// Moves `end` to `point` and leaves `start` alone.
    pub fn set_end(&mut self, point: Point2)
        ensures
            *final(self) == old(self).with_end(point),
        no_unwind
    {
        match self {
            Annotation::Rect { end, .. } => {
                *end = point;
            },
        }
    }

    /// Computes the corner with the smaller coordinate on each axis.
    #[verifier::when_used_as_spec(spec_top_left)]
    pub fn top_left(&self) -> (corner: Point2)
        ensures
            corner == self.spec_top_left(),
    {
        match self {
            Annotation::Rect { start, end } => Point2 {
                x: lower(start.x, end.x),
                y: lower(start.y, end.y),
            },
        }
    }

    /// Computes the corner with the larger coordinate on each axis.
    #[verifier::when_used_as_spec(spec_bottom_right)]
    pub fn bottom_right(&self) -> (corner: Point2)
        ensures
            corner == self.spec_bottom_right(),
    {
        match self {
            Annotation::Rect { start, end } => Point2 {
                x: upper(start.x, end.x),
                y: upper(start.y, end.y),
            },
        }
    }

    /// Computes the width and the height of the rectangle between `start`
    /// and `end`.
    #[verifier::when_used_as_spec(spec_size)]
    pub fn size(&self) -> (size: Size2)
        ensures
            size == self.spec_size(),
            size.width == vstd::math::abs(self->end.x - self->start.x),
            size.height == vstd::math::abs(self->end.y - self->start.y),
    {
        match self {
            Annotation::Rect { start, end } => Size2 {
                width: extent(start.x, end.x),
                height: extent(start.y, end.y),
            },
        }
    }
}

/// The corners are the minimum and the maximum of the two coordinates on
/// each axis, and the size is the distance between the corners, which is the
/// absolute difference of `start` and `end`.
pub proof fn lemma_rectangle_geometry(annotation: Annotation)
    ensures
        annotation.top_left().x == vstd::math::min(
            annotation->start.x as int,
            annotation->end.x as int,
        ),
        annotation.top_left().y == vstd::math::min(
            annotation->start.y as int,
            annotation->end.y as int,
        ),
        annotation.bottom_right().x == vstd::math::max(
            annotation->start.x as int,
            annotation->end.x as int,
        ),
        annotation.bottom_right().y == vstd::math::max(
            annotation->start.y as int,
            annotation->end.y as int,
        ),
        annotation.size().width == annotation.bottom_right().x - annotation.top_left().x,
        annotation.size().height == annotation.bottom_right().y - annotation.top_left().y,
        annotation.size().width == vstd::math::abs(annotation->end.x - annotation->start.x),
        annotation.size().height == vstd::math::abs(annotation->end.y - annotation->start.y),
{
}

/// The rectangle of a record does not depend on the direction of the drag:
/// with `start` and `end` exchanged it has the same corners and the same
/// size.
pub proof fn lemma_direction_independent(start: Point2, end: Point2)
    ensures
        (Annotation::Rect { start, end }).top_left() == (Annotation::Rect {
            start: end,
            end: start,
        }).top_left(),
        (Annotation::Rect { start, end }).bottom_right() == (Annotation::Rect {
            start: end,
            end: start,
        }).bottom_right(),
        (Annotation::Rect { start, end }).size() == (Annotation::Rect {
            start: end,
            end: start,
        }).size(),
{
}

/// A rectangle has no extent on either axis exactly when `start` and `end`
/// are one point.
pub proof fn lemma_zero_size_is_a_point(annotation: Annotation)
    ensures
        annotation.size() == (Size2 { width: 0, height: 0 }) <==> annotation->start
            == annotation->end,
{
}

} // verus!
