//! One frame: the pointer's input goes through the drag controller, then the
//! surface is rebuilt from the records.

use crate::annotation::Annotation;
use crate::drag::Annotator;
use crate::geometry::{Point2, Size2};
use crate::lifecycle::{
    lemma_click_leaves_a_point, lemma_run_concat, lemma_run_one, AnnotatorState, PointerEvent,
};
use crate::render::{fill_color, rendered, AnnotationSprite, Surface};
use vstd::prelude::*;

verus! {

/// What the input source reports for one frame: the two edges of the primary
/// button, and the pointer's world position if it has one.
#[derive(Clone, Copy, Debug, PartialEq, Eq, Structural)]
pub struct FrameInput {
    pub just_pressed: bool,
    pub just_released: bool,
    pub pointer: Option<Point2>,
}

impl FrameInput {
    /// The events of a frame in the order in which they are handled: the
    /// press, if the button went down; the pointer's position; the release,
    /// if the button went up.
    pub open spec fn events(self) -> Seq<PointerEvent> {
        let press = if self.just_pressed {
            seq![PointerEvent::Press(self.pointer)]
        } else {
            Seq::empty()
        };
        let release = if self.just_released {
            seq![PointerEvent::Release]
        } else {
            Seq::empty()
        };
        press + seq![PointerEvent::Move(self.pointer)] + release
    }
}

impl AnnotatorState {
    /// The state after one frame. A press is handled first, so that the
    /// motion and the release of the same frame see the drag that it began.
    pub open spec fn frame(self, input: FrameInput) -> AnnotatorState {
        let pressed = if input.just_pressed {
            self.press(input.pointer)
        } else {
            self
        };
        let dragged = pressed.moved(input.pointer);
        if input.just_released {
            dragged.release()
        } else {
            dragged
        }
    }
}

impl Annotator {
    /// Runs one frame: handles the press, the motion and the release that
    /// `input` reports, in that order, then tears down `surface` and
    /// rebuilds it from the records.
    pub fn frame(&mut self, input: FrameInput, surface: &mut Surface)
        ensures
            final(self)@ == old(self)@.frame(input),
            final(self)@.wf(),
            final(surface)@ == rendered(final(self)@.records),
    {
        if input.just_pressed {
            let _ = self.start_drag(input.pointer);
        }
        if self.is_dragging() {
            self.drag(input.pointer);
        }
        if input.just_released {
            self.end_drag();
        }
        surface.render_sync(self.store());
    }
}

/// A frame does to the state what its events do, one after the other.
pub proof fn lemma_frame_runs_its_events(state: AnnotatorState, input: FrameInput)
    ensures
        state.frame(input) == state.run(input.events()),
{
    let press = if input.just_pressed {
        seq![PointerEvent::Press(input.pointer)]
    } else {
        Seq::empty()
    };
    let motion = seq![PointerEvent::Move(input.pointer)];
    let release = if input.just_released {
        seq![PointerEvent::Release]
    } else {
        Seq::empty()
    };
    lemma_run_concat(state, press + motion, release);
    lemma_run_concat(state, press, motion);
    if input.just_pressed {
        lemma_run_one(state, PointerEvent::Press(input.pointer));
    }
    lemma_run_one(state.run(press), PointerEvent::Move(input.pointer));
    if input.just_released {
        lemma_run_one(state.run(press + motion), PointerEvent::Release);
    }
}

/// A frame creates one record if the button went down at a known position,
/// and none otherwise; and a frame in which the button goes down and up
/// still leaves its record.
pub proof fn lemma_frame_creates_one_record_per_press(state: AnnotatorState, input: FrameInput)
    ensures
        input.just_pressed && input.pointer is Some ==> state.frame(input).records.len()
            == state.records.len() + 1,
        !(input.just_pressed && input.pointer is Some) ==> state.frame(input).records.len()
            == state.records.len(),
        input.just_released ==> state.frame(input).drag is None,
{
}

/// A press and a release at one point, with no motion between them, are
/// drawn as one more rectangle, at that point and without extent. The
/// rectangles of the earlier records are drawn as before.
pub proof fn lemma_click_is_drawn_without_extent(state: AnnotatorState, point: Point2)
    ensures
        ({
            let after = state.run(seq![PointerEvent::Press(Some(point)), PointerEvent::Release]);
            &&& after.records.last() == (Annotation::Rect { start: point, end: point })
            &&& rendered(after.records) == rendered(state.records).push(
                AnnotationSprite {
                    top_left: point,
                    size: Size2 { width: 0, height: 0 },
                    color: fill_color(),
                },
            )
        }),
{
    lemma_click_leaves_a_point(state, point);
}

} // verus!
