//! The model of the annotation lifecycle: what a press, a motion and a
//! release do to the records, and what holds of every sequence of them.

use crate::annotation::Annotation;
use crate::geometry::Point2;
use vstd::prelude::*;

verus! {

/// What the pointer did. A press or a motion carries the pointer's world
/// position, or `None` where the pointer has none: it is outside the window,
/// or the window cannot be mapped to the world. That is no error; the event
/// is then handled by doing nothing.
#[derive(Clone, Copy, Debug, PartialEq, Eq, Structural)]
pub enum PointerEvent {
    Press(Option<Point2>),
    Move(Option<Point2>),
    Release,
}

/// The drag that is under way: where it began, and the position in the store
/// of the record that it stretches.
pub struct ActiveDrag {
    pub origin: Point2,
    pub target: nat,
}

/// The records drawn so far, in the order of their creation, and the drag
/// that is under way, if there is one. With a drag the state is dragging,
/// without one it is idle.
pub struct AnnotatorState {
    pub records: Seq<Annotation>,
    pub drag: Option<ActiveDrag>,
}

impl AnnotatorState {
    /// A drag always names a record that exists, and the record starts
    /// where the drag began.
    pub open spec fn wf(self) -> bool {
        self.drag matches Some(d) ==> d.target < self.records.len()
            && self.records[d.target as int]->start == d.origin
    }

    /// The state before anything was drawn.
    pub open spec fn initial() -> AnnotatorState {
        AnnotatorState { records: Seq::empty(), drag: None }
    }

    /// A press at a known position adds a record that starts and ends there
    /// and begins to drag it; a drag that was under way lets go of its
    /// record. A press without a position does nothing.
    pub open spec fn press(self, pointer: Option<Point2>) -> AnnotatorState {
        match pointer {
            Some(p) => AnnotatorState {
                records: self.records.push(Annotation::Rect { start: p, end: p }),
                drag: Some(ActiveDrag { origin: p, target: self.records.len() }),
            },
            None => self,
        }
    }

    /// Motion to a known position during a drag moves the `end` of the
    /// dragged record there; any other motion does nothing.
    pub open spec fn moved(self, pointer: Option<Point2>) -> AnnotatorState {
        match (self.drag, pointer) {
            (Some(d), Some(p)) if d.target < self.records.len() => AnnotatorState {
                records: self.records.update(
                    d.target as int,
                    self.records[d.target as int].with_end(p),
                ),
                drag: self.drag,
            },
            _ => self,
        }
    }

    /// A release ends the drag and keeps every record as it is.
    pub open spec fn release(self) -> AnnotatorState {
        AnnotatorState { records: self.records, drag: None }
    }

    /// The state after one event.
    pub open spec fn step(self, event: PointerEvent) -> AnnotatorState {
        match event {
            PointerEvent::Press(pointer) => self.press(pointer),
            PointerEvent::Move(pointer) => self.moved(pointer),
            PointerEvent::Release => self.release(),
        }
    }

    /// The state after a sequence of events, first to last.
    pub open spec fn run(self, events: Seq<PointerEvent>) -> AnnotatorState
        decreases events.len(),
    {
        if events.len() == 0 {
            self
        } else {
            self.run(events.drop_last()).step(events.last())
        }
    }
}

/// The number of presses at a known position among `events`.
pub open spec fn presses(events: Seq<PointerEvent>) -> nat
    decreases events.len(),
{
    if events.len() == 0 {
        0
    } else {
        let earlier = presses(events.drop_last());
        match events.last() {
            PointerEvent::Press(Some(_)) => earlier + 1,
            _ => earlier,
        }
    }
}

/// One whole drag: a press at `origin`, one motion for each entry of
/// `motion`, and a release.
pub open spec fn gesture(origin: Point2, motion: Seq<Option<Point2>>) -> Seq<PointerEvent> {
    seq![PointerEvent::Press(Some(origin))] + motion.map_values(
        |pointer: Option<Point2>| PointerEvent::Move(pointer),
    ) + seq![PointerEvent::Release]
}

/// The last known position among `motion`, or `origin` where none is known.
pub open spec fn last_known(origin: Point2, motion: Seq<Option<Point2>>) -> Point2
    decreases motion.len(),
{
    if motion.len() == 0 {
        origin
    } else {
        match motion.last() {
            Some(p) => p,
            None => last_known(origin, motion.drop_last()),
        }
    }
}

/// Whole drags one after the other. Each entry holds where the button went
/// down and the pointer's positions until it went up.
pub open spec fn gestures(drags: Seq<(Point2, Seq<Option<Point2>>)>) -> Seq<PointerEvent>
    decreases drags.len(),
{
    if drags.len() == 0 {
        Seq::empty()
    } else {
        gestures(drags.drop_last()) + gesture(drags.last().0, drags.last().1)
    }
}

/// The records that whole drags leave, one for each drag, in their order.
pub open spec fn drawn(drags: Seq<(Point2, Seq<Option<Point2>>)>) -> Seq<Annotation> {
    drags.map_values(
        |drag: (Point2, Seq<Option<Point2>>)|
            Annotation::Rect { start: drag.0, end: last_known(drag.0, drag.1) },
    )
}

/// No event breaks well-formedness.
pub proof fn lemma_step_keeps_wf(state: AnnotatorState, event: PointerEvent)
    requires
        state.wf(),
    ensures
        state.step(event).wf(),
{
}

/// No sequence of events breaks well-formedness.
pub proof fn lemma_run_keeps_wf(state: AnnotatorState, events: Seq<PointerEvent>)
    requires
        state.wf(),
    ensures
        state.run(events).wf(),
    decreases events.len(),
{
    if events.len() > 0 {
        lemma_run_keeps_wf(state, events.drop_last());
        lemma_step_keeps_wf(state.run(events.drop_last()), events.last());
    }
}

/// Running a single event is one step.
pub proof fn lemma_run_one(state: AnnotatorState, event: PointerEvent)
    ensures
        state.run(seq![event]) == state.step(event),
{
    let events = seq![event];
    assert(state.run(events.drop_last()) == state);
}

/// Running two sequences one after the other is running their
/// concatenation.
pub proof fn lemma_run_concat(
    state: AnnotatorState,
    first: Seq<PointerEvent>,
    second: Seq<PointerEvent>,
)
    ensures
        state.run(first + second) == state.run(first).run(second),
    decreases second.len(),
{
    if second.len() == 0 {
        assert(first + second == first);
    } else {
        assert((first + second).drop_last() == first + second.drop_last());
        lemma_run_concat(state, first, second.drop_last());
    }
}

/// Every press at a known position creates exactly one record, and nothing
/// else creates or removes one: after any events there are as many records
/// more as there were such presses.
pub proof fn lemma_one_record_per_press(state: AnnotatorState, events: Seq<PointerEvent>)
    ensures
        state.run(events).records.len() == state.records.len() + presses(events),
    decreases events.len(),
{
    if events.len() > 0 {
        lemma_one_record_per_press(state, events.drop_last());
    }
}

/// Records persist. Whatever happens later, a record is still there, under
/// the identity it had and with the `start` it had; and a record that is not
/// being dragged never changes again, nor is it ever dragged again.
pub proof fn lemma_records_persist(state: AnnotatorState, events: Seq<PointerEvent>, i: int)
    requires
        state.wf(),
        0 <= i < state.records.len(),
    ensures
        i < state.run(events).records.len(),
        state.run(events).records[i]->start == state.records[i]->start,
        !(state.drag matches Some(d) && d.target == i) ==> {
            &&& state.run(events).records[i] == state.records[i]
            &&& !(state.run(events).drag matches Some(d) && d.target == i)
        },
    decreases events.len(),
{
    if events.len() > 0 {
        lemma_records_persist(state, events.drop_last(), i);
        lemma_run_keeps_wf(state, events.drop_last());
    }
}

/// Motion while no drag is under way creates no record and changes none.
pub proof fn lemma_move_while_idle(state: AnnotatorState, pointer: Option<Point2>)
    requires
        state.drag is None,
    ensures
        state.step(PointerEvent::Move(pointer)) == state,
{
}

/// Motion without a known position changes nothing: during a drag the
/// dragged record keeps the `end` it had, and the drag goes on.
pub proof fn lemma_move_without_position(state: AnnotatorState)
    ensures
        state.step(PointerEvent::Move(None)) == state,
{
}

/// Motion to a known position during a drag moves the `end` of the dragged
/// record there, and changes no `start` and no other record.
pub proof fn lemma_move_stretches_target(state: AnnotatorState, point: Point2)
    requires
        state.wf(),
        state.drag is Some,
    ensures
        ({
            let target = state.drag->0.target as int;
            let after = state.step(PointerEvent::Move(Some(point)));
            &&& after.drag == state.drag
            &&& after.records.len() == state.records.len()
            &&& after.records[target]->end == point
            &&& after.records[target]->start == state.records[target]->start
            &&& forall|i: int|
                0 <= i < state.records.len() && i != target ==> after.records[i]
                    == state.records[i]
        }),
{
}

/// During a drag that began at `origin`, the motions so far leave the
/// dragged record ending at the last known position.
proof fn lemma_motion_after_press(
    state: AnnotatorState,
    origin: Point2,
    motion: Seq<Option<Point2>>,
)
    ensures
        state.press(Some(origin)).run(
            motion.map_values(|pointer: Option<Point2>| PointerEvent::Move(pointer)),
        ) == (AnnotatorState {
            records: state.records.push(
                Annotation::Rect { start: origin, end: last_known(origin, motion) },
            ),
            drag: Some(ActiveDrag { origin, target: state.records.len() }),
        }),
    decreases motion.len(),
{
    let as_move = |pointer: Option<Point2>| PointerEvent::Move(pointer);
    let drawn = state.records.push(
        Annotation::Rect { start: origin, end: last_known(origin, motion) },
    );
    if motion.len() > 0 {
        lemma_motion_after_press(state, origin, motion.drop_last());
        assert(motion.map_values(as_move).drop_last() == motion.drop_last().map_values(as_move));
        let before = state.press(Some(origin)).run(motion.drop_last().map_values(as_move));
        assert(before.step(as_move(motion.last())).records == drawn);
    }
}

/// A whole drag adds exactly one record and ends idle. The record starts
/// where the button went down and ends at the last position that the pointer
/// was known to have; motion without a known position does not move it.
/// Every earlier record stays as it was.
pub proof fn lemma_gesture_draws_one_record(
    state: AnnotatorState,
    origin: Point2,
    motion: Seq<Option<Point2>>,
)
    ensures
        state.run(gesture(origin, motion)) == (AnnotatorState {
            records: state.records.push(
                Annotation::Rect { start: origin, end: last_known(origin, motion) },
            ),
            drag: None,
        }),
{
    let press = seq![PointerEvent::Press(Some(origin))];
    let moves = motion.map_values(|pointer: Option<Point2>| PointerEvent::Move(pointer));
    let release = seq![PointerEvent::Release];
    lemma_run_concat(state, press + moves, release);
    lemma_run_concat(state, press, moves);
    lemma_run_one(state, PointerEvent::Press(Some(origin)));
    lemma_motion_after_press(state, origin, motion);
    lemma_run_one(state.run(press + moves), PointerEvent::Release);
}

/// A press and a release at one point, with no motion between them, leave a
/// record whose `start` and `end` are that point. The record is kept like
/// any other.
pub proof fn lemma_click_leaves_a_point(state: AnnotatorState, point: Point2)
    ensures
        state.run(seq![PointerEvent::Press(Some(point)), PointerEvent::Release]) == (
        AnnotatorState {
            records: state.records.push(Annotation::Rect { start: point, end: point }),
            drag: None,
        }),
{
    lemma_gesture_draws_one_record(state, point, Seq::empty());
    assert(gesture(point, Seq::empty()) == seq![
        PointerEvent::Press(Some(point)),
        PointerEvent::Release,
    ]);
}

/// Any number of whole drags, one after the other, add exactly one record
/// each, in their order, and change no earlier record; after the last one
/// the state is idle.
pub proof fn lemma_gestures_draw_one_record_each(
    state: AnnotatorState,
    drags: Seq<(Point2, Seq<Option<Point2>>)>,
)
    ensures
        state.run(gestures(drags)).records == state.records + drawn(drags),
        state.run(gestures(drags)).records.len() == state.records.len() + drags.len(),
        drags.len() > 0 ==> state.run(gestures(drags)).drag is None,
    decreases drags.len(),
{
    if drags.len() > 0 {
        let earlier = drags.drop_last();
        let (origin, motion) = drags.last();
        lemma_gestures_draw_one_record_each(state, earlier);
        lemma_run_concat(state, gestures(earlier), gesture(origin, motion));
        lemma_gesture_draws_one_record(state.run(gestures(earlier)), origin, motion);
        assert(drawn(drags) == drawn(earlier).push(
            Annotation::Rect { start: origin, end: last_known(origin, motion) },
        ));
    }
}

} // verus!
