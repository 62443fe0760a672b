//! The drag controller: a press creates a record, motion stretches it, a
//! release lets go of it.

use crate::annotation::Annotation;
use crate::geometry::Point2;
use crate::lifecycle::{ActiveDrag, AnnotatorState, PointerEvent};
use crate::store::{AnnotationId, AnnotationStore};
use vstd::prelude::*;

verus! {

/// The drag that is under way: where it began and which record it stretches.
#[derive(Clone, Copy, Debug, PartialEq, Eq, Structural)]
pub struct DragInProgress {
    pub origin: Point2,
    pub entity: AnnotationId,
}

impl View for DragInProgress {
    type V = ActiveDrag;

    open spec fn view(&self) -> ActiveDrag {
        ActiveDrag { origin: self.origin, target: self.entity@ }
    }
}

/// The annotation records of a session together with the drag that may be
/// stretching one of them.
///
/// The drag names its record by identity. Records are never removed, so the
/// lookup of that record cannot fail.
pub struct Annotator {
    store: AnnotationStore,
    drag: Option<DragInProgress>,
}

impl View for Annotator {
    type V = AnnotatorState;

    closed spec fn view(&self) -> AnnotatorState {
        AnnotatorState {
            records: self.store@,
            drag: match self.drag {
                Some(d) => Some(d@),
                None => None,
            },
        }
    }
}

/// Moves the `end` of the record that `entity` names to `world_pos`.
fn stretch(store: &mut AnnotationStore, entity: AnnotationId, world_pos: Point2)
    requires
        entity@ < old(store)@.len(),
    ensures
        final(store)@ == old(store)@.update(
            entity@ as int,
            old(store)@[entity@ as int].with_end(world_pos),
        ),
    no_unwind
{
    if let Ok(annotation) = store.get_mut(entity) {
        annotation.set_end(world_pos);
    }
}

impl Annotator {
    #[verifier::type_invariant]
    spec fn drag_names_a_record(self) -> bool {
        self@.wf()
    }

    /// An annotator without records, not dragging.
    pub fn new() -> (annotator: Annotator)
        ensures
            annotator@ == AnnotatorState::initial(),
            annotator@.wf(),
    {
        Annotator { store: AnnotationStore::new(), drag: None }
    }

    /// The records drawn so far.
    pub fn store(&self) -> (store: &AnnotationStore)
        ensures
            store@ == self@.records,
            self@.wf(),
    {
        proof {
            use_type_invariant(self);
        }
        &self.store
    }

    /// The drag under way, if there is one.
    pub fn drag_in_progress(&self) -> (drag: Option<DragInProgress>)
        ensures
            drag matches Some(d) ==> self@.drag == Some(d@),
            drag is None ==> self@.drag is None,
            self@.wf(),
    {
        proof {
            use_type_invariant(self);
        }
        self.drag
    }

    /// Whether a drag is under way.
    pub fn is_dragging(&self) -> (dragging: bool)
        ensures
            dragging == self@.drag is Some,
            self@.wf(),
    {
        proof {
            use_type_invariant(self);
        }
        self.drag.is_some()
    }

    /// Handles a press of the primary button with the pointer at `pointer`.
    ///
    /// With a known position, a record that starts and ends there is added
    /// and becomes the one that is dragged; its identity is returned. A
    /// drag that was under way lets go of its record, which stays as it is.
    /// Without a known position, nothing changes.
    pub fn start_drag(&mut self, pointer: Option<Point2>) -> (created: Option<AnnotationId>)
        ensures
            final(self)@ == old(self)@.press(pointer),
            final(self)@.wf(),
            pointer is Some ==> created is Some && created->0@ == old(self)@.records.len(),
            pointer is None ==> created is None,
    {
        let created = match pointer {
            Some(world_pos) => {
                // The store leaves `self` while it grows, so the drag that
                // names one of its records is dropped first.
                self.drag = None;
                let mut store = AnnotationStore::new();
                std::mem::swap(&mut self.store, &mut store);
                let entity = store.insert(Annotation::anchored(world_pos));
                std::mem::swap(&mut self.store, &mut store);
                self.drag = Some(DragInProgress { origin: world_pos, entity });
                Some(entity)
            },
            None => None,
        };
        proof {
            use_type_invariant(&*self);
        }
        created
    }

    /// Handles the pointer's position of this frame.
    ///
    /// During a drag, a known position becomes the `end` of the dragged
    /// record. Without a drag under way, or without a known position,
    /// nothing changes.
    pub fn drag(&mut self, pointer: Option<Point2>)
        ensures
            final(self)@ == old(self)@.moved(pointer),
            final(self)@.wf(),
            old(self)@.drag is None ==> final(self)@ == old(self)@,
            pointer is None ==> final(self)@ == old(self)@,
    {
        proof {
            use_type_invariant(&*self);
        }
        if let Some(drag_in_progress) = self.drag {
            if let Some(world_pos) = pointer {
                stretch(&mut self.store, drag_in_progress.entity, world_pos);
            }
        }
    }

    /// Handles a release of the primary button: the drag ends, and every
    /// record stays as it is.
    pub fn end_drag(&mut self)
        ensures
            final(self)@ == old(self)@.release(),
            final(self)@.wf(),
    {
        self.drag = None;
        proof {
            use_type_invariant(&*self);
        }
    }

    /// Handles one event.
    pub fn handle(&mut self, event: PointerEvent)
        ensures
            final(self)@ == old(self)@.step(event),
            final(self)@.wf(),
    {
        match event {
            PointerEvent::Press(pointer) => {
                let _ = self.start_drag(pointer);
            },
            PointerEvent::Move(pointer) => {
                self.drag(pointer);
            },
            PointerEvent::Release => {
                self.end_drag();
            },
        }
    }

    /// Handles a sequence of events, first to last.
    pub fn replay(&mut self, events: &[PointerEvent])
        ensures
            final(self)@ == old(self)@.run(events@),
            final(self)@.wf(),
    {
        let mut i: usize = 0;
        while i < events.len()
            invariant
                i <= events.len(),
                self@ == old(self)@.run(events@.take(i as int)),
            decreases events.len() - i,
        {
            proof {
                assert(events@.take(i + 1).drop_last() == events@.take(i as int));
            }
            self.handle(events[i]);
            i += 1;
        }
        proof {
            assert(events@.take(i as int) == events@);
            use_type_invariant(&*self);
        }
    }
}

} // verus!
