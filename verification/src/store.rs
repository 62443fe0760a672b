//! The arena of annotation records.

use crate::annotation::Annotation;
use vstd::prelude::*;

verus! {

/// The identity of a record: a handle into the store that issued it.
///
/// A handle holds no reference to its record. It stays good for as long as
/// its store lives, and two handles of one store that differ name two
/// records.
#[derive(Clone, Copy, Debug, PartialEq, Eq, Structural)]
pub struct AnnotationId {
    index: usize,
}

impl View for AnnotationId {
    type V = nat;

    /// The position of the record among those of its store.
    closed spec fn view(&self) -> nat {
        self.index as nat
    }
}

/// Two identities are the same exactly when they name the same position, so
/// each record of a store has an identity of its own.
pub proof fn lemma_identity_is_position(a: AnnotationId, b: AnnotationId)
    ensures
        a@ == b@ <==> a == b,
{
}

/// The error of a lookup whose handle names no record of the store.
#[derive(Clone, Copy, Debug, PartialEq, Eq, Structural)]
pub struct MissingRecord {
    pub id: AnnotationId,
}

/// All the annotation records of a session. Records are added and never
/// removed, so a handle stays good for as long as its store lives.
pub struct AnnotationStore {
    records: Vec<Annotation>,
}

impl View for AnnotationStore {
    type V = Seq<Annotation>;

    /// The records in the order of their insertion; a handle's view is the
    /// position of its record.
    closed spec fn view(&self) -> Seq<Annotation> {
        self.records@
    }
}

impl AnnotationStore {
    /// A store without records.
    pub fn new() -> (store: AnnotationStore)
        ensures
            store@ == Seq::<Annotation>::empty(),
    {
        AnnotationStore { records: Vec::new() }
    }

    /// The number of records.
    pub fn len(&self) -> (n: usize)
        ensures
            n == self@.len(),
    {
        self.records.len()
    }

    /// Whether `id` names a record of this store.
    pub fn contains(&self, id: AnnotationId) -> (b: bool)
        ensures
            b == (id@ < self@.len()),
    {
        id.index < self.records.len()
    }

    /// Adds `record` and returns its identity, which no earlier record has.
    /// The earlier records keep theirs.
    pub fn insert(&mut self, record: Annotation) -> (id: AnnotationId)
        ensures
            final(self)@ == old(self)@.push(record),
            id@ == old(self)@.len(),
            forall|earlier: AnnotationId| #[trigger] earlier@ < old(self)@.len() ==> earlier != id,
    {
        let index: usize = self.records.len();
        self.records.push(record);
        AnnotationId { index }
    }

    /// The record that `id` names.
    pub fn get(&self, id: AnnotationId) -> (r: Result<&Annotation, MissingRecord>)
        ensures
            id@ < self@.len() ==> r == Ok::<&Annotation, MissingRecord>(&self@[id@ as int]),
            id@ >= self@.len() ==> r == Err::<&Annotation, MissingRecord>(MissingRecord { id }),
    {
        if id.index < self.records.len() {
            Ok(&self.records[id.index])
        } else {
            Err(MissingRecord { id })
        }
    }

    /// The record that `id` names, for writing. The store changes at that
    /// record and nowhere else.
    pub fn get_mut(&mut self, id: AnnotationId) -> (r: Result<&mut Annotation, MissingRecord>)
        ensures
            id@ < old(self)@.len() ==> r is Ok && *r->Ok_0 == old(self)@[id@ as int]
                && final(self)@ == old(self)@.update(id@ as int, *final(r->Ok_0)),
            id@ >= old(self)@.len() ==> r == Err::<&mut Annotation, MissingRecord>(MissingRecord { id })
                && final(self)@ == old(self)@,
        no_unwind
    {
        if id.index < self.records.len() {
            Ok(&mut self.records[id.index])
        } else {
            Err(MissingRecord { id })
        }
    }

    /// All the records, in the order of their insertion.
    pub fn iterate(&self) -> (records: &[Annotation])
        ensures
            records@ == self@,
    {
        self.records.as_slice()
    }
}

} // verus!
