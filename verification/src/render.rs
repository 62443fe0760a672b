//! The visible rectangles, torn down and rebuilt from the records on every
//! frame.

use crate::annotation::Annotation;
use crate::geometry::{lower, upper, Point2, Size2};
use crate::store::AnnotationStore;
use vstd::prelude::*;

verus! {

/// A colour by its red, green, blue and alpha parts.
#[derive(Clone, Copy, Debug, PartialEq, Eq, Structural)]
pub struct Rgba {
    pub red: u8,
    pub green: u8,
    pub blue: u8,
    pub alpha: u8,
}

/// The one colour of every annotation: opaque green.
pub open spec fn spec_fill_color() -> Rgba {
    Rgba { red: 0, green: 255, blue: 0, alpha: 255 }
}

/// The colour that every annotation is filled with.
#[verifier::when_used_as_spec(spec_fill_color)]
pub fn fill_color() -> (color: Rgba)
    ensures
        color == spec_fill_color(),
{
    Rgba { red: 0, green: 255, blue: 0, alpha: 255 }
}

/// One filled rectangle on the drawing surface. It is anchored at
/// `top_left`, its corner with the smaller coordinates, and extends from
/// there by `size` towards larger coordinates on both axes.
#[derive(Clone, Copy, Debug, PartialEq, Eq, Structural)]
pub struct AnnotationSprite {
    pub top_left: Point2,
    pub size: Size2,
    pub color: Rgba,
}

impl AnnotationSprite {
    /// The rectangle that shows `annotation`.
    pub open spec fn spec_of(annotation: &Annotation) -> AnnotationSprite {
        AnnotationSprite {
            top_left: annotation.top_left(),
            size: annotation.size(),
            color: fill_color(),
        }
    }

    /// Whether `point` lies in the rectangle, its border included.
    pub open spec fn covers(self, point: Point2) -> bool {
        &&& self.top_left.x <= point.x <= self.top_left.x + self.size.width
        &&& self.top_left.y <= point.y <= self.top_left.y + self.size.height
    }

    /// Computes the rectangle that shows `annotation`.
    #[verifier::when_used_as_spec(spec_of)]
    pub fn of(annotation: &Annotation) -> (sprite: AnnotationSprite)
        ensures
            sprite == AnnotationSprite::spec_of(annotation),
    {
        AnnotationSprite {
            top_left: annotation.top_left(),
            size: annotation.size(),
            color: fill_color(),
        }
    }
}

/// The rectangles that show `records`: one for each record, in the same
/// order.
pub open spec fn rendered(records: Seq<Annotation>) -> Seq<AnnotationSprite> {
    records.map_values(|annotation: Annotation| AnnotationSprite::of(&annotation))
}

/// What a surface shows after a teardown: nothing, whatever it showed
/// `before`.
pub open spec fn torn_down(before: Seq<AnnotationSprite>) -> Seq<AnnotationSprite> {
    Seq::empty()
}

/// What a surface shows after a rebuild: what it showed `before`, and one
/// rectangle for each of `records`.
pub open spec fn rebuilt(
    before: Seq<AnnotationSprite>,
    records: Seq<Annotation>,
) -> Seq<AnnotationSprite> {
    before + rendered(records)
}

/// What a surface shows after a teardown followed by a rebuild.
pub open spec fn synced(
    before: Seq<AnnotationSprite>,
    records: Seq<Annotation>,
) -> Seq<AnnotationSprite> {
    rebuilt(torn_down(before), records)
}

/// The rectangles that are visible now.
pub struct Surface {
    sprites: Vec<AnnotationSprite>,
}

impl View for Surface {
    type V = Seq<AnnotationSprite>;

    closed spec fn view(&self) -> Seq<AnnotationSprite> {
        self.sprites@
    }
}

impl Surface {
    /// A surface that shows nothing.
    pub fn new() -> (surface: Surface)
        ensures
            surface@ == Seq::<AnnotationSprite>::empty(),
    {
        Surface { sprites: Vec::new() }
    }

    /// The visible rectangles.
    pub fn sprites(&self) -> (sprites: &[AnnotationSprite])
        ensures
            sprites@ == self@,
    {
        self.sprites.as_slice()
    }

    /// Removes every rectangle, and returns how many there were.
    pub fn destroy_annotation_sprites(&mut self) -> (destroyed: usize)
        ensures
            final(self)@ == torn_down(old(self)@),
            destroyed == old(self)@.len(),
    {
        let destroyed: usize = self.sprites.len();
        self.sprites.clear();
        destroyed
    }

    /// Adds one rectangle for each record of `store`, and keeps those that
    /// were there.
    pub fn create_annotation_sprites(&mut self, store: &AnnotationStore)
        ensures
            final(self)@ == rebuilt(old(self)@, store@),
    {
        let annotations = store.iterate();
        let mut i: usize = 0;
        while i < annotations.len()
            invariant
                i <= annotations.len(),
                annotations@ == store@,
                self@ == rebuilt(old(self)@, store@.take(i as int)),
            decreases annotations.len() - i,
        {
            let sprite = AnnotationSprite::of(&annotations[i]);
            self.sprites.push(sprite);
            i += 1;
        }
    }

    /// Tears down what is visible and rebuilds it from `store`. Afterwards
    /// the surface shows exactly one rectangle for each record: nothing
    /// stale, nothing missing.
    pub fn render_sync(&mut self, store: &AnnotationStore)
        ensures
            final(self)@ == synced(old(self)@, store@),
            final(self)@ == rendered(store@),
    {
        let _ = self.destroy_annotation_sprites();
        self.create_annotation_sprites(store);
    }
}

/// There is one rectangle for each record. The rectangle of a record is
/// anchored at the minimum of the record's two coordinates on each axis, has
/// their absolute difference as its size, and has the one fill colour.
pub proof fn lemma_rendered_geometry(records: Seq<Annotation>, i: int)
    requires
        0 <= i < records.len(),
    ensures
        rendered(records).len() == records.len(),
        rendered(records)[i] == AnnotationSprite::of(&records[i]),
        rendered(records)[i].top_left.x == vstd::math::min(
            records[i]->start.x as int,
            records[i]->end.x as int,
        ),
        rendered(records)[i].top_left.y == vstd::math::min(
            records[i]->start.y as int,
            records[i]->end.y as int,
        ),
        rendered(records)[i].size.width == vstd::math::abs(
            records[i]->end.x - records[i]->start.x,
        ),
        rendered(records)[i].size.height == vstd::math::abs(
            records[i]->end.y - records[i]->start.y,
        ),
        rendered(records)[i].color == fill_color(),
{
}

/// The rectangle of a record covers exactly the points that lie between the
/// record's `start` and `end` on both axes; so it covers both of them.
pub proof fn lemma_sprite_spans_the_drag(annotation: Annotation, point: Point2)
    ensures
        AnnotationSprite::of(&annotation).covers(point) <==> {
            &&& lower(annotation->start.x, annotation->end.x) <= point.x <= upper(
                annotation->start.x,
                annotation->end.x,
            )
            &&& lower(annotation->start.y, annotation->end.y) <= point.y <= upper(
                annotation->start.y,
                annotation->end.y,
            )
        },
        AnnotationSprite::of(&annotation).covers(annotation->start),
        AnnotationSprite::of(&annotation).covers(annotation->end),
{
}

/// A second teardown and rebuild from the same records shows what the first
/// one showed: the same rectangles, as many of them, in the same places.
pub proof fn lemma_render_sync_idempotent(before: Seq<AnnotationSprite>, records: Seq<Annotation>)
    ensures
        synced(synced(before, records), records) == synced(before, records),
        synced(before, records) == rendered(records),
{
}

/// What is shown does not depend on the order of the records: two
/// sequences that hold the same records, each as often as the other, are
/// shown by the same rectangles, each as often as the other.
pub proof fn lemma_rendering_ignores_order(first: Seq<Annotation>, second: Seq<Annotation>)
    requires
        first.to_multiset() == second.to_multiset(),
    ensures
        rendered(first).to_multiset() == rendered(second).to_multiset(),
    decreases first.len(),
{
    broadcast use vstd::seq_lib::group_to_multiset_ensures;

    if first.len() == 0 {
        // Both are empty: a sequence is as long as its multiset.
        assert(first.len() == first.to_multiset().len());
        assert(second.len() == second.to_multiset().len());
    } else {
        // The last record of `first` occurs somewhere in `second`. Without
        // it the two still hold the same records, and its rectangle is the
        // one that both lose.
        let record = first.last();
        let sprite = AnnotationSprite::of(&record);
        assert(first == first.drop_last().push(record));
        assert(second.to_multiset().count(record) > 0);
        let at = choose|at: int| 0 <= at < second.len() && second[at] == record;
        assert(first.drop_last().to_multiset() == first.to_multiset().remove(record));
        lemma_rendering_ignores_order(first.drop_last(), second.remove(at));
        assert(rendered(first) == rendered(first.drop_last()).push(sprite));
        assert(rendered(second.remove(at)) == rendered(second).remove(at));
        assert(rendered(second)[at] == sprite);
        assert(rendered(second).to_multiset() == rendered(second).remove(at).to_multiset().insert(
            sprite,
        ));
    }
}

} // verus!
