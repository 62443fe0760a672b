use screen_annotator::annotation::Annotation;
use screen_annotator::geometry::Point2;
use screen_annotator::store::{AnnotationStore, MissingRecord};

fn rect(x0: i32, y0: i32, x1: i32, y1: i32) -> Annotation {
    Annotation::Rect { start: Point2::new(x0, y0), end: Point2::new(x1, y1) }
}

#[test]
fn new_store_is_empty() {
    let store = AnnotationStore::new();
    assert_eq!(store.len(), 0);
    assert!(store.iterate().is_empty());
}

#[test]
fn insert_hands_out_distinct_identities() {
    let mut store = AnnotationStore::new();
    let a = store.insert(rect(0, 0, 1, 1));
    let b = store.insert(rect(0, 0, 1, 1));
    let c = store.insert(rect(5, 5, 2, 2));
    assert_ne!(a, b);
    assert_ne!(b, c);
    assert_ne!(a, c);
    assert_eq!(store.len(), 3);
    assert!(store.contains(a));
    assert!(store.contains(b));
    assert!(store.contains(c));
}

#[test]
fn get_returns_the_inserted_record() {
    let mut store = AnnotationStore::new();
    let a = store.insert(rect(0, 0, 1, 1));
    let b = store.insert(rect(5, 5, 2, 2));
    assert_eq!(store.get(a), Ok(&rect(0, 0, 1, 1)));
    assert_eq!(store.get(b), Ok(&rect(5, 5, 2, 2)));
}

#[test]
fn get_mut_changes_one_record_only() {
    let mut store = AnnotationStore::new();
    let a = store.insert(rect(0, 0, 1, 1));
    let b = store.insert(rect(5, 5, 2, 2));
    match store.get_mut(b) {
        Ok(record) => record.set_end(Point2::new(9, 9)),
        Err(_) => panic!("the record was inserted"),
    }
    assert_eq!(store.get(a), Ok(&rect(0, 0, 1, 1)));
    assert_eq!(store.get(b), Ok(&rect(5, 5, 9, 9)));
    assert_eq!(store.len(), 2);
}

#[test]
fn lookup_of_an_unknown_identity_is_an_error() {
    let mut other = AnnotationStore::new();
    let _ = other.insert(rect(0, 0, 1, 1));
    let foreign = other.insert(rect(0, 0, 2, 2));

    let mut store = AnnotationStore::new();
    assert!(!store.contains(foreign));
    assert_eq!(store.get(foreign), Err(MissingRecord { id: foreign }));
    assert_eq!(store.get_mut(foreign), Err(MissingRecord { id: foreign }));

    let _ = store.insert(rect(3, 3, 4, 4));
    assert!(!store.contains(foreign));
    assert_eq!(store.get(foreign), Err(MissingRecord { id: foreign }));
    assert_eq!(store.get_mut(foreign), Err(MissingRecord { id: foreign }));
    assert_eq!(store.len(), 1);
    assert_eq!(store.iterate(), &[rect(3, 3, 4, 4)]);
}

#[test]
fn identities_stay_good_as_the_store_grows() {
    let mut store = AnnotationStore::new();
    let first = store.insert(rect(1, 1, 1, 1));
    for i in 0..100 {
        let _ = store.insert(rect(i, i, 0, 0));
    }
    assert_eq!(store.get(first), Ok(&rect(1, 1, 1, 1)));
    assert_eq!(store.len(), 101);
}

#[test]
fn iterate_yields_every_record() {
    let mut store = AnnotationStore::new();
    let _ = store.insert(rect(0, 0, 1, 1));
    let _ = store.insert(rect(5, 5, 2, 2));
    let _ = store.insert(rect(0, 0, 1, 1));
    let records = store.iterate();
    assert_eq!(records.len(), 3);
    assert_eq!(records, &[rect(0, 0, 1, 1), rect(5, 5, 2, 2), rect(0, 0, 1, 1)]);
}
