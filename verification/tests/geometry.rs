use screen_annotator::annotation::Annotation;
use screen_annotator::geometry::{extent, lower, upper, Point2, Size2};

fn point(x: i32, y: i32) -> Point2 {
    Point2::new(x, y)
}

#[test]
fn new_point_holds_its_coordinates() {
    let p = Point2::new(-3, 7);
    assert_eq!(p.x, -3);
    assert_eq!(p.y, 7);
    assert_eq!(p, Point2 { x: -3, y: 7 });
}

#[test]
fn min_and_max_of_two_coordinates() {
    assert_eq!(lower(10, 2), 2);
    assert_eq!(lower(2, 10), 2);
    assert_eq!(upper(10, 2), 10);
    assert_eq!(upper(2, 10), 10);
    assert_eq!(lower(-5, -5), -5);
    assert_eq!(upper(-5, -5), -5);
}

#[test]
fn distance_is_the_absolute_difference() {
    assert_eq!(extent(10, 2), 8);
    assert_eq!(extent(2, 10), 8);
    assert_eq!(extent(-4, 3), 7);
    assert_eq!(extent(6, 6), 0);
}

#[test]
fn distance_spans_the_whole_axis() {
    assert_eq!(extent(i32::MIN, i32::MAX), u32::MAX);
    assert_eq!(extent(i32::MAX, i32::MIN), u32::MAX);
    assert_eq!(extent(i32::MIN, 0), 2_147_483_648);
    assert_eq!(extent(i32::MIN, i32::MIN), 0);
}

#[test]
fn normalization_of_a_drag_to_the_lower_left() {
    let a = Annotation::Rect { start: point(10, 10), end: point(2, 6) };
    assert_eq!(a.top_left(), point(2, 6));
    assert_eq!(a.size(), Size2 { width: 8, height: 4 });
    assert_eq!(a.bottom_right(), point(10, 10));
}

#[test]
fn normalization_does_not_depend_on_direction() {
    let there = Annotation::Rect { start: point(10, 10), end: point(2, 6) };
    let back = Annotation::Rect { start: point(2, 6), end: point(10, 10) };
    assert_eq!(there.top_left(), back.top_left());
    assert_eq!(there.bottom_right(), back.bottom_right());
    assert_eq!(there.size(), back.size());

    let up_left = Annotation::Rect { start: point(10, 6), end: point(2, 10) };
    assert_eq!(up_left.top_left(), point(2, 6));
    assert_eq!(up_left.size(), Size2 { width: 8, height: 4 });
}

#[test]
fn normalization_never_touches_the_record() {
    let a = Annotation::Rect { start: point(10, 10), end: point(2, 6) };
    let _ = a.top_left();
    let _ = a.size();
    assert_eq!(a.start(), point(10, 10));
    assert_eq!(a.end(), point(2, 6));
}

#[test]
fn anchored_record_is_a_point() {
    let a = Annotation::anchored(point(4, -9));
    assert_eq!(a, Annotation::Rect { start: point(4, -9), end: point(4, -9) });
    assert_eq!(a.top_left(), point(4, -9));
    assert_eq!(a.bottom_right(), point(4, -9));
    assert_eq!(a.size(), Size2 { width: 0, height: 0 });
}

#[test]
fn set_end_moves_only_the_end() {
    let mut a = Annotation::anchored(point(1, 2));
    a.set_end(point(-7, 30));
    assert_eq!(a.start(), point(1, 2));
    assert_eq!(a.end(), point(-7, 30));
    assert_eq!(a.top_left(), point(-7, 2));
    assert_eq!(a.size(), Size2 { width: 8, height: 28 });
}

#[test]
fn size_of_the_largest_rectangle() {
    let a = Annotation::Rect { start: point(i32::MAX, i32::MIN), end: point(i32::MIN, i32::MAX) };
    assert_eq!(a.top_left(), point(i32::MIN, i32::MIN));
    assert_eq!(a.bottom_right(), point(i32::MAX, i32::MAX));
    assert_eq!(a.size(), Size2 { width: u32::MAX, height: u32::MAX });
}
