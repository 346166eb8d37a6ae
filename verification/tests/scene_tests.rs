use diagram_editor::geometry::{Point, CANVAS_LIMIT};
use diagram_editor::scene::{Connection, Scene};

fn p(x: i64, y: i64) -> Point {
    Point::new(x, y)
}

fn three_shapes() -> Scene {
    let mut s = Scene::new();
    assert_eq!(s.add_shape(p(0, 0)), Some(0));
    assert_eq!(s.add_shape(p(10, 0)), Some(1));
    assert_eq!(s.add_shape(p(20, 0)), Some(2));
    s
}

#[test]
fn new_scene_is_empty() {
    let s = Scene::new();
    assert_eq!(s.shape_count(), 0);
    assert_eq!(s.connection_count(), 0);
    assert_eq!(s.next_shape_id(), 0);
    assert_eq!(s.next_connection_id(), 0);
}

#[test]
fn add_shape_appends_without_label() {
    let s = three_shapes();
    assert_eq!(s.shape_count(), 3);
    let shape = s.shape_at(1);
    assert_eq!(shape.id, 1);
    assert_eq!(shape.center, p(10, 0));
    assert_eq!(shape.text, None);
}

#[test]
fn add_shape_off_canvas_is_refused() {
    let mut s = Scene::new();
    assert_eq!(s.add_shape(p(CANVAS_LIMIT + 1, 0)), None);
    assert_eq!(s.shape_count(), 0);
    assert_eq!(s.add_shape(p(CANVAS_LIMIT, -CANVAS_LIMIT)), Some(0));
}

#[test]
fn find_shape_by_identifier() {
    let mut s = three_shapes();
    assert!(s.remove_shape(0));
    assert_eq!(s.find_shape(1), Some(0));
    assert_eq!(s.find_shape(2), Some(1));
    assert_eq!(s.find_shape(0), None);
    assert_eq!(s.shape(2).map(|x| x.center), Some(p(20, 0)));
    assert!(s.shape(7).is_none());
}

#[test]
fn identifiers_are_not_reused() {
    let mut s = three_shapes();
    assert!(s.remove_shape(2));
    assert_eq!(s.add_shape(p(5, 5)), Some(3));
    assert_eq!(s.add_connection(0, 1), Some(0));
    assert!(s.remove_connection(0));
    assert_eq!(s.add_connection(0, 1), Some(1));
}

#[test]
fn add_connection_appends() {
    let mut s = three_shapes();
    assert_eq!(s.add_connection(0, 1), Some(0));
    assert_eq!(s.add_connection(1, 0), Some(1));
    assert_eq!(s.connection_count(), 2);
    assert_eq!(s.connection_at(0), Connection { id: 0, from: 0, to: 1 });
    assert_eq!(s.connection_at(1), Connection { id: 1, from: 1, to: 0 });
    assert!(s.has_link(0, 1));
    assert!(!s.has_link(0, 2));
}

#[test]
fn duplicate_connection_is_refused() {
    let mut s = three_shapes();
    assert_eq!(s.add_connection(0, 1), Some(0));
    assert_eq!(s.add_connection(0, 1), None);
    assert_eq!(s.connection_count(), 1);
}

#[test]
fn self_loop_is_refused() {
    let mut s = three_shapes();
    assert_eq!(s.add_connection(1, 1), None);
    assert_eq!(s.connection_count(), 0);
}

#[test]
fn connection_to_a_missing_shape_is_refused() {
    let mut s = three_shapes();
    assert_eq!(s.add_connection(0, 9), None);
    assert_eq!(s.add_connection(9, 0), None);
    assert_eq!(s.connection_count(), 0);
}

#[test]
fn remove_shape_cascades() {
    let mut s = three_shapes();
    s.add_connection(0, 1);
    s.add_connection(1, 2);
    s.add_connection(2, 0);
    s.add_connection(0, 2);
    assert!(s.remove_shape(1));
    assert_eq!(s.shape_count(), 2);
    assert_eq!(s.shape_at(0).id, 0);
    assert_eq!(s.shape_at(1).id, 2);
    assert_eq!(s.connection_count(), 2);
    assert_eq!(s.connection_at(0), Connection { id: 2, from: 2, to: 0 });
    assert_eq!(s.connection_at(1), Connection { id: 3, from: 0, to: 2 });
}

#[test]
fn remove_missing_shape_changes_nothing() {
    let mut s = three_shapes();
    s.add_connection(0, 1);
    assert!(!s.remove_shape(5));
    assert_eq!(s.shape_count(), 3);
    assert_eq!(s.connection_count(), 1);
}

#[test]
fn remove_connection_by_identifier() {
    let mut s = three_shapes();
    s.add_connection(0, 1);
    s.add_connection(1, 2);
    assert_eq!(s.find_connection(1), Some(1));
    assert!(s.remove_connection(0));
    assert!(!s.remove_connection(0));
    assert_eq!(s.connection_count(), 1);
    assert_eq!(s.connection_at(0), Connection { id: 1, from: 1, to: 2 });
    assert_eq!(s.find_connection(1), Some(0));
    assert_eq!(s.find_connection(0), None);
}

#[test]
fn update_shape_center_moves_one_shape() {
    let mut s = three_shapes();
    s.update_shape_center(1, p(-3, 4));
    assert_eq!(s.shape_at(0).center, p(0, 0));
    assert_eq!(s.shape_at(1).center, p(-3, 4));
    assert_eq!(s.shape_at(2).center, p(20, 0));
}

#[test]
fn update_shape_center_of_missing_shape_is_a_no_op() {
    let mut s = three_shapes();
    s.update_shape_center(9, p(-3, 4));
    for i in 0..3 {
        assert_eq!(s.shape_at(i).center, p(10 * i as i64, 0));
    }
}

#[test]
fn update_shape_center_off_canvas_is_a_no_op() {
    let mut s = three_shapes();
    s.update_shape_center(1, p(0, CANVAS_LIMIT + 1));
    assert_eq!(s.shape_at(1).center, p(10, 0));
}

#[test]
fn set_shape_text_stores_the_label() {
    let mut s = three_shapes();
    s.set_shape_text(1, String::from("start"));
    assert_eq!(s.shape_at(1).text, Some(String::from("start")));
    assert_eq!(s.shape_at(0).text, None);
}

#[test]
fn empty_text_is_no_label() {
    let mut s = three_shapes();
    s.set_shape_text(1, String::from("start"));
    s.set_shape_text(1, String::new());
    assert_eq!(s.shape_at(1).text, None);
}

#[test]
fn set_shape_text_of_missing_shape_is_a_no_op() {
    let mut s = three_shapes();
    s.set_shape_text(9, String::from("x"));
    for i in 0..3 {
        assert_eq!(s.shape_at(i).text, None);
    }
}
