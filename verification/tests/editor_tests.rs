use diagram_editor::config::Config;
use diagram_editor::connector::PortKind;
use diagram_editor::editor::{Editor, Focus};
use diagram_editor::events::{Button, Click, Key};
use diagram_editor::geometry::Point;
use diagram_editor::scene::Connection;

fn p(x: i64, y: i64) -> Point {
    Point::new(x, y)
}

/// Presses the left button twice at one point, 100 ms apart.
fn double_click(e: &mut Editor, x: i32, y: i32, now: u64) {
    e.pointer_down(Button::Left, x, y, now);
    e.pointer_up(Button::Left, x, y);
    e.pointer_down(Button::Left, x, y, now + 100);
    e.pointer_up(Button::Left, x, y);
}

fn type_text(e: &mut Editor, text: &str) {
    for c in text.chars() {
        e.text_input(c);
    }
}

/// An editor with shape 0 "A" at (100, 100) and shape 1 "B" at (500, 300),
/// nothing in focus.
fn two_shapes() -> Editor {
    let mut e = Editor::new(Config::default());
    double_click(&mut e, 100, 100, 1_000);
    type_text(&mut e, "A");
    e.key_down(Key::Enter, false);
    double_click(&mut e, 500, 300, 5_000);
    type_text(&mut e, "B");
    e.key_down(Key::Enter, false);
    e.pointer_down(Button::Left, 900, 900, 10_000);
    e.pointer_up(Button::Left, 900, 900);
    assert_eq!(*e.focus(), Focus::Idle);
    e
}

/// `two_shapes` with the connection 0 from shape 0 to shape 1.
fn connected() -> Editor {
    let mut e = two_shapes();
    e.pointer_down(Button::Left, 55, 137, 20_000);
    e.pointer_down(Button::Left, 455, 265, 21_000);
    assert_eq!(e.scene().connection_count(), 1);
    e
}

#[test]
fn new_editor_is_idle() {
    let e = Editor::new(Config::default());
    assert_eq!(*e.focus(), Focus::Idle);
    assert_eq!(e.pending_click(), None);
    assert_eq!(e.pointer(), p(0, 0));
    assert_eq!(e.scene().shape_count(), 0);
    assert_eq!(e.config(), Config::default());
}

#[test]
fn single_click_on_canvas_is_recorded() {
    let mut e = Editor::new(Config::default());
    e.pointer_down(Button::Left, 100, 100, 1_000);
    assert_eq!(e.scene().shape_count(), 0);
    assert_eq!(*e.focus(), Focus::Idle);
    assert_eq!(e.pending_click(), Some(Click { time_ms: 1_000, at: p(100, 100) }));
}

#[test]
fn double_click_on_canvas_creates_a_shape_in_edit_mode() {
    let mut e = Editor::new(Config::default());
    e.pointer_down(Button::Left, 100, 100, 1_000);
    e.pointer_down(Button::Left, 100, 100, 1_500);
    assert_eq!(e.scene().shape_count(), 1);
    assert_eq!(e.scene().shape_at(0).center, p(100, 100));
    assert_eq!(e.scene().shape_at(0).text, None);
    assert_eq!(*e.focus(), Focus::ShapeEditing { id: 0, draft: String::new() });
    assert_eq!(e.pending_click(), None);
}

#[test]
fn second_click_after_the_delay_is_a_single_click() {
    let mut e = Editor::new(Config::default());
    e.pointer_down(Button::Left, 100, 100, 1_000);
    e.pointer_down(Button::Left, 100, 100, 1_501);
    assert_eq!(e.scene().shape_count(), 0);
    assert_eq!(e.pending_click(), Some(Click { time_ms: 1_501, at: p(100, 100) }));
    e.pointer_down(Button::Left, 100, 100, 2_001);
    assert_eq!(e.scene().shape_count(), 1);
}

#[test]
fn second_click_beyond_the_distance_is_a_single_click() {
    let mut e = Editor::new(Config::default());
    e.pointer_down(Button::Left, 100, 100, 1_000);
    e.pointer_down(Button::Left, 100, 111, 1_001);
    assert_eq!(e.scene().shape_count(), 0);
    assert_eq!(e.pending_click(), Some(Click { time_ms: 1_001, at: p(100, 111) }));
    e.pointer_down(Button::Left, 106, 119, 1_002);
    assert_eq!(e.scene().shape_count(), 1);
    assert_eq!(e.scene().shape_at(0).center, p(106, 119));
}

#[test]
fn third_click_does_not_double_again() {
    let mut e = Editor::new(Config::default());
    e.pointer_down(Button::Left, 700, 700, 1_000);
    e.pointer_down(Button::Left, 700, 700, 1_010);
    e.key_down(Key::Escape, false);
    e.pointer_down(Button::Left, 900, 900, 1_020);
    assert_eq!(e.scene().shape_count(), 1);
    assert_eq!(*e.focus(), Focus::Idle);
}

#[test]
fn other_buttons_are_ignored() {
    let mut e = two_shapes();
    for b in [Button::Right, Button::Middle, Button::Other] {
        e.pointer_down(b, 100, 100, 30_000);
        assert_eq!(*e.focus(), Focus::Idle);
        assert_eq!(e.pending_click(), Some(Click { time_ms: 10_000, at: p(900, 900) }));
    }
    e.pointer_down(Button::Left, 100, 100, 30_000);
    e.pointer_up(Button::Right, 100, 100);
    assert!(matches!(*e.focus(), Focus::ShapeDragging { id: 0, .. }));
}

#[test]
fn typing_then_enter_commits_exactly_the_typed_text() {
    let mut e = Editor::new(Config::default());
    double_click(&mut e, 100, 100, 0);
    type_text(&mut e, "Hello, wörld");
    assert_eq!(
        *e.focus(),
        Focus::ShapeEditing { id: 0, draft: String::from("Hello, wörld") }
    );
    assert_eq!(e.scene().shape_at(0).text, None);
    e.key_down(Key::Enter, false);
    assert_eq!(e.scene().shape_at(0).text, Some(String::from("Hello, wörld")));
    assert_eq!(*e.focus(), Focus::ShapeSelected { id: 0 });
}

#[test]
fn enter_on_an_empty_draft_commits_no_label() {
    let mut e = two_shapes();
    double_click(&mut e, 100, 100, 30_000);
    assert_eq!(*e.focus(), Focus::ShapeEditing { id: 0, draft: String::from("A") });
    e.key_down(Key::Backspace, false);
    e.key_down(Key::Enter, false);
    assert_eq!(e.scene().shape_at(0).text, None);
}

#[test]
fn typing_then_escape_leaves_the_label_unchanged() {
    let mut e = two_shapes();
    double_click(&mut e, 100, 100, 30_000);
    type_text(&mut e, "xyz");
    e.key_down(Key::Escape, false);
    assert_eq!(e.scene().shape_at(0).text, Some(String::from("A")));
    assert_eq!(*e.focus(), Focus::ShapeSelected { id: 0 });
}

#[test]
fn escape_on_a_new_shape_leaves_it_without_label() {
    let mut e = Editor::new(Config::default());
    double_click(&mut e, 100, 100, 0);
    type_text(&mut e, "xyz");
    e.key_down(Key::Escape, false);
    assert_eq!(e.scene().shape_at(0).text, None);
}

#[test]
fn control_characters_are_not_typed() {
    let mut e = Editor::new(Config::default());
    double_click(&mut e, 100, 100, 0);
    type_text(&mut e, "a\n\tb\u{7f}\u{1b}c\u{85}");
    assert_eq!(*e.focus(), Focus::ShapeEditing { id: 0, draft: String::from("abc") });
}

#[test]
fn typing_without_an_edit_does_nothing() {
    let mut e = two_shapes();
    type_text(&mut e, "abc");
    assert_eq!(*e.focus(), Focus::Idle);
    e.pointer_down(Button::Left, 100, 100, 30_000);
    type_text(&mut e, "abc");
    e.pointer_up(Button::Left, 100, 100);
    type_text(&mut e, "abc");
    assert_eq!(*e.focus(), Focus::ShapeSelected { id: 0 });
    assert_eq!(e.scene().shape_at(0).text, Some(String::from("A")));
}

#[test]
fn backspace_erases_the_last_character_also_when_held() {
    let mut e = Editor::new(Config::default());
    double_click(&mut e, 100, 100, 0);
    type_text(&mut e, "abcd");
    e.key_down(Key::Backspace, false);
    assert_eq!(*e.focus(), Focus::ShapeEditing { id: 0, draft: String::from("abc") });
    e.key_down(Key::Backspace, true);
    e.key_down(Key::Backspace, true);
    assert_eq!(*e.focus(), Focus::ShapeEditing { id: 0, draft: String::from("a") });
    e.key_down(Key::Backspace, true);
    e.key_down(Key::Backspace, true);
    assert_eq!(*e.focus(), Focus::ShapeEditing { id: 0, draft: String::new() });
    assert_eq!(e.scene().shape_count(), 1);
}

#[test]
fn held_enter_and_escape_do_nothing() {
    let mut e = Editor::new(Config::default());
    double_click(&mut e, 100, 100, 0);
    type_text(&mut e, "ab");
    e.key_down(Key::Enter, true);
    e.key_down(Key::Escape, true);
    e.key_down(Key::Delete, false);
    e.key_down(Key::Other, false);
    assert_eq!(*e.focus(), Focus::ShapeEditing { id: 0, draft: String::from("ab") });
    assert_eq!(e.scene().shape_at(0).text, None);
}

#[test]
fn press_on_a_shape_starts_a_drag() {
    let mut e = two_shapes();
    e.pointer_down(Button::Left, 90, 120, 30_000);
    assert_eq!(*e.focus(), Focus::ShapeDragging { id: 0, offset: p(10, -20) });
    assert_eq!(e.pending_click(), Some(Click { time_ms: 30_000, at: p(90, 120) }));
}

#[test]
fn dragged_shape_follows_the_pointer() {
    let mut e = two_shapes();
    e.pointer_down(Button::Left, 90, 120, 30_000);
    for (x, y) in [(91, 121), (300, -50), (-1000, 7), (0, 0)] {
        e.pointer_move(x, y);
        assert_eq!(e.scene().shape_at(0).center, p(x as i64 + 10, y as i64 - 20));
        assert_eq!(e.pointer(), p(x as i64, y as i64));
    }
    assert_eq!(e.scene().shape_at(1).center, p(500, 300));
    e.pointer_up(Button::Left, 0, 0);
    assert_eq!(*e.focus(), Focus::ShapeSelected { id: 0 });
    e.pointer_move(50, 50);
    assert_eq!(e.scene().shape_at(0).center, p(10, -20));
}

#[test]
fn drag_to_the_ends_of_the_pointer_range() {
    let mut e = two_shapes();
    e.pointer_down(Button::Left, 159, 134, 30_000);
    assert_eq!(*e.focus(), Focus::ShapeDragging { id: 0, offset: p(-59, -34) });
    e.pointer_move(i32::MIN, i32::MIN);
    assert_eq!(
        e.scene().shape_at(0).center,
        p(i32::MIN as i64 - 59, i32::MIN as i64 - 34)
    );
    e.pointer_up(Button::Left, 0, 0);
    e.pointer_down(Button::Left, i32::MIN, i32::MIN, 40_000);
    assert_eq!(*e.focus(), Focus::ShapeDragging { id: 0, offset: p(-59, -34) });
    e.pointer_move(i32::MAX, i32::MAX);
    assert_eq!(
        e.scene().shape_at(0).center,
        p(i32::MAX as i64 - 59, i32::MAX as i64 - 34)
    );
}

#[test]
fn move_without_drag_only_tracks_the_pointer() {
    let mut e = two_shapes();
    e.pointer_move(100, 100);
    assert_eq!(e.pointer(), p(100, 100));
    assert_eq!(e.scene().shape_at(0).center, p(100, 100));
    assert_eq!(*e.focus(), Focus::Idle);
}

#[test]
fn topmost_shape_wins() {
    let mut e = two_shapes();
    double_click(&mut e, 200, 100, 30_000);
    e.key_down(Key::Escape, false);
    e.pointer_down(Button::Left, 900, 900, 40_000);
    assert_eq!(e.body_at(p(150, 100)), Some(2));
    assert_eq!(e.body_at(p(139, 100)), Some(0));
    assert_eq!(e.body_at(p(140, 100)), Some(2));
    assert_eq!(e.body_at(p(260, 100)), None);
    e.pointer_down(Button::Left, 150, 100, 50_000);
    assert!(matches!(*e.focus(), Focus::ShapeDragging { id: 2, .. }));
}

#[test]
fn double_click_on_a_shape_edits_its_label() {
    let mut e = two_shapes();
    e.pointer_down(Button::Left, 100, 100, 30_000);
    e.pointer_up(Button::Left, 100, 100);
    e.pointer_down(Button::Left, 104, 103, 30_400);
    assert_eq!(*e.focus(), Focus::ShapeEditing { id: 0, draft: String::from("A") });
    assert_eq!(e.pending_click(), None);
}

#[test]
fn press_on_another_shape_commits_the_edit() {
    let mut e = two_shapes();
    double_click(&mut e, 100, 100, 30_000);
    type_text(&mut e, "bc");
    e.pointer_down(Button::Left, 500, 300, 40_000);
    assert_eq!(e.scene().shape_at(0).text, Some(String::from("Abc")));
    assert_eq!(*e.focus(), Focus::ShapeDragging { id: 1, offset: p(0, 0) });
}

#[test]
fn press_on_the_edited_shape_drops_the_draft_and_drags() {
    let mut e = two_shapes();
    double_click(&mut e, 100, 100, 30_000);
    type_text(&mut e, "bc");
    e.pointer_down(Button::Left, 100, 100, 40_000);
    assert_eq!(*e.focus(), Focus::ShapeDragging { id: 0, offset: p(0, 0) });
    assert_eq!(e.scene().shape_at(0).text, Some(String::from("A")));
}

#[test]
fn double_click_on_the_edited_shape_seeds_the_draft_anew() {
    let mut e = two_shapes();
    double_click(&mut e, 100, 100, 30_000);
    type_text(&mut e, "bc");
    double_click(&mut e, 100, 100, 40_000);
    assert_eq!(*e.focus(), Focus::ShapeEditing { id: 0, draft: String::from("A") });
    assert_eq!(e.scene().shape_at(0).text, Some(String::from("A")));
}

#[test]
fn press_on_canvas_commits_the_edit_and_clears_the_focus() {
    let mut e = two_shapes();
    double_click(&mut e, 100, 100, 30_000);
    type_text(&mut e, "!");
    e.pointer_down(Button::Left, 900, 900, 40_000);
    assert_eq!(e.scene().shape_at(0).text, Some(String::from("A!")));
    assert_eq!(*e.focus(), Focus::Idle);
    assert_eq!(e.pending_click(), Some(Click { time_ms: 40_000, at: p(900, 900) }));
}

#[test]
fn press_near_a_port_starts_a_connector() {
    let mut e = two_shapes();
    assert_eq!(e.port_at(p(55, 137)), Some((0, PortKind::Outgoing)));
    assert_eq!(e.port_at(p(55, 60)), Some((0, PortKind::Incoming)));
    assert_eq!(e.port_at(p(455, 257)), Some((1, PortKind::Incoming)));
    assert_eq!(e.port_at(p(55, 144)), None);
    e.pointer_down(Button::Left, 55, 143, 30_000);
    assert_eq!(
        *e.focus(),
        Focus::ConnectorDrafting { from: 0, port: PortKind::Outgoing, preview: p(55, 143) }
    );
    assert_eq!(e.pending_click(), None);
}

#[test]
fn shape_body_wins_over_port() {
    let mut e = two_shapes();
    e.pointer_down(Button::Left, 55, 134, 30_000);
    assert!(matches!(*e.focus(), Focus::ShapeDragging { id: 0, .. }));
    e.pointer_up(Button::Left, 55, 134);
    e.pointer_down(Button::Left, 55, 65, 40_000);
    assert!(matches!(*e.focus(), Focus::ShapeDragging { id: 0, .. }));
}

#[test]
fn grabbing_a_port_changes_no_label() {
    let mut e = two_shapes();
    double_click(&mut e, 100, 100, 30_000);
    type_text(&mut e, "+");
    e.pointer_down(Button::Left, 455, 340, 40_000);
    assert_eq!(e.scene().shape_at(0).text, Some(String::from("A")));
    assert_eq!(e.scene().shape_at(1).text, Some(String::from("B")));
    assert_eq!(e.scene().shape_count(), 2);
    assert_eq!(e.scene().connection_count(), 0);
    assert_eq!(
        *e.focus(),
        Focus::ConnectorDrafting { from: 1, port: PortKind::Outgoing, preview: p(455, 340) }
    );
    assert_eq!(e.pending_click(), None);
}

#[test]
fn grabbing_a_port_of_a_new_shape_leaves_it_without_label() {
    let mut e = Editor::new(Config::default());
    double_click(&mut e, 100, 100, 0);
    type_text(&mut e, "x");
    e.pointer_down(Button::Left, 55, 138, 5_000);
    assert_eq!(e.scene().shape_at(0).text, None);
    assert_eq!(
        *e.focus(),
        Focus::ConnectorDrafting { from: 0, port: PortKind::Outgoing, preview: p(55, 138) }
    );
}

#[test]
fn grabbing_a_port_clears_the_selection_and_the_recorded_press() {
    let mut e = connected();
    e.pointer_down(Button::Left, 255, 200, 30_000);
    assert_eq!(*e.focus(), Focus::ConnectionSelected { id: 0 });
    e.pointer_down(Button::Left, 55, 60, 30_100);
    assert_eq!(
        *e.focus(),
        Focus::ConnectorDrafting { from: 0, port: PortKind::Incoming, preview: p(55, 60) }
    );
    assert_eq!(e.pending_click(), None);
    assert_eq!(e.scene().connection_count(), 1);
}

#[test]
fn tick_moves_the_preview_to_the_pointer() {
    let mut e = two_shapes();
    e.pointer_down(Button::Left, 55, 137, 30_000);
    e.pointer_move(200, 210);
    assert_eq!(
        *e.focus(),
        Focus::ConnectorDrafting { from: 0, port: PortKind::Outgoing, preview: p(55, 137) }
    );
    e.tick();
    assert_eq!(
        *e.focus(),
        Focus::ConnectorDrafting { from: 0, port: PortKind::Outgoing, preview: p(200, 210) }
    );
}

#[test]
fn tick_without_a_connector_changes_nothing() {
    let mut e = two_shapes();
    e.pointer_move(200, 210);
    e.tick();
    assert_eq!(*e.focus(), Focus::Idle);
    e.pointer_down(Button::Left, 100, 100, 30_000);
    let before = e.focus().clone();
    e.tick();
    assert_eq!(*e.focus(), before);
}

#[test]
fn connector_is_completed_on_a_port_of_another_shape() {
    let mut e = two_shapes();
    e.pointer_down(Button::Left, 55, 137, 30_000);
    e.pointer_down(Button::Left, 455, 265, 31_000);
    assert_eq!(e.scene().connection_count(), 1);
    assert_eq!(e.scene().connection_at(0), Connection { id: 0, from: 0, to: 1 });
    assert_eq!(*e.focus(), Focus::Idle);
}

#[test]
fn connector_is_completed_on_the_outgoing_port_as_well() {
    let mut e = two_shapes();
    e.pointer_down(Button::Left, 55, 60, 30_000);
    e.pointer_down(Button::Left, 455, 340, 31_000);
    assert_eq!(e.scene().connection_at(0), Connection { id: 0, from: 0, to: 1 });
}

#[test]
fn connector_dropped_elsewhere_is_cancelled() {
    let mut e = two_shapes();
    e.pointer_down(Button::Left, 55, 137, 30_000);
    e.pointer_down(Button::Left, 500, 300, 31_000);
    assert_eq!(e.scene().connection_count(), 0);
    assert_eq!(*e.focus(), Focus::Idle);
}

#[test]
fn connector_to_the_same_shape_is_never_created() {
    let mut e = two_shapes();
    e.pointer_down(Button::Left, 55, 137, 30_000);
    e.pointer_down(Button::Left, 55, 65, 31_000);
    assert_eq!(e.scene().connection_count(), 0);
    assert_eq!(*e.focus(), Focus::Idle);
    e.pointer_down(Button::Left, 55, 137, 32_000);
    e.pointer_down(Button::Left, 55, 137, 33_000);
    assert_eq!(e.scene().connection_count(), 0);
}

#[test]
fn repeated_connector_adds_no_duplicate() {
    let mut e = connected();
    e.pointer_down(Button::Left, 55, 137, 30_000);
    e.pointer_down(Button::Left, 455, 265, 31_000);
    assert_eq!(e.scene().connection_count(), 1);
    assert_eq!(*e.focus(), Focus::Idle);
    e.pointer_down(Button::Left, 455, 340, 32_000);
    e.pointer_down(Button::Left, 55, 60, 33_000);
    assert_eq!(e.scene().connection_count(), 2);
    assert_eq!(e.scene().connection_at(1), Connection { id: 1, from: 1, to: 0 });
}

#[test]
fn escape_cancels_a_connector() {
    let mut e = two_shapes();
    e.pointer_down(Button::Left, 55, 137, 30_000);
    e.key_down(Key::Escape, true);
    assert!(matches!(*e.focus(), Focus::ConnectorDrafting { .. }));
    e.key_down(Key::Enter, false);
    e.key_down(Key::Delete, false);
    assert!(matches!(*e.focus(), Focus::ConnectorDrafting { .. }));
    e.key_down(Key::Escape, false);
    assert_eq!(*e.focus(), Focus::Idle);
    assert_eq!(e.scene().shape_count(), 2);
}

#[test]
fn press_on_a_connector_selects_it() {
    let mut e = connected();
    assert_eq!(e.connection_at(p(255, 200)), Some(0));
    assert_eq!(e.connection_at(p(255, 209)), None);
    e.pointer_down(Button::Left, 255, 204, 30_000);
    assert_eq!(*e.focus(), Focus::ConnectionSelected { id: 0 });
    assert_eq!(e.pending_click(), Some(Click { time_ms: 30_000, at: p(255, 204) }));
}

#[test]
fn two_presses_on_a_connector_select_it_twice() {
    let mut e = connected();
    e.pointer_down(Button::Left, 255, 200, 30_000);
    e.pointer_down(Button::Left, 255, 200, 30_100);
    assert_eq!(*e.focus(), Focus::ConnectionSelected { id: 0 });
    assert_eq!(e.scene().shape_count(), 2);
    assert_eq!(e.pending_click(), Some(Click { time_ms: 30_100, at: p(255, 200) }));
}

#[test]
fn selecting_a_connector_commits_the_edit() {
    let mut e = connected();
    double_click(&mut e, 500, 300, 30_000);
    type_text(&mut e, "?");
    e.pointer_down(Button::Left, 255, 200, 40_000);
    assert_eq!(e.scene().shape_at(1).text, Some(String::from("B?")));
    assert_eq!(*e.focus(), Focus::ConnectionSelected { id: 0 });
}

#[test]
fn delete_removes_the_selected_connection() {
    let mut e = connected();
    e.pointer_down(Button::Left, 255, 200, 30_000);
    e.key_down(Key::Delete, true);
    assert_eq!(e.scene().connection_count(), 1);
    e.key_down(Key::Delete, false);
    assert_eq!(e.scene().connection_count(), 0);
    assert_eq!(e.scene().shape_count(), 2);
    assert_eq!(*e.focus(), Focus::Idle);
}

#[test]
fn delete_removes_the_selected_shape_and_its_connections() {
    let mut e = connected();
    e.pointer_down(Button::Left, 100, 100, 30_000);
    e.pointer_up(Button::Left, 100, 100);
    assert_eq!(*e.focus(), Focus::ShapeSelected { id: 0 });
    e.key_down(Key::Delete, false);
    assert_eq!(e.scene().shape_count(), 1);
    assert_eq!(e.scene().shape_at(0).id, 1);
    assert_eq!(e.scene().shape_at(0).text, Some(String::from("B")));
    assert_eq!(e.scene().connection_count(), 0);
    assert_eq!(*e.focus(), Focus::Idle);
    assert_eq!(e.pending_click(), None);
}

#[test]
fn delete_spares_the_connections_of_other_shapes() {
    let mut e = connected();
    double_click(&mut e, 100, 500, 30_000);
    e.key_down(Key::Enter, false);
    e.pointer_down(Button::Left, 455, 340, 40_000);
    e.pointer_down(Button::Left, 55, 465, 41_000);
    assert_eq!(e.scene().connection_count(), 2);
    e.pointer_down(Button::Left, 100, 100, 50_000);
    e.key_down(Key::Delete, false);
    assert_eq!(e.scene().connection_count(), 1);
    assert_eq!(e.scene().connection_at(0), Connection { id: 1, from: 1, to: 2 });
}

#[test]
fn held_delete_does_not_remove() {
    let mut e = two_shapes();
    e.pointer_down(Button::Left, 100, 100, 30_000);
    e.pointer_up(Button::Left, 100, 100);
    e.key_down(Key::Delete, true);
    e.key_down(Key::Backspace, true);
    e.key_down(Key::Enter, false);
    e.key_down(Key::Escape, false);
    e.key_down(Key::Other, false);
    assert_eq!(e.scene().shape_count(), 2);
    assert_eq!(*e.focus(), Focus::ShapeSelected { id: 0 });
}

#[test]
fn backspace_deletes_where_configured() {
    let mut e = two_shapes();
    e.pointer_down(Button::Left, 100, 100, 30_000);
    e.pointer_up(Button::Left, 100, 100);
    e.key_down(Key::Backspace, false);
    assert_eq!(e.scene().shape_count(), 1);

    let mut config = Config::default();
    config.backspace_deletes = false;
    let mut e = Editor::new(config);
    double_click(&mut e, 100, 100, 0);
    e.key_down(Key::Escape, false);
    e.key_down(Key::Backspace, false);
    assert_eq!(e.scene().shape_count(), 1);
    e.key_down(Key::Delete, false);
    assert_eq!(e.scene().shape_count(), 0);
}

#[test]
fn delete_while_dragging_removes_the_shape() {
    let mut e = two_shapes();
    e.pointer_down(Button::Left, 100, 100, 30_000);
    e.key_down(Key::Delete, false);
    assert_eq!(e.scene().shape_count(), 1);
    assert_eq!(*e.focus(), Focus::Idle);
    e.pointer_move(300, 300);
    e.pointer_up(Button::Left, 300, 300);
    assert_eq!(e.scene().shape_at(0).center, p(500, 300));
}

#[test]
fn keys_without_focus_do_nothing() {
    let mut e = two_shapes();
    for key in [Key::Enter, Key::Escape, Key::Backspace, Key::Delete, Key::Other] {
        e.key_down(key, false);
        e.key_down(key, true);
    }
    assert_eq!(e.scene().shape_count(), 2);
    assert_eq!(*e.focus(), Focus::Idle);
}

#[test]
fn editor_add_shape_selects_and_edits() {
    let mut e = two_shapes();
    double_click(&mut e, 100, 100, 30_000);
    type_text(&mut e, "1");
    assert_eq!(e.add_shape(p(-50, -50)), Some(2));
    assert_eq!(e.scene().shape_at(0).text, Some(String::from("A1")));
    assert_eq!(e.scene().shape_at(2).center, p(-50, -50));
    assert_eq!(*e.focus(), Focus::ShapeEditing { id: 2, draft: String::new() });
}

#[test]
fn editor_add_shape_off_canvas_changes_nothing() {
    let mut e = two_shapes();
    double_click(&mut e, 100, 100, 30_000);
    type_text(&mut e, "1");
    assert_eq!(e.add_shape(p(i64::MAX, 0)), None);
    assert_eq!(e.scene().shape_count(), 2);
    assert_eq!(*e.focus(), Focus::ShapeEditing { id: 0, draft: String::from("A1") });
    assert_eq!(e.scene().shape_at(0).text, Some(String::from("A")));
}

#[test]
fn editor_remove_shape_clears_what_names_it() {
    let mut e = connected();
    e.pointer_down(Button::Left, 255, 200, 30_000);
    assert!(e.remove_shape(1));
    assert_eq!(*e.focus(), Focus::Idle);
    assert_eq!(e.scene().connection_count(), 0);

    let mut e = connected();
    e.pointer_down(Button::Left, 55, 137, 30_000);
    assert!(e.remove_shape(1));
    assert!(matches!(*e.focus(), Focus::ConnectorDrafting { from: 0, .. }));
    assert!(e.remove_shape(0));
    assert_eq!(*e.focus(), Focus::Idle);
    assert!(!e.remove_shape(0));

    let mut e = two_shapes();
    double_click(&mut e, 100, 100, 30_000);
    assert!(e.remove_shape(1));
    assert!(matches!(*e.focus(), Focus::ShapeEditing { id: 0, .. }));
    assert!(e.remove_shape(0));
    assert_eq!(*e.focus(), Focus::Idle);
}

#[test]
fn editor_remove_connection_clears_the_selection() {
    let mut e = connected();
    e.pointer_down(Button::Left, 255, 200, 30_000);
    assert!(!e.remove_connection(5));
    assert_eq!(*e.focus(), Focus::ConnectionSelected { id: 0 });
    assert!(e.remove_connection(0));
    assert_eq!(*e.focus(), Focus::Idle);
}

#[test]
fn editor_store_operations() {
    let mut e = two_shapes();
    assert_eq!(e.add_connection(0, 0), None);
    assert_eq!(e.add_connection(0, 1), Some(0));
    assert_eq!(e.add_connection(0, 1), None);
    e.update_shape_center(0, p(1, 2));
    e.update_shape_center(7, p(1, 2));
    e.set_shape_text(1, String::new());
    e.set_shape_text(0, String::from("Z"));
    assert_eq!(e.scene().shape_at(0).center, p(1, 2));
    assert_eq!(e.scene().shape_at(0).text, Some(String::from("Z")));
    assert_eq!(e.scene().shape_at(1).text, None);
    assert_eq!(e.scene().connection_count(), 1);
}

#[test]
fn target_skips_the_starting_shape() {
    let mut e = two_shapes();
    e.update_shape_center(1, p(100, 100));
    assert_eq!(e.target_at(p(55, 137), 0), Some(1));
    assert_eq!(e.target_at(p(55, 137), 1), Some(0));
    assert_eq!(e.target_at(p(55, 137), 9), Some(0));
    assert_eq!(e.target_at(p(55, 100), 0), None);
}
