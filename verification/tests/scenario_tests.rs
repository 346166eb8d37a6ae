use diagram_editor::config::Config;
use diagram_editor::connector::{Curve, PortKind};
use diagram_editor::editor::{Editor, Focus};
use diagram_editor::events::{Button, Key};
use diagram_editor::frame::{ConnectorFrame, PortFrame, PortMark, Preview};
use diagram_editor::geometry::{Point, Rect};
use diagram_editor::scene::Connection;

fn p(x: i64, y: i64) -> Point {
    Point::new(x, y)
}

fn double_click(e: &mut Editor, x: i32, y: i32, now: u64) {
    e.pointer_down(Button::Left, x, y, now);
    e.pointer_up(Button::Left, x, y);
    e.pointer_down(Button::Left, x, y, now + 100);
    e.pointer_up(Button::Left, x, y);
}

/// Draws a connector from the outgoing port of the shape centered at
/// `from` to the incoming port of the shape centered at `to`.
fn draw_connector(e: &mut Editor, from: (i32, i32), to: (i32, i32), now: u64) {
    let (sx, sy) = (from.0 - 60 + 15, from.1 + 35);
    let (tx, ty) = (to.0 - 60 + 15, to.1 - 35);
    e.pointer_down(Button::Left, sx, sy, now);
    e.pointer_up(Button::Left, sx, sy);
    e.pointer_move(tx, ty);
    e.tick();
    e.pointer_down(Button::Left, tx, ty, now + 1_000);
    e.pointer_up(Button::Left, tx, ty);
}

#[test]
fn two_shapes_one_connector_no_duplicate() {
    let mut e = Editor::new(Config::default());
    double_click(&mut e, 100, 100, 1_000);
    double_click(&mut e, 300, 100, 5_000);
    assert_eq!(e.scene().shape_count(), 2);
    let a = e.scene().shape_at(0).id;
    let b = e.scene().shape_at(1).id;
    assert_eq!(e.scene().shape_at(0).center, p(100, 100));
    assert_eq!(e.scene().shape_at(1).center, p(300, 100));

    draw_connector(&mut e, (100, 100), (300, 100), 10_000);
    assert_eq!(e.scene().connection_count(), 1);
    let c = e.scene().connection_at(0);
    assert_eq!((c.from, c.to), (a, b));

    draw_connector(&mut e, (100, 100), (300, 100), 20_000);
    assert_eq!(e.scene().connection_count(), 1);
    assert_eq!(e.scene().connection_at(0), c);
    assert_eq!(e.scene().shape_count(), 2);
}

#[test]
fn delete_selected_shape_removes_it_and_its_connections() {
    let mut e = Editor::new(Config::default());
    double_click(&mut e, 100, 100, 1_000);
    double_click(&mut e, 300, 100, 5_000);
    double_click(&mut e, 500, 100, 9_000);
    e.key_down(Key::Escape, false);
    draw_connector(&mut e, (100, 100), (300, 100), 10_000);
    draw_connector(&mut e, (300, 100), (100, 100), 20_000);
    draw_connector(&mut e, (300, 100), (500, 100), 30_000);
    assert_eq!(e.scene().connection_count(), 3);
    let a = e.scene().shape_at(0).id;

    e.pointer_down(Button::Left, 100, 100, 40_000);
    e.pointer_up(Button::Left, 100, 100);
    assert_eq!(*e.focus(), Focus::ShapeSelected { id: a });
    e.key_down(Key::Delete, false);

    assert_eq!(e.scene().shape_count(), 2);
    for i in 0..e.scene().shape_count() {
        assert_ne!(e.scene().shape_at(i).id, a);
    }
    assert_eq!(e.scene().connection_count(), 1);
    assert_eq!(e.scene().connection_at(0), Connection { id: 2, from: 1, to: 2 });
    assert_eq!(*e.focus(), Focus::Idle);
}

#[test]
fn frame_of_an_empty_editor() {
    let e = Editor::new(Config::default());
    let f = e.frame();
    assert!(f.shapes.is_empty());
    assert!(f.connectors.is_empty());
    assert_eq!(f.preview, None);
}

#[test]
fn frame_shows_shapes_in_order_with_outline_and_ports() {
    let mut e = Editor::new(Config::default());
    double_click(&mut e, 100, 100, 1_000);
    e.text_input('A');
    e.key_down(Key::Enter, false);
    double_click(&mut e, 500, 300, 5_000);
    e.text_input('B');
    e.pointer_move(60, 140);
    let f = e.frame();
    assert_eq!(f.shapes.len(), 2);
    let a = &f.shapes[0];
    assert_eq!(a.id, 0);
    assert_eq!(a.center, p(100, 100));
    assert_eq!(a.outline, Rect { left: 40, top: 65, width: 120, height: 70 });
    assert_eq!(a.text, "A");
    assert!(!a.selected && !a.editing && !a.dragging);
    assert_eq!(a.outgoing, PortFrame { at: p(55, 135), hovered: true, mark: PortMark::Plain });
    assert_eq!(a.incoming, PortFrame { at: p(55, 65), hovered: false, mark: PortMark::Plain });
    let b = &f.shapes[1];
    assert_eq!(b.id, 1);
    assert_eq!(b.text, "B|");
    assert!(b.selected && b.editing && !b.dragging);
    assert_eq!(e.display_text(0), "A");
    assert_eq!(e.display_text(1), "B|");
}

#[test]
fn frame_shows_an_empty_draft_as_the_cursor_alone() {
    let mut e = Editor::new(Config::default());
    double_click(&mut e, 100, 100, 1_000);
    assert_eq!(e.frame().shapes[0].text, "|");
    e.key_down(Key::Escape, false);
    assert_eq!(e.frame().shapes[0].text, "");
    assert!(e.frame().shapes[0].selected);
}

#[test]
fn frame_hover_reaches_as_far_as_configured() {
    let mut e = Editor::new(Config::default());
    double_click(&mut e, 100, 100, 1_000);
    e.pointer_move(55, 150);
    assert!(e.frame().shapes[0].outgoing.hovered);
    e.pointer_move(55, 151);
    assert!(!e.frame().shapes[0].outgoing.hovered);
    e.pointer_move(46, 53);
    assert!(e.frame().shapes[0].incoming.hovered);
}

#[test]
fn frame_marks_a_dragged_shape() {
    let mut e = Editor::new(Config::default());
    double_click(&mut e, 100, 100, 1_000);
    e.key_down(Key::Escape, false);
    e.pointer_down(Button::Left, 100, 100, 5_000);
    let f = e.frame();
    assert!(f.shapes[0].selected && f.shapes[0].dragging && !f.shapes[0].editing);
}

#[test]
fn frame_shows_connectors_and_marks_the_selected_one() {
    let mut e = Editor::new(Config::default());
    double_click(&mut e, 100, 100, 1_000);
    double_click(&mut e, 500, 300, 5_000);
    e.key_down(Key::Escape, false);
    draw_connector(&mut e, (100, 100), (500, 300), 10_000);
    draw_connector(&mut e, (500, 300), (100, 100), 20_000);
    e.pointer_down(Button::Left, 255, 200, 30_000);
    assert_eq!(*e.focus(), Focus::ConnectionSelected { id: 0 });
    let f = e.frame();
    assert_eq!(
        f.connectors,
        vec![
            ConnectorFrame {
                id: 0,
                curve: Curve { p0: p(55, 135), p1: p(95, 135), p2: p(415, 265), p3: p(455, 265) },
                selected: true,
            },
            ConnectorFrame {
                id: 1,
                curve: Curve { p0: p(455, 335), p1: p(415, 335), p2: p(95, 65), p3: p(55, 65) },
                selected: false,
            },
        ]
    );
    assert_eq!(e.connector_curve_at(1), f.connectors[1].curve);
    assert_eq!(e.selected_connection(), Some(Connection { id: 0, from: 0, to: 1 }));
    assert_eq!(f.shapes[0].outgoing.mark, PortMark::OnSelection);
    assert_eq!(f.shapes[0].incoming.mark, PortMark::Plain);
    assert_eq!(f.shapes[1].outgoing.mark, PortMark::Plain);
    assert_eq!(f.shapes[1].incoming.mark, PortMark::OnSelection);
    assert!(!f.shapes[0].selected && !f.shapes[1].selected);
    assert_eq!(f.preview, None);
}

#[test]
fn frame_shows_the_preview_of_a_connector_being_drawn() {
    let mut e = Editor::new(Config::default());
    double_click(&mut e, 100, 100, 1_000);
    e.key_down(Key::Escape, false);
    assert_eq!(e.preview(), None);
    e.pointer_down(Button::Left, 55, 60, 5_000);
    assert_eq!(e.preview(), Some(Preview { start: p(55, 65), end: p(55, 60) }));
    e.pointer_move(300, 20);
    e.tick();
    let f = e.frame();
    assert_eq!(f.preview, Some(Preview { start: p(55, 65), end: p(300, 20) }));
    assert_eq!(f.shapes[0].incoming.mark, PortMark::DraftStart);
    assert_eq!(f.shapes[0].outgoing.mark, PortMark::Plain);
    assert!(!f.shapes[0].selected);
}

#[test]
fn port_position_of_shapes() {
    let mut e = Editor::new(Config::default());
    double_click(&mut e, 100, 100, 1_000);
    assert_eq!(e.port_position(0, PortKind::Outgoing), Some(p(55, 135)));
    assert_eq!(e.port_position(0, PortKind::Incoming), Some(p(55, 65)));
    assert_eq!(e.port_position(1, PortKind::Incoming), None);
}

#[test]
fn taking_a_frame_changes_nothing() {
    let mut e = Editor::new(Config::default());
    double_click(&mut e, 100, 100, 1_000);
    e.text_input('x');
    let first = e.frame();
    let second = e.frame();
    assert_eq!(first, second);
    assert_eq!(*e.focus(), Focus::ShapeEditing { id: 0, draft: String::from("x") });
}
