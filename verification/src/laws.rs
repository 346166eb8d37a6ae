//! Laws of the editor: what holds of every scene, every state and every
//! run of events.

use crate::consistency::{
    lemma_connections_same_layout, lemma_first_target_at, lemma_grip, lemma_ports_same_layout,
    lemma_topmost_same_layout,
};
use crate::events::{elapsed, Button, Click, Key};
use crate::geometry::{within, Point};
use crate::model::{
    first_target_at, in_pointer_range, is_grip, moved_by, offset_between, on_port, EditorView,
    FocusView, Press,
};
use crate::scene::{
    filter_sources, lemma_filter_keeps_order, lemma_filter_split, spares, touches, Connection,
    SceneView, ShapeId, ShapeView,
};
use crate::text::{is_control, label_of, text_of};
use vstd::prelude::*;

verus! {

/// The editor after the characters of `chars` were typed one after
/// another.
pub open spec fn typed(s: EditorView, chars: Seq<char>) -> EditorView
    decreases chars.len(),
{
    if chars.len() == 0 {
        s
    } else {
        typed(s, chars.drop_last()).text_input(chars.last())
    }
}

/// The editor after the pointer visited the points of `path` one after
/// another.
pub open spec fn moved_along(s: EditorView, path: Seq<Point>) -> EditorView
    decreases path.len(),
{
    if path.len() == 0 {
        s
    } else {
        moved_along(s, path.drop_last()).pointer_move(path.last())
    }
}

/// The second press is within the thresholds of a double-click begun by
/// `first`.
pub open spec fn within_thresholds(s: EditorView, first: Click, at: Point, now: u64) -> bool {
    &&& elapsed(first.time_ms, now) <= s.config.double_click_delay_ms
    &&& within(at, first.at, s.config.double_click_distance)
}

/// Every point is within any distance of itself.
pub proof fn lemma_within_self(at: Point, r: u32)
    ensures
        within(at, at, r),
{
    assert(0 <= r * r) by (nonlinear_arith);
}

/// A press on a shape or on the empty canvas, coming after a recorded
/// press, is a double-click exactly if it is within both thresholds:
/// within them it starts the editing of a label and clears the record,
/// beyond either of them it counts as a single press of its own, which
/// starts a drag or drops the focus, and is recorded in turn.
pub proof fn law_double_click_threshold(s: EditorView, first: Click, at: Point, now: u64)
    requires
        s.wf(),
        s.pending_click == Some(first),
        s.press_at(at) is Body || s.press_at(at) is Canvas,
    ensures
        s.doubles(at, now) == within_thresholds(s, first, at, now),
        within_thresholds(s, first, at, now) ==> {
            let after = s.pointer_down(Button::Left, at, now);
            &&& after.pending_click.is_none()
            &&& s.press_at(at) matches Press::Body { index } ==> after.focus matches FocusView::ShapeEditing {
                id,
                ..
            } && id == s.scene.shapes[index].id
            &&& s.press_at(at) is Canvas && s.scene.can_add_shape(at) ==> {
                &&& after.focus == (FocusView::ShapeEditing {
                    id: s.scene.next_shape_id,
                    draft: Seq::empty(),
                })
                &&& after.scene.shapes == s.committed().shapes.push(
                    ShapeView { id: s.scene.next_shape_id, center: at, text: None },
                )
            }
        },
        !within_thresholds(s, first, at, now) ==> {
            let after = s.pointer_down(Button::Left, at, now);
            &&& after.pending_click == Some(Click { time_ms: now, at })
            &&& s.press_at(at) matches Press::Body { index } ==> after.focus matches FocusView::ShapeDragging {
                id,
                ..
            } && id == s.scene.shapes[index].id
            &&& s.press_at(at) is Canvas ==> after.focus is Idle && after.scene == s.committed()
        },
{
    s.lemma_committed();
}

/// A press on the empty canvas that completes a double-click creates one
/// shape there, without label and last in the order of creation, selects
/// it and starts the editing of its empty label. The record of the first
/// press is cleared, no connection changes, and no other shape changes but
/// for the label of a shape whose edit the press commits. Where no
/// identifier is left, the press creates nothing and leaves nothing in
/// focus.
pub proof fn law_double_click_creates_shape(s: EditorView, first: Click, at: Point, now: u64)
    requires
        s.wf(),
        s.pending_click == Some(first),
        within_thresholds(s, first, at, now),
        s.press_at(at) is Canvas,
        in_pointer_range(at),
    ensures
        ({
            let after = s.pointer_down(Button::Left, at, now);
            &&& after.wf()
            &&& after.pending_click.is_none()
            &&& after.scene.connections == s.scene.connections
            &&& !(s.focus is ShapeEditing) ==> s.committed() == s.scene
            &&& s.scene.next_shape_id < u64::MAX ==> {
                &&& after.scene.shapes == s.committed().shapes.push(
                    ShapeView { id: s.scene.next_shape_id, center: at, text: None },
                )
                &&& after.focus == (FocusView::ShapeEditing {
                    id: s.scene.next_shape_id,
                    draft: Seq::empty(),
                })
                &&& after.focus.selected_shape() == Some(s.scene.next_shape_id)
                &&& after.scene.has_shape(s.scene.next_shape_id)
                &&& !s.scene.has_shape(s.scene.next_shape_id)
            }
            &&& s.scene.next_shape_id == u64::MAX ==> {
                &&& after.scene == s.committed()
                &&& after.focus is Idle
            }
        }),
{
    s.lemma_committed();
    s.lemma_pointer_down_wf(Button::Left, at, now);
    if s.scene.next_shape_id < u64::MAX {
        s.committed().lemma_add_shape_frame(at);
        assert(!s.scene.has_shape(s.scene.next_shape_id));
    }
}

/// Grabbing a port starts the drawing of a connector there and changes
/// nothing in the scene: no shape, no label and no connection. Nothing
/// stays selected and no press stays recorded.
pub proof fn law_port_grab_leaves_scene(s: EditorView, at: Point, now: u64)
    requires
        s.wf(),
        s.press_at(at) is Port,
    ensures
        ({
            let after = s.pointer_down(Button::Left, at, now);
            &&& after.wf()
            &&& after.scene == s.scene
            &&& s.press_at(at) matches Press::Port { index, port } && after.focus == (
            FocusView::ConnectorDrafting { from: s.scene.shapes[index].id, port, preview: at })
            &&& after.focus.selected_shape().is_none()
            &&& after.pending_click.is_none()
        }),
{
    s.lemma_pointer_down_wf(Button::Left, at, now);
}

/// Two presses at one point of the empty canvas: if the second comes
/// within the delay, it creates a shape there and starts the editing of
/// its label; if it comes later, it is one more single press.
pub proof fn law_double_click_on_canvas(s: EditorView, at: Point, t1: u64, t2: u64)
    requires
        s.wf(),
        s.press_at(at) is Canvas,
        !s.doubles(at, t1),
        t1 <= t2,
        at.on_canvas(),
        s.scene.next_shape_id < u64::MAX,
    ensures
        ({
            let once = s.pointer_down(Button::Left, at, t1);
            let twice = once.pointer_down(Button::Left, at, t2);
            &&& once.scene == s.committed()
            &&& once.focus is Idle
            &&& t2 - t1 <= s.config.double_click_delay_ms ==> {
                &&& twice.scene == once.scene.add_shape(at)
                &&& twice.scene.shapes.len() == s.scene.shapes.len() + 1
                &&& twice.scene.shapes.last() == (ShapeView {
                    id: s.scene.next_shape_id,
                    center: at,
                    text: None,
                })
                &&& twice.focus == (FocusView::ShapeEditing {
                    id: s.scene.next_shape_id,
                    draft: Seq::empty(),
                })
                &&& twice.pending_click.is_none()
            }
            &&& t2 - t1 > s.config.double_click_delay_ms ==> {
                &&& twice.scene == once.scene
                &&& twice.focus is Idle
                &&& twice.pending_click == Some(Click { time_ms: t2, at })
            }
        }),
{
    let once = s.pointer_down(Button::Left, at, t1);
    s.lemma_committed();
    s.lemma_pointer_down_wf(Button::Left, at, t1);
    lemma_press_at_same_layout(s, once, at);
    lemma_within_self(at, s.config.double_click_distance);
    assert(once.committed() == once.scene);
}

/// Two presses at one point of a shape, the button released in between or
/// not: if the second comes within the delay, it starts the editing of the
/// label of that shape, seeded with the label; if it comes later, it starts
/// one more drag.
pub proof fn law_double_click_on_shape(
    s: EditorView,
    at: Point,
    t1: u64,
    t2: u64,
    released: bool,
)
    requires
        s.wf(),
        s.press_at(at) is Body,
        !s.doubles(at, t1),
        t1 <= t2,
    ensures
        ({
            let id = s.scene.shapes[s.press_at(at)->Body_index].id;
            let once = s.pointer_down(Button::Left, at, t1);
            let between = if released {
                once.pointer_up(Button::Left)
            } else {
                once
            };
            let twice = between.pointer_down(Button::Left, at, t2);
            &&& once.focus matches FocusView::ShapeDragging { id: dragged, .. } && dragged == id
            &&& twice.scene == once.scene
            &&& t2 - t1 <= s.config.double_click_delay_ms ==> {
                &&& twice.focus == (FocusView::ShapeEditing {
                    id,
                    draft: text_of(once.scene.shape(id).text),
                })
                &&& twice.pending_click.is_none()
            }
            &&& t2 - t1 > s.config.double_click_delay_ms ==> {
                &&& twice.focus matches FocusView::ShapeDragging { id: dragged, .. } && dragged
                    == id
                &&& twice.pending_click == Some(Click { time_ms: t2, at })
            }
        }),
{
    let index = s.press_at(at)->Body_index;
    let id = s.scene.shapes[index].id;
    let once = s.pointer_down(Button::Left, at, t1);
    let between = if released {
        once.pointer_up(Button::Left)
    } else {
        once
    };
    s.lemma_press_at(at);
    s.lemma_pointer_down_wf(Button::Left, at, t1);
    if let FocusView::ShapeEditing { id: edited, draft } = s.focus {
        if edited != id {
            s.scene.lemma_set_text_frame(edited, draft);
        }
    }
    lemma_press_at_same_layout(s, between, at);
    lemma_within_self(at, s.config.double_click_distance);
    between.lemma_press_at(at);
}

/// Editors that differ in labels, focus and recorded press only, neither
/// of them drawing a connector, resolve every press alike.
pub proof fn lemma_press_at_same_layout(a: EditorView, b: EditorView, at: Point)
    requires
        a.wf(),
        b.wf(),
        a.config == b.config,
        !(a.focus is ConnectorDrafting),
        !(b.focus is ConnectorDrafting),
        a.scene.connections == b.scene.connections,
        a.scene.shapes.len() == b.scene.shapes.len(),
        forall|i: int|
            0 <= i < a.scene.shapes.len() ==> (#[trigger] a.scene.shapes[i]).center
                == b.scene.shapes[i].center && a.scene.shapes[i].id == b.scene.shapes[i].id,
    ensures
        a.press_at(at) == b.press_at(at),
{
    lemma_topmost_same_layout(a.scene.shapes, b.scene.shapes, a.config, at);
    lemma_ports_same_layout(a.scene.shapes, b.scene.shapes, a.config, at, 0, 0);
    lemma_connections_same_layout(a.scene, b.scene, a.config, at, 0);
}

/// Removing a shape that `n` connections touch removes exactly those `n`
/// connections. The others stay, each as it was and all in their order,
/// and so do the other shapes.
pub proof fn law_deletion_cascade(s: SceneView, id: ShapeId)
    requires
        s.wf(),
        s.has_shape(id),
    ensures
        ({
            let after = s.remove_shape(id);
            let n = s.connections.filter(touches(id)).len();
            &&& after.wf()
            &&& after.connections.len() + n == s.connections.len()
            &&& after.connections == s.connections.filter(spares(id))
            &&& forall|c: Connection|
                after.connections.contains(c) <==> s.connections.contains(c) && c.from != id
                    && c.to != id
            &&& after.shapes.len() + 1 == s.shapes.len()
            &&& !after.has_shape(id)
            &&& forall|o: ShapeId|
                o != id ==> #[trigger] after.has_shape(o) == s.has_shape(o)
            &&& forall|o: ShapeId|
                o != id && s.has_shape(o) ==> #[trigger] after.shape(o) == s.shape(o)
        }),
{
    let after = s.remove_shape(id);
    s.lemma_remove_shape_frame(id);
    assert forall|c: Connection| #[trigger] spares(id)(c) <==> !touches(id)(c) by {}
    lemma_filter_split(s.connections, spares(id), touches(id));
    lemma_filter_keeps_order(s.connections, spares(id));
    let pick = filter_sources(s.connections, spares(id));
    assert forall|c: Connection|
        after.connections.contains(c) <==> s.connections.contains(c) && c.from != id && c.to
            != id by {
        if after.connections.contains(c) {
            let i = choose|i: int| 0 <= i < after.connections.len() && after.connections[i] == c;
            assert(s.connections[pick[i]] == c);
            assert(spares(id)(c));
        }
        if s.connections.contains(c) && c.from != id && c.to != id {
            let i = choose|i: int| 0 <= i < s.connections.len() && s.connections[i] == c;
            assert(spares(id)(s.connections[i]));
            s.connections.lemma_filter_contains(spares(id), i);
        }
    }
}

/// Pressing the delete key while a shape is selected removes that shape
/// with the connections that touch it, and leaves nothing in focus.
pub proof fn law_delete_key_removes_selected_shape(s: EditorView, id: ShapeId, key: Key)
    requires
        s.wf(),
        s.focus == (FocusView::ShapeSelected { id }),
        s.deletes(key),
    ensures
        s.key_down(key, false).scene == s.scene.remove_shape(id),
        !s.key_down(key, false).scene.has_shape(id),
        forall|i: int|
            0 <= i < s.key_down(key, false).scene.connections.len() ==> (
            #[trigger] s.key_down(key, false).scene.connections[i]).from != id && s.key_down(
                key,
                false,
            ).scene.connections[i].to != id,
        s.key_down(key, false).focus is Idle,
{
    law_deletion_cascade(s.scene, id);
    let after = s.scene.remove_shape(id);
    assert forall|i: int| 0 <= i < after.connections.len() implies (
    #[trigger] after.connections[i]).from != id && after.connections[i].to != id by {
        assert(after.connections.contains(after.connections[i]));
    }
}

/// The attempt to add a connection that exists already changes nothing.
pub proof fn law_no_duplicate_connection(s: SceneView, from: ShapeId, to: ShapeId)
    requires
        s.has_link(from, to),
    ensures
        s.add_connection(from, to) == s,
        s.add_connection(from, to).connections.len() == s.connections.len(),
{
}

/// In a consistent scene no two connections join the same shapes in the
/// same direction, and after any attempt to add one that is still so.
pub proof fn law_connections_stay_unique(s: SceneView, from: ShapeId, to: ShapeId)
    requires
        s.wf(),
    ensures
        forall|i: int, j: int|
            0 <= i < j < s.add_connection(from, to).connections.len() ==> !((
            #[trigger] s.add_connection(from, to).connections[i]).from == (
            #[trigger] s.add_connection(from, to).connections[j]).from && s.add_connection(
                from,
                to,
            ).connections[i].to == s.add_connection(from, to).connections[j].to),
{
    s.lemma_add_connection_wf(from, to);
}

/// Drawing a connector once more between shapes that are connected
/// already changes nothing in the scene.
pub proof fn law_repeated_connector_adds_nothing(s: EditorView, at: Point, now: u64)
    requires
        s.wf(),
        s.press_at(at) matches Press::Draft { from, target: Some(index) } && s.scene.has_link(
            from,
            s.scene.shapes[index].id,
        ),
    ensures
        s.pointer_down(Button::Left, at, now).scene == s.scene,
        s.pointer_down(Button::Left, at, now).focus is Idle,
{
}

/// The attempt to connect a shape to itself changes nothing.
pub proof fn law_no_self_loop(s: SceneView, id: ShapeId)
    ensures
        s.add_connection(id, id) == s,
{
}

/// The press that ends the drawing of a connector never connects a shape
/// to itself: it adds at most one connection, which leaves the shape that
/// the drawing started from and arrives at another one. A press on a port
/// of the starting shape itself, with no port of another shape under it,
/// adds nothing.
pub proof fn law_connector_never_loops(s: EditorView, from: ShapeId, at: Point, now: u64)
    requires
        s.wf(),
        s.focus matches FocusView::ConnectorDrafting { from: start, .. } && start == from,
    ensures
        ({
            let after = s.pointer_down(Button::Left, at, now);
            &&& after.wf()
            &&& after.focus is Idle
            &&& forall|i: int|
                0 <= i < after.scene.connections.len() ==> (
                #[trigger] after.scene.connections[i]).from != after.scene.connections[i].to
            &&& after.scene == s.scene || {
                &&& after.scene.connections.len() == s.scene.connections.len() + 1
                &&& after.scene.connections.drop_last() == s.scene.connections
                &&& after.scene.connections.last().from == from
                &&& after.scene.connections.last().to != from
                &&& after.scene.shapes == s.scene.shapes
            }
            &&& (forall|j: int|
                0 <= j < s.scene.shapes.len() && on_port(
                    (#[trigger] s.scene.shapes[j]).center,
                    s.config,
                    at,
                ) ==> s.scene.shapes[j].id == from) ==> after.scene == s.scene
        }),
{
    let after = s.pointer_down(Button::Left, at, now);
    s.lemma_pointer_down_wf(Button::Left, at, now);
    lemma_first_target_at(s.scene.shapes, s.config, at, from, 0);
    match first_target_at(s.scene.shapes, s.config, at, from, 0) {
        Some(index) => {
            let to = s.scene.shapes[index].id;
            if s.scene.can_add_connection(from, to) {
                assert(after.scene.connections.drop_last() =~= s.scene.connections);
            }
        },
        None => {},
    }
}

/// While a shape is dragged, a move of the pointer puts its center exactly
/// at the pointer position plus the offset of the drag, and the drag goes
/// on with the same offset.
pub proof fn law_drag_follows_pointer(s: EditorView, id: ShapeId, offset: Point, at: Point)
    requires
        s.wf(),
        s.focus == (FocusView::ShapeDragging { id, offset }),
        in_pointer_range(at),
    ensures
        s.pointer_move(at).wf(),
        s.pointer_move(at).focus == s.focus,
        s.pointer_move(at).pointer == at,
        s.pointer_move(at).scene.has_shape(id),
        s.pointer_move(at).scene.shape(id).center.x == at.x + offset.x,
        s.pointer_move(at).scene.shape(id).center.y == at.y + offset.y,
{
    s.lemma_pointer_move_wf(at);
    s.scene.lemma_set_center_frame(id, moved_by(at, offset));
}

/// However the pointer moves while a shape is dragged, the center of the
/// shape ends exactly at the last pointer position plus the offset of the
/// drag.
pub proof fn law_drag_fidelity(s: EditorView, id: ShapeId, offset: Point, path: Seq<Point>)
    requires
        s.wf(),
        s.focus == (FocusView::ShapeDragging { id, offset }),
        path.len() > 0,
        forall|i: int| 0 <= i < path.len() ==> in_pointer_range(#[trigger] path[i]),
    ensures
        moved_along(s, path).wf(),
        moved_along(s, path).focus == s.focus,
        moved_along(s, path).scene.has_shape(id),
        moved_along(s, path).scene.shape(id).center.x == path.last().x + offset.x,
        moved_along(s, path).scene.shape(id).center.y == path.last().y + offset.y,
    decreases path.len(),
{
    let before = path.drop_last();
    if before.len() > 0 {
        assert forall|i: int| 0 <= i < before.len() implies in_pointer_range(
            #[trigger] before[i],
        ) by {
            assert(before[i] == path[i]);
        }
        law_drag_fidelity(s, id, offset, before);
    }
    law_drag_follows_pointer(moved_along(s, before), id, offset, path.last());
}

/// A single press on the body of a shape starts a drag whose offset leads
/// from the press to the center of the shape, so the shape does not jump
/// when the drag begins.
pub proof fn law_drag_starts_at_rest(s: EditorView, at: Point, now: u64)
    requires
        s.wf(),
        s.press_at(at) is Body,
        !s.doubles(at, now),
    ensures
        ({
            let shape = s.scene.shapes[s.press_at(at)->Body_index];
            let after = s.pointer_down(Button::Left, at, now);
            &&& after.focus == (FocusView::ShapeDragging {
                id: shape.id,
                offset: offset_between(at, shape.center),
            })
            &&& is_grip(offset_between(at, shape.center))
            &&& at.x + offset_between(at, shape.center).x == shape.center.x
            &&& at.y + offset_between(at, shape.center).y == shape.center.y
        }),
{
    let index = s.press_at(at)->Body_index;
    let id = s.scene.shapes[index].id;
    s.lemma_press_at(at);
    s.lemma_press_shape_wf(id, at, now);
    if let FocusView::ShapeEditing { id: edited, draft } = s.focus {
        if edited != id {
            s.scene.lemma_set_text_frame(edited, draft);
        }
    }
    lemma_grip(s.scene.shapes[index].center, s.config, at);
}

/// Typing characters that are no control characters appends them to the
/// draft and changes nothing else.
pub proof fn law_typing_extends_draft(
    s: EditorView,
    id: ShapeId,
    draft: Seq<char>,
    chars: Seq<char>,
)
    requires
        s.focus == (FocusView::ShapeEditing { id, draft }),
        forall|i: int| 0 <= i < chars.len() ==> !is_control(#[trigger] chars[i]),
    ensures
        typed(s, chars) == (EditorView {
            focus: FocusView::ShapeEditing { id, draft: draft + chars },
            ..s
        }),
    decreases chars.len(),
{
    if chars.len() == 0 {
        assert(draft + chars =~= draft);
    } else {
        let before = chars.drop_last();
        assert forall|i: int| 0 <= i < before.len() implies !is_control(#[trigger] before[i]) by {
            assert(before[i] == chars[i]);
        }
        law_typing_extends_draft(s, id, draft, before);
        assert((draft + before).push(chars.last()) =~= draft + chars);
    }
}

/// Typing and then pressing Enter makes the typed text the label of the
/// edited shape: exactly the draft with the typed characters behind it, or
/// no label where that is empty. The shape stays selected, and no other
/// shape changes.
pub proof fn law_enter_commits(s: EditorView, id: ShapeId, draft: Seq<char>, chars: Seq<char>)
    requires
        s.wf(),
        s.focus == (FocusView::ShapeEditing { id, draft }),
        forall|i: int| 0 <= i < chars.len() ==> !is_control(#[trigger] chars[i]),
    ensures
        ({
            let after = typed(s, chars).key_down(Key::Enter, false);
            &&& after.scene == s.scene.set_text(id, draft + chars)
            &&& after.scene.has_shape(id)
            &&& after.scene.shape(id).text == label_of(draft + chars)
            &&& after.scene.shape(id).center == s.scene.shape(id).center
            &&& after.focus == (FocusView::ShapeSelected { id })
            &&& forall|i: int|
                0 <= i < s.scene.shapes.len() && s.scene.shapes[i].id != id ==> (
                #[trigger] after.scene.shapes[i]) == s.scene.shapes[i]
        }),
{
    law_typing_extends_draft(s, id, draft, chars);
    s.scene.lemma_set_text_frame(id, draft + chars);
    let i = s.scene.shape_index(id);
    assert(s.scene.shapes[i].id == id);
}

/// Typing into the label of a shape that was just created and then
/// pressing Enter makes exactly the typed characters its label.
pub proof fn law_enter_commits_typed_text(s: EditorView, id: ShapeId, chars: Seq<char>)
    requires
        s.wf(),
        s.focus == (FocusView::ShapeEditing { id, draft: Seq::empty() }),
        forall|i: int| 0 <= i < chars.len() ==> !is_control(#[trigger] chars[i]),
    ensures
        typed(s, chars).key_down(Key::Enter, false).scene.shape(id).text == label_of(chars),
{
    law_enter_commits(s, id, Seq::empty(), chars);
    assert(Seq::<char>::empty() + chars =~= chars);
}

/// Typing and then pressing Escape leaves the scene, and so the label of
/// the edited shape, as it was before; the shape stays selected.
pub proof fn law_escape_discards(s: EditorView, id: ShapeId, draft: Seq<char>, chars: Seq<char>)
    requires
        s.focus == (FocusView::ShapeEditing { id, draft }),
        forall|i: int| 0 <= i < chars.len() ==> !is_control(#[trigger] chars[i]),
    ensures
        typed(s, chars).key_down(Key::Escape, false).scene == s.scene,
        typed(s, chars).key_down(Key::Escape, false).focus == (FocusView::ShapeSelected { id }),
{
    law_typing_extends_draft(s, id, draft, chars);
}

/// A shape is never dragged and edited at once, nor selected together
/// with a connection; and whatever is in focus exists in the scene.
pub proof fn law_focus_is_one_thing(s: EditorView)
    requires
        s.wf(),
    ensures
        !(s.focus is ShapeDragging && s.focus is ShapeEditing),
        !(s.focus.selected_shape().is_some() && s.focus is ConnectionSelected),
        s.focus.selected_shape() matches Some(id) ==> s.scene.has_shape(id),
        s.focus matches FocusView::ConnectionSelected { id } ==> s.scene.has_connection(id),
        s.focus matches FocusView::ConnectorDrafting { from, .. } ==> s.scene.has_shape(from),
{
}

/// Identifiers are never handed out twice: no operation of the store
/// lowers the identifier that comes next, and every shape and connection
/// of a consistent scene has an identifier below it.
pub proof fn law_identifiers_never_reused(s: SceneView, id: ShapeId, at: Point, text: Seq<char>)
    requires
        s.wf(),
    ensures
        s.add_shape(at).next_shape_id >= s.next_shape_id,
        s.remove_shape(id).next_shape_id == s.next_shape_id,
        s.set_center(id, at).next_shape_id == s.next_shape_id,
        s.set_text(id, text).next_shape_id == s.next_shape_id,
        s.remove_connection(id).next_shape_id == s.next_shape_id,
        forall|i: int| 0 <= i < s.shapes.len() ==> (#[trigger] s.shapes[i]).id < s.next_shape_id,
        forall|i: int|
            0 <= i < s.connections.len() ==> (#[trigger] s.connections[i]).id
                < s.next_connection_id,
{
}

} // verus!
