//! The editor: one scene, one focus, and the handlers that turn pointer and
//! keyboard events into edits.
//!
//! Every handler does exactly what the state machine of `model` says of the
//! event, and leaves the editor consistent.

use crate::config::Config;
use crate::connector::{
    connector_curve, curve_hit, port_point, shape_rect, Curve, PortKind,
};
use crate::consistency::lemma_grip;
use crate::events::{completes_double_click, pointer_at, Button, Click, Key};
use crate::geometry::{rect_contains, within_radius, Point};
use crate::model::{
    connection_curve, first_connection_at, first_port_at, first_target_at, topmost_at, EditorView,
    FocusView,
};
use crate::scene::{ConnectionId, Scene, ShapeId};
use crate::text::is_control_char;
use vstd::prelude::*;

verus! {

/// What the editor attends to.
#[allow(inconsistent_fields)]
#[derive(Clone, Debug, PartialEq, Eq)]
pub enum Focus {
    /// Nothing.
    Idle,
    /// A shape is selected.
    ShapeSelected { id: ShapeId },
    /// A shape is selected and its label is being edited; `draft` is the
    /// text typed so far.
    ShapeEditing { id: ShapeId, draft: String },
    /// A shape is selected and follows the pointer, its center staying
    /// `offset` away from it.
    ShapeDragging { id: ShapeId, offset: Point },
    /// A connection is selected.
    ConnectionSelected { id: ConnectionId },
    /// A connector is being drawn from a port of the shape `from`;
    /// `preview` is where its loose end is shown.
    ConnectorDrafting { from: ShapeId, port: PortKind, preview: Point },
}

impl View for Focus {
    type V = FocusView;

    open spec fn view(&self) -> FocusView {
        match *self {
            Focus::Idle => FocusView::Idle,
            Focus::ShapeSelected { id } => FocusView::ShapeSelected { id },
            Focus::ShapeEditing { id, draft } => FocusView::ShapeEditing { id, draft: draft@ },
            Focus::ShapeDragging { id, offset } => FocusView::ShapeDragging { id, offset },
            Focus::ConnectionSelected { id } => FocusView::ConnectionSelected { id },
            Focus::ConnectorDrafting { from, port, preview } => FocusView::ConnectorDrafting {
                from,
                port,
                preview,
            },
        }
    }
}

/// A diagram editor.
pub struct Editor {
    config: Config,
    scene: Scene,
    focus: Focus,
    pending_click: Option<Click>,
    pointer: Point,
}

impl View for Editor {
    type V = EditorView;

    closed spec fn view(&self) -> EditorView {
        EditorView {
            config: self.config,
            scene: self.scene@,
            focus: self.focus@,
            pending_click: self.pending_click,
            pointer: self.pointer,
        }
    }
}

impl Editor {
    /// An editor with an empty scene and no focus.
    pub fn new(config: Config) -> (editor: Editor)
        ensures
            editor@ == EditorView::initial(config),
            editor@.wf(),
    {
        Editor {
            config,
            scene: Scene::new(),
            focus: Focus::Idle,
            pending_click: None,
            pointer: Point { x: 0, y: 0 },
        }
    }

    /// The settings that the editor was built with.
    pub fn config(&self) -> (config: Config)
        ensures
            config == self@.config,
    {
        self.config
    }

    /// The scene.
    pub fn scene(&self) -> (scene: &Scene)
        ensures
            scene@ == self@.scene,
    {
        &self.scene
    }

    /// The focus.
    pub fn focus(&self) -> (focus: &Focus)
        ensures
            focus@ == self@.focus,
    {
        &self.focus
    }

    /// The last press that a second press may turn into a double-click.
    pub fn pending_click(&self) -> (pending: Option<Click>)
        ensures
            pending == self@.pending_click,
    {
        self.pending_click
    }

    /// The latest known pointer position.
    pub fn pointer(&self) -> (pointer: Point)
        ensures
            pointer == self@.pointer,
    {
        self.pointer
    }

    /// The position of the topmost shape whose outline contains `at`.
    pub fn body_at(&self, at: Point) -> (found: Option<usize>)
        requires
            self@.wf(),
        ensures
            match found {
                Some(i) => topmost_at(self@.scene.shapes, self@.config, at) == Some(i as int),
                None => topmost_at(self@.scene.shapes, self@.config, at).is_none(),
            },
    {
        let mut i: usize = self.scene.shape_count();
        proof {
            assert(self@.scene.shapes.take(i as int) =~= self@.scene.shapes);
        }
        while i > 0
            invariant
                self@.wf(),
                i <= self@.scene.shapes.len(),
                topmost_at(self@.scene.shapes, self@.config, at) == topmost_at(
                    self@.scene.shapes.take(i as int),
                    self@.config,
                    at,
                ),
            decreases i,
        {
            proof {
                let part = self@.scene.shapes.take(i as int);
                assert(part.last() == self@.scene.shapes[i - 1]);
                assert(part.drop_last() =~= self@.scene.shapes.take(i - 1));
            }
            i = i - 1;
            let shape = self.scene.shape_at(i);
            let rect = shape_rect(shape.center, &self.config);
            if rect_contains(&rect, at) {
                return Some(i);
            }
        }
        proof {
            assert(self@.scene.shapes.take(0).len() == 0);
        }
        None
    }

    /// The first shape, in the order of creation, with a port that a press
    /// at `at` grabs, and that port: the outgoing one before the incoming
    /// one.
    pub fn port_at(&self, at: Point) -> (found: Option<(usize, PortKind)>)
        requires
            self@.wf(),
        ensures
            match found {
                Some((i, port)) => first_port_at(self@.scene.shapes, self@.config, at, 0) == Some(
                    (i as int, port),
                ),
                None => first_port_at(self@.scene.shapes, self@.config, at, 0).is_none(),
            },
    {
        let radius: u32 = self.config.port_click_radius;
        let mut i: usize = 0;
        while i < self.scene.shape_count()
            invariant
                self@.wf(),
                radius == self@.config.port_click_radius,
                i <= self@.scene.shapes.len(),
                first_port_at(self@.scene.shapes, self@.config, at, 0) == first_port_at(
                    self@.scene.shapes,
                    self@.config,
                    at,
                    i as int,
                ),
            decreases self@.scene.shapes.len() - i,
        {
            let center = self.scene.shape_at(i).center;
            if within_radius(at, port_point(center, PortKind::Outgoing, &self.config), radius) {
                return Some((i, PortKind::Outgoing));
            }
            if within_radius(at, port_point(center, PortKind::Incoming, &self.config), radius) {
                return Some((i, PortKind::Incoming));
            }
            i = i + 1;
        }
        None
    }

    /// The first shape, in the order of creation and other than the shape
    /// `from`, with a port under a press at `at`.
    pub fn target_at(&self, at: Point, from: ShapeId) -> (found: Option<usize>)
        requires
            self@.wf(),
        ensures
            match found {
                Some(i) => first_target_at(self@.scene.shapes, self@.config, at, from, 0) == Some(
                    i as int,
                ),
                None => first_target_at(self@.scene.shapes, self@.config, at, from, 0).is_none(),
            },
    {
        let radius: u32 = self.config.port_click_radius;
        let mut i: usize = 0;
        while i < self.scene.shape_count()
            invariant
                self@.wf(),
                radius == self@.config.port_click_radius,
                i <= self@.scene.shapes.len(),
                first_target_at(self@.scene.shapes, self@.config, at, from, 0) == first_target_at(
                    self@.scene.shapes,
                    self@.config,
                    at,
                    from,
                    i as int,
                ),
            decreases self@.scene.shapes.len() - i,
        {
            let shape = self.scene.shape_at(i);
            if shape.id != from {
                let center = shape.center;
                if within_radius(at, port_point(center, PortKind::Incoming, &self.config), radius)
                    || within_radius(
                    at,
                    port_point(center, PortKind::Outgoing, &self.config),
                    radius,
                ) {
                    return Some(i);
                }
            }
            i = i + 1;
        }
        None
    }

    /// The curve of the connection at the position `k`.
    pub fn connector_curve_at(&self, k: usize) -> (curve: Curve)
        requires
            self@.wf(),
            k < self@.scene.connections.len(),
        ensures
            curve == connection_curve(self@.scene, self@.config, self@.scene.connections[k as int]),
    {
        let c = self.scene.connection_at(k);
        let from = self.scene.shape(c.from);
        let to = self.scene.shape(c.to);
        proof {
            let a = self@.scene.shape_index(c.from);
            let b = self@.scene.shape_index(c.to);
            assert(self@.scene.shapes[a].center.on_canvas());
            assert(self@.scene.shapes[b].center.on_canvas());
        }
        connector_curve(from.unwrap().center, to.unwrap().center, &self.config)
    }

    /// The first connection, in the order of creation, whose curve passes
    /// near enough to `at` to be selected by a press there.
    pub fn connection_at(&self, at: Point) -> (found: Option<usize>)
        requires
            self@.wf(),
        ensures
            match found {
                Some(i) => first_connection_at(self@.scene, self@.config, at, 0) == Some(i as int),
                None => first_connection_at(self@.scene, self@.config, at, 0).is_none(),
            },
    {
        let mut i: usize = 0;
        while i < self.scene.connection_count()
            invariant
                self@.wf(),
                i <= self@.scene.connections.len(),
                first_connection_at(self@.scene, self@.config, at, 0) == first_connection_at(
                    self@.scene,
                    self@.config,
                    at,
                    i as int,
                ),
            decreases self@.scene.connections.len() - i,
        {
            let curve = self.connector_curve_at(i);
            if curve_hit(
                &curve,
                at,
                self.config.connector_samples,
                self.config.connector_hit_radius,
            ) {
                return Some(i);
            }
            i = i + 1;
        }
        None
    }

    /// Takes the focus away and hands it out.
    fn take_focus(&mut self) -> (focus: Focus)
        ensures
            focus@ == old(self)@.focus,
            final(self)@ == (EditorView { focus: FocusView::Idle, ..old(self)@ }),
    {
        let mut focus = Focus::Idle;
        core::mem::swap(&mut self.focus, &mut focus);
        focus
    }

    /// Commits an edit in progress and drops the focus.
    fn commit_and_clear(&mut self)
        requires
            old(self)@.wf(),
        ensures
            final(self)@ == (EditorView {
                scene: old(self)@.committed(),
                focus: FocusView::Idle,
                ..old(self)@
            }),
            final(self)@.wf(),
    {
        let focus = self.take_focus();
        if let Focus::ShapeEditing { id, draft } = focus {
            self.scene.set_shape_text(id, draft);
        }
    }

    /// Adds a shape without label at `center`, commits an edit in
    /// progress, selects the new shape and starts the editing of its label.
    /// Returns the identifier of the new shape. Nothing happens, and `None`
    /// is returned, where `center` lies off the canvas or no identifier is
    /// left.
    pub fn add_shape(&mut self, center: Point) -> (id: Option<ShapeId>)
        requires
            old(self)@.wf(),
        ensures
            final(self)@ == old(self)@.add_shape(center),
            final(self)@.wf(),
            id == if old(self)@.scene.can_add_shape(center) {
                Some(old(self)@.scene.next_shape_id)
            } else {
                None
            },
    {
        if !center.is_on_canvas() || self.scene.next_shape_id() == u64::MAX {
            return None;
        }
        proof {
            old(self)@.lemma_committed();
            old(self)@.lemma_add_shape_wf(center);
        }
        self.commit_and_clear();
        let id = self.scene.add_shape(center);
        match id {
            Some(id) => {
                self.focus = Focus::ShapeEditing { id, draft: String::new() };
            },
            None => {},
        }
        id
    }

    /// Removes the shape `id` and every connection that touches it, and
    /// drops the focus if it named any of them. Returns whether there was
    /// such a shape.
    pub fn remove_shape(&mut self, id: ShapeId) -> (removed: bool)
        requires
            old(self)@.wf(),
        ensures
            final(self)@ == old(self)@.remove_shape(id),
            final(self)@.wf(),
            removed == old(self)@.scene.has_shape(id),
    {
        let removed = self.scene.remove_shape(id);
        self.settle_focus();
        proof {
            old(self)@.lemma_remove_shape_wf(id);
        }
        removed
    }

    /// Moves the shape `id` to `center`. Nothing happens where the scene
    /// has no such shape or `center` lies off the canvas.
    pub fn update_shape_center(&mut self, id: ShapeId, center: Point)
        requires
            old(self)@.wf(),
        ensures
            final(self)@ == old(self)@.update_shape_center(id, center),
            final(self)@.wf(),
    {
        proof {
            old(self)@.lemma_update_shape_center_wf(id, center);
        }
        self.scene.update_shape_center(id, center);
    }

    /// Labels the shape `id` with `text`; an empty text takes the label
    /// away. Nothing happens where the scene has no such shape.
    pub fn set_shape_text(&mut self, id: ShapeId, text: String)
        requires
            old(self)@.wf(),
        ensures
            final(self)@ == old(self)@.set_shape_text(id, text@),
            final(self)@.wf(),
    {
        proof {
            old(self)@.lemma_set_shape_text_wf(id, text@);
        }
        self.scene.set_shape_text(id, text);
    }

    /// Connects the shape `from` to the shape `to` and returns the
    /// identifier of the connection. Nothing happens, and `None` is
    /// returned, where the two are the same shape, where one of them is no
    /// shape of the scene, where such a connection exists already, or where
    /// no identifier is left.
    pub fn add_connection(&mut self, from: ShapeId, to: ShapeId) -> (id: Option<ConnectionId>)
        requires
            old(self)@.wf(),
        ensures
            final(self)@ == old(self)@.add_connection(from, to),
            final(self)@.wf(),
            id == if old(self)@.scene.can_add_connection(from, to) {
                Some(old(self)@.scene.next_connection_id)
            } else {
                None
            },
    {
        proof {
            old(self)@.lemma_add_connection_wf(from, to);
        }
        self.scene.add_connection(from, to)
    }

    /// Removes the connection `id`, and drops the focus if it named it.
    /// Returns whether there was such a connection.
    pub fn remove_connection(&mut self, id: ConnectionId) -> (removed: bool)
        requires
            old(self)@.wf(),
        ensures
            final(self)@ == old(self)@.remove_connection(id),
            final(self)@.wf(),
            removed == old(self)@.scene.has_connection(id),
    {
        let removed = self.scene.remove_connection(id);
        self.settle_focus();
        proof {
            old(self)@.lemma_remove_connection_wf(id);
        }
        removed
    }

    /// Drops the focus if it names what the scene lacks.
    fn settle_focus(&mut self)
        requires
            old(self)@.scene.wf(),
        ensures
            final(self)@ == (EditorView {
                focus: old(self)@.focus.settled_in(old(self)@.scene),
                ..old(self)@
            }),
    {
        let valid = match &self.focus {
            Focus::Idle => true,
            Focus::ShapeSelected { id } => self.scene.find_shape(*id).is_some(),
            Focus::ShapeEditing { id, .. } => self.scene.find_shape(*id).is_some(),
            Focus::ShapeDragging { id, .. } => self.scene.find_shape(*id).is_some(),
            Focus::ConnectionSelected { id } => self.scene.find_connection(*id).is_some(),
            Focus::ConnectorDrafting { from, .. } => self.scene.find_shape(*from).is_some(),
        };
        if !valid {
            self.focus = Focus::Idle;
        }
    }

    /// Handles a press of the left button on the body of the shape at the
    /// position `index`.
    fn press_shape(&mut self, index: usize, at: Point, now: u64)
        requires
            old(self)@.wf(),
            index < old(self)@.scene.shapes.len(),
            old(self)@.body_contains(index as int, at),
        ensures
            final(self)@ == old(self)@.press_shape(
                old(self)@.scene.shapes[index as int].id,
                at,
                now,
            ),
            final(self)@.wf(),
    {
        let id: ShapeId = self.scene.shape_at(index).id;
        proof {
            old(self)@.scene.lemma_shape_index(index as int);
            old(self)@.lemma_press_shape_wf(id, at, now);
        }
        let double = completes_double_click(
            self.pending_click,
            at,
            now,
            self.config.double_click_delay_ms,
            self.config.double_click_distance,
        );
        let focus = self.take_focus();
        if let Focus::ShapeEditing { id: edited, draft } = focus {
            if edited != id {
                proof {
                    old(self)@.scene.lemma_set_text_frame(edited, draft@);
                }
                self.scene.set_shape_text(edited, draft);
            }
        }
        proof {
            self@.scene.lemma_shape_index(index as int);
        }
        let shape = self.scene.shape_at(index);
        if double {
            let draft: String = match &shape.text {
                Some(text) => text.clone(),
                None => String::new(),
            };
            self.focus = Focus::ShapeEditing { id, draft };
            self.pending_click = None;
        } else {
            let center = shape.center;
            proof {
                lemma_grip(center, self.config, at);
            }
            self.focus = Focus::ShapeDragging {
                id,
                offset: Point { x: center.x - at.x, y: center.y - at.y },
            };
            self.pending_click = Some(Click { time_ms: now, at });
        }
    }

    /// Handles a press of the left button on the empty canvas.
    fn press_canvas(&mut self, at: Point, now: u64)
        requires
            old(self)@.wf(),
        ensures
            final(self)@ == old(self)@.press_canvas(at, now),
            final(self)@.wf(),
    {
        proof {
            old(self)@.lemma_press_canvas_wf(at, now);
        }
        let double = completes_double_click(
            self.pending_click,
            at,
            now,
            self.config.double_click_delay_ms,
            self.config.double_click_distance,
        );
        self.commit_and_clear();
        if double {
            self.add_shape(at);
            self.pending_click = None;
        } else {
            self.pending_click = Some(Click { time_ms: now, at });
        }
    }

    /// A button went down at (`x`, `y`) at the time `now_ms`, read in
    /// milliseconds from a clock that does not run backwards.
    ///
    /// Buttons other than the left one are ignored. A press of the left
    /// button is resolved by the first of these that applies: it ends the
    /// drawing of a connector; it presses the topmost shape under it; it
    /// grabs a port near it; it selects a connector near it; it lands on
    /// the empty canvas.
    pub fn pointer_down(&mut self, button: Button, x: i32, y: i32, now_ms: u64)
        requires
            old(self)@.wf(),
        ensures
            final(self)@ == old(self)@.pointer_down(button, pointer_at(x, y), now_ms),
            final(self)@.wf(),
    {
        if button != Button::Left {
            return ;
        }
        let at = Point { x: x as i64, y: y as i64 };
        proof {
            old(self)@.lemma_press_at(at);
            old(self)@.lemma_pointer_down_wf(button, at, now_ms);
        }
        let drafting: Option<ShapeId> = match &self.focus {
            Focus::ConnectorDrafting { from, .. } => Some(*from),
            _ => None,
        };
        if let Some(from) = drafting {
            let target = self.target_at(at, from);
            if let Some(index) = target {
                let to: ShapeId = self.scene.shape_at(index).id;
                self.scene.add_connection(from, to);
            }
            self.focus = Focus::Idle;
            return ;
        }
        let body = self.body_at(at);
        if let Some(index) = body {
            self.press_shape(index, at, now_ms);
            return ;
        }
        let port = self.port_at(at);
        if let Some((index, port)) = port {
            let id: ShapeId = self.scene.shape_at(index).id;
            self.focus = Focus::ConnectorDrafting { from: id, port, preview: at };
            self.pending_click = None;
            return ;
        }
        let connection = self.connection_at(at);
        if let Some(index) = connection {
            let id: ConnectionId = self.scene.connection_at(index).id;
            self.commit_and_clear();
            self.focus = Focus::ConnectionSelected { id };
            self.pending_click = Some(Click { time_ms: now_ms, at });
            return ;
        }
        self.press_canvas(at, now_ms);
    }

    /// A button went up. The release of the left button ends a drag and
    /// leaves the dragged shape selected; where the button went up plays no
    /// part.
    pub fn pointer_up(&mut self, button: Button, _x: i32, _y: i32)
        requires
            old(self)@.wf(),
        ensures
            final(self)@ == old(self)@.pointer_up(button),
            final(self)@.wf(),
    {
        if button == Button::Left {
            let dragged: Option<ShapeId> = match &self.focus {
                Focus::ShapeDragging { id, .. } => Some(*id),
                _ => None,
            };
            if let Some(id) = dragged {
                self.focus = Focus::ShapeSelected { id };
            }
        }
    }

    /// The pointer moved to (`x`, `y`). A dragged shape follows it: its
    /// center goes to the pointer position plus the offset of the drag.
    pub fn pointer_move(&mut self, x: i32, y: i32)
        requires
            old(self)@.wf(),
        ensures
            final(self)@ == old(self)@.pointer_move(pointer_at(x, y)),
            final(self)@.wf(),
    {
        let at = Point { x: x as i64, y: y as i64 };
        proof {
            old(self)@.lemma_pointer_move_wf(at);
        }
        self.pointer = at;
        let dragged: Option<(ShapeId, Point)> = match &self.focus {
            Focus::ShapeDragging { id, offset } => Some((*id, *offset)),
            _ => None,
        };
        if let Some((id, offset)) = dragged {
            let center = Point { x: at.x + offset.x, y: at.y + offset.y };
            self.scene.update_shape_center(id, center);
        }
    }

    /// A key went down; `repeat` tells a key held down from a key pressed.
    ///
    /// While a connector is drawn, Escape cancels it. While a label is
    /// edited, Enter commits the draft, Escape discards it, and Backspace
    /// erases its last character, held down or not. While a shape or a
    /// connection is selected, the delete key removes it. Enter, Escape
    /// and the delete key act once for each press.
    pub fn key_down(&mut self, key: Key, repeat: bool)
        requires
            old(self)@.wf(),
        ensures
            final(self)@ == old(self)@.key_down(key, repeat),
            final(self)@.wf(),
    {
        proof {
            old(self)@.lemma_key_down_wf(key, repeat);
        }
        let deletes: bool = key == Key::Delete || (key == Key::Backspace
            && self.config.backspace_deletes);
        let focus = self.take_focus();
        match focus {
            Focus::Idle => {},
            Focus::ConnectorDrafting { from, port, preview } => {
                if !(key == Key::Escape && !repeat) {
                    self.focus = Focus::ConnectorDrafting { from, port, preview };
                }
            },
            Focus::ShapeEditing { id, draft } => {
                if key == Key::Enter && !repeat {
                    self.scene.set_shape_text(id, draft);
                    self.focus = Focus::ShapeSelected { id };
                } else if key == Key::Escape && !repeat {
                    self.focus = Focus::ShapeSelected { id };
                } else if key == Key::Backspace {
                    let mut draft = draft;
                    draft.pop();
                    self.focus = Focus::ShapeEditing { id, draft };
                } else {
                    self.focus = Focus::ShapeEditing { id, draft };
                }
            },
            Focus::ShapeSelected { id } => {
                self.focus = Focus::ShapeSelected { id };
                if deletes && !repeat {
                    self.remove_shape(id);
                    self.pending_click = None;
                }
            },
            Focus::ShapeDragging { id, offset } => {
                self.focus = Focus::ShapeDragging { id, offset };
                if deletes && !repeat {
                    self.remove_shape(id);
                    self.pending_click = None;
                }
            },
            Focus::ConnectionSelected { id } => {
                self.focus = Focus::ConnectionSelected { id };
                if deletes && !repeat {
                    self.remove_connection(id);
                }
            },
        }
    }

    /// A character was typed. It joins the draft of an edit in progress,
    /// unless it is a control character.
    pub fn text_input(&mut self, c: char)
        requires
            old(self)@.wf(),
        ensures
            final(self)@ == old(self)@.text_input(c),
            final(self)@.wf(),
    {
        if is_control_char(c) {
            return ;
        }
        let focus = self.take_focus();
        match focus {
            Focus::ShapeEditing { id, draft } => {
                let mut draft = draft;
                draft.push(c);
                self.focus = Focus::ShapeEditing { id, draft };
            },
            other => {
                self.focus = other;
            },
        }
    }

    /// A frame begins. The loose end of a connector being drawn moves to
    /// the latest known pointer position; nothing else changes.
    pub fn tick(&mut self)
        requires
            old(self)@.wf(),
        ensures
            final(self)@ == old(self)@.tick(),
            final(self)@.wf(),
    {
        let drafting: Option<(ShapeId, PortKind)> = match &self.focus {
            Focus::ConnectorDrafting { from, port, .. } => Some((*from, *port)),
            _ => None,
        };
        if let Some((from, port)) = drafting {
            self.focus = Focus::ConnectorDrafting { from, port, preview: self.pointer };
        }
    }
}

} // verus!
