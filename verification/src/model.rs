//! The editor as a state machine over mathematical values: what each event
//! makes of each state.
//!
//! The focus of an editor is exactly one of six things, so a shape is never
//! dragged and edited at once and never selected together with a
//! connection. A press of the left button is resolved in a fixed order of
//! priority: a connector being drawn is completed or cancelled; else the
//! topmost shape under the pointer is pressed; else a port near the pointer
//! is grabbed; else a connector near the pointer is selected; else the
//! press lands on the empty canvas.

use crate::config::Config;
use crate::connector::{curve_near, curve_of, port_of, rect_of, Curve, PortKind};
use crate::events::{is_double_click, Button, Click, Key};
use crate::geometry::{within, Point};
use crate::scene::{Connection, ConnectionId, SceneView, ShapeId, ShapeView};
use crate::text::{erase_last, is_control, text_of};
use vstd::prelude::*;

verus! {

/// What the editor attends to.
#[verifier::ext_equal]
#[allow(inconsistent_fields)]
pub enum FocusView {
    /// Nothing.
    Idle,
    /// A shape is selected.
    ShapeSelected { id: ShapeId },
    /// A shape is selected and its label is being edited; `draft` is the
    /// text typed so far.
    ShapeEditing { id: ShapeId, draft: Seq<char> },
    /// A shape is selected and follows the pointer, its center staying
    /// `offset` away from it.
    ShapeDragging { id: ShapeId, offset: Point },
    /// A connection is selected.
    ConnectionSelected { id: ConnectionId },
    /// A connector is being drawn from a port of the shape `from`;
    /// `preview` is where its loose end is shown.
    ConnectorDrafting { from: ShapeId, port: PortKind, preview: Point },
}

/// An editor as a specification sees it.
#[verifier::ext_equal]
pub struct EditorView {
    pub config: Config,
    pub scene: SceneView,
    pub focus: FocusView,
    /// The last press that a second press may turn into a double-click.
    pub pending_click: Option<Click>,
    /// The latest known pointer position.
    pub pointer: Point,
}

/// What a press of the left button lands on.
pub enum Press {
    /// A connector is being drawn: the press ends the drawing, on the
    /// shape at the given position if there is one.
    Draft { from: ShapeId, target: Option<int> },
    /// The body of the shape at the given position.
    Body { index: int },
    /// A port of the shape at the given position.
    Port { index: int, port: PortKind },
    /// The connection at the given position.
    Connector { index: int },
    /// Nothing.
    Canvas,
}

/// The greatest position of a shape whose outline contains `at`: the shape
/// created last is on top.
pub open spec fn topmost_at(shapes: Seq<ShapeView>, config: Config, at: Point) -> Option<int>
    decreases shapes.len(),
{
    if shapes.len() == 0 {
        None
    } else if rect_of(shapes.last().center, config).contains(at) {
        Some(shapes.len() - 1)
    } else {
        topmost_at(shapes.drop_last(), config, at)
    }
}

/// The port of a shape centered at `center` that a press at `at` grabs:
/// the outgoing port if it is near enough, else the incoming one if that
/// is.
pub open spec fn port_near(center: Point, config: Config, at: Point) -> Option<PortKind> {
    if within(at, port_of(center, PortKind::Outgoing, config), config.port_click_radius) {
        Some(PortKind::Outgoing)
    } else if within(at, port_of(center, PortKind::Incoming, config), config.port_click_radius) {
        Some(PortKind::Incoming)
    } else {
        None
    }
}

/// The first shape from position `start` on with a port that a press at
/// `at` grabs, and that port.
pub open spec fn first_port_at(shapes: Seq<ShapeView>, config: Config, at: Point, start: int) -> Option<
    (int, PortKind),
>
    decreases shapes.len() - start,
{
    if start < 0 || start >= shapes.len() {
        None
    } else {
        match port_near(shapes[start].center, config, at) {
            Some(port) => Some((start, port)),
            None => first_port_at(shapes, config, at, start + 1),
        }
    }
}

/// A press at `at` lands on one of the two ports of a shape centered at
/// `center`.
pub open spec fn on_port(center: Point, config: Config, at: Point) -> bool {
    ||| within(at, port_of(center, PortKind::Incoming, config), config.port_click_radius)
    ||| within(at, port_of(center, PortKind::Outgoing, config), config.port_click_radius)
}

/// The first shape from position `start` on, other than the shape `from`,
/// with a port that a press at `at` lands on.
pub open spec fn first_target_at(
    shapes: Seq<ShapeView>,
    config: Config,
    at: Point,
    from: ShapeId,
    start: int,
) -> Option<int>
    decreases shapes.len() - start,
{
    if start < 0 || start >= shapes.len() {
        None
    } else if shapes[start].id != from && on_port(shapes[start].center, config, at) {
        Some(start)
    } else {
        first_target_at(shapes, config, at, from, start + 1)
    }
}

/// The curve drawn for the connection `c` of `scene`.
pub open spec fn connection_curve(scene: SceneView, config: Config, c: Connection) -> Curve {
    curve_of(scene.shape(c.from).center, scene.shape(c.to).center, config)
}

/// A press at `at` lands on the connection `c` of `scene`.
pub open spec fn on_connection(scene: SceneView, config: Config, c: Connection, at: Point) -> bool {
    curve_near(
        connection_curve(scene, config, c),
        at,
        config.connector_samples,
        config.connector_hit_radius,
    )
}

/// The first connection from position `start` on that a press at `at`
/// lands on.
pub open spec fn first_connection_at(scene: SceneView, config: Config, at: Point, start: int) -> Option<
    int,
>
    decreases scene.connections.len() - start,
{
    if start < 0 || start >= scene.connections.len() {
        None
    } else if on_connection(scene, config, scene.connections[start], at) {
        Some(start)
    } else {
        first_connection_at(scene, config, at, start + 1)
    }
}

/// The displacement from `from` to `to`.
pub open spec fn offset_between(from: Point, to: Point) -> Point {
    Point { x: (to.x - from.x) as i64, y: (to.y - from.y) as i64 }
}

/// The point `offset` away from `at`.
pub open spec fn moved_by(at: Point, offset: Point) -> Point {
    Point { x: (at.x + offset.x) as i64, y: (at.y + offset.y) as i64 }
}

/// Both coordinates of the point fit the 32 bits in which pointer events
/// report positions.
pub open spec fn in_pointer_range(at: Point) -> bool {
    &&& i32::MIN <= at.x <= i32::MAX
    &&& i32::MIN <= at.y <= i32::MAX
}

/// The displacement is no longer than the greatest extent of a shape on
/// either axis.
pub open spec fn is_grip(offset: Point) -> bool {
    &&& -(u32::MAX as int) <= offset.x <= u32::MAX
    &&& -(u32::MAX as int) <= offset.y <= u32::MAX
}

impl FocusView {
    /// What the focus names is part of `scene`.
    pub open spec fn found_in(self, scene: SceneView) -> bool {
        match self {
            FocusView::Idle => true,
            FocusView::ShapeSelected { id } => scene.has_shape(id),
            FocusView::ShapeEditing { id, .. } => scene.has_shape(id),
            FocusView::ShapeDragging { id, .. } => scene.has_shape(id),
            FocusView::ConnectionSelected { id } => scene.has_connection(id),
            FocusView::ConnectorDrafting { from, .. } => scene.has_shape(from),
        }
    }

    /// The focus names nothing that `scene` lacks, and the offset of a drag
    /// is no longer than a shape extends.
    pub open spec fn valid_in(self, scene: SceneView) -> bool {
        &&& self.found_in(scene)
        &&& self matches FocusView::ShapeDragging { offset, .. } ==> is_grip(offset)
    }

    /// The focus, or no focus where the focus names what `scene` lacks.
    pub open spec fn settled_in(self, scene: SceneView) -> FocusView {
        if self.found_in(scene) {
            self
        } else {
            FocusView::Idle
        }
    }

    /// The selected shape, if a shape is selected.
    pub open spec fn selected_shape(self) -> Option<ShapeId> {
        match self {
            FocusView::ShapeSelected { id } => Some(id),
            FocusView::ShapeEditing { id, .. } => Some(id),
            FocusView::ShapeDragging { id, .. } => Some(id),
            _ => None,
        }
    }
}

impl EditorView {
    /// The editor before any event: an empty scene and no focus.
    pub open spec fn initial(config: Config) -> EditorView {
        EditorView {
            config,
            scene: SceneView::empty(),
            focus: FocusView::Idle,
            pending_click: None,
            pointer: Point { x: 0, y: 0 },
        }
    }

    /// The consistency that every event keeps: the scene is consistent and
    /// the focus names nothing that the scene lacks.
    pub open spec fn wf(self) -> bool {
        &&& self.scene.wf()
        &&& self.focus.valid_in(self.scene)
    }

    /// The scene once an edit in progress is committed: the draft becomes
    /// the label of the edited shape.
    pub open spec fn committed(self) -> SceneView {
        match self.focus {
            FocusView::ShapeEditing { id, draft } => self.scene.set_text(id, draft),
            _ => self.scene,
        }
    }

    /// The outline of the shape at the position `index` contains `at`.
    pub open spec fn body_contains(self, index: int, at: Point) -> bool {
        rect_of(self.scene.shapes[index].center, self.config).contains(at)
    }

    /// A press at `at` at the time `now` completes a double-click.
    pub open spec fn doubles(self, at: Point, now: u64) -> bool {
        is_double_click(
            self.pending_click,
            at,
            now,
            self.config.double_click_delay_ms,
            self.config.double_click_distance,
        )
    }

    /// What a press of the left button at `at` lands on.
    pub open spec fn press_at(self, at: Point) -> Press {
        if let FocusView::ConnectorDrafting { from, .. } = self.focus {
            Press::Draft {
                from,
                target: first_target_at(self.scene.shapes, self.config, at, from, 0),
            }
        } else if let Some(index) = topmost_at(self.scene.shapes, self.config, at) {
            Press::Body { index }
        } else if let Some((index, port)) = first_port_at(self.scene.shapes, self.config, at, 0) {
            Press::Port { index, port }
        } else if let Some(index) = first_connection_at(self.scene, self.config, at, 0) {
            Press::Connector { index }
        } else {
            Press::Canvas
        }
    }

    // The scene store, as the editor offers it.

    /// A shape is added at `center`; an edit in progress is committed, and
    /// the new shape is selected with its label being edited. Nothing
    /// happens where the scene takes no shape at `center`.
    pub open spec fn add_shape(self, center: Point) -> EditorView {
        if self.scene.can_add_shape(center) {
            EditorView {
                scene: self.committed().add_shape(center),
                focus: FocusView::ShapeEditing { id: self.scene.next_shape_id, draft: Seq::empty() },
                ..self
            }
        } else {
            self
        }
    }

    /// The shape `id` is removed with the connections that touch it, and
    /// the focus is dropped if it named any of them.
    pub open spec fn remove_shape(self, id: ShapeId) -> EditorView {
        let scene = self.scene.remove_shape(id);
        EditorView { scene, focus: self.focus.settled_in(scene), ..self }
    }

    /// The shape `id` is moved to `center`.
    pub open spec fn update_shape_center(self, id: ShapeId, center: Point) -> EditorView {
        EditorView { scene: self.scene.set_center(id, center), ..self }
    }

    /// The shape `id` is labelled `text`.
    pub open spec fn set_shape_text(self, id: ShapeId, text: Seq<char>) -> EditorView {
        EditorView { scene: self.scene.set_text(id, text), ..self }
    }

    /// The shape `from` is connected to the shape `to`, unless the scene
    /// refuses the connection.
    pub open spec fn add_connection(self, from: ShapeId, to: ShapeId) -> EditorView {
        EditorView { scene: self.scene.add_connection(from, to), ..self }
    }

    /// The connection `id` is removed, and the focus dropped if it named
    /// it.
    pub open spec fn remove_connection(self, id: ConnectionId) -> EditorView {
        let scene = self.scene.remove_connection(id);
        EditorView { scene, focus: self.focus.settled_in(scene), ..self }
    }

    // The five ways in which a press of the left button is resolved.

    /// The connector drawn from the shape `from` is completed on the shape
    /// at the position `target`, or cancelled where there is none. Either
    /// way the drawing ends.
    pub open spec fn complete_draft(self, from: ShapeId, target: Option<int>) -> EditorView {
        EditorView {
            scene: match target {
                Some(index) => self.scene.add_connection(from, self.scene.shapes[index].id),
                None => self.scene,
            },
            focus: FocusView::Idle,
            ..self
        }
    }

    /// The body of the shape `id` is pressed at `at`. An edit of another
    /// shape is committed; an edit of this shape ends with its draft
    /// dropped. The press selects the shape: as the second press of a
    /// double-click it starts the editing of its label, seeded with the
    /// label, else it starts a drag whose offset leads from the press to the
    /// center of the shape.
    pub open spec fn press_shape(self, id: ShapeId, at: Point, now: u64) -> EditorView {
        let scene = match self.focus {
            FocusView::ShapeEditing { id: edited, draft } if edited != id => self.scene.set_text(
                edited,
                draft,
            ),
            _ => self.scene,
        };
        if self.doubles(at, now) {
            EditorView {
                scene,
                focus: FocusView::ShapeEditing { id, draft: text_of(scene.shape(id).text) },
                pending_click: None,
                ..self
            }
        } else {
            EditorView {
                scene,
                focus: FocusView::ShapeDragging {
                    id,
                    offset: offset_between(at, scene.shape(id).center),
                },
                pending_click: Some(Click { time_ms: now, at }),
                ..self
            }
        }
    }

    /// The port `port` of the shape `id` is grabbed at `at`: the drawing of
    /// a connector starts and whatever was selected is selected no more.
    /// The scene stays as it is: an edit in progress ends with its draft
    /// dropped, and no label changes.
    pub open spec fn grab_port(self, id: ShapeId, port: PortKind, at: Point) -> EditorView {
        EditorView {
            focus: FocusView::ConnectorDrafting { from: id, port, preview: at },
            pending_click: None,
            ..self
        }
    }

    /// The connection `id` is pressed at `at`: an edit in progress is
    /// committed and the connection selected.
    pub open spec fn press_connection(self, id: ConnectionId, at: Point, now: u64) -> EditorView {
        EditorView {
            scene: self.committed(),
            focus: FocusView::ConnectionSelected { id },
            pending_click: Some(Click { time_ms: now, at }),
            ..self
        }
    }

    /// The empty canvas is pressed at `at`: an edit in progress is
    /// committed and the focus dropped. As the second press of a
    /// double-click the press creates a shape there and starts the editing
    /// of its label.
    pub open spec fn press_canvas(self, at: Point, now: u64) -> EditorView {
        let cleared = EditorView { scene: self.committed(), focus: FocusView::Idle, ..self };
        if self.doubles(at, now) {
            EditorView { pending_click: None, ..cleared.add_shape(at) }
        } else {
            EditorView { pending_click: Some(Click { time_ms: now, at }), ..cleared }
        }
    }

    // The events.

    /// A button goes down at `at` at the time `now`.
    pub open spec fn pointer_down(self, button: Button, at: Point, now: u64) -> EditorView {
        if button != Button::Left {
            self
        } else {
            match self.press_at(at) {
                Press::Draft { from, target } => self.complete_draft(from, target),
                Press::Body { index } => self.press_shape(self.scene.shapes[index].id, at, now),
                Press::Port { index, port } => self.grab_port(
                    self.scene.shapes[index].id,
                    port,
                    at,
                ),
                Press::Connector { index } => self.press_connection(
                    self.scene.connections[index].id,
                    at,
                    now,
                ),
                Press::Canvas => self.press_canvas(at, now),
            }
        }
    }

    /// A button goes up: a drag ends and leaves its shape selected.
    pub open spec fn pointer_up(self, button: Button) -> EditorView {
        match self.focus {
            FocusView::ShapeDragging { id, .. } if button == Button::Left => EditorView {
                focus: FocusView::ShapeSelected { id },
                ..self
            },
            _ => self,
        }
    }

    /// The pointer moves to `at`: a dragged shape follows it.
    pub open spec fn pointer_move(self, at: Point) -> EditorView {
        EditorView {
            pointer: at,
            scene: match self.focus {
                FocusView::ShapeDragging { id, offset } => self.scene.set_center(
                    id,
                    moved_by(at, offset),
                ),
                _ => self.scene,
            },
            ..self
        }
    }

    /// The key deletes the selection.
    pub open spec fn deletes(self, key: Key) -> bool {
        key == Key::Delete || (key == Key::Backspace && self.config.backspace_deletes)
    }

    /// A key goes down; `repeat` tells a key held down from a key pressed.
    /// A shape that is being dragged counts as selected. Removing a shape
    /// by key also forgets the recorded press.
    pub open spec fn key_down(self, key: Key, repeat: bool) -> EditorView {
        match self.focus {
            FocusView::Idle => self,
            FocusView::ConnectorDrafting { .. } => if key == Key::Escape && !repeat {
                EditorView { focus: FocusView::Idle, ..self }
            } else {
                self
            },
            FocusView::ShapeEditing { id, draft } => match key {
                Key::Enter if !repeat => EditorView {
                    scene: self.scene.set_text(id, draft),
                    focus: FocusView::ShapeSelected { id },
                    ..self
                },
                Key::Escape if !repeat => EditorView {
                    focus: FocusView::ShapeSelected { id },
                    ..self
                },
                Key::Backspace => EditorView {
                    focus: FocusView::ShapeEditing { id, draft: erase_last(draft) },
                    ..self
                },
                _ => self,
            },
            FocusView::ShapeSelected { id } | FocusView::ShapeDragging { id, .. } => if self.deletes(
                key,
            ) && !repeat {
                EditorView { pending_click: None, ..self.remove_shape(id) }
            } else {
                self
            },
            FocusView::ConnectionSelected { id } => if self.deletes(key) && !repeat {
                self.remove_connection(id)
            } else {
                self
            },
        }
    }

    /// A character is typed: it joins the draft of an edit in progress,
    /// unless it is a control character.
    pub open spec fn text_input(self, c: char) -> EditorView {
        match self.focus {
            FocusView::ShapeEditing { id, draft } if !is_control(c) => EditorView {
                focus: FocusView::ShapeEditing { id, draft: draft.push(c) },
                ..self
            },
            _ => self,
        }
    }

    /// A frame begins: the loose end of a connector being drawn moves to
    /// the pointer.
    pub open spec fn tick(self) -> EditorView {
        match self.focus {
            FocusView::ConnectorDrafting { from, port, .. } => EditorView {
                focus: FocusView::ConnectorDrafting { from, port, preview: self.pointer },
                ..self
            },
            _ => self,
        }
    }
}

} // verus!
