//! What a renderer reads once per frame: every shape with its outline,
//! ports and display text, every connector with its curve, and the preview
//! of a connector being drawn.
//!
//! A frame is a snapshot. Taking one changes nothing in the editor.

use crate::connector::{port_of, port_point, rect_of, shape_rect, Curve, PortKind};
use crate::editor::{Editor, Focus};
use crate::geometry::{within, within_radius, Point, Rect};
use crate::model::{connection_curve, EditorView, FocusView};
use crate::scene::{Connection, ConnectionId, Shape, ShapeId};
use crate::text::text_of;
use vstd::prelude::*;

verus! {

/// The character shown behind the draft of a label that is being edited.
pub const CURSOR: char = '|';

/// How a port is to be marked.
#[derive(Clone, Copy, Debug, PartialEq, Eq, Structural)]
pub enum PortMark {
    /// Not at all.
    Plain,
    /// As an end of the selected connection.
    OnSelection,
    /// As the start of the connector being drawn.
    DraftStart,
}

/// A port as it is to be drawn.
#[derive(Clone, Copy, Debug, PartialEq, Eq, Structural)]
pub struct PortFrame {
    pub at: Point,
    /// The pointer is near: the port is drawn larger.
    pub hovered: bool,
    pub mark: PortMark,
}

/// A shape as it is to be drawn.
#[derive(Clone, Debug, PartialEq, Eq)]
pub struct ShapeFrame {
    pub id: ShapeId,
    pub center: Point,
    pub outline: Rect,
    /// The text to show: the draft followed by the cursor while the label
    /// is edited, else the label, else nothing.
    pub text: String,
    pub selected: bool,
    pub editing: bool,
    pub dragging: bool,
    pub outgoing: PortFrame,
    pub incoming: PortFrame,
}

/// What a `ShapeFrame` is to a specification.
#[verifier::ext_equal]
pub struct ShapeFrameView {
    pub id: ShapeId,
    pub center: Point,
    pub outline: Rect,
    pub text: Seq<char>,
    pub selected: bool,
    pub editing: bool,
    pub dragging: bool,
    pub outgoing: PortFrame,
    pub incoming: PortFrame,
}

impl View for ShapeFrame {
    type V = ShapeFrameView;

    open spec fn view(&self) -> ShapeFrameView {
        ShapeFrameView {
            id: self.id,
            center: self.center,
            outline: self.outline,
            text: self.text@,
            selected: self.selected,
            editing: self.editing,
            dragging: self.dragging,
            outgoing: self.outgoing,
            incoming: self.incoming,
        }
    }
}

/// A connector as it is to be drawn.
#[derive(Clone, Copy, Debug, PartialEq, Eq, Structural)]
pub struct ConnectorFrame {
    pub id: ConnectionId,
    pub curve: Curve,
    pub selected: bool,
}

/// The straight line that stands for a connector being drawn.
#[derive(Clone, Copy, Debug, PartialEq, Eq, Structural)]
pub struct Preview {
    /// The port that the connector starts from.
    pub start: Point,
    /// The loose end.
    pub end: Point,
}

/// Everything that one frame shows, shapes and connectors in the order of
/// their creation.
#[derive(Clone, Debug, PartialEq, Eq)]
pub struct Frame {
    pub shapes: Vec<ShapeFrame>,
    pub connectors: Vec<ConnectorFrame>,
    pub preview: Option<Preview>,
}

/// What a `Frame` is to a specification.
#[verifier::ext_equal]
pub struct FrameView {
    pub shapes: Seq<ShapeFrameView>,
    pub connectors: Seq<ConnectorFrame>,
    pub preview: Option<Preview>,
}

impl View for Frame {
    type V = FrameView;

    open spec fn view(&self) -> FrameView {
        FrameView {
            shapes: self.shapes@.map_values(|s: ShapeFrame| s@),
            connectors: self.connectors@,
            preview: self.preview,
        }
    }
}

impl EditorView {
    /// The connection that is selected, if one is.
    pub open spec fn selected_connection(self) -> Option<Connection> {
        match self.focus {
            FocusView::ConnectionSelected { id } => Some(
                self.scene.connections[self.scene.connection_index(id)],
            ),
            _ => None,
        }
    }

    /// How the port `kind` of the shape `id` is marked: as the start of
    /// the connector being drawn, as the end of the selected connection on
    /// its side (a connection leaves by an outgoing port and arrives at an
    /// incoming one), or not at all.
    pub open spec fn port_mark(self, id: ShapeId, kind: PortKind) -> PortMark {
        match self.focus {
            FocusView::ConnectorDrafting { from, port, .. } => if from == id && port == kind {
                PortMark::DraftStart
            } else {
                PortMark::Plain
            },
            FocusView::ConnectionSelected { .. } => {
                let c = self.selected_connection().unwrap();
                if (kind == PortKind::Outgoing && c.from == id) || (kind == PortKind::Incoming
                    && c.to == id) {
                    PortMark::OnSelection
                } else {
                    PortMark::Plain
                }
            },
            _ => PortMark::Plain,
        }
    }

    /// The port `kind` of the shape at the position `i` as it is to be
    /// drawn.
    pub open spec fn port_frame(self, i: int, kind: PortKind) -> PortFrame {
        let at = port_of(self.scene.shapes[i].center, kind, self.config);
        PortFrame {
            at,
            hovered: within(self.pointer, at, self.config.port_hover_distance),
            mark: self.port_mark(self.scene.shapes[i].id, kind),
        }
    }

    /// The text shown in the shape at the position `i`.
    pub open spec fn display_text(self, i: int) -> Seq<char> {
        match self.focus {
            FocusView::ShapeEditing { id, draft } if id == self.scene.shapes[i].id => draft.push(
                CURSOR,
            ),
            _ => text_of(self.scene.shapes[i].text),
        }
    }

    /// The shape at the position `i` as it is to be drawn.
    pub open spec fn shape_frame(self, i: int) -> ShapeFrameView {
        let shape = self.scene.shapes[i];
        ShapeFrameView {
            id: shape.id,
            center: shape.center,
            outline: rect_of(shape.center, self.config),
            text: self.display_text(i),
            selected: self.focus.selected_shape() == Some(shape.id),
            editing: self.focus matches FocusView::ShapeEditing { id, .. } && id == shape.id,
            dragging: self.focus matches FocusView::ShapeDragging { id, .. } && id == shape.id,
            outgoing: self.port_frame(i, PortKind::Outgoing),
            incoming: self.port_frame(i, PortKind::Incoming),
        }
    }

    /// The connection at the position `k` as it is to be drawn.
    pub open spec fn connector_frame(self, k: int) -> ConnectorFrame {
        let c = self.scene.connections[k];
        ConnectorFrame {
            id: c.id,
            curve: connection_curve(self.scene, self.config, c),
            selected: self.focus == (FocusView::ConnectionSelected { id: c.id }),
        }
    }

    /// The preview of the connector being drawn, if one is.
    pub open spec fn preview(self) -> Option<Preview> {
        match self.focus {
            FocusView::ConnectorDrafting { from, port, preview } => Some(
                Preview {
                    start: port_of(self.scene.shape(from).center, port, self.config),
                    end: preview,
                },
            ),
            _ => None,
        }
    }

    /// Everything that the frame shows.
    pub open spec fn frame(self) -> FrameView {
        FrameView {
            shapes: Seq::new(self.scene.shapes.len(), |i: int| self.shape_frame(i)),
            connectors: Seq::new(self.scene.connections.len(), |k: int| self.connector_frame(k)),
            preview: self.preview(),
        }
    }
}

impl Editor {
    /// The position of the port `kind` of the shape `id`, or `None` where
    /// the scene has no such shape.
    pub fn port_position(&self, id: ShapeId, kind: PortKind) -> (at: Option<Point>)
        requires
            self@.wf(),
        ensures
            at == if self@.scene.has_shape(id) {
                Some(port_of(self@.scene.shape(id).center, kind, self@.config))
            } else {
                None
            },
    {
        let config = self.config();
        match self.scene().shape(id) {
            Some(shape) => {
                proof {
                    let i = self@.scene.shape_index(id);
                    assert(self@.scene.shapes[i].center.on_canvas());
                }
                Some(port_point(shape.center, kind, &config))
            },
            None => None,
        }
    }

    /// The selected connection, if a connection is selected.
    pub fn selected_connection(&self) -> (found: Option<Connection>)
        requires
            self@.wf(),
        ensures
            found == self@.selected_connection(),
    {
        match self.focus() {
            Focus::ConnectionSelected { id } => {
                let at = self.scene().find_connection(*id);
                match at {
                    Some(k) => Some(self.scene().connection_at(k)),
                    None => None,
                }
            },
            _ => None,
        }
    }

    /// The port `kind` of the shape at the position `i` as it is to be
    /// drawn; `selected` is the selected connection.
    fn port_frame(&self, i: usize, kind: PortKind, selected: Option<Connection>) -> (port: PortFrame)
        requires
            self@.wf(),
            i < self@.scene.shapes.len(),
            selected == self@.selected_connection(),
        ensures
            port == self@.port_frame(i as int, kind),
    {
        let config = self.config();
        let shape = self.scene().shape_at(i);
        let at = port_point(shape.center, kind, &config);
        let id: ShapeId = shape.id;
        let mark = match self.focus() {
            Focus::ConnectorDrafting { from, port, .. } => {
                if *from == id && *port == kind {
                    PortMark::DraftStart
                } else {
                    PortMark::Plain
                }
            },
            Focus::ConnectionSelected { .. } => {
                match selected {
                    Some(c) => {
                        if (kind == PortKind::Outgoing && c.from == id) || (kind
                            == PortKind::Incoming && c.to == id) {
                            PortMark::OnSelection
                        } else {
                            PortMark::Plain
                        }
                    },
                    None => PortMark::Plain,
                }
            },
            _ => PortMark::Plain,
        };
        PortFrame { at, hovered: within_radius(self.pointer(), at, config.port_hover_distance), mark }
    }

    /// The text to show in the shape at the position `i`: the draft
    /// followed by the cursor while the label of the shape is edited, else
    /// the label, else nothing.
    pub fn display_text(&self, i: usize) -> (text: String)
        requires
            self@.wf(),
            i < self@.scene.shapes.len(),
        ensures
            text@ == self@.display_text(i as int),
    {
        let shape = self.scene().shape_at(i);
        match self.focus() {
            Focus::ShapeEditing { id, draft } if *id == shape.id => {
                let mut text = draft.clone();
                text.push(CURSOR);
                text
            },
            _ => label_text(shape),
        }
    }

    /// The shape at the position `i` as it is to be drawn; `selected` is
    /// the selected connection.
    fn shape_frame(&self, i: usize, selected: Option<Connection>) -> (shape: ShapeFrame)
        requires
            self@.wf(),
            i < self@.scene.shapes.len(),
            selected == self@.selected_connection(),
        ensures
            shape@ == self@.shape_frame(i as int),
    {
        let config = self.config();
        let shape = self.scene().shape_at(i);
        let id: ShapeId = shape.id;
        let (is_selected, editing, dragging) = match self.focus() {
            Focus::ShapeSelected { id: s } => (*s == id, false, false),
            Focus::ShapeEditing { id: s, .. } => (*s == id, *s == id, false),
            Focus::ShapeDragging { id: s, .. } => (*s == id, false, *s == id),
            _ => (false, false, false),
        };
        ShapeFrame {
            id,
            center: shape.center,
            outline: shape_rect(shape.center, &config),
            text: self.display_text(i),
            selected: is_selected,
            editing,
            dragging,
            outgoing: self.port_frame(i, PortKind::Outgoing, selected),
            incoming: self.port_frame(i, PortKind::Incoming, selected),
        }
    }

    /// The preview of the connector being drawn, or `None` where none is
    /// being drawn.
    pub fn preview(&self) -> (preview: Option<Preview>)
        requires
            self@.wf(),
        ensures
            preview == self@.preview(),
    {
        match self.focus() {
            Focus::ConnectorDrafting { from, port, preview } => {
                match self.port_position(*from, *port) {
                    Some(start) => Some(Preview { start, end: *preview }),
                    None => None,
                }
            },
            _ => None,
        }
    }

    /// Everything that one frame shows.
    pub fn frame(&self) -> (frame: Frame)
        requires
            self@.wf(),
        ensures
            frame@ == self@.frame(),
    {
        let selected = self.selected_connection();
        let selected_id: Option<ConnectionId> = match self.focus() {
            Focus::ConnectionSelected { id } => Some(*id),
            _ => None,
        };
        let mut shapes: Vec<ShapeFrame> = Vec::new();
        let mut i: usize = 0;
        while i < self.scene().shape_count()
            invariant
                self@.wf(),
                selected == self@.selected_connection(),
                i <= self@.scene.shapes.len(),
                shapes@.len() == i,
                forall|k: int| 0 <= k < i ==> (#[trigger] shapes@[k])@ == self@.shape_frame(k),
            decreases self@.scene.shapes.len() - i,
        {
            let shape = self.shape_frame(i, selected);
            shapes.push(shape);
            i = i + 1;
        }
        let mut connectors: Vec<ConnectorFrame> = Vec::new();
        let mut k: usize = 0;
        while k < self.scene().connection_count()
            invariant
                self@.wf(),
                selected_id == match self@.focus {
                    FocusView::ConnectionSelected { id } => Some(id),
                    _ => None,
                },
                k <= self@.scene.connections.len(),
                connectors@.len() == k,
                forall|j: int| 0 <= j < k ==> #[trigger] connectors@[j] == self@.connector_frame(j),
            decreases self@.scene.connections.len() - k,
        {
            let c = self.scene().connection_at(k);
            let is_selected = match selected_id {
                Some(id) => id == c.id,
                None => false,
            };
            connectors.push(
                ConnectorFrame { id: c.id, curve: self.connector_curve_at(k), selected: is_selected },
            );
            k = k + 1;
        }
        let frame = Frame { shapes, connectors, preview: self.preview() };
        proof {
            assert(frame@.shapes =~= self@.frame().shapes);
            assert(frame@.connectors =~= self@.frame().connectors);
        }
        frame
    }
}

/// The label of the shape as a string of its own; the empty string where
/// the shape has no label.
pub fn label_text(shape: &Shape) -> (text: String)
    ensures
        text@ == text_of(shape@.text),
{
    match &shape.text {
        Some(label) => label.clone(),
        None => String::new(),
    }
}

} // verus!
