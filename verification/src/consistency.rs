//! What the searches of a press find, and the proof that every event and
//! every operation of the store keeps an editor consistent.

use crate::config::Config;
use crate::connector::{rect_of, PortKind};
use crate::events::{Button, Key};
use crate::geometry::Point;
use crate::model::{
    first_connection_at, first_port_at, first_target_at, is_grip, moved_by, offset_between,
    on_connection, on_port, port_near, topmost_at, EditorView, FocusView, Press,
};
use crate::scene::{ConnectionId, SceneView, ShapeId, ShapeView};
use vstd::prelude::*;

verus! {

/// The topmost shape at a point is the last one created whose outline
/// contains the point.
pub proof fn lemma_topmost_at(shapes: Seq<ShapeView>, config: Config, at: Point)
    ensures
        match topmost_at(shapes, config, at) {
            Some(i) => {
                &&& 0 <= i < shapes.len()
                &&& rect_of(shapes[i].center, config).contains(at)
                &&& forall|j: int|
                    i < j < shapes.len() ==> !rect_of((#[trigger] shapes[j]).center, config).contains(
                        at,
                    )
            },
            None => forall|j: int|
                0 <= j < shapes.len() ==> !rect_of((#[trigger] shapes[j]).center, config).contains(
                    at,
                ),
        },
    decreases shapes.len(),
{
    if shapes.len() > 0 && !rect_of(shapes.last().center, config).contains(at) {
        let rest = shapes.drop_last();
        lemma_topmost_at(rest, config, at);
        match topmost_at(rest, config, at) {
            Some(i) => {
                assert(rest[i] == shapes[i]);
                assert forall|j: int| i < j < shapes.len() implies !rect_of(
                    (#[trigger] shapes[j]).center,
                    config,
                ).contains(at) by {
                    if j < rest.len() {
                        assert(rest[j] == shapes[j]);
                    }
                }
            },
            None => {
                assert forall|j: int| 0 <= j < shapes.len() implies !rect_of(
                    (#[trigger] shapes[j]).center,
                    config,
                ).contains(at) by {
                    if j < rest.len() {
                        assert(rest[j] == shapes[j]);
                    }
                }
            },
        }
    }
}

/// The port that a press grabs belongs to the first shape, in the order of
/// creation, that has a port near enough.
pub proof fn lemma_first_port_at(shapes: Seq<ShapeView>, config: Config, at: Point, start: int)
    requires
        0 <= start,
    ensures
        match first_port_at(shapes, config, at, start) {
            Some((i, port)) => {
                &&& start <= i < shapes.len()
                &&& port_near(shapes[i].center, config, at) == Some(port)
                &&& forall|j: int|
                    start <= j < i ==> port_near((#[trigger] shapes[j]).center, config, at).is_none()
            },
            None => forall|j: int|
                start <= j < shapes.len() ==> port_near(
                    (#[trigger] shapes[j]).center,
                    config,
                    at,
                ).is_none(),
        },
    decreases shapes.len() - start,
{
    if start < shapes.len() && port_near(shapes[start].center, config, at).is_none() {
        lemma_first_port_at(shapes, config, at, start + 1);
    }
}

/// The shape that completes a connector is the first one, in the order of
/// creation and other than the shape the connector starts from, with a
/// port under the press.
pub proof fn lemma_first_target_at(
    shapes: Seq<ShapeView>,
    config: Config,
    at: Point,
    from: ShapeId,
    start: int,
)
    requires
        0 <= start,
    ensures
        match first_target_at(shapes, config, at, from, start) {
            Some(i) => {
                &&& start <= i < shapes.len()
                &&& shapes[i].id != from
                &&& on_port(shapes[i].center, config, at)
                &&& forall|j: int|
                    start <= j < i ==> (#[trigger] shapes[j]).id == from || !on_port(
                        shapes[j].center,
                        config,
                        at,
                    )
            },
            None => forall|j: int|
                start <= j < shapes.len() ==> (#[trigger] shapes[j]).id == from || !on_port(
                    shapes[j].center,
                    config,
                    at,
                ),
        },
    decreases shapes.len() - start,
{
    if start < shapes.len() && !(shapes[start].id != from && on_port(
        shapes[start].center,
        config,
        at,
    )) {
        lemma_first_target_at(shapes, config, at, from, start + 1);
    }
}

/// The connection that a press selects is the first one, in the order of
/// creation, whose curve passes near enough.
pub proof fn lemma_first_connection_at(scene: SceneView, config: Config, at: Point, start: int)
    requires
        0 <= start,
    ensures
        match first_connection_at(scene, config, at, start) {
            Some(i) => {
                &&& start <= i < scene.connections.len()
                &&& on_connection(scene, config, scene.connections[i], at)
                &&& forall|j: int|
                    start <= j < i ==> !on_connection(
                        scene,
                        config,
                        #[trigger] scene.connections[j],
                        at,
                    )
            },
            None => forall|j: int|
                start <= j < scene.connections.len() ==> !on_connection(
                    scene,
                    config,
                    #[trigger] scene.connections[j],
                    at,
                ),
        },
    decreases scene.connections.len() - start,
{
    if start < scene.connections.len() && !on_connection(
        scene,
        config,
        scene.connections[start],
        at,
    ) {
        lemma_first_connection_at(scene, config, at, start + 1);
    }
}

/// A press inside the outline of a shape is no farther from its center, on
/// either axis, than a shape extends.
pub proof fn lemma_grip(center: Point, config: Config, at: Point)
    requires
        center.on_canvas(),
        rect_of(center, config).contains(at),
    ensures
        is_grip(offset_between(at, center)),
        offset_between(at, center).x == center.x - at.x,
        offset_between(at, center).y == center.y - at.y,
{
}

/// Shapes with the same centers, position by position, have the same
/// topmost shape at every point.
pub proof fn lemma_topmost_same_layout(
    a: Seq<ShapeView>,
    b: Seq<ShapeView>,
    config: Config,
    at: Point,
)
    requires
        a.len() == b.len(),
        forall|i: int| 0 <= i < a.len() ==> (#[trigger] a[i]).center == b[i].center,
    ensures
        topmost_at(a, config, at) == topmost_at(b, config, at),
    decreases a.len(),
{
    if a.len() > 0 {
        assert(a.last().center == b.last().center);
        let ra = a.drop_last();
        let rb = b.drop_last();
        assert forall|i: int| 0 <= i < ra.len() implies (#[trigger] ra[i]).center
            == rb[i].center by {
            assert(a[i].center == b[i].center);
        }
        lemma_topmost_same_layout(ra, rb, config, at);
    }
}

/// Shapes with the same identifiers and centers, position by position,
/// offer the same ports to every press.
pub proof fn lemma_ports_same_layout(
    a: Seq<ShapeView>,
    b: Seq<ShapeView>,
    config: Config,
    at: Point,
    from: ShapeId,
    start: int,
)
    requires
        0 <= start,
        a.len() == b.len(),
        forall|i: int|
            0 <= i < a.len() ==> (#[trigger] a[i]).center == b[i].center && a[i].id == b[i].id,
    ensures
        first_port_at(a, config, at, start) == first_port_at(b, config, at, start),
        first_target_at(a, config, at, from, start) == first_target_at(b, config, at, from, start),
    decreases a.len() - start,
{
    if start < a.len() {
        assert(a[start].center == b[start].center && a[start].id == b[start].id);
        lemma_ports_same_layout(a, b, config, at, from, start + 1);
    }
}

/// Consistent scenes with the same connections, whose shapes have the
/// same identifiers and centers position by position, offer the same
/// connections to every press.
pub proof fn lemma_connections_same_layout(
    a: SceneView,
    b: SceneView,
    config: Config,
    at: Point,
    start: int,
)
    requires
        0 <= start,
        a.wf(),
        b.wf(),
        a.connections == b.connections,
        a.shapes.len() == b.shapes.len(),
        forall|i: int|
            0 <= i < a.shapes.len() ==> (#[trigger] a.shapes[i]).center == b.shapes[i].center
                && a.shapes[i].id == b.shapes[i].id,
    ensures
        first_connection_at(a, config, at, start) == first_connection_at(b, config, at, start),
    decreases a.connections.len() - start,
{
    if start < a.connections.len() {
        let c = a.connections[start];
        a.lemma_same_ids(b);
        assert(a.has_shape(c.from) && a.has_shape(c.to));
        let i = a.shape_index(c.from);
        let j = a.shape_index(c.to);
        assert(a.shapes[i].id == c.from && a.shapes[j].id == c.to);
        assert(a.shapes[i].center == b.shapes[i].center);
        assert(a.shapes[j].center == b.shapes[j].center);
        assert(b.shape_index(c.from) == i && b.shape_index(c.to) == j);
        lemma_connections_same_layout(a, b, config, at, start + 1);
    }
}

impl EditorView {
    /// Committing an edit keeps the scene consistent and changes no more
    /// than one label.
    pub proof fn lemma_committed(self)
        requires
            self.wf(),
        ensures
            self.committed().wf(),
            self.committed().connections == self.scene.connections,
            self.committed().next_shape_id == self.scene.next_shape_id,
            self.committed().next_connection_id == self.scene.next_connection_id,
            self.committed().shapes.len() == self.scene.shapes.len(),
            forall|i: int|
                0 <= i < self.scene.shapes.len() ==> {
                    &&& (#[trigger] self.committed().shapes[i]).id == self.scene.shapes[i].id
                    &&& self.committed().shapes[i].center == self.scene.shapes[i].center
                },
            forall|o: ShapeId| #[trigger] self.committed().has_shape(o) == self.scene.has_shape(o),
            forall|c: ConnectionId|
                #[trigger] self.committed().has_connection(c) == self.scene.has_connection(c),
    {
        if let FocusView::ShapeEditing { id, draft } = self.focus {
            self.scene.lemma_set_text_frame(id, draft);
        }
    }

    /// The initial editor is consistent.
    pub proof fn lemma_initial_wf(config: Config)
        ensures
            EditorView::initial(config).wf(),
    {
    }

    pub proof fn lemma_add_shape_wf(self, center: Point)
        requires
            self.wf(),
        ensures
            self.add_shape(center).wf(),
    {
        if self.scene.can_add_shape(center) {
            self.lemma_committed();
            self.committed().lemma_add_shape_frame(center);
        }
    }

    pub proof fn lemma_remove_shape_wf(self, id: ShapeId)
        requires
            self.wf(),
        ensures
            self.remove_shape(id).wf(),
    {
        self.scene.lemma_remove_shape_wf(id);
    }

    pub proof fn lemma_update_shape_center_wf(self, id: ShapeId, center: Point)
        requires
            self.wf(),
        ensures
            self.update_shape_center(id, center).wf(),
    {
        self.scene.lemma_set_center_frame(id, center);
    }

    pub proof fn lemma_set_shape_text_wf(self, id: ShapeId, text: Seq<char>)
        requires
            self.wf(),
        ensures
            self.set_shape_text(id, text).wf(),
    {
        self.scene.lemma_set_text_frame(id, text);
    }

    pub proof fn lemma_add_connection_wf(self, from: ShapeId, to: ShapeId)
        requires
            self.wf(),
        ensures
            self.add_connection(from, to).wf(),
    {
        self.scene.lemma_add_connection_frame(from, to);
    }

    pub proof fn lemma_remove_connection_wf(self, id: ConnectionId)
        requires
            self.wf(),
        ensures
            self.remove_connection(id).wf(),
    {
        self.scene.lemma_remove_connection_wf(id);
    }

    pub proof fn lemma_complete_draft_wf(self, from: ShapeId, target: Option<int>)
        requires
            self.wf(),
        ensures
            self.complete_draft(from, target).wf(),
    {
        if let Some(index) = target {
            self.scene.lemma_add_connection_wf(from, self.scene.shapes[index].id);
        }
    }

    pub proof fn lemma_press_shape_wf(self, id: ShapeId, at: Point, now: u64)
        requires
            self.wf(),
            self.scene.has_shape(id),
            rect_of(self.scene.shape(id).center, self.config).contains(at),
        ensures
            self.press_shape(id, at, now).wf(),
            self.press_shape(id, at, now).scene.shape(id).center == self.scene.shape(id).center,
    {
        let after = self.press_shape(id, at, now);
        let k = self.scene.shape_index(id);
        assert(self.scene.shapes[k].id == id);
        if let FocusView::ShapeEditing { id: edited, draft } = self.focus {
            if edited != id {
                self.scene.lemma_set_text_frame(edited, draft);
            }
        }
        assert(after.scene.has_shape(id));
        assert(after.scene.shape_index(id) == k);
        lemma_grip(self.scene.shapes[k].center, self.config, at);
    }

    pub proof fn lemma_grab_port_wf(self, id: ShapeId, port: PortKind, at: Point)
        requires
            self.wf(),
            self.scene.has_shape(id),
        ensures
            self.grab_port(id, port, at).wf(),
            self.grab_port(id, port, at).scene == self.scene,
    {
    }

    pub proof fn lemma_press_connection_wf(self, id: ConnectionId, at: Point, now: u64)
        requires
            self.wf(),
            self.scene.has_connection(id),
        ensures
            self.press_connection(id, at, now).wf(),
    {
        self.lemma_committed();
    }

    pub proof fn lemma_press_canvas_wf(self, at: Point, now: u64)
        requires
            self.wf(),
        ensures
            self.press_canvas(at, now).wf(),
    {
        self.lemma_committed();
        let cleared = EditorView { scene: self.committed(), focus: FocusView::Idle, ..self };
        cleared.lemma_add_shape_wf(at);
    }

    /// What a press lands on is part of the scene.
    pub proof fn lemma_press_at(self, at: Point)
        requires
            self.wf(),
        ensures
            match self.press_at(at) {
                Press::Draft { from, target } => {
                    &&& self.focus is ConnectorDrafting
                    &&& target matches Some(i) ==> 0 <= i < self.scene.shapes.len()
                        && self.scene.shapes[i].id != from
                },
                Press::Body { index } => {
                    &&& 0 <= index < self.scene.shapes.len()
                    &&& self.scene.has_shape(self.scene.shapes[index].id)
                    &&& self.scene.shape(self.scene.shapes[index].id) == self.scene.shapes[index]
                    &&& rect_of(self.scene.shapes[index].center, self.config).contains(at)
                },
                Press::Port { index, port } => {
                    &&& 0 <= index < self.scene.shapes.len()
                    &&& self.scene.has_shape(self.scene.shapes[index].id)
                },
                Press::Connector { index } => {
                    &&& 0 <= index < self.scene.connections.len()
                    &&& self.scene.has_connection(self.scene.connections[index].id)
                },
                Press::Canvas => true,
            },
    {
        lemma_topmost_at(self.scene.shapes, self.config, at);
        lemma_first_port_at(self.scene.shapes, self.config, at, 0);
        lemma_first_connection_at(self.scene, self.config, at, 0);
        match self.press_at(at) {
            Press::Draft { from, target } => {
                lemma_first_target_at(self.scene.shapes, self.config, at, from, 0);
            },
            Press::Body { index } => {
                self.scene.lemma_shape_index(index);
            },
            Press::Port { index, port } => {
                self.scene.lemma_shape_index(index);
            },
            Press::Connector { index } => {
                self.scene.lemma_connection_index(index);
            },
            Press::Canvas => {},
        }
    }

    /// A press keeps the editor consistent.
    pub proof fn lemma_pointer_down_wf(self, button: Button, at: Point, now: u64)
        requires
            self.wf(),
        ensures
            self.pointer_down(button, at, now).wf(),
    {
        if button == Button::Left {
            self.lemma_press_at(at);
            match self.press_at(at) {
                Press::Draft { from, target } => {
                    self.lemma_complete_draft_wf(from, target);
                },
                Press::Body { index } => {
                    self.lemma_press_shape_wf(self.scene.shapes[index].id, at, now);
                },
                Press::Port { index, port } => {
                    self.lemma_grab_port_wf(self.scene.shapes[index].id, port, at);
                },
                Press::Connector { index } => {
                    self.lemma_press_connection_wf(self.scene.connections[index].id, at, now);
                },
                Press::Canvas => {
                    self.lemma_press_canvas_wf(at, now);
                },
            }
        }
    }

    /// A release keeps the editor consistent.
    pub proof fn lemma_pointer_up_wf(self, button: Button)
        requires
            self.wf(),
        ensures
            self.pointer_up(button).wf(),
    {
    }

    /// A move of the pointer keeps the editor consistent.
    pub proof fn lemma_pointer_move_wf(self, at: Point)
        requires
            self.wf(),
        ensures
            self.pointer_move(at).wf(),
    {
        if let FocusView::ShapeDragging { id, offset } = self.focus {
            self.scene.lemma_set_center_frame(id, moved_by(at, offset));
        }
    }

    /// A key keeps the editor consistent.
    pub proof fn lemma_key_down_wf(self, key: Key, repeat: bool)
        requires
            self.wf(),
        ensures
            self.key_down(key, repeat).wf(),
    {
        match self.focus {
            FocusView::ShapeEditing { id, draft } => {
                self.scene.lemma_set_text_frame(id, draft);
            },
            FocusView::ShapeSelected { id } => {
                self.lemma_remove_shape_wf(id);
            },
            FocusView::ShapeDragging { id, .. } => {
                self.lemma_remove_shape_wf(id);
            },
            FocusView::ConnectionSelected { id } => {
                self.lemma_remove_connection_wf(id);
            },
            _ => {},
        }
    }

    /// A typed character keeps the editor consistent.
    pub proof fn lemma_text_input_wf(self, c: char)
        requires
            self.wf(),
        ensures
            self.text_input(c).wf(),
    {
    }

    /// A frame keeps the editor consistent.
    pub proof fn lemma_tick_wf(self)
        requires
            self.wf(),
        ensures
            self.tick().wf(),
    {
    }
}

} // verus!
