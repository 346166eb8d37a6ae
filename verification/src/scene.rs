//! The scene store: the shapes and the directed connections between them.
//!
//! Shapes and connections carry identifiers that are handed out in rising
//! order and never handed out twice. A connection names its two shapes by
//! identifier only. The store keeps itself consistent: a connection always
//! joins two different shapes that exist, no ordered pair of shapes is
//! joined twice, and removing a shape removes every connection that touches
//! it.

use crate::geometry::Point;
use crate::text::label_of;
use vstd::prelude::*;

verus! {

pub type ShapeId = u64;

pub type ConnectionId = u64;

/// A rectangular node with an optional label.
#[derive(Clone, Debug, PartialEq, Eq)]
pub struct Shape {
    pub id: ShapeId,
    pub center: Point,
    /// The label; a shape without a label holds `None`, never an empty
    /// string.
    pub text: Option<String>,
}

/// What a `Shape` is to a specification.
#[verifier::ext_equal]
pub struct ShapeView {
    pub id: ShapeId,
    pub center: Point,
    pub text: Option<Seq<char>>,
}

impl View for Shape {
    type V = ShapeView;

    open spec fn view(&self) -> ShapeView {
        ShapeView {
            id: self.id,
            center: self.center,
            text: match self.text {
                Some(t) => Some(t@),
                None => None,
            },
        }
    }
}

/// A directed edge from the shape `from` to the shape `to`.
#[derive(Clone, Copy, Debug, PartialEq, Eq, Structural)]
pub struct Connection {
    pub id: ConnectionId,
    pub from: ShapeId,
    pub to: ShapeId,
}

/// The scene as a specification sees it: shapes and connections in the
/// order of their creation, and the identifiers that come next.
#[verifier::ext_equal]
pub struct SceneView {
    pub shapes: Seq<ShapeView>,
    pub connections: Seq<Connection>,
    pub next_shape_id: ShapeId,
    pub next_connection_id: ConnectionId,
}

/// Some shape of `shapes` has the identifier `id`.
pub open spec fn has_id(shapes: Seq<ShapeView>, id: ShapeId) -> bool {
    exists|i: int| 0 <= i < shapes.len() && (#[trigger] shapes[i]).id == id
}

/// The position in `shapes` of the shape with the identifier `id`.
pub open spec fn index_of_id(shapes: Seq<ShapeView>, id: ShapeId) -> int {
    choose|i: int| 0 <= i < shapes.len() && (#[trigger] shapes[i]).id == id
}

/// Shapes stand in rising order of identifiers below `bound`, lie on the
/// canvas, and hold no empty label.
pub open spec fn shapes_wf(shapes: Seq<ShapeView>, bound: ShapeId) -> bool {
    &&& forall|i: int|
        0 <= i < shapes.len() ==> {
            &&& (#[trigger] shapes[i]).id < bound
            &&& shapes[i].center.on_canvas()
            &&& shapes[i].text != Some(Seq::<char>::empty())
        }
    &&& forall|i: int, j: int|
        0 <= i < j < shapes.len() ==> (#[trigger] shapes[i]).id < (#[trigger] shapes[j]).id
}

/// Connections stand in rising order of identifiers below `bound`; each
/// joins two different shapes of `shapes`, and no two join the same shapes
/// in the same direction.
pub open spec fn connections_wf(
    connections: Seq<Connection>,
    shapes: Seq<ShapeView>,
    bound: ConnectionId,
) -> bool {
    &&& forall|i: int|
        0 <= i < connections.len() ==> {
            &&& (#[trigger] connections[i]).id < bound
            &&& connections[i].from != connections[i].to
            &&& has_id(shapes, connections[i].from)
            &&& has_id(shapes, connections[i].to)
        }
    &&& forall|i: int, j: int|
        0 <= i < j < connections.len() ==> (#[trigger] connections[i]).id < (
        #[trigger] connections[j]).id
    &&& forall|i: int, j: int|
        0 <= i < j < connections.len() ==> !((#[trigger] connections[i]).from == (
        #[trigger] connections[j]).from && connections[i].to == connections[j].to)
}

/// The connections that the removal of the shape `id` spares: those that
/// neither leave it nor arrive at it.
pub open spec fn spares(id: ShapeId) -> spec_fn(Connection) -> bool {
    |c: Connection| c.from != id && c.to != id
}

/// The connections that touch the shape `id`.
pub open spec fn touches(id: ShapeId) -> spec_fn(Connection) -> bool {
    |c: Connection| c.from == id || c.to == id
}

impl SceneView {
    /// The scene without shapes or connections.
    pub open spec fn empty() -> SceneView {
        SceneView {
            shapes: Seq::empty(),
            connections: Seq::empty(),
            next_shape_id: 0,
            next_connection_id: 0,
        }
    }

    /// The consistency that every operation of the store keeps.
    pub open spec fn wf(self) -> bool {
        &&& shapes_wf(self.shapes, self.next_shape_id)
        &&& connections_wf(self.connections, self.shapes, self.next_connection_id)
    }

    pub open spec fn has_shape(self, id: ShapeId) -> bool {
        has_id(self.shapes, id)
    }

    pub open spec fn shape_index(self, id: ShapeId) -> int {
        index_of_id(self.shapes, id)
    }

    /// The shape with the identifier `id`, where there is one.
    pub open spec fn shape(self, id: ShapeId) -> ShapeView {
        self.shapes[self.shape_index(id)]
    }

    pub open spec fn has_connection(self, id: ConnectionId) -> bool {
        exists|i: int| 0 <= i < self.connections.len() && (#[trigger] self.connections[i]).id == id
    }

    pub open spec fn connection_index(self, id: ConnectionId) -> int {
        choose|i: int| 0 <= i < self.connections.len() && (#[trigger] self.connections[i]).id == id
    }

    /// Some connection leads from `from` to `to`.
    pub open spec fn has_link(self, from: ShapeId, to: ShapeId) -> bool {
        exists|i: int|
            0 <= i < self.connections.len() && (#[trigger] self.connections[i]).from == from
                && self.connections[i].to == to
    }

    /// A shape can be added at `center`: the point lies on the canvas and
    /// an identifier is left.
    pub open spec fn can_add_shape(self, center: Point) -> bool {
        center.on_canvas() && self.next_shape_id < u64::MAX
    }

    /// The scene after a shape without label was added at `center`.
    pub open spec fn add_shape(self, center: Point) -> SceneView {
        if self.can_add_shape(center) {
            SceneView {
                shapes: self.shapes.push(ShapeView { id: self.next_shape_id, center, text: None }),
                next_shape_id: (self.next_shape_id + 1) as u64,
                ..self
            }
        } else {
            self
        }
    }

    /// The scene after the shape `id` was removed, and with it every
    /// connection that touches it.
    pub open spec fn remove_shape(self, id: ShapeId) -> SceneView {
        if self.has_shape(id) {
            SceneView {
                shapes: self.shapes.remove(self.shape_index(id)),
                connections: self.connections.filter(spares(id)),
                ..self
            }
        } else {
            self
        }
    }

    /// The scene after the shape `id` was moved to `center`.
    pub open spec fn set_center(self, id: ShapeId, center: Point) -> SceneView {
        if self.has_shape(id) && center.on_canvas() {
            let i = self.shape_index(id);
            SceneView {
                shapes: self.shapes.update(i, ShapeView { center, ..self.shapes[i] }),
                ..self
            }
        } else {
            self
        }
    }

    /// The scene after the shape `id` was labelled `text`; an empty text
    /// takes the label away.
    pub open spec fn set_text(self, id: ShapeId, text: Seq<char>) -> SceneView {
        if self.has_shape(id) {
            let i = self.shape_index(id);
            SceneView {
                shapes: self.shapes.update(i, ShapeView { text: label_of(text), ..self.shapes[i] }),
                ..self
            }
        } else {
            self
        }
    }

    /// A connection from `from` to `to` can be added: the two are
    /// different shapes of the scene that no connection joins in this
    /// direction yet, and an identifier is left.
    pub open spec fn can_add_connection(self, from: ShapeId, to: ShapeId) -> bool {
        &&& from != to
        &&& self.has_shape(from)
        &&& self.has_shape(to)
        &&& !self.has_link(from, to)
        &&& self.next_connection_id < u64::MAX
    }

    /// The scene after the attempt to connect `from` to `to`.
    pub open spec fn add_connection(self, from: ShapeId, to: ShapeId) -> SceneView {
        if self.can_add_connection(from, to) {
            SceneView {
                connections: self.connections.push(
                    Connection { id: self.next_connection_id, from, to },
                ),
                next_connection_id: (self.next_connection_id + 1) as u64,
                ..self
            }
        } else {
            self
        }
    }

    /// The scene after the connection `id` was removed.
    pub open spec fn remove_connection(self, id: ConnectionId) -> SceneView {
        if self.has_connection(id) {
            SceneView { connections: self.connections.remove(self.connection_index(id)), ..self }
        } else {
            self
        }
    }

    /// In a consistent scene a shape is found at one position only.
    pub proof fn lemma_shape_index(self, i: int)
        requires
            self.wf(),
            0 <= i < self.shapes.len(),
        ensures
            self.has_shape(self.shapes[i].id),
            self.shape_index(self.shapes[i].id) == i,
    {
        let id = self.shapes[i].id;
        let k = self.shape_index(id);
        assert(0 <= k < self.shapes.len() && self.shapes[k].id == id);
        if k < i {
            assert(self.shapes[k].id < self.shapes[i].id);
        } else if i < k {
            assert(self.shapes[i].id < self.shapes[k].id);
        }
    }

    /// In a consistent scene a connection is found at one position only.
    pub proof fn lemma_connection_index(self, i: int)
        requires
            self.wf(),
            0 <= i < self.connections.len(),
        ensures
            self.has_connection(self.connections[i].id),
            self.connection_index(self.connections[i].id) == i,
    {
        let id = self.connections[i].id;
        let k = self.connection_index(id);
        assert(0 <= k < self.connections.len() && self.connections[k].id == id);
        if k < i {
            assert(self.connections[k].id < self.connections[i].id);
        } else if i < k {
            assert(self.connections[i].id < self.connections[k].id);
        }
    }

    /// Adding a shape keeps the scene consistent.
    pub proof fn lemma_add_shape_wf(self, center: Point)
        requires
            self.wf(),
        ensures
            self.add_shape(center).wf(),
    {
        if self.can_add_shape(center) {
            let after = self.add_shape(center);
            assert forall|i: int| 0 <= i < after.connections.len() implies has_id(
                after.shapes,
                (#[trigger] after.connections[i]).from,
            ) && has_id(after.shapes, after.connections[i].to) by {
                let c = self.connections[i];
                lemma_has_id_push(self.shapes, after.shapes.last(), c.from);
                lemma_has_id_push(self.shapes, after.shapes.last(), c.to);
            }
        }
    }

    /// Moving a shape keeps the scene consistent.
    pub proof fn lemma_set_center_wf(self, id: ShapeId, center: Point)
        requires
            self.wf(),
        ensures
            self.set_center(id, center).wf(),
    {
        if self.has_shape(id) && center.on_canvas() {
            let after = self.set_center(id, center);
            assert forall|i: int| 0 <= i < after.connections.len() implies has_id(
                after.shapes,
                (#[trigger] after.connections[i]).from,
            ) && has_id(after.shapes, after.connections[i].to) by {
                let c = self.connections[i];
                lemma_has_id_same_ids(self.shapes, after.shapes, c.from);
                lemma_has_id_same_ids(self.shapes, after.shapes, c.to);
            }
        }
    }

    /// Labelling a shape keeps the scene consistent.
    pub proof fn lemma_set_text_wf(self, id: ShapeId, text: Seq<char>)
        requires
            self.wf(),
        ensures
            self.set_text(id, text).wf(),
    {
        if self.has_shape(id) {
            let after = self.set_text(id, text);
            assert(label_of(text) != Some(Seq::<char>::empty())) by {
                if text.len() != 0 {
                    assert(text.len() != Seq::<char>::empty().len());
                }
            }
            assert forall|i: int| 0 <= i < after.connections.len() implies has_id(
                after.shapes,
                (#[trigger] after.connections[i]).from,
            ) && has_id(after.shapes, after.connections[i].to) by {
                let c = self.connections[i];
                lemma_has_id_same_ids(self.shapes, after.shapes, c.from);
                lemma_has_id_same_ids(self.shapes, after.shapes, c.to);
            }
        }
    }

    /// Adding a connection keeps the scene consistent.
    pub proof fn lemma_add_connection_wf(self, from: ShapeId, to: ShapeId)
        requires
            self.wf(),
        ensures
            self.add_connection(from, to).wf(),
    {
        if self.can_add_connection(from, to) {
            let after = self.add_connection(from, to);
            let last = self.connections.len() as int;
            assert forall|i: int, j: int| 0 <= i < j < after.connections.len() implies !((
            #[trigger] after.connections[i]).from == (#[trigger] after.connections[j]).from
                && after.connections[i].to == after.connections[j].to) by {
                if j == last {
                    assert(self.connections[i].from == after.connections[i].from);
                }
            }
        }
    }

    /// Removing a connection keeps the scene consistent.
    pub proof fn lemma_remove_connection_wf(self, id: ConnectionId)
        requires
            self.wf(),
        ensures
            self.remove_connection(id).wf(),
    {
        if self.has_connection(id) {
            let k = self.connection_index(id);
            let after = self.remove_connection(id);
            assert forall|i: int| 0 <= i < after.connections.len() implies {
                &&& (#[trigger] after.connections[i]).id < after.next_connection_id
                &&& after.connections[i].from != after.connections[i].to
                &&& has_id(after.shapes, after.connections[i].from)
                &&& has_id(after.shapes, after.connections[i].to)
            } by {
                let src = if i < k { i } else { i + 1 };
                assert(after.connections[i] == self.connections[src]);
            }
            assert forall|i: int, j: int| 0 <= i < j < after.connections.len() implies (
            #[trigger] after.connections[i]).id < (#[trigger] after.connections[j]).id && !(
            after.connections[i].from == after.connections[j].from && after.connections[i].to
                == after.connections[j].to) by {
                let si = if i < k { i } else { i + 1 };
                let sj = if j < k { j } else { j + 1 };
                assert(after.connections[i] == self.connections[si]);
                assert(after.connections[j] == self.connections[sj]);
            }
        }
    }

    /// Two consistent scenes whose shapes carry the same identifiers at
    /// the same positions have the same shapes by identifier.
    pub proof fn lemma_same_ids(self, other: SceneView)
        requires
            self.wf(),
            other.wf(),
            self.shapes.len() == other.shapes.len(),
            forall|i: int|
                0 <= i < self.shapes.len() ==> (#[trigger] self.shapes[i]).id == other.shapes[i].id,
        ensures
            forall|id: ShapeId| #[trigger] other.has_shape(id) == self.has_shape(id),
            forall|id: ShapeId|
                self.has_shape(id) ==> #[trigger] other.shape_index(id) == self.shape_index(id),
    {
        assert forall|id: ShapeId| #[trigger] other.has_shape(id) == self.has_shape(id) by {
            if self.has_shape(id) {
                lemma_has_id_same_ids(self.shapes, other.shapes, id);
            }
            if other.has_shape(id) {
                let i = other.shape_index(id);
                assert(other.shapes[i].id == id);
                assert(self.shapes[i].id == id);
            }
        }
        assert forall|id: ShapeId| self.has_shape(id) implies #[trigger] other.shape_index(id)
            == self.shape_index(id) by {
            let i = self.shape_index(id);
            assert(self.shapes[i].id == id);
            other.lemma_shape_index(i);
        }
    }

    /// Labelling a shape changes that label and nothing else.
    pub proof fn lemma_set_text_frame(self, id: ShapeId, text: Seq<char>)
        requires
            self.wf(),
        ensures
            self.set_text(id, text).wf(),
            self.set_text(id, text).connections == self.connections,
            self.set_text(id, text).next_shape_id == self.next_shape_id,
            self.set_text(id, text).next_connection_id == self.next_connection_id,
            self.set_text(id, text).shapes.len() == self.shapes.len(),
            forall|i: int|
                0 <= i < self.shapes.len() ==> {
                    &&& (#[trigger] self.set_text(id, text).shapes[i]).id == self.shapes[i].id
                    &&& self.set_text(id, text).shapes[i].center == self.shapes[i].center
                    &&& self.shapes[i].id != id ==> self.set_text(id, text).shapes[i]
                        == self.shapes[i]
                },
            forall|o: ShapeId| #[trigger] self.set_text(id, text).has_shape(o) == self.has_shape(o),
            forall|o: ShapeId|
                self.has_shape(o) ==> #[trigger] self.set_text(id, text).shape_index(o)
                    == self.shape_index(o),
            self.has_shape(id) ==> self.set_text(id, text).shape(id).text == label_of(text),
    {
        self.lemma_set_text_wf(id, text);
        if self.has_shape(id) {
            let k = self.shape_index(id);
            self.lemma_shape_index(k);
            assert forall|i: int| 0 <= i < self.shapes.len() && self.shapes[i].id != id implies (
            #[trigger] self.set_text(id, text).shapes[i]) == self.shapes[i] by {
                assert(i != k);
            }
        }
        self.lemma_same_ids(self.set_text(id, text));
    }

    /// Moving a shape changes that center and nothing else.
    pub proof fn lemma_set_center_frame(self, id: ShapeId, center: Point)
        requires
            self.wf(),
        ensures
            self.set_center(id, center).wf(),
            self.set_center(id, center).connections == self.connections,
            self.set_center(id, center).next_shape_id == self.next_shape_id,
            self.set_center(id, center).next_connection_id == self.next_connection_id,
            self.set_center(id, center).shapes.len() == self.shapes.len(),
            forall|i: int|
                0 <= i < self.shapes.len() ==> {
                    &&& (#[trigger] self.set_center(id, center).shapes[i]).id == self.shapes[i].id
                    &&& self.set_center(id, center).shapes[i].text == self.shapes[i].text
                    &&& self.shapes[i].id != id ==> self.set_center(id, center).shapes[i]
                        == self.shapes[i]
                },
            forall|o: ShapeId|
                #[trigger] self.set_center(id, center).has_shape(o) == self.has_shape(o),
            forall|o: ShapeId|
                self.has_shape(o) ==> #[trigger] self.set_center(id, center).shape_index(o)
                    == self.shape_index(o),
            self.has_shape(id) && center.on_canvas() ==> self.set_center(id, center).shape(
                id,
            ).center == center,
    {
        self.lemma_set_center_wf(id, center);
        if self.has_shape(id) && center.on_canvas() {
            let k = self.shape_index(id);
            self.lemma_shape_index(k);
            assert forall|i: int| 0 <= i < self.shapes.len() && self.shapes[i].id != id implies (
            #[trigger] self.set_center(id, center).shapes[i]) == self.shapes[i] by {
                assert(i != k);
            }
        }
        self.lemma_same_ids(self.set_center(id, center));
    }

    /// Adding a shape puts it last and leaves the others where they were.
    pub proof fn lemma_add_shape_frame(self, center: Point)
        requires
            self.wf(),
            self.can_add_shape(center),
        ensures
            self.add_shape(center).wf(),
            !self.has_shape(self.next_shape_id),
            self.add_shape(center).has_shape(self.next_shape_id),
            self.add_shape(center).shape_index(self.next_shape_id) == self.shapes.len(),
            forall|o: ShapeId|
                self.has_shape(o) ==> #[trigger] self.add_shape(center).has_shape(o)
                    && self.add_shape(center).shape_index(o) == self.shape_index(o),
            forall|c: ConnectionId|
                #[trigger] self.add_shape(center).has_connection(c) == self.has_connection(c),
    {
        let after = self.add_shape(center);
        self.lemma_add_shape_wf(center);
        let last = self.shapes.len() as int;
        assert(after.shapes[last].id == self.next_shape_id);
        after.lemma_shape_index(last);
        if self.has_shape(self.next_shape_id) {
            let i = self.shape_index(self.next_shape_id);
            assert(self.shapes[i].id < self.next_shape_id);
        }
        assert forall|o: ShapeId| self.has_shape(o) implies #[trigger] after.has_shape(o)
            && after.shape_index(o) == self.shape_index(o) by {
            let i = self.shape_index(o);
            assert(self.shapes[i].id == o);
            assert(after.shapes[i].id == o);
            after.lemma_shape_index(i);
        }
    }

    /// Removing a shape leaves the other shapes in the scene, and of the
    /// connections those that did not touch it.
    pub proof fn lemma_remove_shape_frame(self, id: ShapeId)
        requires
            self.wf(),
        ensures
            self.remove_shape(id).wf(),
            !self.remove_shape(id).has_shape(id),
            forall|o: ShapeId|
                o != id ==> #[trigger] self.remove_shape(id).has_shape(o) == self.has_shape(o),
            forall|o: ShapeId|
                o != id && self.has_shape(o) ==> #[trigger] self.remove_shape(id).shape(o)
                    == self.shape(o),
    {
        let after = self.remove_shape(id);
        self.lemma_remove_shape_wf(id);
        if self.has_shape(id) {
            let k = self.shape_index(id);
            self.lemma_shape_index(k);
            if after.has_shape(id) {
                let i = after.shape_index(id);
                let src = if i < k { i } else { i + 1 };
                assert(after.shapes[i] == self.shapes[src]);
                self.lemma_shape_index(src);
            }
            assert forall|o: ShapeId| o != id implies #[trigger] after.has_shape(o)
                == self.has_shape(o) by {
                if self.has_shape(o) {
                    lemma_has_id_remove(self.shapes, k, o);
                }
                if after.has_shape(o) {
                    let i = after.shape_index(o);
                    let src = if i < k { i } else { i + 1 };
                    assert(after.shapes[i] == self.shapes[src]);
                }
            }
            assert forall|o: ShapeId| o != id && self.has_shape(o) implies #[trigger] after.shape(
                o,
            ) == self.shape(o) by {
                let i = self.shape_index(o);
                assert(self.shapes[i].id == o);
                let dst = if i < k { i } else { i - 1 };
                assert(after.shapes[dst] == self.shapes[i]);
                after.lemma_shape_index(dst);
            }
        }
    }

    /// Adding a connection puts it last and leaves the others where they
    /// were.
    pub proof fn lemma_add_connection_frame(self, from: ShapeId, to: ShapeId)
        requires
            self.wf(),
        ensures
            self.add_connection(from, to).wf(),
            self.add_connection(from, to).shapes == self.shapes,
            forall|c: ConnectionId|
                self.has_connection(c) ==> #[trigger] self.add_connection(from, to).has_connection(
                    c,
                ),
    {
        let after = self.add_connection(from, to);
        self.lemma_add_connection_wf(from, to);
        assert forall|c: ConnectionId| self.has_connection(c) implies #[trigger] after.has_connection(
            c,
        ) by {
            let i = self.connection_index(c);
            assert(self.connections[i].id == c);
            assert(after.connections[i].id == c);
        }
    }

    /// Removing a shape keeps the scene consistent.
    pub proof fn lemma_remove_shape_wf(self, id: ShapeId)
        requires
            self.wf(),
        ensures
            self.remove_shape(id).wf(),
    {
        if self.has_shape(id) {
            let k = self.shape_index(id);
            let after = self.remove_shape(id);
            assert forall|i: int| 0 <= i < after.shapes.len() implies {
                &&& (#[trigger] after.shapes[i]).id < after.next_shape_id
                &&& after.shapes[i].center.on_canvas()
                &&& after.shapes[i].text != Some(Seq::<char>::empty())
            } by {
                let src = if i < k { i } else { i + 1 };
                assert(after.shapes[i] == self.shapes[src]);
            }
            assert forall|i: int, j: int| 0 <= i < j < after.shapes.len() implies (
            #[trigger] after.shapes[i]).id < (#[trigger] after.shapes[j]).id by {
                let si = if i < k { i } else { i + 1 };
                let sj = if j < k { j } else { j + 1 };
                assert(after.shapes[i] == self.shapes[si]);
                assert(after.shapes[j] == self.shapes[sj]);
            }
            lemma_filter_keeps_order(self.connections, spares(id));
            let pick = filter_sources(self.connections, spares(id));
            assert forall|i: int| 0 <= i < after.connections.len() implies {
                &&& (#[trigger] after.connections[i]).id < after.next_connection_id
                &&& after.connections[i].from != after.connections[i].to
                &&& has_id(after.shapes, after.connections[i].from)
                &&& has_id(after.shapes, after.connections[i].to)
            } by {
                let c = self.connections[pick[i]];
                assert(after.connections[i] == c);
                assert(spares(id)(c));
                lemma_has_id_remove(self.shapes, k, c.from);
                lemma_has_id_remove(self.shapes, k, c.to);
            }
            assert forall|i: int, j: int| 0 <= i < j < after.connections.len() implies (
            #[trigger] after.connections[i]).id < (#[trigger] after.connections[j]).id && !(
            after.connections[i].from == after.connections[j].from && after.connections[i].to
                == after.connections[j].to) by {
                assert(after.connections[i] == self.connections[pick[i]]);
                assert(after.connections[j] == self.connections[pick[j]]);
                assert(pick[i] < pick[j]);
            }
        }
    }
}

/// The positions in `s` of the elements that `s.filter(pred)` keeps, in
/// order.
pub open spec fn filter_sources<A>(s: Seq<A>, pred: spec_fn(A) -> bool) -> Seq<int>
    decreases s.len(),
{
    if s.len() == 0 {
        Seq::empty()
    } else {
        let before = filter_sources(s.drop_last(), pred);
        if pred(s.last()) {
            before.push(s.len() - 1)
        } else {
            before
        }
    }
}

/// `s.filter(pred)` lists, in the order of `s`, the elements of `s` that
/// satisfy `pred`.
pub proof fn lemma_filter_keeps_order<A>(s: Seq<A>, pred: spec_fn(A) -> bool)
    ensures
        filter_sources(s, pred).len() == s.filter(pred).len(),
        forall|i: int|
            0 <= i < s.filter(pred).len() ==> {
                &&& 0 <= (#[trigger] filter_sources(s, pred)[i]) < s.len()
                &&& s.filter(pred)[i] == s[filter_sources(s, pred)[i]]
                &&& pred(s[filter_sources(s, pred)[i]])
            },
        forall|i: int, j: int|
            0 <= i < j < s.filter(pred).len() ==> (#[trigger] filter_sources(s, pred)[i]) < (
            #[trigger] filter_sources(s, pred)[j]),
    decreases s.len(),
{
    reveal(Seq::filter);
    if s.len() > 0 {
        lemma_filter_keeps_order(s.drop_last(), pred);
    }
}

/// Filtering splits a sequence: what `pred` keeps and what it drops add up
/// to the whole.
pub proof fn lemma_filter_split<A>(s: Seq<A>, keep: spec_fn(A) -> bool, drop: spec_fn(A) -> bool)
    requires
        forall|a: A| #[trigger] keep(a) <==> !drop(a),
    ensures
        s.filter(keep).len() + s.filter(drop).len() == s.len(),
    decreases s.len(),
{
    reveal(Seq::filter);
    if s.len() > 0 {
        lemma_filter_split(s.drop_last(), keep, drop);
        assert(keep(s.last()) <==> !drop(s.last()));
    }
}

proof fn lemma_has_id_push(shapes: Seq<ShapeView>, added: ShapeView, id: ShapeId)
    requires
        has_id(shapes, id),
    ensures
        has_id(shapes.push(added), id),
{
    let i = index_of_id(shapes, id);
    assert(shapes.push(added)[i].id == id);
}

proof fn lemma_has_id_same_ids(before: Seq<ShapeView>, after: Seq<ShapeView>, id: ShapeId)
    requires
        before.len() == after.len(),
        forall|i: int| 0 <= i < before.len() ==> (#[trigger] before[i]).id == after[i].id,
        has_id(before, id),
    ensures
        has_id(after, id),
{
    let i = index_of_id(before, id);
    assert(before[i].id == id);
    assert(after[i].id == id);
}

proof fn lemma_has_id_remove(shapes: Seq<ShapeView>, k: int, id: ShapeId)
    requires
        0 <= k < shapes.len(),
        has_id(shapes, id),
        shapes[k].id != id,
    ensures
        has_id(shapes.remove(k), id),
{
    let i = index_of_id(shapes, id);
    assert(shapes[i].id == id);
    let dst = if i < k { i } else { i - 1 };
    assert(shapes.remove(k)[dst] == shapes[i]);
}

/// The scene store.
pub struct Scene {
    shapes: Vec<Shape>,
    connections: Vec<Connection>,
    next_shape_id: ShapeId,
    next_connection_id: ConnectionId,
}

impl View for Scene {
    type V = SceneView;

    closed spec fn view(&self) -> SceneView {
        SceneView {
            shapes: self.shapes@.map_values(|s: Shape| s@),
            connections: self.connections@,
            next_shape_id: self.next_shape_id,
            next_connection_id: self.next_connection_id,
        }
    }
}

impl Scene {
    /// A scene without shapes or connections.
    pub fn new() -> (scene: Scene)
        ensures
            scene@ == SceneView::empty(),
            scene@.wf(),
    {
        let scene = Scene {
            shapes: Vec::new(),
            connections: Vec::new(),
            next_shape_id: 0,
            next_connection_id: 0,
        };
        assert(scene@.shapes =~= Seq::empty());
        scene
    }

    /// The identifier that the next shape gets.
    pub fn next_shape_id(&self) -> (id: ShapeId)
        ensures
            id == self@.next_shape_id,
    {
        self.next_shape_id
    }

    /// The identifier that the next connection gets.
    pub fn next_connection_id(&self) -> (id: ConnectionId)
        ensures
            id == self@.next_connection_id,
    {
        self.next_connection_id
    }

    /// The number of shapes.
    pub fn shape_count(&self) -> (n: usize)
        ensures
            n == self@.shapes.len(),
    {
        self.shapes.len()
    }

    /// The `i`-th shape in the order of creation.
    pub fn shape_at(&self, i: usize) -> (shape: &Shape)
        requires
            i < self@.shapes.len(),
        ensures
            shape@ == self@.shapes[i as int],
    {
        &self.shapes[i]
    }

    /// The number of connections.
    pub fn connection_count(&self) -> (n: usize)
        ensures
            n == self@.connections.len(),
    {
        self.connections.len()
    }

    /// The `i`-th connection in the order of creation.
    pub fn connection_at(&self, i: usize) -> (connection: Connection)
        requires
            i < self@.connections.len(),
        ensures
            connection == self@.connections[i as int],
    {
        self.connections[i]
    }

    /// The position of the shape `id`, or `None` where the scene has no
    /// such shape.
    pub fn find_shape(&self, id: ShapeId) -> (found: Option<usize>)
        requires
            self@.wf(),
        ensures
            found.is_some() == self@.has_shape(id),
            found matches Some(i) ==> i == self@.shape_index(id) && i < self@.shapes.len()
                && self@.shapes[i as int].id == id,
    {
        let mut i: usize = 0;
        while i < self.shapes.len()
            invariant
                i <= self.shapes.len(),
                self@.wf(),
                self@.shapes.len() == self.shapes.len(),
                forall|k: int| 0 <= k < i ==> (#[trigger] self@.shapes[k]).id != id,
            decreases self.shapes.len() - i,
        {
            if self.shapes[i].id == id {
                proof {
                    self@.lemma_shape_index(i as int);
                }
                return Some(i);
            }
            i = i + 1;
        }
        None
    }

    /// The shape `id`, or `None` where the scene has no such shape.
    pub fn shape(&self, id: ShapeId) -> (found: Option<&Shape>)
        requires
            self@.wf(),
        ensures
            found.is_some() == self@.has_shape(id),
            found matches Some(shape) ==> shape@ == self@.shape(id),
    {
        match self.find_shape(id) {
            Some(i) => Some(&self.shapes[i]),
            None => None,
        }
    }

    /// The position of the connection `id`, or `None` where the scene has
    /// no such connection.
    pub fn find_connection(&self, id: ConnectionId) -> (found: Option<usize>)
        requires
            self@.wf(),
        ensures
            found.is_some() == self@.has_connection(id),
            found matches Some(i) ==> i == self@.connection_index(id) && i
                < self@.connections.len() && self@.connections[i as int].id == id,
    {
        let mut i: usize = 0;
        while i < self.connections.len()
            invariant
                i <= self.connections.len(),
                self@.wf(),
                forall|k: int| 0 <= k < i ==> (#[trigger] self@.connections[k]).id != id,
            decreases self.connections.len() - i,
        {
            if self.connections[i].id == id {
                proof {
                    self@.lemma_connection_index(i as int);
                }
                return Some(i);
            }
            i = i + 1;
        }
        None
    }

    /// Whether some connection leads from `from` to `to`.
    pub fn has_link(&self, from: ShapeId, to: ShapeId) -> (linked: bool)
        ensures
            linked == self@.has_link(from, to),
    {
        let mut i: usize = 0;
        while i < self.connections.len()
            invariant
                i <= self.connections.len(),
                forall|k: int|
                    0 <= k < i ==> !((#[trigger] self@.connections[k]).from == from
                        && self@.connections[k].to == to),
            decreases self.connections.len() - i,
        {
            if self.connections[i].from == from && self.connections[i].to == to {
                assert(self@.connections[i as int].from == from);
                return true;
            }
            i = i + 1;
        }
        false
    }

    /// Adds a shape without label at `center` and returns its identifier.
    /// Nothing is added, and `None` returned, where `center` lies off the
    /// canvas or no identifier is left.
    pub fn add_shape(&mut self, center: Point) -> (id: Option<ShapeId>)
        requires
            old(self)@.wf(),
        ensures
            final(self)@ == old(self)@.add_shape(center),
            final(self)@.wf(),
            id == if old(self)@.can_add_shape(center) {
                Some(old(self)@.next_shape_id)
            } else {
                None
            },
    {
        if !center.is_on_canvas() || self.next_shape_id == u64::MAX {
            return None;
        }
        let id: ShapeId = self.next_shape_id;
        self.shapes.push(Shape { id, center, text: None });
        self.next_shape_id = id + 1;
        proof {
            assert(self@.shapes =~= old(self)@.add_shape(center).shapes);
            old(self)@.lemma_add_shape_wf(center);
        }
        Some(id)
    }

    /// Removes the shape `id` and every connection that leaves it or
    /// arrives at it. Returns whether there was such a shape; where there
    /// was none the scene stays as it is.
    pub fn remove_shape(&mut self, id: ShapeId) -> (removed: bool)
        requires
            old(self)@.wf(),
        ensures
            final(self)@ == old(self)@.remove_shape(id),
            final(self)@.wf(),
            removed == old(self)@.has_shape(id),
    {
        let found = self.find_shape(id);
        match found {
            None => false,
            Some(i) => {
                self.shapes.remove(i);
                let mut kept: Vec<Connection> = Vec::new();
                let mut k: usize = 0;
                while k < self.connections.len()
                    invariant
                        k <= self.connections.len(),
                        kept@ == self.connections@.take(k as int).filter(spares(id)),
                    decreases self.connections.len() - k,
                {
                    let c = self.connections[k];
                    proof {
                        reveal(Seq::filter);
                        assert(self.connections@.take(k + 1).drop_last()
                            =~= self.connections@.take(k as int));
                    }
                    if c.from != id && c.to != id {
                        kept.push(c);
                    }
                    k = k + 1;
                }
                proof {
                    assert(self.connections@.take(k as int) =~= self.connections@);
                }
                self.connections = kept;
                proof {
                    assert(self@.shapes =~= old(self)@.remove_shape(id).shapes);
                    old(self)@.lemma_remove_shape_wf(id);
                }
                true
            },
        }
    }

    /// Moves the shape `id` to `center`. The scene stays as it is where it
    /// has no such shape or `center` lies off the canvas.
    pub fn update_shape_center(&mut self, id: ShapeId, center: Point)
        requires
            old(self)@.wf(),
        ensures
            final(self)@ == old(self)@.set_center(id, center),
            final(self)@.wf(),
    {
        if !center.is_on_canvas() {
            return ;
        }
        let found = self.find_shape(id);
        if let Some(i) = found {
            self.shapes[i].center = center;
            proof {
                assert(self@.shapes =~= old(self)@.set_center(id, center).shapes);
                old(self)@.lemma_set_center_wf(id, center);
            }
        }
    }

    /// Labels the shape `id` with `text`; an empty text takes the label
    /// away. The scene stays as it is where it has no such shape.
    pub fn set_shape_text(&mut self, id: ShapeId, text: String)
        requires
            old(self)@.wf(),
        ensures
            final(self)@ == old(self)@.set_text(id, text@),
            final(self)@.wf(),
    {
        let found = self.find_shape(id);
        if let Some(i) = found {
            let label: Option<String> = if text.as_str().is_empty() {
                None
            } else {
                Some(text)
            };
            self.shapes[i].text = label;
            proof {
                assert(self@.shapes =~= old(self)@.set_text(id, text@).shapes);
                old(self)@.lemma_set_text_wf(id, text@);
            }
        }
    }

    /// Adds a connection from `from` to `to` and returns its identifier.
    /// Nothing is added, and `None` returned, where the two are the same
    /// shape, where one of them is no shape of the scene, where such a
    /// connection exists already, or where no identifier is left.
    pub fn add_connection(&mut self, from: ShapeId, to: ShapeId) -> (id: Option<ConnectionId>)
        requires
            old(self)@.wf(),
        ensures
            final(self)@ == old(self)@.add_connection(from, to),
            final(self)@.wf(),
            id == if old(self)@.can_add_connection(from, to) {
                Some(old(self)@.next_connection_id)
            } else {
                None
            },
    {
        if from == to || self.next_connection_id == u64::MAX {
            return None;
        }
        if self.find_shape(from).is_none() || self.find_shape(to).is_none() {
            return None;
        }
        if self.has_link(from, to) {
            return None;
        }
        let id: ConnectionId = self.next_connection_id;
        self.connections.push(Connection { id, from, to });
        self.next_connection_id = id + 1;
        proof {
            old(self)@.lemma_add_connection_wf(from, to);
        }
        Some(id)
    }

    /// Removes the connection `id`. Returns whether there was such a
    /// connection; where there was none the scene stays as it is.
    pub fn remove_connection(&mut self, id: ConnectionId) -> (removed: bool)
        requires
            old(self)@.wf(),
        ensures
            final(self)@ == old(self)@.remove_connection(id),
            final(self)@.wf(),
            removed == old(self)@.has_connection(id),
    {
        let found = self.find_connection(id);
        match found {
            None => false,
            Some(i) => {
                self.connections.remove(i);
                proof {
                    old(self)@.lemma_remove_connection_wf(id);
                }
                true
            },
        }
    }
}

} // verus!
