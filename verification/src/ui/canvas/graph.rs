//! The graph: the registry of components, the nodes that stand for them on
//! the drawing surface, the edges between them, and the operations that
//! edit all three together.

use crate::multibody::connection::{is_valid, spec_is_valid};
use crate::multibody::mass_properties::MassPropertiesError;
use crate::multibody::{ComponentView, MultibodyComponent, MultibodyTrait};
use crate::scalar::Point;
use crate::ui::canvas::edge::{Edge, EdgeConnection};
use crate::ui::dummies::{DummyComponent, DummyComponentView, DummyTrait};
use crate::ui::canvas::invariants::{
    connections_legal, lemma_connected_keeps_legal, lemma_deleted_keeps_legal,
    lemma_edited_keeps_legal, lemma_with_component_keeps_legal,
};
use std::collections::HashMap;
use vstd::prelude::*;
use vstd::std_specs::iter::IteratorSpec;

verus! {

broadcast use vstd::std_specs::hash::group_hash_axioms;

/// What the graph asks of the interface around it.
#[derive(Debug, Clone, Copy, PartialEq, Eq, Structural)]
pub enum GraphMessage {
    EditComponent(u128),
}

/// Why an operation on the graph was refused.
#[derive(Debug, Clone, Copy, PartialEq, Eq, Structural)]
pub enum GraphErrors {
    /// A body has no upstream connection.
    BodyMissingFrom(u128),
    /// The walk from the base came back to a component that it was still
    /// in the middle of.
    Cycle(u128),
    /// No component has this id.
    IdNotFound(u128),
    /// No edge is legal between the kinds of these two components.
    InvalidConnection(u128, u128),
    /// A joint has no upstream connection.
    JointMissingFrom(u128),
    /// A joint has no downstream connection.
    JointMissingTo(u128),
    /// A component refused an edit.
    Multibody(MassPropertiesError),
    /// There is no base.
    NoBase,
    /// No joint is attached to the base.
    NoBaseConnections,
}

/// The node that stands for a component on the drawing surface: the
/// component, the edges that start or end at it, and where it was placed.
#[derive(Debug)]
pub struct GraphNode {
    pub component_id: u128,
    pub edges: Vec<u128>,
    pub anchor: Point,
}

pub struct GraphNodeView {
    pub component_id: u128,
    pub edges: Seq<u128>,
    pub anchor: Point,
}

/// The test that an id is not in `gone`.
pub open spec fn not_in(gone: Set<u128>) -> spec_fn(u128) -> bool {
    |e: u128| !gone.contains(e)
}

impl GraphNodeView {
    /// The node with one more edge at the end of its list.
    pub open spec fn with_edge(self, edge: u128) -> GraphNodeView {
        GraphNodeView { edges: self.edges.push(edge), ..self }
    }

    /// The node without the edges in `gone`, the others in their order.
    pub open spec fn without_edges(self, gone: Set<u128>) -> GraphNodeView {
        GraphNodeView { edges: self.edges.filter(not_in(gone)), ..self }
    }
}

impl View for GraphNode {
    type V = GraphNodeView;

    open spec fn view(&self) -> GraphNodeView {
        GraphNodeView { component_id: self.component_id, edges: self.edges@, anchor: self.anchor }
    }
}

impl Clone for GraphNode {
    fn clone(&self) -> (r: Self)
        ensures
            r@ == self@,
    {
        GraphNode {
            component_id: self.component_id,
            edges: self.edges.clone(),
            anchor: self.anchor,
        }
    }
}

impl GraphNode {
    pub fn new(component_id: u128, anchor: Point) -> (n: Self)
        ensures
            n@ == (GraphNodeView { component_id, edges: Seq::empty(), anchor }),
    {
        Self { component_id, edges: Vec::new(), anchor }
    }
}

/// The graph of a multibody model under construction.
#[derive(Debug)]
pub struct Graph {
    /// The registry: every component under its id.
    pub components: HashMap<u128, MultibodyComponent>,
    /// The edge that is being drawn, if any.
    pub current_edge: Option<u128>,
    pub edges: HashMap<u128, Edge>,
    pub is_clicked: bool,
    pub last_cursor_position: Option<Point>,
    pub left_clicked_node: Option<u128>,
    /// The display names, each under the name id of its component.
    pub names: HashMap<u128, String>,
    pub nodes: HashMap<u128, GraphNode>,
    pub right_clicked_node: Option<u128>,
    pub selected_node: Option<u128>,
}

/// The components of a registry as mathematics sees them.
pub open spec fn component_map(m: Map<u128, MultibodyComponent>) -> Map<u128, ComponentView> {
    Map::new(|k: u128| m.contains_key(k), |k: u128| m[k]@)
}

/// The nodes of a graph as mathematics sees them.
pub open spec fn node_map(m: Map<u128, GraphNode>) -> Map<u128, GraphNodeView> {
    Map::new(|k: u128| m.contains_key(k), |k: u128| m[k]@)
}

/// The names of a graph as mathematics sees them.
pub open spec fn name_map(m: Map<u128, String>) -> Map<u128, Seq<char>> {
    Map::new(|k: u128| m.contains_key(k), |k: u128| m[k]@)
}

/// The state of a graph.
pub struct GraphView {
    pub components: Map<u128, ComponentView>,
    pub current_edge: Option<u128>,
    pub edges: Map<u128, Edge>,
    pub is_clicked: bool,
    pub last_cursor_position: Option<Point>,
    pub left_clicked_node: Option<u128>,
    pub names: Map<u128, Seq<char>>,
    pub nodes: Map<u128, GraphNodeView>,
    pub right_clicked_node: Option<u128>,
    pub selected_node: Option<u128>,
}

impl View for Graph {
    type V = GraphView;

    open spec fn view(&self) -> GraphView {
        GraphView {
            components: component_map(self.components@),
            current_edge: self.current_edge,
            edges: self.edges@,
            is_clicked: self.is_clicked,
            last_cursor_position: self.last_cursor_position,
            left_clicked_node: self.left_clicked_node,
            names: name_map(self.names@),
            nodes: node_map(self.nodes@),
            right_clicked_node: self.right_clicked_node,
            selected_node: self.selected_node,
        }
    }
}

impl GraphView {
    /// The graph with nothing in it.
    pub open spec fn empty() -> GraphView {
        GraphView {
            components: Map::empty(),
            current_edge: None,
            edges: Map::empty(),
            is_clicked: false,
            last_cursor_position: None,
            left_clicked_node: None,
            names: Map::empty(),
            nodes: Map::empty(),
            right_clicked_node: None,
            selected_node: None,
        }
    }

    /// Every component is registered under its own id, and nothing
    /// precedes a base.
    pub open spec fn wf(self) -> bool {
        forall|k: u128| #[trigger]
            self.components.contains_key(k) ==> {
                &&& self.components[k].meta().component_id == k
                &&& self.components[k] is Base ==> self.components[k].meta().from_id is None
            }
    }

    /// The graph after a component was created from an edit buffer and
    /// registered, with its node at `anchor` and its name, under the three
    /// ids given. Whatever stood under one of these ids before is replaced.
    pub open spec fn with_component(
        self,
        component_id: u128,
        node_id: u128,
        name_id: u128,
        dummy: DummyComponentView,
        anchor: Point,
    ) -> GraphView {
        GraphView {
            components: self.components.insert(
                component_id,
                ComponentView::created(component_id, name_id, node_id, dummy),
            ),
            nodes: self.nodes.insert(
                node_id,
                GraphNodeView { component_id, edges: Seq::empty(), anchor },
            ),
            names: self.names.insert(name_id, dummy.name()),
            ..self
        }
    }

    /// Why the two components cannot be connected: the first of them that
    /// is not registered, or the kinds between which no edge is legal.
    pub open spec fn connection_fault(self, from_id: u128, to_id: u128) -> Option<GraphErrors> {
        if !self.components.contains_key(from_id) {
            Some(GraphErrors::IdNotFound(from_id))
        } else if !self.components.contains_key(to_id) {
            Some(GraphErrors::IdNotFound(to_id))
        } else if !spec_is_valid(self.components[from_id].kind(), self.components[to_id].kind()) {
            Some(GraphErrors::InvalidConnection(from_id, to_id))
        } else {
            None
        }
    }

    /// The graph without the edge that was being drawn.
    pub open spec fn without_pending_edge(self) -> GraphView {
        match self.current_edge {
            Some(e) => GraphView { edges: self.edges.remove(e), current_edge: None, ..self },
            None => self,
        }
    }

    /// The nodes after the edge that was being drawn was attached to the
    /// node of the component `to_id`.
    pub open spec fn nodes_with_pending_edge_at(self, to_id: u128) -> Map<u128, GraphNodeView> {
        let node_id = self.components[to_id].meta().node_id;
        match self.current_edge {
            Some(e) => if self.edges.contains_key(e) && self.nodes.contains_key(node_id) {
                self.nodes.insert(node_id, self.nodes[node_id].with_edge(e))
            } else {
                self.nodes
            },
            None => self.nodes,
        }
    }

    /// The edges after the edge that was being drawn was made to end at the
    /// component `to_id`.
    pub open spec fn edges_with_pending_edge_at(self, to_id: u128) -> Map<u128, Edge> {
        match self.current_edge {
            Some(e) => if self.edges.contains_key(e) {
                self.edges.insert(e, Edge { to: EdgeConnection::Node(to_id), ..self.edges[e] })
            } else {
                self.edges
            },
            None => self.edges,
        }
    }

    /// The graph after `from_id` was connected to `to_id`: each side records
    /// the other, and the edge that was being drawn, if there is one, ends
    /// at `to_id` and is listed at its node.
    pub open spec fn connected(self, from_id: u128, to_id: u128) -> GraphView {
        let upstream = self.components.insert(
            from_id,
            self.components[from_id].connected_to(to_id),
        );
        GraphView {
            components: upstream.insert(to_id, upstream[to_id].connected_from(from_id)),
            nodes: self.nodes_with_pending_edge_at(to_id),
            edges: self.edges_with_pending_edge_at(to_id),
            current_edge: None,
            ..self
        }
    }

    /// The edges of which either end is the component `id`.
    pub open spec fn touching(self, id: u128) -> Set<u128> {
        Set::new(|e: u128| self.edges.contains_key(e) && self.edges[e].spec_touches(id))
    }

    /// The graph after the component `id` was deleted: the component and
    /// its node are gone, so is every edge of which it was an end, from the
    /// edges and from the list of every node, and no component that is left
    /// is connected to it any more. Where no such component is registered
    /// nothing changes.
    pub open spec fn deleted(self, id: u128) -> GraphView {
        if !self.components.contains_key(id) {
            self
        } else {
            let gone = self.touching(id);
            let node_id = self.components[id].meta().node_id;
            GraphView {
                components: Map::new(
                    |k: u128| self.components.contains_key(k) && k != id,
                    |k: u128| self.components[k].detached_from(id),
                ),
                nodes: Map::new(
                    |n: u128| self.nodes.contains_key(n) && n != node_id,
                    |n: u128| self.nodes[n].without_edges(gone),
                ),
                edges: self.edges.remove_keys(gone),
                current_edge: match self.current_edge {
                    Some(e) => if gone.contains(e) {
                        None
                    } else {
                        Some(e)
                    },
                    None => None,
                },
                ..self
            }
        }
    }

    /// The graph after the component `component_id` was asked to take over
    /// an edit buffer: where it is registered and not refused, the
    /// component has the buffer's numbers and its name is the buffer's.
    pub open spec fn edited(self, dummy: DummyComponentView, component_id: u128) -> GraphView {
        if self.components.contains_key(component_id) && self.components[component_id].inherit_fault(
            dummy,
        ) is None {
            GraphView {
                components: self.components.insert(
                    component_id,
                    self.components[component_id].inherited(dummy),
                ),
                names: self.names.insert(
                    self.components[component_id].meta().name_id,
                    dummy.name(),
                ),
                ..self
            }
        } else {
            self
        }
    }

    /// Why the component `component_id` cannot take over an edit buffer.
    pub open spec fn edit_fault(self, dummy: DummyComponentView, component_id: u128) -> Option<
        GraphErrors,
    > {
        if !self.components.contains_key(component_id) {
            Some(GraphErrors::IdNotFound(component_id))
        } else {
            match self.components[component_id].inherit_fault(dummy) {
                Some(e) => Some(GraphErrors::Multibody(e)),
                None => None,
            }
        }
    }
}

/// After a component was deleted it is gone from the registry, no edge of
/// which it was an end is left, in the edges or in the list of any node,
/// and no component that is left records a connection to it.
pub proof fn lemma_deleted_is_gone(g: GraphView, id: u128)
    requires
        g.components.contains_key(id),
    ensures
        ({
            let after = g.deleted(id);
            &&& !after.components.contains_key(id)
            &&& forall|e: u128| #[trigger]
                after.edges.contains_key(e) ==> g.edges.contains_key(e) && after.edges[e]
                    == g.edges[e] && !after.edges[e].spec_touches(id)
            &&& forall|e: u128|
                g.edges.contains_key(e) && (#[trigger] g.edges[e]).spec_touches(id)
                    ==> !after.edges.contains_key(e)
            &&& forall|n: u128, i: int|
                after.nodes.contains_key(n) && 0 <= i < after.nodes[n].edges.len()
                    ==> !g.touching(id).contains(#[trigger] after.nodes[n].edges[i])
            &&& forall|k: u128| #[trigger]
                after.components.contains_key(k) ==> after.components[k].meta().from_id != Some(
                    id,
                ) && !after.components[k].meta().to_id.contains(id)
        }),
{
    let after = g.deleted(id);
    let gone = g.touching(id);
    assert forall|n: u128, i: int|
        after.nodes.contains_key(n) && 0 <= i < after.nodes[n].edges.len() implies !gone.contains(
        #[trigger] after.nodes[n].edges[i],
    ) by {
        g.nodes[n].edges.lemma_filter_pred(not_in(gone), i);
    }
    assert forall|k: u128| #[trigger] after.components.contains_key(k) implies after.components[k].meta().from_id
        != Some(id) && !after.components[k].meta().to_id.contains(id) by {
        let kept = g.components[k].meta().to_id.filter(crate::multibody::other_than(id));
        assert(after.components[k].meta().to_id == kept);
        if kept.contains(id) {
            let at = choose|i: int| 0 <= i < kept.len() && kept[i] == id;
            g.components[k].meta().to_id.lemma_filter_pred(crate::multibody::other_than(id), at);
        }
    }
}

/// An id as `uuid` makes them at random: 128 bits of which six are fixed,
/// four that say "version 4" and two that say "RFC variant".
pub open spec fn is_random_id(id: u128) -> bool {
    id & 0xF000_C000_0000_0000_0000u128 == 0x4000_8000_0000_0000_0000u128
}

/// Draws a fresh id from `uuid::Uuid::new_v4` and hands it out as the 128
/// bits that `Uuid::as_u128` gives. Trusted: the id is random, and all that
/// is claimed of it is what `new_v4` sets in every id, the version and the
/// variant bits.
#[verifier::external_body]
pub(crate) fn fresh_id() -> (id: u128)
    ensures
        is_random_id(id),
{
    uuid::Uuid::new_v4().as_u128()
}

/// The two graphs agree in everything but their nodes.
spec fn same_but_nodes(a: Graph, b: Graph) -> bool {
    &&& a.components == b.components
    &&& a.current_edge == b.current_edge
    &&& a.edges == b.edges
    &&& a.is_clicked == b.is_clicked
    &&& a.last_cursor_position == b.last_cursor_position
    &&& a.left_clicked_node == b.left_clicked_node
    &&& a.names == b.names
    &&& a.right_clicked_node == b.right_clicked_node
    &&& a.selected_node == b.selected_node
}

/// The two graphs agree in everything but their edges.
spec fn same_but_edges(a: Graph, b: Graph) -> bool {
    &&& a.components == b.components
    &&& a.current_edge == b.current_edge
    &&& a.is_clicked == b.is_clicked
    &&& a.last_cursor_position == b.last_cursor_position
    &&& a.left_clicked_node == b.left_clicked_node
    &&& a.names == b.names
    &&& a.nodes == b.nodes
    &&& a.right_clicked_node == b.right_clicked_node
    &&& a.selected_node == b.selected_node
}

/// The two graphs agree in everything but their components.
spec fn same_but_components(a: Graph, b: Graph) -> bool {
    &&& a.current_edge == b.current_edge
    &&& a.edges == b.edges
    &&& a.is_clicked == b.is_clicked
    &&& a.last_cursor_position == b.last_cursor_position
    &&& a.left_clicked_node == b.left_clicked_node
    &&& a.names == b.names
    &&& a.nodes == b.nodes
    &&& a.right_clicked_node == b.right_clicked_node
    &&& a.selected_node == b.selected_node
}

/// The keys of a map, each once, in no particular order.
pub fn keys_of<V>(m: &HashMap<u128, V>) -> (keys: Vec<u128>)
    ensures
        keys@.to_set() == m@.dom(),
        keys@.no_duplicates(),
{
    let mut keys: Vec<u128> = Vec::new();
    let iter = m.keys();
    let ghost all = iter.remaining().unref();
    proof {
        vstd::std_specs::hash::axiom_spec_keys_iter(m);
    }
    for k in it: iter
        invariant
            keys@.len() == it.index(),
            it.seq().unref() == all,
            forall|i: int| 0 <= i < keys@.len() ==> keys@[i] == all[i],
    {
        keys.push(*k);
    }
    assert(keys@ =~= all);
    keys
}

impl Default for Graph {
    fn default() -> (g: Self)
        ensures
            g@ == GraphView::empty(),
            g@.wf(),
            connections_legal(g@.components),
    {
        let g = Self {
            components: HashMap::new(),
            current_edge: None,
            edges: HashMap::new(),
            is_clicked: false,
            last_cursor_position: None,
            left_clicked_node: None,
            names: HashMap::new(),
            nodes: HashMap::new(),
            right_clicked_node: None,
            selected_node: None,
        };
        assert(g@.components =~= Map::empty());
        assert(g@.names =~= Map::empty());
        assert(g@.nodes =~= Map::empty());
        g
    }
}

impl Graph {
    /// Creates a component from an edit buffer and registers it, with its
    /// node at `anchor` and its name, under the three ids given.
    pub fn insert_component(
        &mut self,
        component_id: u128,
        node_id: u128,
        name_id: u128,
        dummy: &DummyComponent,
        anchor: Point,
    )
        ensures
            final(self)@ == old(self)@.with_component(
                component_id,
                node_id,
                name_id,
                dummy@,
                anchor,
            ),
            old(self)@.wf() ==> final(self)@.wf(),
            connections_legal(old(self)@.components) && !old(self)@.components.contains_key(
                component_id,
            ) ==> connections_legal(final(self)@.components),
    {
        proof {
            if connections_legal(old(self)@.components) && !old(self)@.components.contains_key(
                component_id,
            ) {
                lemma_with_component_keeps_legal(
                    old(self)@,
                    component_id,
                    node_id,
                    name_id,
                    dummy@,
                    anchor,
                );
            }
        }
        let component = MultibodyComponent::from_dummy(component_id, name_id, node_id, dummy);
        let name = dummy.get_name().to_owned();
        self.components.insert(component_id, component);
        self.nodes.insert(node_id, GraphNode::new(component_id, anchor));
        self.names.insert(name_id, name);
        proof {
            let post = old(self)@.with_component(component_id, node_id, name_id, dummy@, anchor);
            assert(self@.components =~= post.components);
            assert(self@.nodes =~= post.nodes);
            assert(self@.names =~= post.names);
        }
    }

    /// Creates a component from an edit buffer under fresh ids, with its
    /// node at `anchor`, and returns the component's id.
    ///
    /// The ids are drawn at random, so all that is known of the outcome is
    /// that it is `with_component` under some three random ids.
    pub fn add_component(&mut self, dummy: &DummyComponent, anchor: Point) -> (component_id: u128)
        ensures
            is_random_id(component_id),
            exists|node_id: u128, name_id: u128|
                is_random_id(node_id) && is_random_id(name_id) && final(self)@ == old(
                    self,
                )@.with_component(component_id, node_id, name_id, dummy@, anchor),
            old(self)@.wf() ==> final(self)@.wf(),
            connections_legal(old(self)@.components) && !old(self)@.components.contains_key(
                component_id,
            ) ==> connections_legal(final(self)@.components),
    {
        let component_id = fresh_id();
        let node_id = fresh_id();
        let name_id = fresh_id();
        self.insert_component(component_id, node_id, name_id, dummy, anchor);
        component_id
    }

    /// Saves the component of an edit buffer at the place where the cursor
    /// was last seen. Where the cursor was never seen there is no place for
    /// it, and nothing happens. Never fails.
    pub fn save_component(&mut self, dummy: &DummyComponent) -> (r: Result<(), GraphErrors>)
        ensures
            r is Ok,
            match old(self)@.last_cursor_position {
                Some(anchor) => exists|component_id: u128, node_id: u128, name_id: u128|
                    is_random_id(component_id) && is_random_id(node_id) && is_random_id(name_id)
                        && final(self)@ == old(self)@.with_component(
                        component_id,
                        node_id,
                        name_id,
                        dummy@,
                        anchor,
                    ),
                None => final(self)@ == old(self)@,
            },
            old(self)@.wf() ==> final(self)@.wf(),
    {
        match self.last_cursor_position {
            Some(anchor) => {
                let _ = self.add_component(dummy, anchor);
            },
            None => {},
        }
        Ok(())
    }

    /// Removes the edge that is being drawn, if there is one. The
    /// components and the nodes stay as they are.
    pub fn disconnect_pending_edge(&mut self)
        ensures
            final(self)@ == old(self)@.without_pending_edge(),
            old(self)@.wf() ==> final(self)@.wf(),
            connections_legal(old(self)@.components) ==> connections_legal(
                final(self)@.components,
            ),
    {
        match self.current_edge {
            Some(e) => {
                self.edges.remove(&e);
                self.current_edge = None;
            },
            None => {},
        }
    }

    /// Connects the component `from_id` to the component `to_id`.
    ///
    /// Succeeds exactly where both are registered and an edge from the kind
    /// of the one to the kind of the other is legal. Then each side records
    /// the other, and the edge that was being drawn, if any, ends at
    /// `to_id`. Otherwise the edge that was being drawn is discarded and
    /// nothing else changes.
    pub fn connect(&mut self, from_id: u128, to_id: u128) -> (r: Result<(), GraphErrors>)
        ensures
            match old(self)@.connection_fault(from_id, to_id) {
                None => r is Ok && final(self)@ == old(self)@.connected(from_id, to_id),
                Some(e) => r == Err::<(), _>(e) && final(self)@ == old(
                    self,
                )@.without_pending_edge(),
            },
            old(self)@.wf() ==> final(self)@.wf(),
            connections_legal(old(self)@.components) ==> connections_legal(
                final(self)@.components,
            ),
    {
        proof {
            if connections_legal(old(self)@.components) && old(self)@.connection_fault(
                from_id,
                to_id,
            ) is None {
                lemma_connected_keeps_legal(old(self)@, from_id, to_id);
            }
        }
        let from_kind = match self.components.get(&from_id) {
            Some(c) => c.component_kind(),
            None => {
                self.disconnect_pending_edge();
                return Err(GraphErrors::IdNotFound(from_id));
            },
        };
        let (to_kind, to_node_id) = match self.components.get(&to_id) {
            Some(c) => (c.component_kind(), c.get_node_id()),
            None => {
                self.disconnect_pending_edge();
                return Err(GraphErrors::IdNotFound(to_id));
            },
        };
        if !is_valid(from_kind, to_kind) {
            self.disconnect_pending_edge();
            return Err(GraphErrors::InvalidConnection(from_id, to_id));
        }
        let ghost pre = self@;
        match self.components.remove(&from_id) {
            Some(mut c) => {
                c.connect_to(to_id);
                self.components.insert(from_id, c);
            },
            None => {},
        }
        let ghost upstream = self@.components;
        assert(upstream =~= pre.components.insert(
            from_id,
            pre.components[from_id].connected_to(to_id),
        ));
        match self.components.remove(&to_id) {
            Some(mut c) => {
                c.connect_from(from_id);
                self.components.insert(to_id, c);
            },
            None => {},
        }
        assert(self@.components =~= upstream.insert(
            to_id,
            upstream[to_id].connected_from(from_id),
        ));
        match self.current_edge {
            Some(e) => {
                match self.edges.remove(&e) {
                    Some(mut edge) => {
                        edge.to = EdgeConnection::Node(to_id);
                        self.edges.insert(e, edge);
                        match self.nodes.remove(&to_node_id) {
                            Some(mut node) => {
                                node.edges.push(e);
                                self.nodes.insert(to_node_id, node);
                            },
                            None => {},
                        }
                    },
                    None => {},
                }
            },
            None => {},
        }
        self.current_edge = None;
        proof {
            let post = pre.connected(from_id, to_id);
            assert(self@.edges =~= post.edges);
            assert(self@.nodes =~= post.nodes);
        }
        Ok(())
    }

    /// Lets the component `component_id` take over an edit buffer, and
    /// gives it the buffer's name.
    ///
    /// Fails with `IdNotFound` where no such component is registered, and
    /// with the component's own reason where it refuses the buffer; then
    /// nothing changes.
    pub fn edit_component(&mut self, dummy: &DummyComponent, component_id: u128) -> (r: Result<
        (),
        GraphErrors,
    >)
        ensures
            match old(self)@.edit_fault(dummy@, component_id) {
                None => r is Ok,
                Some(e) => r == Err::<(), _>(e),
            },
            final(self)@ == old(self)@.edited(dummy@, component_id),
            old(self)@.wf() ==> final(self)@.wf(),
            connections_legal(old(self)@.components) ==> connections_legal(
                final(self)@.components,
            ),
    {
        proof {
            if connections_legal(old(self)@.components) {
                lemma_edited_keeps_legal(old(self)@, dummy@, component_id);
            }
        }
        let ghost pre = self@;
        let mut component = match self.components.remove(&component_id) {
            Some(c) => c,
            None => {
                assert(self@.components =~= pre.components);
                return Err(GraphErrors::IdNotFound(component_id));
            },
        };
        let name_id = component.get_name_id();
        let outcome = component.inherit_from(dummy);
        self.components.insert(component_id, component);
        match outcome {
            Ok(()) => {
                let name = dummy.get_name().to_owned();
                self.names.insert(name_id, name);
                proof {
                    let post = pre.edited(dummy@, component_id);
                    assert(self@.components =~= post.components);
                    assert(self@.names =~= post.names);
                }
                Ok(())
            },
            Err(e) => {
                assert(self@.components =~= pre.components);
                Err(GraphErrors::Multibody(e))
            },
        }
    }

    /// The edges of `list` of which the component `id` is no end, in their
    /// order.
    fn surviving_edges(&self, list: &Vec<u128>, id: u128) -> (kept: Vec<u128>)
        ensures
            kept@ == list@.filter(not_in(self@.touching(id))),
    {
        let ghost keep = not_in(self@.touching(id));
        let mut kept: Vec<u128> = Vec::new();
        let mut i: usize = 0;
        while i < list.len()
            invariant
                i <= list.len(),
                keep == not_in(self@.touching(id)),
                kept@ == list@.take(i as int).filter(keep),
            decreases list.len() - i,
        {
            let e = list[i];
            proof {
                let next = list@.take(i + 1);
                assert(next.drop_last() =~= list@.take(i as int));
                assert(next.last() == e);
                reveal(Seq::filter);
            }
            let gone = match self.edges.get(&e) {
                Some(edge) => edge.touches(id),
                None => false,
            };
            if !gone {
                kept.push(e);
            }
            i += 1;
        }
        proof {
            assert(list@.take(i as int) =~= list@);
        }
        kept
    }

    /// Deletes the component `component_id`: the component and its node,
    /// every edge of which it is an end, and every connection to it that
    /// another component records. Where no such component is registered
    /// nothing changes.
    pub fn delete(&mut self, component_id: u128)
        ensures
            final(self)@ == old(self)@.deleted(component_id),
            old(self)@.wf() ==> final(self)@.wf(),
            connections_legal(old(self)@.components) ==> connections_legal(
                final(self)@.components,
            ),
    {
        proof {
            if connections_legal(old(self)@.components) {
                lemma_deleted_keeps_legal(old(self)@, component_id);
            }
        }
        let ghost pre = self@;
        let component = match self.components.remove(&component_id) {
            Some(c) => c,
            None => {
                assert(self@.components =~= pre.components);
                return ;
            },
        };
        let ghost gone = pre.touching(component_id);
        let node_id = component.get_node_id();
        self.nodes.remove(&node_id);
        let pending_goes = match self.current_edge {
            Some(e) => match self.edges.get(&e) {
                Some(edge) => edge.touches(component_id),
                None => false,
            },
            None => false,
        };
        if pending_goes {
            self.current_edge = None;
        }

        // The nodes that are left forget the edges that will go.
        let node_keys = keys_of(&self.nodes);
        let ghost nodes_before = self.nodes@;
        let ghost first = *self;
        let mut i: usize = 0;
        while i < node_keys.len()
            invariant
                i <= node_keys.len(),
                same_but_nodes(*self, first),
                node_keys@.no_duplicates(),
                node_keys@.to_set() == nodes_before.dom(),
                self.nodes@.dom() == nodes_before.dom(),
                self.edges@ == pre.edges,
                gone == pre.touching(component_id),
                self@.touching(component_id) == gone,
                forall|j: int|
                    0 <= j < i ==> (#[trigger] self.nodes@[node_keys@[j]])@ == nodes_before[node_keys@[j]]@.without_edges(
                        gone,
                    ),
                forall|j: int|
                    i <= j < node_keys.len() ==> #[trigger] self.nodes@[node_keys@[j]]
                        == nodes_before[node_keys@[j]],
            decreases node_keys.len() - i,
        {
            let n = node_keys[i];
            assert(node_keys@.to_set().contains(node_keys@[i as int]));
            match self.nodes.remove(&n) {
                Some(node) => {
                    let kept = GraphNode {
                        component_id: node.component_id,
                        edges: self.surviving_edges(&node.edges, component_id),
                        anchor: node.anchor,
                    };
                    self.nodes.insert(n, kept);
                },
                None => {},
            }
            assert(self.nodes@.dom() =~= nodes_before.dom());
            i += 1;
        }

        // The edges go.
        let edge_keys = keys_of(&self.edges);
        let ghost second = *self;
        let mut i: usize = 0;
        while i < edge_keys.len()
            invariant
                i <= edge_keys.len(),
                same_but_edges(*self, second),
                edge_keys@.no_duplicates(),
                edge_keys@.to_set() == pre.edges.dom(),
                gone == pre.touching(component_id),
                forall|e: u128| #[trigger]
                    self.edges@.contains_key(e) <==> pre.edges.contains_key(e) && !(
                    gone.contains(e) && exists|j: int| 0 <= j < i && edge_keys@[j] == e),
                forall|e: u128| #[trigger]
                    self.edges@.contains_key(e) ==> self.edges@[e] == pre.edges[e],
            decreases edge_keys.len() - i,
        {
            let e = edge_keys[i];
            assert(edge_keys@.to_set().contains(edge_keys@[i as int]));
            let touches = match self.edges.get(&e) {
                Some(edge) => edge.touches(component_id),
                None => false,
            };
            if touches {
                self.edges.remove(&e);
            }
            i += 1;
        }

        // The components that are left forget the one that went.
        let component_keys = keys_of(&self.components);
        let ghost components_before = self.components@;
        let ghost third = *self;
        let mut i: usize = 0;
        while i < component_keys.len()
            invariant
                i <= component_keys.len(),
                same_but_components(*self, third),
                component_keys@.no_duplicates(),
                component_keys@.to_set() == components_before.dom(),
                self.components@.dom() == components_before.dom(),
                forall|j: int|
                    0 <= j < i ==> (#[trigger] self.components@[component_keys@[j]])@
                        == components_before[component_keys@[j]]@.detached_from(component_id),
                forall|j: int|
                    i <= j < component_keys.len() ==> #[trigger] self.components@[component_keys@[j]]
                        == components_before[component_keys@[j]],
            decreases component_keys.len() - i,
        {
            let k = component_keys[i];
            assert(component_keys@.to_set().contains(component_keys@[i as int]));
            match self.components.remove(&k) {
                Some(mut c) => {
                    c.detach_from(component_id);
                    self.components.insert(k, c);
                },
                None => {},
            }
            assert(self.components@.dom() =~= components_before.dom());
            i += 1;
        }

        proof {
            let post = pre.deleted(component_id);
            assert(components_before == old(self).components@.remove(component_id));
            assert forall|k: u128| self@.components.contains_key(k) implies (
            #[trigger] post.components.contains_key(k)) && self@.components[k]
                == post.components[k] by {
                assert(components_before.contains_key(k));
                assert(components_before[k] == old(self).components@[k]);
                assert(component_keys@.to_set().contains(k));
                let j = choose|j: int| 0 <= j < component_keys@.len() && component_keys@[j] == k;
                assert(self.components@[component_keys@[j]]@ == components_before[component_keys@[j]]@.detached_from(
                    component_id,
                ));
            }
            assert forall|k: u128| post.components.contains_key(k) implies self@.components.contains_key(
                k,
            ) by {
                assert(components_before.contains_key(k));
            }
            assert(self@.components =~= post.components);
            assert(nodes_before == old(self).nodes@.remove(node_id));
            assert forall|n: u128| self@.nodes.contains_key(n) implies (
            #[trigger] post.nodes.contains_key(n)) && self@.nodes[n] == post.nodes[n] by {
                assert(nodes_before.contains_key(n));
                assert(nodes_before[n] == old(self).nodes@[n]);
                assert(node_keys@.to_set().contains(n));
                let j = choose|j: int| 0 <= j < node_keys@.len() && node_keys@[j] == n;
                assert(self.nodes@[node_keys@[j]]@ == nodes_before[node_keys@[j]]@.without_edges(
                    gone,
                ));
            }
            assert forall|n: u128| post.nodes.contains_key(n) implies self@.nodes.contains_key(
                n,
            ) by {
                assert(nodes_before.contains_key(n));
            }
            assert(self@.nodes =~= post.nodes);
            assert forall|e: u128| post.edges.contains_key(e) implies self@.edges.contains_key(
                e,
            ) by {}
            assert forall|e: u128| self@.edges.contains_key(e) implies post.edges.contains_key(
                e,
            ) by {
                if gone.contains(e) {
                    assert(edge_keys@.to_set().contains(e));
                }
            }
            assert(self@.edges =~= post.edges);
        }
    }
}

} // verus!
