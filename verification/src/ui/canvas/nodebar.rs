//! The node bar: the palette from which components are dragged into the
//! graph, and the edit buffers behind it.

use crate::multibody::connection::ComponentKind;
use crate::scalar::Point;
use crate::ui::canvas::graph::{fresh_id, is_random_id};
use crate::ui::dummies::{
    DummyBase, DummyBaseView, DummyBody, DummyBodyView, DummyComponent, DummyComponentView,
    DummyRevolute, DummyRevoluteView,
};
use crate::ui::mouse::{MouseButton, MouseButtonReleaseEvents};
use std::collections::HashMap;
use vstd::prelude::*;

verus! {

broadcast use vstd::std_specs::hash::group_hash_axioms;

/// What the node bar asks of the interface around it.
#[derive(Debug, Clone, Copy, PartialEq, Eq, Structural)]
pub enum NodebarMessage {
    NewComponent(u128),
}

/// A node of the palette: the edit buffer that it stands for, the place to
/// which it returns when it is dropped, and its label.
#[derive(Debug)]
pub struct NodebarNode {
    pub component_id: u128,
    pub home: Point,
    pub label: String,
}

pub struct NodebarNodeView {
    pub component_id: u128,
    pub home: Point,
    pub label: Seq<char>,
}

impl View for NodebarNode {
    type V = NodebarNodeView;

    open spec fn view(&self) -> NodebarNodeView {
        NodebarNodeView { component_id: self.component_id, home: self.home, label: self.label@ }
    }
}

impl NodebarNode {
    pub fn new(component_id: u128, home: Point, label: String) -> (n: Self)
        ensures
            n@ == (NodebarNodeView { component_id, home, label: label@ }),
    {
        Self { component_id, home, label }
    }
}

/// The ids of the three edit buffers of the palette.
#[derive(Debug, Clone, Copy)]
pub struct NodebarMap {
    pub base: u128,
    pub body: u128,
    pub revolute: u128,
}

/// The node bar.
#[derive(Debug)]
pub struct Nodebar {
    pub components: HashMap<u128, DummyComponent>,
    pub left_clicked_node: Option<u128>,
    pub map: NodebarMap,
    pub nodes: HashMap<u128, NodebarNode>,
}

/// The edit buffers of a node bar as mathematics sees them.
pub open spec fn dummy_map(m: Map<u128, DummyComponent>) -> Map<u128, DummyComponentView> {
    Map::new(|k: u128| m.contains_key(k), |k: u128| m[k]@)
}

/// The nodes of a node bar as mathematics sees them.
pub open spec fn palette_map(m: Map<u128, NodebarNode>) -> Map<u128, NodebarNodeView> {
    Map::new(|k: u128| m.contains_key(k), |k: u128| m[k]@)
}

/// The state of a node bar.
pub struct NodebarView {
    pub components: Map<u128, DummyComponentView>,
    pub left_clicked_node: Option<u128>,
    pub map: NodebarMap,
    pub nodes: Map<u128, NodebarNodeView>,
}

impl View for Nodebar {
    type V = NodebarView;

    open spec fn view(&self) -> NodebarView {
        NodebarView {
            components: dummy_map(self.components@),
            left_clicked_node: self.left_clicked_node,
            map: self.map,
            nodes: palette_map(self.nodes@),
        }
    }
}

impl NodebarView {
    /// The node bar with one empty edit buffer of each kind under the ids
    /// of `map`, and no node yet.
    pub open spec fn with_buffers(map: NodebarMap) -> NodebarView {
        NodebarView {
            components: Map::<u128, DummyComponentView>::empty().insert(
                map.base,
                DummyComponentView::Base(DummyBaseView { id: map.base, name: Seq::empty() }),
            ).insert(map.body, DummyComponentView::Body(DummyBodyView::empty(map.body))).insert(
                map.revolute,
                DummyComponentView::Revolute(DummyRevoluteView::empty(map.revolute)),
            ),
            left_clicked_node: None,
            map,
            nodes: Map::empty(),
        }
    }

    /// The node `hit`, where it is a node of the palette.
    pub open spec fn node_under(self, hit: Option<u128>) -> Option<u128> {
        match hit {
            Some(n) => if self.nodes.contains_key(n) {
                Some(n)
            } else {
                None
            },
            None => None,
        }
    }

    /// The node bar after a button went down over the node `hit`, or over
    /// none. Only the left button picks a node of the palette.
    pub open spec fn clicked(self, hit: Option<u128>, button: MouseButton) -> NodebarView {
        match button {
            MouseButton::Left => NodebarView { left_clicked_node: self.node_under(hit), ..self },
            _ => self,
        }
    }

    /// The node that the left button holds, where it is a node of the
    /// palette.
    pub open spec fn held(self) -> Option<u128> {
        self.node_under(self.left_clicked_node)
    }

    /// What the node bar asks for when the left button is released: a new
    /// component of the kind of the node that was held and dragged.
    pub open spec fn release_message(self, event: MouseButtonReleaseEvents) -> Option<
        NodebarMessage,
    > {
        match self.held() {
            Some(n) => if event is Held && self.components.contains_key(
                self.nodes[n].component_id,
            ) {
                Some(NodebarMessage::NewComponent(self.nodes[n].component_id))
            } else {
                None
            },
            None => None,
        }
    }

    /// The node that returns to its home when the left button is released:
    /// the one that was held and dragged.
    pub open spec fn release_home(self, event: MouseButtonReleaseEvents) -> Option<u128> {
        if event is Held {
            self.held()
        } else {
            None
        }
    }

    /// The node bar after the left button was released.
    pub open spec fn released(self) -> NodebarView {
        NodebarView { left_clicked_node: None, ..self }
    }

    /// The kind of the edit buffer behind the node `n`.
    pub open spec fn kind_of(self, n: u128) -> Option<ComponentKind> {
        if self.nodes.contains_key(n) && self.components.contains_key(self.nodes[n].component_id) {
            Some(
                match self.components[self.nodes[n].component_id] {
                    DummyComponentView::Base(_) => ComponentKind::Base,
                    DummyComponentView::Body(_) => ComponentKind::Body,
                    DummyComponentView::Revolute(_) => ComponentKind::Revolute,
                },
            )
        } else {
            None
        }
    }
}

/// What the node bar answers to a release of the left button.
#[derive(Debug, Clone, Copy)]
pub struct NodebarRelease {
    /// What the node bar asks for.
    pub message: Option<NodebarMessage>,
    /// The node that is to return to its home.
    pub home: Option<u128>,
}

impl Nodebar {
    /// A node bar with one empty edit buffer of each kind under the ids of
    /// `map`, and no node yet.
    pub fn new(map: NodebarMap) -> (bar: Self)
        ensures
            bar@ == NodebarView::with_buffers(map),
    {
        let mut components: HashMap<u128, DummyComponent> = HashMap::new();
        components.insert(map.base, DummyComponent::Base(DummyBase::new(map.base)));
        components.insert(map.body, DummyComponent::Body(DummyBody::new(map.body)));
        components.insert(map.revolute, DummyComponent::Revolute(DummyRevolute::new(map.revolute)));
        let bar = Self { components, left_clicked_node: None, map, nodes: HashMap::new() };
        proof {
            let post = NodebarView::with_buffers(map);
            assert(bar@.components =~= post.components);
            assert(bar@.nodes =~= post.nodes);
        }
        bar
    }

    /// Puts a node into the palette under the id `node_id`.
    pub fn add_node(&mut self, node_id: u128, node: NodebarNode)
        ensures
            final(self)@ == (NodebarView {
                nodes: old(self)@.nodes.insert(node_id, node@),
                ..old(self)@
            }),
    {
        self.nodes.insert(node_id, node);
        assert(self@.nodes =~= old(self)@.nodes.insert(node_id, node@));
    }

    /// A button went down with the cursor over the node `hit` of the
    /// palette, or over none.
    pub fn get_clicked_node(&mut self, hit: Option<u128>, mouse_button: &MouseButton)
        ensures
            final(self)@ == old(self)@.clicked(hit, *mouse_button),
    {
        match mouse_button {
            MouseButton::Left => {
                self.left_clicked_node = match hit {
                    Some(n) => if self.nodes.contains_key(&n) {
                        Some(n)
                    } else {
                        None
                    },
                    None => None,
                };
            },
            _ => {},
        }
    }

    /// The node that is dragged when the cursor has moved to `position` on
    /// the surface, and where it is dragged to.
    pub fn cursor_moved(&self, position: Option<Point>) -> (drag: Option<(u128, Point)>)
        ensures
            drag == (match (self@.held(), position) {
                (Some(n), Some(p)) => Some((n, p)),
                _ => None,
            }),
    {
        match (self.left_clicked_node, position) {
            (Some(n), Some(p)) => if self.nodes.contains_key(&n) {
                Some((n, p))
            } else {
                None
            },
            _ => None,
        }
    }

    /// The left button was released, which amounts to `release_event`.
    pub fn left_button_released(&mut self, release_event: &MouseButtonReleaseEvents) -> (release:
        NodebarRelease)
        ensures
            final(self)@ == old(self)@.released(),
            release.message == old(self)@.release_message(*release_event),
            release.home == old(self)@.release_home(*release_event),
    {
        let mut message = None;
        let mut home = None;
        match self.left_clicked_node {
            Some(n) => {
                match self.nodes.get(&n) {
                    Some(node) => {
                        match release_event {
                            MouseButtonReleaseEvents::Held => {
                                if self.components.contains_key(&node.component_id) {
                                    message = Some(NodebarMessage::NewComponent(node.component_id));
                                }
                                home = Some(n);
                            },
                            _ => {},
                        }
                    },
                    None => {},
                }
            },
            None => {},
        }
        self.left_clicked_node = None;
        NodebarRelease { message, home }
    }

    /// The kind of the edit buffer behind the node `n` of the palette.
    pub fn kind_of(&self, n: u128) -> (kind: Option<ComponentKind>)
        ensures
            kind == self@.kind_of(n),
    {
        match self.nodes.get(&n) {
            Some(node) => match self.components.get(&node.component_id) {
                Some(DummyComponent::Base(_)) => Some(ComponentKind::Base),
                Some(DummyComponent::Body(_)) => Some(ComponentKind::Body),
                Some(DummyComponent::Revolute(_)) => Some(ComponentKind::Revolute),
                None => None,
            },
            None => None,
        }
    }
}

impl Default for Nodebar {
    /// A node bar with one empty edit buffer of each kind, each under a
    /// random id.
    fn default() -> (bar: Self)
        ensures
            bar@ == NodebarView::with_buffers(bar@.map),
            is_random_id(bar@.map.base),
            is_random_id(bar@.map.body),
            is_random_id(bar@.map.revolute),
    {
        let map = NodebarMap { base: fresh_id(), body: fresh_id(), revolute: fresh_id() };
        Nodebar::new(map)
    }
}

} // verus!
