//! What the graph decides on pointer and key events.
//!
//! The graph sees no pixels. Whoever owns the drawing surface says where
//! the cursor is on it, if it is there at all, and which node it is over;
//! the graph answers with its next state and with what is to be moved.

use crate::scalar::Point;
use crate::ui::canvas::edge::{Edge, EdgeConnection};
use crate::ui::canvas::graph::{fresh_id, is_random_id, Graph, GraphMessage, GraphView};
use crate::ui::canvas::invariants::connections_legal;
use crate::ui::mouse::MouseButtonReleaseEvents;
use vstd::prelude::*;

verus! {

broadcast use vstd::std_specs::hash::group_hash_axioms;

/// What is to be moved on the drawing surface after the cursor has moved.
#[derive(Debug, Clone, Copy)]
pub enum GraphMotion {
    /// Nothing moves.
    Still,
    /// The node is dragged to the position.
    Node(u128, Point),
    /// Every node is shifted by the way from the first position to the
    /// second.
    Pan(Point, Point),
}

/// The answer of the graph to a move of the cursor.
#[derive(Debug, Clone, Copy)]
pub struct CursorUpdate {
    pub redraw: bool,
    pub motion: GraphMotion,
}

impl GraphView {
    /// The node `hit`, where the cursor is on the surface and `hit` is a
    /// node of the graph.
    pub open spec fn node_under(self, position: Option<Point>, hit: Option<u128>) -> Option<u128> {
        match (position, hit) {
            (Some(_), Some(n)) => if self.nodes.contains_key(n) {
                Some(n)
            } else {
                None
            },
            _ => None,
        }
    }

    /// What is to be moved when the cursor has moved to `position`: the
    /// node that the left button holds, or, where it holds none and is down
    /// on the surface, every node.
    pub open spec fn motion(self, position: Option<Point>) -> GraphMotion {
        match self.left_clicked_node {
            Some(n) => match position {
                Some(p) => if self.nodes.contains_key(n) {
                    GraphMotion::Node(n, p)
                } else {
                    GraphMotion::Still
                },
                None => GraphMotion::Still,
            },
            None => if self.is_clicked {
                match (position, self.last_cursor_position) {
                    (Some(p), Some(last)) => GraphMotion::Pan(last, p),
                    _ => GraphMotion::Still,
                }
            } else {
                GraphMotion::Still
            },
        }
    }

    /// Whether the surface is to be drawn again when the cursor has moved
    /// to `position`.
    pub open spec fn redraw(self, position: Option<Point>) -> bool {
        !(self.motion(position) is Still) || (position is Some && self.right_clicked_node is Some)
    }

    /// The graph after the cursor has moved to `position`. Where the right
    /// button holds a node, the edge that is being drawn follows the
    /// cursor; where none is being drawn yet, one starts at the node's
    /// component under the id `edge_id`.
    pub open spec fn cursor_tracked(self, position: Option<Point>, edge_id: u128) -> GraphView {
        match position {
            None => self,
            Some(p) => {
                let seen = GraphView { last_cursor_position: Some(p), ..self };
                match self.right_clicked_node {
                    None => seen,
                    Some(n) => match self.current_edge {
                        Some(e) => if self.edges.contains_key(e) {
                            GraphView {
                                edges: self.edges.insert(
                                    e,
                                    Edge { to: EdgeConnection::Point(p), ..self.edges[e] },
                                ),
                                ..seen
                            }
                        } else {
                            seen
                        },
                        None => if self.nodes.contains_key(n) {
                            GraphView {
                                edges: self.edges.insert(
                                    edge_id,
                                    Edge {
                                        from: EdgeConnection::Node(self.nodes[n].component_id),
                                        to: EdgeConnection::Point(p),
                                        control: None,
                                    },
                                ),
                                current_edge: Some(edge_id),
                                nodes: self.nodes.insert(n, self.nodes[n].with_edge(edge_id)),
                                ..seen
                            }
                        } else {
                            seen
                        },
                    },
                }
            },
        }
    }

    /// The graph after the left button went down.
    pub open spec fn left_pressed(self, position: Option<Point>, hit: Option<u128>) -> GraphView {
        let clicked = self.node_under(position, hit);
        match position {
            Some(p) => GraphView {
                is_clicked: true,
                last_cursor_position: Some(p),
                left_clicked_node: clicked,
                selected_node: clicked,
                ..self
            },
            None => GraphView { left_clicked_node: None, selected_node: None, ..self },
        }
    }

    /// What the graph asks for when the left button is released: to edit
    /// the component of the node that the button held, after a double
    /// click.
    pub open spec fn left_release_message(self, event: MouseButtonReleaseEvents) -> Option<
        GraphMessage,
    > {
        match self.left_clicked_node {
            Some(n) => if self.nodes.contains_key(n) && event is DoubleClick {
                Some(GraphMessage::EditComponent(self.nodes[n].component_id))
            } else {
                None
            },
            None => None,
        }
    }

    /// The graph after the left button was released.
    pub open spec fn left_released(self, position: Option<Point>) -> GraphView {
        GraphView {
            is_clicked: false,
            last_cursor_position: match position {
                Some(p) => Some(p),
                None => self.last_cursor_position,
            },
            selected_node: if self.left_clicked_node is Some {
                self.selected_node
            } else {
                None
            },
            left_clicked_node: None,
            ..self
        }
    }

    /// The graph after the right button went down.
    pub open spec fn right_pressed(self, position: Option<Point>, hit: Option<u128>) -> GraphView {
        GraphView {
            right_clicked_node: self.node_under(position, hit),
            last_cursor_position: match position {
                Some(p) => Some(p),
                None => self.last_cursor_position,
            },
            ..self
        }
    }

    /// The two components that the edge being drawn would connect when it
    /// is dropped on the node `target`: the component at which it starts,
    /// and the component of that node.
    pub open spec fn connection_ends(self, target: Option<u128>) -> Option<(u128, u128)> {
        match (self.current_edge, target) {
            (Some(e), Some(t)) => if self.edges.contains_key(e) && self.nodes.contains_key(t) {
                match self.edges[e].from {
                    EdgeConnection::Node(from) => Some((from, self.nodes[t].component_id)),
                    EdgeConnection::Point(_) => None,
                }
            } else {
                None
            },
            _ => None,
        }
    }

    /// The graph after the right button was released over the node
    /// `target`, or over none. Where an edge is being drawn, its two ends
    /// are connected if they can be, and the edge is discarded if not.
    pub open spec fn right_released(self, target: Option<u128>) -> GraphView {
        match self.current_edge {
            None => self,
            Some(_) => {
                let settled = match self.connection_ends(target) {
                    Some((from, to)) => if self.connection_fault(from, to) is None {
                        self.connected(from, to)
                    } else {
                        self.without_pending_edge()
                    },
                    None => self.without_pending_edge(),
                };
                GraphView { right_clicked_node: None, ..settled }
            },
        }
    }

    /// The graph after the delete key was pressed: nothing is selected any
    /// more, and the component of the node that was selected is deleted.
    pub open spec fn delete_pressed(self) -> GraphView {
        let cleared = GraphView { selected_node: None, ..self };
        match self.selected_node {
            Some(n) => if self.nodes.contains_key(n) {
                cleared.deleted(self.nodes[n].component_id)
            } else {
                cleared
            },
            None => cleared,
        }
    }
}

impl Graph {
    /// The node `hit`, where the cursor is on the surface and `hit` is a
    /// node of the graph.
    fn node_under(&self, position: Option<Point>, hit: Option<u128>) -> (found: Option<u128>)
        ensures
            found == self@.node_under(position, hit),
    {
        match (position, hit) {
            (Some(_), Some(n)) => if self.nodes.contains_key(&n) {
                Some(n)
            } else {
                None
            },
            _ => None,
        }
    }

    /// Follows the cursor to `position`, the place of the cursor on the
    /// surface, if it is there. `edge_id` is the id under which an edge
    /// starts, should one start now.
    pub fn track_cursor(&mut self, position: Option<Point>, edge_id: u128) -> (update: CursorUpdate)
        ensures
            final(self)@ == old(self)@.cursor_tracked(position, edge_id),
            update.redraw == old(self)@.redraw(position),
            update.motion == old(self)@.motion(position),
            old(self)@.wf() ==> final(self)@.wf(),
            connections_legal(old(self)@.components) ==> connections_legal(
                final(self)@.components,
            ),
    {
        let motion = match self.left_clicked_node {
            Some(n) => match position {
                Some(p) => if self.nodes.contains_key(&n) {
                    GraphMotion::Node(n, p)
                } else {
                    GraphMotion::Still
                },
                None => GraphMotion::Still,
            },
            None => if self.is_clicked {
                match (position, self.last_cursor_position) {
                    (Some(p), Some(last)) => GraphMotion::Pan(last, p),
                    _ => GraphMotion::Still,
                }
            } else {
                GraphMotion::Still
            },
        };
        let moved = match motion {
            GraphMotion::Still => false,
            _ => true,
        };
        let mut redraw = moved;
        let ghost pre = self@;
        match position {
            Some(p) => {
                self.last_cursor_position = Some(p);
                match self.right_clicked_node {
                    Some(n) => {
                        redraw = true;
                        match self.current_edge {
                            Some(e) => {
                                match self.edges.remove(&e) {
                                    Some(mut edge) => {
                                        edge.to = EdgeConnection::Point(p);
                                        self.edges.insert(e, edge);
                                    },
                                    None => {
                                        assert(self.edges@ =~= old(self).edges@);
                                    },
                                }
                            },
                            None => {
                                match self.nodes.remove(&n) {
                                    Some(mut node) => {
                                        let edge = Edge::new(
                                            EdgeConnection::Node(node.component_id),
                                            EdgeConnection::Point(p),
                                        );
                                        self.edges.insert(edge_id, edge);
                                        self.current_edge = Some(edge_id);
                                        node.edges.push(edge_id);
                                        self.nodes.insert(n, node);
                                    },
                                    None => {
                                        assert(self.nodes@ =~= old(self).nodes@);
                                    },
                                }
                            },
                        }
                    },
                    None => {},
                }
            },
            None => {},
        }
        proof {
            let post = pre.cursor_tracked(position, edge_id);
            assert(self@.nodes =~= post.nodes);
            assert(self@.edges =~= post.edges);
        }
        CursorUpdate { redraw, motion }
    }

    /// Follows the cursor to `position`, the place of the cursor on the
    /// surface, if it is there.
    ///
    /// An edge that starts now gets a random id, so all that is known of
    /// the outcome is that it is `cursor_tracked` under some random id.
    pub fn cursor_moved(&mut self, position: Option<Point>) -> (update: CursorUpdate)
        ensures
            exists|edge_id: u128|
                is_random_id(edge_id) && final(self)@ == old(self)@.cursor_tracked(
                    position,
                    edge_id,
                ),
            update.redraw == old(self)@.redraw(position),
            update.motion == old(self)@.motion(position),
            old(self)@.wf() ==> final(self)@.wf(),
            connections_legal(old(self)@.components) ==> connections_legal(
                final(self)@.components,
            ),
    {
        let edge_id = fresh_id();
        self.track_cursor(position, edge_id)
    }

    /// The left button went down, with the cursor at `position` on the
    /// surface, if it is there, and over the node `hit`, if over any.
    pub fn left_button_pressed(&mut self, position: Option<Point>, hit: Option<u128>)
        ensures
            final(self)@ == old(self)@.left_pressed(position, hit),
            old(self)@.wf() ==> final(self)@.wf(),
            connections_legal(old(self)@.components) ==> connections_legal(
                final(self)@.components,
            ),
    {
        let clicked = self.node_under(position, hit);
        self.left_clicked_node = None;
        match position {
            Some(p) => {
                self.is_clicked = true;
                self.last_cursor_position = Some(p);
                self.left_clicked_node = clicked;
            },
            None => {},
        }
        self.selected_node = self.left_clicked_node;
    }

    /// The left button was released, which amounts to `release_event`, with
    /// the cursor at `position` on the surface, if it is there.
    pub fn left_button_released(
        &mut self,
        release_event: &MouseButtonReleaseEvents,
        position: Option<Point>,
    ) -> (message: Option<GraphMessage>)
        ensures
            final(self)@ == old(self)@.left_released(position),
            message == old(self)@.left_release_message(*release_event),
            old(self)@.wf() ==> final(self)@.wf(),
            connections_legal(old(self)@.components) ==> connections_legal(
                final(self)@.components,
            ),
    {
        self.is_clicked = false;
        let mut message = None;
        match position {
            Some(p) => {
                self.last_cursor_position = Some(p);
            },
            None => {},
        }
        match self.left_clicked_node {
            Some(n) => {
                match self.nodes.get(&n) {
                    Some(node) => {
                        match release_event {
                            MouseButtonReleaseEvents::DoubleClick => {
                                message = Some(GraphMessage::EditComponent(node.component_id));
                            },
                            _ => {},
                        }
                    },
                    None => {},
                }
            },
            None => {
                self.selected_node = None;
            },
        }
        self.left_clicked_node = None;
        message
    }

    /// The right button went down, with the cursor at `position` on the
    /// surface, if it is there, and over the node `hit`, if over any.
    pub fn right_button_pressed(&mut self, position: Option<Point>, hit: Option<u128>)
        ensures
            final(self)@ == old(self)@.right_pressed(position, hit),
            old(self)@.wf() ==> final(self)@.wf(),
            connections_legal(old(self)@.components) ==> connections_legal(
                final(self)@.components,
            ),
    {
        self.right_clicked_node = self.node_under(position, hit);
        match position {
            Some(p) => {
                self.last_cursor_position = Some(p);
            },
            None => {},
        }
    }

    /// The two components that the edge being drawn would connect when it
    /// is dropped on the node `target`.
    fn connection_ends(&self, target: Option<u128>) -> (ends: Option<(u128, u128)>)
        ensures
            ends == self@.connection_ends(target),
    {
        match (self.current_edge, target) {
            (Some(e), Some(t)) => {
                match (self.edges.get(&e), self.nodes.get(&t)) {
                    (Some(edge), Some(node)) => match edge.from {
                        EdgeConnection::Node(from) => Some((from, node.component_id)),
                        EdgeConnection::Point(_) => None,
                    },
                    _ => None,
                }
            },
            _ => None,
        }
    }

    /// The right button was released with the cursor over the node
    /// `target`, or over none. Where an edge is being drawn, its two ends
    /// are connected if they can be, and the edge is discarded if not.
    pub fn right_button_released(&mut self, target: Option<u128>)
        ensures
            final(self)@ == old(self)@.right_released(target),
            old(self)@.wf() ==> final(self)@.wf(),
            connections_legal(old(self)@.components) ==> connections_legal(
                final(self)@.components,
            ),
    {
        if self.current_edge.is_none() {
            return ;
        }
        match self.connection_ends(target) {
            Some((from, to)) => {
                let _ = self.connect(from, to);
            },
            None => {
                self.disconnect_pending_edge();
            },
        }
        self.right_clicked_node = None;
    }

    /// The delete key was pressed: the component of the selected node is
    /// deleted, and nothing is selected any more.
    pub fn delete_pressed(&mut self)
        ensures
            final(self)@ == old(self)@.delete_pressed(),
            old(self)@.wf() ==> final(self)@.wf(),
            connections_legal(old(self)@.components) ==> connections_legal(
                final(self)@.components,
            ),
    {
        let selected = self.selected_node;
        self.selected_node = None;
        match selected {
            Some(n) => {
                let component_id = match self.nodes.get(&n) {
                    Some(node) => Some(node.component_id),
                    None => None,
                };
                match component_id {
                    Some(id) => {
                        self.delete(id);
                    },
                    None => {},
                }
            },
            None => {},
        }
    }
}

} // verus!
