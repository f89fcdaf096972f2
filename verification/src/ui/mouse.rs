//! Pointer and key events: what the application decides on each, given
//! where the cursor is and what it is over.
//!
//! Whoever owns the window reads the clock and the cursor and says what
//! the cursor is over; the decisions are taken here.

use crate::multibody::body::BodyField;
use crate::multibody::joints::revolute::RevoluteField;
use crate::multibody::MultibodyTrait;
use crate::scalar::{Point, Scalar};
use crate::ui::canvas::events::{CursorUpdate, GraphMotion};
use crate::ui::canvas::graph::{is_random_id, Graph, GraphMessage, GraphView};
use crate::ui::canvas::invariants::connections_legal;
use crate::ui::canvas::node::ClickedNode;
use crate::ui::canvas::nodebar::{Nodebar, NodebarMessage, NodebarView};
use crate::ui::dummies::{DummyComponent, DummyComponentView, DummyTrait};
use crate::ui::modals::ActiveModal;
use vstd::prelude::*;

verus! {

broadcast use vstd::std_specs::hash::group_hash_axioms;

/// The buttons of the pointer.
#[derive(Debug, Clone, Copy, PartialEq, Eq, Structural)]
pub enum MouseButton {
    Left,
    Right,
    Middle,
}

/// What a release of the left button amounts to.
#[derive(Debug, Clone, Copy, PartialEq, Eq, Structural)]
pub enum MouseButtonReleaseEvents {
    SingleClick,
    DoubleClick,
    Held,
    Nothing,
}

/// The longest time, in milliseconds, from the first of two presses to the
/// release after the second that still makes a double click.
pub const DOUBLE_CLICK_MS: u64 = 500;

/// The longest time, in milliseconds, from the second of two presses to its
/// release that still makes a single click.
pub const SECOND_CLICK_MS: u64 = 300;

/// The longest time, in milliseconds, from a lone press to its release that
/// still makes a single click.
pub const SINGLE_CLICK_MS: u64 = 200;

/// The time from `since` to `now` on a clock that never runs backwards.
pub open spec fn elapsed(now: u64, since: u64) -> int {
    if now >= since {
        now - since
    } else {
        0
    }
}

/// What a release of the left button at the time `now` amounts to, after
/// the last press at `second` and the press before it at `first`.
pub open spec fn release_event(first: Option<u64>, second: Option<u64>, now: u64) -> MouseButtonReleaseEvents {
    match (first, second) {
        (Some(a), Some(b)) => if elapsed(now, a) <= DOUBLE_CLICK_MS {
            MouseButtonReleaseEvents::DoubleClick
        } else if elapsed(now, b) <= SECOND_CLICK_MS {
            MouseButtonReleaseEvents::SingleClick
        } else {
            MouseButtonReleaseEvents::Held
        },
        (None, Some(b)) => if elapsed(now, b) <= SINGLE_CLICK_MS {
            MouseButtonReleaseEvents::SingleClick
        } else {
            MouseButtonReleaseEvents::Held
        },
        _ => MouseButtonReleaseEvents::Nothing,
    }
}

/// Decides what a release of the left button at the time `now` amounts to,
/// after the last press at `second` and the press before it at `first`.
/// Times are in milliseconds.
pub fn classify_release(first: Option<u64>, second: Option<u64>, now: u64) -> (event:
    MouseButtonReleaseEvents)
    ensures
        event == release_event(first, second, now),
{
    match (first, second) {
        (Some(a), Some(b)) => {
            let since_first = if now >= a {
                now - a
            } else {
                0
            };
            let since_second = if now >= b {
                now - b
            } else {
                0
            };
            if since_first <= DOUBLE_CLICK_MS {
                MouseButtonReleaseEvents::DoubleClick
            } else if since_second <= SECOND_CLICK_MS {
                MouseButtonReleaseEvents::SingleClick
            } else {
                MouseButtonReleaseEvents::Held
            }
        },
        (None, Some(b)) => {
            let since = if now >= b {
                now - b
            } else {
                0
            };
            if since <= SINGLE_CLICK_MS {
                MouseButtonReleaseEvents::SingleClick
            } else {
                MouseButtonReleaseEvents::Held
            }
        },
        _ => MouseButtonReleaseEvents::Nothing,
    }
}

/// The state of the application: the graph, the node bar, the dialog that
/// is open, the times of the last two presses of the left button, and how
/// many bodies and joints were given a name so far.
#[derive(Debug)]
pub struct AppState {
    pub counter_body: usize,
    pub counter_revolute: usize,
    pub graph: Graph,
    pub left_clicked_time_1: Option<u64>,
    pub left_clicked_time_2: Option<u64>,
    pub modal: Option<ActiveModal>,
    pub nodebar: Nodebar,
}

pub struct AppStateView {
    pub counter_body: usize,
    pub counter_revolute: usize,
    pub graph: GraphView,
    pub left_clicked_time_1: Option<u64>,
    pub left_clicked_time_2: Option<u64>,
    pub modal: Option<ActiveModal>,
    pub nodebar: NodebarView,
}

impl View for AppState {
    type V = AppStateView;

    open spec fn view(&self) -> AppStateView {
        AppStateView {
            counter_body: self.counter_body,
            counter_revolute: self.counter_revolute,
            graph: self.graph@,
            left_clicked_time_1: self.left_clicked_time_1,
            left_clicked_time_2: self.left_clicked_time_2,
            modal: self.modal,
            nodebar: self.nodebar@,
        }
    }
}

/// What the application answers to a move of the cursor.
#[derive(Debug, Clone, Copy)]
pub struct AppCursorUpdate {
    pub redraw: bool,
    /// The node of the palette that is dragged, and where to.
    pub nodebar: Option<(u128, Point)>,
    /// What moves in the graph.
    pub graph: GraphMotion,
}

impl GraphView {
    /// The graph after a button went down, with the cursor at `position`
    /// on the surface and over the node `hit`: the left and the right
    /// button remember the node.
    pub open spec fn picked(self, position: Option<Point>, hit: Option<u128>, button: MouseButton) -> GraphView {
        match button {
            MouseButton::Left => GraphView {
                left_clicked_node: self.node_under(position, hit),
                ..self
            },
            MouseButton::Right => GraphView {
                right_clicked_node: self.node_under(position, hit),
                ..self
            },
            MouseButton::Middle => self,
        }
    }
}

impl Graph {
    /// A button went down, with the cursor at `position` on the surface,
    /// if it is there, and over the node `hit`, if over any: the left and
    /// the right button remember the node.
    pub fn get_clicked_node(&mut self, position: Option<Point>, hit: Option<u128>, mouse_button: &MouseButton)
        ensures
            final(self)@ == old(self)@.picked(position, hit, *mouse_button),
            old(self)@.wf() ==> final(self)@.wf(),
            connections_legal(old(self)@.components) ==> connections_legal(
                final(self)@.components,
            ),
    {
        let found = match (position, hit) {
            (Some(_), Some(n)) => if self.nodes.contains_key(&n) {
                Some(n)
            } else {
                None
            },
            _ => None,
        };
        match mouse_button {
            MouseButton::Left => {
                self.left_clicked_node = found;
            },
            MouseButton::Right => {
                self.right_clicked_node = found;
            },
            MouseButton::Middle => {},
        }
    }
}

impl AppStateView {
    /// What the pointer has picked: a node of the palette before a node of
    /// the graph, each with the kind of what it stands for.
    pub open spec fn clicked_node(
        self,
        position: Option<Point>,
        nodebar_hit: Option<u128>,
        graph_hit: Option<u128>,
    ) -> Option<ClickedNode> {
        match self.nodebar.node_under(nodebar_hit) {
            Some(n) => match self.nodebar.kind_of(n) {
                Some(kind) => Some(ClickedNode { node_type: kind, is_nodebar: true }),
                None => None,
            },
            None => match self.graph.node_under(position, graph_hit) {
                Some(n) => if self.graph.components.contains_key(self.graph.nodes[n].component_id) {
                    Some(
                        ClickedNode {
                            node_type: self.graph.components[self.graph.nodes[n].component_id].kind(),
                            is_nodebar: false,
                        },
                    )
                } else {
                    None
                },
                None => None,
            },
        }
    }

    /// The state after a button went down.
    pub open spec fn picked(
        self,
        position: Option<Point>,
        nodebar_hit: Option<u128>,
        graph_hit: Option<u128>,
        button: MouseButton,
    ) -> AppStateView {
        AppStateView {
            nodebar: self.nodebar.clicked(nodebar_hit, button),
            graph: self.graph.picked(position, graph_hit, button),
            ..self
        }
    }

    /// The state after the left button went down at the time `now`.
    pub open spec fn left_pressed(
        self,
        now: u64,
        position: Option<Point>,
        nodebar_hit: Option<u128>,
        graph_hit: Option<u128>,
    ) -> AppStateView {
        AppStateView {
            left_clicked_time_1: self.left_clicked_time_2,
            left_clicked_time_2: Some(now),
            nodebar: self.nodebar.clicked(nodebar_hit, MouseButton::Left),
            graph: self.graph.left_pressed(position, graph_hit),
            ..self
        }
    }

    /// The dialog after the left button was released, as far as the node
    /// bar decides it: a node of the palette that was dragged onto the
    /// surface opens the dialog for a new component of its kind.
    pub open spec fn modal_after_drop(self, event: MouseButtonReleaseEvents, position: Option<Point>) -> Option<ActiveModal> {
        match self.nodebar.release_message(event) {
            Some(NodebarMessage::NewComponent(id)) => if position is Some {
                Some(ActiveModal { dummy_component_id: id, graph_component_id: None })
            } else {
                self.modal
            },
            None => self.modal,
        }
    }

    /// The state after the left button was released at the time `now`.
    ///
    /// A node of the palette that was dragged onto the surface opens the
    /// dialog for a new component. A double click on a node of the graph
    /// opens the dialog for its component, with the edit buffer of the
    /// component's kind filled from the component.
    pub open spec fn left_released(self, now: u64, position: Option<Point>) -> AppStateView {
        let event = release_event(self.left_clicked_time_1, self.left_clicked_time_2, now);
        let dropped = AppStateView {
            graph: self.graph.left_released(position),
            nodebar: self.nodebar.released(),
            modal: self.modal_after_drop(event, position),
            ..self
        };
        match self.graph.left_release_message(event) {
            Some(GraphMessage::EditComponent(id)) => if dropped.graph.components.contains_key(id)
                && dropped.nodebar.components.contains_key(
                dropped.graph.components[id].meta().dummy_id,
            ) {
                let buffer = dropped.graph.components[id].meta().dummy_id;
                AppStateView {
                    nodebar: NodebarView {
                        components: dropped.nodebar.components.insert(
                            buffer,
                            dropped.nodebar.components[buffer].inherited(id, dropped.graph),
                        ),
                        ..dropped.nodebar
                    },
                    modal: Some(
                        ActiveModal { dummy_component_id: buffer, graph_component_id: Some(id) },
                    ),
                    ..dropped
                }
            } else {
                dropped
            },
            None => dropped,
        }
    }

    /// The node of the palette that returns to its home when the left
    /// button is released at the time `now`.
    pub open spec fn left_release_home(self, now: u64) -> Option<u128> {
        self.nodebar.release_home(
            release_event(self.left_clicked_time_1, self.left_clicked_time_2, now),
        )
    }
}

/// A button went down: the node bar and the graph remember what it is
/// over, and the answer says what was picked.
///
/// `position` is the place of the cursor on the surface of the graph, if
/// it is there; `nodebar_hit` and `graph_hit` are the nodes that it is
/// over.
pub fn get_clicked_node(
    state: &mut AppState,
    position: Option<Point>,
    nodebar_hit: Option<u128>,
    graph_hit: Option<u128>,
    mouse_button: &MouseButton,
) -> (clicked: Option<ClickedNode>)
    ensures
        final(state)@ == old(state)@.picked(position, nodebar_hit, graph_hit, *mouse_button),
        clicked == old(state)@.clicked_node(position, nodebar_hit, graph_hit),
        old(state)@.graph.wf() ==> final(state)@.graph.wf(),
        connections_legal(old(state)@.graph.components) ==> connections_legal(
            final(state)@.graph.components,
        ),
{
    let in_nodebar = match nodebar_hit {
        Some(n) => if state.nodebar.nodes.contains_key(&n) {
            Some(n)
        } else {
            None
        },
        None => None,
    };
    let clicked = match in_nodebar {
        Some(n) => match state.nodebar.kind_of(n) {
            Some(kind) => Some(ClickedNode::new(kind, true)),
            None => None,
        },
        None => match (position, graph_hit) {
            (Some(_), Some(n)) => match state.graph.nodes.get(&n) {
                Some(node) => match state.graph.components.get(&node.component_id) {
                    Some(component) => Some(ClickedNode::new(component.component_kind(), false)),
                    None => None,
                },
                None => None,
            },
            _ => None,
        },
    };
    state.nodebar.get_clicked_node(nodebar_hit, mouse_button);
    state.graph.get_clicked_node(position, graph_hit, mouse_button);
    clicked
}

/// The cursor has moved: the node that the left button holds is dragged,
/// or the graph is shifted, and an edge that is being drawn follows.
///
/// `canvas_position` is the place of the cursor in the window, `position`
/// its place on the surface of the graph, each if it is there. An edge
/// that starts now gets a random id.
pub fn cursor_moved(state: &mut AppState, canvas_position: Option<Point>, position: Option<Point>) -> (update:
    AppCursorUpdate)
    ensures
        exists|edge_id: u128|
            is_random_id(edge_id) && final(state)@ == (AppStateView {
                graph: old(state)@.graph.cursor_tracked(position, edge_id),
                ..old(state)@
            }),
        update.nodebar == (match (old(state)@.nodebar.held(), canvas_position) {
            (Some(n), Some(p)) => Some((n, p)),
            _ => None,
        }),
        update.graph == old(state)@.graph.motion(position),
        update.redraw == (update.nodebar is Some || old(state)@.graph.redraw(position)),
        old(state)@.graph.wf() ==> final(state)@.graph.wf(),
        connections_legal(old(state)@.graph.components) ==> connections_legal(
            final(state)@.graph.components,
        ),
{
    let nodebar = state.nodebar.cursor_moved(canvas_position);
    let graph = state.graph.cursor_moved(position);
    AppCursorUpdate { redraw: nodebar.is_some() || graph.redraw, nodebar, graph: graph.motion }
}

/// The left button went down at the time `now`, in milliseconds.
pub fn left_button_pressed(
    state: &mut AppState,
    now: u64,
    position: Option<Point>,
    nodebar_hit: Option<u128>,
    graph_hit: Option<u128>,
)
    ensures
        final(state)@ == old(state)@.left_pressed(now, position, nodebar_hit, graph_hit),
        old(state)@.graph.wf() ==> final(state)@.graph.wf(),
        connections_legal(old(state)@.graph.components) ==> connections_legal(
            final(state)@.graph.components,
        ),
{
    state.left_clicked_time_1 = state.left_clicked_time_2;
    state.left_clicked_time_2 = Some(now);
    state.nodebar.get_clicked_node(nodebar_hit, &MouseButton::Left);
    state.graph.left_button_pressed(position, graph_hit);
}

/// The left button was released at the time `now`, in milliseconds, with
/// the cursor at `position` on the surface of the graph, if it is there.
/// The answer is the node of the palette that is to return to its home.
pub fn left_button_released(state: &mut AppState, now: u64, position: Option<Point>) -> (home:
    Option<u128>)
    ensures
        final(state)@ == old(state)@.left_released(now, position),
        home == old(state)@.left_release_home(now),
        old(state)@.graph.wf() ==> final(state)@.graph.wf(),
        connections_legal(old(state)@.graph.components) ==> connections_legal(
            final(state)@.graph.components,
        ),
{
    let event = classify_release(state.left_clicked_time_1, state.left_clicked_time_2, now);
    let release = state.nodebar.left_button_released(&event);
    match release.message {
        Some(NodebarMessage::NewComponent(id)) => {
            if position.is_some() && state.nodebar.components.contains_key(&id) {
                state.modal = Some(ActiveModal::new(id, None));
            }
        },
        None => {},
    }
    match state.graph.left_button_released(&event, position) {
        Some(GraphMessage::EditComponent(id)) => {
            let buffer = match state.graph.components.get(&id) {
                Some(component) => Some(component.get_dummy_id()),
                None => None,
            };
            match buffer {
                Some(b) => {
                    let ghost before = state.nodebar@;
                    match state.nodebar.components.remove(&b) {
                        Some(mut dummy) => {
                            dummy.inherit_from(&id, &state.graph);
                            state.nodebar.components.insert(b, dummy);
                            state.modal = Some(ActiveModal::new(b, Some(id)));
                            assert(state.nodebar@.components =~= before.components.insert(
                                b,
                                before.components[b].inherited(id, state.graph@),
                            ));
                        },
                        None => {
                            assert(state.nodebar@.components =~= before.components);
                        },
                    }
                },
                None => {},
            }
        },
        None => {},
    }
    release.home
}

/// The right button went down.
pub fn right_button_pressed(state: &mut AppState, position: Option<Point>, graph_hit: Option<u128>)
    ensures
        final(state)@ == (AppStateView {
            graph: old(state)@.graph.right_pressed(position, graph_hit),
            ..old(state)@
        }),
        old(state)@.graph.wf() ==> final(state)@.graph.wf(),
        connections_legal(old(state)@.graph.components) ==> connections_legal(
            final(state)@.graph.components,
        ),
{
    state.graph.right_button_pressed(position, graph_hit);
}

/// The right button was released with the cursor over the node `target`
/// of the graph, or over none.
pub fn right_button_released(state: &mut AppState, target: Option<u128>)
    ensures
        final(state)@ == (AppStateView {
            graph: old(state)@.graph.right_released(target),
            ..old(state)@
        }),
        old(state)@.graph.wf() ==> final(state)@.graph.wf(),
        connections_legal(old(state)@.graph.components) ==> connections_legal(
            final(state)@.graph.components,
        ),
{
    state.graph.right_button_released(target);
}

} // verus!
