//! What the application does on the commands of the dialog and of the
//! keyboard: entering a field, saving, closing, deleting.

use crate::multibody::body::BodyField;
use crate::multibody::joints::revolute::RevoluteField;
use crate::scalar::Scalar;
use crate::ui::canvas::graph::{is_random_id, Graph, GraphView};
use crate::ui::canvas::invariants::connections_legal;
use crate::ui::canvas::nodebar::{Nodebar, NodebarView};
use crate::ui::dummies::{DummyComponent, DummyComponentView, DummyTrait};
use crate::ui::mouse::{AppState, AppStateView};
use crate::ui::names::{default_name, next_count, numbered, spec_next_count};
use vstd::prelude::*;

verus! {

broadcast use vstd::std_specs::hash::group_hash_axioms;

impl DummyComponentView {
    /// The buffer with `value` entered in a field of a body. A buffer of
    /// another kind has no such field and stays as it is.
    pub open spec fn with_body_field(self, field: BodyField, value: Option<Scalar>) -> DummyComponentView {
        match self {
            DummyComponentView::Body(d) => DummyComponentView::Body(d.with_field(field, value)),
            _ => self,
        }
    }

    /// The buffer with `value` entered in a field of a revolute joint. A
    /// buffer of another kind has no such field and stays as it is.
    pub open spec fn with_revolute_field(self, field: RevoluteField, value: Option<Scalar>) -> DummyComponentView {
        match self {
            DummyComponentView::Revolute(d) => DummyComponentView::Revolute(
                d.with_field(field, value),
            ),
            _ => self,
        }
    }

    /// The buffer of a body with another name; a buffer of another kind as
    /// it is.
    pub open spec fn with_body_name(self, name: Seq<char>) -> DummyComponentView {
        match self {
            DummyComponentView::Body(_) => self.with_name(name),
            _ => self,
        }
    }

    /// The buffer of a revolute joint with another name; a buffer of
    /// another kind as it is.
    pub open spec fn with_revolute_name(self, name: Seq<char>) -> DummyComponentView {
        match self {
            DummyComponentView::Revolute(_) => self.with_name(name),
            _ => self,
        }
    }
}

impl NodebarView {
    /// The node bar with another edit buffer under the id `id`, where it
    /// has one there.
    pub open spec fn with_buffer(self, id: u128, buffer: DummyComponentView) -> NodebarView {
        if self.components.contains_key(id) {
            NodebarView { components: self.components.insert(id, buffer), ..self }
        } else {
            self
        }
    }
}

impl AppStateView {
    /// The edit buffer that the open dialog shows, where a dialog is open
    /// and the node bar has its buffer.
    pub open spec fn shown(self) -> Option<u128> {
        match self.modal {
            Some(m) => if self.nodebar.components.contains_key(m.dummy_component_id) {
                Some(m.dummy_component_id)
            } else {
                None
            },
            None => None,
        }
    }

    /// The count of bodies that were given a name, after `dummy` was
    /// saved.
    pub open spec fn body_count_after(self, dummy: DummyComponentView) -> usize {
        if dummy is Body && dummy.name().len() == 0 {
            spec_next_count(self.counter_body)
        } else {
            self.counter_body
        }
    }

    /// The count of revolute joints that were given a name, after `dummy`
    /// was saved.
    pub open spec fn revolute_count_after(self, dummy: DummyComponentView) -> usize {
        if dummy is Revolute && dummy.name().len() == 0 {
            spec_next_count(self.counter_revolute)
        } else {
            self.counter_revolute
        }
    }

    /// The buffer as it is saved: with its own name, or, where it has
    /// none, with the name that its kind and the next count give.
    pub open spec fn named(self, dummy: DummyComponentView) -> DummyComponentView {
        if dummy.name().len() > 0 {
            dummy
        } else {
            dummy.with_name(
                default_name(
                    dummy,
                    if dummy is Body {
                        self.body_count_after(dummy)
                    } else {
                        self.revolute_count_after(dummy)
                    },
                ),
            )
        }
    }

    /// `graph` is what saving the buffer that the dialog shows makes of the
    /// graph: the component that the dialog is about has taken over the
    /// buffer, or a new component stands at the place where the cursor was
    /// last seen, under some three random ids.
    pub open spec fn graph_saved(self, graph: GraphView) -> bool {
        match self.shown() {
            None => graph == self.graph,
            Some(b) => {
                let named = self.named(self.nodebar.components[b]);
                match self.modal->Some_0.graph_component_id {
                    Some(id) => graph == self.graph.edited(named, id),
                    None => match self.graph.last_cursor_position {
                        Some(anchor) => exists|component_id: u128, node_id: u128, name_id: u128|
                            is_random_id(component_id) && is_random_id(node_id) && is_random_id(
                                name_id,
                            ) && graph == self.graph.with_component(
                                component_id,
                                node_id,
                                name_id,
                                named,
                                anchor,
                            ),
                        None => graph == self.graph,
                    },
                }
            },
        }
    }

    /// Everything but the graph, after the buffer that the dialog shows
    /// was saved: the dialog is closed, the buffer is empty, and the
    /// counts have moved on.
    pub open spec fn saved_around(self, graph: GraphView) -> AppStateView {
        match self.shown() {
            Some(b) => {
                let dummy = self.nodebar.components[b];
                AppStateView {
                    counter_body: self.body_count_after(dummy),
                    counter_revolute: self.revolute_count_after(dummy),
                    graph,
                    modal: None,
                    nodebar: NodebarView {
                        components: self.nodebar.components.insert(b, self.named(dummy).cleared()),
                        ..self.nodebar
                    },
                    ..self
                }
            },
            None => self,
        }
    }
}

impl AppState {
    /// The application as it starts: an empty graph, a node bar with its
    /// three edit buffers under the ids of `nodebar`, no dialog.
    pub fn new(nodebar: Nodebar) -> (state: Self)
        ensures
            state@ == (AppStateView {
                counter_body: 0,
                counter_revolute: 0,
                graph: GraphView::empty(),
                left_clicked_time_1: None,
                left_clicked_time_2: None,
                modal: None,
                nodebar: nodebar@,
            }),
            state@.graph.wf(),
    {
        Self {
            counter_body: 0,
            counter_revolute: 0,
            graph: Graph::default(),
            left_clicked_time_1: None,
            left_clicked_time_2: None,
            modal: None,
            nodebar,
        }
    }

    /// Closes the dialog.
    pub fn close_modal(&mut self)
        ensures
            final(self)@ == (AppStateView { modal: None, ..old(self)@ }),
    {
        self.modal = None;
    }

    /// The delete key was pressed: the component of the selected node is
    /// deleted.
    pub fn delete_pressed(&mut self)
        ensures
            final(self)@ == (AppStateView {
                graph: old(self)@.graph.delete_pressed(),
                ..old(self)@
            }),
            old(self)@.graph.wf() ==> final(self)@.graph.wf(),
            connections_legal(old(self)@.graph.components) ==> connections_legal(
                final(self)@.graph.components,
            ),
    {
        self.graph.delete_pressed();
    }

    /// Enters `value` in the field `field` of the edit buffer of bodies.
    pub fn update_body_field(&mut self, field: BodyField, value: Option<Scalar>)
        ensures
            final(self)@ == (AppStateView {
                nodebar: old(self)@.nodebar.with_buffer(
                    old(self)@.nodebar.map.body,
                    old(self)@.nodebar.components[old(self)@.nodebar.map.body].with_body_field(
                        field,
                        value,
                    ),
                ),
                ..old(self)@
            }),
    {
        let id = self.nodebar.map.body;
        let ghost before = self.nodebar@;
        match self.nodebar.components.remove(&id) {
            Some(mut dummy) => {
                match &mut dummy {
                    DummyComponent::Body(body) => {
                        body.set_field(field, value);
                    },
                    _ => {},
                }
                self.nodebar.components.insert(id, dummy);
                assert(self.nodebar@.components =~= before.components.insert(
                    id,
                    before.components[id].with_body_field(field, value),
                ));
            },
            None => {
                assert(self.nodebar@.components =~= before.components);
            },
        }
    }

    /// Enters the name in the edit buffer of bodies.
    pub fn update_body_name(&mut self, value: &str)
        ensures
            final(self)@ == (AppStateView {
                nodebar: old(self)@.nodebar.with_buffer(
                    old(self)@.nodebar.map.body,
                    old(self)@.nodebar.components[old(self)@.nodebar.map.body].with_body_name(
                        value@,
                    ),
                ),
                ..old(self)@
            }),
    {
        let id = self.nodebar.map.body;
        let ghost before = self.nodebar@;
        match self.nodebar.components.remove(&id) {
            Some(mut dummy) => {
                match &mut dummy {
                    DummyComponent::Body(body) => {
                        body.set_name(value);
                    },
                    _ => {},
                }
                self.nodebar.components.insert(id, dummy);
                assert(self.nodebar@.components =~= before.components.insert(
                    id,
                    before.components[id].with_body_name(value@),
                ));
            },
            None => {
                assert(self.nodebar@.components =~= before.components);
            },
        }
    }

    /// Enters `value` in the field `field` of the edit buffer of revolute
    /// joints.
    pub fn update_revolute_field(&mut self, field: RevoluteField, value: Option<Scalar>)
        ensures
            final(self)@ == (AppStateView {
                nodebar: old(self)@.nodebar.with_buffer(
                    old(self)@.nodebar.map.revolute,
                    old(self)@.nodebar.components[old(
                        self,
                    )@.nodebar.map.revolute].with_revolute_field(field, value),
                ),
                ..old(self)@
            }),
    {
        let id = self.nodebar.map.revolute;
        let ghost before = self.nodebar@;
        match self.nodebar.components.remove(&id) {
            Some(mut dummy) => {
                match &mut dummy {
                    DummyComponent::Revolute(joint) => {
                        joint.set_field(field, value);
                    },
                    _ => {},
                }
                self.nodebar.components.insert(id, dummy);
                assert(self.nodebar@.components =~= before.components.insert(
                    id,
                    before.components[id].with_revolute_field(field, value),
                ));
            },
            None => {
                assert(self.nodebar@.components =~= before.components);
            },
        }
    }

    /// Enters the name in the edit buffer of revolute joints.
    pub fn update_revolute_name(&mut self, value: &str)
        ensures
            final(self)@ == (AppStateView {
                nodebar: old(self)@.nodebar.with_buffer(
                    old(self)@.nodebar.map.revolute,
                    old(self)@.nodebar.components[old(
                        self,
                    )@.nodebar.map.revolute].with_revolute_name(value@),
                ),
                ..old(self)@
            }),
    {
        let id = self.nodebar.map.revolute;
        let ghost before = self.nodebar@;
        match self.nodebar.components.remove(&id) {
            Some(mut dummy) => {
                match &mut dummy {
                    DummyComponent::Revolute(joint) => {
                        joint.set_name(value);
                    },
                    _ => {},
                }
                self.nodebar.components.insert(id, dummy);
                assert(self.nodebar@.components =~= before.components.insert(
                    id,
                    before.components[id].with_revolute_name(value@),
                ));
            },
            None => {
                assert(self.nodebar@.components =~= before.components);
            },
        }
    }

    /// Saves the edit buffer that the dialog shows: as an edit of the
    /// component that the dialog is about, or as a new component at the
    /// place where the cursor was last seen. A buffer without a name gets
    /// the name that its kind and the next count give. Then the buffer is
    /// emptied and the dialog closed.
    ///
    /// Where no dialog is open, or the node bar has no such buffer,
    /// nothing happens. A new component gets random ids, so of the graph
    /// it is known only that it is `with_component` under some three of
    /// them.
    pub fn save_component(&mut self)
        ensures
            old(self)@.graph_saved(final(self)@.graph),
            final(self)@ == old(self)@.saved_around(final(self)@.graph),
            old(self)@.graph.wf() ==> final(self)@.graph.wf(),
    {
        let modal = match self.modal {
            Some(m) => m,
            None => {
                return ;
            },
        };
        let ghost before = self.nodebar@;
        let mut dummy = match self.nodebar.components.remove(&modal.dummy_component_id) {
            Some(d) => d,
            None => {
                assert(self.nodebar@.components =~= before.components);
                return ;
            },
        };
        if dummy.get_name().is_empty() {
            let name = match &dummy {
                DummyComponent::Base(_) => "base".to_owned(),
                DummyComponent::Body(_) => {
                    self.counter_body = next_count(self.counter_body);
                    numbered("body", self.counter_body)
                },
                DummyComponent::Revolute(_) => {
                    self.counter_revolute = next_count(self.counter_revolute);
                    numbered("revolute", self.counter_revolute)
                },
            };
            dummy.set_name(name.as_str());
        }
        match modal.graph_component_id {
            Some(id) => {
                let _ = self.graph.edit_component(&dummy, id);
            },
            None => {
                let _ = self.graph.save_component(&dummy);
            },
        }
        dummy.clear();
        self.nodebar.components.insert(modal.dummy_component_id, dummy);
        self.modal = None;
        proof {
            let b = modal.dummy_component_id;
            let named = old(self)@.named(before.components[b]);
            assert(self.nodebar@.components =~= before.components.insert(b, named.cleared()));
        }
    }

    /// The enter key was pressed: the edit buffer that the dialog shows is
    /// saved.
    pub fn enter_pressed(&mut self)
        ensures
            old(self)@.graph_saved(final(self)@.graph),
            final(self)@ == old(self)@.saved_around(final(self)@.graph),
            old(self)@.graph.wf() ==> final(self)@.graph.wf(),
    {
        self.save_component();
    }
}

} // verus!
