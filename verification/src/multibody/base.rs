//! The base: the root of the tree, to which everything else is attached.

use crate::multibody::connection::ComponentKind;
use crate::multibody::mass_properties::MassPropertiesError;
use crate::multibody::{MetaView, MultibodyMeta, MultibodyTrait};
use crate::ui::dummies::DummyComponent;
use vstd::prelude::*;

verus! {

/// The base of a multibody model. It has identity and connectivity and
/// nothing else.
#[derive(Debug)]
pub struct Base {
    pub meta: MultibodyMeta,
}

pub struct BaseView {
    pub meta: MetaView,
}

impl View for Base {
    type V = BaseView;

    open spec fn view(&self) -> BaseView {
        BaseView { meta: self.meta@ }
    }
}

impl Clone for Base {
    fn clone(&self) -> (r: Self)
        ensures
            r@ == self@,
    {
        Base { meta: self.meta.clone() }
    }
}

impl Base {
    pub fn new(component_id: u128, dummy_id: u128, node_id: u128, name_id: u128) -> (b: Self)
        ensures
            b@.meta == MetaView::fresh(component_id, dummy_id, name_id, node_id),
    {
        let meta = MultibodyMeta::new(component_id, dummy_id, name_id, node_id);
        Self { meta }
    }
}

impl MultibodyTrait for Base {
    open spec fn meta(&self) -> MetaView {
        self.meta@
    }

    open spec fn kind(&self) -> ComponentKind {
        ComponentKind::Base
    }

    open spec fn same_payload(&self, other: &Self) -> bool {
        true
    }

    fn connect_from(&mut self, _id: u128) {
    }

    fn connect_to(&mut self, id: u128) {
        self.meta.to_id.push(id);
    }

    fn delete_from(&mut self) {
        self.meta.from_id = None;
    }

    fn delete_to(&mut self, id: u128) {
        self.meta.remove_to(id);
    }

    fn get_component_id(&self) -> (id: u128) {
        self.meta.component_id
    }

    fn get_dummy_id(&self) -> (id: u128) {
        self.meta.dummy_id
    }

    fn get_from_id(&self) -> (id: Option<u128>) {
        self.meta.from_id
    }

    fn get_name_id(&self) -> (id: u128) {
        self.meta.name_id
    }

    fn get_node_id(&self) -> (id: u128) {
        self.meta.node_id
    }

    fn get_to_id(&self) -> (ids: &Vec<u128>) {
        &self.meta.to_id
    }

    /// A base has no editable field but its name, which is kept elsewhere:
    /// nothing changes, whatever the buffer.
    fn inherit_from(&mut self, dummy: &DummyComponent) -> (r: Result<(), MassPropertiesError>)
        ensures
            r is Ok,
            final(self)@ == old(self)@,
    {
        Ok(())
    }

    fn set_component_id(&mut self, id: u128) {
        self.meta.component_id = id;
    }

    fn set_name_id(&mut self, id: u128) {
        self.meta.name_id = id;
    }

    fn set_node_id(&mut self, id: u128) {
        self.meta.node_id = id;
    }

    fn set_system_id(&mut self, id: usize) {
        self.meta.system_id = Some(id);
    }
}

} // verus!
