//! Joints: the components that connect a base or a body to a body.

pub mod revolute;

use crate::multibody::connection::ComponentKind;
use crate::multibody::joints::revolute::{Revolute, RevoluteView};
use crate::multibody::mass_properties::MassPropertiesError;
use crate::multibody::{MetaView, MultibodyTrait};
use crate::scalar::Scalar;
use crate::ui::dummies::DummyComponent;
use vstd::prelude::*;

verus! {

/// A joint of any kind.
#[derive(Debug)]
pub enum Joint {
    Revolute(Revolute),
}

pub enum JointView {
    Revolute(RevoluteView),
}

impl JointView {
    pub open spec fn meta(self) -> MetaView {
        match self {
            JointView::Revolute(j) => j.meta,
        }
    }

    pub open spec fn with_meta(self, meta: MetaView) -> JointView {
        match self {
            JointView::Revolute(j) => JointView::Revolute(RevoluteView { meta, ..j }),
        }
    }
}

impl View for Joint {
    type V = JointView;

    open spec fn view(&self) -> JointView {
        match self {
            Joint::Revolute(j) => JointView::Revolute(j@),
        }
    }
}

impl Clone for Joint {
    fn clone(&self) -> (r: Self)
        ensures
            r@ == self@,
    {
        match self {
            Joint::Revolute(j) => Joint::Revolute(j.clone()),
        }
    }
}

impl MultibodyTrait for Joint {
    open spec fn meta(&self) -> MetaView {
        self@.meta()
    }

    open spec fn kind(&self) -> ComponentKind {
        match self {
            Joint::Revolute(_) => ComponentKind::Revolute,
        }
    }

    open spec fn same_payload(&self, other: &Self) -> bool {
        self@.with_meta(other@.meta()) == other@
    }

    fn connect_from(&mut self, from_id: u128) {
        match self {
            Joint::Revolute(joint) => joint.connect_from(from_id),
        }
    }

    fn connect_to(&mut self, to_id: u128) {
        match self {
            Joint::Revolute(joint) => joint.connect_to(to_id),
        }
    }

    fn delete_from(&mut self) {
        match self {
            Joint::Revolute(joint) => joint.delete_from(),
        }
    }

    fn delete_to(&mut self, id: u128) {
        match self {
            Joint::Revolute(joint) => joint.delete_to(id),
        }
    }

    fn get_component_id(&self) -> (id: u128) {
        match self {
            Joint::Revolute(revolute) => revolute.get_component_id(),
        }
    }

    fn get_dummy_id(&self) -> (id: u128) {
        match self {
            Joint::Revolute(revolute) => revolute.get_dummy_id(),
        }
    }

    fn get_from_id(&self) -> (id: Option<u128>) {
        match self {
            Joint::Revolute(revolute) => revolute.get_from_id(),
        }
    }

    fn get_name_id(&self) -> (id: u128) {
        match self {
            Joint::Revolute(revolute) => revolute.get_name_id(),
        }
    }

    fn get_node_id(&self) -> (id: u128) {
        match self {
            Joint::Revolute(revolute) => revolute.get_node_id(),
        }
    }

    fn get_to_id(&self) -> (ids: &Vec<u128>) {
        match self {
            Joint::Revolute(revolute) => revolute.get_to_id(),
        }
    }

    /// Takes over the editable fields of an edit buffer of the joint's own
    /// kind; a buffer of another kind changes nothing. Never fails.
    fn inherit_from(&mut self, dummy: &DummyComponent) -> (r: Result<(), MassPropertiesError>)
        ensures
            r is Ok,
            final(self)@ == (match old(self)@ {
                JointView::Revolute(j) => JointView::Revolute(j.inherited(dummy@)),
            }),
    {
        match self {
            Joint::Revolute(joint) => joint.inherit_from(dummy),
        }
    }

    fn set_component_id(&mut self, id: u128) {
        match self {
            Joint::Revolute(revolute) => revolute.set_component_id(id),
        }
    }

    fn set_name_id(&mut self, id: u128) {
        match self {
            Joint::Revolute(revolute) => revolute.set_name_id(id),
        }
    }

    fn set_node_id(&mut self, id: u128) {
        match self {
            Joint::Revolute(revolute) => revolute.set_node_id(id),
        }
    }

    fn set_system_id(&mut self, id: usize) {
        match self {
            Joint::Revolute(revolute) => revolute.set_system_id(id),
        }
    }
}

/// What acts in a joint besides its motion.
#[derive(Debug, Clone, Copy)]
pub struct JointParameters {
    pub constant_force: Scalar,
    pub dampening: Scalar,
    pub spring_constant: Scalar,
}

impl Default for JointParameters {
    fn default() -> (p: Self)
        ensures
            p == (JointParameters {
                constant_force: Scalar::spec_zero(),
                dampening: Scalar::spec_zero(),
                spring_constant: Scalar::spec_zero(),
            }),
    {
        Self {
            constant_force: Scalar::zero(),
            dampening: Scalar::zero(),
            spring_constant: Scalar::zero(),
        }
    }
}

impl JointParameters {
    pub fn new(constant_force: Scalar, dampening: Scalar, spring_constant: Scalar) -> (p: Self)
        ensures
            p == (JointParameters { constant_force, dampening, spring_constant }),
    {
        Self { constant_force, dampening, spring_constant }
    }
}

} // verus!
