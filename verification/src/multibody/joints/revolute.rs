//! The revolute joint: one rotation about a fixed axis.

use crate::multibody::connection::{ComponentKind, JointConnection};
use crate::multibody::joints::JointParameters;
use crate::multibody::mass_properties::MassPropertiesError;
use crate::multibody::{MetaView, MultibodyMeta, MultibodyTrait};
use crate::scalar::Scalar;
use crate::ui::dummies::{DummyComponent, DummyComponentView, DummyRevolute};
use vstd::prelude::*;

verus! {

/// The editable fields of a revolute joint.
#[derive(Debug, Clone, Copy)]
pub enum RevoluteField {
    Name,
    ConstantForce,
    Dampening,
    Omega,
    SpringConstant,
    Theta,
}

/// Angle and angular velocity of a revolute joint.
#[derive(Debug, Clone, Copy)]
pub struct RevoluteState {
    pub theta: Scalar,
    pub omega: Scalar,
}

impl RevoluteState {
    pub fn new(theta: Scalar, omega: Scalar) -> (s: Self)
        ensures
            s == (RevoluteState { theta, omega }),
    {
        Self { theta, omega }
    }
}

/// A revolute joint: identity, connectivity, parameters and state.
#[derive(Debug)]
pub struct Revolute {
    pub meta: MultibodyMeta,
    pub parameters: JointParameters,
    pub state: RevoluteState,
}

pub struct RevoluteView {
    pub meta: MetaView,
    pub parameters: JointParameters,
    pub state: RevoluteState,
}

impl RevoluteView {
    /// The joint after it has taken over an edit buffer: parameters and
    /// initial state from a revolute joint's buffer, nothing from another.
    pub open spec fn inherited(self, dummy: DummyComponentView) -> RevoluteView {
        match dummy {
            DummyComponentView::Revolute(d) => RevoluteView {
                parameters: d.parameters(),
                state: d.state(),
                ..self
            },
            _ => self,
        }
    }

    /// The bodies on the two sides of the joint: the upstream connection,
    /// and the first of the downstream ones.
    pub open spec fn connection(self) -> JointConnection {
        JointConnection {
            inner_body: self.meta.from_id,
            outer_body: if self.meta.to_id.len() > 0 {
                Some(self.meta.to_id[0])
            } else {
                None
            },
        }
    }
}

impl View for Revolute {
    type V = RevoluteView;

    open spec fn view(&self) -> RevoluteView {
        RevoluteView { meta: self.meta@, parameters: self.parameters, state: self.state }
    }
}

impl Clone for Revolute {
    fn clone(&self) -> (r: Self)
        ensures
            r@ == self@,
    {
        Revolute { meta: self.meta.clone(), parameters: self.parameters, state: self.state }
    }
}

/// The joint parameters that an edit buffer stands for.
pub fn parameters_of(dummy: &DummyRevolute) -> (p: JointParameters)
    ensures
        p == dummy@.parameters(),
{
    JointParameters::new(
        Scalar::or_default(dummy.constant_force, Scalar::zero()),
        Scalar::or_default(dummy.dampening, Scalar::zero()),
        Scalar::or_default(dummy.spring_constant, Scalar::zero()),
    )
}

/// The initial state that an edit buffer stands for.
pub fn state_of(dummy: &DummyRevolute) -> (s: RevoluteState)
    ensures
        s == dummy@.state(),
{
    RevoluteState::new(
        Scalar::or_default(dummy.theta, Scalar::zero()),
        Scalar::or_default(dummy.omega, Scalar::zero()),
    )
}

impl Revolute {
    /// Creates a revolute joint from its edit buffer; a field without a
    /// number counts as zero.
    pub fn from_dummy(component_id: u128, node_id: u128, name_id: u128, dummy: &DummyRevolute) -> (j:
        Self)
        ensures
            j@ == (RevoluteView {
                meta: MetaView::fresh(component_id, dummy@.id, name_id, node_id),
                parameters: dummy@.parameters(),
                state: dummy@.state(),
            }),
    {
        let meta = MultibodyMeta::new(component_id, dummy.id, name_id, node_id);
        let state = state_of(dummy);
        let parameters = parameters_of(dummy);
        Self { meta, parameters, state }
    }

    /// The bodies on the two sides of the joint.
    pub fn connection(&self) -> (c: JointConnection)
        ensures
            c == self@.connection(),
    {
        let outer_body = if self.meta.to_id.len() > 0 {
            Some(self.meta.to_id[0])
        } else {
            None
        };
        JointConnection { inner_body: self.meta.from_id, outer_body }
    }
}

impl MultibodyTrait for Revolute {
    open spec fn meta(&self) -> MetaView {
        self.meta@
    }

    open spec fn kind(&self) -> ComponentKind {
        ComponentKind::Revolute
    }

    open spec fn same_payload(&self, other: &Self) -> bool {
        self.parameters == other.parameters && self.state == other.state
    }

    fn connect_from(&mut self, id: u128) {
        self.meta.from_id = Some(id);
    }

    fn connect_to(&mut self, id: u128) {
        self.meta.to_id.push(id);
    }

    fn delete_from(&mut self) {
        self.meta.from_id = None;
    }

    fn delete_to(&mut self, id: u128) {
        self.meta.remove_to(id);
    }

    fn get_component_id(&self) -> (id: u128) {
        self.meta.component_id
    }

    fn get_dummy_id(&self) -> (id: u128) {
        self.meta.dummy_id
    }

    fn get_from_id(&self) -> (id: Option<u128>) {
        self.meta.from_id
    }

    fn get_name_id(&self) -> (id: u128) {
        self.meta.name_id
    }

    fn get_node_id(&self) -> (id: u128) {
        self.meta.node_id
    }

    fn get_to_id(&self) -> (ids: &Vec<u128>) {
        &self.meta.to_id
    }

    /// Takes over parameters and initial state from a revolute joint's edit
    /// buffer, each field without a number counted as zero. A buffer of
    /// another kind changes nothing. Never fails.
    fn inherit_from(&mut self, dummy: &DummyComponent) -> (r: Result<(), MassPropertiesError>)
        ensures
            r is Ok,
            final(self)@ == old(self)@.inherited(dummy@),
    {
        match dummy {
            DummyComponent::Revolute(d) => {
                self.parameters = parameters_of(d);
                self.state = state_of(d);
            },
            _ => {},
        }
        Ok(())
    }

    fn set_component_id(&mut self, id: u128) {
        self.meta.component_id = id;
    }

    fn set_name_id(&mut self, id: u128) {
        self.meta.name_id = id;
    }

    fn set_node_id(&mut self, id: u128) {
        self.meta.node_id = id;
    }

    fn set_system_id(&mut self, id: usize) {
        self.meta.system_id = Some(id);
    }
}

} // verus!
