//! Edit buffers: what a user has typed for a component before it is saved.
//!
//! A numeric field holds the number that its text stands for, or nothing
//! where the text is empty or is no number. Whoever owns the text fields
//! reads them; the core decides what a field without a number means.

use crate::multibody::body::{BodyField, BodyView};
use crate::multibody::joints::revolute::{RevoluteField, RevoluteState, RevoluteView};
use crate::multibody::joints::{Joint, JointParameters, JointView};
use crate::multibody::mass_properties::MassPropertiesView;
use crate::multibody::{ComponentView, MultibodyComponent, MultibodyTrait};
use crate::scalar::Scalar;
use crate::ui::canvas::graph::{Graph, GraphView};
use std::collections::HashMap;
use vstd::prelude::*;

verus! {

broadcast use vstd::std_specs::hash::group_hash_axioms;

/// The number of a field, or the default where the field has none.
pub open spec fn field_or(field: Option<Scalar>, default: Scalar) -> Scalar {
    match field {
        Some(v) => v,
        None => default,
    }
}

/// Edit buffer of a base.
#[derive(Debug)]
pub struct DummyBase {
    pub id: u128,
    pub name: String,
}

pub struct DummyBaseView {
    pub id: u128,
    pub name: Seq<char>,
}

impl View for DummyBase {
    type V = DummyBaseView;

    open spec fn view(&self) -> DummyBaseView {
        DummyBaseView { id: self.id, name: self.name@ }
    }
}

impl Clone for DummyBase {
    fn clone(&self) -> (r: Self)
        ensures
            r@ == self@,
    {
        DummyBase { id: self.id, name: self.name.clone() }
    }
}

impl DummyBase {
    pub fn new(id: u128) -> (d: Self)
        ensures
            d@ == (DummyBaseView { id, name: Seq::empty() }),
    {
        Self { id, name: String::new() }
    }
}

/// Edit buffer of a body.
#[derive(Debug)]
pub struct DummyBody {
    pub id: u128,
    pub name: String,
    pub mass: Option<Scalar>,
    pub cmx: Option<Scalar>,
    pub cmy: Option<Scalar>,
    pub cmz: Option<Scalar>,
    pub ixx: Option<Scalar>,
    pub iyy: Option<Scalar>,
    pub izz: Option<Scalar>,
    pub ixy: Option<Scalar>,
    pub ixz: Option<Scalar>,
    pub iyz: Option<Scalar>,
}

pub struct DummyBodyView {
    pub id: u128,
    pub name: Seq<char>,
    pub mass: Option<Scalar>,
    pub cmx: Option<Scalar>,
    pub cmy: Option<Scalar>,
    pub cmz: Option<Scalar>,
    pub ixx: Option<Scalar>,
    pub iyy: Option<Scalar>,
    pub izz: Option<Scalar>,
    pub ixy: Option<Scalar>,
    pub ixz: Option<Scalar>,
    pub iyz: Option<Scalar>,
}

impl DummyBodyView {
    /// A buffer in which nothing has been entered.
    pub open spec fn empty(id: u128) -> DummyBodyView {
        DummyBodyView {
            id,
            name: Seq::empty(),
            mass: None,
            cmx: None,
            cmy: None,
            cmz: None,
            ixx: None,
            iyy: None,
            izz: None,
            ixy: None,
            ixz: None,
            iyz: None,
        }
    }

    /// The buffer with the mass properties of a body entered, and the same
    /// id and name.
    pub open spec fn filled(self, body: BodyView) -> DummyBodyView {
        DummyBodyView {
            id: self.id,
            name: self.name,
            mass: Some(body.mass_properties.mass),
            cmx: Some(body.mass_properties.cmx),
            cmy: Some(body.mass_properties.cmy),
            cmz: Some(body.mass_properties.cmz),
            ixx: Some(body.mass_properties.ixx),
            iyy: Some(body.mass_properties.iyy),
            izz: Some(body.mass_properties.izz),
            ixy: Some(body.mass_properties.ixy),
            ixz: Some(body.mass_properties.ixz),
            iyz: Some(body.mass_properties.iyz),
        }
    }

    /// The buffer with `value` entered in the field `field`. The name is
    /// no number: entering one there changes nothing.
    pub open spec fn with_field(self, field: BodyField, value: Option<Scalar>) -> DummyBodyView {
        match field {
            BodyField::Name => self,
            BodyField::Mass => DummyBodyView { mass: value, ..self },
            BodyField::Cmx => DummyBodyView { cmx: value, ..self },
            BodyField::Cmy => DummyBodyView { cmy: value, ..self },
            BodyField::Cmz => DummyBodyView { cmz: value, ..self },
            BodyField::Ixx => DummyBodyView { ixx: value, ..self },
            BodyField::Iyy => DummyBodyView { iyy: value, ..self },
            BodyField::Izz => DummyBodyView { izz: value, ..self },
            BodyField::Ixy => DummyBodyView { ixy: value, ..self },
            BodyField::Ixz => DummyBodyView { ixz: value, ..self },
            BodyField::Iyz => DummyBodyView { iyz: value, ..self },
        }
    }

    /// The ten numbers that the buffer stands for: a field without a number
    /// counts as one for mass and the moments of inertia, as zero for
    /// everything else.
    pub open spec fn numbers(self) -> MassPropertiesView {
        MassPropertiesView {
            mass: field_or(self.mass, Scalar::spec_one()),
            cmx: field_or(self.cmx, Scalar::spec_zero()),
            cmy: field_or(self.cmy, Scalar::spec_zero()),
            cmz: field_or(self.cmz, Scalar::spec_zero()),
            ixx: field_or(self.ixx, Scalar::spec_one()),
            iyy: field_or(self.iyy, Scalar::spec_one()),
            izz: field_or(self.izz, Scalar::spec_one()),
            ixy: field_or(self.ixy, Scalar::spec_zero()),
            ixz: field_or(self.ixz, Scalar::spec_zero()),
            iyz: field_or(self.iyz, Scalar::spec_zero()),
        }
    }
}

impl View for DummyBody {
    type V = DummyBodyView;

    open spec fn view(&self) -> DummyBodyView {
        DummyBodyView {
            id: self.id,
            name: self.name@,
            mass: self.mass,
            cmx: self.cmx,
            cmy: self.cmy,
            cmz: self.cmz,
            ixx: self.ixx,
            iyy: self.iyy,
            izz: self.izz,
            ixy: self.ixy,
            ixz: self.ixz,
            iyz: self.iyz,
        }
    }
}

impl Clone for DummyBody {
    fn clone(&self) -> (r: Self)
        ensures
            r@ == self@,
    {
        DummyBody {
            id: self.id,
            name: self.name.clone(),
            mass: self.mass,
            cmx: self.cmx,
            cmy: self.cmy,
            cmz: self.cmz,
            ixx: self.ixx,
            iyy: self.iyy,
            izz: self.izz,
            ixy: self.ixy,
            ixz: self.ixz,
            iyz: self.iyz,
        }
    }
}

impl DummyBody {
    pub fn new(id: u128) -> (d: Self)
        ensures
            d@ == DummyBodyView::empty(id),
    {
        Self {
            id,
            name: String::new(),
            mass: None,
            cmx: None,
            cmy: None,
            cmz: None,
            ixx: None,
            iyy: None,
            izz: None,
            ixy: None,
            ixz: None,
            iyz: None,
        }
    }
}

/// Edit buffer of a revolute joint.
#[derive(Debug)]
pub struct DummyRevolute {
    pub id: u128,
    pub name: String,
    pub constant_force: Option<Scalar>,
    pub dampening: Option<Scalar>,
    pub spring_constant: Option<Scalar>,
    pub theta: Option<Scalar>,
    pub omega: Option<Scalar>,
}

pub struct DummyRevoluteView {
    pub id: u128,
    pub name: Seq<char>,
    pub constant_force: Option<Scalar>,
    pub dampening: Option<Scalar>,
    pub spring_constant: Option<Scalar>,
    pub theta: Option<Scalar>,
    pub omega: Option<Scalar>,
}

impl DummyRevoluteView {
    /// A buffer in which nothing has been entered.
    pub open spec fn empty(id: u128) -> DummyRevoluteView {
        DummyRevoluteView {
            id,
            name: Seq::empty(),
            constant_force: None,
            dampening: None,
            spring_constant: None,
            theta: None,
            omega: None,
        }
    }

    /// The buffer with the parameters and the state of a joint entered,
    /// and the same id and name.
    pub open spec fn filled(self, joint: RevoluteView) -> DummyRevoluteView {
        DummyRevoluteView {
            id: self.id,
            name: self.name,
            constant_force: Some(joint.parameters.constant_force),
            dampening: Some(joint.parameters.dampening),
            spring_constant: Some(joint.parameters.spring_constant),
            theta: Some(joint.state.theta),
            omega: Some(joint.state.omega),
        }
    }

    /// The buffer with `value` entered in the field `field`. The name is
    /// no number: entering one there changes nothing.
    pub open spec fn with_field(self, field: RevoluteField, value: Option<Scalar>) -> DummyRevoluteView {
        match field {
            RevoluteField::Name => self,
            RevoluteField::ConstantForce => DummyRevoluteView { constant_force: value, ..self },
            RevoluteField::Dampening => DummyRevoluteView { dampening: value, ..self },
            RevoluteField::Omega => DummyRevoluteView { omega: value, ..self },
            RevoluteField::SpringConstant => DummyRevoluteView { spring_constant: value, ..self },
            RevoluteField::Theta => DummyRevoluteView { theta: value, ..self },
        }
    }

    /// The joint parameters that the buffer stands for: a field without a
    /// number counts as zero.
    pub open spec fn parameters(self) -> JointParameters {
        JointParameters {
            constant_force: field_or(self.constant_force, Scalar::spec_zero()),
            dampening: field_or(self.dampening, Scalar::spec_zero()),
            spring_constant: field_or(self.spring_constant, Scalar::spec_zero()),
        }
    }

    /// The initial state that the buffer stands for: a field without a
    /// number counts as zero.
    pub open spec fn state(self) -> RevoluteState {
        RevoluteState {
            theta: field_or(self.theta, Scalar::spec_zero()),
            omega: field_or(self.omega, Scalar::spec_zero()),
        }
    }
}

impl View for DummyRevolute {
    type V = DummyRevoluteView;

    open spec fn view(&self) -> DummyRevoluteView {
        DummyRevoluteView {
            id: self.id,
            name: self.name@,
            constant_force: self.constant_force,
            dampening: self.dampening,
            spring_constant: self.spring_constant,
            theta: self.theta,
            omega: self.omega,
        }
    }
}

impl Clone for DummyRevolute {
    fn clone(&self) -> (r: Self)
        ensures
            r@ == self@,
    {
        DummyRevolute {
            id: self.id,
            name: self.name.clone(),
            constant_force: self.constant_force,
            dampening: self.dampening,
            spring_constant: self.spring_constant,
            theta: self.theta,
            omega: self.omega,
        }
    }
}

impl DummyRevolute {
    pub fn new(id: u128) -> (d: Self)
        ensures
            d@ == DummyRevoluteView::empty(id),
    {
        Self {
            id,
            name: String::new(),
            constant_force: None,
            dampening: None,
            spring_constant: None,
            theta: None,
            omega: None,
        }
    }
}

/// An edit buffer of any kind.
#[derive(Debug)]
pub enum DummyComponent {
    Base(DummyBase),
    Body(DummyBody),
    Revolute(DummyRevolute),
}

pub enum DummyComponentView {
    Base(DummyBaseView),
    Body(DummyBodyView),
    Revolute(DummyRevoluteView),
}

impl DummyComponentView {
    pub open spec fn id(self) -> u128 {
        match self {
            DummyComponentView::Base(d) => d.id,
            DummyComponentView::Body(d) => d.id,
            DummyComponentView::Revolute(d) => d.id,
        }
    }

    pub open spec fn name(self) -> Seq<char> {
        match self {
            DummyComponentView::Base(d) => d.name,
            DummyComponentView::Body(d) => d.name,
            DummyComponentView::Revolute(d) => d.name,
        }
    }

    /// The buffer with another name and the same numbers.
    pub open spec fn with_name(self, name: Seq<char>) -> DummyComponentView {
        match self {
            DummyComponentView::Base(d) => DummyComponentView::Base(DummyBaseView { name, ..d }),
            DummyComponentView::Body(d) => DummyComponentView::Body(DummyBodyView { name, ..d }),
            DummyComponentView::Revolute(d) => DummyComponentView::Revolute(
                DummyRevoluteView { name, ..d },
            ),
        }
    }

    /// The buffer after it was filled from the component `component_id` of
    /// a graph, to edit that component: with the component's name, where it
    /// has one, and with its numbers. A component that is not registered,
    /// or is of another kind than the buffer, leaves the buffer as it is.
    pub open spec fn inherited(self, component_id: u128, graph: GraphView) -> DummyComponentView {
        if !graph.components.contains_key(component_id) {
            self
        } else {
            let component = graph.components[component_id];
            let name_id = component.meta().name_id;
            let named = if graph.names.contains_key(name_id) {
                self.with_name(graph.names[name_id])
            } else {
                self
            };
            match (named, component) {
                (DummyComponentView::Base(d), ComponentView::Base(_)) => named,
                (DummyComponentView::Body(d), ComponentView::Body(b)) => DummyComponentView::Body(
                    d.filled(b),
                ),
                (
                    DummyComponentView::Revolute(d),
                    ComponentView::Joint(JointView::Revolute(j)),
                ) => DummyComponentView::Revolute(d.filled(j)),
                _ => self,
            }
        }
    }

    /// The buffer of the same kind and id in which nothing is entered.
    pub open spec fn cleared(self) -> DummyComponentView {
        match self {
            DummyComponentView::Base(d) => DummyComponentView::Base(
                DummyBaseView { id: d.id, name: Seq::empty() },
            ),
            DummyComponentView::Body(d) => DummyComponentView::Body(DummyBodyView::empty(d.id)),
            DummyComponentView::Revolute(d) => DummyComponentView::Revolute(
                DummyRevoluteView::empty(d.id),
            ),
        }
    }
}

impl View for DummyComponent {
    type V = DummyComponentView;

    open spec fn view(&self) -> DummyComponentView {
        match self {
            DummyComponent::Base(d) => DummyComponentView::Base(d@),
            DummyComponent::Body(d) => DummyComponentView::Body(d@),
            DummyComponent::Revolute(d) => DummyComponentView::Revolute(d@),
        }
    }
}

impl Clone for DummyComponent {
    fn clone(&self) -> (r: Self)
        ensures
            r@ == self@,
    {
        match self {
            DummyComponent::Base(d) => DummyComponent::Base(d.clone()),
            DummyComponent::Body(d) => DummyComponent::Body(d.clone()),
            DummyComponent::Revolute(d) => DummyComponent::Revolute(d.clone()),
        }
    }
}

/// Uniform access to an edit buffer, whatever its kind.
pub trait DummyTrait: Sized {
    /// The buffer as one of any kind.
    spec fn buffer(&self) -> DummyComponentView;

    /// Empties every field. The id stays.
    fn clear(&mut self)
        ensures
            final(self).buffer() == old(self).buffer().cleared(),
    ;

    fn get_id(&self) -> (id: u128)
        ensures
            id == self.buffer().id(),
    ;

    fn get_name(&self) -> (name: &str)
        ensures
            name@ == self.buffer().name(),
    ;

    /// Fills the buffer from the component `component_id` of a graph, to
    /// edit that component.
    fn inherit_from(&mut self, component_id: &u128, graph: &Graph)
        ensures
            final(self).buffer() == old(self).buffer().inherited(*component_id, graph@),
    ;

    fn set_name(&mut self, name: &str)
        ensures
            final(self).buffer() == old(self).buffer().with_name(name@),
    ;
}

/// The name of a component of a graph, where it has one.
pub fn name_of<'a>(graph: &'a Graph, component: &MultibodyComponent) -> (name: Option<&'a str>)
    ensures
        match name {
            Some(n) => graph@.names.contains_key(component@.meta().name_id) && n@
                == graph@.names[component@.meta().name_id],
            None => !graph@.names.contains_key(component@.meta().name_id),
        },
{
    match graph.names.get(&component.get_name_id()) {
        Some(name) => Some(name.as_str()),
        None => None,
    }
}

impl DummyTrait for DummyBase {
    open spec fn buffer(&self) -> DummyComponentView {
        DummyComponentView::Base(self@)
    }

    fn clear(&mut self) {
        self.name = String::new();
    }

    fn get_id(&self) -> (id: u128) {
        self.id
    }

    fn get_name(&self) -> (name: &str) {
        self.name.as_str()
    }

    fn inherit_from(&mut self, component_id: &u128, graph: &Graph) {
        match graph.components.get(component_id) {
            Some(component) => {
                match component {
                    MultibodyComponent::Base(_) => {
                        match name_of(graph, component) {
                            Some(name) => self.set_name(name),
                            None => {},
                        }
                    },
                    _ => {},
                }
            },
            None => {},
        }
    }

    fn set_name(&mut self, name: &str) {
        self.name = name.to_owned();
    }
}

impl DummyTrait for DummyBody {
    open spec fn buffer(&self) -> DummyComponentView {
        DummyComponentView::Body(self@)
    }

    fn clear(&mut self) {
        self.name = String::new();
        self.mass = None;
        self.cmx = None;
        self.cmy = None;
        self.cmz = None;
        self.ixx = None;
        self.iyy = None;
        self.izz = None;
        self.ixy = None;
        self.ixz = None;
        self.iyz = None;
    }

    fn get_id(&self) -> (id: u128) {
        self.id
    }

    fn get_name(&self) -> (name: &str) {
        self.name.as_str()
    }

    fn inherit_from(&mut self, component_id: &u128, graph: &Graph) {
        match graph.components.get(component_id) {
            Some(component) => {
                match component {
                    MultibodyComponent::Body(body) => {
                        match name_of(graph, component) {
                            Some(name) => self.set_name(name),
                            None => {},
                        }
                        self.mass = Some(body.mass_properties.get_mass());
                        self.cmx = Some(body.mass_properties.get_cmx());
                        self.cmy = Some(body.mass_properties.get_cmy());
                        self.cmz = Some(body.mass_properties.get_cmz());
                        self.ixx = Some(body.mass_properties.get_ixx());
                        self.iyy = Some(body.mass_properties.get_iyy());
                        self.izz = Some(body.mass_properties.get_izz());
                        self.ixy = Some(body.mass_properties.get_ixy());
                        self.ixz = Some(body.mass_properties.get_ixz());
                        self.iyz = Some(body.mass_properties.get_iyz());
                    },
                    _ => {},
                }
            },
            None => {},
        }
    }

    fn set_name(&mut self, name: &str) {
        self.name = name.to_owned();
    }
}

impl DummyBody {
    /// Enters `value` in the field `field`. The name is no number:
    /// entering one there changes nothing.
    pub fn set_field(&mut self, field: BodyField, value: Option<Scalar>)
        ensures
            final(self)@ == old(self)@.with_field(field, value),
    {
        match field {
            BodyField::Name => {},
            BodyField::Mass => self.mass = value,
            BodyField::Cmx => self.cmx = value,
            BodyField::Cmy => self.cmy = value,
            BodyField::Cmz => self.cmz = value,
            BodyField::Ixx => self.ixx = value,
            BodyField::Iyy => self.iyy = value,
            BodyField::Izz => self.izz = value,
            BodyField::Ixy => self.ixy = value,
            BodyField::Ixz => self.ixz = value,
            BodyField::Iyz => self.iyz = value,
        }
    }
}

impl DummyTrait for DummyRevolute {
    open spec fn buffer(&self) -> DummyComponentView {
        DummyComponentView::Revolute(self@)
    }

    fn clear(&mut self) {
        self.name = String::new();
        self.constant_force = None;
        self.dampening = None;
        self.spring_constant = None;
        self.theta = None;
        self.omega = None;
    }

    fn get_id(&self) -> (id: u128) {
        self.id
    }

    fn get_name(&self) -> (name: &str) {
        self.name.as_str()
    }

    fn inherit_from(&mut self, component_id: &u128, graph: &Graph) {
        match graph.components.get(component_id) {
            Some(component) => {
                match component {
                    MultibodyComponent::Joint(Joint::Revolute(joint)) => {
                        match name_of(graph, component) {
                            Some(name) => self.set_name(name),
                            None => {},
                        }
                        self.constant_force = Some(joint.parameters.constant_force);
                        self.dampening = Some(joint.parameters.dampening);
                        self.spring_constant = Some(joint.parameters.spring_constant);
                        self.theta = Some(joint.state.theta);
                        self.omega = Some(joint.state.omega);
                    },
                    _ => {},
                }
            },
            None => {},
        }
    }

    fn set_name(&mut self, name: &str) {
        self.name = name.to_owned();
    }
}

impl DummyRevolute {
    /// Enters `value` in the field `field`. The name is no number:
    /// entering one there changes nothing.
    pub fn set_field(&mut self, field: RevoluteField, value: Option<Scalar>)
        ensures
            final(self)@ == old(self)@.with_field(field, value),
    {
        match field {
            RevoluteField::Name => {},
            RevoluteField::ConstantForce => self.constant_force = value,
            RevoluteField::Dampening => self.dampening = value,
            RevoluteField::Omega => self.omega = value,
            RevoluteField::SpringConstant => self.spring_constant = value,
            RevoluteField::Theta => self.theta = value,
        }
    }
}

impl DummyTrait for DummyComponent {
    open spec fn buffer(&self) -> DummyComponentView {
        self@
    }

    fn clear(&mut self) {
        match self {
            DummyComponent::Base(component) => component.clear(),
            DummyComponent::Body(component) => component.clear(),
            DummyComponent::Revolute(component) => component.clear(),
        }
    }

    fn get_id(&self) -> (id: u128) {
        match self {
            DummyComponent::Base(component) => component.get_id(),
            DummyComponent::Body(component) => component.get_id(),
            DummyComponent::Revolute(component) => component.get_id(),
        }
    }

    fn get_name(&self) -> (name: &str) {
        match self {
            DummyComponent::Base(component) => component.get_name(),
            DummyComponent::Body(component) => component.get_name(),
            DummyComponent::Revolute(component) => component.get_name(),
        }
    }

    fn inherit_from(&mut self, component_id: &u128, graph: &Graph) {
        match self {
            DummyComponent::Base(dummy) => dummy.inherit_from(component_id, graph),
            DummyComponent::Body(dummy) => dummy.inherit_from(component_id, graph),
            DummyComponent::Revolute(dummy) => dummy.inherit_from(component_id, graph),
        }
    }

    fn set_name(&mut self, name: &str) {
        match self {
            DummyComponent::Base(component) => component.set_name(name),
            DummyComponent::Body(component) => component.set_name(name),
            DummyComponent::Revolute(component) => component.set_name(name),
        }
    }
}

} // verus!
