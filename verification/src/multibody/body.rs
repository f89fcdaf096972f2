//! Bodies: the components that carry mass.

use crate::multibody::connection::ComponentKind;
use crate::multibody::mass_properties::{MassProperties, MassPropertiesError, MassPropertiesView};
use crate::multibody::{MetaView, MultibodyMeta, MultibodyTrait};
use crate::scalar::Scalar;
use crate::ui::dummies::{DummyBody, DummyBodyView, DummyComponent, DummyComponentView};
use vstd::prelude::*;

verus! {

/// The editable fields of a body.
#[derive(Debug, Clone, Copy)]
pub enum BodyField {
    Name,
    Mass,
    Cmx,
    Cmy,
    Cmz,
    Ixx,
    Iyy,
    Izz,
    Ixy,
    Ixz,
    Iyz,
}

/// A body: identity, connectivity, and mass properties.
#[derive(Debug)]
pub struct Body {
    pub meta: MultibodyMeta,
    pub mass_properties: MassProperties,
}

pub struct BodyView {
    pub meta: MetaView,
    pub mass_properties: MassPropertiesView,
}

impl View for Body {
    type V = BodyView;

    open spec fn view(&self) -> BodyView {
        BodyView { meta: self.meta@, mass_properties: self.mass_properties@ }
    }
}

impl Clone for Body {
    fn clone(&self) -> (r: Self)
        ensures
            r@ == self@,
    {
        Body { meta: self.meta.clone(), mass_properties: self.mass_properties }
    }
}

/// The mass properties that an edit buffer gives a new body: its numbers
/// where they meet the constraints, unit mass properties where they do not.
pub open spec fn created_mass_properties(dummy: DummyBodyView) -> MassPropertiesView {
    if dummy.numbers().fault() is None {
        dummy.numbers()
    } else {
        MassPropertiesView::unit()
    }
}

/// Builds mass properties from the numbers of an edit buffer, each field
/// without a number replaced by its default.
pub fn mass_properties_of(dummy: &DummyBody) -> (r: Result<MassProperties, MassPropertiesError>)
    ensures
        match r {
            Ok(m) => dummy@.numbers().fault() is None && m@ == dummy@.numbers(),
            Err(e) => dummy@.numbers().fault() == Some(e),
        },
{
    MassProperties::new(
        Scalar::or_default(dummy.mass, Scalar::one()),
        Scalar::or_default(dummy.cmx, Scalar::zero()),
        Scalar::or_default(dummy.cmy, Scalar::zero()),
        Scalar::or_default(dummy.cmz, Scalar::zero()),
        Scalar::or_default(dummy.ixx, Scalar::one()),
        Scalar::or_default(dummy.iyy, Scalar::one()),
        Scalar::or_default(dummy.izz, Scalar::one()),
        Scalar::or_default(dummy.ixy, Scalar::zero()),
        Scalar::or_default(dummy.ixz, Scalar::zero()),
        Scalar::or_default(dummy.iyz, Scalar::zero()),
    )
}

impl Body {
    /// Creates a body from its edit buffer. Creation never fails: a field
    /// without a number takes its default, and a buffer whose numbers break
    /// a constraint gives unit mass properties.
    pub fn from_dummy(component_id: u128, node_id: u128, name_id: u128, dummy: &DummyBody) -> (b:
        Self)
        ensures
            b@.meta == MetaView::fresh(component_id, dummy@.id, name_id, node_id),
            b@.mass_properties == created_mass_properties(dummy@),
            b@.mass_properties.valid(),
    {
        let meta = MultibodyMeta::new(component_id, dummy.id, name_id, node_id);
        let mass_properties = match mass_properties_of(dummy) {
            Ok(m) => m,
            Err(_) => MassProperties::unit(),
        };
        proof {
            use_type_invariant(&mass_properties);
        }
        Self { meta, mass_properties }
    }
}

impl MultibodyTrait for Body {
    open spec fn meta(&self) -> MetaView {
        self.meta@
    }

    open spec fn kind(&self) -> ComponentKind {
        ComponentKind::Body
    }

    open spec fn same_payload(&self, other: &Self) -> bool {
        self.mass_properties@ == other.mass_properties@
    }

    fn connect_from(&mut self, id: u128) {
        self.meta.from_id = Some(id);
    }

    fn connect_to(&mut self, id: u128) {
        self.meta.to_id.push(id);
    }

    fn delete_from(&mut self) {
        self.meta.from_id = None;
    }

    fn delete_to(&mut self, id: u128) {
        self.meta.remove_to(id);
    }

    fn get_component_id(&self) -> (id: u128) {
        self.meta.component_id
    }

    fn get_dummy_id(&self) -> (id: u128) {
        self.meta.dummy_id
    }

    fn get_from_id(&self) -> (id: Option<u128>) {
        self.meta.from_id
    }

    fn get_name_id(&self) -> (id: u128) {
        self.meta.name_id
    }

    fn get_node_id(&self) -> (id: u128) {
        self.meta.node_id
    }

    fn get_to_id(&self) -> (ids: &Vec<u128>) {
        &self.meta.to_id
    }

    /// Takes over the numbers of a body's edit buffer, each field without a
    /// number replaced by its default. Where the numbers break a
    /// constraint the first broken one is reported and the body is left as
    /// it was. A buffer of another kind changes nothing.
    fn inherit_from(&mut self, dummy: &DummyComponent) -> (r: Result<(), MassPropertiesError>)
        ensures
            match dummy@ {
                DummyComponentView::Body(d) => match d.numbers().fault() {
                    None => r is Ok && final(self)@ == (BodyView {
                        mass_properties: d.numbers(),
                        ..old(self)@
                    }),
                    Some(e) => r == Err::<(), _>(e) && final(self)@ == old(self)@,
                },
                _ => r is Ok && final(self)@ == old(self)@,
            },
    {
        match dummy {
            DummyComponent::Body(body) => {
                match mass_properties_of(body) {
                    Ok(m) => {
                        self.mass_properties = m;
                        Ok(())
                    },
                    Err(e) => Err(e),
                }
            },
            _ => Ok(()),
        }
    }

    fn set_component_id(&mut self, id: u128) {
        self.meta.component_id = id;
    }

    fn set_name_id(&mut self, id: u128) {
        self.meta.name_id = id;
    }

    fn set_node_id(&mut self, id: u128) {
        self.meta.node_id = id;
    }

    fn set_system_id(&mut self, id: usize) {
        self.meta.system_id = Some(id);
    }
}

} // verus!
