//! The typed components of a multibody model and what they share: identity,
//! connectivity, and uniform access to both whatever the kind.

pub mod base;
pub mod body;
pub mod connection;
pub mod joints;
pub mod mass_properties;

use crate::multibody::base::{Base, BaseView};
use crate::multibody::body::{created_mass_properties, Body, BodyView};
use crate::multibody::connection::ComponentKind;
use crate::multibody::joints::revolute::{Revolute, RevoluteView};
use crate::multibody::joints::{Joint, JointView};
use crate::multibody::mass_properties::MassPropertiesError;
use crate::ui::dummies::{DummyComponent, DummyComponentView};
use vstd::prelude::*;

verus! {

/// Identity and connectivity of a component.
#[derive(Debug)]
pub struct MultibodyMeta {
    pub component_id: u128,
    pub dummy_id: u128,
    pub from_id: Option<u128>,
    pub name_id: u128,
    pub node_id: u128,
    pub system_id: Option<usize>,
    pub to_id: Vec<u128>,
}

/// Identity and connectivity of a component, as mathematics sees them.
pub struct MetaView {
    pub component_id: u128,
    pub dummy_id: u128,
    pub from_id: Option<u128>,
    pub name_id: u128,
    pub node_id: u128,
    pub system_id: Option<usize>,
    pub to_id: Seq<u128>,
}

/// The test that an id is another one than `id`.
pub open spec fn other_than(id: u128) -> spec_fn(u128) -> bool {
    |t: u128| t != id
}

impl MetaView {
    /// A component that was just created: connected to nothing, not yet
    /// part of a resolved system.
    pub open spec fn fresh(component_id: u128, dummy_id: u128, name_id: u128, node_id: u128) -> MetaView {
        MetaView {
            component_id,
            dummy_id,
            from_id: None,
            name_id,
            node_id,
            system_id: None,
            to_id: Seq::empty(),
        }
    }

    /// The downstream connections without `id`, the others in their order.
    pub open spec fn without_to(self, id: u128) -> MetaView {
        MetaView { to_id: self.to_id.filter(other_than(id)), ..self }
    }
}

impl View for MultibodyMeta {
    type V = MetaView;

    open spec fn view(&self) -> MetaView {
        MetaView {
            component_id: self.component_id,
            dummy_id: self.dummy_id,
            from_id: self.from_id,
            name_id: self.name_id,
            node_id: self.node_id,
            system_id: self.system_id,
            to_id: self.to_id@,
        }
    }
}

impl Clone for MultibodyMeta {
    fn clone(&self) -> (r: Self)
        ensures
            r@ == self@,
    {
        MultibodyMeta {
            component_id: self.component_id,
            dummy_id: self.dummy_id,
            from_id: self.from_id,
            name_id: self.name_id,
            node_id: self.node_id,
            system_id: self.system_id,
            to_id: self.to_id.clone(),
        }
    }
}

impl MultibodyMeta {
    pub fn new(component_id: u128, dummy_id: u128, name_id: u128, node_id: u128) -> (m: Self)
        ensures
            m@ == MetaView::fresh(component_id, dummy_id, name_id, node_id),
    {
        MultibodyMeta {
            component_id,
            dummy_id,
            from_id: None,
            name_id,
            node_id,
            system_id: None,
            to_id: Vec::new(),
        }
    }

    /// Takes every occurrence of `id` out of the downstream connections and
    /// keeps the others in their order.
    pub fn remove_to(&mut self, id: u128)
        ensures
            final(self)@ == old(self)@.without_to(id),
    {
        let ghost keep = other_than(id);
        let mut kept: Vec<u128> = Vec::new();
        let mut i: usize = 0;
        while i < self.to_id.len()
            invariant
                i <= self.to_id.len(),
                *self == *old(self),
                keep == other_than(id),
                kept@ == self.to_id@.take(i as int).filter(keep),
            decreases self.to_id.len() - i,
        {
            let t = self.to_id[i];
            proof {
                let next = self.to_id@.take(i + 1);
                assert(next.drop_last() =~= self.to_id@.take(i as int));
                assert(next.last() == t);
                reveal(Seq::filter);
            }
            if t != id {
                kept.push(t);
            }
            i += 1;
        }
        proof {
            assert(self.to_id@.take(i as int) =~= self.to_id@);
        }
        self.to_id = kept;
    }
}

/// Uniform access to identity and connectivity, whatever the component is.
pub trait MultibodyTrait: Sized {
    /// The component's identity and connectivity.
    spec fn meta(&self) -> MetaView;

    /// What kind of component this is.
    spec fn kind(&self) -> ComponentKind;

    /// The two components agree in everything but identity and connectivity.
    spec fn same_payload(&self, other: &Self) -> bool;

    /// Records the upstream connection. A base has none: nothing precedes
    /// it, and the call changes nothing there.
    fn connect_from(&mut self, id: u128)
        ensures
            final(self).kind() == old(self).kind(),
            final(self).same_payload(old(self)),
            old(self).kind() is Base ==> final(self).meta() == old(self).meta(),
            !(old(self).kind() is Base) ==> final(self).meta() == (MetaView {
                from_id: Some(id),
                ..old(self).meta()
            }),
    ;

    /// Appends a downstream connection.
    fn connect_to(&mut self, id: u128)
        ensures
            final(self).kind() == old(self).kind(),
            final(self).same_payload(old(self)),
            final(self).meta() == (MetaView {
                to_id: old(self).meta().to_id.push(id),
                ..old(self).meta()
            }),
    ;

    /// Forgets the upstream connection.
    fn delete_from(&mut self)
        ensures
            final(self).kind() == old(self).kind(),
            final(self).same_payload(old(self)),
            final(self).meta() == (MetaView { from_id: None, ..old(self).meta() }),
    ;

    /// Forgets the downstream connection to `id`.
    fn delete_to(&mut self, id: u128)
        ensures
            final(self).kind() == old(self).kind(),
            final(self).same_payload(old(self)),
            final(self).meta() == old(self).meta().without_to(id),
    ;

    fn get_component_id(&self) -> (id: u128)
        ensures
            id == self.meta().component_id,
    ;

    fn get_dummy_id(&self) -> (id: u128)
        ensures
            id == self.meta().dummy_id,
    ;

    fn get_from_id(&self) -> (id: Option<u128>)
        ensures
            id == self.meta().from_id,
    ;

    fn get_name_id(&self) -> (id: u128)
        ensures
            id == self.meta().name_id,
    ;

    fn get_node_id(&self) -> (id: u128)
        ensures
            id == self.meta().node_id,
    ;

    fn get_to_id(&self) -> (ids: &Vec<u128>)
        ensures
            ids@ == self.meta().to_id,
    ;

    /// Takes over the editable fields of an edit buffer of the component's
    /// own kind. Identity and connectivity stay; where the buffer is
    /// refused, so does everything else.
    fn inherit_from(&mut self, dummy: &DummyComponent) -> (r: Result<(), MassPropertiesError>)
        ensures
            final(self).kind() == old(self).kind(),
            final(self).meta() == old(self).meta(),
            r is Err ==> final(self).same_payload(old(self)),
    ;

    fn set_component_id(&mut self, id: u128)
        ensures
            final(self).kind() == old(self).kind(),
            final(self).same_payload(old(self)),
            final(self).meta() == (MetaView { component_id: id, ..old(self).meta() }),
    ;

    fn set_name_id(&mut self, id: u128)
        ensures
            final(self).kind() == old(self).kind(),
            final(self).same_payload(old(self)),
            final(self).meta() == (MetaView { name_id: id, ..old(self).meta() }),
    ;

    fn set_node_id(&mut self, id: u128)
        ensures
            final(self).kind() == old(self).kind(),
            final(self).same_payload(old(self)),
            final(self).meta() == (MetaView { node_id: id, ..old(self).meta() }),
    ;

    /// Records the component's place in a resolved system.
    fn set_system_id(&mut self, id: usize)
        ensures
            final(self).kind() == old(self).kind(),
            final(self).same_payload(old(self)),
            final(self).meta() == (MetaView { system_id: Some(id), ..old(self).meta() }),
    ;
}

/// A component of any kind.
#[derive(Debug)]
pub enum MultibodyComponent {
    Base(Base),
    Body(Body),
    Joint(Joint),
}

pub enum ComponentView {
    Base(BaseView),
    Body(BodyView),
    Joint(JointView),
}

impl ComponentView {
    pub open spec fn meta(self) -> MetaView {
        match self {
            ComponentView::Base(c) => c.meta,
            ComponentView::Body(c) => c.meta,
            ComponentView::Joint(c) => c.meta(),
        }
    }

    /// The same component with other identity and connectivity.
    pub open spec fn with_meta(self, meta: MetaView) -> ComponentView {
        match self {
            ComponentView::Base(c) => ComponentView::Base(BaseView { meta }),
            ComponentView::Body(c) => ComponentView::Body(BodyView { meta, ..c }),
            ComponentView::Joint(c) => ComponentView::Joint(c.with_meta(meta)),
        }
    }

    pub open spec fn kind(self) -> ComponentKind {
        match self {
            ComponentView::Base(_) => ComponentKind::Base,
            ComponentView::Body(_) => ComponentKind::Body,
            ComponentView::Joint(JointView::Revolute(_)) => ComponentKind::Revolute,
        }
    }

    /// The component with `id` as its place in a resolved system.
    pub open spec fn with_system_id(self, id: usize) -> ComponentView {
        self.with_meta(MetaView { system_id: Some(id), ..self.meta() })
    }

    /// The component with `id` recorded as its upstream connection; a base
    /// records none.
    pub open spec fn connected_from(self, id: u128) -> ComponentView {
        if self is Base {
            self
        } else {
            self.with_meta(MetaView { from_id: Some(id), ..self.meta() })
        }
    }

    /// The component with `id` appended to its downstream connections.
    pub open spec fn connected_to(self, id: u128) -> ComponentView {
        self.with_meta(MetaView { to_id: self.meta().to_id.push(id), ..self.meta() })
    }

    /// The component without any connection to `id`, upstream or
    /// downstream.
    pub open spec fn detached_from(self, id: u128) -> ComponentView {
        let meta = self.meta().without_to(id);
        if meta.from_id == Some(id) {
            self.with_meta(MetaView { from_id: None, ..meta })
        } else {
            self.with_meta(meta)
        }
    }

    /// The component that an edit buffer creates. The buffer's kind decides
    /// the component's.
    pub open spec fn created(
        component_id: u128,
        name_id: u128,
        node_id: u128,
        dummy: DummyComponentView,
    ) -> ComponentView {
        let meta = MetaView::fresh(component_id, dummy.id(), name_id, node_id);
        match dummy {
            DummyComponentView::Base(_) => ComponentView::Base(BaseView { meta }),
            DummyComponentView::Body(d) => ComponentView::Body(
                BodyView { meta, mass_properties: created_mass_properties(d) },
            ),
            DummyComponentView::Revolute(d) => ComponentView::Joint(
                JointView::Revolute(
                    RevoluteView { meta, parameters: d.parameters(), state: d.state() },
                ),
            ),
        }
    }

    /// Why the component refuses an edit buffer: a body refuses a body's
    /// buffer whose numbers break a constraint. Nothing else is refused.
    pub open spec fn inherit_fault(self, dummy: DummyComponentView) -> Option<MassPropertiesError> {
        match (self, dummy) {
            (ComponentView::Body(_), DummyComponentView::Body(d)) => d.numbers().fault(),
            _ => None,
        }
    }

    /// The component after it was asked to take over an edit buffer: with
    /// the buffer's numbers where the buffer is of the component's kind and
    /// is not refused, unchanged otherwise.
    pub open spec fn inherited(self, dummy: DummyComponentView) -> ComponentView {
        match self {
            ComponentView::Base(_) => self,
            ComponentView::Body(b) => match dummy {
                DummyComponentView::Body(d) => if d.numbers().fault() is None {
                    ComponentView::Body(BodyView { mass_properties: d.numbers(), ..b })
                } else {
                    self
                },
                _ => self,
            },
            ComponentView::Joint(JointView::Revolute(j)) => ComponentView::Joint(
                JointView::Revolute(j.inherited(dummy)),
            ),
        }
    }
}

impl View for MultibodyComponent {
    type V = ComponentView;

    open spec fn view(&self) -> ComponentView {
        match self {
            MultibodyComponent::Base(c) => ComponentView::Base(c@),
            MultibodyComponent::Body(c) => ComponentView::Body(c@),
            MultibodyComponent::Joint(c) => ComponentView::Joint(c@),
        }
    }
}

impl Clone for MultibodyComponent {
    fn clone(&self) -> (r: Self)
        ensures
            r@ == self@,
    {
        match self {
            MultibodyComponent::Base(c) => MultibodyComponent::Base(c.clone()),
            MultibodyComponent::Body(c) => MultibodyComponent::Body(c.clone()),
            MultibodyComponent::Joint(c) => MultibodyComponent::Joint(c.clone()),
        }
    }
}

impl MultibodyTrait for MultibodyComponent {
    open spec fn meta(&self) -> MetaView {
        self@.meta()
    }

    open spec fn kind(&self) -> ComponentKind {
        self@.kind()
    }

    open spec fn same_payload(&self, other: &Self) -> bool {
        self@.with_meta(other@.meta()) == other@
    }

    fn connect_from(&mut self, from_id: u128)
        ensures
            final(self)@ == old(self)@.connected_from(from_id),
    {
        match self {
            MultibodyComponent::Base(base) => base.connect_from(from_id),
            MultibodyComponent::Body(body) => body.connect_from(from_id),
            MultibodyComponent::Joint(joint) => joint.connect_from(from_id),
        }
    }

    fn connect_to(&mut self, to_id: u128)
        ensures
            final(self)@ == old(self)@.connected_to(to_id),
    {
        match self {
            MultibodyComponent::Base(base) => base.connect_to(to_id),
            MultibodyComponent::Body(body) => body.connect_to(to_id),
            MultibodyComponent::Joint(joint) => joint.connect_to(to_id),
        }
    }

    fn delete_from(&mut self)
        ensures
            final(self)@ == old(self)@.with_meta(MetaView { from_id: None, ..old(self)@.meta() }),
    {
        match self {
            MultibodyComponent::Base(base) => base.delete_from(),
            MultibodyComponent::Body(body) => body.delete_from(),
            MultibodyComponent::Joint(joint) => joint.delete_from(),
        }
    }

    fn delete_to(&mut self, id: u128)
        ensures
            final(self)@ == old(self)@.with_meta(old(self)@.meta().without_to(id)),
    {
        match self {
            MultibodyComponent::Base(base) => base.delete_to(id),
            MultibodyComponent::Body(body) => body.delete_to(id),
            MultibodyComponent::Joint(joint) => joint.delete_to(id),
        }
    }

    fn get_component_id(&self) -> (id: u128) {
        match self {
            MultibodyComponent::Base(base) => base.get_component_id(),
            MultibodyComponent::Body(body) => body.get_component_id(),
            MultibodyComponent::Joint(joint) => joint.get_component_id(),
        }
    }

    fn get_dummy_id(&self) -> (id: u128) {
        match self {
            MultibodyComponent::Base(base) => base.get_dummy_id(),
            MultibodyComponent::Body(body) => body.get_dummy_id(),
            MultibodyComponent::Joint(joint) => joint.get_dummy_id(),
        }
    }

    fn get_from_id(&self) -> (id: Option<u128>) {
        match self {
            MultibodyComponent::Base(base) => base.get_from_id(),
            MultibodyComponent::Body(body) => body.get_from_id(),
            MultibodyComponent::Joint(joint) => joint.get_from_id(),
        }
    }

    fn get_name_id(&self) -> (id: u128) {
        match self {
            MultibodyComponent::Base(base) => base.get_name_id(),
            MultibodyComponent::Body(body) => body.get_name_id(),
            MultibodyComponent::Joint(joint) => joint.get_name_id(),
        }
    }

    fn get_node_id(&self) -> (id: u128) {
        match self {
            MultibodyComponent::Base(base) => base.get_node_id(),
            MultibodyComponent::Body(body) => body.get_node_id(),
            MultibodyComponent::Joint(joint) => joint.get_node_id(),
        }
    }

    fn get_to_id(&self) -> (ids: &Vec<u128>) {
        match self {
            MultibodyComponent::Base(base) => base.get_to_id(),
            MultibodyComponent::Body(body) => body.get_to_id(),
            MultibodyComponent::Joint(joint) => joint.get_to_id(),
        }
    }

    /// Takes over the editable fields of an edit buffer of the component's
    /// own kind. A body reports the first constraint that the buffer's
    /// numbers break and stays as it was; nothing else fails.
    fn inherit_from(&mut self, dummy: &DummyComponent) -> (r: Result<(), MassPropertiesError>)
        ensures
            match old(self)@.inherit_fault(dummy@) {
                None => r is Ok,
                Some(e) => r == Err::<(), _>(e),
            },
            final(self)@ == old(self)@.inherited(dummy@),
    {
        match self {
            MultibodyComponent::Base(base) => base.inherit_from(dummy),
            MultibodyComponent::Body(body) => body.inherit_from(dummy),
            MultibodyComponent::Joint(joint) => joint.inherit_from(dummy),
        }
    }

    fn set_component_id(&mut self, id: u128)
        ensures
            final(self)@ == old(self)@.with_meta(
                MetaView { component_id: id, ..old(self)@.meta() },
            ),
    {
        match self {
            MultibodyComponent::Base(base) => base.set_component_id(id),
            MultibodyComponent::Body(body) => body.set_component_id(id),
            MultibodyComponent::Joint(joint) => joint.set_component_id(id),
        }
    }

    fn set_name_id(&mut self, id: u128)
        ensures
            final(self)@ == old(self)@.with_meta(MetaView { name_id: id, ..old(self)@.meta() }),
    {
        match self {
            MultibodyComponent::Base(base) => base.set_name_id(id),
            MultibodyComponent::Body(body) => body.set_name_id(id),
            MultibodyComponent::Joint(joint) => joint.set_name_id(id),
        }
    }

    fn set_node_id(&mut self, id: u128)
        ensures
            final(self)@ == old(self)@.with_meta(MetaView { node_id: id, ..old(self)@.meta() }),
    {
        match self {
            MultibodyComponent::Base(base) => base.set_node_id(id),
            MultibodyComponent::Body(body) => body.set_node_id(id),
            MultibodyComponent::Joint(joint) => joint.set_node_id(id),
        }
    }

    fn set_system_id(&mut self, id: usize)
        ensures
            final(self)@ == old(self)@.with_system_id(id),
    {
        match self {
            MultibodyComponent::Base(base) => base.set_system_id(id),
            MultibodyComponent::Body(body) => body.set_system_id(id),
            MultibodyComponent::Joint(joint) => joint.set_system_id(id),
        }
    }
}

impl MultibodyComponent {
    /// Creates the component that an edit buffer describes. The buffer's
    /// kind decides the component's; creation never fails.
    pub fn from_dummy(component_id: u128, name_id: u128, node_id: u128, dummy: &DummyComponent) -> (c:
        Self)
        ensures
            c@ == ComponentView::created(component_id, name_id, node_id, dummy@),
    {
        match dummy {
            DummyComponent::Base(d) => MultibodyComponent::Base(
                Base::new(component_id, d.id, node_id, name_id),
            ),
            DummyComponent::Body(d) => MultibodyComponent::Body(
                Body::from_dummy(component_id, node_id, name_id, d),
            ),
            DummyComponent::Revolute(d) => MultibodyComponent::Joint(
                Joint::Revolute(Revolute::from_dummy(component_id, node_id, name_id, d)),
            ),
        }
    }

    /// Forgets every connection to `id`, upstream and downstream.
    pub fn detach_from(&mut self, id: u128)
        ensures
            final(self)@ == old(self)@.detached_from(id),
    {
        self.delete_to(id);
        if self.get_from_id() == Some(id) {
            self.delete_from();
        }
    }

    /// What kind of component this is.
    pub fn component_kind(&self) -> (k: ComponentKind)
        ensures
            k == self@.kind(),
    {
        match self {
            MultibodyComponent::Base(_) => ComponentKind::Base,
            MultibodyComponent::Body(_) => ComponentKind::Body,
            MultibodyComponent::Joint(Joint::Revolute(_)) => ComponentKind::Revolute,
        }
    }
}

/// The views of the components of a list, in its order.
pub open spec fn component_views(list: Seq<MultibodyComponent>) -> Seq<ComponentView> {
    list.map_values(|c: MultibodyComponent| c@)
}

/// The views of the joints of a list, in its order.
pub open spec fn joint_views(list: Seq<Joint>) -> Seq<JointView> {
    list.map_values(|j: Joint| j@)
}

/// A resolved model: the base and the bodies, and the joints, each list in
/// the order in which the walk from the base met them.
#[derive(Debug)]
pub struct MultibodySystem {
    pub bodies: Vec<MultibodyComponent>,
    pub joints: Vec<Joint>,
}

pub struct MultibodySystemView {
    pub bodies: Seq<ComponentView>,
    pub joints: Seq<JointView>,
}

impl View for MultibodySystem {
    type V = MultibodySystemView;

    open spec fn view(&self) -> MultibodySystemView {
        MultibodySystemView {
            bodies: component_views(self.bodies@),
            joints: joint_views(self.joints@),
        }
    }
}

impl MultibodySystem {
    pub fn new(bodies: Vec<MultibodyComponent>, joints: Vec<Joint>) -> (s: Self)
        ensures
            s.bodies == bodies,
            s.joints == joints,
    {
        Self { bodies, joints }
    }
}

} // verus!
