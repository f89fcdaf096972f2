//! Which kinds of component may be connected, and the record of what a
//! joint connects.

use vstd::prelude::*;

verus! {

/// The kinds of component.
#[derive(Debug, Clone, Copy, PartialEq, Eq, Structural)]
pub enum ComponentKind {
    Base,
    Body,
    Revolute,
}

/// The part that a kind plays in a connection: a link carries joints, a
/// joint connects links.
#[derive(Debug, Clone, Copy, PartialEq, Eq, Structural)]
pub enum ConnectionRole {
    Link,
    Joint,
}

impl ComponentKind {
    /// The table of roles, one line for each kind.
    pub open spec fn spec_role(self) -> ConnectionRole {
        match self {
            ComponentKind::Base => ConnectionRole::Link,
            ComponentKind::Body => ConnectionRole::Link,
            ComponentKind::Revolute => ConnectionRole::Joint,
        }
    }

    #[verifier::when_used_as_spec(spec_role)]
    pub fn role(self) -> (r: ConnectionRole)
        ensures
            r == self.spec_role(),
    {
        match self {
            ComponentKind::Base => ConnectionRole::Link,
            ComponentKind::Body => ConnectionRole::Link,
            ComponentKind::Revolute => ConnectionRole::Joint,
        }
    }
}

/// An edge is legal exactly where one end is a revolute joint and the other
/// a base or a body, in either direction.
pub open spec fn spec_is_valid(from: ComponentKind, to: ComponentKind) -> bool {
    ||| (from is Revolute && (to is Base || to is Body))
    ||| (to is Revolute && (from is Base || from is Body))
}

/// Decides whether an edge from a component of kind `from` to one of kind
/// `to` is legal.
#[verifier::when_used_as_spec(spec_is_valid)]
pub fn is_valid(from: ComponentKind, to: ComponentKind) -> (valid: bool)
    ensures
        valid == spec_is_valid(from, to),
        valid == (from.spec_role() != to.spec_role()),
{
    from.role() != to.role()
}

/// Legality of an edge does not depend on its direction.
pub proof fn lemma_is_valid_symmetric(a: ComponentKind, b: ComponentKind)
    ensures
        spec_is_valid(a, b) == spec_is_valid(b, a),
{
}

/// No edge is legal between two components of the same role: every legal
/// edge touches exactly one joint.
pub proof fn lemma_is_valid_needs_one_joint(a: ComponentKind, b: ComponentKind)
    ensures
        spec_is_valid(a, b) <==> (a.spec_role() is Joint) != (b.spec_role() is Joint),
{
}

/// The bodies on the two sides of a joint.
#[derive(Debug, Clone, Copy)]
pub struct JointConnection {
    pub inner_body: Option<u128>,
    pub outer_body: Option<u128>,
}

impl Default for JointConnection {
    fn default() -> (c: Self)
        ensures
            c.inner_body is None,
            c.outer_body is None,
    {
        Self { inner_body: None, outer_body: None }
    }
}

} // verus!
