//! Edges: the drawn connections between components.

use crate::scalar::Point;
use vstd::prelude::*;

verus! {

/// One end of an edge: a component, or a free point while the edge is
/// being drawn and has not yet snapped to a component.
#[derive(Debug, Clone, Copy)]
pub enum EdgeConnection {
    Node(u128),
    Point(Point),
}

/// A drawn connection from one component to another, or to a free point.
#[derive(Debug, Clone, Copy)]
pub struct Edge {
    pub from: EdgeConnection,
    pub to: EdgeConnection,
    pub control: Option<Point>,
}

impl Edge {
    /// Either end of the edge is the component `id`.
    pub open spec fn spec_touches(&self, id: u128) -> bool {
        self.from == EdgeConnection::Node(id) || self.to == EdgeConnection::Node(id)
    }

    pub fn new(from: EdgeConnection, to: EdgeConnection) -> (e: Self)
        ensures
            e == (Edge { from, to, control: None }),
    {
        Self { from, to, control: None }
    }

    /// Whether either end of the edge is the component `id`.
    #[verifier::when_used_as_spec(spec_touches)]
    pub fn touches(&self, id: u128) -> (b: bool)
        ensures
            b == self.spec_touches(id),
    {
        let at_from = match self.from {
            EdgeConnection::Node(n) => n == id,
            EdgeConnection::Point(_) => false,
        };
        let at_to = match self.to {
            EdgeConnection::Node(n) => n == id,
            EdgeConnection::Point(_) => false,
        };
        at_from || at_to
    }
}

} // verus!
