//! What is known of a node that the pointer has picked.

use crate::multibody::connection::ComponentKind;
use vstd::prelude::*;

verus! {

/// A node that the pointer has picked: the kind of component that it
/// stands for, and whether it lies in the node bar or in the graph.
#[derive(Debug, Clone, Copy)]
pub struct ClickedNode {
    pub node_type: ComponentKind,
    pub is_nodebar: bool,
}

impl ClickedNode {
    pub fn new(node_type: ComponentKind, is_nodebar: bool) -> (n: Self)
        ensures
            n == (ClickedNode { node_type, is_nodebar }),
    {
        Self { node_type, is_nodebar }
    }
}

} // verus!
