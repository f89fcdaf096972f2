//! The dialog in which a component is entered or edited.

use vstd::prelude::*;

verus! {

/// The dialog that is open: the edit buffer that it shows, and the
/// component that is being edited, if the dialog does not create one.
#[derive(Debug, Clone, Copy)]
pub struct ActiveModal {
    pub dummy_component_id: u128,
    pub graph_component_id: Option<u128>,
}

impl ActiveModal {
    pub fn new(dummy_component_id: u128, graph_component_id: Option<u128>) -> (m: Self)
        ensures
            m == (ActiveModal { dummy_component_id, graph_component_id }),
    {
        Self { dummy_component_id, graph_component_id }
    }
}

} // verus!
