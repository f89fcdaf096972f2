//! What the operations on a graph keep true of its connections.

use crate::multibody::connection::spec_is_valid;
use crate::multibody::{other_than, ComponentView};
use crate::scalar::Point;
use crate::ui::canvas::graph::GraphView;
use crate::ui::canvas::traversal::{
    lemma_path_grows, stamp_seq, stamp_walk, visit, visit_all, Walk,
};
use crate::ui::dummies::DummyComponentView;
use vstd::prelude::*;

verus! {

/// The component `k` of a registry records `t` as one of its downstream
/// connections.
pub open spec fn leads_to(comps: Map<u128, ComponentView>, k: u128, t: u128) -> bool {
    comps.contains_key(k) && comps[k].meta().to_id.contains(t)
}

/// The component `k` of a registry records `f` as its upstream connection.
pub open spec fn comes_from(comps: Map<u128, ComponentView>, k: u128, f: u128) -> bool {
    comps.contains_key(k) && comps[k].meta().from_id == Some(f)
}

/// Every connection that a component records, upstream or downstream,
/// leads to a registered component, along an edge that is legal between
/// the kinds of the two.
pub open spec fn connections_legal(comps: Map<u128, ComponentView>) -> bool {
    &&& forall|k: u128, t: u128| #[trigger]
        leads_to(comps, k, t) ==> comps.contains_key(t) && spec_is_valid(
            comps[k].kind(),
            comps[t].kind(),
        )
    &&& forall|k: u128, f: u128| #[trigger]
        comes_from(comps, k, f) ==> comps.contains_key(f) && spec_is_valid(
            comps[f].kind(),
            comps[k].kind(),
        )
}

/// A graph with nothing in it has no connection that could be illegal.
pub proof fn lemma_empty_is_legal()
    ensures
        connections_legal(GraphView::empty().components),
{
}

/// Registering a new component under an id that was free keeps every
/// connection legal.
pub proof fn lemma_with_component_keeps_legal(
    g: GraphView,
    component_id: u128,
    node_id: u128,
    name_id: u128,
    dummy: DummyComponentView,
    anchor: Point,
)
    requires
        connections_legal(g.components),
        !g.components.contains_key(component_id),
    ensures
        connections_legal(
            g.with_component(component_id, node_id, name_id, dummy, anchor).components,
        ),
{
    let after = g.with_component(component_id, node_id, name_id, dummy, anchor).components;
    assert forall|k: u128, t: u128| #[trigger] leads_to(after, k, t) implies after.contains_key(t)
        && spec_is_valid(after[k].kind(), after[t].kind()) by {
        if k != component_id {
            assert(leads_to(g.components, k, t));
        }
    }
    assert forall|k: u128, f: u128| #[trigger] comes_from(after, k, f) implies after.contains_key(f)
        && spec_is_valid(after[f].kind(), after[k].kind()) by {
        if k != component_id {
            assert(comes_from(g.components, k, f));
        }
    }
}

/// Connecting two components that can be connected keeps every connection
/// legal.
pub proof fn lemma_connected_keeps_legal(g: GraphView, from_id: u128, to_id: u128)
    requires
        connections_legal(g.components),
        g.connection_fault(from_id, to_id) is None,
    ensures
        connections_legal(g.connected(from_id, to_id).components),
{
    let before = g.components;
    let after = g.connected(from_id, to_id).components;
    assert forall|k: u128| after.contains_key(k) implies before.contains_key(k) && (
    #[trigger] after[k]).kind() == before[k].kind() by {}
    assert forall|k: u128, t: u128| #[trigger] leads_to(after, k, t) implies after.contains_key(t)
        && spec_is_valid(after[k].kind(), after[t].kind()) by {
        if k == from_id {
            let grown = before[k].meta().to_id.push(to_id);
            assert(after[k].meta().to_id == grown);
            let at = choose|i: int| 0 <= i < grown.len() && grown[i] == t;
            if at < before[k].meta().to_id.len() {
                assert(before[k].meta().to_id[at] == t);
                assert(leads_to(before, k, t));
            }
        } else {
            assert(leads_to(before, k, t));
        }
        assert(after[t].kind() == before[t].kind());
    }
    assert forall|k: u128, f: u128| #[trigger] comes_from(after, k, f) implies after.contains_key(f)
        && spec_is_valid(after[f].kind(), after[k].kind()) by {
        if !(k == to_id && f == from_id) {
            assert(comes_from(before, k, f));
        }
        assert(after[f].kind() == before[f].kind());
    }
}

/// Deleting a component keeps every connection legal.
pub proof fn lemma_deleted_keeps_legal(g: GraphView, id: u128)
    requires
        connections_legal(g.components),
    ensures
        connections_legal(g.deleted(id).components),
{
    let before = g.components;
    let after = g.deleted(id).components;
    if before.contains_key(id) {
        assert forall|k: u128, t: u128| #[trigger] leads_to(after, k, t) implies after.contains_key(
            t,
        ) && spec_is_valid(after[k].kind(), after[t].kind()) by {
            let kept = before[k].meta().to_id.filter(other_than(id));
            assert(after[k].meta().to_id == kept);
            before[k].meta().to_id.lemma_filter_contains_rev(other_than(id), t);
            let at = choose|i: int| 0 <= i < kept.len() && kept[i] == t;
            before[k].meta().to_id.lemma_filter_pred(other_than(id), at);
            assert(leads_to(before, k, t));
        }
        assert forall|k: u128, f: u128| #[trigger] comes_from(after, k, f) implies after.contains_key(
            f,
        ) && spec_is_valid(after[f].kind(), after[k].kind()) by {
            assert(comes_from(before, k, f));
        }
    }
}

/// Dropping the edge that is being drawn, on a node or on nothing, keeps
/// every connection legal.
pub proof fn lemma_right_released_keeps_legal(g: GraphView, target: Option<u128>)
    requires
        connections_legal(g.components),
    ensures
        connections_legal(g.right_released(target).components),
{
    match g.connection_ends(target) {
        Some((from, to)) => {
            if g.connection_fault(from, to) is None {
                lemma_connected_keeps_legal(g, from, to);
            }
        },
        None => {},
    }
}

/// Deleting the selected component keeps every connection legal.
pub proof fn lemma_delete_pressed_keeps_legal(g: GraphView)
    requires
        connections_legal(g.components),
    ensures
        connections_legal(g.delete_pressed().components),
{
    match g.selected_node {
        Some(n) => {
            if g.nodes.contains_key(n) {
                lemma_deleted_keeps_legal(
                    GraphView { selected_node: None, ..g },
                    g.nodes[n].component_id,
                );
            }
        },
        None => {},
    }
}

/// Editing a component keeps every connection legal.
pub proof fn lemma_edited_keeps_legal(g: GraphView, dummy: DummyComponentView, component_id: u128)
    requires
        connections_legal(g.components),
    ensures
        connections_legal(g.edited(dummy, component_id).components),
{
    let before = g.components;
    let after = g.edited(dummy, component_id).components;
    assert forall|k: u128| after.contains_key(k) implies before.contains_key(k) && (
    #[trigger] after[k]).kind() == before[k].kind() && after[k].meta() == before[k].meta() by {}
    assert forall|k: u128, t: u128| #[trigger] leads_to(after, k, t) implies after.contains_key(t)
        && spec_is_valid(after[k].kind(), after[t].kind()) by {
        assert(leads_to(before, k, t));
        assert(after[t].kind() == before[t].kind());
    }
    assert forall|k: u128, f: u128| #[trigger] comes_from(after, k, f) implies after.contains_key(f)
        && spec_is_valid(after[f].kind(), after[k].kind()) by {
        assert(comes_from(before, k, f));
        assert(after[f].kind() == before[f].kind());
    }
}

/// Telling components their place in a system keeps every connection
/// legal.
pub proof fn lemma_stamped_keeps_legal(comps: Map<u128, ComponentView>, ids: Seq<u128>)
    requires
        connections_legal(comps),
    ensures
        connections_legal(stamp_seq(comps, ids)),
{
    let after = stamp_seq(comps, ids);
    assert forall|k: u128| after.contains_key(k) implies comps.contains_key(k) && (
    #[trigger] after[k]).kind() == comps[k].kind() && after[k].meta().to_id
        == comps[k].meta().to_id && after[k].meta().from_id == comps[k].meta().from_id by {}
    assert forall|k: u128, t: u128| #[trigger] leads_to(after, k, t) implies after.contains_key(t)
        && spec_is_valid(after[k].kind(), after[t].kind()) by {
        assert(leads_to(comps, k, t));
        assert(after[t].kind() == comps[t].kind());
    }
    assert forall|k: u128, f: u128| #[trigger] comes_from(after, k, f) implies after.contains_key(f)
        && spec_is_valid(after[f].kind(), after[k].kind()) by {
        assert(comes_from(comps, k, f));
        assert(after[f].kind() == comps[f].kind());
    }
}

/// A successful resolution keeps every connection legal.
pub proof fn lemma_resolved_keeps_legal(comps: Map<u128, ComponentView>, w: Walk)
    requires
        connections_legal(comps),
    ensures
        connections_legal(stamp_walk(comps, w)),
{
    lemma_stamped_keeps_legal(comps, w.bodies);
    lemma_stamped_keeps_legal(stamp_seq(comps, w.bodies), w.joints);
}

/// Where every connection is legal, a walk that starts at a registered
/// component never misses a component: it fails only by coming back to
/// one.
pub proof fn lemma_legal_walk_finds_all(comps: Map<u128, ComponentView>, id: u128, path: Set<u128>)
    requires
        comps.dom().finite(),
        connections_legal(comps),
        comps.contains_key(id),
    ensures
        visit(comps, id, path) matches Err(e) ==> e is Cycle,
    decreases comps.dom().difference(path).len(), 0nat, 0nat,
{
    if !path.contains(id) {
        lemma_path_grows(comps.dom(), id, path);
        let ids = comps[id].meta().to_id;
        assert forall|i: int| 0 <= i < ids.len() implies comps.contains_key(#[trigger] ids[i]) by {
            assert(leads_to(comps, id, ids[i]));
        }
        lemma_legal_walks_find_all(comps, ids, path.insert(id));
    }
}

/// Where every connection is legal, walks that start at registered
/// components, one after the other, fail only by coming back to a
/// component.
pub proof fn lemma_legal_walks_find_all(
    comps: Map<u128, ComponentView>,
    ids: Seq<u128>,
    path: Set<u128>,
)
    requires
        comps.dom().finite(),
        connections_legal(comps),
        forall|i: int| 0 <= i < ids.len() ==> comps.contains_key(#[trigger] ids[i]),
    ensures
        visit_all(comps, ids, path) matches Err(e) ==> e is Cycle,
    decreases comps.dom().difference(path).len(), 1nat, ids.len(),
{
    if ids.len() > 0 {
        lemma_legal_walk_finds_all(comps, ids[0], path);
        let rest = ids.drop_first();
        assert forall|i: int| 0 <= i < rest.len() implies comps.contains_key(#[trigger] rest[i]) by {
            assert(rest[i] == ids[i + 1]);
        }
        lemma_legal_walks_find_all(comps, rest, path);
    }
}

} // verus!
