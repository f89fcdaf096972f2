//! Resolution: the walk from the base that turns a graph into an ordered
//! system of bodies and joints.

use crate::multibody::joints::{Joint, JointView};
use crate::multibody::{
    component_views, joint_views, ComponentView, MultibodyComponent, MultibodySystem,
    MultibodySystemView, MultibodyTrait,
};
use crate::ui::canvas::graph::{component_map, keys_of, Graph, GraphErrors, GraphView};
use crate::ui::canvas::invariants::{connections_legal, lemma_resolved_keeps_legal};
use std::collections::HashMap;
use std::collections::HashSet;
use vstd::prelude::*;

verus! {

broadcast use vstd::std_specs::hash::group_hash_axioms;

/// What a walk has met: the ids of the base and the bodies, and the ids of
/// the joints, each list in the order of the walk.
pub struct Walk {
    pub bodies: Seq<u128>,
    pub joints: Seq<u128>,
}

impl Walk {
    pub open spec fn empty() -> Walk {
        Walk { bodies: Seq::empty(), joints: Seq::empty() }
    }

    /// The walk that has met the one component `id`.
    pub open spec fn of(component: ComponentView, id: u128) -> Walk {
        if component is Joint {
            Walk { bodies: Seq::empty(), joints: seq![id] }
        } else {
            Walk { bodies: seq![id], joints: Seq::empty() }
        }
    }

    /// This walk, and then `next`.
    pub open spec fn followed_by(self, next: Walk) -> Walk {
        Walk { bodies: self.bodies + next.bodies, joints: self.joints + next.joints }
    }
}

/// The walk that starts at the component `id`, depth first, while the
/// components in `path` are being walked further up.
///
/// The component itself comes first, then what the walks from its
/// downstream connections meet, one connection after the other in the order
/// in which they were made. The walk fails at the first id that is not
/// registered, and at the first component that it meets while still in the
/// middle of it.
pub open spec fn visit(comps: Map<u128, ComponentView>, id: u128, path: Set<u128>) -> Result<
    Walk,
    GraphErrors,
>
    decreases comps.dom().difference(path).len(), 0nat, 0nat,
    when comps.dom().finite()
    via visit_decreases
{
    if !comps.contains_key(id) {
        Err(GraphErrors::IdNotFound(id))
    } else if path.contains(id) {
        Err(GraphErrors::Cycle(id))
    } else {
        match visit_all(comps, comps[id].meta().to_id, path.insert(id)) {
            Ok(below) => Ok(Walk::of(comps[id], id).followed_by(below)),
            Err(e) => Err(e),
        }
    }
}

/// The walks that start at each of `ids`, one after the other.
pub open spec fn visit_all(comps: Map<u128, ComponentView>, ids: Seq<u128>, path: Set<u128>) -> Result<
    Walk,
    GraphErrors,
>
    decreases comps.dom().difference(path).len(), 1nat, ids.len(),
    when comps.dom().finite()
{
    if ids.len() == 0 {
        Ok(Walk::empty())
    } else {
        match visit(comps, ids[0], path) {
            Err(e) => Err(e),
            Ok(first) => match visit_all(comps, ids.drop_first(), path) {
                Err(e) => Err(e),
                Ok(rest) => Ok(first.followed_by(rest)),
            },
        }
    }
}

#[via_fn]
proof fn visit_decreases(comps: Map<u128, ComponentView>, id: u128, path: Set<u128>) {
    if comps.contains_key(id) && !path.contains(id) {
        lemma_path_grows(comps.dom(), id, path);
    }
}

/// A path that takes in one more registered component leaves fewer of them
/// outside.
pub proof fn lemma_path_grows(dom: Set<u128>, id: u128, path: Set<u128>)
    requires
        dom.finite(),
        dom.contains(id),
        !path.contains(id),
    ensures
        dom.difference(path.insert(id)).len() < dom.difference(path).len(),
{
    let before = dom.difference(path);
    assert(before.contains(id));
    assert(dom.difference(path.insert(id)) =~= before.remove(id));
    vstd::set_lib::lemma_len_difference(dom, path);
}

/// The component `id` is registered and is a base.
pub open spec fn is_base(comps: Map<u128, ComponentView>, id: u128) -> bool {
    comps.contains_key(id) && comps[id] is Base
}

/// There is a base.
pub open spec fn has_base(comps: Map<u128, ComponentView>) -> bool {
    exists|b: u128| is_base(comps, b)
}

/// The component `b` is a base, and no base has a smaller id.
pub open spec fn is_least_base(comps: Map<u128, ComponentView>, b: u128) -> bool {
    is_base(comps, b) && forall|x: u128| #[trigger] is_base(comps, x) ==> b <= x
}

/// The base from which the walk starts: of several, the one with the
/// smallest id.
pub open spec fn least_base(comps: Map<u128, ComponentView>) -> u128 {
    choose|b: u128| is_least_base(comps, b)
}

/// What a component lacks to be part of a system: a joint needs an
/// upstream and a downstream connection, a body an upstream one.
pub open spec fn fault_in(component: ComponentView, id: u128) -> Option<GraphErrors> {
    match component {
        ComponentView::Base(_) => None,
        ComponentView::Body(b) => if b.meta.from_id is None {
            Some(GraphErrors::BodyMissingFrom(id))
        } else {
            None
        },
        ComponentView::Joint(j) => if j.meta().from_id is None {
            Some(GraphErrors::JointMissingFrom(id))
        } else if j.meta().to_id.len() == 0 {
            Some(GraphErrors::JointMissingTo(id))
        } else {
            None
        },
    }
}

/// The component `id` is registered and lacks a connection.
pub open spec fn is_faulty(comps: Map<u128, ComponentView>, id: u128) -> bool {
    comps.contains_key(id) && fault_in(comps[id], id) is Some
}

/// Some component lacks a connection.
pub open spec fn has_fault(comps: Map<u128, ComponentView>) -> bool {
    exists|k: u128| is_faulty(comps, k)
}

/// The component `k` lacks a connection, and none with a smaller id does.
pub open spec fn is_least_faulty(comps: Map<u128, ComponentView>, k: u128) -> bool {
    is_faulty(comps, k) && forall|x: u128| #[trigger] is_faulty(comps, x) ==> k <= x
}

/// The missing connection that is reported: of several, that of the
/// component with the smallest id.
pub open spec fn first_fault(comps: Map<u128, ComponentView>) -> GraphErrors {
    let k = choose|k: u128| is_least_faulty(comps, k);
    fault_in(comps[k], k)->Some_0
}

/// The component `j` is a joint whose upstream connection is `base`.
pub open spec fn is_joint_from(comps: Map<u128, ComponentView>, j: u128, base: u128) -> bool {
    comps.contains_key(j) && comps[j] is Joint && comps[j].meta().from_id == Some(base)
}

/// Some joint is attached to `base`.
pub open spec fn attached_to(comps: Map<u128, ComponentView>, base: u128) -> bool {
    exists|j: u128| is_joint_from(comps, j, base)
}

/// What the resolution of a registry gives: the walk from the base, or why
/// there is none.
///
/// Without a base there is `NoBase`. Else, where a component lacks a
/// connection, there is the report of the first such component. Else,
/// where no joint is attached to the base, there is `NoBaseConnections`.
/// Else there is what the walk from the base gives.
pub open spec fn resolution(comps: Map<u128, ComponentView>) -> Result<Walk, GraphErrors> {
    if !has_base(comps) {
        Err(GraphErrors::NoBase)
    } else if has_fault(comps) {
        Err(first_fault(comps))
    } else if !attached_to(comps, least_base(comps)) {
        Err(GraphErrors::NoBaseConnections)
    } else {
        visit(comps, least_base(comps), Set::empty())
    }
}

/// The place of the last occurrence of `k` in `ids`.
pub open spec fn is_last_index(ids: Seq<u128>, k: u128, i: int) -> bool {
    &&& 0 <= i < ids.len()
    &&& ids[i] == k
    &&& forall|j: int| i < j < ids.len() ==> ids[j] != k
}

pub open spec fn last_index(ids: Seq<u128>, k: u128) -> int {
    choose|i: int| is_last_index(ids, k, i)
}

/// The last occurrence is the only place that is one.
pub proof fn lemma_last_index(ids: Seq<u128>, k: u128, i: int)
    requires
        is_last_index(ids, k, i),
    ensures
        last_index(ids, k) == i,
{
    let c = last_index(ids, k);
    assert(is_last_index(ids, k, c));
    if c < i {
        assert(ids[i] != k);
    } else if i < c {
        assert(ids[c] != k);
    }
}

/// The components of a list of ids, each with its place in the list as its
/// place in the system.
pub open spec fn stamped(comps: Map<u128, ComponentView>, ids: Seq<u128>) -> Seq<ComponentView> {
    Seq::new(ids.len(), |i: int| comps[ids[i]].with_system_id(i as usize))
}

/// The joint that a component is.
pub open spec fn joint_of(component: ComponentView) -> JointView {
    component->Joint_0
}

/// The joints of a list of ids, each with its place in the list as its
/// place in the system.
pub open spec fn stamped_joints(comps: Map<u128, ComponentView>, ids: Seq<u128>) -> Seq<JointView> {
    Seq::new(ids.len(), |i: int| joint_of(comps[ids[i]].with_system_id(i as usize)))
}

/// The system that a walk gives.
pub open spec fn system_of(comps: Map<u128, ComponentView>, w: Walk) -> MultibodySystemView {
    MultibodySystemView {
        bodies: stamped(comps, w.bodies),
        joints: stamped_joints(comps, w.joints),
    }
}

/// The registry after the components of a list of ids were told their
/// place in the list. A component that the list names more than once keeps
/// the last of its places; one that it does not name is as it was.
pub open spec fn stamp_seq(comps: Map<u128, ComponentView>, ids: Seq<u128>) -> Map<
    u128,
    ComponentView,
> {
    Map::new(
        |k: u128| comps.contains_key(k),
        |k: u128|
            if ids.contains(k) {
                comps[k].with_system_id(last_index(ids, k) as usize)
            } else {
                comps[k]
            },
    )
}

/// The registry after a successful resolution: every component that the
/// walk has met knows its place in the system.
pub open spec fn stamp_walk(comps: Map<u128, ComponentView>, w: Walk) -> Map<u128, ComponentView> {
    stamp_seq(stamp_seq(comps, w.bodies), w.joints)
}

/// Every id of the walk is registered, the joints as joints and the others
/// as a base or a body.
pub open spec fn walk_in(comps: Map<u128, ComponentView>, w: Walk) -> bool {
    &&& forall|i: int|
        0 <= i < w.bodies.len() ==> comps.contains_key(#[trigger] w.bodies[i]) && !(
        comps[w.bodies[i]] is Joint)
    &&& forall|i: int|
        0 <= i < w.joints.len() ==> comps.contains_key(#[trigger] w.joints[i])
            && comps[w.joints[i]] is Joint
}

/// A walk meets registered components only, and lists each under its kind.
pub proof fn lemma_visit_in(comps: Map<u128, ComponentView>, id: u128, path: Set<u128>)
    requires
        comps.dom().finite(),
    ensures
        visit(comps, id, path) matches Ok(w) ==> walk_in(comps, w),
    decreases comps.dom().difference(path).len(), 0nat, 0nat,
{
    if comps.contains_key(id) && !path.contains(id) {
        lemma_path_grows(comps.dom(), id, path);
        lemma_visit_all_in(comps, comps[id].meta().to_id, path.insert(id));
    }
}

/// Walks one after the other meet registered components only, and list
/// each under its kind.
pub proof fn lemma_visit_all_in(comps: Map<u128, ComponentView>, ids: Seq<u128>, path: Set<u128>)
    requires
        comps.dom().finite(),
    ensures
        visit_all(comps, ids, path) matches Ok(w) ==> walk_in(comps, w),
    decreases comps.dom().difference(path).len(), 1nat, ids.len(),
{
    if ids.len() > 0 {
        lemma_visit_in(comps, ids[0], path);
        lemma_visit_all_in(comps, ids.drop_first(), path);
    }
}

/// A component that is told its place twice keeps the second place.
pub proof fn lemma_restamp(c: ComponentView, a: usize, b: usize)
    ensures
        c.with_system_id(a).with_system_id(b) == c.with_system_id(b),
{
}

/// An id that occurs in a list has a last occurrence there.
pub proof fn lemma_last_index_exists(ids: Seq<u128>, k: u128)
    requires
        ids.contains(k),
    ensures
        is_last_index(ids, k, last_index(ids, k)),
    decreases ids.len(),
{
    let n = ids.len() - 1;
    if ids[n] == k {
        assert(is_last_index(ids, k, n));
    } else {
        let front = ids.drop_last();
        let at = choose|i: int| 0 <= i < ids.len() && ids[i] == k;
        assert(front[at] == k);
        lemma_last_index_exists(front, k);
        let c = last_index(front, k);
        assert(is_last_index(ids, k, c)) by {
            assert forall|j: int| c < j < ids.len() implies ids[j] != k by {
                if j < n {
                    assert(front[j] != k);
                }
            }
        }
    }
}

/// Telling one more component of a list its place changes that component's
/// entry in the registry and no other.
pub proof fn lemma_stamp_step(comps: Map<u128, ComponentView>, ids: Seq<u128>, i: int)
    requires
        0 <= i < ids.len(),
        comps.contains_key(ids[i]),
    ensures
        stamp_seq(comps, ids.take(i + 1)) == stamp_seq(comps, ids.take(i)).insert(
            ids[i],
            comps[ids[i]].with_system_id(i as usize),
        ),
        stamped(comps, ids.take(i + 1)) == stamped(comps, ids.take(i)).push(
            comps[ids[i]].with_system_id(i as usize),
        ),
        stamped_joints(comps, ids.take(i + 1)) == stamped_joints(comps, ids.take(i)).push(
            joint_of(comps[ids[i]].with_system_id(i as usize)),
        ),
{
    let before = ids.take(i);
    let after = ids.take(i + 1);
    let k = ids[i];
    assert(after[i] == k);
    assert(is_last_index(after, k, i));
    lemma_last_index(after, k, i);
    assert forall|x: u128| comps.contains_key(x) && x != k implies #[trigger] stamp_seq(
        comps,
        after,
    )[x] == stamp_seq(comps, before)[x] by {
        if before.contains(x) {
            let at = choose|j: int| 0 <= j < before.len() && before[j] == x;
            assert(after[at] == x);
            lemma_last_index_exists(before, x);
            let c = last_index(before, x);
            assert(is_last_index(after, x, c)) by {
                assert(after[c] == before[c]);
                assert forall|j: int| c < j < after.len() implies after[j] != x by {
                    if j < i {
                        assert(before[j] != x);
                    }
                }
            }
            lemma_last_index(after, x, c);
        } else if after.contains(x) {
            let at = choose|j: int| 0 <= j < after.len() && after[j] == x;
            assert(before[at] == x);
        }
    }
    assert(stamp_seq(comps, after) =~= stamp_seq(comps, before).insert(
        k,
        comps[k].with_system_id(i as usize),
    ));
    assert(stamped(comps, after) =~= stamped(comps, before).push(
        comps[k].with_system_id(i as usize),
    ));
    assert(stamped_joints(comps, after) =~= stamped_joints(comps, before).push(
        joint_of(comps[k].with_system_id(i as usize)),
    ));
}

/// Among the bases there is one with the smallest id.
pub proof fn lemma_least_base_exists(comps: Map<u128, ComponentView>, b: u128)
    requires
        is_base(comps, b),
    ensures
        is_least_base(comps, least_base(comps)),
    decreases b,
{
    if exists|x: u128| is_base(comps, x) && x < b {
        let x = choose|x: u128| is_base(comps, x) && x < b;
        lemma_least_base_exists(comps, x);
    } else {
        assert(is_least_base(comps, b));
    }
}

/// Among the components that lack a connection there is one with the
/// smallest id, and what is reported is what that one lacks.
pub proof fn lemma_first_fault(comps: Map<u128, ComponentView>, k: u128)
    requires
        is_faulty(comps, k),
    ensures
        exists|m: u128| is_least_faulty(comps, m) && first_fault(comps) == fault_in(comps[m], m)->Some_0,
    decreases k,
{
    if exists|x: u128| is_faulty(comps, x) && x < k {
        let x = choose|x: u128| is_faulty(comps, x) && x < k;
        lemma_first_fault(comps, x);
    } else {
        assert(is_least_faulty(comps, k));
        let m = choose|m: u128| is_least_faulty(comps, m);
        assert(is_least_faulty(comps, m));
    }
}

/// A walk fails for no other reason than an id that is not registered or a
/// component that it comes back to.
pub proof fn lemma_visit_errors(comps: Map<u128, ComponentView>, id: u128, path: Set<u128>)
    requires
        comps.dom().finite(),
    ensures
        visit(comps, id, path) matches Err(e) ==> e is IdNotFound || e is Cycle,
    decreases comps.dom().difference(path).len(), 0nat, 0nat,
{
    if comps.contains_key(id) && !path.contains(id) {
        lemma_path_grows(comps.dom(), id, path);
        lemma_visit_all_errors(comps, comps[id].meta().to_id, path.insert(id));
    }
}

/// Walks one after the other fail for no other reason than an id that is
/// not registered or a component that they come back to.
pub proof fn lemma_visit_all_errors(comps: Map<u128, ComponentView>, ids: Seq<u128>, path: Set<u128>)
    requires
        comps.dom().finite(),
    ensures
        visit_all(comps, ids, path) matches Err(e) ==> e is IdNotFound || e is Cycle,
    decreases comps.dom().difference(path).len(), 1nat, ids.len(),
{
    if ids.len() > 0 {
        lemma_visit_errors(comps, ids[0], path);
        lemma_visit_all_errors(comps, ids.drop_first(), path);
    }
}

/// Resolution reports `NoBase` exactly where the registry holds no base.
pub proof fn lemma_no_base(comps: Map<u128, ComponentView>)
    requires
        comps.dom().finite(),
    ensures
        resolution(comps) == Err::<Walk, _>(GraphErrors::NoBase) <==> !has_base(comps),
{
    if has_base(comps) {
        if has_fault(comps) {
            let k = choose|k: u128| is_faulty(comps, k);
            lemma_first_fault(comps, k);
        } else if attached_to(comps, least_base(comps)) {
            lemma_visit_errors(comps, least_base(comps), Set::empty());
        }
    }
}

/// A joint with an upstream connection and no downstream one is reported
/// as `JointMissingTo`, where there is a base and no component with a
/// smaller id lacks a connection.
pub proof fn lemma_joint_missing_to(comps: Map<u128, ComponentView>, joint: u128)
    requires
        has_base(comps),
        comps.contains_key(joint),
        comps[joint] is Joint,
        comps[joint].meta().from_id is Some,
        comps[joint].meta().to_id.len() == 0,
        forall|x: u128| #[trigger] is_faulty(comps, x) ==> joint <= x,
    ensures
        resolution(comps) == Err::<Walk, _>(GraphErrors::JointMissingTo(joint)),
{
    assert(is_faulty(comps, joint));
    assert(is_least_faulty(comps, joint));
    let m = choose|m: u128| is_least_faulty(comps, m);
    assert(is_least_faulty(comps, m));
    assert(m == joint);
}

/// In a resolved system every component stands at the place that it was
/// told, the base and the bodies in one list and the joints in the other,
/// and each is the registered component but for that place.
pub proof fn lemma_system_places(comps: Map<u128, ComponentView>, w: Walk)
    requires
        walk_in(comps, w),
    ensures
        ({
            let system = system_of(comps, w);
            &&& system.bodies.len() == w.bodies.len()
            &&& system.joints.len() == w.joints.len()
            &&& forall|i: int|
                0 <= i < system.bodies.len() ==> (#[trigger] system.bodies[i]).meta().system_id
                    == Some(i as usize) && !(system.bodies[i] is Joint) && system.bodies[i]
                    == comps[w.bodies[i]].with_system_id(i as usize)
            &&& forall|i: int|
                0 <= i < system.joints.len() ==> (#[trigger] system.joints[i]).meta().system_id
                    == Some(i as usize) && ComponentView::Joint(system.joints[i])
                    == comps[w.joints[i]].with_system_id(i as usize)
        }),
{
    let system = system_of(comps, w);
    assert forall|i: int| 0 <= i < system.joints.len() implies (
    #[trigger] system.joints[i]).meta().system_id == Some(i as usize) && ComponentView::Joint(
        system.joints[i],
    ) == comps[w.joints[i]].with_system_id(i as usize) by {
        assert(comps[w.joints[i]] is Joint);
    }
    assert forall|i: int| 0 <= i < system.bodies.len() implies (
    #[trigger] system.bodies[i]).meta().system_id == Some(i as usize) && !(system.bodies[i] is Joint)
        && system.bodies[i] == comps[w.bodies[i]].with_system_id(i as usize) by {
        assert(!(comps[w.bodies[i]] is Joint));
    }
}

/// A base, a joint attached to it and a body attached to the joint, and
/// nothing else, resolve to the base and the body in this order, and the
/// joint.
pub proof fn lemma_chain_resolves(
    comps: Map<u128, ComponentView>,
    base: u128,
    joint: u128,
    body: u128,
)
    requires
        base != joint && joint != body && base != body,
        comps.dom() == set![base, joint, body],
        comps[base] is Base,
        comps[base].meta().to_id == seq![joint],
        comps[joint] is Joint,
        comps[joint].meta().from_id == Some(base),
        comps[joint].meta().to_id == seq![body],
        comps[body] is Body,
        comps[body].meta().from_id == Some(joint),
        comps[body].meta().to_id == Seq::<u128>::empty(),
    ensures
        resolution(comps) matches Ok(w) && w.bodies == seq![base, body] && w.joints == seq![joint],
{
    assert(comps.dom().finite());
    assert(is_base(comps, base));
    assert(is_least_base(comps, base));
    assert(is_least_base(comps, least_base(comps)));
    assert(least_base(comps) == base);
    assert(!has_fault(comps)) by {
        assert forall|k: u128| !is_faulty(comps, k) by {}
    }
    assert(is_joint_from(comps, joint, base));
    reveal_with_fuel(visit, 4);
    reveal_with_fuel(visit_all, 4);
    let none = Set::<u128>::empty();
    let at_body = visit(comps, body, none.insert(base).insert(joint));
    assert(at_body is Ok);
    assert(at_body->Ok_0.bodies =~= seq![body]);
    assert(at_body->Ok_0.joints =~= Seq::<u128>::empty());
    assert(seq![body].drop_first() =~= Seq::<u128>::empty());
    let below_joint = visit_all(comps, seq![body], none.insert(base).insert(joint));
    assert(below_joint is Ok);
    assert(below_joint->Ok_0.bodies =~= seq![body]);
    assert(below_joint->Ok_0.joints =~= Seq::<u128>::empty());
    let at_joint = visit(comps, joint, none.insert(base));
    assert(at_joint is Ok);
    assert(at_joint->Ok_0.bodies =~= seq![body]);
    assert(at_joint->Ok_0.joints =~= seq![joint]);
    assert(seq![joint].drop_first() =~= Seq::<u128>::empty());
    let below_base = visit_all(comps, seq![joint], none.insert(base));
    assert(below_base is Ok);
    assert(below_base->Ok_0.bodies =~= seq![body]);
    assert(below_base->Ok_0.joints =~= seq![joint]);
    let at_base = visit(comps, base, none);
    assert(at_base is Ok);
    assert(at_base->Ok_0.bodies =~= seq![base, body]);
    assert(at_base->Ok_0.joints =~= seq![joint]);
}

/// After a component was deleted no resolution lists it: its id is on
/// neither list of the walk, and no component of the system has it.
pub proof fn lemma_deleted_not_resolved(g: GraphView, id: u128)
    requires
        g.wf(),
        g.components.dom().finite(),
        g.components.contains_key(id),
    ensures
        resolution(g.deleted(id).components) matches Ok(w) ==> {
            let system = system_of(g.deleted(id).components, w);
            &&& !w.bodies.contains(id)
            &&& !w.joints.contains(id)
            &&& forall|i: int|
                0 <= i < system.bodies.len() ==> (#[trigger] system.bodies[i]).meta().component_id
                    != id
            &&& forall|i: int|
                0 <= i < system.joints.len() ==> (#[trigger] system.joints[i]).meta().component_id
                    != id
        },
{
    let after = g.deleted(id).components;
    assert(after.dom() =~= g.components.dom().remove(id));
    if resolution(after) is Ok {
        let w = resolution(after)->Ok_0;
        lemma_visit_in(after, least_base(after), Set::empty());
        lemma_system_places(after, w);
        let system = system_of(after, w);
        assert forall|i: int| 0 <= i < system.bodies.len() implies (
        #[trigger] system.bodies[i]).meta().component_id != id by {
            let k = w.bodies[i];
            assert(after.contains_key(k));
            assert(g.components[k].meta().component_id == k);
        }
        assert forall|i: int| 0 <= i < system.joints.len() implies (
        #[trigger] system.joints[i]).meta().component_id != id by {
            let k = w.joints[i];
            assert(after.contains_key(k));
            assert(g.components[k].meta().component_id == k);
            assert(ComponentView::Joint(system.joints[i]) == after[k].with_system_id(i as usize));
        }
    }
}

impl Graph {
    /// Walks from the component `id`, depth first, and appends the ids of
    /// what it meets to `bodies` and to `joints`. `path` holds the
    /// components that are being walked further up; it is the same again
    /// when the walk has succeeded.
    fn traverse_component(
        &self,
        id: u128,
        bodies: &mut Vec<u128>,
        joints: &mut Vec<u128>,
        path: &mut HashSet<u128>,
    ) -> (r: Result<(), GraphErrors>)
        ensures
            match visit(self@.components, id, old(path)@) {
                Ok(w) => {
                    &&& r is Ok
                    &&& final(path)@ == old(path)@
                    &&& final(bodies)@ == old(bodies)@ + w.bodies
                    &&& final(joints)@ == old(joints)@ + w.joints
                },
                Err(e) => r == Err::<(), _>(e),
            },
        decreases self@.components.dom().difference(old(path)@).len(),
    {
        let ghost comps = self@.components;
        proof {
            assert(comps.dom() =~= self.components@.dom());
        }
        let component = match self.components.get(&id) {
            Some(c) => c,
            None => {
                return Err(GraphErrors::IdNotFound(id));
            },
        };
        if path.contains(&id) {
            return Err(GraphErrors::Cycle(id));
        }
        path.insert(id);
        match component {
            MultibodyComponent::Joint(_) => {
                joints.push(id);
            },
            _ => {
                bodies.push(id);
            },
        }
        let ghost inner = old(path)@.insert(id);
        let ghost here = Walk::of(comps[id], id);
        let ghost mut done = Walk::empty();
        proof {
            lemma_path_grows(comps.dom(), id, old(path)@);
        }
        let to_ids = component.get_to_id();
        proof {
            assert(to_ids@.skip(0) =~= to_ids@);
        }
        let mut i: usize = 0;
        while i < to_ids.len()
            invariant
                i <= to_ids.len(),
                comps == self@.components,
                comps.dom().finite(),
                comps.contains_key(id),
                !old(path)@.contains(id),
                to_ids@ == comps[id].meta().to_id,
                inner == old(path)@.insert(id),
                comps.dom().difference(inner).len() < comps.dom().difference(old(path)@).len(),
                path@ == inner,
                here == Walk::of(comps[id], id),
                bodies@ == old(bodies)@ + here.bodies + done.bodies,
                joints@ == old(joints)@ + here.joints + done.joints,
                match visit_all(comps, to_ids@.skip(i as int), inner) {
                    Err(e) => visit_all(comps, to_ids@, inner) == Err::<Walk, _>(e),
                    Ok(rest) => {
                        &&& visit_all(comps, to_ids@, inner) matches Ok(all)
                        &&& all.bodies == done.bodies + rest.bodies
                        &&& all.joints == done.joints + rest.joints
                    },
                },
            decreases to_ids.len() - i,
        {
            let ghost rest_ids = to_ids@.skip(i as int);
            proof {
                assert(rest_ids[0] == to_ids@[i as int]);
                assert(rest_ids.drop_first() =~= to_ids@.skip(i + 1));
            }
            match self.traverse_component(to_ids[i], bodies, joints, path) {
                Err(e) => {
                    proof {
                        assert(visit(comps, rest_ids[0], inner) == Err::<Walk, _>(e));
                        assert(visit_all(comps, rest_ids, inner) == Err::<Walk, _>(e));
                        assert(visit_all(comps, to_ids@, inner) == Err::<Walk, _>(e));
                    }
                    return Err(e);
                },
                Ok(()) => {},
            }
            proof {
                let w = visit(comps, to_ids@[i as int], inner)->Ok_0;
                let before = done;
                done = done.followed_by(w);
                match visit_all(comps, to_ids@.skip(i + 1), inner) {
                    Err(e) => {},
                    Ok(rest) => {
                        let all = visit_all(comps, to_ids@, inner)->Ok_0;
                        assert(all.bodies =~= done.bodies + rest.bodies);
                        assert(all.joints =~= done.joints + rest.joints);
                    },
                }
                assert(bodies@ =~= old(bodies)@ + here.bodies + done.bodies);
                assert(joints@ =~= old(joints)@ + here.joints + done.joints);
            }
            i += 1;
        }
        path.remove(&id);
        proof {
            assert(to_ids@.skip(i as int) =~= Seq::empty());
            assert(path@ =~= old(path)@);
            let w = visit(comps, id, old(path)@)->Ok_0;
            assert(bodies@ =~= old(bodies)@ + w.bodies);
            assert(joints@ =~= old(joints)@ + w.joints);
        }
        Ok(())
    }

    /// The base with the smallest id, if there is a base.
    fn find_base(&self, keys: &Vec<u128>) -> (found: Option<u128>)
        requires
            keys@.to_set() == self.components@.dom(),
        ensures
            match found {
                Some(b) => is_least_base(self@.components, b),
                None => !has_base(self@.components),
            },
    {
        let ghost comps = self@.components;
        let mut found: Option<u128> = None;
        let mut i: usize = 0;
        while i < keys.len()
            invariant
                i <= keys.len(),
                comps == self@.components,
                keys@.to_set() == self.components@.dom(),
                match found {
                    Some(b) => is_base(comps, b) && forall|j: int|
                        0 <= j < i && is_base(comps, #[trigger] keys@[j]) ==> b <= keys@[j],
                    None => forall|j: int| 0 <= j < i ==> !is_base(comps, #[trigger] keys@[j]),
                },
            decreases keys.len() - i,
        {
            let k = keys[i];
            assert(keys@.to_set().contains(keys@[i as int]));
            let is_a_base = match self.components.get(&k) {
                Some(MultibodyComponent::Base(_)) => true,
                _ => false,
            };
            if is_a_base {
                found = match found {
                    Some(b) => if k < b {
                        Some(k)
                    } else {
                        Some(b)
                    },
                    None => Some(k),
                };
            }
            i += 1;
        }
        proof {
            assert forall|x: u128| is_base(comps, x) implies exists|j: int|
                0 <= j < keys@.len() && keys@[j] == x by {
                assert(self.components@.dom().contains(x));
                assert(keys@.to_set().contains(x));
            }
        }
        found
    }

    /// The missing connection of the component with the smallest id that
    /// lacks one, if any does.
    fn find_fault(&self, keys: &Vec<u128>) -> (found: Option<GraphErrors>)
        requires
            keys@.to_set() == self.components@.dom(),
        ensures
            match found {
                Some(e) => has_fault(self@.components) && e == first_fault(self@.components),
                None => !has_fault(self@.components),
            },
    {
        let ghost comps = self@.components;
        let mut found: Option<(u128, GraphErrors)> = None;
        let mut i: usize = 0;
        while i < keys.len()
            invariant
                i <= keys.len(),
                comps == self@.components,
                keys@.to_set() == self.components@.dom(),
                match found {
                    Some((b, e)) => is_faulty(comps, b) && fault_in(comps[b], b) == Some(e)
                        && forall|j: int|
                        0 <= j < i && is_faulty(comps, #[trigger] keys@[j]) ==> b <= keys@[j],
                    None => forall|j: int| 0 <= j < i ==> !is_faulty(comps, #[trigger] keys@[j]),
                },
            decreases keys.len() - i,
        {
            let k = keys[i];
            assert(keys@.to_set().contains(keys@[i as int]));
            let fault = match self.components.get(&k) {
                Some(c) => component_fault(c, k),
                None => None,
            };
            match fault {
                Some(e) => {
                    found = match found {
                        Some((b, earlier)) => if k < b {
                            Some((k, e))
                        } else {
                            Some((b, earlier))
                        },
                        None => Some((k, e)),
                    };
                },
                None => {},
            }
            i += 1;
        }
        proof {
            assert forall|x: u128| is_faulty(comps, x) implies exists|j: int|
                0 <= j < keys@.len() && keys@[j] == x by {
                assert(self.components@.dom().contains(x));
                assert(keys@.to_set().contains(x));
            }
        }
        match found {
            Some((b, e)) => {
                proof {
                    assert(is_least_faulty(comps, b));
                    let c = choose|k: u128| is_least_faulty(comps, k);
                    assert(is_least_faulty(comps, c));
                    assert(c == b);
                }
                Some(e)
            },
            None => None,
        }
    }

    /// Whether some joint is attached to the component `base`.
    fn has_joint_from(&self, keys: &Vec<u128>, base: u128) -> (found: bool)
        requires
            keys@.to_set() == self.components@.dom(),
        ensures
            found == attached_to(self@.components, base),
    {
        let ghost comps = self@.components;
        let mut found = false;
        let mut i: usize = 0;
        while i < keys.len()
            invariant
                i <= keys.len(),
                comps == self@.components,
                keys@.to_set() == self.components@.dom(),
                found ==> attached_to(comps, base),
                !found ==> forall|j: int|
                    0 <= j < i ==> !is_joint_from(comps, #[trigger] keys@[j], base),
            decreases keys.len() - i,
        {
            let k = keys[i];
            assert(keys@.to_set().contains(keys@[i as int]));
            let attached = match self.components.get(&k) {
                Some(MultibodyComponent::Joint(joint)) => joint.get_from_id() == Some(base),
                _ => false,
            };
            if attached {
                assert(is_joint_from(comps, k, base));
                found = true;
            }
            i += 1;
        }
        proof {
            assert forall|x: u128| is_joint_from(comps, x, base) implies exists|j: int|
                0 <= j < keys@.len() && keys@[j] == x by {
                assert(self.components@.dom().contains(x));
                assert(keys@.to_set().contains(x));
            }
        }
        found
    }

    /// Tells the components of a list of ids their place in the list, and
    /// returns a copy of each as it then is.
    fn stamp_bodies(&mut self, ids: &Vec<u128>) -> (list: Vec<MultibodyComponent>)
        requires
            forall|i: int|
                0 <= i < ids@.len() ==> old(self)@.components.contains_key(#[trigger] ids@[i]),
        ensures
            component_views(list@) == stamped(old(self)@.components, ids@),
            final(self)@ == (GraphView {
                components: stamp_seq(old(self)@.components, ids@),
                ..old(self)@
            }),
    {
        let ghost pre = self@;
        let mut list: Vec<MultibodyComponent> = Vec::new();
        let mut i: usize = 0;
        proof {
            assert(stamp_seq(pre.components, ids@.take(0)) =~= pre.components);
            assert(component_views(list@) =~= stamped(pre.components, ids@.take(0)));
        }
        while i < ids.len()
            invariant
                i <= ids.len(),
                forall|j: int| 0 <= j < ids@.len() ==> pre.components.contains_key(#[trigger] ids@[j]),
                self@ == (GraphView {
                    components: stamp_seq(pre.components, ids@.take(i as int)),
                    ..pre
                }),
                component_views(list@) == stamped(pre.components, ids@.take(i as int)),
            decreases ids.len() - i,
        {
            let k = ids[i];
            let ghost registry = self@.components;
            let ghost listed = list@;
            assert(pre.components.contains_key(ids@[i as int]));
            assert(registry.contains_key(k));
            assert(self.components@.contains_key(k));
            match self.components.remove(&k) {
                Some(mut c) => {
                    c.set_system_id(i);
                    let copy = c.clone();
                    assert(copy@ == registry[k].with_system_id(i));
                    list.push(copy);
                    assert(list@ == listed.push(copy));
                    self.components.insert(k, c);
                },
                None => {
                    assert(false);
                },
            }
            assert(list@.len() == listed.len() + 1);
            assert(list@.last()@ == pre.components[k].with_system_id(i));
            proof {
                lemma_stamp_step(pre.components, ids@, i as int);
                if ids@.take(i as int).contains(k) {
                    lemma_restamp(
                        pre.components[k],
                        last_index(ids@.take(i as int), k) as usize,
                        i,
                    );
                }
                assert(registry[k].with_system_id(i) == pre.components[k].with_system_id(i));
                assert(self@.components =~= registry.insert(
                    k,
                    pre.components[k].with_system_id(i),
                ));
                assert(component_views(list@) =~= component_views(listed).push(
                    pre.components[k].with_system_id(i),
                ));
            }
            i += 1;
        }
        proof {
            assert(ids@.take(i as int) =~= ids@);
        }
        list
    }

    /// Tells the joints of a list of ids their place in the list, and
    /// returns a copy of each as it then is.
    fn stamp_joints(&mut self, ids: &Vec<u128>) -> (list: Vec<Joint>)
        requires
            forall|i: int|
                0 <= i < ids@.len() ==> old(self)@.components.contains_key(#[trigger] ids@[i])
                    && old(self)@.components[ids@[i]] is Joint,
        ensures
            joint_views(list@) == stamped_joints(old(self)@.components, ids@),
            final(self)@ == (GraphView {
                components: stamp_seq(old(self)@.components, ids@),
                ..old(self)@
            }),
    {
        let ghost pre = self@;
        let mut list: Vec<Joint> = Vec::new();
        let mut i: usize = 0;
        proof {
            assert(stamp_seq(pre.components, ids@.take(0)) =~= pre.components);
            assert(joint_views(list@) =~= stamped_joints(pre.components, ids@.take(0)));
        }
        while i < ids.len()
            invariant
                i <= ids.len(),
                forall|j: int|
                    0 <= j < ids@.len() ==> pre.components.contains_key(#[trigger] ids@[j])
                        && pre.components[ids@[j]] is Joint,
                self@ == (GraphView {
                    components: stamp_seq(pre.components, ids@.take(i as int)),
                    ..pre
                }),
                joint_views(list@) == stamped_joints(pre.components, ids@.take(i as int)),
            decreases ids.len() - i,
        {
            let k = ids[i];
            let ghost registry = self@.components;
            let ghost listed = list@;
            assert(pre.components.contains_key(ids@[i as int]) && pre.components[ids@[i as int]] is Joint);
            assert(registry.contains_key(k) && registry[k] is Joint);
            assert(self.components@.contains_key(k));
            match self.components.remove(&k) {
                Some(MultibodyComponent::Joint(mut joint)) => {
                    joint.set_system_id(i);
                    let copy = joint.clone();
                    assert(ComponentView::Joint(copy@) == registry[k].with_system_id(i));
                    list.push(copy);
                    assert(list@ == listed.push(copy));
                    self.components.insert(k, MultibodyComponent::Joint(joint));
                },
                Some(other) => {
                    assert(false);
                    self.components.insert(k, other);
                },
                None => {
                    assert(false);
                },
            }
            assert(list@.len() == listed.len() + 1);
            assert(list@.last()@ == joint_of(pre.components[k].with_system_id(i)));
            proof {
                lemma_stamp_step(pre.components, ids@, i as int);
                if ids@.take(i as int).contains(k) {
                    lemma_restamp(
                        pre.components[k],
                        last_index(ids@.take(i as int), k) as usize,
                        i,
                    );
                }
                assert(registry[k].with_system_id(i) == pre.components[k].with_system_id(i));
                assert(self@.components =~= registry.insert(
                    k,
                    pre.components[k].with_system_id(i),
                ));
                assert(joint_views(list@) =~= joint_views(listed).push(
                    joint_of(pre.components[k].with_system_id(i)),
                ));
            }
            i += 1;
        }
        proof {
            assert(ids@.take(i as int) =~= ids@);
        }
        list
    }

    /// Resolves the graph into a system of bodies and joints, each list in
    /// the order of the walk from the base, each component with its place
    /// in its list as its place in the system.
    ///
    /// Fails, and leaves the graph as it is, where there is no base, where
    /// a component lacks a connection, where no joint is attached to the
    /// base, and where the walk fails. On success every component that is
    /// part of the system knows its place in it; nothing else changes.
    pub fn create_multibody_system(&mut self) -> (r: Result<MultibodySystem, GraphErrors>)
        ensures
            match resolution(old(self)@.components) {
                Err(e) => r matches Err(x) && x == e && final(self)@ == old(self)@,
                Ok(w) => {
                    &&& r matches Ok(system)
                    &&& system@ == system_of(old(self)@.components, w)
                    &&& final(self)@ == (GraphView {
                        components: stamp_walk(old(self)@.components, w),
                        ..old(self)@
                    })
                },
            },
            old(self)@.wf() ==> final(self)@.wf(),
            connections_legal(old(self)@.components) ==> connections_legal(
                final(self)@.components,
            ),
    {
        let ghost comps = self@.components;
        proof {
            assert(comps.dom() =~= self.components@.dom());
            if connections_legal(comps) && resolution(comps) is Ok {
                lemma_resolved_keeps_legal(comps, resolution(comps)->Ok_0);
            }
        }
        let keys = keys_of(&self.components);
        let base = match self.find_base(&keys) {
            Some(b) => b,
            None => {
                return Err(GraphErrors::NoBase);
            },
        };
        proof {
            let c = least_base(comps);
            assert(is_least_base(comps, c));
            assert(c == base);
        }
        match self.find_fault(&keys) {
            Some(e) => {
                return Err(e);
            },
            None => {},
        }
        if !self.has_joint_from(&keys, base) {
            return Err(GraphErrors::NoBaseConnections);
        }
        let mut body_ids: Vec<u128> = Vec::new();
        let mut joint_ids: Vec<u128> = Vec::new();
        let mut path: HashSet<u128> = HashSet::new();
        match self.traverse_component(base, &mut body_ids, &mut joint_ids, &mut path) {
            Err(e) => {
                return Err(e);
            },
            Ok(()) => {},
        }
        let ghost w = visit(comps, base, Set::empty())->Ok_0;
        proof {
            lemma_visit_in(comps, base, Set::empty());
            assert(body_ids@ =~= w.bodies);
            assert(joint_ids@ =~= w.joints);
        }
        let bodies = self.stamp_bodies(&body_ids);
        let ghost between = self@.components;
        proof {
            assert forall|i: int| 0 <= i < joint_ids@.len() implies between.contains_key(
                #[trigger] joint_ids@[i],
            ) && between[joint_ids@[i]] == comps[joint_ids@[i]] by {
                let k = joint_ids@[i];
                if w.bodies.contains(k) {
                    let at = choose|j: int| 0 <= j < w.bodies.len() && w.bodies[j] == k;
                    assert(!(comps[w.bodies[at]] is Joint));
                }
            }
        }
        let joints = self.stamp_joints(&joint_ids);
        proof {
            assert(joint_views(joints@) =~= stamped_joints(comps, w.joints));
        }
        Ok(MultibodySystem::new(bodies, joints))
    }
}

/// What a component lacks to be part of a system.
pub fn component_fault(component: &MultibodyComponent, id: u128) -> (fault: Option<GraphErrors>)
    ensures
        fault == fault_in(component@, id),
{
    match component {
        MultibodyComponent::Base(_) => None,
        MultibodyComponent::Body(body) => match body.get_from_id() {
            Some(_) => None,
            None => Some(GraphErrors::BodyMissingFrom(id)),
        },
        MultibodyComponent::Joint(joint) => match joint.get_from_id() {
            None => Some(GraphErrors::JointMissingFrom(id)),
            Some(_) => if joint.get_to_id().len() == 0 {
                Some(GraphErrors::JointMissingTo(id))
            } else {
                None
            },
        },
    }
}

} // verus!
