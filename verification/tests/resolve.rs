use multibody::multibody::joints::Joint;
use multibody::multibody::{MultibodyComponent, MultibodySystem, MultibodyTrait};
use multibody::scalar::{Point, Scalar};
use multibody::ui::canvas::graph::{Graph, GraphErrors};
use multibody::ui::canvas::traversal::component_fault;
use multibody::ui::dummies::{DummyBase, DummyBody, DummyComponent, DummyRevolute};

fn origin() -> Point {
    Point::new(Scalar::from_bits(0.0f64.to_bits()), Scalar::from_bits(0.0f64.to_bits()))
}

fn add_base(graph: &mut Graph, id: u128) {
    graph.insert_component(id, id + 1000, id + 2000, &DummyComponent::Base(DummyBase::new(1)), origin());
}

fn add_body(graph: &mut Graph, id: u128) {
    graph.insert_component(id, id + 1000, id + 2000, &DummyComponent::Body(DummyBody::new(2)), origin());
}

fn add_revolute(graph: &mut Graph, id: u128) {
    graph.insert_component(
        id,
        id + 1000,
        id + 2000,
        &DummyComponent::Revolute(DummyRevolute::new(3)),
        origin(),
    );
}

fn link(graph: &mut Graph, from: u128, to: u128) {
    assert_eq!(graph.connect(from, to), Ok(()));
}

fn system_id(c: &MultibodyComponent) -> Option<usize> {
    match c {
        MultibodyComponent::Base(b) => b.meta.system_id,
        MultibodyComponent::Body(b) => b.meta.system_id,
        MultibodyComponent::Joint(Joint::Revolute(j)) => j.meta.system_id,
    }
}

fn joint_system_id(j: &Joint) -> Option<usize> {
    match j {
        Joint::Revolute(j) => j.meta.system_id,
    }
}

fn body_ids(system: &MultibodySystem) -> Vec<u128> {
    system.bodies.iter().map(|c| c.get_component_id()).collect()
}

fn joint_ids(system: &MultibodySystem) -> Vec<u128> {
    system.joints.iter().map(|j| j.get_component_id()).collect()
}

fn assert_places(system: &MultibodySystem) {
    for (i, c) in system.bodies.iter().enumerate() {
        assert_eq!(system_id(c), Some(i));
        assert!(!matches!(c, MultibodyComponent::Joint(_)));
    }
    for (i, j) in system.joints.iter().enumerate() {
        assert_eq!(joint_system_id(j), Some(i));
    }
}

#[test]
fn resolve_without_base_is_no_base() {
    let mut graph = Graph::default();
    assert_eq!(graph.create_multibody_system().err(), Some(GraphErrors::NoBase));
    add_body(&mut graph, 5);
    add_revolute(&mut graph, 6);
    link(&mut graph, 6, 5);
    assert_eq!(graph.create_multibody_system().err(), Some(GraphErrors::NoBase));
}

#[test]
fn resolve_base_revolute_body() {
    let mut graph = Graph::default();
    add_base(&mut graph, 10);
    add_revolute(&mut graph, 20);
    add_body(&mut graph, 30);
    link(&mut graph, 10, 20);
    link(&mut graph, 20, 30);
    let system = graph.create_multibody_system().expect("the chain resolves");
    assert_eq!(system.bodies.len(), 2);
    assert_eq!(system.joints.len(), 1);
    assert!(matches!(system.bodies[0], MultibodyComponent::Base(_)));
    assert!(matches!(system.bodies[1], MultibodyComponent::Body(_)));
    assert_eq!(body_ids(&system), vec![10, 30]);
    assert_eq!(joint_ids(&system), vec![20]);
    assert_eq!(system_id(&system.bodies[0]), Some(0));
    assert_eq!(system_id(&system.bodies[1]), Some(1));
    assert_eq!(joint_system_id(&system.joints[0]), Some(0));
    assert_eq!(system.bodies[0].get_to_id(), &vec![20]);
    assert_eq!(system.joints[0].get_from_id(), Some(10));
    assert_eq!(system.joints[0].get_to_id(), &vec![30]);
    assert_eq!(system.bodies[1].get_from_id(), Some(20));
}

#[test]
fn resolve_leaves_the_places_in_the_registry() {
    let mut graph = Graph::default();
    add_base(&mut graph, 10);
    add_revolute(&mut graph, 20);
    add_body(&mut graph, 30);
    add_body(&mut graph, 40);
    add_revolute(&mut graph, 50);
    link(&mut graph, 10, 20);
    link(&mut graph, 20, 30);
    link(&mut graph, 50, 40);
    link(&mut graph, 40, 50);
    assert!(graph.create_multibody_system().is_ok());
    assert_eq!(system_id(&graph.components[&10]), Some(0));
    assert_eq!(system_id(&graph.components[&30]), Some(1));
    assert_eq!(system_id(&graph.components[&20]), Some(0));
    assert_eq!(system_id(&graph.components[&40]), None);
    assert_eq!(system_id(&graph.components[&50]), None);
    assert_eq!(graph.components.len(), 5);
    assert_eq!(graph.components[&10].get_to_id(), &vec![20]);
    assert_eq!(graph.components[&40].get_from_id(), Some(50));
}

#[test]
fn a_joint_without_downstream_is_reported() {
    let mut graph = Graph::default();
    add_base(&mut graph, 10);
    add_revolute(&mut graph, 20);
    link(&mut graph, 10, 20);
    assert_eq!(graph.create_multibody_system().err(), Some(GraphErrors::JointMissingTo(20)));
}

#[test]
fn a_joint_without_upstream_is_reported() {
    let mut graph = Graph::default();
    add_base(&mut graph, 10);
    add_revolute(&mut graph, 20);
    add_body(&mut graph, 30);
    link(&mut graph, 20, 30);
    assert_eq!(graph.create_multibody_system().err(), Some(GraphErrors::JointMissingFrom(20)));
}

#[test]
fn a_body_without_upstream_is_reported() {
    let mut graph = Graph::default();
    add_base(&mut graph, 10);
    add_revolute(&mut graph, 20);
    add_body(&mut graph, 30);
    add_body(&mut graph, 40);
    link(&mut graph, 10, 20);
    link(&mut graph, 20, 30);
    assert_eq!(graph.create_multibody_system().err(), Some(GraphErrors::BodyMissingFrom(40)));
}

#[test]
fn of_several_faults_the_smallest_id_is_reported() {
    let mut graph = Graph::default();
    add_base(&mut graph, 10);
    add_body(&mut graph, 70);
    add_revolute(&mut graph, 40);
    add_body(&mut graph, 55);
    add_revolute(&mut graph, 90);
    assert_eq!(graph.create_multibody_system().err(), Some(GraphErrors::JointMissingFrom(40)));
    graph.delete(40);
    assert_eq!(graph.create_multibody_system().err(), Some(GraphErrors::BodyMissingFrom(55)));
}

#[test]
fn a_base_without_joint_is_reported() {
    let mut graph = Graph::default();
    add_base(&mut graph, 10);
    assert_eq!(graph.create_multibody_system().err(), Some(GraphErrors::NoBaseConnections));
    add_revolute(&mut graph, 20);
    add_body(&mut graph, 30);
    add_body(&mut graph, 40);
    add_revolute(&mut graph, 50);
    link(&mut graph, 30, 20);
    link(&mut graph, 20, 40);
    link(&mut graph, 40, 50);
    link(&mut graph, 50, 30);
    assert_eq!(graph.create_multibody_system().err(), Some(GraphErrors::NoBaseConnections));
}

#[test]
fn a_dangling_connection_is_reported() {
    let mut graph = Graph::default();
    add_base(&mut graph, 10);
    add_revolute(&mut graph, 20);
    add_body(&mut graph, 30);
    link(&mut graph, 10, 20);
    link(&mut graph, 20, 30);
    graph.components.get_mut(&30).expect("registered").connect_to(404);
    assert_eq!(graph.create_multibody_system().err(), Some(GraphErrors::IdNotFound(404)));
    assert_eq!(system_id(&graph.components[&10]), None);
    assert_eq!(system_id(&graph.components[&20]), None);
}

#[test]
fn a_cycle_is_reported() {
    let mut graph = Graph::default();
    add_base(&mut graph, 10);
    add_revolute(&mut graph, 20);
    add_body(&mut graph, 30);
    add_revolute(&mut graph, 40);
    link(&mut graph, 10, 20);
    link(&mut graph, 20, 30);
    link(&mut graph, 30, 40);
    link(&mut graph, 40, 30);
    assert_eq!(graph.create_multibody_system().err(), Some(GraphErrors::Cycle(30)));
    assert_eq!(system_id(&graph.components[&10]), None);
    assert_eq!(graph.components[&30].get_from_id(), Some(40));
}

#[test]
fn a_failed_resolution_changes_nothing() {
    let mut graph = Graph::default();
    add_base(&mut graph, 10);
    add_revolute(&mut graph, 20);
    add_body(&mut graph, 30);
    link(&mut graph, 10, 20);
    link(&mut graph, 20, 30);
    assert!(graph.create_multibody_system().is_ok());
    add_revolute(&mut graph, 25);
    add_body(&mut graph, 35);
    link(&mut graph, 10, 25);
    link(&mut graph, 25, 35);
    graph.components.get_mut(&35).expect("registered").connect_to(404);
    assert_eq!(graph.create_multibody_system().err(), Some(GraphErrors::IdNotFound(404)));
    assert_eq!(system_id(&graph.components[&10]), Some(0));
    assert_eq!(system_id(&graph.components[&30]), Some(1));
    assert_eq!(system_id(&graph.components[&20]), Some(0));
    assert_eq!(system_id(&graph.components[&25]), None);
    assert_eq!(system_id(&graph.components[&35]), None);
}

#[test]
fn the_walk_is_depth_first_in_the_order_of_connection() {
    let mut graph = Graph::default();
    add_base(&mut graph, 1);
    for j in [20u128, 10, 30, 15] {
        add_revolute(&mut graph, j);
    }
    for b in [200u128, 100, 300, 150] {
        add_body(&mut graph, b);
    }
    link(&mut graph, 1, 20);
    link(&mut graph, 1, 10);
    link(&mut graph, 20, 200);
    link(&mut graph, 200, 30);
    link(&mut graph, 30, 300);
    link(&mut graph, 200, 15);
    link(&mut graph, 15, 150);
    link(&mut graph, 10, 100);
    let system = graph.create_multibody_system().expect("the tree resolves");
    assert_eq!(body_ids(&system), vec![1, 200, 300, 150, 100]);
    assert_eq!(joint_ids(&system), vec![20, 30, 15, 10]);
    assert_places(&system);
    for (i, id) in body_ids(&system).iter().enumerate() {
        assert_eq!(system_id(&graph.components[id]), Some(i));
    }
    for (i, id) in joint_ids(&system).iter().enumerate() {
        assert_eq!(system_id(&graph.components[id]), Some(i));
    }
}

#[test]
fn islands_are_left_out() {
    let mut graph = Graph::default();
    add_base(&mut graph, 1);
    add_revolute(&mut graph, 2);
    add_body(&mut graph, 3);
    add_revolute(&mut graph, 4);
    add_body(&mut graph, 5);
    add_body(&mut graph, 6);
    link(&mut graph, 1, 2);
    link(&mut graph, 2, 3);
    link(&mut graph, 6, 4);
    link(&mut graph, 4, 5);
    link(&mut graph, 4, 6);
    let system = graph.create_multibody_system().expect("the island does not matter");
    assert_eq!(body_ids(&system), vec![1, 3]);
    assert_eq!(joint_ids(&system), vec![2]);
}

#[test]
fn of_several_bases_the_smallest_id_is_the_root() {
    let mut graph = Graph::default();
    add_base(&mut graph, 9);
    add_base(&mut graph, 4);
    add_base(&mut graph, 7);
    add_revolute(&mut graph, 20);
    add_body(&mut graph, 30);
    link(&mut graph, 9, 20);
    link(&mut graph, 20, 30);
    assert_eq!(graph.create_multibody_system().err(), Some(GraphErrors::NoBaseConnections));
    add_revolute(&mut graph, 21);
    add_body(&mut graph, 31);
    link(&mut graph, 4, 21);
    link(&mut graph, 21, 31);
    let system = graph.create_multibody_system().expect("the smallest base has a joint");
    assert_eq!(body_ids(&system), vec![4, 31]);
    assert_eq!(joint_ids(&system), vec![21]);
}

#[test]
fn a_component_connected_twice_is_listed_twice() {
    let mut graph = Graph::default();
    add_base(&mut graph, 1);
    add_revolute(&mut graph, 2);
    add_body(&mut graph, 3);
    link(&mut graph, 1, 2);
    link(&mut graph, 1, 2);
    link(&mut graph, 2, 3);
    let system = graph.create_multibody_system().expect("no cycle, so it resolves");
    assert_eq!(body_ids(&system), vec![1, 3, 3]);
    assert_eq!(joint_ids(&system), vec![2, 2]);
    assert_places(&system);
    assert_eq!(system_id(&graph.components[&3]), Some(2));
    assert_eq!(system_id(&graph.components[&2]), Some(1));
}

#[test]
fn a_deleted_component_is_not_resolved() {
    let mut graph = Graph::default();
    add_base(&mut graph, 1);
    add_revolute(&mut graph, 2);
    add_body(&mut graph, 3);
    add_revolute(&mut graph, 4);
    add_body(&mut graph, 5);
    link(&mut graph, 1, 2);
    link(&mut graph, 2, 3);
    link(&mut graph, 3, 4);
    link(&mut graph, 4, 5);
    let system = graph.create_multibody_system().expect("the chain resolves");
    assert_eq!(body_ids(&system), vec![1, 3, 5]);
    graph.delete(5);
    assert_eq!(graph.create_multibody_system().err(), Some(GraphErrors::JointMissingTo(4)));
    graph.delete(4);
    let system = graph.create_multibody_system().expect("the shorter chain resolves");
    assert_eq!(body_ids(&system), vec![1, 3]);
    assert_eq!(joint_ids(&system), vec![2]);
    assert!(!body_ids(&system).contains(&5));
    assert!(!joint_ids(&system).contains(&4));
    graph.delete(1);
    assert_eq!(graph.create_multibody_system().err(), Some(GraphErrors::NoBase));
}

#[test]
fn the_fault_of_a_single_component() {
    let base = MultibodyComponent::from_dummy(1, 2, 3, &DummyComponent::Base(DummyBase::new(9)));
    let mut body = MultibodyComponent::from_dummy(1, 2, 3, &DummyComponent::Body(DummyBody::new(9)));
    let mut joint = MultibodyComponent::from_dummy(1, 2, 3, &DummyComponent::Revolute(DummyRevolute::new(9)));
    assert_eq!(component_fault(&base, 1), None);
    assert_eq!(component_fault(&body, 8), Some(GraphErrors::BodyMissingFrom(8)));
    assert_eq!(component_fault(&joint, 7), Some(GraphErrors::JointMissingFrom(7)));
    body.connect_from(1);
    joint.connect_to(5);
    assert_eq!(component_fault(&body, 8), None);
    assert_eq!(component_fault(&joint, 7), Some(GraphErrors::JointMissingFrom(7)));
    joint.connect_from(1);
    assert_eq!(component_fault(&joint, 7), None);
    joint.delete_to(5);
    assert_eq!(component_fault(&joint, 7), Some(GraphErrors::JointMissingTo(7)));
}
