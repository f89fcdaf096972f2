use multibody::multibody::{MultibodyComponent, MultibodyTrait};
use multibody::multibody::mass_properties::MassPropertiesError;
use multibody::scalar::{Point, Scalar};
use multibody::ui::canvas::edge::{Edge, EdgeConnection};
use multibody::ui::canvas::graph::{keys_of, Graph, GraphErrors, GraphNode};
use multibody::ui::dummies::{DummyBase, DummyBody, DummyComponent, DummyRevolute, DummyTrait};

fn s(v: f64) -> Scalar {
    Scalar::from_bits(v.to_bits())
}

fn f(v: Scalar) -> f64 {
    f64::from_bits(v.to_bits())
}

fn at(x: f64, y: f64) -> Point {
    Point::new(s(x), s(y))
}

fn insert_base(graph: &mut Graph, id: u128) {
    graph.insert_component(id, id + 1000, id + 2000, &DummyComponent::Base(DummyBase::new(1)), at(0.0, 0.0));
}

fn insert_body(graph: &mut Graph, id: u128) {
    graph.insert_component(id, id + 1000, id + 2000, &DummyComponent::Body(DummyBody::new(2)), at(0.0, 0.0));
}

fn insert_revolute(graph: &mut Graph, id: u128) {
    graph.insert_component(
        id,
        id + 1000,
        id + 2000,
        &DummyComponent::Revolute(DummyRevolute::new(3)),
        at(0.0, 0.0),
    );
}

fn pending_edge(graph: &mut Graph, edge: u128, from: u128) {
    graph.edges.insert(edge, Edge::new(EdgeConnection::Node(from), EdgeConnection::Point(at(1.0, 1.0))));
    graph.current_edge = Some(edge);
    graph.nodes.get_mut(&(from + 1000)).expect("the node exists").edges.push(edge);
}

fn is_node(c: EdgeConnection, id: u128) -> bool {
    matches!(c, EdgeConnection::Node(n) if n == id)
}

#[test]
fn a_new_graph_is_empty() {
    let graph = Graph::default();
    assert!(graph.components.is_empty());
    assert!(graph.nodes.is_empty());
    assert!(graph.edges.is_empty());
    assert!(graph.names.is_empty());
    assert_eq!(graph.current_edge, None);
    assert_eq!(graph.selected_node, None);
    assert_eq!(graph.left_clicked_node, None);
    assert_eq!(graph.right_clicked_node, None);
    assert!(!graph.is_clicked);
    assert!(graph.last_cursor_position.is_none());
}

#[test]
fn insert_component_registers_component_node_and_name() {
    let mut graph = Graph::default();
    let mut dummy = DummyBody::new(77);
    dummy.set_name("arm");
    dummy.mass = Some(s(3.0));
    graph.insert_component(1, 2, 3, &DummyComponent::Body(dummy), at(10.0, 20.0));
    assert_eq!(graph.components.len(), 1);
    let c = graph.components.get(&1).expect("registered under its id");
    assert_eq!(c.get_component_id(), 1);
    assert_eq!(c.get_node_id(), 2);
    assert_eq!(c.get_name_id(), 3);
    assert_eq!(c.get_dummy_id(), 77);
    match c {
        MultibodyComponent::Body(b) => assert_eq!(f(b.mass_properties.get_mass()), 3.0),
        _ => panic!("a body's buffer makes a body"),
    }
    let node = graph.nodes.get(&2).expect("the node is registered");
    assert_eq!(node.component_id, 1);
    assert!(node.edges.is_empty());
    assert_eq!(f(node.anchor.x), 10.0);
    assert_eq!(f(node.anchor.y), 20.0);
    assert_eq!(graph.names.get(&3).map(|n| n.as_str()), Some("arm"));
}

#[test]
fn add_component_draws_random_ids() {
    let mut graph = Graph::default();
    let a = graph.add_component(&DummyComponent::Base(DummyBase::new(1)), at(0.0, 0.0));
    let b = graph.add_component(&DummyComponent::Body(DummyBody::new(2)), at(0.0, 0.0));
    assert_ne!(a, b);
    for id in [a, b] {
        assert_eq!((id >> 76) & 0xF, 4, "version 4");
        assert_eq!((id >> 62) & 0x3, 2, "RFC variant");
        assert_eq!(id & 0xF000_C000_0000_0000_0000, 0x4000_8000_0000_0000_0000);
    }
    assert_eq!(graph.components.len(), 2);
    assert_eq!(graph.nodes.len(), 2);
    assert_eq!(graph.names.len(), 2);
    let c = graph.components.get(&a).expect("registered under the id returned");
    assert_eq!(c.get_component_id(), a);
    assert_eq!(graph.nodes.get(&c.get_node_id()).expect("its node").component_id, a);
    assert!(graph.names.contains_key(&c.get_name_id()));
}

#[test]
fn save_component_needs_a_place() {
    let mut graph = Graph::default();
    assert_eq!(graph.save_component(&DummyComponent::Base(DummyBase::new(1))), Ok(()));
    assert!(graph.components.is_empty());
    graph.last_cursor_position = Some(at(5.0, 6.0));
    assert_eq!(graph.save_component(&DummyComponent::Base(DummyBase::new(1))), Ok(()));
    assert_eq!(graph.components.len(), 1);
    let node = graph.nodes.values().next().expect("one node");
    assert_eq!(f(node.anchor.x), 5.0);
    assert_eq!(f(node.anchor.y), 6.0);
}

#[test]
fn connect_records_both_sides() {
    let mut graph = Graph::default();
    insert_base(&mut graph, 1);
    insert_revolute(&mut graph, 2);
    insert_body(&mut graph, 3);
    assert_eq!(graph.connect(1, 2), Ok(()));
    assert_eq!(graph.connect(2, 3), Ok(()));
    assert_eq!(graph.components[&1].get_to_id(), &vec![2]);
    assert_eq!(graph.components[&1].get_from_id(), None);
    assert_eq!(graph.components[&2].get_from_id(), Some(1));
    assert_eq!(graph.components[&2].get_to_id(), &vec![3]);
    assert_eq!(graph.components[&3].get_from_id(), Some(2));
    assert!(graph.components[&3].get_to_id().is_empty());
}

#[test]
fn connect_towards_a_base_leaves_the_base_without_upstream() {
    let mut graph = Graph::default();
    insert_base(&mut graph, 1);
    insert_revolute(&mut graph, 2);
    assert_eq!(graph.connect(2, 1), Ok(()));
    assert_eq!(graph.components[&2].get_to_id(), &vec![1]);
    assert_eq!(graph.components[&1].get_from_id(), None);
}

#[test]
fn connect_commits_the_pending_edge() {
    let mut graph = Graph::default();
    insert_base(&mut graph, 1);
    insert_revolute(&mut graph, 2);
    pending_edge(&mut graph, 50, 1);
    assert_eq!(graph.connect(1, 2), Ok(()));
    assert_eq!(graph.current_edge, None);
    let edge = graph.edges.get(&50).expect("the edge is kept");
    assert!(is_node(edge.from, 1));
    assert!(is_node(edge.to, 2));
    assert_eq!(graph.nodes[&1002].edges, vec![50]);
    assert_eq!(graph.nodes[&1001].edges, vec![50]);
}

#[test]
fn connect_refuses_what_the_validator_refuses() {
    let mut graph = Graph::default();
    insert_base(&mut graph, 1);
    insert_body(&mut graph, 3);
    insert_body(&mut graph, 4);
    pending_edge(&mut graph, 50, 1);
    assert_eq!(graph.connect(1, 3), Err(GraphErrors::InvalidConnection(1, 3)));
    assert_eq!(graph.current_edge, None);
    assert!(!graph.edges.contains_key(&50));
    assert!(graph.components[&1].get_to_id().is_empty());
    assert_eq!(graph.components[&3].get_from_id(), None);
    assert_eq!(graph.connect(3, 4), Err(GraphErrors::InvalidConnection(3, 4)));
    assert_eq!(graph.connect(3, 3), Err(GraphErrors::InvalidConnection(3, 3)));
}

#[test]
fn connect_refuses_unknown_ids() {
    let mut graph = Graph::default();
    insert_base(&mut graph, 1);
    assert_eq!(graph.connect(9, 1), Err(GraphErrors::IdNotFound(9)));
    assert_eq!(graph.connect(1, 8), Err(GraphErrors::IdNotFound(8)));
    assert_eq!(graph.connect(9, 8), Err(GraphErrors::IdNotFound(9)));
    assert!(graph.components[&1].get_to_id().is_empty());
}

#[test]
fn disconnect_pending_edge_removes_only_the_edge() {
    let mut graph = Graph::default();
    insert_base(&mut graph, 1);
    pending_edge(&mut graph, 50, 1);
    graph.disconnect_pending_edge();
    assert_eq!(graph.current_edge, None);
    assert!(graph.edges.is_empty());
    assert_eq!(graph.components.len(), 1);
    assert!(graph.components[&1].get_to_id().is_empty());
    graph.disconnect_pending_edge();
    assert!(graph.edges.is_empty());
}

#[test]
fn delete_cascades_to_edges_and_connections() {
    let mut graph = Graph::default();
    insert_base(&mut graph, 1);
    insert_revolute(&mut graph, 2);
    insert_body(&mut graph, 3);
    insert_revolute(&mut graph, 4);
    pending_edge(&mut graph, 50, 1);
    assert_eq!(graph.connect(1, 2), Ok(()));
    pending_edge(&mut graph, 51, 2);
    assert_eq!(graph.connect(2, 3), Ok(()));
    pending_edge(&mut graph, 52, 1);
    assert_eq!(graph.connect(1, 4), Ok(()));

    graph.delete(2);

    assert!(!graph.components.contains_key(&2));
    assert!(!graph.nodes.contains_key(&1002));
    assert!(!graph.edges.contains_key(&50));
    assert!(!graph.edges.contains_key(&51));
    assert!(graph.edges.contains_key(&52));
    assert_eq!(graph.nodes[&1001].edges, vec![52]);
    assert!(graph.nodes[&1003].edges.is_empty());
    assert_eq!(graph.nodes[&1004].edges, vec![52]);
    assert_eq!(graph.components[&1].get_to_id(), &vec![4]);
    assert_eq!(graph.components[&3].get_from_id(), None);
    assert_eq!(graph.components[&4].get_from_id(), Some(1));
    assert_eq!(graph.components.len(), 3);
    for edge in graph.edges.values() {
        assert!(!edge.touches(2));
    }
    for node in graph.nodes.values() {
        assert!(!node.edges.contains(&50) && !node.edges.contains(&51));
    }
}

#[test]
fn delete_of_an_unknown_id_changes_nothing() {
    let mut graph = Graph::default();
    insert_base(&mut graph, 1);
    insert_revolute(&mut graph, 2);
    pending_edge(&mut graph, 50, 1);
    assert_eq!(graph.connect(1, 2), Ok(()));
    graph.delete(99);
    assert_eq!(graph.components.len(), 2);
    assert_eq!(graph.nodes.len(), 2);
    assert_eq!(graph.edges.len(), 1);
    assert_eq!(graph.components[&1].get_to_id(), &vec![2]);
}

#[test]
fn delete_drops_a_pending_edge_of_the_component() {
    let mut graph = Graph::default();
    insert_base(&mut graph, 1);
    insert_body(&mut graph, 3);
    pending_edge(&mut graph, 50, 1);
    graph.delete(3);
    assert_eq!(graph.current_edge, Some(50));
    graph.delete(1);
    assert_eq!(graph.current_edge, None);
    assert!(graph.edges.is_empty());
    assert!(graph.components.is_empty());
}

#[test]
fn edit_component_updates_numbers_and_name() {
    let mut graph = Graph::default();
    insert_body(&mut graph, 3);
    let mut edit = DummyBody::new(2);
    edit.set_name("forearm");
    edit.mass = Some(s(9.0));
    assert_eq!(graph.edit_component(&DummyComponent::Body(edit), 3), Ok(()));
    match &graph.components[&3] {
        MultibodyComponent::Body(b) => assert_eq!(f(b.mass_properties.get_mass()), 9.0),
        _ => panic!("a body stays a body"),
    }
    assert_eq!(graph.names.get(&2003).map(|n| n.as_str()), Some("forearm"));
}

#[test]
fn edit_component_reports_and_changes_nothing() {
    let mut graph = Graph::default();
    insert_body(&mut graph, 3);
    let mut edit = DummyBody::new(2);
    edit.set_name("forearm");
    edit.mass = Some(s(-9.0));
    assert_eq!(
        graph.edit_component(&DummyComponent::Body(edit), 3),
        Err(GraphErrors::Multibody(MassPropertiesError::MassLessThanOrEqualToZero))
    );
    match &graph.components[&3] {
        MultibodyComponent::Body(b) => assert_eq!(f(b.mass_properties.get_mass()), 1.0),
        _ => panic!("a body stays a body"),
    }
    assert_eq!(graph.names.get(&2003).map(|n| n.as_str()), Some(""));
    assert_eq!(
        graph.edit_component(&DummyComponent::Body(DummyBody::new(2)), 4),
        Err(GraphErrors::IdNotFound(4))
    );
    assert_eq!(graph.components.len(), 1);
}

#[test]
fn a_buffer_is_filled_from_a_component() {
    let mut graph = Graph::default();
    let mut dummy = DummyBody::new(2);
    dummy.set_name("arm");
    dummy.mass = Some(s(3.0));
    dummy.iyz = Some(s(0.5));
    graph.insert_component(3, 1003, 2003, &DummyComponent::Body(dummy), at(0.0, 0.0));
    insert_base(&mut graph, 1);

    let mut buffer = DummyComponent::Body(DummyBody::new(2));
    buffer.inherit_from(&3, &graph);
    assert_eq!(buffer.get_name(), "arm");
    match &buffer {
        DummyComponent::Body(b) => {
            assert_eq!(b.mass.map(f), Some(3.0));
            assert_eq!(b.iyz.map(f), Some(0.5));
            assert_eq!(b.ixx.map(f), Some(1.0));
            assert_eq!(b.cmx.map(f), Some(0.0));
        }
        _ => panic!("a body's buffer stays one"),
    }
    let mut other = DummyComponent::Body(DummyBody::new(2));
    other.inherit_from(&1, &graph);
    assert_eq!(other.get_name(), "");
    other.inherit_from(&404, &graph);
    match &other {
        DummyComponent::Body(b) => assert!(b.mass.is_none()),
        _ => panic!("a body's buffer stays one"),
    }
    let mut base = DummyComponent::Base(DummyBase::new(1));
    graph.names.insert(2001, "ground".to_string());
    base.inherit_from(&1, &graph);
    assert_eq!(base.get_name(), "ground");
}

#[test]
fn keys_of_lists_each_key_once() {
    let mut graph = Graph::default();
    for id in [5u128, 1, 9, 3] {
        insert_body(&mut graph, id);
    }
    let mut keys = keys_of(&graph.components);
    keys.sort();
    assert_eq!(keys, vec![1, 3, 5, 9]);
    assert!(keys_of(&graph.edges).is_empty());
}

#[test]
fn a_node_starts_without_edges() {
    let n = GraphNode::new(4, at(1.0, 2.0));
    assert_eq!(n.component_id, 4);
    assert!(n.edges.is_empty());
    assert_eq!(f(n.anchor.y), 2.0);
    let e = Edge::new(EdgeConnection::Node(4), EdgeConnection::Point(at(0.0, 0.0)));
    assert!(e.touches(4));
    assert!(!e.touches(5));
    assert!(e.control.is_none());
    let e = Edge::new(EdgeConnection::Node(1), EdgeConnection::Node(5));
    assert!(e.touches(5) && e.touches(1) && !e.touches(4));
}
