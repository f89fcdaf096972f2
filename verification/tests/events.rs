use multibody::multibody::MultibodyTrait;
use multibody::scalar::{Point, Scalar};
use multibody::ui::canvas::edge::EdgeConnection;
use multibody::ui::canvas::events::GraphMotion;
use multibody::ui::canvas::graph::{Graph, GraphMessage};
use multibody::ui::dummies::{DummyBase, DummyBody, DummyComponent, DummyRevolute};
use multibody::ui::mouse::{MouseButton, MouseButtonReleaseEvents};

fn s(v: f64) -> Scalar {
    Scalar::from_bits(v.to_bits())
}

fn f(v: Scalar) -> f64 {
    f64::from_bits(v.to_bits())
}

fn at(x: f64, y: f64) -> Point {
    Point::new(s(x), s(y))
}

fn xy(p: Point) -> (f64, f64) {
    (f(p.x), f(p.y))
}

fn sample() -> Graph {
    let mut graph = Graph::default();
    graph.insert_component(1, 1001, 2001, &DummyComponent::Base(DummyBase::new(1)), at(0.0, 0.0));
    graph.insert_component(2, 1002, 2002, &DummyComponent::Revolute(DummyRevolute::new(3)), at(0.0, 0.0));
    graph.insert_component(3, 1003, 2003, &DummyComponent::Body(DummyBody::new(2)), at(0.0, 0.0));
    graph
}

#[test]
fn the_left_button_picks_and_selects() {
    let mut graph = sample();
    graph.left_button_pressed(Some(at(3.0, 4.0)), Some(1002));
    assert!(graph.is_clicked);
    assert_eq!(graph.left_clicked_node, Some(1002));
    assert_eq!(graph.selected_node, Some(1002));
    assert_eq!(graph.last_cursor_position.map(xy), Some((3.0, 4.0)));
    graph.left_button_pressed(Some(at(5.0, 6.0)), None);
    assert_eq!(graph.left_clicked_node, None);
    assert_eq!(graph.selected_node, None);
    graph.left_button_pressed(Some(at(5.0, 6.0)), Some(4040));
    assert_eq!(graph.left_clicked_node, None);
    graph.left_button_pressed(Some(at(5.0, 6.0)), Some(1001));
    let mut away = sample();
    away.left_button_pressed(None, Some(1001));
    assert!(!away.is_clicked);
    assert_eq!(away.left_clicked_node, None);
    assert_eq!(away.selected_node, None);
    assert!(away.last_cursor_position.is_none());
}

#[test]
fn a_double_click_asks_to_edit() {
    let mut graph = sample();
    graph.left_button_pressed(Some(at(3.0, 4.0)), Some(1003));
    let message = graph.left_button_released(&MouseButtonReleaseEvents::DoubleClick, Some(at(7.0, 8.0)));
    assert_eq!(message, Some(GraphMessage::EditComponent(3)));
    assert!(!graph.is_clicked);
    assert_eq!(graph.left_clicked_node, None);
    assert_eq!(graph.selected_node, Some(1003));
    assert_eq!(graph.last_cursor_position.map(xy), Some((7.0, 8.0)));
}

#[test]
fn other_releases_ask_for_nothing() {
    for event in [
        MouseButtonReleaseEvents::SingleClick,
        MouseButtonReleaseEvents::Held,
        MouseButtonReleaseEvents::Nothing,
    ] {
        let mut graph = sample();
        graph.left_button_pressed(Some(at(3.0, 4.0)), Some(1003));
        assert_eq!(graph.left_button_released(&event, None), None);
        assert_eq!(graph.selected_node, Some(1003));
        assert_eq!(graph.last_cursor_position.map(xy), Some((3.0, 4.0)));
    }
    let mut graph = sample();
    graph.selected_node = Some(1001);
    assert_eq!(graph.left_button_released(&MouseButtonReleaseEvents::DoubleClick, None), None);
    assert_eq!(graph.selected_node, None);
}

#[test]
fn the_cursor_drags_the_held_node() {
    let mut graph = sample();
    graph.left_button_pressed(Some(at(3.0, 4.0)), Some(1002));
    let update = graph.track_cursor(Some(at(9.0, 9.5)), 70);
    assert!(update.redraw);
    match update.motion {
        GraphMotion::Node(n, p) => {
            assert_eq!(n, 1002);
            assert_eq!(xy(p), (9.0, 9.5));
        }
        _ => panic!("the held node is dragged"),
    }
    assert_eq!(graph.last_cursor_position.map(xy), Some((9.0, 9.5)));
    assert!(graph.edges.is_empty());
    let update = graph.track_cursor(None, 70);
    assert!(!update.redraw);
    assert!(matches!(update.motion, GraphMotion::Still));
}

#[test]
fn the_cursor_pans_the_graph() {
    let mut graph = sample();
    let update = graph.track_cursor(Some(at(1.0, 1.0)), 70);
    assert!(!update.redraw);
    assert!(matches!(update.motion, GraphMotion::Still));
    graph.left_button_pressed(Some(at(3.0, 4.0)), None);
    let update = graph.track_cursor(Some(at(5.0, 7.0)), 70);
    assert!(update.redraw);
    match update.motion {
        GraphMotion::Pan(from, to) => {
            assert_eq!(xy(from), (3.0, 4.0));
            assert_eq!(xy(to), (5.0, 7.0));
        }
        _ => panic!("the graph is shifted"),
    }
    let update = graph.track_cursor(Some(at(6.0, 7.0)), 70);
    match update.motion {
        GraphMotion::Pan(from, to) => {
            assert_eq!(xy(from), (5.0, 7.0));
            assert_eq!(xy(to), (6.0, 7.0));
        }
        _ => panic!("the graph is shifted"),
    }
}

#[test]
fn the_right_button_draws_an_edge_and_connects() {
    let mut graph = sample();
    graph.right_button_pressed(Some(at(1.0, 1.0)), Some(1001));
    assert_eq!(graph.right_clicked_node, Some(1001));
    let update = graph.track_cursor(Some(at(2.0, 2.0)), 70);
    assert!(update.redraw);
    assert_eq!(graph.current_edge, Some(70));
    let edge = graph.edges[&70];
    assert!(matches!(edge.from, EdgeConnection::Node(1)));
    match edge.to {
        EdgeConnection::Point(p) => assert_eq!(xy(p), (2.0, 2.0)),
        _ => panic!("the edge follows the cursor"),
    }
    assert_eq!(graph.nodes[&1001].edges, vec![70]);
    graph.track_cursor(Some(at(3.0, 2.5)), 71);
    assert_eq!(graph.current_edge, Some(70));
    assert!(!graph.edges.contains_key(&71));
    match graph.edges[&70].to {
        EdgeConnection::Point(p) => assert_eq!(xy(p), (3.0, 2.5)),
        _ => panic!("the edge follows the cursor"),
    }
    graph.right_button_released(Some(1002));
    assert_eq!(graph.current_edge, None);
    assert_eq!(graph.right_clicked_node, None);
    assert!(matches!(graph.edges[&70].to, EdgeConnection::Node(2)));
    assert_eq!(graph.nodes[&1002].edges, vec![70]);
    assert_eq!(graph.components[&1].get_to_id(), &vec![2]);
    assert_eq!(graph.components[&2].get_from_id(), Some(1));
}

#[test]
fn an_edge_dropped_on_nothing_is_discarded() {
    let mut graph = sample();
    graph.right_button_pressed(Some(at(1.0, 1.0)), Some(1001));
    graph.track_cursor(Some(at(2.0, 2.0)), 70);
    graph.right_button_released(None);
    assert_eq!(graph.current_edge, None);
    assert_eq!(graph.right_clicked_node, None);
    assert!(graph.edges.is_empty());
    assert!(graph.components[&1].get_to_id().is_empty());
}

#[test]
fn an_edge_dropped_on_the_wrong_kind_is_discarded() {
    let mut graph = sample();
    graph.right_button_pressed(Some(at(1.0, 1.0)), Some(1001));
    graph.track_cursor(Some(at(2.0, 2.0)), 70);
    graph.right_button_released(Some(1003));
    assert_eq!(graph.current_edge, None);
    assert!(graph.edges.is_empty());
    assert!(graph.components[&1].get_to_id().is_empty());
    assert_eq!(graph.components[&3].get_from_id(), None);
    graph.right_button_pressed(Some(at(1.0, 1.0)), Some(1001));
    graph.track_cursor(Some(at(2.0, 2.0)), 72);
    graph.right_button_released(Some(5555));
    assert!(graph.edges.is_empty());
}

#[test]
fn a_release_without_an_edge_changes_nothing() {
    let mut graph = sample();
    graph.right_button_pressed(Some(at(1.0, 1.0)), Some(1001));
    graph.right_button_released(Some(1002));
    assert_eq!(graph.right_clicked_node, Some(1001));
    assert!(graph.components[&1].get_to_id().is_empty());
}

#[test]
fn cursor_moved_starts_an_edge_under_a_random_id() {
    let mut graph = sample();
    graph.right_button_pressed(Some(at(1.0, 1.0)), Some(1003));
    let update = graph.cursor_moved(Some(at(2.0, 2.0)));
    assert!(update.redraw);
    let id = graph.current_edge.expect("an edge has started");
    assert_eq!(id & 0xF000_C000_0000_0000_0000, 0x4000_8000_0000_0000_0000);
    assert!(matches!(graph.edges[&id].from, EdgeConnection::Node(3)));
    assert_eq!(graph.nodes[&1003].edges, vec![id]);
}

#[test]
fn the_delete_key_deletes_the_selected_component() {
    let mut graph = sample();
    assert_eq!(graph.connect(1, 2), Ok(()));
    graph.delete_pressed();
    assert_eq!(graph.components.len(), 3);
    graph.left_button_pressed(Some(at(3.0, 4.0)), Some(1002));
    graph.left_button_released(&MouseButtonReleaseEvents::SingleClick, None);
    graph.delete_pressed();
    assert_eq!(graph.selected_node, None);
    assert!(!graph.components.contains_key(&2));
    assert!(!graph.nodes.contains_key(&1002));
    assert!(graph.components[&1].get_to_id().is_empty());
    graph.selected_node = Some(123456);
    graph.delete_pressed();
    assert_eq!(graph.selected_node, None);
    assert_eq!(graph.components.len(), 2);
}

#[test]
fn buttons_remember_what_they_are_over() {
    let mut graph = sample();
    graph.get_clicked_node(Some(at(0.0, 0.0)), Some(1001), &MouseButton::Left);
    assert_eq!(graph.left_clicked_node, Some(1001));
    assert_eq!(graph.right_clicked_node, None);
    graph.get_clicked_node(Some(at(0.0, 0.0)), Some(1002), &MouseButton::Right);
    assert_eq!(graph.right_clicked_node, Some(1002));
    graph.get_clicked_node(Some(at(0.0, 0.0)), Some(1003), &MouseButton::Middle);
    assert_eq!(graph.left_clicked_node, Some(1001));
    assert_eq!(graph.right_clicked_node, Some(1002));
    graph.get_clicked_node(None, Some(1003), &MouseButton::Left);
    assert_eq!(graph.left_clicked_node, None);
    graph.get_clicked_node(Some(at(0.0, 0.0)), Some(9), &MouseButton::Right);
    assert_eq!(graph.right_clicked_node, None);
}
