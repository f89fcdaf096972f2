use multibody::multibody::connection::{is_valid, ComponentKind, ConnectionRole, JointConnection};

#[test]
fn validity_of_named_pairs() {
    assert!(is_valid(ComponentKind::Base, ComponentKind::Revolute));
    assert!(is_valid(ComponentKind::Revolute, ComponentKind::Base));
    assert!(!is_valid(ComponentKind::Body, ComponentKind::Body));
    assert!(!is_valid(ComponentKind::Base, ComponentKind::Body));
}

#[test]
fn validity_of_every_pair() {
    let kinds = [ComponentKind::Base, ComponentKind::Body, ComponentKind::Revolute];
    for a in kinds {
        for b in kinds {
            let joint_a = a == ComponentKind::Revolute;
            let joint_b = b == ComponentKind::Revolute;
            assert_eq!(is_valid(a, b), joint_a != joint_b, "{a:?} to {b:?}");
            assert_eq!(is_valid(a, b), is_valid(b, a), "{a:?} and {b:?}");
        }
    }
    assert!(is_valid(ComponentKind::Body, ComponentKind::Revolute));
    assert!(is_valid(ComponentKind::Revolute, ComponentKind::Body));
    assert!(!is_valid(ComponentKind::Base, ComponentKind::Base));
    assert!(!is_valid(ComponentKind::Body, ComponentKind::Base));
    assert!(!is_valid(ComponentKind::Revolute, ComponentKind::Revolute));
}

#[test]
fn roles_of_the_kinds() {
    assert_eq!(ComponentKind::Base.role(), ConnectionRole::Link);
    assert_eq!(ComponentKind::Body.role(), ConnectionRole::Link);
    assert_eq!(ComponentKind::Revolute.role(), ConnectionRole::Joint);
}

#[test]
fn a_joint_connection_starts_empty() {
    let c = JointConnection::default();
    assert_eq!(c.inner_body, None);
    assert_eq!(c.outer_body, None);
}
