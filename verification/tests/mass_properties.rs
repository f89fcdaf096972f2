use multibody::multibody::mass_properties::{MassProperties, MassPropertiesError};
use multibody::scalar::Scalar;

fn s(v: f64) -> Scalar {
    Scalar::from_bits(v.to_bits())
}

fn f(v: Scalar) -> f64 {
    f64::from_bits(v.to_bits())
}

fn sample() -> MassProperties {
    MassProperties::new(s(2.0), s(0.1), s(0.2), s(0.3), s(1.0), s(1.5), s(2.5), s(0.4), s(0.5), s(0.6))
        .expect("positive mass and inertia are accepted")
}

#[test]
fn zero_mass_is_refused() {
    let r = MassProperties::new(s(0.0), s(0.0), s(0.0), s(0.0), s(1.0), s(1.0), s(1.0), s(0.0), s(0.0), s(0.0));
    assert_eq!(r.err(), Some(MassPropertiesError::MassLessThanOrEqualToZero));
}

#[test]
fn new_round_trips_every_getter() {
    let m = MassProperties::new(
        s(2.0),
        s(0.0),
        s(0.0),
        s(0.0),
        s(1.0),
        s(1.0),
        s(1.0),
        s(0.0),
        s(0.0),
        s(0.0),
    )
    .expect("mass 2 with unit inertia is accepted");
    assert_eq!(f(m.get_mass()), 2.0);
    assert_eq!(f(m.get_ixx()), 1.0);
    assert_eq!(f(m.get_iyy()), 1.0);
    assert_eq!(f(m.get_izz()), 1.0);
    let m = sample();
    assert_eq!(f(m.get_mass()), 2.0);
    assert_eq!(f(m.get_cmx()), 0.1);
    assert_eq!(f(m.get_cmy()), 0.2);
    assert_eq!(f(m.get_cmz()), 0.3);
    assert_eq!(f(m.get_ixx()), 1.0);
    assert_eq!(f(m.get_iyy()), 1.5);
    assert_eq!(f(m.get_izz()), 2.5);
    assert_eq!(f(m.get_ixy()), 0.4);
    assert_eq!(f(m.get_ixz()), 0.5);
    assert_eq!(f(m.get_iyz()), 0.6);
}

#[test]
fn new_reports_the_first_broken_constraint() {
    let bad = s(-1.0);
    let ok = s(1.0);
    let z = s(0.0);
    assert_eq!(
        MassProperties::new(bad, z, z, z, bad, bad, bad, z, z, z).err(),
        Some(MassPropertiesError::MassLessThanOrEqualToZero)
    );
    assert_eq!(
        MassProperties::new(ok, z, z, z, bad, bad, bad, z, z, z).err(),
        Some(MassPropertiesError::IxxLessThanOrEqualToZero)
    );
    assert_eq!(
        MassProperties::new(ok, z, z, z, ok, bad, bad, z, z, z).err(),
        Some(MassPropertiesError::IyyLessThanOrEqualToZero)
    );
    assert_eq!(
        MassProperties::new(ok, z, z, z, ok, ok, bad, z, z, z).err(),
        Some(MassPropertiesError::IzzLessThanOrEqualToZero)
    );
    assert!(MassProperties::new(ok, bad, bad, bad, ok, ok, ok, bad, bad, bad).is_ok());
}

#[test]
fn constrained_setters_refuse_and_keep_the_old_value() {
    let mut m = sample();
    assert_eq!(m.set_mass(s(0.0)), Err(MassPropertiesError::MassLessThanOrEqualToZero));
    assert_eq!(f(m.get_mass()), 2.0);
    assert_eq!(m.set_mass(s(-3.0)), Err(MassPropertiesError::MassLessThanOrEqualToZero));
    assert_eq!(f(m.get_mass()), 2.0);
    assert_eq!(m.set_ixx(s(-0.0)), Err(MassPropertiesError::IxxLessThanOrEqualToZero));
    assert_eq!(f(m.get_ixx()), 1.0);
    assert_eq!(m.set_iyy(s(f64::NEG_INFINITY)), Err(MassPropertiesError::IyyLessThanOrEqualToZero));
    assert_eq!(f(m.get_iyy()), 1.5);
    assert_eq!(m.set_izz(s(-1e-300)), Err(MassPropertiesError::IzzLessThanOrEqualToZero));
    assert_eq!(f(m.get_izz()), 2.5);
}

#[test]
fn constrained_setters_accept_positive_values() {
    let mut m = sample();
    assert_eq!(m.set_mass(s(7.0)), Ok(()));
    assert_eq!(m.set_ixx(s(8.0)), Ok(()));
    assert_eq!(m.set_iyy(s(9.0)), Ok(()));
    assert_eq!(m.set_izz(s(f64::MIN_POSITIVE)), Ok(()));
    assert_eq!(f(m.get_mass()), 7.0);
    assert_eq!(f(m.get_ixx()), 8.0);
    assert_eq!(f(m.get_iyy()), 9.0);
    assert_eq!(f(m.get_izz()), f64::MIN_POSITIVE);
    assert_eq!(f(m.get_cmx()), 0.1);
    assert_eq!(f(m.get_iyz()), 0.6);
}

#[test]
fn free_setters_accept_anything() {
    let mut m = sample();
    assert_eq!(m.set_cmx(s(-1.0)), Ok(()));
    assert_eq!(m.set_cmy(s(0.0)), Ok(()));
    assert_eq!(m.set_cmz(s(-5.5)), Ok(()));
    assert_eq!(m.set_ixy(s(-2.0)), Ok(()));
    assert_eq!(m.set_ixz(s(0.0)), Ok(()));
    assert_eq!(m.set_iyz(s(-9.0)), Ok(()));
    assert_eq!(f(m.get_cmx()), -1.0);
    assert_eq!(f(m.get_cmy()), 0.0);
    assert_eq!(f(m.get_cmz()), -5.5);
    assert_eq!(f(m.get_ixy()), -2.0);
    assert_eq!(f(m.get_ixz()), 0.0);
    assert_eq!(f(m.get_iyz()), -9.0);
    assert_eq!(f(m.get_mass()), 2.0);
}

#[test]
fn unit_mass_properties() {
    let m = MassProperties::unit();
    assert_eq!(f(m.get_mass()), 1.0);
    assert_eq!(f(m.get_ixx()), 1.0);
    assert_eq!(f(m.get_iyy()), 1.0);
    assert_eq!(f(m.get_izz()), 1.0);
    assert_eq!(f(m.get_cmx()), 0.0);
    assert_eq!(f(m.get_cmy()), 0.0);
    assert_eq!(f(m.get_cmz()), 0.0);
    assert_eq!(f(m.get_ixy()), 0.0);
    assert_eq!(f(m.get_ixz()), 0.0);
    assert_eq!(f(m.get_iyz()), 0.0);
}

#[test]
fn le_zero_agrees_with_the_comparison_of_doubles() {
    let values = [
        0.0,
        -0.0,
        1.0,
        -1.0,
        2.0,
        0.5,
        f64::MIN_POSITIVE,
        -f64::MIN_POSITIVE,
        5e-324,
        -5e-324,
        f64::MAX,
        f64::MIN,
        f64::INFINITY,
        f64::NEG_INFINITY,
        f64::NAN,
        -f64::NAN,
        f64::EPSILON,
        1e300,
        -1e300,
    ];
    for v in values {
        assert_eq!(s(v).le_zero(), v <= 0.0, "for {v:?}");
    }
    for bits in [
        0x7FF0_0000_0000_0001u64,
        0x7FF8_0000_0000_0000,
        0x7FFF_FFFF_FFFF_FFFF,
        0xFFF0_0000_0000_0001,
        0xFFF8_0000_0000_0000,
        0xFFFF_FFFF_FFFF_FFFF,
        0x8000_0000_0000_0000,
        0xFFF0_0000_0000_0000,
        0x7FF0_0000_0000_0000,
        0x0000_0000_0000_0001,
        0x8000_0000_0000_0001,
        0xFFEF_FFFF_FFFF_FFFF,
    ] {
        assert_eq!(Scalar::from_bits(bits).le_zero(), f64::from_bits(bits) <= 0.0, "for {bits:#x}");
    }
}

#[test]
fn scalar_constants() {
    assert_eq!(f(Scalar::zero()), 0.0);
    assert_eq!(f(Scalar::one()), 1.0);
    assert_eq!(Scalar::one().to_bits(), 1.0f64.to_bits());
    assert_eq!(f(Scalar::or_default(None, Scalar::one())), 1.0);
    assert_eq!(f(Scalar::or_default(Some(s(4.0)), Scalar::one())), 4.0);
}

#[test]
fn a_nan_is_not_refused() {
    let mut m = sample();
    assert_eq!(m.set_mass(s(f64::NAN)), Ok(()));
    assert!(f(m.get_mass()).is_nan());
}
