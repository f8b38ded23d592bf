use three_body::{check_configuration, first_non_finite, validate_masses, Body, SimError};

fn at(x: f64, y: f64) -> Body {
    Body::new((x.to_bits(), y.to_bits()))
}

fn moving(x: f64, y: f64, vx: f64, vy: f64) -> Body {
    Body::with_state(1.0f64.to_bits(), (x.to_bits(), y.to_bits()), (vx.to_bits(), vy.to_bits()))
}

fn with_mass(m: f64) -> Body {
    Body::with_state(m.to_bits(), (0, 0), (0, 0))
}

#[test]
fn coincident_bodies_are_singular() {
    let bodies = vec![at(0.25, -1.0), at(0.5, 0.0), at(0.25, -1.0)];
    assert_eq!(
        check_configuration(&bodies),
        Err(SimError::SingularConfiguration { first: 0, second: 2 })
    );
}

#[test]
fn two_bodies_initialised_at_one_point_are_singular() {
    let bodies = vec![at(-0.5, 0.0), at(-0.5, 0.0)];
    assert_eq!(
        check_configuration(&bodies),
        Err(SimError::SingularConfiguration { first: 0, second: 1 })
    );
}

#[test]
fn signed_zero_positions_coincide() {
    let bodies = vec![at(0.0, 1.0), at(-0.0, 1.0)];
    assert_eq!(
        check_configuration(&bodies),
        Err(SimError::SingularConfiguration { first: 0, second: 1 })
    );
}

#[test]
fn reference_bodies_are_a_valid_configuration() {
    let bodies = vec![at(0.3089693008, 0.4236727692), at(-0.5, 0.0), at(0.5, 0.0)];
    assert_eq!(check_configuration(&bodies), Ok(()));
}

#[test]
fn non_finite_body_is_reported_first() {
    let bodies = vec![at(1.0, 1.0), at(1.0, 1.0), at(f64::INFINITY, 0.0), at(f64::NAN, 0.0)];
    assert_eq!(
        check_configuration(&bodies),
        Err(SimError::NumericOverflow { index: 2 })
    );
}

#[test]
fn non_finite_velocity_is_reported() {
    let bodies = vec![moving(0.0, 0.0, 1.0, 2.0), moving(1.0, 0.0, 0.0, f64::NEG_INFINITY)];
    assert_eq!(first_non_finite(&bodies), Some(1));
    assert_eq!(
        check_configuration(&bodies),
        Err(SimError::NumericOverflow { index: 1 })
    );
    assert_eq!(first_non_finite(&vec![moving(1e300, -1e300, f64::MAX, f64::MIN)]), None);
}

#[test]
fn empty_configuration_is_valid() {
    assert_eq!(check_configuration(&vec![]), Ok(()));
}

#[test]
fn positive_masses_are_accepted() {
    let bodies = vec![with_mass(1.0), with_mass(f64::MIN_POSITIVE), with_mass(f64::INFINITY)];
    assert_eq!(validate_masses(&bodies), Ok(()));
    assert_eq!(validate_masses(&vec![]), Ok(()));
}

#[test]
fn first_non_positive_mass_is_rejected() {
    let bodies = vec![with_mass(1.0), with_mass(0.0), with_mass(-2.0)];
    assert_eq!(validate_masses(&bodies), Err(SimError::InvalidMass { index: 1 }));
    assert_eq!(validate_masses(&vec![with_mass(-0.0)]), Err(SimError::InvalidMass { index: 0 }));
    assert_eq!(validate_masses(&vec![with_mass(f64::NAN)]), Err(SimError::InvalidMass { index: 0 }));
    assert_eq!(
        validate_masses(&vec![with_mass(2.0), with_mass(-1e-300)]),
        Err(SimError::InvalidMass { index: 1 })
    );
}
