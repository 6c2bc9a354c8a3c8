use boids::params::{Bounds, ConfigError, Parameters};

const U: i64 = 1_000_000;

#[test]
fn default_parameters_are_those_of_a_calm_flock() {
    let p = Parameters::default();
    assert_eq!(p.turn_factor(), 200_000);
    assert_eq!(p.visual_range(), 40 * U);
    assert_eq!(p.protected_range(), 8 * U);
    assert_eq!(p.centering_factor(), 500);
    assert_eq!(p.avoid_factor(), 50_000);
    assert_eq!(p.matching_factor(), 50_000);
    assert_eq!(p.max_speed(), 6 * U);
    assert_eq!(p.min_speed(), 3 * U);
    assert_eq!(p.bias(), 1_000);
}

#[test]
fn parameters_keep_what_they_were_given() {
    let p = Parameters::new(1, 20, 10, 3, 4, 5, 7, 6, 8).unwrap();
    assert_eq!(p.turn_factor(), 1);
    assert_eq!(p.visual_range(), 20);
    assert_eq!(p.protected_range(), 10);
    assert_eq!(p.centering_factor(), 3);
    assert_eq!(p.avoid_factor(), 4);
    assert_eq!(p.matching_factor(), 5);
    assert_eq!(p.max_speed(), 7);
    assert_eq!(p.min_speed(), 6);
    assert_eq!(p.bias(), 8);
}

#[test]
fn all_zero_parameters_are_accepted() {
    assert!(Parameters::new(0, 0, 0, 0, 0, 0, 0, 0, 0).is_ok());
}

#[test]
fn equal_speeds_and_equal_ranges_are_accepted() {
    assert!(Parameters::new(0, 5 * U, 5 * U, 0, 0, 0, 3 * U, 3 * U, 0).is_ok());
}

#[test]
fn largest_parameters_are_accepted() {
    let p = Parameters::new(
        10 * U,
        10_000 * U,
        10_000 * U,
        10 * U,
        10 * U,
        10 * U,
        1_000 * U,
        1_000 * U,
        10 * U,
    );
    assert!(p.is_ok());
}

#[test]
fn negative_parameter_is_refused() {
    assert_eq!(Parameters::new(-1, 0, 0, 0, 0, 0, 0, 0, 0).err(), Some(ConfigError::Negative));
    assert_eq!(Parameters::new(0, -1, 0, 0, 0, 0, 0, 0, 0).err(), Some(ConfigError::Negative));
    assert_eq!(Parameters::new(0, 0, -1, 0, 0, 0, 0, 0, 0).err(), Some(ConfigError::Negative));
    assert_eq!(Parameters::new(0, 0, 0, -1, 0, 0, 0, 0, 0).err(), Some(ConfigError::Negative));
    assert_eq!(Parameters::new(0, 0, 0, 0, -1, 0, 0, 0, 0).err(), Some(ConfigError::Negative));
    assert_eq!(Parameters::new(0, 0, 0, 0, 0, -1, 0, 0, 0).err(), Some(ConfigError::Negative));
    assert_eq!(Parameters::new(0, 0, 0, 0, 0, 0, -1, 0, 0).err(), Some(ConfigError::Negative));
    assert_eq!(Parameters::new(0, 0, 0, 0, 0, 0, 0, -1, 0).err(), Some(ConfigError::Negative));
    assert_eq!(Parameters::new(0, 0, 0, 0, 0, 0, 0, 0, -1).err(), Some(ConfigError::Negative));
}

#[test]
fn too_large_parameter_is_refused() {
    assert_eq!(
        Parameters::new(10 * U + 1, 0, 0, 0, 0, 0, 0, 0, 0).err(),
        Some(ConfigError::TooLarge)
    );
    assert_eq!(
        Parameters::new(0, 10_000 * U + 1, 0, 0, 0, 0, 0, 0, 0).err(),
        Some(ConfigError::TooLarge)
    );
    assert_eq!(
        Parameters::new(0, 0, 0, 0, 0, 0, 1_000 * U + 1, 0, 0).err(),
        Some(ConfigError::TooLarge)
    );
    assert_eq!(
        Parameters::new(0, 0, 0, 0, 0, 0, 0, 0, i64::MAX).err(),
        Some(ConfigError::TooLarge)
    );
}

#[test]
fn speeds_out_of_order_are_refused() {
    assert_eq!(
        Parameters::new(0, 0, 0, 0, 0, 0, 3 * U, 3 * U + 1, 0).err(),
        Some(ConfigError::SpeedOrder)
    );
}

#[test]
fn ranges_out_of_order_are_refused() {
    assert_eq!(
        Parameters::new(0, 8 * U, 8 * U + 1, 0, 0, 0, 0, 0, 0).err(),
        Some(ConfigError::RangeOrder)
    );
}

#[test]
fn negative_is_reported_before_the_other_errors() {
    assert_eq!(
        Parameters::new(0, 1, 2, 0, 0, 0, 1, 2, -5).err(),
        Some(ConfigError::Negative)
    );
    assert_eq!(
        Parameters::new(0, 1, 2, 0, 0, 0, 1, 2, 11 * U).err(),
        Some(ConfigError::TooLarge)
    );
    assert_eq!(Parameters::new(0, 1, 2, 0, 0, 0, 1, 2, 0).err(), Some(ConfigError::SpeedOrder));
}

#[test]
fn bounds_keep_what_they_were_given() {
    let b = Bounds::new(960 * U, 540 * U, 200 * U).unwrap();
    assert_eq!(b.half_width(), 960 * U);
    assert_eq!(b.half_height(), 540 * U);
    assert_eq!(b.margin(), 200 * U);
}

#[test]
fn empty_bounds_are_accepted() {
    assert!(Bounds::new(0, 0, 0).is_ok());
}

#[test]
fn negative_bounds_are_refused() {
    assert_eq!(Bounds::new(-1, 0, 0).err(), Some(ConfigError::Negative));
    assert_eq!(Bounds::new(0, -1, 0).err(), Some(ConfigError::Negative));
    assert_eq!(Bounds::new(0, 0, -1).err(), Some(ConfigError::Negative));
}

#[test]
fn too_large_bounds_are_refused() {
    assert!(Bounds::new(1_000_000 * U, 1_000_000 * U, 1_000_000 * U).is_ok());
    assert_eq!(Bounds::new(1_000_000 * U + 1, 0, 0).err(), Some(ConfigError::TooLarge));
    assert_eq!(Bounds::new(0, 1_000_000 * U + 1, 0).err(), Some(ConfigError::TooLarge));
    assert_eq!(Bounds::new(0, 0, 1_000_000 * U + 1).err(), Some(ConfigError::TooLarge));
}
