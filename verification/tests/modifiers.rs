use noise::{Clamp, Compose, ConfigError, Constant, Curve, NoiseFn, Terrace};

struct FirstCoordinate;

impl NoiseFn<f64, 2> for FirstCoordinate {
    type Sample = f64;

    fn value(&self, point: [f64; 2]) -> Option<f64> {
        Some(point[0])
    }

    fn get(&self, point: [f64; 2]) -> f64 {
        point[0]
    }
}

fn straight_curve() -> Curve<f64, FirstCoordinate, 2> {
    FirstCoordinate
        .curve()
        .add_control_point(-1.0, -10.0)
        .unwrap()
        .add_control_point(0.0, 0.0)
        .unwrap()
        .add_control_point(1.0, 10.0)
        .unwrap()
        .add_control_point(2.0, 20.0)
        .unwrap()
}

fn bent_curve() -> Curve<f64, FirstCoordinate, 2> {
    FirstCoordinate
        .curve()
        .add_control_point(0.0, 0.0)
        .unwrap()
        .add_control_point(1.0, 1.0)
        .unwrap()
        .add_control_point(2.0, 8.0)
        .unwrap()
        .add_control_point(3.0, 27.0)
        .unwrap()
        .add_control_point(4.0, 64.0)
        .unwrap()
}

fn steps() -> Terrace<f64, FirstCoordinate, 2> {
    FirstCoordinate
        .terrace()
        .add_control_point(0.0, 0.0)
        .unwrap()
        .add_control_point(1.0, 1.0)
        .unwrap()
        .add_control_point(2.0, 2.0)
        .unwrap()
}

#[test]
fn absolute_value() {
    assert_eq!(FirstCoordinate.abs().get([-2.5, 0.0]), 2.5);
    assert_eq!(FirstCoordinate.abs().get([2.5, 0.0]), 2.5);
    assert_eq!(FirstCoordinate.abs().get([0.0, 0.0]), 0.0);
}

#[test]
fn negation() {
    assert_eq!(FirstCoordinate.negate().get([-2.5, 0.0]), 2.5);
    assert_eq!(FirstCoordinate.negate().get([2.5, 0.0]), -2.5);
}

#[test]
fn negating_twice_gives_the_function_back() {
    for x in [0.0, -0.0, 1.0, -1.0, 0.1, 1e300, -1e-300, f64::INFINITY, f64::MIN_POSITIVE] {
        let twice = FirstCoordinate.negate().negate().get([x, 0.0]);
        assert_eq!(twice.to_bits(), FirstCoordinate.get([x, 0.0]).to_bits());
    }
}

#[test]
fn clamp_has_the_bounds_minus_one_and_one() {
    let node = FirstCoordinate.clamp();
    assert_eq!(node.lower, -1.0);
    assert_eq!(node.upper, 1.0);
    assert_eq!(node.get([-7.0, 0.0]), -1.0);
    assert_eq!(node.get([7.0, 0.0]), 1.0);
    assert_eq!(node.get([0.25, 0.0]), 0.25);
}

#[test]
fn clamp_keeps_samples_within_its_bounds() {
    let node = FirstCoordinate.clamp_by(-1.0, 1.0);
    for x in [-1e9, -1.0000001, -1.0, -0.5, 0.0, 0.999, 1.0, 1.5, 1e300, f64::INFINITY, f64::NEG_INFINITY] {
        let v = node.get([x, 0.0]);
        assert!(-1.0 <= v && v <= 1.0);
    }
    let node = FirstCoordinate.clamp_by(2.0, 3.5);
    assert_eq!(node.get([0.0, 0.0]), 2.0);
    assert_eq!(node.get([2.75, 0.0]), 2.75);
    assert_eq!(node.get([4.0, 0.0]), 3.5);
}

#[test]
fn clamp_hands_on_what_is_not_a_number() {
    let node = FirstCoordinate.clamp_by(-1.0, 1.0);
    assert!(node.get([f64::NAN, 0.0]).is_nan());
}

#[test]
fn clamp_refuses_inverted_bounds() {
    assert!(matches!(Clamp::new(FirstCoordinate).set_bounds(1.0, -1.0), Err(ConfigError::InvertedBounds)));
    let node = Clamp::new(FirstCoordinate).set_bounds(-2.0, 2.0).unwrap();
    assert_eq!(node.get([5.0, 0.0]), 2.0);
    let node = Clamp::new(FirstCoordinate).set_bounds(2.0, 2.0).unwrap();
    assert_eq!(node.get([-5.0, 0.0]), 2.0);
}

#[test]
fn scale_and_bias() {
    let node = Constant::new(3.0f64).scale_bias().set_scale(2.0).set_bias(1.0);
    assert_eq!(node.get([0.0f64, 0.0]), 7.0);
    assert_eq!(node.get([123.0f64, -4.5]), 7.0);
    let node = Constant::new(3.0f64).scale_bias();
    assert_eq!(node.get([0.0f64, 0.0, 0.0]), 3.0);
}

#[test]
fn curve_passes_through_its_control_points() {
    let curve = bent_curve();
    assert_eq!(curve.get([0.0, 0.0]), 0.0);
    assert_eq!(curve.get([1.0, 0.0]), 1.0);
    assert_eq!(curve.get([2.0, 0.0]), 8.0);
    assert_eq!(curve.get([3.0, 0.0]), 27.0);
    assert_eq!(curve.get([4.0, 0.0]), 64.0);
}

#[test]
fn curve_between_control_points() {
    assert_eq!(straight_curve().get([0.5, 0.0]), 5.0);
    // In the first segment the first point is its own neighbour:
    // p = (10 - 0) - 0 = 10, q = 0 - 10 = -10, r = 0 - (-10) = 10,
    // ((10 * 0.5 - 10) * 0.5 + 10) * 0.5 - 10 = -6.25.
    assert_eq!(straight_curve().get([-0.5, 0.0]), -6.25);
    // Between (1, 1) and (2, 8), with the neighbours (0, 0) and (3, 27):
    // p = (27 - 8) - (0 - 1) = 20, q = -1 - 20 = -21, r = 8 - 0 = 8,
    // ((20 * 0.5 - 21) * 0.5 + 8) * 0.5 + 1 = 2.25.
    assert_eq!(bent_curve().get([1.5, 0.0]), 2.25);
}

#[test]
fn curve_beyond_its_ends_follows_the_end_segment() {
    assert_eq!(straight_curve().get([3.0, 0.0]), 50.0);
    assert_eq!(straight_curve().get([-2.0, 0.0]), -40.0);
}

#[test]
fn curve_refuses_control_points_out_of_order() {
    let curve = FirstCoordinate.curve().add_control_point(0.0, 0.0).unwrap();
    assert!(matches!(curve.add_control_point(0.0, 5.0), Err(ConfigError::UnsortedControlPoints)));
    let curve = FirstCoordinate.curve().add_control_point(0.0, 0.0).unwrap();
    assert!(matches!(curve.add_control_point(-1.0, 5.0), Err(ConfigError::UnsortedControlPoints)));
    let curve = FirstCoordinate.curve().add_control_point(0.0, 0.0).unwrap();
    assert!(matches!(curve.add_control_point(f64::NAN, 5.0), Err(ConfigError::UnsortedControlPoints)));
}

#[test]
fn curve_needs_four_control_points() {
    let curve = FirstCoordinate
        .curve()
        .add_control_point(0.0, 0.0)
        .unwrap()
        .add_control_point(1.0, 1.0)
        .unwrap()
        .add_control_point(2.0, 8.0)
        .unwrap();
    assert_eq!(curve.control_points.len(), 3);
    assert!(matches!(curve.checked(), Err(ConfigError::TooFewControlPoints)));
    assert!(matches!(FirstCoordinate.curve().checked(), Err(ConfigError::TooFewControlPoints)));
    let curve = straight_curve().checked().unwrap();
    assert_eq!(curve.control_points.len(), 4);
    assert_eq!(curve.control_points.point(2).input, 1.0);
    assert_eq!(curve.control_points.point(2).output, 10.0);
}

#[test]
fn first_control_point_above_a_sample() {
    let curve = straight_curve();
    assert_eq!(curve.control_points.first_above(-5.0), 0);
    assert_eq!(curve.control_points.first_above(-1.0), 1);
    assert_eq!(curve.control_points.first_above(0.5), 2);
    assert_eq!(curve.control_points.first_above(2.0), 4);
    assert_eq!(curve.control_points.first_above(9.0), 4);
}

#[test]
fn terrace_is_flat_at_the_lower_point() {
    assert_eq!(steps().get([0.5, 0.0]), 0.25);
    assert_eq!(steps().get([1.5, 0.0]), 1.25);
    assert_eq!(steps().get([1.0, 0.0]), 1.0);
    assert_eq!(steps().get([0.0, 0.0]), 0.0);
}

#[test]
fn terrace_inverted_is_flat_at_the_upper_point() {
    assert_eq!(steps().invert_terraces(true).get([0.5, 0.0]), 0.75);
    assert_eq!(steps().invert_terraces(true).get([1.5, 0.0]), 1.75);
    assert_eq!(steps().invert_terraces(true).invert_terraces(false).get([0.5, 0.0]), 0.25);
}

#[test]
fn terrace_beyond_its_ends_is_the_end_point() {
    assert_eq!(steps().get([-1.0, 0.0]), 0.0);
    assert_eq!(steps().get([2.0, 0.0]), 2.0);
    assert_eq!(steps().get([5.0, 0.0]), 2.0);
}

#[test]
fn terrace_maps_inputs_to_outputs() {
    let node = FirstCoordinate
        .terrace()
        .add_control_point(0.0, 100.0)
        .unwrap()
        .add_control_point(2.0, 200.0)
        .unwrap();
    assert_eq!(node.get([1.0, 0.0]), 125.0);
    assert_eq!(node.get([-1.0, 0.0]), 100.0);
    assert_eq!(node.get([3.0, 0.0]), 200.0);
}

#[test]
fn terrace_refuses_bad_control_points() {
    let node = FirstCoordinate.terrace().add_control_point(1.0, 1.0).unwrap();
    assert!(matches!(node.add_control_point(1.0, 2.0), Err(ConfigError::UnsortedControlPoints)));
    let node = FirstCoordinate.terrace().add_control_point(1.0, 1.0).unwrap();
    assert!(matches!(node.checked(), Err(ConfigError::TooFewControlPoints)));
    assert!(steps().checked().is_ok());
}

#[test]
fn control_points_are_kept_in_order() {
    let points = noise::ControlPoints::<f64>::new();
    assert_eq!(points.len(), 0);
    let points = points.appended(1.0, 10.0).unwrap().appended(2.0, 5.0).unwrap();
    assert_eq!(points.len(), 2);
    assert_eq!(points.point(0).input, 1.0);
    assert_eq!(points.point(1).output, 5.0);
    assert!(matches!(points.appended(2.0, 7.0), Err(ConfigError::UnsortedControlPoints)));
    let points = noise::ControlPoints::<i64>::new().appended(-5, 0).unwrap();
    assert!(matches!(points.appended(-6, 0), Err(ConfigError::UnsortedControlPoints)));
}
