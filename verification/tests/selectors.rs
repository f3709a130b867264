use noise::{Compose, ConfigError, Constant, NoiseFn};

struct FirstCoordinate;

impl NoiseFn<f64, 2> for FirstCoordinate {
    type Sample = f64;

    fn value(&self, point: [f64; 2]) -> Option<f64> {
        Some(point[0])
    }

    fn get(&self, point: [f64; 2]) -> f64 {
        point[0]
    }
}

struct Forbidden;

impl NoiseFn<f64, 2> for Forbidden {
    type Sample = f64;

    fn value(&self, _point: [f64; 2]) -> Option<f64> {
        None
    }

    fn get(&self, _point: [f64; 2]) -> f64 {
        panic!("this source must not be sampled")
    }
}

#[test]
fn select_with_an_empty_window() {
    let above = Constant::new(10.0f64)
        .select(Constant::new(20.0f64), Constant::new(1.0f64))
        .set_bounds(0.0, 0.0)
        .unwrap();
    assert_eq!(above.get([0.0f64, 0.0]), 20.0);
    let below = Constant::new(10.0f64)
        .select(Constant::new(20.0f64), Constant::new(-1.0f64))
        .set_bounds(0.0, 0.0)
        .unwrap();
    assert_eq!(below.get([0.0f64, 0.0]), 10.0);
}

#[test]
fn select_has_the_window_zero_to_one() {
    let node = Constant::new(10.0f64).select(Constant::new(20.0f64), FirstCoordinate);
    assert_eq!(node.lower, 0.0);
    assert_eq!(node.upper, 1.0);
    assert!(!node.smooth);
    assert_eq!(node.get([-0.5, 0.0]), 10.0);
    assert_eq!(node.get([0.0, 0.0]), 10.0);
    assert_eq!(node.get([0.25, 0.0]), 12.5);
    assert_eq!(node.get([1.0, 0.0]), 20.0);
    assert_eq!(node.get([7.0, 0.0]), 20.0);
}

#[test]
fn select_inside_the_window() {
    let node = Constant::new(10.0f64)
        .select(Constant::new(20.0f64), FirstCoordinate)
        .set_bounds(0.0, 2.0)
        .unwrap();
    assert_eq!(node.get([0.5, 0.0]), 12.5);
    assert_eq!(node.get([1.0, 0.0]), 15.0);
    let smooth = Constant::new(10.0f64)
        .select(Constant::new(20.0f64), FirstCoordinate)
        .set_bounds(0.0, 2.0)
        .unwrap()
        .set_falloff(true);
    assert_eq!(smooth.get([0.5, 0.0]), 11.5625);
    assert_eq!(smooth.get([1.0, 0.0]), 15.0);
    assert_eq!(smooth.get([0.0, 0.0]), 10.0);
    assert_eq!(smooth.get([2.0, 0.0]), 20.0);
}

#[test]
fn select_consults_only_the_source_it_needs() {
    let node = Constant::new(10.0f64).select(Forbidden, FirstCoordinate);
    assert_eq!(node.get([-1.0, 0.0]), 10.0);
    let node = Forbidden.select(Constant::new(20.0f64), FirstCoordinate);
    assert_eq!(node.get([3.0, 0.0]), 20.0);
}

#[test]
fn select_refuses_an_inverted_window() {
    let r = Constant::new(10.0f64).select(Constant::new(20.0f64), FirstCoordinate).set_bounds(1.0, 0.5);
    assert!(matches!(r, Err(ConfigError::InvertedBounds)));
}

#[test]
fn blend_weights_by_the_control() {
    let node = Constant::new(10.0f64).blend(Constant::new(20.0f64), FirstCoordinate);
    assert_eq!(node.get([0.25, 0.0]), 12.5);
    assert_eq!(node.get([0.0, 0.0]), 10.0);
    assert_eq!(node.get([1.0, 0.0]), 20.0);
}

#[test]
fn blend_clamps_the_control() {
    let node = Constant::new(10.0f64).blend(Constant::new(20.0f64), FirstCoordinate);
    assert_eq!(node.get([-3.0, 0.0]), 10.0);
    assert_eq!(node.get([2.0, 0.0]), 20.0);
}
