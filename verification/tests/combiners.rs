use noise::{Compose, Constant, NoiseFn};

struct Plane {
    x: f64,
    y: f64,
}

impl NoiseFn<f64, 2> for Plane {
    type Sample = f64;

    fn value(&self, point: [f64; 2]) -> Option<f64> {
        Some(self.get(point))
    }

    fn get(&self, point: [f64; 2]) -> f64 {
        self.x * point[0] + self.y * point[1]
    }
}

const POINTS: [[f64; 2]; 5] = [[0.0, 0.0], [1.0, 2.0], [-3.5, 0.25], [1e6, -1e-6], [0.1, 0.2]];

#[test]
fn constant_plus_constant() {
    let node = Constant::new(5.0f64).add_constant(3.0);
    assert_eq!(node.get([0.0f64, 0.0]), 8.0);
    assert_eq!(node.get([-17.5f64, 1e9]), 8.0);
    let node = Constant::new(5.0f64).add_constant(3.0);
    assert_eq!(node.get([1.0f64, 2.0, 3.0]), 8.0);
    let node = Constant::new(5.0f64).add_constant(3.0);
    assert_eq!(node.get([1.0f64, 2.0, 3.0, 4.0]), 8.0);
}

#[test]
fn sum_of_two_functions() {
    let node = Plane { x: 1.0, y: 0.0 }.add(Plane { x: 0.0, y: 10.0 });
    assert_eq!(node.get([2.0, 3.0]), 32.0);
}

#[test]
fn product_of_two_functions() {
    let node = Plane { x: 1.0, y: 0.0 }.multiply(Plane { x: 0.0, y: 10.0 });
    assert_eq!(node.get([2.0, 3.0]), 60.0);
    let node = Plane { x: 1.0, y: 0.0 }.multiply_constant(-0.5);
    assert_eq!(node.get([2.0, 3.0]), -1.0);
}

#[test]
fn larger_of_two_functions() {
    let node = Plane { x: 1.0, y: 0.0 }.max(Plane { x: 0.0, y: 1.0 });
    assert_eq!(node.get([2.0, 3.0]), 3.0);
    assert_eq!(node.get([4.0, 3.0]), 4.0);
    let node = Plane { x: 1.0, y: 0.0 }.max_constant(2.5);
    assert_eq!(node.get([2.0, 0.0]), 2.5);
    assert_eq!(node.get([3.0, 0.0]), 3.0);
}

#[test]
fn smaller_of_two_functions() {
    let node = Plane { x: 1.0, y: 0.0 }.min(Plane { x: 0.0, y: 1.0 });
    assert_eq!(node.get([2.0, 3.0]), 2.0);
    assert_eq!(node.get([4.0, 3.0]), 3.0);
    let node = Plane { x: 1.0, y: 0.0 }.min_constant(2.5);
    assert_eq!(node.get([2.0, 0.0]), 2.0);
    assert_eq!(node.get([3.0, 0.0]), 2.5);
}

#[test]
fn sum_does_not_depend_on_the_order() {
    for p in POINTS {
        let one = Plane { x: 0.3, y: -1.7 }.add(Plane { x: 2.0, y: 0.125 });
        let other = Plane { x: 2.0, y: 0.125 }.add(Plane { x: 0.3, y: -1.7 });
        assert_eq!(one.get(p), other.get(p));
    }
}

#[test]
fn product_does_not_depend_on_the_order() {
    for p in POINTS {
        let one = Plane { x: 0.3, y: -1.7 }.multiply(Plane { x: 2.0, y: 0.125 });
        let other = Plane { x: 2.0, y: 0.125 }.multiply(Plane { x: 0.3, y: -1.7 });
        assert_eq!(one.get(p), other.get(p));
    }
}

#[test]
fn extremes_do_not_depend_on_the_order() {
    for p in POINTS {
        let one = Plane { x: 0.3, y: -1.7 }.max(Plane { x: 2.0, y: 0.125 });
        let other = Plane { x: 2.0, y: 0.125 }.max(Plane { x: 0.3, y: -1.7 });
        assert_eq!(one.get(p), other.get(p));
        let one = Plane { x: 0.3, y: -1.7 }.min(Plane { x: 2.0, y: 0.125 });
        let other = Plane { x: 2.0, y: 0.125 }.min(Plane { x: 0.3, y: -1.7 });
        assert_eq!(one.get(p), other.get(p));
    }
}

#[test]
fn sampling_twice_gives_the_same_sample() {
    let tree = Plane { x: 0.3, y: -1.7 }
        .add(Plane { x: 2.0, y: 0.125 })
        .multiply_constant(1.5)
        .abs()
        .negate()
        .max(Plane { x: 1.0, y: 1.0 });
    for p in POINTS {
        let first = tree.get(p);
        let second = tree.get(p);
        assert_eq!(first.to_bits(), second.to_bits());
    }
}

#[test]
fn references_and_boxes_sample_like_the_node() {
    let node = Plane { x: 1.0, y: 10.0 };
    for p in POINTS {
        let direct = node.get(p);
        assert_eq!((&node).get(p), direct);
        assert_eq!(Box::new(Plane { x: 1.0, y: 10.0 }).get(p), direct);
        assert_eq!((&node).add_constant(1.0).get(p), direct + 1.0);
    }
    let erased: Vec<Box<dyn NoiseFn<f64, 2, Sample = f64>>> =
        vec![Box::new(Plane { x: 1.0, y: 0.0 }), Box::new(Constant::new(4.0f64))];
    assert_eq!(erased[0].get([2.0, 3.0]), 2.0);
    assert_eq!(erased[1].get([2.0, 3.0]), 4.0);
    let sum = Constant::new(1.0f64).add(Box::new(Plane { x: 1.0, y: 0.0 }));
    assert_eq!(sum.get([2.0, 3.0]), 3.0);
}

#[test]
fn whole_numbers_as_samples() {
    let node = Constant::new(5i64).add_constant(3);
    assert_eq!(node.get([0i64, 0]), 8);
    let node = Constant::new(5i64).multiply_constant(3).max_constant(20).negate().abs();
    assert_eq!(node.get([0i64, 0]), 20);
}

const VALUES: [f64; 9] =
    [0.0, -0.0, 1.0, -1.0, 2.5, f64::INFINITY, f64::NEG_INFINITY, f64::NAN, f64::MIN_POSITIVE];

fn same_number(a: f64, b: f64) -> bool {
    a == b || (a.is_nan() && b.is_nan())
}

#[test]
fn extremes_agree_with_those_of_the_floats() {
    for a in VALUES {
        for b in VALUES {
            let max = Constant::new(a).max(Constant::new(b)).get([0.0f64, 0.0]);
            assert!(same_number(max, a.max(b)));
            let min = Constant::new(a).min(Constant::new(b)).get([0.0f64, 0.0]);
            assert!(same_number(min, a.min(b)));
            assert!(same_number(noise::interpolate::larger(a, b), a.max(b)));
            assert!(same_number(noise::interpolate::smaller(a, b), a.min(b)));
        }
    }
}

#[test]
fn magnitude_agrees_with_that_of_the_floats() {
    for a in VALUES {
        let v = Constant::new(a).abs().get([0.0f64, 0.0]);
        if a.is_nan() {
            assert!(v.is_nan());
        } else {
            assert_eq!(v.to_bits(), a.abs().to_bits());
        }
        assert!(same_number(noise::interpolate::magnitude(a), a.abs()));
    }
}

#[test]
fn clamping_agrees_with_that_of_the_floats() {
    for a in VALUES {
        assert!(same_number(noise::interpolate::clamped(a, -1.0, 1.0), a.clamp(-1.0, 1.0)));
        assert!(same_number(noise::interpolate::clamped(a, 0.5, 0.5), a.clamp(0.5, 0.5)));
    }
}

#[test]
fn sign_of_another_value() {
    assert_eq!(noise::interpolate::with_sign_of(4.0, -0.5), -4.0);
    assert_eq!(noise::interpolate::with_sign_of(4.0, 0.5), 4.0);
    assert_eq!(noise::interpolate::with_sign_of(4.0, 0.0), 4.0);
    assert_eq!(noise::interpolate::with_sign_of(4i32, -7), -4);
}

#[test]
fn interpolation_formulas() {
    assert_eq!(noise::interpolate::linear(10.0, 20.0, 0.25), 12.5);
    assert_eq!(noise::interpolate::linear(10.0, 20.0, 0.0), 10.0);
    assert_eq!(noise::interpolate::linear(10.0, 20.0, 1.0), 20.0);
    assert_eq!(noise::interpolate::s_curve(0.0), 0.0);
    assert_eq!(noise::interpolate::s_curve(0.25), 0.15625);
    assert_eq!(noise::interpolate::s_curve(0.5), 0.5);
    assert_eq!(noise::interpolate::s_curve(1.0), 1.0);
    assert_eq!(noise::interpolate::cubic(0.0, 1.0, 8.0, 27.0, 0.0), 1.0);
    assert_eq!(noise::interpolate::cubic(0.0, 1.0, 8.0, 27.0, 0.5), 2.25);
    assert_eq!(noise::interpolate::cubic(0.0, 1.0, 8.0, 27.0, 1.0), 8.0);
    // p = 20, q = -21, r = 8: ((20 * 2 - 21) * 2 + 8) * 2 + 1 = 93.
    assert_eq!(noise::interpolate::cubic(0i64, 1, 8, 27, 2), 93);
}

#[test]
fn sampling_at_what_converts_into_a_point() {
    let node = Plane { x: 1.0, y: 10.0 }.add_constant(0.5);
    assert_eq!(node.sample([1.0, 2.0]), 21.5);
    assert_eq!(node.sample((1.0, 2.0)), 21.5);
    assert_eq!(node.sample((1.0, 2.0)), node.get([1.0, 2.0]));
}
