use noise::{Compose, Constant, NoiseFn, Seedable, Turbulence, Turn};

struct Axis<const N: usize>(usize);

impl<const N: usize> NoiseFn<f64, N> for Axis<N> {
    type Sample = f64;

    fn value(&self, point: [f64; N]) -> Option<f64> {
        Some(point[self.0])
    }

    fn get(&self, point: [f64; N]) -> f64 {
        point[self.0]
    }
}

#[derive(Default)]
struct Ramp<const N: usize> {
    seed: u32,
}

impl<const N: usize> Seedable for Ramp<N> {
    fn seed_value(&self) -> u32 {
        self.seed
    }

    fn set_seed(self, seed: u32) -> Self {
        Ramp { seed }
    }

    fn seed(&self) -> u32 {
        self.seed
    }
}

impl<const N: usize> NoiseFn<f64, N> for Ramp<N> {
    type Sample = f64;

    fn value(&self, point: [f64; N]) -> Option<f64> {
        Some(self.get(point))
    }

    fn get(&self, point: [f64; N]) -> f64 {
        f64::from(self.seed) + point[0]
    }
}

const QUARTER: Turn<f64> = Turn { cos: 0.0, sin: 1.0 };

#[test]
fn translated_child_sees_the_moved_point() {
    let node = Axis(0).translate_point_by([10.0, 0.0]);
    assert_eq!(node.get([0.0, 0.0]), 10.0);
    let node = Axis(1).translate_point_by([10.0, 0.0]);
    assert_eq!(node.get([0.0, 0.0]), 0.0);
}

#[test]
fn translation_by_one_value_and_by_lists() {
    assert_eq!(Axis::<2>(1).translate_point_by(2.5).get([1.0, 1.0]), 3.5);
    assert_eq!(Axis::<2>(1).translate_point_by([2.5]).get([1.0, 1.0]), 1.0);
    assert_eq!(Axis::<3>(2).translate_point_by([1.0, 2.0, 3.0]).get([0.0, 0.0, 0.5]), 3.5);
    assert_eq!(Axis::<4>(3).translate_point_by([1.0, 2.0, 3.0]).get([0.0, 0.0, 0.0, 0.5]), 0.5);
    assert_eq!(Axis::<4>(3).translate_point_by([1.0, 2.0, 3.0, 4.0]).get([0.0, 0.0, 0.0, 0.5]), 4.5);
    assert_eq!(Axis::<2>(0).translate_point().get([0.75, 0.0]), 0.75);
    assert_eq!(Axis::<2>(0).translate_point().set_all_translations(1.0, 2.0, 3.0, 4.0).get([0.75, 0.0]), 1.75);
}

#[test]
fn scaled_child_sees_the_stretched_point() {
    assert_eq!(Axis::<2>(0).scale_point_by([4.0, 0.5]).get([2.0, 2.0]), 8.0);
    assert_eq!(Axis::<2>(1).scale_point_by([4.0, 0.5]).get([2.0, 2.0]), 1.0);
    assert_eq!(Axis::<3>(2).scale_point_by([4.0, 0.5]).get([2.0, 2.0, 2.0]), 2.0);
    assert_eq!(Axis::<3>(2).scale_point_by(3.0).get([2.0, 2.0, 2.0]), 6.0);
    assert_eq!(Axis::<2>(0).scale_point().get([0.75, 0.0]), 0.75);
    assert_eq!(Axis::<2>(1).scale_point().set_all_scales(1.0, 2.0, 3.0, 4.0).get([0.75, 0.5]), 1.0);
}

#[test]
fn rotation_in_the_plane_turns_about_z() {
    let turned = Axis(0).rotate_point_by(QUARTER);
    assert_eq!(turned.get([1.0, 0.0]), 0.0);
    let turned = Axis(1).rotate_point_by(QUARTER);
    assert_eq!(turned.get([1.0, 0.0]), 1.0);
    let turned = Axis(0).rotate_point_by(QUARTER);
    assert_eq!(turned.get([0.0, 1.0]), -1.0);
    let still = Axis(1).rotate_point_by([QUARTER, QUARTER]);
    assert_eq!(still.get([1.0, 0.0]), 0.0);
    assert_eq!(Axis::<2>(0).rotate_point().get([0.25, 0.5]), 0.25);
}

#[test]
fn rotation_in_space_turns_about_each_axis() {
    let about_x = [QUARTER];
    assert_eq!(Axis::<3>(0).rotate_point_by(about_x).get([0.0, 1.0, 0.0]), 0.0);
    assert_eq!(Axis::<3>(1).rotate_point_by(about_x).get([0.0, 1.0, 0.0]), 0.0);
    assert_eq!(Axis::<3>(2).rotate_point_by(about_x).get([0.0, 1.0, 0.0]), 1.0);
    let still = Turn { cos: 1.0, sin: 0.0 };
    let about_y = [still, QUARTER];
    assert_eq!(Axis::<3>(0).rotate_point_by(about_y).get([0.0, 0.0, 1.0]), 1.0);
    let about_z = [still, still, QUARTER];
    assert_eq!(Axis::<3>(1).rotate_point_by(about_z).get([1.0, 0.0, 0.0]), 1.0);
    assert_eq!(Axis::<3>(2).rotate_point_by(about_z).get([1.0, 0.0, 5.0]), 5.0);
    let node = Axis(2).rotate_point().set_angles(QUARTER, still, still, still);
    assert_eq!(node.get([0.0, 1.0, 0.0]), 1.0);
}

#[test]
fn displaced_child_sees_the_moved_point() {
    let node = Axis(0).displace_xy(Axis(1), Constant::new(100.0f64));
    assert_eq!(node.get([1.0, 2.0]), 3.0);
    let node = Axis(1).displace_xy(Axis(1), Constant::new(100.0f64));
    assert_eq!(node.get([1.0, 2.0]), 102.0);
    let node = Axis(2).displace_xyz(Axis(1), Axis(2), Axis(0));
    assert_eq!(node.get([1.0, 2.0, 4.0]), 5.0);
    let node = Axis(3).displace_xyzu(Axis(1), Axis(2), Axis(0), Axis(2));
    assert_eq!(node.get([1.0, 2.0, 4.0, 8.0]), 12.0);
}

#[test]
fn turbulence_starts_with_its_defaults() {
    let node: Turbulence<Axis<2>, Ramp<2>, f64> = Axis(0).turbulence();
    assert_eq!(node.seed(), 0);
    assert_eq!(node.frequency, 1.0);
    assert_eq!(node.power, 1.0);
    assert_eq!(node.roughness, 3);
    assert_eq!(node.x_distort.seed(), 0);
    assert_eq!(node.y_distort.seed(), 1);
    assert_eq!(node.z_distort.seed(), 2);
    assert_eq!(node.u_distort.seed(), 3);
}

#[test]
fn turbulence_moves_the_point_by_its_octaves() {
    // Along x the source has the seed 0: 1 * 1 + 0.5 * 2 + 0.25 * 4 = 3.
    let node: Turbulence<Axis<2>, Ramp<2>, f64> = Axis(0).turbulence();
    assert_eq!(node.get([1.0, 0.0]), 4.0);
    // Along y it has the seed 1: 1 * 2 + 0.5 * 3 + 0.25 * 5 = 4.75.
    let node: Turbulence<Axis<2>, Ramp<2>, f64> = Axis(1).turbulence();
    assert_eq!(node.get([1.0, 0.0]), 4.75);
    let node: Turbulence<Axis<3>, Ramp<3>, f64> = Axis(2).turbulence();
    assert_eq!(node.get([1.0, 0.0, 0.5]), 7.0);
}

#[test]
fn turbulence_follows_its_settings() {
    let node: Turbulence<Axis<2>, Ramp<2>, f64> = Axis(0).turbulence();
    assert_eq!(node.set_power(2.0).get([1.0, 0.0]), 7.0);
    let node: Turbulence<Axis<2>, Ramp<2>, f64> = Axis(0).turbulence();
    assert_eq!(node.set_roughness(1).get([1.0, 0.0]), 2.0);
    let node: Turbulence<Axis<2>, Ramp<2>, f64> = Axis(0).turbulence();
    assert_eq!(node.set_roughness(0).get([1.0, 0.0]), 1.0);
    let node: Turbulence<Axis<2>, Ramp<2>, f64> = Axis(0).turbulence();
    assert_eq!(node.set_frequency(3.0).get([1.0, 0.0]), 10.0);
}

#[test]
fn turbulence_reseeds_its_sources() {
    let node: Turbulence<Axis<2>, Ramp<2>, f64> = Axis(0).turbulence();
    let node = node.set_power(2.0).set_seed(10);
    assert_eq!(node.seed(), 10);
    assert_eq!(node.x_distort.seed(), 10);
    assert_eq!(node.y_distort.seed(), 11);
    assert_eq!(node.z_distort.seed(), 12);
    assert_eq!(node.u_distort.seed(), 13);
    assert_eq!(node.power, 2.0);
    // (10 + 1) + 0.5 * (10 + 2) + 0.25 * (10 + 4) = 20.5
    assert_eq!(node.get([1.0, 0.0]), 42.0);
    let node: Turbulence<Axis<2>, Ramp<2>, f64> = Axis(0).turbulence();
    let node = node.set_seed(u32::MAX - 1);
    assert_eq!(node.x_distort.seed(), u32::MAX - 1);
    assert_eq!(node.y_distort.seed(), u32::MAX);
    assert_eq!(node.z_distort.seed(), 0);
    assert_eq!(node.u_distort.seed(), 1);
}

#[test]
fn same_seed_same_output() {
    let one: Turbulence<Axis<2>, Ramp<2>, f64> = Axis(0).turbulence();
    let one = one.set_seed(77);
    let other: Turbulence<Axis<2>, Ramp<2>, f64> = Axis(0).turbulence();
    let other = other.set_seed(77);
    for p in [[0.0, 0.0], [1.5, -2.0], [-1e3, 1e-3]] {
        assert_eq!(one.get(p).to_bits(), other.get(p).to_bits());
    }
}
