//! Moving the point by noise that the node makes itself.
use crate::noise_fns::transformers::coordinates::Coordinates;
use crate::noise_fns::{NoiseFn, Seedable};
use crate::scalar::{number, product, quotient, sum, whole, Scalar};
use vstd::prelude::*;

verus! {

/// The seed that a turbulence has until it is given another.
pub const DEFAULT_SEED: u32 = 0;

/// The number of octaves that a turbulence has until it is given another.
pub const DEFAULT_ROUGHNESS: usize = 3;

/// The sum of the next `octaves` octaves of `source` at `point`, added to
/// `total`. An octave is the output of `source` at the point stretched by
/// `frequency`, times `amplitude`; from one octave to the next the frequency
/// doubles and the amplitude halves.
pub open spec fn octaves_from<T, F, const DIM: usize>(
    source: F,
    point: [T; DIM],
    total: Option<T>,
    frequency: Option<T>,
    amplitude: Option<T>,
    octaves: nat,
) -> Option<T> where T: Scalar, F: NoiseFn<T, DIM, Sample = T>, [T; DIM]: Coordinates<T>
    decreases octaves,
{
    if octaves == 0 {
        total
    } else {
        let here = match frequency {
            Some(f) => match point.scaled(seq![f, f, f, f]) {
                Some(stretched) => source.value(stretched),
                None => None,
            },
            None => None,
        };
        octaves_from(
            source,
            point,
            sum(total, product(amplitude, here)),
            product(frequency, whole::<T>(2)),
            quotient(amplitude, whole::<T>(2)),
            (octaves - 1) as nat,
        )
    }
}

/// How far `source` moves a coordinate of `point`: the sum of `roughness`
/// octaves, the first at `frequency` and with the amplitude 1.
pub open spec fn distortion<T, F, const DIM: usize>(
    source: F,
    point: [T; DIM],
    frequency: T,
    roughness: nat,
) -> Option<T> where T: Scalar, F: NoiseFn<T, DIM, Sample = T>, [T; DIM]: Coordinates<T> {
    octaves_from(source, point, whole::<T>(0), Some(frequency), whole::<T>(1), roughness)
}

/// Octaves added to an undefined sum leave it undefined.
pub proof fn lemma_octaves_from_none<T, F, const DIM: usize>(
    source: F,
    point: [T; DIM],
    frequency: Option<T>,
    amplitude: Option<T>,
    octaves: nat,
) where T: Scalar, F: NoiseFn<T, DIM, Sample = T>, [T; DIM]: Coordinates<T>
    ensures
        octaves_from(source, point, None, frequency, amplitude, octaves) is None,
    decreases octaves,
{
    if octaves > 0 {
        lemma_octaves_from_none(
            source,
            point,
            product(frequency, whole::<T>(2)),
            quotient(amplitude, whole::<T>(2)),
            (octaves - 1) as nat,
        );
    }
}

/// Computes how far `source` moves a coordinate of `point`.
pub fn distort<T, F, const DIM: usize>(source: &F, point: [T; DIM], frequency: T, roughness: usize) -> (r: T) where
    T: Scalar,
    F: NoiseFn<T, DIM, Sample = T>,
    [T; DIM]: Coordinates<T>,

    requires
        distortion(*source, point, frequency, roughness as nat) is Some,
    ensures
        distortion(*source, point, frequency, roughness as nat) == Some(r),
{
    proof {
        if whole::<T>(0) is None {
            lemma_octaves_from_none(*source, point, Some(frequency), whole::<T>(1), roughness as nat);
        }
    }
    let two: T = number(2);
    let mut total: T = number(0);
    let mut current: T = frequency;
    let mut amplitude: T = number(1);
    let mut done: usize = 0;
    while done < roughness
        invariant
            done <= roughness,
            whole::<T>(2) == Some(two),
            octaves_from(*source, point, Some(total), Some(current), Some(amplitude), (roughness - done) as nat)
                == distortion(*source, point, frequency, roughness as nat),
            distortion(*source, point, frequency, roughness as nat) is Some,
        decreases roughness - done,
    {
        let ghost left = (roughness - done) as nat;
        let ghost here = match point.scaled(seq![current, current, current, current]) {
            Some(stretched) => (*source).value(stretched),
            None => None,
        };
        let ghost next_total = sum(Some(total), product(Some(amplitude), here));
        let ghost next_frequency = product(Some(current), whole::<T>(2));
        let ghost next_amplitude = quotient(Some(amplitude), whole::<T>(2));
        proof {
            assert(octaves_from(*source, point, Some(total), Some(current), Some(amplitude), left)
                == octaves_from(
                *source,
                point,
                next_total,
                next_frequency,
                next_amplitude,
                (left - 1) as nat,
            ));
            if next_total is None {
                lemma_octaves_from_none(*source, point, next_frequency, next_amplitude, (left - 1) as nat);
            }
        }
        let factors = [current, current, current, current];
        assert(factors@ =~= seq![current, current, current, current]);
        let sample = source.get(point.scale(&factors));
        total = total + amplitude * sample;
        done += 1;
        if done < roughness {
            proof {
                let after = sum(
                    next_total,
                    product(
                        next_amplitude,
                        match next_frequency {
                            Some(f) => match point.scaled(seq![f, f, f, f]) {
                                Some(stretched) => (*source).value(stretched),
                                None => None,
                            },
                            None => None,
                        },
                    ),
                );
                assert(octaves_from(
                    *source,
                    point,
                    next_total,
                    next_frequency,
                    next_amplitude,
                    (left - 1) as nat,
                ) == octaves_from(
                    *source,
                    point,
                    after,
                    product(next_frequency, whole::<T>(2)),
                    quotient(next_amplitude, whole::<T>(2)),
                    (left - 2) as nat,
                ));
                if after is None {
                    lemma_octaves_from_none(
                        *source,
                        point,
                        product(next_frequency, whole::<T>(2)),
                        quotient(next_amplitude, whole::<T>(2)),
                        (left - 2) as nat,
                    );
                }
            }
            current = current * two;
            amplitude = amplitude / two;
        }
    }
    total
}

/// A node that moves the point by noise of its own making before it samples its
/// source.
///
/// Each axis has a noise function of the type `F`, seeded differently from the
/// others. A coordinate moves by `power` times the sum of `roughness` octaves
/// of its function, the first of them at `frequency`.
pub struct Turbulence<Source, F, T> {
    /// The function that is sampled at the moved point.
    pub source: Source,
    /// The seed from which those of the four noise functions are taken.
    pub seed: u32,
    /// The frequency of the first octave.
    pub frequency: T,
    /// How far the point moves for a unit of noise.
    pub power: T,
    /// The number of octaves.
    pub roughness: usize,
    /// The noise that moves the point along `x`.
    pub x_distort: F,
    /// The noise that moves the point along `y`.
    pub y_distort: F,
    /// The noise that moves the point along `z`.
    pub z_distort: F,
    /// The noise that moves the point along `u`.
    pub u_distort: F,
}

impl<Source, F, T> Turbulence<Source, F, T> where T: Scalar, F: Default + Seedable {
    /// The four noise functions carry the seeds `seed`, `seed + 1`, `seed + 2`
    /// and `seed + 3`, counted round the range of the seed type.
    pub open spec fn seeded(&self) -> bool {
        &&& self.x_distort.seed_value() == self.seed
        &&& self.y_distort.seed_value() == self.seed.wrapping_add(1)
        &&& self.z_distort.seed_value() == self.seed.wrapping_add(2)
        &&& self.u_distort.seed_value() == self.seed.wrapping_add(3)
    }

    /// A turbulence over `source` with the seed 0, the frequency 1, the power 1
    /// and three octaves.
    pub fn new(source: Source) -> (node: Self)
        ensures
            node.source == source,
            node.seed == DEFAULT_SEED,
            whole::<T>(1) matches Some(one) ==> node.frequency == one && node.power == one,
            node.roughness == DEFAULT_ROUGHNESS,
            node.seeded(),
    {
        Turbulence {
            source,
            seed: DEFAULT_SEED,
            frequency: number(1),
            power: number(1),
            roughness: DEFAULT_ROUGHNESS,
            x_distort: F::default().set_seed(DEFAULT_SEED),
            y_distort: F::default().set_seed(DEFAULT_SEED.wrapping_add(1)),
            z_distort: F::default().set_seed(DEFAULT_SEED.wrapping_add(2)),
            u_distort: F::default().set_seed(DEFAULT_SEED.wrapping_add(3)),
        }
    }

    /// Sets the frequency of the first octave.
    pub fn set_frequency(self, frequency: T) -> (node: Self)
        ensures
            node == (Turbulence { frequency, ..self }),
    {
        Turbulence { frequency, ..self }
    }

    /// Sets how far the point moves for a unit of noise.
    pub fn set_power(self, power: T) -> (node: Self)
        ensures
            node == (Turbulence { power, ..self }),
    {
        Turbulence { power, ..self }
    }

    /// Sets the number of octaves.
    pub fn set_roughness(self, roughness: usize) -> (node: Self)
        ensures
            node == (Turbulence { roughness, ..self }),
    {
        Turbulence { roughness, ..self }
    }
}

impl<Source, F, T> Seedable for Turbulence<Source, F, T> where T: Scalar, F: Default + Seedable {
    open spec fn seed_value(&self) -> u32 {
        self.seed
    }

    /// Reseeds the four noise functions and leaves the rest as it is.
    fn set_seed(self, seed: u32) -> (reseeded: Self)
        ensures
            reseeded.source == self.source,
            reseeded.frequency == self.frequency,
            reseeded.power == self.power,
            reseeded.roughness == self.roughness,
            reseeded.seeded(),
    {
        Turbulence {
            source: self.source,
            seed,
            frequency: self.frequency,
            power: self.power,
            roughness: self.roughness,
            x_distort: self.x_distort.set_seed(seed),
            y_distort: self.y_distort.set_seed(seed.wrapping_add(1)),
            z_distort: self.z_distort.set_seed(seed.wrapping_add(2)),
            u_distort: self.u_distort.set_seed(seed.wrapping_add(3)),
        }
    }

    fn seed(&self) -> (seed: u32) {
        self.seed
    }
}

/// The coordinate `c` moved by `power` times the distortion of `source`.
pub open spec fn disturbed<T, F, const DIM: usize>(
    c: T,
    source: F,
    point: [T; DIM],
    frequency: T,
    roughness: nat,
    power: T,
) -> Option<T> where T: Scalar, F: NoiseFn<T, DIM, Sample = T>, [T; DIM]: Coordinates<T> {
    sum(Some(c), product(distortion(source, point, frequency, roughness), Some(power)))
}

impl<T, Source, F> NoiseFn<T, 2> for Turbulence<Source, F, T> where
    T: Scalar,
    Source: NoiseFn<T, 2>,
    F: NoiseFn<T, 2, Sample = T>,
 {
    type Sample = Source::Sample;

    open spec fn value(&self, point: [T; 2]) -> Option<Source::Sample> {
        match (
            disturbed(point@[0], self.x_distort, point, self.frequency, self.roughness as nat, self.power),
            disturbed(point@[1], self.y_distort, point, self.frequency, self.roughness as nat, self.power),
        ) {
            (Some(x), Some(y)) => self.source.value([x, y]),
            _ => None,
        }
    }

    fn get(&self, point: [T; 2]) -> (sample: Source::Sample) {
        let x = point[0] + distort(&self.x_distort, point, self.frequency, self.roughness) * self.power;
        let y = point[1] + distort(&self.y_distort, point, self.frequency, self.roughness) * self.power;
        self.source.get([x, y])
    }
}

impl<T, Source, F> NoiseFn<T, 3> for Turbulence<Source, F, T> where
    T: Scalar,
    Source: NoiseFn<T, 3>,
    F: NoiseFn<T, 3, Sample = T>,
 {
    type Sample = Source::Sample;

    open spec fn value(&self, point: [T; 3]) -> Option<Source::Sample> {
        match (
            disturbed(point@[0], self.x_distort, point, self.frequency, self.roughness as nat, self.power),
            disturbed(point@[1], self.y_distort, point, self.frequency, self.roughness as nat, self.power),
            disturbed(point@[2], self.z_distort, point, self.frequency, self.roughness as nat, self.power),
        ) {
            (Some(x), Some(y), Some(z)) => self.source.value([x, y, z]),
            _ => None,
        }
    }

    fn get(&self, point: [T; 3]) -> (sample: Source::Sample) {
        let x = point[0] + distort(&self.x_distort, point, self.frequency, self.roughness) * self.power;
        let y = point[1] + distort(&self.y_distort, point, self.frequency, self.roughness) * self.power;
        let z = point[2] + distort(&self.z_distort, point, self.frequency, self.roughness) * self.power;
        self.source.get([x, y, z])
    }
}

impl<T, Source, F> NoiseFn<T, 4> for Turbulence<Source, F, T> where
    T: Scalar,
    Source: NoiseFn<T, 4>,
    F: NoiseFn<T, 4, Sample = T>,
 {
    type Sample = Source::Sample;

    open spec fn value(&self, point: [T; 4]) -> Option<Source::Sample> {
        match (
            disturbed(point@[0], self.x_distort, point, self.frequency, self.roughness as nat, self.power),
            disturbed(point@[1], self.y_distort, point, self.frequency, self.roughness as nat, self.power),
            disturbed(point@[2], self.z_distort, point, self.frequency, self.roughness as nat, self.power),
            disturbed(point@[3], self.u_distort, point, self.frequency, self.roughness as nat, self.power),
        ) {
            (Some(x), Some(y), Some(z), Some(u)) => self.source.value([x, y, z, u]),
            _ => None,
        }
    }

    fn get(&self, point: [T; 4]) -> (sample: Source::Sample) {
        let x = point[0] + distort(&self.x_distort, point, self.frequency, self.roughness) * self.power;
        let y = point[1] + distort(&self.y_distort, point, self.frequency, self.roughness) * self.power;
        let z = point[2] + distort(&self.z_distort, point, self.frequency, self.roughness) * self.power;
        let u = point[3] + distort(&self.u_distort, point, self.frequency, self.roughness) * self.power;
        self.source.get([x, y, z, u])
    }
}

} // verus!
