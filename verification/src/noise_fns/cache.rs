//! Remembering the last sample of a source.
use crate::noise_fns::NoiseFn;
use crate::scalar::exactly_compared;
use vstd::cell::invcell::InvCell;
use vstd::predicate::Predicate;
use vstd::prelude::*;

verus! {

/// What a cache remembers: the point it was last asked for together with the
/// sample it found there, or nothing.
pub struct Memo<T, V, const DIM: usize> {
    /// The remembered point and its sample.
    pub entry: Option<([T; DIM], V)>,
}

impl<T: Copy, V: Copy, const DIM: usize> Clone for Memo<T, V, DIM> {
    fn clone(&self) -> (copy: Self)
        ensures
            copy == *self,
    {
        *self
    }
}

impl<T: Copy, V: Copy, const DIM: usize> Copy for Memo<T, V, DIM> {

}

impl<T: Copy + PartialEq, V: Copy, const DIM: usize> Memo<T, V, DIM> {
    /// The sample that the memo holds for `point`: the remembered one if `point`
    /// is exactly the remembered point, none otherwise.
    pub open spec fn recalled(&self, point: [T; DIM]) -> Option<V> {
        match self.entry {
            Some((known, sample)) => if known == point {
                Some(sample)
            } else {
                None
            },
            None => None,
        }
    }

    /// A memo that remembers nothing.
    pub fn empty() -> (memo: Self)
        ensures
            memo.entry is None,
    {
        Memo { entry: None }
    }

    /// A memo that remembers `sample` for `point`.
    pub fn holding(point: [T; DIM], sample: V) -> (memo: Self)
        ensures
            memo.entry == Some((point, sample)),
    {
        Memo { entry: Some((point, sample)) }
    }

    /// Looks `point` up. The coordinates are compared one by one with `==`.
    pub fn recall(&self, point: [T; DIM]) -> (sample: Option<V>)
        requires
            exactly_compared::<T>(),
        ensures
            sample == self.recalled(point),
    {
        match self.entry {
            None => None,
            Some((known, sample)) => {
                let mut axis: usize = 0;
                while axis < DIM
                    invariant
                        axis <= DIM,
                        exactly_compared::<T>(),
                        self.entry == Some((known, sample)),
                        forall|i: int| 0 <= i < axis ==> known@[i] == point@[i],
                    decreases DIM - axis,
                {
                    let same = known[axis] == point[axis];
                    proof {
                        reveal(vstd::laws_eq::obeys_concrete_eq);
                        assert(same <==> known@[axis as int] == point@[axis as int]);
                    }
                    if !same {
                        return None;
                    }
                    axis += 1;
                }
                assert(known =~= point);
                Some(sample)
            },
        }
    }
}

/// The property that a cache keeps of its memo: what it remembers for a point is
/// the sample of `source` there.
pub struct Faithful<Source> {
    /// The function whose samples are remembered.
    pub source: Source,
}

impl<T, Source: NoiseFn<T, DIM>, const DIM: usize> Predicate<
    Memo<T, Source::Sample, DIM>,
> for Faithful<Source> {
    open spec fn predicate(&self, memo: Memo<T, Source::Sample, DIM>) -> bool {
        memo.entry matches Some((point, sample)) ==> self.source.value(point) == Some(sample)
    }
}

/// A node that yields what its source yields, and remembers the last point
/// together with its sample. Asked for the same point again, it answers from
/// memory and leaves the source alone.
///
/// The memo changes behind a shared reference, so one cache must not be sampled
/// from two threads at once.
pub struct Cache<T, Source: NoiseFn<T, DIM>, const DIM: usize> {
    source: Source,
    slot: InvCell<Memo<T, Source::Sample, DIM>, Faithful<Source>>,
}

impl<T, Source: NoiseFn<T, DIM>, const DIM: usize> Cache<T, Source, DIM> {
    #[verifier::type_invariant]
    spec fn wf(&self) -> bool {
        self.slot.predicate().source == self.source
    }

    /// The function whose samples are remembered.
    pub closed spec fn source(&self) -> Source {
        self.source
    }
}

impl<T, Source, const DIM: usize> Cache<T, Source, DIM> where
    T: Copy + PartialEq,
    Source: NoiseFn<T, DIM>,
    Source::Sample: Copy,
 {
    /// A cache of `source` that remembers nothing yet.
    pub fn new(source: Source) -> (node: Self)
        ensures
            node.source() == source,
    {
        let ghost kept = Faithful { source: source };
        let slot = InvCell::new(Memo::empty(), Ghost(kept));
        Cache { source, slot }
    }
}

impl<T, Source, const DIM: usize> NoiseFn<T, DIM> for Cache<T, Source, DIM> where
    T: Copy + PartialEq,
    Source: NoiseFn<T, DIM>,
    Source::Sample: Copy,
 {
    type Sample = Source::Sample;

    /// A cache is transparent: its sample at a point is that of its source. It
    /// can be sampled where its source can, provided that points are compared
    /// exactly.
    open spec fn value(&self, point: [T; DIM]) -> Option<Source::Sample> {
        if exactly_compared::<T>() {
            self.source().value(point)
        } else {
            None
        }
    }

    fn get(&self, point: [T; DIM]) -> (sample: Source::Sample) {
        proof {
            use_type_invariant(self);
        }
        let memo = self.slot.get();
        match memo.recall(point) {
            Some(sample) => sample,
            None => {
                let sample = self.source.get(point);
                self.slot.set(Memo::holding(point, sample));
                sample
            },
        }
    }
}

} // verus!
