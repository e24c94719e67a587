use vstd::prelude::*;

use core::marker::PhantomData;

use crate::color::{Color, IndexedEnum, PrimaryColor};
use crate::error::ColorMixError;

verus! {

/// A multiset of colors: one non-negative counter per variant of the
/// enumerable color type `C`, backed by a dense array of
/// `C::cardinality()` counters.
pub struct ColorSet<C: IndexedEnum> {
    count: Vec<u32>,
    _marker: PhantomData<C>,
}

/// A counter set over the three primary colors, as the bank holds.
pub type PrimaryColorSet = ColorSet<PrimaryColor>;

/// A counter set over all six colors, as each player holds.
pub type CubeSet = ColorSet<Color>;

impl<C: IndexedEnum> ColorSet<C> {
    /// The counters, in dense-index order.
    pub closed spec fn counts(self) -> Seq<u32> {
        self.count@
    }

    /// One counter per variant of `C`.
    pub open spec fn wf(self) -> bool {
        self.counts().len() == C::cardinality()
    }

    /// How many cubes of `color` the set holds.
    pub open spec fn count_of(self, color: C) -> u32 {
        self.counts()[color.idx()]
    }

    /// All counters of `self` agree with those of `other`, except possibly
    /// the one for `color`.
    pub open spec fn same_except(self, other: Self, color: C) -> bool {
        forall|d: C| d.idx() != color.idx() ==> #[trigger] other.count_of(d) == self.count_of(d)
    }

    /// Every counter is zero.
    pub open spec fn all_zero(self) -> bool {
        forall|i: int| 0 <= i < self.counts().len() ==> self.counts()[i] == 0
    }

    /// A private helper: a vector of `n` copies of `value`.
    fn filled(n: usize, value: u32) -> (v: Vec<u32>)
        ensures
            v@.len() == n,
            forall|i: int| 0 <= i < n ==> v@[i] == value,
    {
        let mut v: Vec<u32> = Vec::new();
        while v.len() < n
            invariant
                v@.len() <= n,
                forall|i: int| 0 <= i < v@.len() ==> v@[i] == value,
            decreases n - v@.len(),
        {
            v.push(value);
        }
        v
    }

    /// A set holding `count` cubes of every color.
    pub fn with_initial_count(count: u32) -> (s: Self)
        ensures
            s.wf(),
            forall|c: C| #[trigger] s.count_of(c) == count,
            forall|i: int| 0 <= i < s.counts().len() ==> s.counts()[i] == count,
    {
        let n = C::card();
        let s = Self { count: Self::filled(n, count), _marker: PhantomData };
        proof {
            assert forall|c: C| #[trigger] s.count_of(c) == count by {
                c.lemma_idx_bounds();
            }
        }
        s
    }

    /// Add one cube of `color`.
    pub fn insert(&mut self, color: C)
        requires
            old(self).wf(),
            old(self).count_of(color) < u32::MAX,
        ensures
            final(self).wf(),
            final(self).count_of(color) == old(self).count_of(color) + 1,
            old(self).same_except(*final(self), color),
    {
        self.insert_n(color, 1);
    }

    /// Add `n` cubes of `color`.
    pub fn insert_n(&mut self, color: C, n: u32)
        requires
            old(self).wf(),
            old(self).count_of(color) + n <= u32::MAX,
        ensures
            final(self).wf(),
            final(self).count_of(color) == old(self).count_of(color) + n,
            old(self).same_except(*final(self), color),
    {
        proof {
            color.lemma_idx_bounds();
        }
        let idx = color.to_idx();
        let c = self.count[idx];
        self.count[idx] = c + n;
        proof {
            assert forall|d: C| d.idx() != color.idx() implies #[trigger] final(self).count_of(d)
                == old(self).count_of(d) by {
                d.lemma_idx_bounds();
            }
        }
    }

    /// How many cubes of `color` the set holds.
    pub fn capacity(&self, color: C) -> (n: u32)
        requires
            self.wf(),
        ensures
            n == self.count_of(color),
    {
        proof {
            color.lemma_idx_bounds();
        }
        let idx = color.to_idx();
        self.count[idx]
    }

    /// Remove one cube of `color`; fails with `InvalidAction`, leaving the
    /// set unchanged, if no cube of that color is held.
    pub fn remove(&mut self, color: C) -> (r: Result<(), ColorMixError>)
        requires
            old(self).wf(),
        ensures
            final(self).wf(),
            old(self).count_of(color) > 0 ==> {
                &&& r is Ok
                &&& final(self).count_of(color) == old(self).count_of(color) - 1
                &&& old(self).same_except(*final(self), color)
            },
            old(self).count_of(color) == 0 ==> {
                &&& r == Err::<(), ColorMixError>(ColorMixError::InvalidAction)
                &&& *final(self) == *old(self)
            },
    {
        proof {
            color.lemma_idx_bounds();
        }
        let idx = color.to_idx();
        if self.count[idx] != 0 {
            let c = self.count[idx];
            self.count[idx] = c - 1;
            proof {
                assert forall|d: C| d.idx() != color.idx() implies #[trigger] final(self).count_of(
                    d,
                ) == old(self).count_of(d) by {
                    d.lemma_idx_bounds();
                }
            }
            Ok(())
        } else {
            Err(ColorMixError::InvalidAction)
        }
    }

    /// Whether the set holds no cube of any color.
    pub fn empty(&self) -> (r: bool)
        requires
            self.wf(),
        ensures
            r <==> self.all_zero(),
            r ==> forall|c: C| #[trigger] self.count_of(c) == 0,
    {
        let mut i: usize = 0;
        while i < self.count.len()
            invariant
                i <= self.count.len(),
                forall|j: int| 0 <= j < i ==> self.counts()[j] == 0,
            decreases self.count.len() - i,
        {
            if self.count[i] != 0 {
                proof {
                    assert(!self.all_zero()) by {
                        assert(self.counts()[i as int] != 0);
                    }
                }
                return false;
            }
            i += 1;
        }
        proof {
            assert forall|c: C| #[trigger] self.count_of(c) == 0 by {
                c.lemma_idx_bounds();
            }
        }
        true
    }

    /// Reset every counter to zero.
    pub fn clear(&mut self)
        requires
            old(self).wf(),
        ensures
            final(self).wf(),
            final(self).all_zero(),
            forall|c: C| #[trigger] final(self).count_of(c) == 0,
    {
        let n = C::card();
        self.count = Self::filled(n, 0);
        proof {
            assert forall|c: C| #[trigger] final(self).count_of(c) == 0 by {
                c.lemma_idx_bounds();
            }
        }
    }
}

impl<C: IndexedEnum> Default for ColorSet<C> {
    /// An empty set: no cube of any color.
    fn default() -> (s: Self)
        ensures
            s.wf(),
            s.all_zero(),
            forall|c: C| #[trigger] s.count_of(c) == 0,
    {
        Self::with_initial_count(0)
    }
}

} // verus!
