use vstd::prelude::*;

use crate::color::{spec_cost, Color, IndexedEnum, PrimaryColor};
use crate::cube_set::PrimaryColorSet;

verus! {

/// The shared reserve of primary-color units. Withdrawing a color takes its
/// whole two-unit cost atomically or nothing at all; depositing a color
/// returns its cost unit by unit.
pub struct Bank {
    colors: PrimaryColorSet,
}

impl Bank {
    /// One counter per primary color.
    pub closed spec fn wf(self) -> bool {
        self.colors.wf()
    }

    /// How many units of the primary color `p` the bank holds.
    pub closed spec fn spec_count(self, p: PrimaryColor) -> u32 {
        self.colors.count_of(p)
    }

    /// Whether the bank holds the full cost of `color`: at least as many
    /// units of every primary color as `color` costs.
    pub open spec fn spec_can_withdraw(self, color: Color) -> bool {
        forall|p: PrimaryColor| #[trigger] self.spec_count(p) >= spec_cost(color, p)
    }

    /// A bank holding `initial_count` units of every primary color.
    pub fn new(initial_count: u32) -> (b: Bank)
        ensures
            b.wf(),
            forall|p: PrimaryColor| #[trigger] b.spec_count(p) == initial_count,
    {
        Bank { colors: PrimaryColorSet::with_initial_count(initial_count) }
    }

    /// Withdraw the two-unit cost of `color`, all or nothing: if any required
    /// unit is missing the bank is left untouched and the call returns
    /// `false`; running dry is a normal game outcome, not an error.
    pub fn maybe_withdraw(&mut self, color: Color) -> (r: bool)
        requires
            old(self).wf(),
        ensures
            final(self).wf(),
            r == old(self).spec_can_withdraw(color),
            r ==> forall|p: PrimaryColor|
                #[trigger] final(self).spec_count(p) == old(self).spec_count(p) - spec_cost(
                    color,
                    p,
                ),
            !r ==> *final(self) == *old(self),
    {
        let (a, b) = color.decompose();
        let enough = if a == b {
            self.colors.capacity(a) >= 2
        } else {
            self.colors.capacity(a) >= 1 && self.colors.capacity(b) >= 1
        };
        if enough {
            let _ = self.colors.remove(a);
            let _ = self.colors.remove(b);
            proof {
                assert forall|p: PrimaryColor| #[trigger]
                    final(self).spec_count(p) == old(self).spec_count(p) - spec_cost(
                        color,
                        p,
                    ) by {
                    p.lemma_idx_injective(a);
                    p.lemma_idx_injective(b);
                    a.lemma_idx_injective(b);
                }
            }
            true
        } else {
            proof {
                assert(!old(self).spec_can_withdraw(color)) by {
                    if a == b {
                        assert(old(self).spec_count(a) < spec_cost(color, a));
                    } else if old(self).spec_count(a) < 1 {
                        assert(old(self).spec_count(a) < spec_cost(color, a));
                    } else {
                        assert(old(self).spec_count(b) < spec_cost(color, b));
                    }
                }
            }
            false
        }
    }

    /// Return the two-unit cost of `color` to the bank, unconditionally.
    pub fn deposit(&mut self, color: Color)
        requires
            old(self).wf(),
            forall|p: PrimaryColor|
                #[trigger] old(self).spec_count(p) + spec_cost(color, p) <= u32::MAX,
        ensures
            final(self).wf(),
            forall|p: PrimaryColor|
                #[trigger] final(self).spec_count(p) == old(self).spec_count(p) + spec_cost(
                    color,
                    p,
                ),
    {
        let (a, b) = color.decompose();
        proof {
            assert(old(self).spec_count(a) + spec_cost(color, a) <= u32::MAX);
            assert(old(self).spec_count(b) + spec_cost(color, b) <= u32::MAX);
            a.lemma_idx_injective(b);
        }
        self.colors.insert(a);
        self.colors.insert(b);
        proof {
            assert forall|p: PrimaryColor| #[trigger]
                final(self).spec_count(p) == old(self).spec_count(p) + spec_cost(color, p) by {
                p.lemma_idx_injective(a);
                p.lemma_idx_injective(b);
                a.lemma_idx_injective(b);
            }
        }
    }

    /// How many units of the primary color `p` the bank holds.
    pub fn count(&self, p: PrimaryColor) -> (n: u32)
        requires
            self.wf(),
        ensures
            n == self.spec_count(p),
    {
        self.colors.capacity(p)
    }
}

/// Law: depositing a color into any bank makes the bank able to supply that
/// color again, and withdrawing it then returns the bank to its prior state:
/// deposit followed by withdrawal of the same color round-trips.
pub proof fn lemma_deposit_withdraw_round_trip(b0: Bank, b1: Bank, c: Color)
    requires
        forall|p: PrimaryColor|
            #[trigger] b1.spec_count(p) == b0.spec_count(p) + spec_cost(c, p),
    ensures
        b1.spec_can_withdraw(c),
        forall|p: PrimaryColor| #[trigger] b1.spec_count(p) - spec_cost(c, p) == b0.spec_count(p),
{
}

} // verus!
