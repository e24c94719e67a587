use vstd::prelude::*;

use crate::color::{spec_mix, spec_opposite, Color, PrimaryColor};

verus! {

/// The color a pot with the given slots and inversion flag offers: the mix of
/// the two slots, complemented to its opposite when inverted.
pub open spec fn spec_pot_color(slot0: PrimaryColor, slot1: PrimaryColor, inverted: bool) -> Color {
    if inverted {
        spec_opposite(spec_mix(slot0, slot1))
    } else {
        spec_mix(slot0, slot1)
    }
}

/// The shared two-slot sliding window of primary colors that determines the
/// next drawable color, plus an inversion flag.
pub struct Pot {
    slot0: PrimaryColor,
    slot1: PrimaryColor,
    inverted: bool,
}

impl Pot {
    /// The newest primary color in the window.
    pub closed spec fn spec_slot0(self) -> PrimaryColor {
        self.slot0
    }

    /// The older primary color in the window.
    pub closed spec fn spec_slot1(self) -> PrimaryColor {
        self.slot1
    }

    /// Whether the pot's color is currently complemented.
    pub closed spec fn spec_inverted(self) -> bool {
        self.inverted
    }

    /// The composite color the pot currently offers.
    pub open spec fn spec_color(self) -> Color {
        spec_pot_color(self.spec_slot0(), self.spec_slot1(), self.spec_inverted())
    }

    /// The composite color the pot currently offers.
    pub fn color(&self) -> (c: Color)
        ensures
            c == self.spec_color(),
    {
        let mixed = self.slot0.mix(self.slot1);
        if self.inverted {
            mixed.opposite()
        } else {
            mixed
        }
    }

    /// Slide the window: the new primary color becomes the newest slot, the
    /// old newest slot moves back, and the oldest color is discarded.
    pub fn rotate_color(&mut self, color: PrimaryColor)
        ensures
            final(self).spec_slot0() == color,
            final(self).spec_slot1() == old(self).spec_slot0(),
            final(self).spec_inverted() == old(self).spec_inverted(),
    {
        self.slot1 = self.slot0;
        self.slot0 = color;
    }

    /// Flip the inversion flag.
    pub fn swap_inverted_state(&mut self)
        ensures
            final(self).spec_inverted() == !old(self).spec_inverted(),
            final(self).spec_slot0() == old(self).spec_slot0(),
            final(self).spec_slot1() == old(self).spec_slot1(),
    {
        self.inverted = !self.inverted;
    }

    /// Whether the pot's color is currently complemented.
    pub fn inverted(&self) -> (r: bool)
        ensures
            r == self.spec_inverted(),
    {
        self.inverted
    }

    /// The two primary colors in the window, newest first.
    pub fn slots(&self) -> (r: (PrimaryColor, PrimaryColor))
        ensures
            r.0 == self.spec_slot0(),
            r.1 == self.spec_slot1(),
    {
        (self.slot0, self.slot1)
    }
}

impl Default for Pot {
    /// A fresh pot: two Yellow slots and no inversion.
    fn default() -> (p: Pot)
        ensures
            p.spec_slot0() == PrimaryColor::Yellow,
            p.spec_slot1() == PrimaryColor::Yellow,
            !p.spec_inverted(),
    {
        Pot { slot0: PrimaryColor::Yellow, slot1: PrimaryColor::Yellow, inverted: false }
    }
}

} // verus!
