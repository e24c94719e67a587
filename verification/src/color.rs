use vstd::prelude::*;

use crate::error::ColorMixError;

verus! {

/// An enumerable type with a dense index `0 .. cardinality`, used to key the
/// array-backed counters of `ColorSet`.
pub trait IndexedEnum: Sized + Copy {
    /// Number of variants of the type.
    spec fn cardinality() -> int;

    /// The dense index of this value.
    spec fn idx(self) -> int;

    /// Every value's index lies in `0 .. cardinality`.
    proof fn lemma_idx_bounds(self)
        ensures
            0 <= self.idx() < Self::cardinality(),
    ;

    /// Distinct values have distinct indices.
    proof fn lemma_idx_injective(self, other: Self)
        ensures
            self.idx() == other.idx() ==> self == other,
    ;

    /// Number of variants, as a machine integer.
    fn card() -> (n: usize)
        ensures
            n as int == Self::cardinality(),
    ;

    /// The dense index of this value, as a machine integer.
    fn to_idx(self) -> (i: usize)
        ensures
            i as int == self.idx(),
    ;

    /// The value with the given dense index, if the index is in range.
    fn from_idx(idx: usize) -> (r: Option<Self>)
        ensures
            match r {
                Some(c) => c.idx() == idx as int && (idx as int) < Self::cardinality(),
                None => idx as int >= Self::cardinality(),
            },
    ;
}

/// One of the three base color units that cannot be produced by mixing.
#[derive(Clone, Copy, Debug, PartialEq, Eq, Structural)]
pub enum PrimaryColor {
    Red,
    Yellow,
    Blue,
}

/// A cube color: the three primary colors plus the three composites that
/// mixing two distinct primaries produces.
#[derive(Clone, Copy, Debug, PartialEq, Eq, Structural)]
pub enum Color {
    Red,
    Yellow,
    Blue,
    Orange,
    Purple,
    Green,
}

/// The color that mixing two primary colors yields: a primary mixed with
/// itself stays that primary, two distinct primaries give their composite.
pub open spec fn spec_mix(a: PrimaryColor, b: PrimaryColor) -> Color {
    match (a, b) {
        (PrimaryColor::Red, PrimaryColor::Red) => Color::Red,
        (PrimaryColor::Yellow, PrimaryColor::Yellow) => Color::Yellow,
        (PrimaryColor::Blue, PrimaryColor::Blue) => Color::Blue,
        (PrimaryColor::Red, PrimaryColor::Yellow) => Color::Orange,
        (PrimaryColor::Yellow, PrimaryColor::Red) => Color::Orange,
        (PrimaryColor::Red, PrimaryColor::Blue) => Color::Purple,
        (PrimaryColor::Blue, PrimaryColor::Red) => Color::Purple,
        (PrimaryColor::Yellow, PrimaryColor::Blue) => Color::Green,
        (PrimaryColor::Blue, PrimaryColor::Yellow) => Color::Green,
    }
}

/// The `Color` a primary color stands for on its own.
pub open spec fn spec_color_of(p: PrimaryColor) -> Color {
    match p {
        PrimaryColor::Red => Color::Red,
        PrimaryColor::Yellow => Color::Yellow,
        PrimaryColor::Blue => Color::Blue,
    }
}

/// Mixing is commutative, and mixing a primary color with itself yields that
/// primary color.
pub proof fn lemma_mix_commutative(a: PrimaryColor, b: PrimaryColor)
    ensures
        spec_mix(a, b) == spec_mix(b, a),
        spec_mix(a, a) == spec_color_of(a),
{
}

impl PrimaryColor {
    /// All primary colors, in dense-index order.
    pub fn all_colors() -> (r: Vec<PrimaryColor>)
        ensures
            r@ == seq![PrimaryColor::Red, PrimaryColor::Yellow, PrimaryColor::Blue],
    {
        let mut v: Vec<PrimaryColor> = Vec::new();
        v.push(PrimaryColor::Red);
        v.push(PrimaryColor::Yellow);
        v.push(PrimaryColor::Blue);
        proof {
            assert(v@ =~= seq![PrimaryColor::Red, PrimaryColor::Yellow, PrimaryColor::Blue]);
        }
        v
    }

    /// Mix this primary color with another.
    pub fn mix(self, other: Self) -> (r: Color)
        ensures
            r == spec_mix(self, other),
    {
        match (self, other) {
            (PrimaryColor::Red, PrimaryColor::Red) => Color::Red,
            (PrimaryColor::Yellow, PrimaryColor::Yellow) => Color::Yellow,
            (PrimaryColor::Blue, PrimaryColor::Blue) => Color::Blue,
            (PrimaryColor::Red, PrimaryColor::Yellow) => Color::Orange,
            (PrimaryColor::Yellow, PrimaryColor::Red) => Color::Orange,
            (PrimaryColor::Red, PrimaryColor::Blue) => Color::Purple,
            (PrimaryColor::Blue, PrimaryColor::Red) => Color::Purple,
            (PrimaryColor::Yellow, PrimaryColor::Blue) => Color::Green,
            (PrimaryColor::Blue, PrimaryColor::Yellow) => Color::Green,
        }
    }

    /// A second, pairwise-written mixing function, kept for cross-checking
    /// `mix` in tests; proved to agree with `mix` on every pair.
    pub fn testonly_mix(self, other: Self) -> (r: Color)
        ensures
            r == spec_mix(self, other),
            r == spec_mix(other, self),
    {
        match (self, other) {
            (PrimaryColor::Red, PrimaryColor::Red) => Color::Red,
            (PrimaryColor::Yellow, PrimaryColor::Yellow) => Color::Yellow,
            (PrimaryColor::Blue, PrimaryColor::Blue) => Color::Blue,
            (PrimaryColor::Red, PrimaryColor::Yellow) | (PrimaryColor::Yellow, PrimaryColor::Red) => Color::Orange,
            (PrimaryColor::Red, PrimaryColor::Blue) | (PrimaryColor::Blue, PrimaryColor::Red) => Color::Purple,
            (PrimaryColor::Yellow, PrimaryColor::Blue) | (PrimaryColor::Blue, PrimaryColor::Yellow) => Color::Green,
        }
    }
}

/// The color opposite `c` on the six-color wheel: each primary maps to the
/// composite of the other two primaries, and back.
pub open spec fn spec_opposite(c: Color) -> Color {
    match c {
        Color::Red => Color::Green,
        Color::Yellow => Color::Purple,
        Color::Blue => Color::Orange,
        Color::Orange => Color::Blue,
        Color::Purple => Color::Yellow,
        Color::Green => Color::Red,
    }
}

/// `opposite` is an involution and has no fixed point.
pub proof fn lemma_opposite_involution(c: Color)
    ensures
        spec_opposite(spec_opposite(c)) == c,
        spec_opposite(c) != c,
{
}

/// The two primary units a color costs: a primary costs two units of itself,
/// a composite costs one unit of each of its two constituent primaries.
pub open spec fn spec_decompose(c: Color) -> (PrimaryColor, PrimaryColor) {
    match c {
        Color::Red => (PrimaryColor::Red, PrimaryColor::Red),
        Color::Yellow => (PrimaryColor::Yellow, PrimaryColor::Yellow),
        Color::Blue => (PrimaryColor::Blue, PrimaryColor::Blue),
        Color::Orange => (PrimaryColor::Red, PrimaryColor::Yellow),
        Color::Purple => (PrimaryColor::Red, PrimaryColor::Blue),
        Color::Green => (PrimaryColor::Yellow, PrimaryColor::Blue),
    }
}

/// How many units of the primary color `p` the color `c` costs.
pub open spec fn spec_cost(c: Color, p: PrimaryColor) -> nat {
    (if spec_decompose(c).0 == p {
        1nat
    } else {
        0nat
    }) + (if spec_decompose(c).1 == p {
        1nat
    } else {
        0nat
    })
}

/// Every color decomposes into exactly two primary units, and mixing the two
/// units back together restores the color: decomposition is lossless.
pub proof fn lemma_decompose_lossless(c: Color)
    ensures
        spec_cost(c, PrimaryColor::Red) + spec_cost(c, PrimaryColor::Yellow) + spec_cost(
            c,
            PrimaryColor::Blue,
        ) == 2,
        spec_mix(spec_decompose(c).0, spec_decompose(c).1) == c,
{
}

impl Color {
    /// The color opposite this one on the six-color wheel; used by the
    /// inverted pot.
    pub fn opposite(self) -> (r: Color)
        ensures
            r == spec_opposite(self),
    {
        match self {
            Color::Red => Color::Green,
            Color::Yellow => Color::Purple,
            Color::Blue => Color::Orange,
            Color::Orange => Color::Blue,
            Color::Purple => Color::Yellow,
            Color::Green => Color::Red,
        }
    }

    /// The two primary units this color costs.
    pub fn decompose(self) -> (r: (PrimaryColor, PrimaryColor))
        ensures
            r == spec_decompose(self),
    {
        match self {
            Color::Red => (PrimaryColor::Red, PrimaryColor::Red),
            Color::Yellow => (PrimaryColor::Yellow, PrimaryColor::Yellow),
            Color::Blue => (PrimaryColor::Blue, PrimaryColor::Blue),
            Color::Orange => (PrimaryColor::Red, PrimaryColor::Yellow),
            Color::Purple => (PrimaryColor::Red, PrimaryColor::Blue),
            Color::Green => (PrimaryColor::Yellow, PrimaryColor::Blue),
        }
    }

    /// The cost of this color per primary color, as `(primary, count)` pairs
    /// in dense-index order; the counts over all three primaries sum to 2.
    pub fn decompose_iter(self) -> (r: Vec<(PrimaryColor, u32)>)
        ensures
            r@.len() == 3,
            forall|i: int|
                0 <= i < 3 ==> (#[trigger] r@[i]).0.idx() == i && r@[i].1 == spec_cost(
                    self,
                    r@[i].0,
                ),
    {
        let (a, b) = self.decompose();
        let mut counts: Vec<(PrimaryColor, u32)> = Vec::new();
        counts.push((PrimaryColor::Red, 0));
        counts.push((PrimaryColor::Yellow, 0));
        counts.push((PrimaryColor::Blue, 0));
        let ia = a.to_idx();
        proof {
            a.lemma_idx_bounds();
        }
        let ca = counts[ia].1;
        counts[ia] = (counts[ia].0, ca + 1);
        let ib = b.to_idx();
        proof {
            b.lemma_idx_bounds();
        }
        let cb = counts[ib].1;
        counts[ib] = (counts[ib].0, cb + 1);
        counts
    }
}

impl IndexedEnum for PrimaryColor {
    open spec fn cardinality() -> int {
        3
    }

    open spec fn idx(self) -> int {
        match self {
            PrimaryColor::Red => 0,
            PrimaryColor::Yellow => 1,
            PrimaryColor::Blue => 2,
        }
    }

    proof fn lemma_idx_bounds(self) {
    }

    proof fn lemma_idx_injective(self, other: Self) {
    }

    fn card() -> (n: usize) {
        3
    }

    fn to_idx(self) -> (i: usize) {
        match self {
            PrimaryColor::Red => 0,
            PrimaryColor::Yellow => 1,
            PrimaryColor::Blue => 2,
        }
    }

    fn from_idx(idx: usize) -> (r: Option<Self>) {
        match idx {
            0 => Some(PrimaryColor::Red),
            1 => Some(PrimaryColor::Yellow),
            2 => Some(PrimaryColor::Blue),
            _ => None,
        }
    }
}

impl IndexedEnum for Color {
    open spec fn cardinality() -> int {
        6
    }

    open spec fn idx(self) -> int {
        match self {
            Color::Red => 0,
            Color::Yellow => 1,
            Color::Blue => 2,
            Color::Orange => 3,
            Color::Purple => 4,
            Color::Green => 5,
        }
    }

    proof fn lemma_idx_bounds(self) {
    }

    proof fn lemma_idx_injective(self, other: Self) {
    }

    fn card() -> (n: usize) {
        6
    }

    fn to_idx(self) -> (i: usize) {
        match self {
            Color::Red => 0,
            Color::Yellow => 1,
            Color::Blue => 2,
            Color::Orange => 3,
            Color::Purple => 4,
            Color::Green => 5,
        }
    }

    fn from_idx(idx: usize) -> (r: Option<Self>) {
        match idx {
            0 => Some(Color::Red),
            1 => Some(Color::Yellow),
            2 => Some(Color::Blue),
            3 => Some(Color::Orange),
            4 => Some(Color::Purple),
            5 => Some(Color::Green),
            _ => None,
        }
    }
}

/// The primary color a one-letter command byte stands for, if any.
pub open spec fn spec_primary_from_byte(b: u8) -> Option<PrimaryColor> {
    if b == 114 {  // 'r'
        Some(PrimaryColor::Red)
    } else if b == 121 {  // 'y'
        Some(PrimaryColor::Yellow)
    } else if b == 98 {  // 'b'
        Some(PrimaryColor::Blue)
    } else {
        None
    }
}

/// The color a one-letter command byte stands for, if any.
pub open spec fn spec_color_from_byte(b: u8) -> Option<Color> {
    if b == 114 {  // 'r'
        Some(Color::Red)
    } else if b == 121 {  // 'y'
        Some(Color::Yellow)
    } else if b == 98 {  // 'b'
        Some(Color::Blue)
    } else if b == 111 {  // 'o'
        Some(Color::Orange)
    } else if b == 112 {  // 'p'
        Some(Color::Purple)
    } else if b == 103 {  // 'g'
        Some(Color::Green)
    } else {
        None
    }
}

impl PrimaryColor {
    /// Decode a one-letter command byte (`r`, `y` or `b`) into a primary
    /// color; any other byte is a parse failure.
    pub fn from_byte(b: u8) -> (r: Result<PrimaryColor, ColorMixError>)
        ensures
            match r {
                Ok(p) => spec_primary_from_byte(b) == Some(p),
                Err(e) => e == ColorMixError::ParseError && spec_primary_from_byte(b) is None,
            },
    {
        if b == 114 {
            Ok(PrimaryColor::Red)
        } else if b == 121 {
            Ok(PrimaryColor::Yellow)
        } else if b == 98 {
            Ok(PrimaryColor::Blue)
        } else {
            Err(ColorMixError::ParseError)
        }
    }
}

impl Color {
    /// Decode a one-letter command byte (`r`, `y`, `b`, `o`, `p` or `g`) into
    /// a color; any other byte is a parse failure.
    pub fn from_byte(b: u8) -> (r: Result<Color, ColorMixError>)
        ensures
            match r {
                Ok(c) => spec_color_from_byte(b) == Some(c),
                Err(e) => e == ColorMixError::ParseError && spec_color_from_byte(b) is None,
            },
    {
        if b == 114 {
            Ok(Color::Red)
        } else if b == 121 {
            Ok(Color::Yellow)
        } else if b == 98 {
            Ok(Color::Blue)
        } else if b == 111 {
            Ok(Color::Orange)
        } else if b == 112 {
            Ok(Color::Purple)
        } else if b == 103 {
            Ok(Color::Green)
        } else {
            Err(ColorMixError::ParseError)
        }
    }
}

} // verus!
