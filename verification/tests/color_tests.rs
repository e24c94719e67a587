use color_mix::color::{Color, IndexedEnum, PrimaryColor};
use color_mix::error::ColorMixError;

#[test]
fn test_primary_color_iter() {
    assert_eq!(
        PrimaryColor::all_colors(),
        vec![PrimaryColor::Red, PrimaryColor::Yellow, PrimaryColor::Blue]
    );
}

#[test]
fn test_mix() {
    for c1 in PrimaryColor::all_colors() {
        for c2 in PrimaryColor::all_colors() {
            assert_eq!(c1.mix(c2), c2.mix(c1));
            assert_eq!(c1.mix(c2), c1.testonly_mix(c2));
        }
    }
}

#[test]
fn test_mix_self_is_primary() {
    assert_eq!(PrimaryColor::Red.mix(PrimaryColor::Red), Color::Red);
    assert_eq!(PrimaryColor::Yellow.mix(PrimaryColor::Yellow), Color::Yellow);
    assert_eq!(PrimaryColor::Blue.mix(PrimaryColor::Blue), Color::Blue);
}

#[test]
fn test_mix_distinct_pairs() {
    assert_eq!(PrimaryColor::Red.mix(PrimaryColor::Yellow), Color::Orange);
    assert_eq!(PrimaryColor::Red.mix(PrimaryColor::Blue), Color::Purple);
    assert_eq!(PrimaryColor::Yellow.mix(PrimaryColor::Blue), Color::Green);
}

fn all_six_colors() -> Vec<Color> {
    vec![
        Color::Red,
        Color::Yellow,
        Color::Blue,
        Color::Orange,
        Color::Purple,
        Color::Green,
    ]
}

#[test]
fn test_opposite_involution() {
    for c in all_six_colors() {
        assert_eq!(c.opposite().opposite(), c);
        assert_ne!(c.opposite(), c);
    }
}

#[test]
fn test_opposite_values() {
    assert_eq!(Color::Red.opposite(), Color::Green);
    assert_eq!(Color::Yellow.opposite(), Color::Purple);
    assert_eq!(Color::Blue.opposite(), Color::Orange);
    assert_eq!(Color::Orange.opposite(), Color::Blue);
    assert_eq!(Color::Purple.opposite(), Color::Yellow);
    assert_eq!(Color::Green.opposite(), Color::Red);
}

#[test]
fn test_decompose_values() {
    assert_eq!(Color::Red.decompose(), (PrimaryColor::Red, PrimaryColor::Red));
    assert_eq!(Color::Yellow.decompose(), (PrimaryColor::Yellow, PrimaryColor::Yellow));
    assert_eq!(Color::Blue.decompose(), (PrimaryColor::Blue, PrimaryColor::Blue));
    assert_eq!(Color::Orange.decompose(), (PrimaryColor::Red, PrimaryColor::Yellow));
    assert_eq!(Color::Purple.decompose(), (PrimaryColor::Red, PrimaryColor::Blue));
    assert_eq!(Color::Green.decompose(), (PrimaryColor::Yellow, PrimaryColor::Blue));
}

#[test]
fn test_decompose_mixes_back() {
    for c in all_six_colors() {
        let (a, b) = c.decompose();
        assert_eq!(a.mix(b), c);
    }
}

#[test]
fn test_decompose_iter_counts() {
    for c in all_six_colors() {
        let counts = c.decompose_iter();
        assert_eq!(counts.len(), 3);
        let mut total = 0;
        for (i, &(p, n)) in counts.iter().enumerate() {
            assert_eq!(p.to_idx(), i);
            total += n;
        }
        assert_eq!(total, 2);
    }
    let orange = Color::Orange.decompose_iter();
    assert_eq!(orange[0], (PrimaryColor::Red, 1));
    assert_eq!(orange[1], (PrimaryColor::Yellow, 1));
    assert_eq!(orange[2], (PrimaryColor::Blue, 0));
}

#[test]
fn test_indexed_enum_round_trip() {
    for (i, p) in PrimaryColor::all_colors().into_iter().enumerate() {
        assert_eq!(p.to_idx(), i);
        assert_eq!(PrimaryColor::from_idx(i), Some(p));
    }
    assert_eq!(PrimaryColor::from_idx(3), None);
    for (i, c) in all_six_colors().into_iter().enumerate() {
        assert_eq!(c.to_idx(), i);
        assert_eq!(Color::from_idx(i), Some(c));
    }
    assert_eq!(Color::from_idx(6), None);
}

#[test]
fn test_from_byte() {
    assert_eq!(PrimaryColor::from_byte(b'r'), Ok(PrimaryColor::Red));
    assert_eq!(PrimaryColor::from_byte(b'y'), Ok(PrimaryColor::Yellow));
    assert_eq!(PrimaryColor::from_byte(b'b'), Ok(PrimaryColor::Blue));
    assert_eq!(PrimaryColor::from_byte(b'o'), Err(ColorMixError::ParseError));
    assert_eq!(Color::from_byte(b'o'), Ok(Color::Orange));
    assert_eq!(Color::from_byte(b'p'), Ok(Color::Purple));
    assert_eq!(Color::from_byte(b'g'), Ok(Color::Green));
    assert_eq!(Color::from_byte(b'z'), Err(ColorMixError::ParseError));
}
