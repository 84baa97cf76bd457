use digital_rain::glyph::{cell_seed, glyph_for_index, make_char, GLYPH_COUNT};
use rand::{rngs::StdRng, Rng, SeedableRng};

fn alphabet() -> Vec<char> {
    ('0'..='9')
        .chain('a'..='z')
        .chain('A'..='Z')
        .chain('\u{FF80}'..'\u{FF8F}')
        .chain("@#$%&".chars())
        .collect()
}

#[test]
fn alphabet_has_eighty_two_glyphs_in_order() {
    let a = alphabet();
    assert_eq!(a.len() as u64, GLYPH_COUNT);
    for (k, c) in a.iter().enumerate() {
        assert_eq!(glyph_for_index(k as u64), *c);
    }
}

#[test]
fn glyph_boundaries() {
    assert_eq!(glyph_for_index(0), '0');
    assert_eq!(glyph_for_index(9), '9');
    assert_eq!(glyph_for_index(10), 'a');
    assert_eq!(glyph_for_index(35), 'z');
    assert_eq!(glyph_for_index(36), 'A');
    assert_eq!(glyph_for_index(61), 'Z');
    assert_eq!(glyph_for_index(62), 'ﾀ');
    assert_eq!(glyph_for_index(76), '\u{FF8E}');
    assert_eq!(glyph_for_index(77), '@');
    assert_eq!(glyph_for_index(78), '#');
    assert_eq!(glyph_for_index(81), '&');
}

#[test]
fn seed_is_product_of_row_column_and_id() {
    assert_eq!(cell_seed(3, 4, 5), 60);
    assert_eq!(cell_seed(7, 0, 9), 0);
    assert_eq!(cell_seed(u64::MAX, 2, 1), u64::MAX - 1);
}

#[test]
fn glyph_is_deterministic_per_cell() {
    for id in 0..20u64 {
        for col in 0..5u16 {
            for row in 0..5u16 {
                assert_eq!(make_char(id, col, row), make_char(id, col, row));
            }
        }
    }
}

#[test]
fn glyph_is_drawn_from_seeded_generator() {
    let a = alphabet();
    for (id, col, row) in [(100u64, 1u16, 1u16), (12345, 17, 3), (1, 1, 1), (0, 0, 0)] {
        let seed = (row as u64) * (col as u64) * id;
        let k = StdRng::seed_from_u64(seed).gen_range(0..GLYPH_COUNT);
        let c = make_char(id, col, row);
        assert_eq!(c, a[k as usize]);
        assert_ne!(c, ' ');
    }
}
