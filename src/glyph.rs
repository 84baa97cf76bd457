//! Glyph selection: a pure function from a cell of a stream to the character shown there.
use rand::{rngs::StdRng, Rng, SeedableRng};
use vstd::prelude::*;

verus! {

/// Number of glyphs in the alphabet: ten digits, 26 lower case letters, 26 upper case
/// letters, 15 half-width katakana (U+FF80 to U+FF8E) and the five symbols `@#$%&`.
pub const GLYPH_COUNT: u64 = 82;

/// Unicode code point of the glyph at position `k` of the alphabet.
/// Past the end of the alphabet the code is that of `?`.
pub open spec fn glyph_code(k: nat) -> u32 {
    if k < 10 {
        (0x30 + k) as u32
    } else if k < 36 {
        (0x61 + (k - 10)) as u32
    } else if k < 62 {
        (0x41 + (k - 36)) as u32
    } else if k < 77 {
        (0xFF80 + (k - 62)) as u32
    } else if k == 77 {
        0x40u32
    } else if k < GLYPH_COUNT {
        (0x23 + (k - 78)) as u32
    } else {
        0x3Fu32
    }
}

/// The glyph at position `k` of the alphabet.
pub open spec fn glyph_spec(k: nat) -> char {
    glyph_code(k) as char
}

/// The seed of a cell: the product of row, column and stream id, modulo 2^64.
pub open spec fn seed_of(id: u64, col: u16, row: u16) -> u64 {
    ((row as nat * col as nat * id as nat) % 0x1_0000_0000_0000_0000nat) as u64
}

/// What a generator seeded with `seed` draws first from `0..bound`.
pub uninterp spec fn seeded_draw(seed: u64, bound: u64) -> u64;

/// The glyph of the cell at `(col, row)` drawn by stream `id`.
pub open spec fn cell_glyph(id: u64, col: u16, row: u16) -> char {
    glyph_spec(seeded_draw(seed_of(id, col, row), GLYPH_COUNT) as nat)
}

/// Relies on `char::from_u32`: it returns the character of any Unicode scalar value.
pub assume_specification[ core::char::from_u32 ](i: u32) -> (r: Option<char>)
    ensures
        (i < 0xD800 || (0xE000 <= i && i <= 0x10FFFF)) ==> r == Some(i as char),
;

/// Relies on rand's `StdRng::seed_from_u64` and `Rng::gen_range`: a generator made from
/// one seed draws the same first value from `0..bound`, and that value lies in the range.
#[verifier::external_body]
fn seeded_index(seed: u64, bound: u64) -> (r: u64)
    requires
        bound > 0,
    ensures
        r < bound,
        r == seeded_draw(seed, bound),
{
    let mut rng = StdRng::seed_from_u64(seed);
    rng.gen_range(0..bound)
}

/// The glyph at position `k` of the alphabet.
pub fn glyph_for_index(k: u64) -> (c: char)
    requires
        k < GLYPH_COUNT,
    ensures
        c == glyph_spec(k as nat),
{
    if k < 10 {
        (0x30u8 + k as u8) as char
    } else if k < 36 {
        (0x61u8 + (k - 10) as u8) as char
    } else if k < 62 {
        (0x41u8 + (k - 36) as u8) as char
    } else if k < 77 {
        match core::char::from_u32(0xFF80u32 + (k - 62) as u32) {
            Some(c) => c,
            None => '?',
        }
    } else if k == 77 {
        '@'
    } else {
        (0x23u8 + (k - 78) as u8) as char
    }
}

/// The seed of the cell at `(col, row)` of stream `id`.
pub fn cell_seed(id: u64, col: u16, row: u16) -> (s: u64)
    ensures
        s == seed_of(id, col, row),
{
    proof {
        assert(row as nat * col as nat <= 0xFFFF * 0xFFFF) by (nonlinear_arith)
            requires row <= 0xFFFF, col <= 0xFFFF;
    }
    let rc: u64 = row as u64 * col as u64;
    proof {
        assert(rc as nat * id as nat == row as nat * col as nat * id as nat) by (nonlinear_arith)
            requires rc == row as nat * col as nat;
    }
    rc.wrapping_mul(id)
}

/// The glyph that stream `id` shows at `(col, row)`: a function of the three values alone.
pub fn make_char(id: u64, col: u16, row: u16) -> (c: char)
    ensures
        c == cell_glyph(id, col, row),
{
    let k = seeded_index(cell_seed(id, col, row), GLYPH_COUNT);
    glyph_for_index(k)
}

/// Two glyphs drawn for the same stream and cell are the same character.
pub proof fn glyph_is_deterministic(id: u64, col: u16, row: u16, a: char, b: char)
    requires
        a == cell_glyph(id, col, row),
        b == cell_glyph(id, col, row),
    ensures
        a == b,
{
}

/// No glyph is a blank.
pub proof fn glyph_is_not_blank(k: nat)
    ensures
        glyph_spec(k) != ' ',
{
    assert(glyph_code(k) != 0x20u32);
    assert((' ' as u32) == 0x20u32);
}

} // verus!
