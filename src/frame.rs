//! One frame: the grid of glyphs and styles that the live streams paint.
use crate::glyph::{cell_glyph, glyph_is_not_blank, make_char, seed_of, seeded_draw, GLYPH_COUNT};
use crate::stream::Stream;
use vstd::prelude::*;

verus! {

/// How a cell is drawn.
#[derive(Clone, Copy, Debug, PartialEq, Eq, Structural)]
pub enum Style {
    /// The leading glyph of a stream: bold, bright.
    Head,
    /// Any other glyph: the plain trail colour.
    Trail,
    /// No glyph: a space with no style.
    Blank,
}

/// One cell of a frame.
#[derive(Clone, Copy, Debug, PartialEq, Eq, Structural)]
pub struct Cell {
    pub glyph: char,
    pub style: Style,
}

/// A frame: `cells[row][col]`, one inner vector per row.
#[derive(Debug)]
pub struct Frame {
    pub cells: Vec<Vec<Cell>>,
}

/// The last stream of `s` whose trail covers `(row, col)`: later streams paint over earlier ones.
pub open spec fn painter(s: Seq<Stream>, row: int, col: int, rows: u16) -> Option<Stream>
    decreases s.len(),
{
    if s.len() == 0 {
        None
    } else if s.last().covers(row, col, rows) {
        Some(s.last())
    } else {
        painter(s.drop_last(), row, col, rows)
    }
}

/// Some stream of `s` has its head at `(row, col)`.
pub open spec fn is_head(s: Seq<Stream>, row: int, col: int) -> bool {
    exists|k: int| 0 <= k < s.len() && s[k].col == col && #[trigger] s[k].head() == row
}

/// The cell at `(row, col)` painted by the streams `s` on a screen of `rows` rows.
pub open spec fn cell_spec(s: Seq<Stream>, row: int, col: int, rows: u16) -> Cell {
    match painter(s, row, col, rows) {
        Some(p) => Cell {
            glyph: cell_glyph(p.id, col as u16, row as u16),
            style: if is_head(s, row, col) { Style::Head } else { Style::Trail },
        },
        None => Cell { glyph: ' ', style: Style::Blank },
    }
}

impl Frame {
    /// The frame has `height` rows of `width` cells, each as the streams `s` paint it.
    pub open spec fn shows(self, s: Seq<Stream>, width: u16, height: u16) -> bool {
        &&& self.cells@.len() == height
        &&& forall|r: int|
            0 <= r < height ==> (#[trigger] self.cells@[r])@.len() == width
        &&& forall|r: int, c: int|
            0 <= r < height && 0 <= c < width ==> #[trigger] self.cells@[r]@[c] == cell_spec(
                s,
                r,
                c,
                height,
            )
    }

    /// The cell at `(row, col)`.
    pub fn cell(&self, row: usize, col: usize) -> (c: Cell)
        requires
            row < self.cells@.len(),
            col < self.cells@[row as int]@.len(),
        ensures
            c == self.cells@[row as int]@[col as int],
    {
        self.cells[row][col]
    }
}

/// The cell at `(row, col)` painted by the streams `s`.
pub fn paint_cell(s: &Vec<Stream>, row: u16, col: u16, rows: u16) -> (cell: Cell)
    requires
        row < rows,
    ensures
        cell == cell_spec(s@, row as int, col as int, rows),
{
    let ghost all = s@;
    let mut i: usize = s.len();
    let mut found: Option<usize> = None;
    let mut head = false;
    assert(all.take(all.len() as int) =~= all);
    while i > 0
        invariant
            i <= s@.len(),
            row < rows,
            all == s@,
            found matches Some(f) ==> i <= f < s@.len() && painter(all, row as int, col as int, rows)
                == Some(s@[f as int]),
            found is None ==> painter(all, row as int, col as int, rows) == painter(
                all.take(i as int),
                row as int,
                col as int,
                rows,
            ),
            head == (exists|k: int|
                i <= k < s@.len() && s@[k].col == col && #[trigger] s@[k].head() == row),
        decreases i,
    {
        i = i - 1;
        let st = s[i];
        let h = st.head_row();
        let ghost prefix = all.take(i + 1);
        assert(prefix.drop_last() =~= all.take(i as int));
        assert(prefix.last() == st);
        if found.is_none() && st.col == col && (row as u64) <= h && h - (row as u64) < st.len {
            assert(st.covers(row as int, col as int, rows));
            assert(painter(prefix, row as int, col as int, rows) == Some(st));
            found = Some(i);
        } else if found.is_none() {
            assert(!st.covers(row as int, col as int, rows));
            assert(painter(prefix, row as int, col as int, rows) == painter(
                all.take(i as int),
                row as int,
                col as int,
                rows,
            ));
        }
        if st.col == col && h == row as u64 {
            head = true;
        }
    }
    assert(all.take(0) =~= Seq::<Stream>::empty());
    assert(head == is_head(all, row as int, col as int));
    match found {
        Some(f) => {
            let p = s[f];
            let g = make_char(p.id, col, row);
            let style = if head {
                Style::Head
            } else {
                Style::Trail
            };
            Cell { glyph: g, style }
        },
        None => Cell { glyph: ' ', style: Style::Blank },
    }
}

/// The frame of `height` rows and `width` columns that the streams `s` paint.
pub fn paint_frame(s: &Vec<Stream>, width: u16, height: u16) -> (f: Frame)
    ensures
        f.shows(s@, width, height),
{
    let mut cells: Vec<Vec<Cell>> = Vec::new();
    let mut r: u16 = 0;
    while r < height
        invariant
            r <= height,
            cells@.len() == r,
            forall|rr: int| 0 <= rr < r ==> (#[trigger] cells@[rr])@.len() == width,
            forall|rr: int, c: int|
                0 <= rr < r && 0 <= c < width ==> #[trigger] cells@[rr]@[c] == cell_spec(
                    s@,
                    rr,
                    c,
                    height,
                ),
        decreases height - r,
    {
        let mut line: Vec<Cell> = Vec::new();
        let mut c: u16 = 0;
        while c < width
            invariant
                r < height,
                c <= width,
                line@.len() == c,
                forall|cc: int| 0 <= cc < c ==> #[trigger] line@[cc] == cell_spec(s@, r as int, cc, height),
            decreases width - c,
        {
            line.push(paint_cell(s, r, c, height));
            c = c + 1;
        }
        cells.push(line);
        r = r + 1;
    }
    Frame { cells }
}

/// Where some stream's trail covers a cell, some stream paints it.
proof fn covered_is_painted(s: Seq<Stream>, row: int, col: int, rows: u16, k: int)
    requires
        0 <= k < s.len(),
        s[k].covers(row, col, rows),
    ensures
        painter(s, row, col, rows) is Some,
    decreases s.len(),
{
    if k < s.len() - 1 && !s.last().covers(row, col, rows) {
        assert(s.drop_last()[k] == s[k]);
        covered_is_painted(s.drop_last(), row, col, rows, k);
    }
}

/// A cell on the screen is drawn in the head style exactly when some stream has its head
/// there; it is blank, a space with no style, exactly when no glyph stands there; any other
/// cell shows a glyph in the trail style.
pub proof fn head_style_is_exclusive(s: Seq<Stream>, row: int, col: int, rows: u16)
    requires
        0 <= row < rows,
        forall|k: int| 0 <= k < s.len() ==> (#[trigger] s[k]).len >= 1,
    ensures
        (cell_spec(s, row, col, rows).style == Style::Head) == is_head(s, row, col),
        (cell_spec(s, row, col, rows).style == Style::Blank) == (cell_spec(s, row, col, rows).glyph == ' '),
        cell_spec(s, row, col, rows).style == Style::Trail ==> !is_head(s, row, col),
{
    if is_head(s, row, col) {
        let k = choose|k: int| 0 <= k < s.len() && s[k].col == col && #[trigger] s[k].head() == row;
        covered_is_painted(s, row, col, rows, k);
    }
    if let Some(p) = painter(s, row, col, rows) {
        glyph_is_not_blank(seeded_draw(seed_of(p.id, col as u16, row as u16), GLYPH_COUNT) as nat);
    }
}

/// With no stream, every cell is a blank.
pub proof fn no_stream_paints_blank(row: int, col: int, rows: u16)
    ensures
        cell_spec(Seq::<Stream>::empty(), row, col, rows) == (Cell { glyph: ' ', style: Style::Blank }),
{
}

} // verus!
