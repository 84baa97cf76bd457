//! One falling trail of glyphs.
use vstd::prelude::*;

verus! {

/// Fixed-point units per row: positions and speeds are counted in thousandths of a row.
pub const ROW_SCALE: u64 = 1000;

/// Shortest trail, in rows.
pub const MIN_LEN: u64 = 5;

/// Number of trail lengths a stream can draw: lengths lie in `MIN_LEN..MIN_LEN + LEN_SPAN`.
pub const LEN_SPAN: u64 = 10;

/// Slowest speed, in thousandths of a row per tick.
pub const MIN_SPEED: u64 = 300;

/// Number of speeds a stream can draw: speeds lie in `MIN_SPEED..MIN_SPEED + SPEED_SPAN`.
pub const SPEED_SPAN: u64 = 1000;

/// A stream: its head falls by `speed` each tick down column `col`, trailed by `len` rows.
#[derive(Clone, Copy, Debug, PartialEq, Eq, Structural)]
pub struct Stream {
    /// Identity, unique among live streams; also part of each glyph's seed.
    pub id: u64,
    /// Position of the head, in thousandths of a row below the top.
    pub pos: u64,
    /// Column the stream falls down.
    pub col: u16,
    /// Trail length in rows.
    pub len: u64,
    /// Thousandths of a row advanced per tick.
    pub speed: u64,
}

impl Stream {
    /// The row of the head: the whole part of the position.
    pub open spec fn head(self) -> int {
        self.pos as int / ROW_SCALE as int
    }

    /// The whole trail has left a screen of `rows` rows at the bottom.
    pub open spec fn gone(self, rows: u16) -> bool {
        self.head() >= self.len + rows
    }

    /// The stream one tick later.
    pub open spec fn advanced(self) -> Stream {
        Stream { pos: (self.pos + self.speed) as u64, ..self }
    }

    /// The trail shows a glyph at `(row, col)` of a screen of `rows` rows.
    pub open spec fn covers(self, row: int, col: int, rows: u16) -> bool {
        &&& col == self.col
        &&& 0 <= row < rows
        &&& self.head() - self.len < row <= self.head()
    }

    /// Column within the width, length and speed within their ranges, not yet gone.
    pub open spec fn valid(self, width: u16, rows: u16) -> bool {
        &&& self.col < width
        &&& MIN_LEN <= self.len < MIN_LEN + LEN_SPAN
        &&& MIN_SPEED <= self.speed < MIN_SPEED + SPEED_SPAN
        &&& !self.gone(rows)
    }

    /// A stream whose head stands at the top row.
    pub fn new(id: u64, col: u16, len: u64, speed: u64) -> (s: Stream)
        ensures
            s == (Stream { id, pos: 0, col, len, speed }),
    {
        Stream { id, pos: 0, col, len, speed }
    }

    /// The row of the head.
    pub fn head_row(&self) -> (r: u64)
        ensures
            r == self.head(),
    {
        self.pos / ROW_SCALE
    }

    /// Moves the head down by one tick's worth.
    pub fn advance(&mut self)
        requires
            old(self).pos + old(self).speed <= u64::MAX,
        ensures
            *final(self) == old(self).advanced(),
    {
        self.pos = self.pos + self.speed;
    }

    /// Whether the whole trail has left a screen of `rows` rows.
    pub fn is_gone(&self, rows: u16) -> (r: bool)
        ensures
            r == self.gone(rows),
    {
        let head = self.head_row();
        head >= self.len && head - self.len >= rows as u64
    }
}

} // verus!
