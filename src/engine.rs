//! The animation engine: the live streams, how they are born, fall and die, and what a tick does.
use crate::frame::{paint_frame, Frame};
use crate::stream::{Stream, LEN_SPAN, MIN_LEN, MIN_SPEED, ROW_SCALE, SPEED_SPAN};
use vstd::prelude::*;

verus! {

/// A key press, as far as the animation cares.
#[derive(Clone, Copy, Debug, PartialEq, Eq, Structural)]
pub enum Key {
    Esc,
    Char(char),
    Other,
}

/// An input event of the terminal.
#[derive(Clone, Copy, Debug, PartialEq, Eq, Structural)]
pub enum Event {
    Key(Key),
    /// The terminal now has this many columns and rows.
    Resize(u16, u16),
    Other,
}

/// Relies on rand's `random`: a value drawn from the thread's generator; nothing is known of it.
pub assume_specification<T>[ rand::random::<T> ]() -> (r: T)
    where
        rand::distributions::Standard: rand::distributions::Distribution<T>,
;

/// The event asks the animation to stop: `Esc` or `q`.
pub open spec fn is_quit(e: Event) -> bool {
    match e {
        Event::Key(Key::Esc) => true,
        Event::Key(Key::Char(c)) => c == 'q',
        _ => false,
    }
}

/// Whether the event asks the animation to stop.
pub fn quits(e: &Event) -> (r: bool)
    ensures
        r == is_quit(*e),
{
    match e {
        Event::Key(Key::Esc) => true,
        Event::Key(Key::Char(c)) => *c == 'q',
        _ => false,
    }
}

/// The streams one tick later: each advanced, those whose trail left the `rows` rows dropped,
/// the others kept in order.
pub open spec fn survivors(s: Seq<Stream>, rows: u16) -> Seq<Stream>
    decreases s.len(),
{
    if s.len() == 0 {
        Seq::empty()
    } else {
        let rest = survivors(s.drop_last(), rows);
        let a = s.last().advanced();
        if a.gone(rows) {
            rest
        } else {
            rest.push(a)
        }
    }
}

/// The stream that draws `col_draw`, `len_draw` and `speed_draw` makes on a screen `width` wide.
pub open spec fn spawned(id: u64, width: u16, col_draw: u16, len_draw: u64, speed_draw: u64) -> Stream {
    Stream {
        id,
        pos: 0,
        col: (col_draw % width) as u16,
        len: (MIN_LEN + len_draw % LEN_SPAN) as u64,
        speed: (MIN_SPEED + speed_draw % SPEED_SPAN) as u64,
    }
}

/// The animation state: the live streams in order of birth, the next id, the screen size.
#[derive(Debug)]
pub struct Engine {
    pub streams: Vec<Stream>,
    pub next_id: u64,
    pub width: u16,
    pub height: u16,
}

impl Engine {
    /// Every stream is valid on the screen and older than `next_id`; ids rise in order.
    pub open spec fn wf(&self) -> bool {
        &&& forall|k: int|
            0 <= k < self.streams@.len() ==> (#[trigger] self.streams@[k]).valid(
                self.width,
                self.height,
            ) && self.streams@[k].id < self.next_id
        &&& forall|j: int, k: int|
            0 <= j < k < self.streams@.len() ==> (#[trigger] self.streams@[j]).id
                < (#[trigger] self.streams@[k]).id
    }

    /// An engine with no stream, for a screen of `width` columns and `height` rows.
    pub fn new(width: u16, height: u16) -> (e: Engine)
        ensures
            e.wf(),
            e.streams@ == Seq::<Stream>::empty(),
            e.next_id == 0,
            e.width == width,
            e.height == height,
    {
        Engine { streams: Vec::new(), next_id: 0, width, height }
    }

    /// Adds the stream that the three draws make, with the next id, at the top row.
    /// On a screen with no column no stream can stand, and nothing changes.
    pub fn spawn_with(&mut self, col_draw: u16, len_draw: u64, speed_draw: u64)
        requires
            old(self).wf(),
            old(self).next_id < u64::MAX,
        ensures
            final(self).wf(),
            final(self).width == old(self).width,
            final(self).height == old(self).height,
            old(self).width == 0 ==> *final(self) == *old(self),
            old(self).width > 0 ==> final(self).next_id == old(self).next_id + 1,
            old(self).width > 0 ==> final(self).streams@ == old(self).streams@.push(
                spawned(old(self).next_id, old(self).width, col_draw, len_draw, speed_draw),
            ),
    {
        if self.width == 0 {
            return;
        }
        let s = Stream::new(
            self.next_id,
            col_draw % self.width,
            MIN_LEN + len_draw % LEN_SPAN,
            MIN_SPEED + speed_draw % SPEED_SPAN,
        );
        proof {
            assert(s.head() == 0);
        }
        self.streams.push(s);
        self.next_id = self.next_id + 1;
    }

    /// Adds one stream with the next id at the top row, in a random column of the screen,
    /// with a random length and speed in their ranges. A tick begins with exactly one spawn.
    pub fn spawn(&mut self)
        requires
            old(self).wf(),
            old(self).next_id < u64::MAX,
        ensures
            final(self).wf(),
            final(self).width == old(self).width,
            final(self).height == old(self).height,
            old(self).width == 0 ==> *final(self) == *old(self),
            old(self).width > 0 ==> final(self).next_id == old(self).next_id + 1,
            old(self).width > 0 ==> final(self).streams@.len() == old(self).streams@.len() + 1,
            old(self).width > 0 ==> final(self).streams@.drop_last() == old(self).streams@,
            old(self).width > 0 ==> final(self).streams@.last().id == old(self).next_id,
            old(self).width > 0 ==> final(self).streams@.last().pos == 0,
    {
        let col_draw: u16 = rand::random::<u16>();
        let len_draw: u64 = rand::random::<u64>();
        let speed_draw: u64 = rand::random::<u64>();
        self.spawn_with(col_draw, len_draw, speed_draw);
        proof {
            if old(self).width > 0 {
                assert(self.streams@.drop_last() =~= old(self).streams@);
            }
        }
    }

    /// Takes in one input event. A resize adopts the new size and drops every stream;
    /// a quit key leaves the state as it is and is reported; anything else is ignored.
    pub fn handle(&mut self, e: Event) -> (quit: bool)
        requires
            old(self).wf(),
        ensures
            final(self).wf(),
            quit == is_quit(e),
            final(self).next_id == old(self).next_id,
            match e {
                Event::Resize(w, h) => {
                    &&& final(self).streams@ == Seq::<Stream>::empty()
                    &&& final(self).width == w
                    &&& final(self).height == h
                },
                _ => *final(self) == *old(self),
            },
    {
        match e {
            Event::Resize(w, h) => {
                self.streams.clear();
                self.width = w;
                self.height = h;
                assert(self.streams@ =~= Seq::<Stream>::empty());
                false
            },
            _ => quits(&e),
        }
    }

    /// Moves every stream down by its speed, drops those whose whole trail has left the
    /// screen, and paints the frame of the streams that are left.
    pub fn advance(&mut self) -> (f: Frame)
        requires
            old(self).wf(),
        ensures
            final(self).wf(),
            final(self).streams@ == survivors(old(self).streams@, old(self).height),
            final(self).next_id == old(self).next_id,
            final(self).width == old(self).width,
            final(self).height == old(self).height,
            f.shows(final(self).streams@, final(self).width, final(self).height),
    {
        let ghost before = self.streams@;
        let rows = self.height;
        let mut kept: Vec<Stream> = Vec::new();
        let n = self.streams.len();
        let mut i: usize = 0;
        assert(before.take(0) =~= Seq::<Stream>::empty());
        while i < n
            invariant
                n == before.len(),
                i <= n,
                before == self.streams@,
                rows == self.height,
                self.wf(),
                kept@ == survivors(before.take(i as int), rows),
                forall|k: int|
                    0 <= k < kept@.len() ==> (#[trigger] kept@[k]).valid(self.width, rows)
                        && kept@[k].id < self.next_id,
                forall|j: int, k: int|
                    0 <= j < k < kept@.len() ==> (#[trigger] kept@[j]).id < (#[trigger] kept@[k]).id,
                forall|k: int, m: int|
                    0 <= k < kept@.len() && i <= m < n ==> (#[trigger] kept@[k]).id < (
                    #[trigger] before[m]).id,
            decreases n - i,
        {
            let mut st = self.streams[i];
            proof {
                assert(st.valid(self.width, rows));
                assert(st.pos < (st.len + rows + 1) * ROW_SCALE) by (nonlinear_arith)
                    requires
                        (st.pos as int) / (ROW_SCALE as int) < st.len + rows,
                ;
            }
            st.advance();
            let ghost prefix = before.take(i + 1);
            assert(prefix.drop_last() =~= before.take(i as int));
            assert(prefix.last() == before[i as int]);
            if !st.is_gone(rows) {
                kept.push(st);
            }
            i = i + 1;
        }
        assert(before.take(n as int) =~= before);
        self.streams = kept;
        paint_frame(&self.streams, self.width, self.height)
    }

    /// One tick after the spawn: takes in the event, if any, then advances and paints.
    /// Returns no frame when the event asks to stop, and leaves the state as it was.
    pub fn tick(&mut self, e: Option<Event>) -> (f: Option<Frame>)
        requires
            old(self).wf(),
        ensures
            final(self).wf(),
            final(self).next_id == old(self).next_id,
            match e {
                Some(ev) => if is_quit(ev) {
                    &&& f is None
                    &&& *final(self) == *old(self)
                } else {
                    match ev {
                        Event::Resize(w, h) => {
                            &&& final(self).streams@ == Seq::<Stream>::empty()
                            &&& final(self).width == w
                            &&& final(self).height == h
                        },
                        _ => {
                            &&& final(self).streams@ == survivors(old(self).streams@, old(self).height)
                            &&& final(self).width == old(self).width
                            &&& final(self).height == old(self).height
                        },
                    }
                },
                None => {
                    &&& final(self).streams@ == survivors(old(self).streams@, old(self).height)
                    &&& final(self).width == old(self).width
                    &&& final(self).height == old(self).height
                },
            },
            f matches Some(fr) ==> fr.shows(final(self).streams@, final(self).width, final(self).height),
            (e is None || !is_quit(e->0)) ==> f is Some,
    {
        if let Some(ev) = e {
            if self.handle(ev) {
                return None;
            }
        }
        Some(self.advance())
    }
}

/// Each stream that survives a tick is a stream of the tick before, advanced and not gone.
proof fn survivors_come_from(s: Seq<Stream>, rows: u16)
    ensures
        forall|k: int|
            0 <= k < survivors(s, rows).len() ==> exists|m: int|
                0 <= m < s.len() && #[trigger] survivors(s, rows)[k] == s[m].advanced()
                    && !s[m].advanced().gone(rows),
    decreases s.len(),
{
    if s.len() > 0 {
        let t = s.drop_last();
        survivors_come_from(t, rows);
        assert forall|k: int| 0 <= k < survivors(s, rows).len() implies exists|m: int|
            0 <= m < s.len() && #[trigger] survivors(s, rows)[k] == s[m].advanced()
                && !s[m].advanced().gone(rows) by {
            if k < survivors(t, rows).len() {
                let m = choose|m: int|
                    0 <= m < t.len() && #[trigger] survivors(t, rows)[k] == t[m].advanced()
                        && !t[m].advanced().gone(rows);
                assert(s[m] == t[m]);
            } else {
                assert(survivors(s, rows)[k] == s[s.len() - 1].advanced());
            }
        }
    }
}

/// A stream whose whole trail has left the screen after it advances is gone from the
/// live streams of that very tick: no survivor carries its id.
pub proof fn past_bottom_is_removed(s: Seq<Stream>, rows: u16, i: int)
    requires
        0 <= i < s.len(),
        forall|j: int, k: int| 0 <= j < k < s.len() ==> (#[trigger] s[j]).id < (#[trigger] s[k]).id,
        s[i].advanced().gone(rows),
    ensures
        forall|k: int| 0 <= k < survivors(s, rows).len() ==> (#[trigger] survivors(s, rows)[k]).id != s[i].id,
{
    survivors_come_from(s, rows);
    assert forall|k: int| 0 <= k < survivors(s, rows).len() implies (#[trigger] survivors(
        s,
        rows,
    )[k]).id != s[i].id by {
        let m = choose|m: int|
            0 <= m < s.len() && #[trigger] survivors(s, rows)[k] == s[m].advanced() && !s[m].advanced().gone(rows);
        if m < i {
            assert(s[m].id < s[i].id);
        } else if m > i {
            assert(s[i].id < s[m].id);
        }
    }
}

/// A stream still on the screen after it advances stays live, advanced, in birth order.
pub proof fn on_screen_is_kept(s: Seq<Stream>, rows: u16, i: int)
    requires
        0 <= i < s.len(),
        !s[i].advanced().gone(rows),
    ensures
        survivors(s, rows).contains(s[i].advanced()),
    decreases s.len(),
{
    let t = s.drop_last();
    if i == s.len() - 1 {
        assert(survivors(s, rows).last() == s[i].advanced());
    } else {
        on_screen_is_kept(t, rows, i);
        let k = choose|k: int| 0 <= k < survivors(t, rows).len() && survivors(t, rows)[k] == t[i].advanced();
        assert(survivors(s, rows)[k] == s[i].advanced());
    }
}

/// Every live stream of a well-formed engine stands in a column of the screen, with a
/// trail of at least five rows and a speed of 0.3 to 1.3 rows per tick.
pub proof fn live_streams_fit(e: &Engine, k: int)
    requires
        e.wf(),
        0 <= k < e.streams@.len(),
    ensures
        e.streams@[k].col < e.width,
        e.streams@[k].len >= MIN_LEN,
        MIN_SPEED <= e.streams@[k].speed < MIN_SPEED + SPEED_SPAN,
{
    assert(e.streams@[k].valid(e.width, e.height));
}

} // verus!
