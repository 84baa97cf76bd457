use digital_rain::engine::{quits, Engine, Event, Key};
use digital_rain::frame::{paint_frame, paint_cell, Cell, Frame, Style};
use digital_rain::stream::Stream;

fn non_blank(f: &Frame) -> Vec<(usize, usize)> {
    let mut out = Vec::new();
    for (r, line) in f.cells.iter().enumerate() {
        for (c, cell) in line.iter().enumerate() {
            if cell.style != Style::Blank {
                out.push((r, c));
            }
        }
    }
    out
}

#[test]
fn stream_falls_by_its_speed() {
    let mut s = Stream::new(4, 2, 5, 700);
    assert_eq!(s.head_row(), 0);
    s.advance();
    assert_eq!(s.pos, 700);
    assert_eq!(s.head_row(), 0);
    s.advance();
    assert_eq!(s.head_row(), 1);
    assert!(!s.is_gone(4));
}

#[test]
fn stream_is_gone_once_trail_passes_bottom() {
    let s = Stream { id: 0, pos: 8999, col: 0, len: 5, speed: 1000 };
    assert!(!s.is_gone(4));
    let s = Stream { id: 0, pos: 9000, col: 0, len: 5, speed: 1000 };
    assert!(s.is_gone(4));
}

#[test]
fn spawn_with_maps_draws_into_ranges() {
    let mut e = Engine::new(10, 4);
    e.spawn_with(23, 27, 2_450);
    assert_eq!(e.next_id, 1);
    assert_eq!(e.streams, vec![Stream { id: 0, pos: 0, col: 3, len: 12, speed: 750 }]);
    e.spawn_with(u16::MAX, u64::MAX, u64::MAX);
    assert_eq!(e.streams[1], Stream { id: 1, pos: 0, col: 5, len: 10, speed: 915 });
}

#[test]
fn spawn_on_zero_width_screen_does_nothing() {
    let mut e = Engine::new(0, 4);
    e.spawn_with(1, 1, 1);
    e.spawn();
    assert!(e.streams.is_empty());
    assert_eq!(e.next_id, 0);
}

#[test]
fn random_spawns_stay_in_bounds() {
    let mut e = Engine::new(7, 30);
    for _ in 0..200 {
        e.spawn();
        let s = *e.streams.last().unwrap();
        assert!(s.col < 7);
        assert!((5..15).contains(&s.len));
        assert!((300..1300).contains(&s.speed));
        assert_eq!(s.pos, 0);
        let f = e.tick(None).unwrap();
        assert_eq!(f.cells.len(), 30);
        for st in &e.streams {
            assert!(st.col < 7 && st.len >= 5);
        }
    }
    let ids: Vec<u64> = e.streams.iter().map(|s| s.id).collect();
    let mut sorted = ids.clone();
    sorted.sort();
    sorted.dedup();
    assert_eq!(ids, sorted);
}

#[test]
fn first_tick_shows_single_head_at_top() {
    let mut e = Engine::new(10, 4);
    e.spawn_with(6, 0, 200);
    let f = e.tick(None).unwrap();
    assert_eq!(e.streams[0].pos, 500);
    assert_eq!(e.streams[0].head_row(), 0);
    assert_eq!(f.cells.len(), 4);
    assert!(f.cells.iter().all(|line| line.len() == 10));
    assert_eq!(non_blank(&f), vec![(0, 6)]);
    assert_eq!(f.cell(0, 6).style, Style::Head);
    assert_ne!(f.cell(0, 6).glyph, ' ');
    assert_eq!(f.cell(1, 6), Cell { glyph: ' ', style: Style::Blank });
}

#[test]
fn stream_leaves_once_trail_passes_bottom() {
    let mut e = Engine::new(10, 4);
    e.spawn_with(2, 0, 700);
    assert_eq!(e.streams[0].len, 5);
    assert_eq!(e.streams[0].speed, 1000);
    for n in 1..=8u64 {
        let f = e.tick(None).unwrap();
        assert_eq!(e.streams.len(), 1);
        assert_eq!(e.streams[0].head_row(), n);
        let painted = non_blank(&f);
        for (r, c) in &painted {
            assert_eq!(*c, 2);
            assert!((*r as u64) <= n && n - (*r as u64) < 5);
        }
    }
    let f = e.tick(None).unwrap();
    assert!(e.streams.is_empty());
    assert!(non_blank(&f).is_empty());
}

#[test]
fn trail_covers_length_rows_above_head() {
    let mut e = Engine::new(3, 10);
    e.spawn_with(1, 1, 700);
    for _ in 0..7 {
        e.tick(None);
    }
    let f = e.tick(None).unwrap();
    assert_eq!(e.streams[0].head_row(), 8);
    assert_eq!(non_blank(&f), vec![(3, 1), (4, 1), (5, 1), (6, 1), (7, 1), (8, 1)]);
    assert_eq!(f.cell(8, 1).style, Style::Head);
    for r in 3..8 {
        assert_eq!(f.cell(r, 1).style, Style::Trail);
        assert_eq!(f.cell(r, 1).glyph, digital_rain::glyph::make_char(0, 1, r as u16));
    }
}

#[test]
fn later_stream_paints_over_earlier() {
    let streams = vec![
        Stream { id: 1, pos: 2000, col: 0, len: 5, speed: 300 },
        Stream { id: 2, pos: 1000, col: 0, len: 5, speed: 300 },
    ];
    let top = paint_cell(&streams, 0, 0, 4);
    assert_eq!(top.glyph, digital_rain::glyph::make_char(2, 0, 0));
    assert_eq!(top.style, Style::Trail);
    let mid = paint_cell(&streams, 1, 0, 4);
    assert_eq!(mid.glyph, digital_rain::glyph::make_char(2, 0, 1));
    assert_eq!(mid.style, Style::Head);
    let low = paint_cell(&streams, 2, 0, 4);
    assert_eq!(low.glyph, digital_rain::glyph::make_char(1, 0, 2));
    assert_eq!(low.style, Style::Head);
    let f = paint_frame(&streams, 2, 4);
    assert_eq!(f.cell(3, 0), Cell { glyph: ' ', style: Style::Blank });
    assert_eq!(f.cell(0, 1), Cell { glyph: ' ', style: Style::Blank });
}

#[test]
fn resize_drops_every_stream() {
    let mut e = Engine::new(10, 4);
    e.spawn_with(1, 0, 0);
    e.spawn_with(2, 0, 0);
    e.tick(None);
    assert_eq!(e.streams.len(), 2);
    let f = e.tick(Some(Event::Resize(20, 6))).unwrap();
    assert!(e.streams.is_empty());
    assert_eq!((e.width, e.height), (20, 6));
    assert_eq!(e.next_id, 2);
    assert_eq!(f.cells.len(), 6);
    assert!(f.cells.iter().all(|l| l.len() == 20));
    assert!(non_blank(&f).is_empty());
}

#[test]
fn quit_key_stops_without_changes() {
    for ev in [Event::Key(Key::Esc), Event::Key(Key::Char('q'))] {
        let mut e = Engine::new(10, 4);
        e.spawn_with(1, 0, 0);
        assert!(e.tick(Some(ev)).is_none());
        assert_eq!(e.streams, vec![Stream { id: 0, pos: 0, col: 1, len: 5, speed: 300 }]);
        assert_eq!(e.next_id, 1);
    }
}

#[test]
fn other_events_do_not_quit() {
    assert!(quits(&Event::Key(Key::Esc)));
    assert!(quits(&Event::Key(Key::Char('q'))));
    assert!(!quits(&Event::Key(Key::Char('Q'))));
    assert!(!quits(&Event::Key(Key::Other)));
    assert!(!quits(&Event::Resize(1, 1)));
    assert!(!quits(&Event::Other));
    let mut e = Engine::new(5, 5);
    assert!(!e.handle(Event::Other));
    assert!(e.tick(Some(Event::Key(Key::Char('x')))).is_some());
}
