use lilac::fire::{
    paint_fire, palette_index, pseudo_rand, FIRE_GLYPH, FIRE_PALETTE, FIRE_SOURCE, PALETTE_LEN,
};
use lilac::grid::{is_ready, Paint};
use lilac::tui::AppState;
use ratatui::buffer::Buffer;
use ratatui::layout::Rect;
use ratatui::style::{Color, Style};

fn paint(code: u32) -> Paint {
    Paint::Rgb((code >> 16) as u8, (code >> 8) as u8, code as u8)
}

fn position(color: Color) -> Option<usize> {
    FIRE_PALETTE.iter().position(|entry| Color::from_u32(*entry) == color)
}

/// The fire drawn with ratatui alone, cell by cell.
fn expected_fire(buf: &mut Buffer, tick: u64) {
    let area = buf.area;
    let source_index = FIRE_PALETTE.len().saturating_sub(6);
    for x in area.left()..area.right() {
        let rand = pseudo_rand(tick, x, area.bottom() - 1);
        let jitter = (rand & 1) as usize;
        let seed_index = source_index.saturating_sub(jitter);
        buf[(x, area.bottom() - 1)]
            .set_char('▒')
            .set_style(Style::default().fg(Color::from_u32(FIRE_PALETTE[seed_index])));
    }
    for y in (area.top()..area.bottom() - 1).rev() {
        for x in area.left()..area.right() {
            let rand = pseudo_rand(tick, x, y);
            let x_offset = (rand % 5) as i32 - 2;
            let sample_x =
                (x as i32 + x_offset).clamp(area.left() as i32, (area.right() - 1) as i32) as u16;
            let below = buf[(sample_x, y + 1)].style().fg;
            let below_index = position(below.unwrap_or(Color::Black)).unwrap_or(0);
            let cool_step = match rand % 5 {
                0 => 2,
                1 => 1,
                _ => 0,
            };
            let cooled = below_index.saturating_sub(cool_step);
            let target_index =
                if rand & 4 == 0 { cooled } else { (below_index * 2 + cooled) / 3 };
            let current = buf[(x, y)].style().fg;
            let current_index = position(current.unwrap_or(Color::Black)).unwrap_or(0);
            let next_index = if target_index < current_index {
                current_index.saturating_sub(1)
            } else {
                target_index
            };
            buf[(x, y)]
                .set_char('▒')
                .set_style(Style::default().fg(Color::from_u32(FIRE_PALETTE[next_index])));
        }
    }
}

#[test]
fn pseudo_rand_values() {
    assert_eq!(pseudo_rand(0, 0, 0), 0);
    assert_eq!(pseudo_rand(1, 0, 0), 37056);
    assert_eq!(pseudo_rand(0, 1, 0), 44560);
    assert_eq!(pseudo_rand(0, 0, 1), 37056);
    assert_eq!(pseudo_rand(12345, 7, 9), 46822);
    assert_eq!(pseudo_rand(42, 3, 4), 1802);
    assert_eq!(pseudo_rand(u64::MAX, 65535, 65535), 0);
}

#[test]
fn pseudo_rand_uses_the_low_32_bits_of_the_tick() {
    assert_eq!(pseudo_rand(1 << 32, 0, 0), 0);
    assert_eq!(pseudo_rand((1 << 32) + 12345, 7, 9), 46822);
    assert_eq!(pseudo_rand((77 << 32) | 42, 3, 4), pseudo_rand(42, 3, 4));
}

#[test]
fn palette_runs_from_black_to_white() {
    assert_eq!(PALETTE_LEN, 36);
    assert_eq!(FIRE_PALETTE.len(), 36);
    assert_eq!(FIRE_SOURCE, 30);
    assert_eq!(FIRE_GLYPH, '▒');
    assert_eq!(FIRE_PALETTE[0], 0x000000);
    assert_eq!(FIRE_PALETTE[18], 0xFF5000);
    assert_eq!(FIRE_PALETTE[30], 0xFFDD60);
    assert_eq!(FIRE_PALETTE[35], 0xFFFFFF);
}

#[test]
fn every_palette_colour_is_found_at_its_place() {
    for (i, code) in FIRE_PALETTE.iter().enumerate() {
        assert_eq!(palette_index(paint(*code)), Some(i));
    }
}

#[test]
fn other_colours_are_not_in_the_palette() {
    assert_eq!(palette_index(Paint::Other), None);
    assert_eq!(palette_index(Paint::Rgb(1, 2, 3)), None);
    assert_eq!(palette_index(Paint::Rgb(0x0D, 0, 0)), Some(1));
    assert_eq!(palette_index(Paint::Rgb(0, 0x0D, 0)), None);
    assert_eq!(palette_index(Paint::Rgb(0xFF, 0xFF, 0xFE)), None);
}

#[test]
fn one_row_burns_at_the_source() {
    let mut buf = Buffer::empty(Rect::new(0, 0, 6, 1));
    AppState::draw_background(&mut buf, 3);
    for x in 0..6u16 {
        let jitter = (pseudo_rand(3, x, 0) & 1) as usize;
        assert_eq!(buf[(x, 0)].symbol(), "▒");
        assert_eq!(buf[(x, 0)].fg, Color::from_u32(FIRE_PALETTE[30 - jitter]));
        assert_eq!(buf[(x, 0)].bg, Color::Reset);
    }
}

#[test]
fn single_cell() {
    let mut buf = Buffer::empty(Rect::new(0, 0, 1, 1));
    AppState::draw_background(&mut buf, 0);
    assert_eq!(buf[(0, 0)].symbol(), "▒");
    assert_eq!(buf[(0, 0)].fg, Color::Rgb(0xFF, 0xDD, 0x60));
    let mut buf = Buffer::empty(Rect::new(0, 0, 1, 1));
    AppState::draw_background(&mut buf, 1);
    assert_eq!(buf[(0, 0)].fg, Color::Rgb(0xFF, 0xDD, 0x60));
    let mut buf = Buffer::empty(Rect::new(1, 0, 1, 1));
    AppState::draw_background(&mut buf, 2);
    assert_eq!(pseudo_rand(2, 1, 0) & 1, 1);
    assert_eq!(buf[(1, 0)].fg, Color::Rgb(0xFF, 0xD6, 0x40));
}

#[test]
fn fire_is_the_same_as_drawn_by_hand() {
    for (rect, tick) in [
        (Rect::new(0, 0, 20, 10), 0u64),
        (Rect::new(0, 0, 80, 24), 7),
        (Rect::new(0, 0, 1, 9), 99),
        (Rect::new(0, 0, 2, 2), 1 << 40),
        (Rect::new(5, 3, 13, 7), 123_456_789),
        (Rect::new(65500, 65500, 35, 35), u64::MAX),
    ] {
        let mut drawn = Buffer::empty(rect);
        let mut expected = Buffer::empty(rect);
        AppState::draw_background(&mut drawn, tick);
        expected_fire(&mut expected, tick);
        assert_eq!(drawn, expected);
    }
}

#[test]
fn fire_over_an_old_fire_cools_by_one_step_at_most() {
    let rect = Rect::new(0, 0, 30, 12);
    let mut drawn = Buffer::empty(rect);
    let mut expected = Buffer::empty(rect);
    for tick in 0..12u64 {
        AppState::draw_background(&mut drawn, tick);
        expected_fire(&mut expected, tick);
        assert_eq!(drawn, expected);
    }
    let before = drawn.clone();
    AppState::draw_background(&mut drawn, 12);
    for y in 0..11u16 {
        for x in 0..30u16 {
            let old = position(before[(x, y)].fg).unwrap();
            let new = position(drawn[(x, y)].fg).unwrap();
            assert!(new + 1 >= old);
        }
    }
}

#[test]
fn fire_keeps_what_it_does_not_draw() {
    let mut buf = Buffer::empty(Rect::new(0, 0, 4, 3));
    for y in 0..3u16 {
        for x in 0..4u16 {
            buf[(x, y)].set_bg(Color::Blue).set_skip(true);
        }
    }
    paint_fire(&mut buf, 5);
    for y in 0..3u16 {
        for x in 0..4u16 {
            assert_eq!(buf[(x, y)].symbol(), "▒");
            assert_eq!(buf[(x, y)].bg, Color::Blue);
            assert!(buf[(x, y)].skip);
            assert!(position(buf[(x, y)].fg).is_some());
        }
    }
    assert_eq!(buf.area, Rect::new(0, 0, 4, 3));
    assert_eq!(buf.content.len(), 12);
}

#[test]
fn fire_reads_the_old_colours() {
    let rect = Rect::new(0, 0, 3, 4);
    let mut drawn = Buffer::empty(rect);
    let mut expected = Buffer::empty(rect);
    for buf in [&mut drawn, &mut expected] {
        buf[(0, 0)].set_fg(Color::from_u32(FIRE_PALETTE[35]));
        buf[(1, 1)].set_fg(Color::from_u32(FIRE_PALETTE[12]));
        buf[(2, 2)].set_fg(Color::Red);
        buf[(1, 0)].set_fg(Color::Rgb(1, 2, 3));
    }
    AppState::draw_background(&mut drawn, 77);
    expected_fire(&mut expected, 77);
    assert_eq!(drawn, expected);
    assert_eq!(drawn[(0, 0)].fg, Color::from_u32(FIRE_PALETTE[34]));
}

#[test]
fn grid_without_cells_is_left_alone() {
    for rect in [Rect::new(0, 0, 0, 0), Rect::new(0, 0, 5, 0), Rect::new(3, 4, 0, 5)] {
        let mut buf = Buffer::empty(rect);
        let before = buf.clone();
        AppState::draw_background(&mut buf, 1);
        assert_eq!(buf, before);
    }
}

#[test]
fn grid_that_lacks_cells_is_left_alone() {
    let mut buf = Buffer::empty(Rect::new(0, 0, 4, 4));
    buf.content.truncate(10);
    assert!(!is_ready(&buf));
    let before = buf.clone();
    AppState::draw_background(&mut buf, 1);
    assert_eq!(buf, before);
    let mut buf = Buffer::empty(Rect::new(0, 0, 2, 2));
    buf.area = Rect { x: 65535, y: 0, width: 2, height: 2 };
    assert!(!is_ready(&buf));
    let before = buf.clone();
    AppState::draw_background(&mut buf, 1);
    assert_eq!(buf, before);
    assert!(is_ready(&Buffer::empty(Rect::new(0, 0, 4, 4))));
    assert!(is_ready(&Buffer::empty(Rect::new(0, 0, 0, 0))));
}
