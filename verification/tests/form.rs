use lilac::form::{
    draw_form, form_lines, masked, render_to_buffer, view, FORM_BACKGROUND, FORM_BLANK,
    FORM_FOREGROUND, FORM_HEIGHT, FORM_WIDTH, TEXT_LIMIT,
};
use lilac::grid::{is_ready, Area, Ink};
use lilac::tui::{AppState, FocusTarget};
use ratatui::buffer::Buffer;
use ratatui::layout::Rect;
use ratatui::style::Color;

fn filled(username: &str, password: &str) -> AppState {
    let mut state = AppState::default();
    state.username = username.to_string();
    state.password = password.to_string();
    state
}

fn row(buf: &Buffer, y: u16, from: u16, to: u16) -> String {
    (from..to).map(|x| buf[(x, y)].symbol().to_string()).collect()
}

#[test]
fn form_constants() {
    assert_eq!(FORM_HEIGHT, 7);
    assert_eq!(FORM_WIDTH, 36);
    assert_eq!(FORM_BACKGROUND, 0x333333);
    assert_eq!(FORM_FOREGROUND, Ink::White);
    assert_eq!(FORM_BLANK, ' ');
    assert_eq!(TEXT_LIMIT, 32767);
}

#[test]
fn password_is_masked_byte_for_byte() {
    assert_eq!(masked(&"".to_string()), "");
    assert_eq!(masked(&"secret".to_string()), "******");
    assert_eq!(masked(&"é".to_string()), "**");
    assert_eq!(masked(&"a€b".to_string()), "*****");
}

#[test]
fn lines_of_an_empty_form() {
    let lines = form_lines(&AppState::default());
    assert_eq!(lines, vec!["", " Username: ", "", " Password: "]);
}

#[test]
fn lines_of_a_filled_form() {
    let mut state = filled("user", "secret");
    assert_eq!(form_lines(&state), vec!["", " Username: user", "", " Password: ******"]);
    state.error_message = Some("access denied".to_string());
    assert_eq!(
        form_lines(&state),
        vec!["Error: access denied", " Username: user", "", " Password: ******"]
    );
    state.error_message = Some(String::new());
    assert_eq!(form_lines(&state)[0], "Error: ");
}

#[test]
fn form_is_drawn_into_its_box() {
    let mut buf = Buffer::empty(Rect::new(0, 0, 60, 20));
    let state = filled("user", "secret");
    let form = Area { x: 12, y: 6, width: 36, height: 7 };
    let cursor = draw_form(&mut buf, &state, form);
    assert_eq!(cursor, Some((28, 8)));
    assert_eq!(row(&buf, 6, 12, 48), format!("┌Lilac{}┐", "─".repeat(29)));
    assert_eq!(row(&buf, 12, 12, 48), format!("└{}┘", "─".repeat(34)));
    assert_eq!(row(&buf, 7, 12, 48), format!("│{}│", " ".repeat(34)));
    assert_eq!(row(&buf, 8, 12, 48), format!("│ Username: user{}│", " ".repeat(19)));
    assert_eq!(row(&buf, 9, 12, 48), format!("│{}│", " ".repeat(34)));
    assert_eq!(row(&buf, 10, 12, 48), format!("│ Password: ******{}│", " ".repeat(17)));
    assert_eq!(row(&buf, 11, 12, 48), format!("│{}│", " ".repeat(34)));
    for y in 6..13u16 {
        for x in 12..48u16 {
            assert_eq!(buf[(x, y)].fg, Color::White);
            assert_eq!(buf[(x, y)].bg, Color::Rgb(0x33, 0x33, 0x33));
        }
    }
    let empty = Buffer::empty(Rect::new(0, 0, 60, 20));
    for y in 0..20u16 {
        for x in 0..60u16 {
            if !(12..48).contains(&x) || !(6..13).contains(&y) {
                assert_eq!(buf[(x, y)], empty[(x, y)]);
            }
        }
    }
}

#[test]
fn error_line_and_password_focus() {
    let mut buf = Buffer::empty(Rect::new(0, 0, 40, 8));
    let mut state = filled("u", "pw");
    state.error_message = Some("no".to_string());
    state.focused = FocusTarget::Password;
    let cursor = draw_form(&mut buf, &state, Area { x: 2, y: 1, width: 36, height: 7 });
    assert_eq!(cursor, Some((16, 5)));
    assert_eq!(row(&buf, 2, 3, 12), "Error: no");
    assert_eq!(row(&buf, 3, 3, 15), " Username: u");
    assert_eq!(row(&buf, 5, 3, 16), " Password: **");
}

#[test]
fn long_text_is_cut_at_the_box() {
    let mut buf = Buffer::empty(Rect::new(0, 0, 20, 7));
    let state = filled("abcdefghijklmnopqrstuvwxyz", "");
    let cursor = draw_form(&mut buf, &state, Area { x: 0, y: 0, width: 20, height: 7 });
    assert_eq!(cursor, Some((38, 2)));
    assert_eq!(row(&buf, 2, 0, 20), "│ Username: abcdefg│");
}

#[test]
fn box_that_leaves_the_grid_is_clipped() {
    let mut buf = Buffer::empty(Rect::new(0, 0, 10, 4));
    let state = AppState::default();
    let cursor = draw_form(&mut buf, &state, Area { x: 6, y: 2, width: 36, height: 7 });
    assert_eq!(cursor, Some((18, 4)));
    assert_eq!(buf.area, Rect::new(0, 0, 10, 4));
    assert_eq!(buf.content.len(), 40);
    assert_eq!(buf[(6, 2)].symbol(), "┌");
    assert_eq!(buf[(5, 2)].symbol(), " ");
    assert_eq!(buf[(5, 2)].bg, Color::Reset);
    assert_eq!(buf[(9, 3)].bg, Color::Rgb(0x33, 0x33, 0x33));
    let mut outside = Buffer::empty(Rect::new(0, 0, 4, 4));
    let before = outside.clone();
    draw_form(&mut outside, &state, Area { x: 10, y: 10, width: 5, height: 5 });
    assert_eq!(outside, before);
}

#[test]
fn box_too_small_for_text() {
    let mut buf = Buffer::empty(Rect::new(0, 0, 10, 4));
    let state = AppState::default();
    assert_eq!(draw_form(&mut buf, &state, Area { x: 1, y: 1, width: 1, height: 1 }), Some((13, 3)));
    assert_eq!(draw_form(&mut buf, &state, Area { x: 1, y: 1, width: 0, height: 0 }), Some((12, 2)));
    assert_eq!(
        draw_form(&mut buf, &state, Area { x: 65535, y: 65535, width: 0, height: 0 }),
        None
    );
}

#[test]
fn malformed_grid_is_not_drawn_on() {
    let mut buf = Buffer::empty(Rect::new(0, 0, 10, 4));
    buf.content.truncate(7);
    let before = buf.clone();
    let cursor =
        draw_form(&mut buf, &AppState::default(), Area { x: 0, y: 0, width: 10, height: 4 });
    assert_eq!(cursor, Some((12, 2)));
    assert_eq!(buf, before);
}

#[test]
fn view_puts_the_form_in_the_middle_of_the_fire() {
    let mut buf = Buffer::empty(Rect::new(0, 0, 80, 24));
    let state = filled("user", "secret");
    let cursor = view(&mut buf, &state);
    assert_eq!(cursor, Some((38, 11)));
    assert_eq!(row(&buf, 9, 22, 58), format!("┌Lilac{}┐", "─".repeat(29)));
    assert_eq!(row(&buf, 11, 22, 58), format!("│ Username: user{}│", " ".repeat(19)));
    assert_eq!(row(&buf, 13, 22, 58), format!("│ Password: ******{}│", " ".repeat(17)));
    assert_eq!(row(&buf, 15, 22, 58), format!("└{}┘", "─".repeat(34)));
    let mut fire = Buffer::empty(Rect::new(0, 0, 80, 24));
    AppState::draw_background(&mut fire, state.tick);
    for y in 0..24u16 {
        for x in 0..80u16 {
            if !(22..58).contains(&x) || !(9..16).contains(&y) {
                assert_eq!(buf[(x, y)], fire[(x, y)]);
            } else {
                assert_eq!(buf[(x, y)].bg, Color::Rgb(0x33, 0x33, 0x33));
            }
        }
    }
}

#[test]
fn view_on_a_small_terminal() {
    let mut buf = Buffer::empty(Rect::new(0, 0, 10, 3));
    let cursor = view(&mut buf, &AppState::default());
    assert!(cursor.is_some());
    assert_eq!(buf.area, Rect::new(0, 0, 10, 3));
    assert_eq!(buf.content.len(), 30);
    let mut empty = Buffer::empty(Rect::new(0, 0, 0, 0));
    view(&mut empty, &AppState::default());
    assert_eq!(empty.content.len(), 0);
}

#[test]
fn render_to_buffer_is_the_view_on_a_fresh_grid() {
    let mut state = filled("user", "secret");
    state.tick = 5;
    let rendered = render_to_buffer(&state, 80, 24);
    let mut expected = Buffer::empty(Rect::new(0, 0, 80, 24));
    view(&mut expected, &state);
    assert_eq!(rendered.area, Rect::new(0, 0, 80, 24));
    assert_eq!(rendered, expected);
    assert_eq!(row(&rendered, 11, 22, 58), format!("│ Username: user{}│", " ".repeat(19)));
}

#[test]
fn line_at_the_limit_is_written_and_one_beyond_stays_away() {
    let form = Area { x: 12, y: 6, width: 36, height: 7 };
    let mut buf = Buffer::empty(Rect::new(0, 0, 60, 20));
    let state = filled(&"x".repeat(32767 - 11), "");
    assert_eq!(form_lines(&state)[1].len(), 32767);
    draw_form(&mut buf, &state, form);
    assert_eq!(row(&buf, 6, 12, 48), format!("┌Lilac{}┐", "─".repeat(29)));
    assert_eq!(row(&buf, 8, 12, 48), format!("│ Username: {}│", "x".repeat(23)));
    assert_eq!(row(&buf, 10, 12, 48), format!("│ Password: {}│", " ".repeat(23)));

    let mut buf = Buffer::empty(Rect::new(0, 0, 60, 20));
    let state = filled(&"x".repeat(32767 - 10), "");
    assert_eq!(form_lines(&state)[1].len(), 32768);
    draw_form(&mut buf, &state, form);
    assert_eq!(row(&buf, 6, 12, 48), format!("┌Lilac{}┐", "─".repeat(29)));
    assert_eq!(row(&buf, 8, 12, 48), format!("│{}│", " ".repeat(34)));
    assert_eq!(row(&buf, 10, 12, 48), format!("│{}│", " ".repeat(34)));
    for x in 13..47u16 {
        assert_eq!(buf[(x, 8)].bg, Color::Rgb(0x33, 0x33, 0x33));
    }
}

#[test]
fn text_area_beyond_the_limit_gets_no_text() {
    let state = filled("user", "secret");
    let mut buf = Buffer::empty(Rect::new(0, 0, 32769, 4));
    draw_form(&mut buf, &state, Area { x: 0, y: 0, width: 32769, height: 4 });
    assert_eq!(row(&buf, 0, 0, 7), "┌Lilac─");
    assert_eq!(row(&buf, 2, 0, 16), "│ Username: user");
    assert_eq!(buf[(32768, 2)].symbol(), "│");

    let mut buf = Buffer::empty(Rect::new(0, 0, 32770, 4));
    draw_form(&mut buf, &state, Area { x: 0, y: 0, width: 32770, height: 4 });
    assert_eq!(row(&buf, 0, 0, 7), "┌Lilac─");
    assert_eq!(row(&buf, 2, 0, 16), format!("│{}", " ".repeat(15)));
    assert_eq!(buf[(32769, 2)].symbol(), "│");
}

#[test]
fn render_to_buffer_has_the_size_asked_for() {
    for (width, height) in [(0u16, 0u16), (1, 1), (10, 3), (36, 7), (80, 24), (200, 1)] {
        let rendered = render_to_buffer(&AppState::default(), width, height);
        assert_eq!(rendered.area, Rect { x: 0, y: 0, width, height });
        assert_eq!(rendered.content.len(), width as usize * height as usize);
        assert!(is_ready(&rendered));
    }
}

#[test]
fn the_box_lies_in_the_grid_on_every_size() {
    let state = filled("user", "secret");
    for (width, height) in [(1u16, 1u16), (5, 20), (36, 7), (37, 8), (80, 24), (200, 50), (30, 3)] {
        let mut buf = Buffer::empty(Rect::new(3, 2, width, height));
        let mut fire = Buffer::empty(Rect::new(3, 2, width, height));
        AppState::draw_background(&mut fire, state.tick);
        let cursor = view(&mut buf, &state).unwrap();
        let (x, y) = (cursor.0 - 16, cursor.1 - 2);
        assert!(x >= 3 && y >= 2);
        assert!(x <= 3 + width && y <= 2 + height);
        let box_width = width.min(36);
        let box_height = height.min(7);
        for cy in 2..2 + height {
            for cx in 3..3 + width {
                let inside = cx >= x && cx < x + box_width && cy >= y && cy < y + box_height;
                if !inside {
                    assert_eq!(buf[(cx, cy)], fire[(cx, cy)]);
                }
            }
        }
    }
}
