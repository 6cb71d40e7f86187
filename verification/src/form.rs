//! Drawing the login form onto the grid: the fire behind it, a framed box
//! in the middle, the two fields in the box and the cursor behind the
//! focused field.
//!
//! Layout, frame and text are ratatui's work. The functions that call it say
//! where it draws, and give what it draws a name.

use vstd::prelude::*;
use vstd::string::StringExecFns;
use ratatui::backend::TestBackend;
use ratatui::buffer::Buffer;
use ratatui::layout::{Constraint, Direction, Layout, Rect};
use ratatui::style::{Color, Style};
use ratatui::text::{Line, Text};
use ratatui::widgets::{Block, Borders, Paragraph, Widget};
use ratatui::Terminal;
use crate::grid::{area_of, grid_area, grid_cells, grid_len, grid_ready, ink_paint, is_ready, Area, Ink, Look};
use crate::fire::background_drawn;
use crate::tui::{byte_len, checked_cursor_position, cursor_at, AppState};

verus! {

/// Rows of the form's box.
pub const FORM_HEIGHT: u16 = 7;

/// Columns of the form's box.
pub const FORM_WIDTH: u16 = 36;

/// Background of the form's box as `0x00RRGGBB`.
pub const FORM_BACKGROUND: u32 = 0x00333333;

/// Foreground of the form's box.
pub const FORM_FOREGROUND: Ink = Ink::White;

/// The character of an empty cell of the form.
pub const FORM_BLANK: char = ' ';

/// The most columns that a text area may have, and the most bytes that a
/// line or a title may have, for the terminal library to lay it out within
/// 16-bit widths. No character is wider than it has bytes, so a text
/// within the limit has no cluster of characters wider than the limit, and
/// no sum of two such widths leaves 16 bits.
pub const TEXT_LIMIT: usize = 32767;

/// The title on the frame of the form.
pub open spec fn form_title() -> Seq<char> {
    "Lilac"@
}

/// The background of the form's box as a colour for the grid.
pub open spec fn form_background() -> Ink {
    Ink::Code(FORM_BACKGROUND)
}

/// An empty cell of the form.
pub open spec fn blank_look() -> Look {
    Look { symbol: seq![FORM_BLANK], fg: ink_paint(FORM_FOREGROUND) }
}

/// The texts of `lines`.
pub open spec fn texts(lines: Seq<String>) -> Seq<Seq<char>> {
    Seq::new(lines.len(), |i: int| lines[i]@)
}

/// What the cells of a grid over `area` show once a block with a border on
/// every side and `title` on its top edge was rendered into the box `form`
/// over `cells`.
pub uninterp spec fn block_drawn(
    cells: Map<(u16, u16), Look>,
    area: Area,
    form: Area,
    title: Seq<char>,
    foreground: Ink,
    background: Ink,
) -> Map<(u16, u16), Look>;

/// What the cells of a grid over `area` show once a paragraph of `lines`
/// was rendered into the text area `inner` over `cells`.
pub uninterp spec fn text_drawn(
    cells: Map<(u16, u16), Look>,
    area: Area,
    inner: Area,
    lines: Seq<Seq<char>>,
    foreground: Ink,
    background: Ink,
) -> Map<(u16, u16), Look>;

/// Whether the terminal library can lay out `lines` in the text area
/// `inner` of a grid over `area`: the text area lies in the grid and
/// neither it nor a line goes beyond the limit.
pub open spec fn text_fits(area: Area, inner: Area, lines: Seq<Seq<char>>) -> bool {
    &&& within(inner, area)
    &&& inner.width <= TEXT_LIMIT
    &&& forall|i: int| 0 <= i < lines.len() ==> byte_len(#[trigger] lines[i]) <= TEXT_LIMIT
}

/// The text area of a box with a border on every side: one cell in from
/// each edge, and empty where the box is too small for that.
pub open spec fn inner_area(form: Area) -> Area {
    let right: int = if form.x + form.width > u16::MAX { u16::MAX as int } else { form.x + form.width };
    let bottom: int = if form.y + form.height > u16::MAX { u16::MAX as int } else { form.y + form.height };
    Area {
        x: (if form.x + 1 < right { form.x + 1 } else { right }) as u16,
        y: (if form.y + 1 < bottom { form.y + 1 } else { bottom }) as u16,
        width: (if form.width >= 2 { form.width - 2 } else { 0 }) as u16,
        height: (if form.height >= 2 { form.height - 2 } else { 0 }) as u16,
    }
}

/// Whether `inner` lies within `outer`.
pub open spec fn within(inner: Area, outer: Area) -> bool {
    &&& outer.x <= inner.x
    &&& outer.y <= inner.y
    &&& inner.x + inner.width <= outer.x + outer.width
    &&& inner.y + inner.height <= outer.y + outer.height
}

/// Whether `after` differs from `before` at most in the cells of `area`.
pub open spec fn changed_within(before: Buffer, after: Buffer, area: Area) -> bool {
    &&& grid_area(after) == grid_area(before)
    &&& grid_len(after) == grid_len(before)
    &&& forall|x: u16, y: u16|
        !area.contains(x as int, y as int) ==> #[trigger] grid_cells(after)[(x, y)] == grid_cells(
            before,
        )[(x, y)]
}

/// Whether `cursor` is the place behind the focused field of a form in the
/// box `form`, or `None` where that place has no 16-bit coordinates.
pub open spec fn cursor_of(cursor: Option<(u16, u16)>, form: Area, state: &AppState) -> bool {
    let place = cursor_at(inner_area(form).x, inner_area(form).y, state);
    match cursor {
        Some(p) => (p.0 as int, p.1 as int) == place,
        None => place.0 > u16::MAX || place.1 > u16::MAX,
    }
}

/// `Layout::split` for a vertical layout of three parts, the middle one
/// `height` rows high and the others taking what is left: the middle part.
/// Where the solver puts it is open; its required constraints keep it
/// within `area`, and the layout leaves the columns as they are.
#[verifier::external_body]
fn middle_rows(area: Area, height: u16) -> (middle: Area)
    ensures
        within(middle, area),
        middle.x == area.x,
        middle.width == area.width,
{
    let rect = Rect { x: area.x, y: area.y, width: area.width, height: area.height };
    let parts = Layout::default()
        .direction(Direction::Vertical)
        .constraints([Constraint::Min(0), Constraint::Length(height), Constraint::Min(0)])
        .split(rect);
    Area { x: parts[1].x, y: parts[1].y, width: parts[1].width, height: parts[1].height }
}

/// `Layout::split` for a horizontal layout of three parts, the middle one
/// `width` columns wide and the others taking what is left: the middle part.
/// Where the solver puts it is open; its required constraints keep it
/// within `area`, and the layout leaves the rows as they are.
#[verifier::external_body]
fn middle_columns(area: Area, width: u16) -> (middle: Area)
    ensures
        within(middle, area),
        middle.y == area.y,
        middle.height == area.height,
{
    let rect = Rect { x: area.x, y: area.y, width: area.width, height: area.height };
    let parts = Layout::default()
        .direction(Direction::Horizontal)
        .constraints([Constraint::Min(0), Constraint::Length(width), Constraint::Min(0)])
        .split(rect);
    Area { x: parts[1].x, y: parts[1].y, width: parts[1].width, height: parts[1].height }
}

/// `Buffer`'s mutable index operator, `Cell::set_char` and `Cell::set_style`
/// with a style of the two colours: the cell at (`x`, `y`) shows `glyph` in
/// the colour `foreground`, and every other cell, the rectangle and the
/// number of cells stay as they are.
#[verifier::external_body]
fn blank(grid: &mut Buffer, x: u16, y: u16, glyph: char, foreground: Ink, background: Ink)
    requires
        grid_ready(*old(grid)),
        grid_area(*old(grid)).contains(x as int, y as int),
    ensures
        grid_area(*final(grid)) == grid_area(*old(grid)),
        grid_len(*final(grid)) == grid_len(*old(grid)),
        grid_cells(*final(grid)) == grid_cells(*old(grid)).insert(
            (x, y),
            Look { symbol: seq![glyph], fg: ink_paint(foreground) },
        ),
{
    let fg = match foreground { Ink::White => Color::White, Ink::Code(code) => Color::from_u32(code) };
    let bg = match background { Ink::White => Color::White, Ink::Code(code) => Color::from_u32(code) };
    grid[(x, y)].set_char(glyph).set_style(Style::default().fg(fg).bg(bg));
}

/// `Widget::render` of a `Block` with a border on every side, `title` on
/// its top edge and a style of the two colours. The block takes the title's
/// width for 16 bits wide and adds one to it, so the title has to stay
/// within the limit. The
/// block clips itself to the grid and draws inside `form` only; the
/// rectangle and the number of cells of the grid stay as they are. What
/// the cells show afterwards is named, not spelled out.
#[verifier::external_body]
fn frame_box(grid: &mut Buffer, form: Area, title: &str, foreground: Ink, background: Ink)
    requires
        grid_ready(*old(grid)),
        byte_len(title@) <= TEXT_LIMIT,
    ensures
        changed_within(*old(grid), *final(grid), form),
        grid_cells(*final(grid)) == block_drawn(
            grid_cells(*old(grid)),
            grid_area(*old(grid)),
            form,
            title@,
            foreground,
            background,
        ),
{
    let fg = match foreground { Ink::White => Color::White, Ink::Code(code) => Color::from_u32(code) };
    let bg = match background { Ink::White => Color::White, Ink::Code(code) => Color::from_u32(code) };
    let rect = Rect { x: form.x, y: form.y, width: form.width, height: form.height };
    let style = Style::default().fg(fg).bg(bg);
    Block::default().title(title).borders(Borders::ALL).style(style).render(rect, grid);
}

/// `Block::inner` of a block with a border on every side and a title on its
/// top edge: the rectangle that is left once each border has taken its
/// cell.
#[verifier::external_body]
fn inner_of(form: Area, title: &str) -> (inner: Area)
    ensures
        inner == inner_area(form),
{
    let rect = Rect { x: form.x, y: form.y, width: form.width, height: form.height };
    let inner = Block::default().title(title).borders(Borders::ALL).inner(rect);
    Area { x: inner.x, y: inner.y, width: inner.width, height: inner.height }
}

/// `Widget::render` of a `Paragraph` of `lines`, one below the other and cut
/// at the right edge, in a style of the two colours. The paragraph indexes
/// the grid at positions of `inner`, so `inner` has to lie in the grid; it
/// takes the widths of clusters for 16 bits wide and adds them up in 16
/// bits, so the text area and the lines have to stay within the limit. It
/// draws inside `inner` only, and
/// the rectangle and the number of cells of the grid stay as they are. What
/// the cells show afterwards is named, not spelled out.
#[verifier::external_body]
fn write_lines(grid: &mut Buffer, inner: Area, lines: &Vec<String>, foreground: Ink, background: Ink)
    requires
        grid_ready(*old(grid)),
        text_fits(grid_area(*old(grid)), inner, texts(lines@)),
    ensures
        changed_within(*old(grid), *final(grid), inner),
        grid_cells(*final(grid)) == text_drawn(
            grid_cells(*old(grid)),
            grid_area(*old(grid)),
            inner,
            texts(lines@),
            foreground,
            background,
        ),
{
    let fg = match foreground { Ink::White => Color::White, Ink::Code(code) => Color::from_u32(code) };
    let bg = match background { Ink::White => Color::White, Ink::Code(code) => Color::from_u32(code) };
    let style = Style::default().fg(fg).bg(bg);
    let rect = Rect { x: inner.x, y: inner.y, width: inner.width, height: inner.height };
    let text: Vec<Line> = lines.iter().map(|line| Line::styled(line.clone(), style)).collect();
    Paragraph::new(Text::from(text)).style(style).render(rect, grid);
}

/// `count` asterisks.
pub open spec fn stars(count: nat) -> Seq<char> {
    Seq::new(count, |i: int| '*')
}

/// The line above the fields: the error message behind `Error: `, or
/// nothing.
pub open spec fn info_line(state: &AppState) -> Seq<char> {
    match state.error_message {
        Some(message) => "Error: "@ + message@,
        None => Seq::empty(),
    }
}

/// The four lines of the form: the error line, the user name behind its
/// label, an empty line, and behind its label one asterisk for each byte of
/// the password.
pub open spec fn form_text(state: &AppState) -> Seq<Seq<char>> {
    seq![
        info_line(state),
        " Username: "@ + state.username@,
        Seq::empty(),
        " Password: "@ + stars(byte_len(state.password@)),
    ]
}

/// Hides the password: one asterisk for each of its bytes.
pub fn masked(password: &String) -> (mask: String)
    ensures
        mask@ == stars(byte_len(password@)),
{
    let count: usize = password.as_str().as_bytes().len();
    let mut mask = String::new();
    let mut i: usize = 0;
    while i < count
        invariant
            i <= count,
            mask@ == stars(i as nat),
        decreases count - i,
    {
        mask.push('*');
        i += 1;
    }
    mask
}

/// Writes the four lines of the form.
pub fn form_lines(state: &AppState) -> (lines: Vec<String>)
    ensures
        lines@.len() == 4,
        forall|i: int| 0 <= i < 4 ==> (#[trigger] lines@[i])@ == form_text(state)[i],
{
    let info = match &state.error_message {
        Some(message) => String::from_str("Error: ").concat(message.as_str()),
        None => String::new(),
    };
    let username = String::from_str(" Username: ").concat(state.username.as_str());
    let password = String::from_str(" Password: ").concat(masked(&state.password).as_str());
    let mut lines: Vec<String> = Vec::new();
    lines.push(info);
    lines.push(username);
    lines.push(String::new());
    lines.push(password);
    lines
}

/// Whether `after` is `before` with the cells of `form` that lie in the
/// grid cleared to empty cells of the form, and nothing else changed.
pub open spec fn box_cleared(before: Buffer, after: Buffer, form: Area) -> bool {
    &&& changed_within(before, after, form)
    &&& forall|x: u16, y: u16|
        form.contains(x as int, y as int) && grid_area(before).contains(x as int, y as int)
            ==> #[trigger] grid_cells(after)[(x, y)] == blank_look()
}

/// Clears the cells of `form` that lie in the grid to empty cells of the
/// form.
fn clear_box(grid: &mut Buffer, form: Area)
    requires
        grid_ready(*old(grid)),
    ensures
        box_cleared(*old(grid), *final(grid), form),
        grid_ready(*final(grid)),
{
    let area = area_of(grid);
    let ghost before = *grid;
    let left: u32 = if form.x > area.x { form.x as u32 } else { area.x as u32 };
    let top: u32 = if form.y > area.y { form.y as u32 } else { area.y as u32 };
    let form_right: u32 = form.x as u32 + form.width as u32;
    let form_bottom: u32 = form.y as u32 + form.height as u32;
    let area_right: u32 = area.x as u32 + area.width as u32;
    let area_bottom: u32 = area.y as u32 + area.height as u32;
    let right: u32 = if form_right < area_right { form_right } else { area_right };
    let bottom: u32 = if form_bottom < area_bottom { form_bottom } else { area_bottom };
    let mut y: u32 = top;
    while y < bottom
        invariant
            grid_ready(before),
            area == grid_area(before),
            left == if form.x > area.x { form.x as u32 } else { area.x as u32 },
            top == if form.y > area.y { form.y as u32 } else { area.y as u32 },
            right == if form.x + form.width < area.x + area.width {
                form.x + form.width
            } else {
                area.x + area.width
            },
            bottom == if form.y + form.height < area.y + area.height {
                form.y + form.height
            } else {
                area.y + area.height
            },
            top <= y,
            changed_within(before, *grid, form),
            forall|cx: u16, cy: u16|
                left <= cx < right && top <= cy < y ==> #[trigger] grid_cells(*grid)[(cx, cy)] == (blank_look()),
        decreases bottom - y,
    {
        let mut x: u32 = left;
        while x < right
            invariant
                grid_ready(before),
                area == grid_area(before),
                left == if form.x > area.x { form.x as u32 } else { area.x as u32 },
                top == if form.y > area.y { form.y as u32 } else { area.y as u32 },
                right == if form.x + form.width < area.x + area.width {
                    form.x + form.width
                } else {
                    area.x + area.width
                },
                bottom == if form.y + form.height < area.y + area.height {
                    form.y + form.height
                } else {
                    area.y + area.height
                },
                top <= y < bottom,
                left <= x,
                changed_within(before, *grid, form),
                forall|cx: u16, cy: u16|
                    left <= cx < right && (top <= cy < y || (cy == y && cx < x))
                        ==> #[trigger] grid_cells(*grid)[(cx, cy)] == (blank_look()),
            decreases right - x,
        {
            blank(grid, x as u16, y as u16, FORM_BLANK, FORM_FOREGROUND, Ink::Code(FORM_BACKGROUND));
            x += 1;
        }
        y += 1;
    }
}

/// Whether `after` is what drawing the form into the box `form` makes of a
/// grid `before` that stores a cell for each position: `cleared` is
/// `before` with the box cleared, `framed` is `cleared` with the frame and
/// its title rendered into the box, and `after` is `framed` with the four
/// lines of the form rendered into the text area of the box, or `framed`
/// itself where the terminal library cannot lay out the lines there.
pub open spec fn form_steps(
    before: Buffer,
    cleared: Buffer,
    framed: Buffer,
    after: Buffer,
    state: &AppState,
    form: Area,
) -> bool {
    let area = grid_area(before);
    let inner = inner_area(form);
    &&& box_cleared(before, cleared, form)
    &&& changed_within(cleared, framed, form)
    &&& grid_cells(framed) == block_drawn(
        grid_cells(cleared),
        area,
        form,
        form_title(),
        FORM_FOREGROUND,
        form_background(),
    )
    &&& if text_fits(area, inner, form_text(state)) {
        &&& changed_within(framed, after, inner)
        &&& grid_cells(after) == text_drawn(
            grid_cells(framed),
            area,
            inner,
            form_text(state),
            FORM_FOREGROUND,
            form_background(),
        )
    } else {
        after == framed
    }
}

/// Whether `after` shows the form of `state` in the box `form` over
/// `before`. A grid that does not store a cell for each position of its
/// rectangle is left as it is.
pub open spec fn form_drawn(before: Buffer, after: Buffer, state: &AppState, form: Area) -> bool {
    if grid_ready(before) {
        exists|cleared: Buffer, framed: Buffer|
            form_steps(before, cleared, framed, after, state, form)
    } else {
        after == before
    }
}

/// Tells whether the terminal library can lay out `lines` in `inner`.
fn can_write(area: Area, inner: Area, lines: &Vec<String>) -> (fits: bool)
    ensures
        fits == text_fits(area, inner, texts(lines@)),
{
    if !(area.x <= inner.x && area.y <= inner.y && inner.x as u32 + inner.width as u32
        <= area.x as u32 + area.width as u32 && inner.y as u32 + inner.height as u32
        <= area.y as u32 + area.height as u32) {
        return false;
    }
    if inner.width as usize > TEXT_LIMIT {
        return false;
    }
    let mut i: usize = 0;
    while i < lines.len()
        invariant
            i <= lines.len(),
            forall|j: int| 0 <= j < i ==> byte_len(#[trigger] texts(lines@)[j]) <= TEXT_LIMIT,
        decreases lines.len() - i,
    {
        if lines[i].as_str().as_bytes().len() > TEXT_LIMIT {
            assert(byte_len(texts(lines@)[i as int]) > TEXT_LIMIT);
            return false;
        }
        i += 1;
    }
    true
}

/// Draws the form into the box `form`: the box is cleared, framed and
/// titled, and the four lines go into its text area. The cursor belongs
/// behind the focused field; it is `None` where that place has no 16-bit
/// coordinates. Nothing outside `form` is touched, and a grid that does not
/// store a cell for each position of its rectangle is not touched at all.
/// The lines stay away where the text area leaves the grid or goes, as one
/// of the lines may, beyond what the terminal library lays out.
pub fn draw_form(grid: &mut Buffer, state: &AppState, form: Area) -> (cursor: Option<(u16, u16)>)
    ensures
        changed_within(*old(grid), *final(grid), form),
        form_drawn(*old(grid), *final(grid), state, form),
        cursor_of(cursor, form, state),
{
    let title = "Lilac";
    proof {
        reveal_strlit("Lilac");
        vstd::utf8::is_ascii_chars_encode_utf8(title@);
    }
    let inner = inner_of(form, title);
    let area = area_of(grid);
    if is_ready(grid) {
        clear_box(grid, form);
        let ghost cleared = *grid;
        frame_box(grid, form, title, FORM_FOREGROUND, Ink::Code(FORM_BACKGROUND));
        let ghost framed = *grid;
        let lines = form_lines(state);
        assert(texts(lines@) =~= form_text(state));
        if can_write(area, inner, &lines) {
            write_lines(grid, inner, &lines, FORM_FOREGROUND, Ink::Code(FORM_BACKGROUND));
        }
        assert(form_steps(*old(grid), cleared, framed, *grid, state, form));
    }
    checked_cursor_position(inner.x, inner.y, state)
}

/// Whether `after` shows the screen of the login form over `before`: `fire`
/// is `before` with the background of the state's tick drawn over it, the
/// layout has put `rows` across the whole width of the grid and the box
/// `form` into `rows` at their full height, `after` is `fire` with the form
/// drawn into `form`, and `cursor` is the place behind the focused field.
pub open spec fn screen_drawn(
    before: Buffer,
    fire: Buffer,
    after: Buffer,
    state: &AppState,
    rows: Area,
    form: Area,
    cursor: Option<(u16, u16)>,
) -> bool {
    let area = grid_area(before);
    &&& background_drawn(before, fire, state.tick)
    &&& within(rows, area)
    &&& rows.x == area.x
    &&& rows.width == area.width
    &&& within(form, rows)
    &&& form.y == rows.y
    &&& form.height == rows.height
    &&& changed_within(fire, after, form)
    &&& form_drawn(fire, after, state, form)
    &&& cursor_of(cursor, form, state)
}

/// Draws the whole screen of the login form: the fire of the state's tick
/// over the grid, and the form in a box that the layout puts in the middle
/// of it. Returns where the cursor belongs. Outside that box the grid shows
/// the fire; the rectangle of the grid stays as it is.
pub fn view(grid: &mut Buffer, state: &AppState) -> (cursor: Option<(u16, u16)>)
    ensures
        grid_area(*final(grid)) == grid_area(*old(grid)),
        grid_len(*final(grid)) == grid_len(*old(grid)),
        exists|fire: Buffer, rows: Area, form: Area|
            screen_drawn(*old(grid), fire, *final(grid), state, rows, form, cursor),
{
    AppState::draw_background(grid, state.tick);
    let ghost fire = *grid;
    let area = area_of(grid);
    let rows = middle_rows(area, FORM_HEIGHT);
    let form = middle_columns(rows, FORM_WIDTH);
    let cursor = draw_form(grid, state, form);
    assert(screen_drawn(*old(grid), fire, *grid, state, rows, form, cursor));
    cursor
}

/// `Terminal::draw` on a `TestBackend` of `width_cells` by `height_cells`:
/// the screen of the login form as the terminal library composes it in
/// memory. The grid that comes back is the backend's: it starts at the
/// origin, has the size asked for and stores a cell for each position. No
/// more is claimed of it.
#[verifier::external_body]
pub fn render_to_buffer(state: &AppState, width_cells: u16, height_cells: u16) -> (grid: Buffer)
    ensures
        grid_area(grid) == (Area { x: 0, y: 0, width: width_cells, height: height_cells }),
        grid_ready(grid),
{
    let backend = TestBackend::new(width_cells, height_cells);
    let mut terminal = Terminal::new(backend).expect("failed to create ratatui terminal");
    let _ = terminal.draw(|frame| {
        view(frame.buffer_mut(), state);
    });
    terminal.backend().buffer().clone()
}

} // verus!
