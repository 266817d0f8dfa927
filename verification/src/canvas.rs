//! The grid of cells that panes are drawn on, and the drawing that is left to
//! ratatui: single cells, boxes and paragraphs.

use crate::geometry;
use crate::geometry::Rect;
use crate::label;
use crate::style::{Color, Style};
use ratatui::buffer::Buffer;
use ratatui::layout::Rect as NativeRect;
use ratatui::style::Color as NativeColor;
use ratatui::style::Modifier;
use ratatui::style::Style as NativeStyle;
use ratatui::symbols::border::Set as NativeSet;
use ratatui::text::{Line, Span};
use ratatui::widgets::{Block, Borders, Paragraph, Widget};
use vstd::prelude::*;

verus! {

/// What a cell shows: its text, colours and modifiers.
#[verifier::ext_equal]
pub struct CellView {
    pub symbol: Seq<char>,
    pub fg: Color,
    pub bg: Color,
    pub underline_color: Color,
    pub modifier: u16,
}

/// ratatui's grid of cells.
#[verifier::external_type_specification]
#[verifier::external_body]
pub struct ExBuffer(Buffer);

/// ratatui's colour.
#[verifier::external_type_specification]
#[verifier::external_body]
pub struct ExColor(NativeColor);

/// ratatui's style.
#[verifier::external_type_specification]
#[verifier::external_body]
pub struct ExStyle(NativeStyle);

/// The area that a grid says it covers.
pub uninterp spec fn buffer_area(buf: Buffer) -> Rect;

/// The cells that a grid holds: those that can be had by their position.
pub uninterp spec fn buffer_cells(buf: Buffer) -> Map<(u16, u16), CellView>;

/// `cell` with `style` laid over it: the colours that the style names, and its
/// modifiers added and taken away.
pub open spec fn styled(cell: CellView, style: Style) -> CellView {
    CellView {
        symbol: cell.symbol,
        fg: match style.fg {
            Some(color) => color,
            None => cell.fg,
        },
        bg: match style.bg {
            Some(color) => color,
            None => cell.bg,
        },
        underline_color: match style.underline_color {
            Some(color) => color,
            None => cell.underline_color,
        },
        modifier: (cell.modifier | style.add_modifier) & !style.sub_modifier,
    }
}

/// `ratatui::style::Color`: the variant of the same name, with the same
/// numbers. Trusted in what is drawn with the result.
#[verifier::external_body]
fn native_color(color: Color) -> NativeColor {
    match color {
        Color::Reset => NativeColor::Reset, Color::Black => NativeColor::Black,
        Color::Red => NativeColor::Red, Color::Green => NativeColor::Green,
        Color::Yellow => NativeColor::Yellow, Color::Blue => NativeColor::Blue,
        Color::Magenta => NativeColor::Magenta, Color::Cyan => NativeColor::Cyan,
        Color::Gray => NativeColor::Gray, Color::DarkGray => NativeColor::DarkGray,
        Color::LightRed => NativeColor::LightRed, Color::LightGreen => NativeColor::LightGreen,
        Color::LightYellow => NativeColor::LightYellow, Color::LightBlue => NativeColor::LightBlue,
        Color::LightMagenta => NativeColor::LightMagenta,
        Color::LightCyan => NativeColor::LightCyan, Color::White => NativeColor::White,
        Color::Rgb(r, g, b) => NativeColor::Rgb(r, g, b),
        Color::Indexed(i) => NativeColor::Indexed(i),
    }
}

/// `ratatui::style::Style`: the same colours, and the modifiers of the same
/// bits. Trusted in what is drawn with the result.
#[verifier::external_body]
fn native_style(style: Style) -> NativeStyle {
    let mut native = NativeStyle::new();
    native.fg = style.fg.map(native_color);
    native.bg = style.bg.map(native_color);
    native.underline_color = style.underline_color.map(native_color);
    native.add_modifier = Modifier::from_bits_retain(style.add_modifier);
    native.sub_modifier = Modifier::from_bits_retain(style.sub_modifier);
    native
}

/// Calls `Buffer::area`. Trusted: it hands out the area of the grid.
#[verifier::external_body]
pub(crate) fn area_of(buf: &Buffer) -> (area: Rect)
    ensures
        area == buffer_area(*buf),
{
    let r = buf.area();
    Rect { x: r.x, y: r.y, width: r.width, height: r.height }
}

/// Calls `Buffer::cell`. Trusted: it finds the cells that the grid holds, and
/// no others.
#[verifier::external_body]
pub(crate) fn has_cell(buf: &Buffer, x: u16, y: u16) -> (found: bool)
    ensures
        found == buffer_cells(*buf).contains_key((x, y)),
{
    buf.cell((x, y)).is_some()
}

/// Calls `Cell::set_char` on one cell of the grid. Trusted: the cell then shows
/// that character alone, and nothing else changes.
#[verifier::external_body]
pub(crate) fn set_cell_char(buf: &mut Buffer, x: u16, y: u16, ch: char)
    requires
        buffer_cells(*old(buf)).contains_key((x, y)),
    ensures
        buffer_area(*final(buf)) == buffer_area(*old(buf)),
        buffer_cells(*final(buf)) == buffer_cells(*old(buf)).insert(
            (x, y),
            CellView { symbol: seq![ch], ..buffer_cells(*old(buf))[(x, y)] },
        ),
{
    buf[(x, y)].set_char(ch);
}

/// Calls `Cell::set_style` on one cell of the grid. Trusted: the cell takes the
/// colours and modifiers of the style as `styled` says, and nothing else
/// changes.
#[verifier::external_body]
pub(crate) fn set_cell_style(buf: &mut Buffer, x: u16, y: u16, style: Style)
    requires
        buffer_cells(*old(buf)).contains_key((x, y)),
    ensures
        buffer_area(*final(buf)) == buffer_area(*old(buf)),
        buffer_cells(*final(buf)) == buffer_cells(*old(buf)).insert(
            (x, y),
            styled(buffer_cells(*old(buf))[(x, y)], style),
        ),
{
    buf[(x, y)].set_style(native_style(style));
}

/// Calls `Cell::style` on one cell of the grid, `Style::add_modifier` on the
/// result and `Cell::set_style` with what that gives. Trusted: the cell has the
/// modifiers of those bits added, and nothing else changes.
#[verifier::external_body]
pub(crate) fn add_cell_modifier(buf: &mut Buffer, x: u16, y: u16, modifier: u16)
    requires
        buffer_cells(*old(buf)).contains_key((x, y)),
    ensures
        buffer_area(*final(buf)) == buffer_area(*old(buf)),
        buffer_cells(*final(buf)) == buffer_cells(*old(buf)).insert(
            (x, y),
            CellView {
                modifier: buffer_cells(*old(buf))[(x, y)].modifier | modifier,
                ..buffer_cells(*old(buf))[(x, y)]
            },
        ),
{
    let cell = &mut buf[(x, y)];
    cell.set_style(cell.style().add_modifier(Modifier::from_bits_retain(modifier)));
}

/// Whether a border is drawn with light or with heavy lines.
#[derive(Clone, Copy, Debug, PartialEq, Eq, Structural)]
pub enum PaneBorderStyle {
    Thick,
    Plain,
}

/// The pieces of a border.
#[derive(Debug)]
pub struct BorderSet {
    pub top_left: String,
    pub top_right: String,
    pub bottom_left: String,
    pub bottom_right: String,
    pub vertical_left: String,
    pub vertical_right: String,
    pub horizontal_top: String,
    pub horizontal_bottom: String,
}

/// The texts of the pieces of a border.
#[verifier::ext_equal]
pub struct BorderSymbols {
    pub top_left: Seq<char>,
    pub top_right: Seq<char>,
    pub bottom_left: Seq<char>,
    pub bottom_right: Seq<char>,
    pub vertical_left: Seq<char>,
    pub vertical_right: Seq<char>,
    pub horizontal_top: Seq<char>,
    pub horizontal_bottom: Seq<char>,
}

impl View for BorderSet {
    type V = BorderSymbols;

    open spec fn view(&self) -> BorderSymbols {
        BorderSymbols {
            top_left: self.top_left@,
            top_right: self.top_right@,
            bottom_left: self.bottom_left@,
            bottom_right: self.bottom_right@,
            vertical_left: self.vertical_left@,
            vertical_right: self.vertical_right@,
            horizontal_top: self.horizontal_top@,
            horizontal_bottom: self.horizontal_bottom@,
        }
    }
}

/// The pieces of a border in the given style.
pub open spec fn border_symbols(style: PaneBorderStyle) -> BorderSymbols {
    match style {
        PaneBorderStyle::Thick => BorderSymbols {
            top_left: seq!['┏'],
            top_right: seq!['┓'],
            bottom_left: seq!['┗'],
            bottom_right: seq!['┛'],
            vertical_left: seq!['┃'],
            vertical_right: seq!['┃'],
            horizontal_top: seq!['━'],
            horizontal_bottom: seq!['━'],
        },
        PaneBorderStyle::Plain => BorderSymbols {
            top_left: seq!['┌'],
            top_right: seq!['┐'],
            bottom_left: seq!['└'],
            bottom_right: seq!['┘'],
            vertical_left: seq!['│'],
            vertical_right: seq!['│'],
            horizontal_top: seq!['─'],
            horizontal_bottom: seq!['─'],
        },
    }
}

/// Reads `ratatui::symbols::border::THICK`. Trusted: its pieces are the heavy
/// box drawing characters.
#[verifier::external_body]
fn thick_border_set() -> (set: BorderSet)
    ensures
        set@ == border_symbols(PaneBorderStyle::Thick),
{
    BorderSet {
        top_left: ratatui::symbols::border::THICK.top_left.to_string(),
        top_right: ratatui::symbols::border::THICK.top_right.to_string(),
        bottom_left: ratatui::symbols::border::THICK.bottom_left.to_string(),
        bottom_right: ratatui::symbols::border::THICK.bottom_right.to_string(),
        vertical_left: ratatui::symbols::border::THICK.vertical_left.to_string(),
        vertical_right: ratatui::symbols::border::THICK.vertical_right.to_string(),
        horizontal_top: ratatui::symbols::border::THICK.horizontal_top.to_string(),
        horizontal_bottom: ratatui::symbols::border::THICK.horizontal_bottom.to_string(),
    }
}

/// Reads `ratatui::symbols::border::PLAIN`. Trusted: its pieces are the light
/// box drawing characters.
#[verifier::external_body]
fn plain_border_set() -> (set: BorderSet)
    ensures
        set@ == border_symbols(PaneBorderStyle::Plain),
{
    BorderSet {
        top_left: ratatui::symbols::border::PLAIN.top_left.to_string(),
        top_right: ratatui::symbols::border::PLAIN.top_right.to_string(),
        bottom_left: ratatui::symbols::border::PLAIN.bottom_left.to_string(),
        bottom_right: ratatui::symbols::border::PLAIN.bottom_right.to_string(),
        vertical_left: ratatui::symbols::border::PLAIN.vertical_left.to_string(),
        vertical_right: ratatui::symbols::border::PLAIN.vertical_right.to_string(),
        horizontal_top: ratatui::symbols::border::PLAIN.horizontal_top.to_string(),
        horizontal_bottom: ratatui::symbols::border::PLAIN.horizontal_bottom.to_string(),
    }
}

/// The pieces of a border in the configured style.
pub fn border_set_for_style(style: &PaneBorderStyle) -> (set: BorderSet)
    ensures
        set@ == border_symbols(*style),
{
    match style {
        PaneBorderStyle::Thick => thick_border_set(),
        PaneBorderStyle::Plain => plain_border_set(),
    }
}

/// The first column right of `rect`, at most `u16::MAX`.
pub open spec fn right_of(rect: Rect) -> int {
    if rect.x + rect.width <= u16::MAX {
        rect.x + rect.width
    } else {
        u16::MAX as int
    }
}

/// The first row below `rect`, at most `u16::MAX`.
pub open spec fn below(rect: Rect) -> int {
    if rect.y + rect.height <= u16::MAX {
        rect.y + rect.height
    } else {
        u16::MAX as int
    }
}

/// A grid of that area holds every cell of it.
pub open spec fn whole(area: Rect, cells: Map<(u16, u16), CellView>) -> bool {
    forall|x: u16, y: u16|
        area.x <= x < right_of(area) && area.y <= y < below(area)
            ==> #[trigger] cells.contains_key((x, y))
}

/// A grid holds every cell between those columns and rows.
pub open spec fn covered(
    cells: Map<(u16, u16), CellView>,
    left: int,
    top: int,
    right: int,
    bottom: int,
) -> bool {
    forall|x: u16, y: u16|
        left <= x < right && top <= y < bottom ==> #[trigger] cells.contains_key((x, y))
}

/// Whether a grid holds every cell between those columns and rows.
pub fn covers(buf: &Buffer, left: u16, top: u16, right: u16, bottom: u16) -> (all: bool)
    ensures
        all == covered(
            buffer_cells(*buf),
            left as int,
            top as int,
            right as int,
            bottom as int,
        ),
{
    let mut y: u16 = top;
    while y < bottom
        invariant
            top <= y,
            covered(buffer_cells(*buf), left as int, top as int, right as int, y as int),
        decreases bottom - y,
    {
        let mut x: u16 = left;
        while x < right
            invariant
                top <= y < bottom,
                left <= x,
                covered(buffer_cells(*buf), left as int, top as int, right as int, y as int),
                covered(buffer_cells(*buf), left as int, y as int, x as int, y + 1),
            decreases right - x,
        {
            if !has_cell(buf, x, y) {
                return false;
            }
            x += 1;
        }
        y += 1;
    }
    true
}

/// Whether a grid holds every cell of its area.
pub fn is_whole(buf: &Buffer) -> (all: bool)
    ensures
        all == whole(buffer_area(*buf), buffer_cells(*buf)),
{
    let area = area_of(buf);
    let right: u16 = area.x.saturating_add(area.width);
    let bottom: u16 = area.y.saturating_add(area.height);
    let all = covers(buf, area.x, area.y, right, bottom);
    proof {
        if all {
            assert forall|x: u16, y: u16|
                area.x <= x < right_of(area) && area.y <= y < below(
                    area,
                ) implies #[trigger] buffer_cells(*buf).contains_key((x, y)) by {}
        } else if whole(area, buffer_cells(*buf)) {
            assert forall|x: u16, y: u16|
                area.x <= x < right && area.y <= y < bottom implies #[trigger] buffer_cells(
                *buf,
            ).contains_key((x, y)) by {}
        }
    }
    all
}

/// The edges of what two rectangles share: left, top, and the last column and
/// row.
pub open spec fn shared_edges(a: Rect, b: Rect) -> (int, int, int, int) {
    (
        if a.x >= b.x {
            a.x as int
        } else {
            b.x as int
        },
        if a.y >= b.y {
            a.y as int
        } else {
            b.y as int
        },
        if right_of(a) <= right_of(b) {
            right_of(a) - 1
        } else {
            right_of(b) - 1
        },
        if below(a) <= below(b) {
            below(a) - 1
        } else {
            below(b) - 1
        },
    )
}

/// How many columns two rectangles share.
pub open spec fn shared_columns(a: Rect, b: Rect) -> int {
    let edges = shared_edges(a, b);
    if edges.0 <= edges.2 {
        edges.2 - edges.0 + 1
    } else {
        0
    }
}

/// How many columns two rectangles share.
pub fn columns_shared(a: Rect, b: Rect) -> (columns: u16)
    ensures
        columns == shared_columns(a, b),
{
    let left: u16 = if a.x >= b.x {
        a.x
    } else {
        b.x
    };
    let a_right: u16 = a.x.saturating_add(a.width);
    let b_right: u16 = b.x.saturating_add(b.width);
    let right: u16 = if a_right <= b_right {
        a_right
    } else {
        b_right
    };
    right.saturating_sub(left)
}

/// The piece of a border with those edges in a cell on it.
pub open spec fn border_piece(
    symbols: BorderSymbols,
    edges: (int, int, int, int),
    x: int,
    y: int,
) -> Seq<char> {
    let (left, top, right, bottom) = edges;
    if x == left && y == top {
        symbols.top_left
    } else if x == left && y == bottom {
        symbols.bottom_left
    } else if x == right && y == top {
        symbols.top_right
    } else if x == right && y == bottom {
        symbols.bottom_right
    } else if y == bottom {
        symbols.horizontal_bottom
    } else if x == right {
        symbols.vertical_right
    } else if y == top {
        symbols.horizontal_top
    } else {
        symbols.vertical_left
    }
}

/// A cell is on the edges of a rectangle.
pub open spec fn on_edges(edges: (int, int, int, int), x: int, y: int) -> bool {
    let (left, top, right, bottom) = edges;
    &&& left <= x <= right
    &&& top <= y <= bottom
    &&& (x == left || x == right || y == top || y == bottom)
}

/// The cells of a grid with a box drawn along the edges of what `rect` shares
/// with it.
pub open spec fn boxed(
    area: Rect,
    cells: Map<(u16, u16), CellView>,
    rect: Rect,
    symbols: BorderSymbols,
    style: Style,
) -> Map<(u16, u16), CellView> {
    let edges = shared_edges(rect, area);
    cells.map_entries(
        |at: (u16, u16), cell: CellView|
            if on_edges(edges, at.0 as int, at.1 as int) {
                styled(
                    CellView {
                        symbol: border_piece(symbols, edges, at.0 as int, at.1 as int),
                        ..cell
                    },
                    style,
                )
            } else {
                cell
            },
    )
}

/// ratatui's pieces of a border.
#[verifier::external_type_specification]
#[verifier::external_body]
pub struct ExSet<'a>(NativeSet<'a>);

/// `ratatui::symbols::border::Set`: the same pieces. Trusted in what is drawn
/// with the result.
#[verifier::external_body]
fn native_set<'a>(set: &'a BorderSet) -> NativeSet<'a> {
    NativeSet {
        top_left: &set.top_left,
        top_right: &set.top_right,
        bottom_left: &set.bottom_left,
        bottom_right: &set.bottom_right,
        vertical_left: &set.vertical_left,
        vertical_right: &set.vertical_right,
        horizontal_top: &set.horizontal_top,
        horizontal_bottom: &set.horizontal_bottom,
    }
}

/// Renders a `ratatui::widgets::Block` with borders on all four sides. Trusted:
/// the pieces go along the edges of what `rect` shares with the grid, in the
/// given style, and nothing else changes.
#[verifier::external_body]
pub(crate) fn draw_box(buf: &mut Buffer, rect: Rect, set: &BorderSet, style: Style)
    requires
        whole(buffer_area(*old(buf)), buffer_cells(*old(buf))),
    ensures
        buffer_area(*final(buf)) == buffer_area(*old(buf)),
        buffer_cells(*final(buf)) == boxed(
            buffer_area(*old(buf)),
            buffer_cells(*old(buf)),
            rect,
            set@,
            style,
        ),
{
    let native = NativeRect { x: rect.x, y: rect.y, width: rect.width, height: rect.height };
    Block::default()
        .borders(Borders::ALL)
        .border_style(native_style(style))
        .border_set(native_set(set))
        .render(native, buf);
}

/// The cells of a grid with a titled box drawn on it.
pub uninterp spec fn titled_box(
    area: Rect,
    cells: Map<(u16, u16), CellView>,
    rect: Rect,
    symbols: BorderSymbols,
    style: Style,
    title: Seq<char>,
) -> Map<(u16, u16), CellView>;

/// A cell is on the top edge, between the corners: where a title goes.
pub open spec fn on_title_row(edges: (int, int, int, int), x: int, y: int) -> bool {
    edges.0 < x < edges.2 && y == edges.1 <= edges.3
}

/// `cell` with the character at `k` of a row of styled ones, where there is one.
pub open spec fn text_cell(cell: CellView, text: Seq<(char, Style)>, k: int) -> CellView {
    if 0 <= k < text.len() {
        styled(CellView { symbol: seq![text[k].0], ..cell }, text[k].1)
    } else {
        cell
    }
}

/// The characters of a run, each in its style.
pub open spec fn run_chars(run: (Seq<char>, Style)) -> Seq<(char, Style)> {
    run.0.map_values(|c: char| (c, run.1))
}

/// The cells of a grid with a box drawn on it whose title has one cell for each
/// character, from behind the left corner up to the right one.
pub open spec fn plain_titled_box(
    area: Rect,
    cells: Map<(u16, u16), CellView>,
    rect: Rect,
    symbols: BorderSymbols,
    style: Style,
    title: Seq<char>,
) -> Map<(u16, u16), CellView> {
    let edges = shared_edges(rect, area);
    boxed(area, cells, rect, symbols, style).map_entries(
        |at: (u16, u16), cell: CellView|
            if on_title_row(edges, at.0 as int, at.1 as int) {
                text_cell(cell, run_chars((title, style)), at.0 - edges.0 - 1)
            } else {
                cell
            },
    )
}

/// Renders a `ratatui::widgets::Block` with borders on all four sides and a
/// title in the style of the borders. Trusted: what it draws follows from the
/// grid and the arguments alone, a title of plain characters has one cell for
/// each, and off the title's place everything is what the box without a title
/// would be. Left unsaid is how other graphemes fall into cells.
#[verifier::external_body]
pub(crate) fn draw_titled_box(
    buf: &mut Buffer,
    rect: Rect,
    set: &BorderSet,
    style: Style,
    title: &str,
)
    requires
        whole(buffer_area(*old(buf)), buffer_cells(*old(buf))),
    ensures
        buffer_area(*final(buf)) == buffer_area(*old(buf)),
        buffer_cells(*final(buf)) == titled_box(
            buffer_area(*old(buf)),
            buffer_cells(*old(buf)),
            rect,
            set@,
            style,
            title@,
        ),
        label::is_plain_text(title@) ==> buffer_cells(*final(buf)) == plain_titled_box(
            buffer_area(*old(buf)),
            buffer_cells(*old(buf)),
            rect,
            set@,
            style,
            title@,
        ),
        buffer_cells(*final(buf)).dom() == buffer_cells(*old(buf)).dom(),
        forall|x: u16, y: u16|
            buffer_cells(*old(buf)).contains_key((x, y)) && !on_title_row(
                shared_edges(rect, buffer_area(*old(buf))),
                x as int,
                y as int,
            ) ==> #[trigger] buffer_cells(*final(buf))[(x, y)] == boxed(
                buffer_area(*old(buf)),
                buffer_cells(*old(buf)),
                rect,
                set@,
                style,
            )[(x, y)],
{
    let native = NativeRect { x: rect.x, y: rect.y, width: rect.width, height: rect.height };
    Block::default()
        .borders(Borders::ALL)
        .border_style(native_style(style))
        .border_set(native_set(set))
        .title(Line::from(Span::styled(title, native_style(style))))
        .render(native, buf);
}

/// A run of text in one style.
#[derive(Debug)]
pub struct StyledText {
    pub text: String,
    pub style: Style,
}

impl View for StyledText {
    type V = (Seq<char>, Style);

    open spec fn view(&self) -> (Seq<char>, Style) {
        (self.text@, self.style)
    }
}

/// The texts and styles of the runs of a paragraph, line by line.
pub open spec fn paragraph_view(lines: Seq<Vec<StyledText>>) -> Seq<Seq<(Seq<char>, Style)>> {
    lines.map_values(|line: Vec<StyledText>| line@.map_values(|run: StyledText| run@))
}

/// The cells of a grid with a boxed paragraph drawn on it.
pub uninterp spec fn boxed_paragraph(
    area: Rect,
    cells: Map<(u16, u16), CellView>,
    rect: Rect,
    lines: Seq<Seq<(Seq<char>, Style)>>,
    border: Style,
) -> Map<(u16, u16), CellView>;

/// The characters of a line, each in the style of its run.
pub open spec fn line_chars(line: Seq<(Seq<char>, Style)>) -> Seq<(char, Style)> {
    line.map_values(|run: (Seq<char>, Style)| run_chars(run)).flatten()
}

/// A line of nothing but plain characters.
pub open spec fn is_plain_line(line: Seq<(Seq<char>, Style)>) -> bool {
    forall|j: int| 0 <= j < line.len() ==> label::is_plain_text((#[trigger] line[j]).0)
}

/// The most characters of a line whose width stays within `u16` whatever they
/// are: a character adds at most three columns.
pub const SHORT_LINE: usize = 21845;

/// The widths of the characters of each line can be added within `u16`: the
/// columns for them are few, or every line is plain or short.
pub open spec fn widths_fit(columns: int, lines: Seq<Seq<(Seq<char>, Style)>>) -> bool {
    columns <= i16::MAX || forall|i: int|
        0 <= i < lines.len() ==> is_plain_line(#[trigger] lines[i]) || line_chars(lines[i]).len()
            <= SHORT_LINE
}

/// A cell is inside a box with those edges, where text goes.
pub open spec fn inside_edges(edges: (int, int, int, int), x: int, y: int) -> bool {
    edges.0 < x < edges.2 && edges.1 < y < edges.3
}

/// A cell is on the row of a line that holds other than plain characters, in a
/// box with those edges.
pub open spec fn on_uneven_row(
    edges: (int, int, int, int),
    lines: Seq<Seq<(Seq<char>, Style)>>,
    x: int,
    y: int,
) -> bool {
    &&& inside_edges(edges, x, y)
    &&& y - edges.1 - 1 < lines.len()
    &&& !is_plain_line(lines[y - edges.1 - 1])
}

/// The cells of a grid with a plain box drawn on it and the lines inside, from
/// the top left on, one cell for each character.
pub open spec fn plain_paragraph(
    area: Rect,
    cells: Map<(u16, u16), CellView>,
    rect: Rect,
    lines: Seq<Seq<(Seq<char>, Style)>>,
    border: Style,
) -> Map<(u16, u16), CellView> {
    let edges = shared_edges(rect, area);
    boxed(area, cells, rect, border_symbols(PaneBorderStyle::Plain), border).map_entries(
        |at: (u16, u16), cell: CellView|
            if inside_edges(edges, at.0 as int, at.1 as int) && at.1 - edges.1 - 1 < lines.len() {
                text_cell(cell, line_chars(lines[at.1 - edges.1 - 1]), at.0 - edges.0 - 1)
            } else {
                cell
            },
    )
}

/// Renders a `ratatui::widgets::Paragraph` of those lines in a block with plain
/// borders on all four sides. Trusted: what it draws follows from the grid and
/// the arguments alone, the border is a plain box, a line of plain characters has
/// one cell for each whatever the other lines hold, and nothing outside the box
/// changes. Left unsaid is how other graphemes fall into the cells of their own
/// row. ratatui adds the width of a grapheme to that of its line in `u16`, up to
/// the columns that `rect` shares with the grid, and no character adds more than
/// the three columns of unicode-width's widest, so `widths_fit` bounds the sum.
#[verifier::external_body]
pub(crate) fn draw_paragraph(
    buf: &mut Buffer,
    rect: Rect,
    lines: &Vec<Vec<StyledText>>,
    border: Style,
)
    requires
        whole(buffer_area(*old(buf)), buffer_cells(*old(buf))),
        widths_fit(shared_columns(rect, buffer_area(*old(buf))), paragraph_view(lines@)),
    ensures
        buffer_area(*final(buf)) == buffer_area(*old(buf)),
        buffer_cells(*final(buf)) == boxed_paragraph(
            buffer_area(*old(buf)),
            buffer_cells(*old(buf)),
            rect,
            paragraph_view(lines@),
            border,
        ),
        buffer_cells(*final(buf)).dom() == buffer_cells(*old(buf)).dom(),
        forall|x: u16, y: u16|
            buffer_cells(*old(buf)).contains_key((x, y)) && !on_uneven_row(
                shared_edges(rect, buffer_area(*old(buf))),
                paragraph_view(lines@),
                x as int,
                y as int,
            ) ==> #[trigger] buffer_cells(*final(buf))[(x, y)] == plain_paragraph(
                buffer_area(*old(buf)),
                buffer_cells(*old(buf)),
                rect,
                paragraph_view(lines@),
                border,
            )[(x, y)],
{
    let native = NativeRect { x: rect.x, y: rect.y, width: rect.width, height: rect.height };
    let text: Vec<Line> = lines
        .iter()
        .map(|line| {
            let runs = line.iter().map(|run| Span::styled(run.text.as_str(), native_style(run.style)));
            Line::from(runs.collect::<Vec<Span>>())
        })
        .collect();
    let block = Block::default().borders(Borders::ALL).border_style(native_style(border));
    Paragraph::new(text).block(block).render(native, buf);
}

/// The box of a pane that lies on the grid keeps to the pane's outermost cells:
/// no cell of the room inside is on the box.
pub proof fn box_keeps_off_the_room(area: Rect, rect: Rect, x: int, y: int)
    requires
        area.x <= rect.x,
        area.y <= rect.y,
        rect.x + rect.width <= right_of(area),
        rect.y + rect.height <= below(area),
        geometry::in_rect(geometry::bordered_inner(rect), x, y),
    ensures
        !on_edges(shared_edges(rect, area), x, y),
{
}

} // verus!
