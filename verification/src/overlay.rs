//! What is drawn over the terminals: dimming, selections and the cursor of
//! copy mode.

use crate::canvas;
use crate::canvas::{add_cell_modifier, covers, has_cell, set_cell_style, CellView};
use crate::geometry;
use crate::geometry::Rect;
use crate::model::{AppState, CopyMode, Mode, PaneId, PaneInfo};
use crate::style;
use crate::style::{automatic_selection_style, Palette, Rgb, Style, TerminalTheme, BOLD, DIM};
use ratatui::buffer::Buffer;
use vstd::prelude::*;

verus! {

/// A selection of text in a pane.
#[derive(Debug)]
pub struct Selection {
    pub pane_id: PaneId,
    pub visible: bool,
    /// The cells of the pane's terminal that are selected, row by row.
    pub rows: Vec<Vec<bool>>,
}

impl Selection {
    /// The cell in that row and column of the terminal is selected.
    pub open spec fn has(self, row: int, col: int) -> bool {
        &&& 0 <= row < self.rows@.len()
        &&& 0 <= col < self.rows@[row]@.len()
        &&& self.rows@[row]@[col]
    }

    /// Whether the cell in that row and column of the terminal is selected.
    pub fn contains(&self, row: u16, col: u16) -> (found: bool)
        ensures
            found == self.has(row as int, col as int),
    {
        let row: usize = row as usize;
        let col: usize = col as usize;
        row < self.rows.len() && col < self.rows[row].len() && self.rows[row][col]
    }
}

/// A cell of the grid is a selected cell of the terminal in `inner`.
pub open spec fn selected(selection: Selection, inner: Rect, x: int, y: int) -> bool {
    geometry::in_rect(inner, x, y) && selection.has(y - inner.y, x - inner.x)
}

/// The cells of a grid with the selected ones of the terminal in `inner` in the
/// given style.
pub open spec fn highlighted(
    cells: Map<(u16, u16), CellView>,
    inner: Rect,
    selection: Selection,
    style: Style,
) -> Map<(u16, u16), CellView> {
    cells.map_entries(
        |at: (u16, u16), cell: CellView|
            if selected(selection, inner, at.0 as int, at.1 as int) {
                canvas::styled(cell, style)
            } else {
                cell
            },
    )
}

/// The selected cells of the terminal in `inner` are cells that the grid holds.
pub open spec fn highlight_fits(
    cells: Map<(u16, u16), CellView>,
    inner: Rect,
    selection: Selection,
) -> bool {
    forall|row: int, col: int|
        0 <= row < inner.height && 0 <= col < inner.width && #[trigger] selection.has(row, col)
            ==> {
            &&& inner.x + col <= u16::MAX
            &&& inner.y + row <= u16::MAX
            &&& cells.contains_key(((inner.x + col) as u16, (inner.y + row) as u16))
        }
}

/// Among the first rows of the terminal in `inner`, or the first columns of the
/// next row.
spec fn passed(inner: Rect, rows: int, cols: int, x: int, y: int) -> bool {
    y - inner.y < rows || (y - inner.y == rows && x - inner.x < cols)
}

/// Gives the selected cells of the terminal in `inner` a style.
pub fn highlight_selection(buf: &mut Buffer, selection: &Selection, inner: Rect, style: Style)
    requires
        highlight_fits(canvas::buffer_cells(*old(buf)), inner, *selection),
    ensures
        canvas::buffer_area(*final(buf)) == canvas::buffer_area(*old(buf)),
        canvas::buffer_cells(*final(buf)) == highlighted(
            canvas::buffer_cells(*old(buf)),
            inner,
            *selection,
            style,
        ),
{
    let ghost before = canvas::buffer_cells(*buf);
    let mut y: u16 = 0;
    while y < inner.height
        invariant
            y <= inner.height,
            highlight_fits(before, inner, *selection),
            canvas::buffer_area(*buf) == canvas::buffer_area(*old(buf)),
            canvas::buffer_cells(*buf).dom() == before.dom(),
            forall|at: (u16, u16)|
                before.contains_key(at) ==> #[trigger] canvas::buffer_cells(*buf)[at] == (
                if selected(*selection, inner, at.0 as int, at.1 as int) && passed(
                    inner,
                    y as int,
                    0,
                    at.0 as int,
                    at.1 as int,
                ) {
                    canvas::styled(before[at], style)
                } else {
                    before[at]
                }),
        decreases inner.height - y,
    {
        let mut x: u16 = 0;
        while x < inner.width
            invariant
                y < inner.height,
                x <= inner.width,
                highlight_fits(before, inner, *selection),
                canvas::buffer_area(*buf) == canvas::buffer_area(*old(buf)),
                canvas::buffer_cells(*buf).dom() == before.dom(),
                forall|at: (u16, u16)|
                    before.contains_key(at) ==> #[trigger] canvas::buffer_cells(*buf)[at] == (
                    if selected(*selection, inner, at.0 as int, at.1 as int) && passed(
                        inner,
                        y as int,
                        x as int,
                        at.0 as int,
                        at.1 as int,
                    ) {
                        canvas::styled(before[at], style)
                    } else {
                        before[at]
                    }),
            decreases inner.width - x,
        {
            let ghost now = canvas::buffer_cells(*buf);
            if selection.contains(y, x) {
                set_cell_style(buf, inner.x + x, inner.y + y, style);
                assert(canvas::buffer_cells(*buf).dom() =~= before.dom());
            }
            assert forall|at: (u16, u16)| before.contains_key(at) implies #[trigger] canvas::buffer_cells(
                *buf,
            )[at] == (if selected(*selection, inner, at.0 as int, at.1 as int) && passed(
                inner,
                y as int,
                x + 1,
                at.0 as int,
                at.1 as int,
            ) {
                canvas::styled(before[at], style)
            } else {
                before[at]
            }) by {
                // What the invariant says of this cell.
                assert(now[at] == now[at]);
            }
            x += 1;
        }
        y += 1;
    }
    assert(canvas::buffer_cells(*buf) =~= highlighted(before, inner, *selection, style));
}

/// The cells of a grid with those of `inner` dimmed.
pub open spec fn dimmed(cells: Map<(u16, u16), CellView>, inner: Rect) -> Map<(u16, u16), CellView> {
    cells.map_entries(
        |at: (u16, u16), cell: CellView|
            if geometry::in_rect(inner, at.0 as int, at.1 as int) {
                CellView { modifier: cell.modifier | DIM, ..cell }
            } else {
                cell
            },
    )
}

/// The cells of `inner` are cells that the grid holds, and its edges are within
/// `u16`.
pub open spec fn dim_fits(cells: Map<(u16, u16), CellView>, inner: Rect) -> bool {
    &&& inner.y + inner.height <= u16::MAX
    &&& inner.height > 0 ==> inner.x + inner.width <= u16::MAX
    &&& forall|x: u16, y: u16|
        geometry::in_rect(inner, x as int, y as int) ==> #[trigger] cells.contains_key((x, y))
}

/// Dims the cells of `inner`.
pub fn dim_cells(buf: &mut Buffer, inner: Rect)
    requires
        dim_fits(canvas::buffer_cells(*old(buf)), inner),
    ensures
        canvas::buffer_area(*final(buf)) == canvas::buffer_area(*old(buf)),
        canvas::buffer_cells(*final(buf)) == dimmed(canvas::buffer_cells(*old(buf)), inner),
{
    let ghost before = canvas::buffer_cells(*buf);
    let mut y: u16 = inner.y;
    while y < inner.y + inner.height
        invariant
            dim_fits(before, inner),
            inner.y <= y <= inner.y + inner.height,
            canvas::buffer_area(*buf) == canvas::buffer_area(*old(buf)),
            canvas::buffer_cells(*buf).dom() == before.dom(),
            forall|at: (u16, u16)|
                before.contains_key(at) ==> #[trigger] canvas::buffer_cells(*buf)[at] == (
                if geometry::in_rect(inner, at.0 as int, at.1 as int) && passed(
                    inner,
                    y - inner.y,
                    0,
                    at.0 as int,
                    at.1 as int,
                ) {
                    CellView { modifier: before[at].modifier | DIM, ..before[at] }
                } else {
                    before[at]
                }),
        decreases inner.y + inner.height - y,
    {
        let mut x: u16 = inner.x;
        while x < inner.x + inner.width
            invariant
                dim_fits(before, inner),
                inner.y <= y < inner.y + inner.height,
                inner.x <= x <= inner.x + inner.width,
                canvas::buffer_area(*buf) == canvas::buffer_area(*old(buf)),
                canvas::buffer_cells(*buf).dom() == before.dom(),
                forall|at: (u16, u16)|
                    before.contains_key(at) ==> #[trigger] canvas::buffer_cells(*buf)[at] == (
                    if geometry::in_rect(inner, at.0 as int, at.1 as int) && passed(
                        inner,
                        y - inner.y,
                        x - inner.x,
                        at.0 as int,
                        at.1 as int,
                    ) {
                        CellView { modifier: before[at].modifier | DIM, ..before[at] }
                    } else {
                        before[at]
                    }),
            decreases inner.x + inner.width - x,
        {
            let ghost now = canvas::buffer_cells(*buf);
            add_cell_modifier(buf, x, y, DIM);
            assert(canvas::buffer_cells(*buf).dom() =~= before.dom());
            assert forall|at: (u16, u16)| before.contains_key(at) implies #[trigger] canvas::buffer_cells(
                *buf,
            )[at] == (if geometry::in_rect(inner, at.0 as int, at.1 as int) && passed(
                inner,
                y - inner.y,
                x + 1 - inner.x,
                at.0 as int,
                at.1 as int,
            ) {
                CellView { modifier: before[at].modifier | DIM, ..before[at] }
            } else {
                before[at]
            }) by {
                // What the invariant says of this cell.
                assert(now[at] == now[at]);
            }
            x += 1;
        }
        y += 1;
    }
    assert(canvas::buffer_cells(*buf) =~= dimmed(before, inner));
}

/// Whether the cells of `inner` can be dimmed.
pub fn can_dim(buf: &Buffer, inner: Rect) -> (fits: bool)
    ensures
        fits == dim_fits(canvas::buffer_cells(*buf), inner),
{
    if inner.height > u16::MAX - inner.y {
        return false;
    }
    if inner.height == 0 {
        return true;
    }
    if inner.width > u16::MAX - inner.x {
        return false;
    }
    let all = covers(buf, inner.x, inner.y, inner.x + inner.width, inner.y + inner.height);
    proof {
        if !all {
            let (x, y) = choose|x: u16, y: u16|
                inner.x <= x < inner.x + inner.width && inner.y <= y < inner.y + inner.height
                    && !#[trigger] canvas::buffer_cells(*buf).contains_key((x, y));
            assert(geometry::in_rect(inner, x as int, y as int));
        }
    }
    all
}

/// Whether the selected cells of the terminal in `inner` can be highlighted.
pub fn can_highlight(buf: &Buffer, inner: Rect, selection: &Selection) -> (fits: bool)
    ensures
        fits == highlight_fits(canvas::buffer_cells(*buf), inner, *selection),
{
    let ghost cells = canvas::buffer_cells(*buf);
    let mut y: u16 = 0;
    while y < inner.height
        invariant
            y <= inner.height,
            cells == canvas::buffer_cells(*buf),
            highlight_fits(cells, Rect { height: y, ..inner }, *selection),
        decreases inner.height - y,
    {
        let mut x: u16 = 0;
        while x < inner.width
            invariant
                y < inner.height,
                x <= inner.width,
                cells == canvas::buffer_cells(*buf),
                highlight_fits(cells, Rect { height: y, ..inner }, *selection),
                forall|col: int|
                    0 <= col < x && #[trigger] selection.has(y as int, col) ==> {
                        &&& inner.x + col <= u16::MAX
                        &&& inner.y + y <= u16::MAX
                        &&& cells.contains_key(((inner.x + col) as u16, (inner.y + y) as u16))
                    },
            decreases inner.width - x,
        {
            if selection.contains(y, x) {
                if x > u16::MAX - inner.x || y > u16::MAX - inner.y || !has_cell(
                    buf,
                    inner.x + x,
                    inner.y + y,
                ) {
                    assert(selection.has(y as int, x as int));
                    return false;
                }
            }
            x += 1;
        }
        y += 1;
    }
    true
}

/// `selection` is to be seen in that pane.
pub open spec fn shown_in(selection: Option<Selection>, pane_id: PaneId) -> bool {
    selection matches Some(sel) && sel.visible && sel.pane_id == pane_id
}

/// `after` is what a grid's cells become where a pane's selection, if it has
/// one to be seen, is laid over its terminal in one uniform style.
pub open spec fn selection_laid_over<F: Fn(Rgb) -> bool>(
    before: Map<(u16, u16), CellView>,
    after: Map<(u16, u16), CellView>,
    selection: Option<Selection>,
    pane_id: PaneId,
    inner: Rect,
    p: Palette,
    host_theme: TerminalTheme,
    is_dark: F,
) -> bool {
    if shown_in(selection, pane_id) {
        exists|selection_style: Style|
            {
                &&& style::selection_style_is(p, host_theme, is_dark, selection_style)
                &&& after == #[trigger] highlighted(before, inner, selection->0, selection_style)
            }
    } else {
        after == before
    }
}

/// Lays the selection over the terminal in `inner`, where it is to be seen in
/// that pane. `is_dark` tells dark colours from light ones.
pub fn render_selection_highlight<F: Fn(Rgb) -> bool>(
    selection: &Option<Selection>,
    buf: &mut Buffer,
    pane_id: PaneId,
    inner: Rect,
    p: &Palette,
    host_theme: TerminalTheme,
    is_dark: &F,
)
    requires
        shown_in(*selection, pane_id) ==> highlight_fits(
            canvas::buffer_cells(*old(buf)),
            inner,
            selection->0,
        ),
        forall|rgb: Rgb| call_requires(*is_dark, (rgb,)),
    ensures
        canvas::buffer_area(*final(buf)) == canvas::buffer_area(*old(buf)),
        selection_laid_over(
            canvas::buffer_cells(*old(buf)),
            canvas::buffer_cells(*final(buf)),
            *selection,
            pane_id,
            inner,
            *p,
            host_theme,
            *is_dark,
        ),
{
    if let Some(sel) = selection {
        if sel.visible && sel.pane_id == pane_id {
            let selection_style = automatic_selection_style(p, host_theme, is_dark);
            highlight_selection(buf, sel, inner, selection_style);
        }
    }
}

/// The style of the cursor of copy mode.
pub open spec fn cursor_style(p: Palette) -> Style {
    Style {
        fg: Some(p.panel_contrast_fg),
        bg: Some(p.accent),
        underline_color: None,
        add_modifier: BOLD,
        sub_modifier: 0,
    }
}

/// The cell of copy mode's cursor, where it is in that pane's terminal.
pub open spec fn cursor_cell(
    mode: Mode,
    copy_mode: Option<CopyMode>,
    info: PaneInfo,
) -> Option<(int, int)> {
    match copy_mode {
        Some(copy) => if mode == Mode::Copy && copy.pane_id == info.id && copy.cursor_row
            < info.inner_rect.height && copy.cursor_col < info.inner_rect.width {
            Some((info.inner_rect.x + copy.cursor_col, info.inner_rect.y + copy.cursor_row))
        } else {
            None
        },
        None => None,
    }
}

/// The cells of a grid with copy mode's cursor drawn, where it is in that
/// pane's terminal.
pub open spec fn cursor_drawn(
    cells: Map<(u16, u16), CellView>,
    app: AppState,
    info: PaneInfo,
) -> Map<(u16, u16), CellView> {
    match cursor_cell(app.mode, app.copy_mode, info) {
        Some((x, y)) => cells.insert(
            (x as u16, y as u16),
            canvas::styled(cells[(x as u16, y as u16)], cursor_style(app.palette)),
        ),
        None => cells,
    }
}

/// The cell of copy mode's cursor is a cell that the grid holds.
pub open spec fn cursor_fits(cells: Map<(u16, u16), CellView>, app: AppState, info: PaneInfo) -> bool {
    cursor_cell(app.mode, app.copy_mode, info) matches Some((x, y)) ==> {
        &&& x <= u16::MAX
        &&& y <= u16::MAX
        &&& cells.contains_key((x as u16, y as u16))
    }
}

/// Whether the cursor of copy mode can be drawn, where it is in that pane's
/// terminal.
pub fn can_draw_cursor(app: &AppState, buf: &Buffer, info: &PaneInfo) -> (fits: bool)
    ensures
        fits == cursor_fits(canvas::buffer_cells(*buf), *app, *info),
{
    match app.copy_mode {
        Some(copy) => {
            let inner = info.inner_rect;
            if app.mode != Mode::Copy || copy.pane_id != info.id || copy.cursor_row >= inner.height
                || copy.cursor_col >= inner.width {
                return true;
            }
            copy.cursor_col <= u16::MAX - inner.x && copy.cursor_row <= u16::MAX - inner.y
                && has_cell(buf, inner.x + copy.cursor_col, inner.y + copy.cursor_row)
        },
        None => true,
    }
}

/// Draws the cursor of copy mode, where it is in that pane's terminal.
pub fn render_copy_mode_cursor(app: &AppState, buf: &mut Buffer, info: &PaneInfo)
    requires
        cursor_fits(canvas::buffer_cells(*old(buf)), *app, *info),
    ensures
        canvas::buffer_area(*final(buf)) == canvas::buffer_area(*old(buf)),
        canvas::buffer_cells(*final(buf)) == cursor_drawn(
            canvas::buffer_cells(*old(buf)),
            *app,
            *info,
        ),
{
    if app.mode != Mode::Copy {
        return;
    }
    let copy_mode = match app.copy_mode {
        Some(copy_mode) => copy_mode,
        None => return,
    };
    if copy_mode.pane_id != info.id || copy_mode.cursor_row >= info.inner_rect.height
        || copy_mode.cursor_col >= info.inner_rect.width {
        return;
    }
    let x: u16 = info.inner_rect.x + copy_mode.cursor_col;
    let y: u16 = info.inner_rect.y + copy_mode.cursor_row;
    let cursor = Style::new().fg(app.palette.panel_contrast_fg).bg(app.palette.accent).add_modifier(
        BOLD,
    );
    proof {
        assert(0u16 | 0x001u16 == 0x001u16 && 0u16 & !0x001u16 == 0u16) by (bit_vector);
    }
    set_cell_style(buf, x, y, cursor);
}

/// Selected text looks the same whatever was drawn before: two cells with
/// nothing but known modifiers end in the same colours and modifiers.
pub proof fn selection_is_uniform(first: CellView, second: CellView, fg: style::Color, bg: style::Color)
    requires
        first.modifier & !style::ALL_MODIFIERS == 0,
        second.modifier & !style::ALL_MODIFIERS == 0,
    ensures
        canvas::styled(first, style::selected_style(fg, bg)) == (CellView {
            symbol: first.symbol,
            ..canvas::styled(second, style::selected_style(fg, bg))
        }),
        canvas::styled(first, style::selected_style(fg, bg)).fg == fg,
        canvas::styled(first, style::selected_style(fg, bg)).bg == bg,
        canvas::styled(first, style::selected_style(fg, bg)).modifier == 0,
{
    let one = first.modifier;
    let two = second.modifier;
    assert(((one | 0u16) & !0x1ffu16) == one & !0x1ffu16) by (bit_vector);
    assert(((two | 0u16) & !0x1ffu16) == two & !0x1ffu16) by (bit_vector);
}

/// Highlighting, dimming and the cursor of copy mode change no text, and
/// nothing outside the terminal that they are laid over.
pub proof fn overlays_keep_text_and_surroundings(
    cells: Map<(u16, u16), CellView>,
    app: AppState,
    info: PaneInfo,
    selection: Selection,
    selection_style: Style,
    at: (u16, u16),
)
    requires
        cells.contains_key(at),
        cursor_fits(cells, app, info),
    ensures
        highlighted(cells, info.inner_rect, selection, selection_style)[at].symbol
            == cells[at].symbol,
        dimmed(cells, info.inner_rect)[at].symbol == cells[at].symbol,
        cursor_drawn(cells, app, info)[at].symbol == cells[at].symbol,
        !geometry::in_rect(info.inner_rect, at.0 as int, at.1 as int) ==> {
            &&& highlighted(cells, info.inner_rect, selection, selection_style)[at] == cells[at]
            &&& dimmed(cells, info.inner_rect)[at] == cells[at]
            &&& cursor_drawn(cells, app, info)[at] == cells[at]
        },
{
}

} // verus!
