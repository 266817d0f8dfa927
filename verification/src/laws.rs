//! What the operations of the library are for, told of their inputs and results
//! cell by cell, field by field and character by character.

use crate::canvas;
use crate::canvas::{CellView, PaneBorderStyle};
use crate::geometry;
use crate::geometry::{Direction, Rect, SplitBorder};
use crate::junction;
use crate::label;
use crate::lines;
use crate::model::{
    AppState, HostCellSize, Mode, PaneBorderMode, PaneId, PaneInfo, PaneRuntimes, ResizeRequest, Tab,
    TerminalId, TerminalRuntime, TerminalRuntimeRegistry,
};
use crate::overlay;
use crate::overlay::Selection;
use crate::placement;
use crate::render;
use crate::render::{BorderColors, PaneContent, RenderEvent, RenderRequest};
use crate::style;
use crate::style::{BorderColorConfig, Color, Palette, Rgb, Style, TerminalTheme};
use vstd::prelude::*;

verus! {

/// A text that fits is kept whole. One that does not keeps as many of its first
/// characters as leave room for one ellipsis, which comes last.
pub proof fn cut_labels_keep_their_beginning(text: Seq<char>, max_width: nat)
    ensures
        text.len() <= max_width ==> label::truncated(text, max_width) == text,
        text.len() > max_width ==> label::truncated(text, max_width).len() == max_width,
        text.len() > max_width && max_width > 0 ==> label::truncated(text, max_width).last() == '…',
        forall|i: int|
            text.len() > max_width && 0 <= i < max_width - 1
                ==> #[trigger] label::truncated(text, max_width)[i] == text[i],
{
}

/// Trimming takes a run of white space off each end of a text and nothing else:
/// what is left stands in the text between two such runs.
pub proof fn trimming_takes_white_ends(text: Seq<char>) -> (ends: (int, int))
    ensures
        0 <= ends.0 <= ends.1 <= text.len(),
        label::trimmed(text) == text.subrange(ends.0, ends.1),
        forall|i: int|
            0 <= i < ends.0 || ends.1 <= i < text.len() ==> label::is_white_space(
                #[trigger] text[i],
            ),
        ends.0 < ends.1 ==> !label::is_white_space(text[ends.0]) && !label::is_white_space(
            text[ends.1 - 1],
        ),
{
    let start = start_of(text);
    let rest = text.subrange(start, text.len() as int);
    let end = end_of(rest);
    let ends = (start, start + end);
    assert(rest.subrange(0, end) =~= text.subrange(ends.0, ends.1));
    assert forall|i: int| 0 <= i < ends.0 || ends.1 <= i < text.len() implies label::is_white_space(
        #[trigger] text[i],
    ) by {
        if ends.1 <= i {
            assert(rest[i - start] == text[i]);
        }
    }
    if ends.0 < ends.1 {
        assert(rest[end - 1] == text[ends.1 - 1]);
    }
    ends
}

proof fn start_of(text: Seq<char>) -> (start: int)
    ensures
        0 <= start <= text.len(),
        label::trimmed_start(text) == text.subrange(start, text.len() as int),
        forall|i: int| 0 <= i < start ==> label::is_white_space(#[trigger] text[i]),
        start < text.len() ==> !label::is_white_space(text[start]),
    decreases text.len(),
{
    if text.len() > 0 && label::is_white_space(text.first()) {
        let rest = text.drop_first();
        let start = start_of(rest);
        assert(rest.subrange(start, rest.len() as int) =~= text.subrange(
            start + 1,
            text.len() as int,
        ));
        assert forall|i: int| 0 <= i < start + 1 implies label::is_white_space(
            #[trigger] text[i],
        ) by {
            if i > 0 {
                assert(rest[i - 1] == text[i]);
            }
        }
        start + 1
    } else {
        assert(text.subrange(0, text.len() as int) =~= text);
        0
    }
}

proof fn end_of(text: Seq<char>) -> (end: int)
    ensures
        0 <= end <= text.len(),
        label::trimmed_end(text) == text.subrange(0, end),
        forall|i: int| end <= i < text.len() ==> label::is_white_space(#[trigger] text[i]),
        end > 0 ==> !label::is_white_space(text[end - 1]),
    decreases text.len(),
{
    if text.len() > 0 && label::is_white_space(text.last()) {
        let rest = text.drop_last();
        let end = end_of(rest);
        assert(rest.subrange(0, end) =~= text.subrange(0, end));
        assert forall|i: int| end <= i < text.len() implies label::is_white_space(
            #[trigger] text[i],
        ) by {
            if i < rest.len() {
                assert(rest[i] == text[i]);
            }
        }
        end
    } else {
        assert(text.subrange(0, text.len() as int) =~= text);
        text.len() as int
    }
}

/// A label that is more than white space has a title on every border of more
/// than four columns, and no other label has one on any. A trimmed label of at
/// most four characters less than the border stands whole in its title, between
/// two spaces. A longer one fills the border between its corners: a space, the
/// label's beginning, an ellipsis and a space.
pub proof fn titles_show_what_the_border_has_room_for(text: Seq<char>, pane_width: u16)
    ensures
        label::border_title(text, pane_width) is Some <==> label::trimmed(text).len() > 0
            && pane_width > 4,
        label::border_title(text, pane_width) matches Some(title) ==> {
            let kept = label::trimmed(text);
            &&& title.first() == ' ' && title.last() == ' '
            &&& kept.len() <= pane_width - 4 ==> title.subrange(1, title.len() - 1) == kept
            &&& kept.len() > pane_width - 4 ==> {
                &&& title.len() == pane_width - 2
                &&& title.subrange(1, pane_width - 4) == kept.take(pane_width - 5)
                &&& title[pane_width - 4] == '…'
            }
        },
{
    if let Some(title) = label::border_title(text, pane_width) {
        let kept = label::trimmed(text);
        if kept.len() <= pane_width - 4 {
            assert(title.subrange(1, title.len() - 1) =~= kept);
        } else {
            assert(title.subrange(1, pane_width - 4) =~= kept.take(pane_width - 5));
        }
    }
}

/// White space around a label makes no difference to its title.
pub proof fn titles_ignore_white_space_around(text: Seq<char>, c: char, pane_width: u16)
    requires
        label::is_white_space(c),
    ensures
        label::border_title(seq![c] + text, pane_width) == label::border_title(text, pane_width),
        text.len() > 0 ==> label::border_title(text.push(c), pane_width) == label::border_title(
            text,
            pane_width,
        ),
{
    assert((seq![c] + text).drop_first() =~= text);
    assert(label::trimmed_start(seq![c] + text) == label::trimmed_start(text));
    trimmed_start_before_white(text, c);
}

proof fn trimmed_start_before_white(text: Seq<char>, c: char)
    requires
        label::is_white_space(c),
    ensures
        label::trimmed(text.push(c)) == label::trimmed(text),
    decreases text.len(),
{
    if text.len() > 0 && label::is_white_space(text.first()) {
        assert(text.push(c).drop_first() =~= text.drop_first().push(c));
        trimmed_start_before_white(text.drop_first(), c);
    } else if text.len() > 0 {
        assert(text.push(c).drop_last() =~= text);
    } else {
        assert(text.push(c).drop_first() =~= text);
    }
}

/// The arms of a box drawing character: up, down, left, right.
pub open spec fn arms(c: char) -> (bool, bool, bool, bool) {
    if c == '│' || c == '┃' {
        (true, true, false, false)
    } else if c == '─' || c == '━' {
        (false, false, true, true)
    } else if c == '├' || c == '┣' {
        (true, true, false, true)
    } else if c == '┤' || c == '┫' {
        (true, true, true, false)
    } else if c == '┬' || c == '┳' {
        (false, true, true, true)
    } else if c == '┴' || c == '┻' {
        (true, false, true, true)
    } else if c == '┼' || c == '╋' {
        (true, true, true, true)
    } else {
        (false, false, false, false)
    }
}

/// A heavy box drawing character.
pub open spec fn is_heavy(c: char) -> bool {
    c == '┃' || c == '━' || c == '┣' || c == '┫' || c == '┳' || c == '┻' || c == '╋'
}

/// Where three or four lines meet, the arms of the character point exactly at
/// the neighbours that carry them. A corner is drawn as a crossing. Where lines
/// of one kind meet, the character is that of a line of that kind, and the
/// fallback where none do. Junctions are heavy exactly where they are to be
/// thick.
pub proof fn junction_arms_point_at_lines(
    v_above: bool,
    v_below: bool,
    h_left: bool,
    h_right: bool,
    vert_ch: char,
    horiz_ch: char,
    thick: bool,
    fallback: char,
)
    requires
        vert_ch == if thick { '┃' } else { '│' },
        horiz_ch == if thick { '━' } else { '─' },
    ensures
        ({
            let c = junction::junction(
                v_above,
                v_below,
                h_left,
                h_right,
                vert_ch,
                horiz_ch,
                thick,
                fallback,
            );
            let vertical = v_above || v_below;
            let horizontal = h_left || h_right;
            &&& vertical && horizontal && (v_above && v_below || h_left && h_right) ==> arms(c) == (
                v_above,
                v_below,
                h_left,
                h_right,
            )
            &&& vertical && horizontal && !(v_above && v_below) && !(h_left && h_right) ==> arms(c)
                == (true, true, true, true)
            &&& vertical && !horizontal ==> arms(c) == (true, true, false, false)
            &&& !vertical && horizontal ==> arms(c) == (false, false, true, true)
            &&& !vertical && !horizontal ==> c == fallback
            &&& vertical || horizontal ==> is_heavy(c) == thick
        }),
{
}

/// The rectangle that is made keeps its corner, and its size as far as it ends
/// within `u16`; a larger one ends exactly there.
pub proof fn made_rectangles_end_within_u16(x: u16, y: u16, width: u16, height: u16)
    ensures
        ({
            let rect = geometry::clamped_rect(x, y, width, height);
            &&& rect.x == x && rect.y == y
            &&& rect.x + rect.width == if x + width <= u16::MAX { x + width } else { u16::MAX as int }
            &&& rect.y + rect.height == if y + height <= u16::MAX {
                y + height
            } else {
                u16::MAX as int
            }
        }),
{
}

/// A frame takes exactly the outermost cells of its area, and without one the
/// whole area is left.
pub proof fn frames_take_the_outermost_cells(area: Rect, framed: bool, x: int, y: int)
    requires
        area.x < u16::MAX,
        area.y < u16::MAX,
    ensures
        ({
            let inner = geometry::framed_inner(area, framed);
            let inside = inner.x <= x < inner.x + inner.width && inner.y <= y < inner.y
                + inner.height;
            &&& !framed ==> inner == area
            &&& framed && area.width >= 2 && area.height >= 2 ==> {
                &&& inside <==> area.x < x < area.x + area.width - 1 && area.y < y < area.y
                    + area.height - 1
                &&& inner.width == area.width - 2 && inner.height == area.height - 2
            }
            &&& framed && (area.width < 2 || area.height < 2) ==> !inside
        }),
{
}

/// A terminal fills a room of more than four columns but for its last one, and a
/// narrower room wholly.
pub proof fn terminals_leave_the_last_column(room: Rect, x: int, y: int)
    requires
        room.x + room.width <= u16::MAX,
        room.y + room.height <= u16::MAX,
    ensures
        ({
            let inner = geometry::terminal_inner(room);
            let inside = inner.x <= x < inner.x + inner.width && inner.y <= y < inner.y
                + inner.height;
            let in_room = room.x <= x < room.x + room.width && room.y <= y < room.y + room.height;
            &&& room.width > 4 ==> (inside <==> in_room && x != room.x + room.width - 1)
            &&& room.width <= 4 ==> inner == room
            &&& inner.height == room.height
            &&& inner.x == room.x && inner.y == room.y
        }),
{
}

/// A split line between left and right stands in column `x`, beside some row of
/// `pane`.
pub open spec fn column_line_beside(splits: Seq<SplitBorder>, pane: Rect, x: int) -> bool {
    exists|i: int|
        0 <= i < splits.len() && (#[trigger] splits[i]).direction == Direction::Horizontal
            && splits[i].pos == x && splits[i].area.y < pane.y + pane.height && pane.y
            < splits[i].area.y + splits[i].area.height
}

/// A split line between top and bottom stands in row `y`, beside some column of
/// `pane`.
pub open spec fn row_line_beside(splits: Seq<SplitBorder>, pane: Rect, y: int) -> bool {
    exists|i: int|
        0 <= i < splits.len() && (#[trigger] splits[i]).direction == Direction::Vertical
            && splits[i].pos == y && splits[i].area.x < pane.x + pane.width && pane.x
            < splits[i].area.x + splits[i].area.width
}

/// In line mode the cells of a pane's room are the pane's cells but for the first
/// and last columns and rows with a split line beside the pane at that edge.
pub proof fn line_rooms_give_up_edges_with_lines(
    pane: Rect,
    splits: Seq<SplitBorder>,
    x: int,
    y: int,
)
    requires
        geometry::line_inner_fits(pane, splits),
    ensures
        ({
            let room = geometry::line_inner(pane, splits);
            let left: int = if column_line_beside(splits, pane, pane.x as int) { 1 } else { 0 };
            let right: int = if column_line_beside(splits, pane, pane.x + pane.width) {
                1
            } else {
                0
            };
            let top: int = if row_line_beside(splits, pane, pane.y as int) { 1 } else { 0 };
            let bottom: int = if row_line_beside(splits, pane, pane.y + pane.height) {
                1
            } else {
                0
            };
            &&& (room.x <= x < room.x + room.width && room.y <= y < room.y + room.height) <==> (
            pane.x + left <= x < pane.x + pane.width - right && pane.y + top <= y < pane.y
                + pane.height - bottom)
            &&& room.x == pane.x + left && room.y == pane.y + top
            &&& pane.width >= left + right ==> room.width == pane.width - left - right
            &&& pane.height >= top + bottom ==> room.height == pane.height - top - bottom
        }),
{
    let d = Direction::Horizontal;
    let e = Direction::Vertical;
    edges_agree(pane, splits, pane.x as int, pane.y as int);
    edges_agree(pane, splits, pane.x + pane.width, pane.y + pane.height);
    assert(geometry::shares_line(splits, pane, d, pane.x as int) == column_line_beside(
        splits,
        pane,
        pane.x as int,
    ));
    assert(geometry::shares_line(splits, pane, e, pane.y as int) == row_line_beside(
        splits,
        pane,
        pane.y as int,
    ));
}

proof fn edges_agree(pane: Rect, splits: Seq<SplitBorder>, x: int, y: int)
    ensures
        geometry::shares_line(splits, pane, Direction::Horizontal, x) == column_line_beside(
            splits,
            pane,
            x,
        ),
        geometry::shares_line(splits, pane, Direction::Vertical, y) == row_line_beside(
            splits,
            pane,
            y,
        ),
{
    if geometry::shares_line(splits, pane, Direction::Horizontal, x) {
        let i = choose|i: int|
            0 <= i < splits.len() && geometry::runs_along(
                #[trigger] splits[i],
                pane,
                Direction::Horizontal,
                x,
            );
        assert(splits[i].direction == Direction::Horizontal);
    }
    if geometry::shares_line(splits, pane, Direction::Vertical, y) {
        let i = choose|i: int|
            0 <= i < splits.len() && geometry::runs_along(
                #[trigger] splits[i],
                pane,
                Direction::Vertical,
                y,
            );
        assert(splits[i].direction == Direction::Vertical);
    }
    if column_line_beside(splits, pane, x) {
        let i = choose|i: int|
            0 <= i < splits.len() && (#[trigger] splits[i]).direction == Direction::Horizontal
                && splits[i].pos == x && splits[i].area.y < pane.y + pane.height && pane.y
                < splits[i].area.y + splits[i].area.height;
        assert(geometry::runs_along(splits[i], pane, Direction::Horizontal, x));
    }
    if row_line_beside(splits, pane, y) {
        let i = choose|i: int|
            0 <= i < splits.len() && (#[trigger] splits[i]).direction == Direction::Vertical
                && splits[i].pos == y && splits[i].area.x < pane.x + pane.width && pane.x
                < splits[i].area.x + splits[i].area.width;
        assert(geometry::runs_along(splits[i], pane, Direction::Vertical, y));
    }
}

/// A pane that ends within `u16`, and whose corner is not its last cell there,
/// has a room in line mode whatever the split lines.
pub proof fn panes_on_screens_have_line_rooms(pane: Rect, splits: Seq<SplitBorder>)
    requires
        pane.x + pane.width <= u16::MAX,
        pane.y + pane.height <= u16::MAX,
        pane.x < u16::MAX,
        pane.y < u16::MAX,
    ensures
        geometry::line_inner_fits(pane, splits),
{
}

/// `app` shows `tab`.
pub open spec fn shows_tab(app: AppState, tab: Tab) -> bool {
    app.active matches Some(index) && index < app.workspaces@.len()
        && app.workspaces@[index as int] == tab
}

/// `info` has its terminal and scrollbar in what margins of those widths (left,
/// right, top, bottom) leave of `base`: a running terminal leaves the last column
/// free where there are more than four, and its scrollbar is that column while it
/// has scrollback to show.
pub open spec fn fills(
    info: PaneInfo,
    base: Rect,
    margins: (int, int, int, int),
    runtimes: Map<u32, TerminalRuntime>,
) -> bool {
    let columns = base.width - margins.0 - margins.1;
    let running = runtimes.contains_key(info.id.raw);
    let kept: int = if running && columns > 4 { 1 } else { 0 };
    &&& info.inner_rect.x == base.x + margins.0
    &&& info.inner_rect.y == base.y + margins.2
    &&& info.inner_rect.width == columns - kept
    &&& info.inner_rect.height == base.height - margins.2 - margins.3
    &&& info.scrollbar_rect is Some <==> running && columns > 4 && (
    runtimes[info.id.raw].scroll_metrics matches Some(metrics) && metrics.shows_scrollbar)
    &&& info.scrollbar_rect matches Some(bar) ==> {
        &&& bar.x == info.inner_rect.x + info.inner_rect.width
        &&& bar.y == info.inner_rect.y
        &&& bar.width == 1
        &&& bar.height == info.inner_rect.height
    }
}

/// `base` ends within `u16` and is at least as large as the margins.
pub open spec fn has_margins(base: Rect, margins: (int, int, int, int)) -> bool {
    &&& base.x + base.width <= u16::MAX
    &&& base.y + base.height <= u16::MAX
    &&& margins.0 + margins.1 <= base.width
    &&& margins.2 + margins.3 <= base.height
}

/// A zoomed tab shows its focused pane alone, over the whole area. Its terminal
/// fills the area but for the scrollbar's column. Only in box mode, and where the
/// tab has more than one pane, is there a frame of one cell around it.
pub proof fn zoomed_panes_fill_the_area(
    app: AppState,
    tab: Tab,
    pane_runtimes: PaneRuntimes,
    area: Rect,
    splits: Seq<SplitBorder>,
)
    requires
        shows_tab(app, tab),
        tab.zoomed,
    ensures
        ({
            let placed = placement::placed_panes(app, pane_runtimes, area, splits);
            let framed = tab.layout.pane_count > 1 && app.pane_border_mode == PaneBorderMode::Box;
            let margins: (int, int, int, int) = if framed { (1, 1, 1, 1) } else { (0, 0, 0, 0) };
            &&& placed.len() == 1
            &&& placed[0].id == tab.layout.focused
            &&& placed[0].rect == area
            &&& placed[0].is_focused
            &&& area.width < margins.0 + margins.1 ==> placed[0].inner_rect.width == 0
            &&& area.height < margins.2 + margins.3 ==> placed[0].inner_rect.height == 0
            &&& has_margins(area, margins) ==> fills(
                placed[0],
                area,
                margins,
                pane_runtimes.runtimes@,
            )
        }),
{
}

/// A tab that is not zoomed shows all panes of its tiling, in order and where the
/// tiling puts them. Among others a pane has a frame of one cell in box mode, and
/// in line mode a free column or row along each edge with a split line beside it.
/// In every other case the terminal has the whole area. A pane that is too small
/// for what goes around its terminal has none left.
pub proof fn tiled_panes_fill_their_tiles(
    app: AppState,
    tab: Tab,
    pane_runtimes: PaneRuntimes,
    area: Rect,
    splits: Seq<SplitBorder>,
    k: int,
)
    requires
        shows_tab(app, tab),
        !tab.zoomed,
        0 <= k < tab.layout.panes@.len(),
        placement::placing_fits(app, pane_runtimes, area, splits),
    ensures
        ({
            let placed = placement::placed_panes(app, pane_runtimes, area, splits);
            let tile = tab.layout.panes@[k];
            let apart = tab.layout.pane_count > 1 && app.pane_border_mode != PaneBorderMode::Off;
            let base = if apart { tile.rect } else { area };
            let line = |beside: bool| if beside { 1int } else { 0int };
            let margins: (int, int, int, int) = if !apart {
                (0, 0, 0, 0)
            } else if app.pane_border_mode == PaneBorderMode::Box {
                (1, 1, 1, 1)
            } else {
                (
                    line(column_line_beside(splits, base, base.x as int)),
                    line(column_line_beside(splits, base, base.x + base.width)),
                    line(row_line_beside(splits, base, base.y as int)),
                    line(row_line_beside(splits, base, base.y + base.height)),
                )
            };
            &&& placed.len() == tab.layout.panes@.len()
            &&& placed[k].id == tile.id
            &&& placed[k].rect == tile.rect
            &&& placed[k].is_focused == tile.is_focused
            &&& base.width < margins.0 + margins.1 ==> placed[k].inner_rect.width == 0
            &&& base.height < margins.2 + margins.3 ==> placed[k].inner_rect.height == 0
            &&& has_margins(base, margins) ==> fills(
                placed[k],
                base,
                margins,
                pane_runtimes.runtimes@,
            )
        }),
{
    let tile = tab.layout.panes@[k];
    assert(placement::shown_panes(tab, area, app.pane_border_mode, splits)[k].id == tile.id);
    if tab.layout.pane_count > 1 && app.pane_border_mode == PaneBorderMode::Line {
        assert(geometry::line_inner_fits(tile.rect, splits));
        line_rooms_give_up_edges_with_lines(tile.rect, splits, 0, 0);
    }
}

/// Without a workspace to show nothing is placed and nothing resized.
pub proof fn no_workspace_places_nothing(
    app: AppState,
    pane_runtimes: PaneRuntimes,
    area: Rect,
    resize_panes: bool,
    cell_size: HostCellSize,
    splits: Seq<SplitBorder>,
)
    requires
        app.active is None || app.active->0 >= app.workspaces@.len(),
    ensures
        placement::placed_panes(app, pane_runtimes, area, splits).len() == 0,
        placement::sizes_where_asked(
            app,
            pane_runtimes,
            area,
            resize_panes,
            cell_size,
            splits,
        ).len() == 0,
{
}

/// The new sizes that placing panes asks for, against the panes that it places:
/// one for each that runs, has a terminal and is not locked, in the order of the
/// panes, with the rows and columns of the pane's terminal. Where no sizes are
/// asked for there are none.
pub proof fn sizes_are_those_of_the_placed_terminals(
    app: AppState,
    tab: Tab,
    pane_runtimes: PaneRuntimes,
    area: Rect,
    cell_size: HostCellSize,
    splits: Seq<SplitBorder>,
)
    requires
        shows_tab(app, tab),
    ensures
        placement::sizes_where_asked(app, pane_runtimes, area, false, cell_size, splits).len() == 0,
        placement::sizes_where_asked(app, pane_runtimes, area, true, cell_size, splits)
            == placement::placed_panes(app, pane_runtimes, area, splits).filter(
            |info: PaneInfo|
                pane_runtimes.runtimes@.contains_key(info.id.raw) && tab.terminals@.contains_key(
                    info.id.raw,
                ) && !app.direct_attach_resize_locks@.contains(tab.terminals@[info.id.raw].raw),
        ).map_values(
            |info: PaneInfo|
                ResizeRequest {
                    pane_id: info.id,
                    rows: info.inner_rect.height,
                    cols: info.inner_rect.width,
                    cell_width_px: cell_size.width_px,
                    cell_height_px: cell_size.height_px,
                },
        ),
{
    sizes_of_shown_panes(
        placement::shown_panes(tab, area, app.pane_border_mode, splits),
        pane_runtimes.runtimes@,
        tab.terminals@,
        app.direct_attach_resize_locks@,
        cell_size,
    );
}

proof fn sizes_of_shown_panes(
    panes: Seq<placement::ShownPane>,
    runtimes: Map<u32, TerminalRuntime>,
    terminals: Map<u32, TerminalId>,
    locks: Set<u64>,
    cell_size: HostCellSize,
)
    ensures
        placement::resize_requests(panes, runtimes.dom(), terminals, locks, cell_size)
            == panes.map_values(
            |pane: placement::ShownPane| placement::placed(pane, runtimes),
        ).filter(
            |info: PaneInfo|
                runtimes.contains_key(info.id.raw) && terminals.contains_key(info.id.raw)
                    && !locks.contains(terminals[info.id.raw].raw),
        ).map_values(
            |info: PaneInfo|
                ResizeRequest {
                    pane_id: info.id,
                    rows: info.inner_rect.height,
                    cols: info.inner_rect.width,
                    cell_width_px: cell_size.width_px,
                    cell_height_px: cell_size.height_px,
                },
        ),
    decreases panes.len(),
{
    reveal(Seq::filter);
    let place = |pane: placement::ShownPane| placement::placed(pane, runtimes);
    let due = |info: PaneInfo|
        runtimes.contains_key(info.id.raw) && terminals.contains_key(info.id.raw)
            && !locks.contains(terminals[info.id.raw].raw);
    let ask = |info: PaneInfo|
        ResizeRequest {
            pane_id: info.id,
            rows: info.inner_rect.height,
            cols: info.inner_rect.width,
            cell_width_px: cell_size.width_px,
            cell_height_px: cell_size.height_px,
        };
    if panes.len() > 0 {
        sizes_of_shown_panes(panes.drop_last(), runtimes, terminals, locks, cell_size);
        let all = panes.map_values(place);
        assert(all.drop_last() =~= panes.drop_last().map_values(place));
        assert(all.last() == placement::placed(panes.last(), runtimes));
        let before = all.drop_last().filter(due);
        if due(all.last()) {
            assert(all.filter(due) == before.push(all.last()));
            assert(before.push(all.last()).map_values(ask) =~= before.map_values(ask).push(
                ask(all.last()),
            ));
        } else {
            assert(all.filter(due) == before);
        }
    } else {
        assert(panes.map_values(place).filter(due).map_values(ask) =~= seq![]);
    }
}

/// Resizing a tab in the background asks for the sizes that placing its panes
/// would ask for if it were shown, between its own split lines and with the same
/// borders and locks, where the same of its panes have running terminals.
pub proof fn background_sizes_are_those_of_the_shown_tab(
    app: AppState,
    shown: AppState,
    registry: TerminalRuntimeRegistry,
    tab: Tab,
    pane_runtimes: PaneRuntimes,
    area: Rect,
    cell_size: HostCellSize,
)
    requires
        shows_tab(shown, tab),
        shown.pane_border_mode == app.pane_border_mode,
        shown.direct_attach_resize_locks@ == app.direct_attach_resize_locks@,
        forall|pane: u32| #[trigger]
            tab.terminals@.contains_key(pane) ==> (pane_runtimes.runtimes@.contains_key(pane)
                <==> registry.runtimes@.contains_key(tab.terminals@[pane].raw)),
    ensures
        placement::resize_requests(
            placement::shown_panes(tab, area, app.pane_border_mode, tab.layout.splits@),
            placement::running_in_tab(registry, tab),
            tab.terminals@,
            app.direct_attach_resize_locks@,
            cell_size,
        ) == placement::sizes_where_asked(
            shown,
            pane_runtimes,
            area,
            true,
            cell_size,
            tab.layout.splits@,
        ),
{
    assert forall|pane: PaneId| #[trigger] tab.terminals@.contains_key(pane.raw) implies (
    pane_runtimes.runtimes@.contains_key(pane.raw) <==> placement::tab_runtime(
        registry,
        tab,
        pane,
    ) is Some) by {}
    placement::background_resize_matches_shown(shown, registry, tab, pane_runtimes, area, cell_size);
}

/// The runtime of a pane is found exactly where the pane has a terminal and that
/// terminal runs, and is that terminal's own.
pub proof fn found_runtimes_are_the_terminals_own(
    registry: TerminalRuntimeRegistry,
    tab: Tab,
    pane: PaneId,
)
    ensures
        placement::tab_runtime(registry, tab, pane) is None <==> !tab.terminals@.contains_key(
            pane.raw,
        ) || !registry.runtimes@.contains_key(tab.terminals@[pane.raw].raw),
        placement::tab_runtime(registry, tab, pane) matches Some((terminal, rt)) ==> {
            &&& tab.terminals@[pane.raw] == terminal
            &&& registry.runtimes@[terminal.raw] == rt
        },
{
}

/// Panes can be placed wherever the area and the tiles of the tab end within
/// `u16` and have their corners before its last column and row.
pub proof fn panes_on_screens_can_be_placed(
    app: AppState,
    tab: Tab,
    pane_runtimes: PaneRuntimes,
    area: Rect,
    splits: Seq<SplitBorder>,
)
    requires
        shows_tab(app, tab),
        on_screen(area),
        forall|k: int|
            0 <= k < tab.layout.panes@.len() ==> on_screen((#[trigger] tab.layout.panes@[k]).rect),
    ensures
        placement::placing_fits(app, pane_runtimes, area, splits),
        placement::tiling_fits(tab, app.pane_border_mode, splits),
{
    let shown = placement::shown_panes(tab, area, app.pane_border_mode, splits);
    assert forall|k: int| 0 <= k < shown.len() implies placement::gutter_fits(
        (#[trigger] shown[k]).room,
    ) by {
        if !tab.zoomed {
            let tile = tab.layout.panes@[k];
            assert(shown[k].rect == tile.rect);
            line_rooms_give_up_edges_with_lines(tile.rect, splits, 0, 0);
        }
    }
}

/// `rect` ends within `u16`, and its corner is before the last column and row.
pub open spec fn on_screen(rect: Rect) -> bool {
    &&& rect.x + rect.width <= u16::MAX
    &&& rect.y + rect.height <= u16::MAX
    &&& rect.x < u16::MAX
    &&& rect.y < u16::MAX
}

/// A line between left and right runs through the cell in column `x` and row `y`
/// of a grid of that size.
pub open spec fn column_line_at(splits: Seq<SplitBorder>, grid: Rect, x: int, y: int) -> bool {
    &&& 0 <= x < grid.width
    &&& 0 <= y < grid.height
    &&& exists|i: int|
        0 <= i < splits.len() && (#[trigger] splits[i]).direction == Direction::Horizontal
            && splits[i].pos == x && splits[i].area.y <= y < splits[i].area.y
            + splits[i].area.height
}

/// A line between top and bottom runs through the cell in column `x` and row `y`
/// of a grid of that size.
pub open spec fn row_line_at(splits: Seq<SplitBorder>, grid: Rect, x: int, y: int) -> bool {
    &&& 0 <= x < grid.width
    &&& 0 <= y < grid.height
    &&& exists|i: int|
        0 <= i < splits.len() && (#[trigger] splits[i]).direction == Direction::Vertical
            && splits[i].pos == y && splits[i].area.x <= x < splits[i].area.x
            + splits[i].area.width
}

proof fn lines_agree(splits: Seq<SplitBorder>, grid: Rect, x: int, y: int)
    ensures
        lines::on_lines(splits, Direction::Horizontal, grid.width, grid.height, x, y)
            == column_line_at(splits, grid, x, y),
        lines::on_lines(splits, Direction::Vertical, grid.width, grid.height, x, y) == row_line_at(
            splits,
            grid,
            x,
            y,
        ),
{
    if lines::on_lines(splits, Direction::Horizontal, grid.width, grid.height, x, y) {
        let i = choose|i: int|
            0 <= i < splits.len() && (#[trigger] splits[i]).direction == Direction::Horizontal
                && lines::on_split(splits[i], grid.width, grid.height, x, y);
        assert(splits[i].pos == x);
    }
    if lines::on_lines(splits, Direction::Vertical, grid.width, grid.height, x, y) {
        let i = choose|i: int|
            0 <= i < splits.len() && (#[trigger] splits[i]).direction == Direction::Vertical
                && lines::on_split(splits[i], grid.width, grid.height, x, y);
        assert(splits[i].pos == y);
    }
    if column_line_at(splits, grid, x, y) {
        let i = choose|i: int|
            0 <= i < splits.len() && (#[trigger] splits[i]).direction == Direction::Horizontal
                && splits[i].pos == x && splits[i].area.y <= y < splits[i].area.y
                + splits[i].area.height;
        assert(lines::on_split(splits[i], grid.width, grid.height, x, y));
    }
    if row_line_at(splits, grid, x, y) {
        let i = choose|i: int|
            0 <= i < splits.len() && (#[trigger] splits[i]).direction == Direction::Vertical
                && splits[i].pos == y && splits[i].area.x <= x < splits[i].area.x
                + splits[i].area.width;
        assert(lines::on_split(splits[i], grid.width, grid.height, x, y));
    }
}

/// What a cell with a split line shows. Where three or four lines meet, the arms
/// of its character point exactly at the neighbours that carry one: the cell
/// above and the cell below for lines between left and right, the cells beside it
/// for lines between top and bottom. A corner is drawn as a crossing, and a cell
/// that lines of one kind meet as such a line. A cell that no line meets shows
/// the line that it is on itself. All of it is heavy in the thick style, and
/// light in the plain one. A cell without a split line stays as it is.
pub proof fn split_lines_join_their_neighbours(
    grid: Rect,
    cells: Map<(u16, u16), CellView>,
    panes: Seq<PaneInfo>,
    splits: Seq<SplitBorder>,
    style: PaneBorderStyle,
    active: Color,
    inactive: Color,
    at: (u16, u16),
)
    requires
        cells.contains_key(at),
    ensures
        ({
            let look = lines::line_look(canvas::border_symbols(style), style, active, inactive);
            let drawn = lines::split_lines_drawn(grid, cells, panes, splits, look)[at];
            let x = at.0 as int;
            let y = at.1 as int;
            let up = column_line_at(splits, grid, x, y - 1);
            let down = column_line_at(splits, grid, x, y + 1);
            let left = row_line_at(splits, grid, x - 1, y);
            let right = row_line_at(splits, grid, x + 1, y);
            let on_column = column_line_at(splits, grid, x, y);
            let on_row = row_line_at(splits, grid, x, y);
            let thick = style == PaneBorderStyle::Thick;
            &&& !on_column && !on_row ==> drawn == cells[at]
            &&& on_column || on_row ==> {
                let c = drawn.symbol[0];
                &&& drawn.symbol.len() == 1
                &&& is_heavy(c) == thick
                &&& (up || down) && (left || right) && (up && down || left && right) ==> arms(c)
                    == (up, down, left, right)
                &&& (up || down) && (left || right) && !(up && down) && !(left && right) ==> arms(c)
                    == (true, true, true, true)
                &&& (up || down) && !left && !right ==> arms(c) == (true, true, false, false)
                &&& !up && !down && (left || right) ==> arms(c) == (false, false, true, true)
                &&& !up && !down && !left && !right ==> arms(c) == (
                    on_column,
                    on_column,
                    !on_column,
                    !on_column,
                )
                &&& left && right && down && !up ==> c == if thick { '┳' } else { '┬' }
                &&& left && right && up && !down ==> c == if thick { '┻' } else { '┴' }
                &&& up && down && right && !left ==> c == if thick { '┣' } else { '├' }
                &&& up && down && left && !right ==> c == if thick { '┫' } else { '┤' }
                &&& drawn.bg == cells[at].bg
                &&& drawn.underline_color == cells[at].underline_color
                &&& drawn.modifier == cells[at].modifier
                &&& drawn.fg == active || drawn.fg == inactive
            }
        }),
{
    let x = at.0 as int;
    let y = at.1 as int;
    lines_agree(splits, grid, x, y);
    lines_agree(splits, grid, x, y - 1);
    lines_agree(splits, grid, x, y + 1);
    lines_agree(splits, grid, x - 1, y);
    lines_agree(splits, grid, x + 1, y);
    let modifier = cells[at].modifier;
    assert((modifier | 0u16) & !0u16 == modifier) by (bit_vector);
}

/// The pane with index `k` is the first of a list that has the focus.
pub open spec fn is_first_focused(panes: Seq<PaneInfo>, k: int) -> bool {
    &&& 0 <= k < panes.len()
    &&& panes[k].is_focused
    &&& forall|j: int| 0 <= j < k ==> !(#[trigger] panes[j]).is_focused
}

/// The cell in column `x` and row `y` is on a line that stands at an edge of
/// `rect`, and along `rect` or one cell beyond it.
pub open spec fn on_line_along(splits: Seq<SplitBorder>, rect: Rect, x: int, y: int) -> bool {
    exists|i: int|
        {
            &&& 0 <= i < splits.len()
            &&& match (#[trigger] splits[i]).direction {
                Direction::Horizontal => {
                    &&& splits[i].pos == x
                    &&& splits[i].area.y <= y < splits[i].area.y + splits[i].area.height
                    &&& x == rect.x || x == rect.x + rect.width
                    &&& rect.y <= y <= rect.y + rect.height
                },
                Direction::Vertical => {
                    &&& splits[i].pos == y
                    &&& splits[i].area.x <= x < splits[i].area.x + splits[i].area.width
                    &&& y == rect.y || y == rect.y + rect.height
                    &&& rect.x <= x <= rect.x + rect.width
                },
            }
        }
}

proof fn first_focused_is_found(panes: Seq<PaneInfo>, k: int)
    requires
        is_first_focused(panes, k),
    ensures
        lines::focused_rect(panes) == Some(panes[k].rect),
    decreases panes.len(),
{
    if k > 0 {
        let rest = panes.drop_first();
        assert(!panes[0].is_focused);
        assert forall|j: int| 0 <= j < k - 1 implies !(#[trigger] rest[j]).is_focused by {
            assert(!panes[j + 1].is_focused);
        }
        first_focused_is_found(rest, k - 1);
    }
}

proof fn unfocused_is_not_found(panes: Seq<PaneInfo>)
    requires
        forall|j: int| 0 <= j < panes.len() ==> !(#[trigger] panes[j]).is_focused,
    ensures
        lines::focused_rect(panes) is None,
    decreases panes.len(),
{
    if panes.len() > 0 {
        let rest = panes.drop_first();
        assert forall|j: int| 0 <= j < rest.len() implies !(#[trigger] rest[j]).is_focused by {
            assert(!panes[j + 1].is_focused);
        }
        assert(!panes[0].is_focused);
        unfocused_is_not_found(rest);
    }
}

/// The colour of a cell with a split line: the active one exactly where its line
/// stands at an edge of the focused pane and the cell is along that pane, or one
/// cell beyond. Where no pane has the focus every line is inactive.
pub proof fn split_lines_are_active_along_the_focus(
    grid: Rect,
    cells: Map<(u16, u16), CellView>,
    panes: Seq<PaneInfo>,
    splits: Seq<SplitBorder>,
    style: PaneBorderStyle,
    active: Color,
    inactive: Color,
    at: (u16, u16),
    k: int,
)
    requires
        cells.contains_key(at),
        column_line_at(splits, grid, at.0 as int, at.1 as int) || row_line_at(
            splits,
            grid,
            at.0 as int,
            at.1 as int,
        ),
    ensures
        ({
            let look = lines::line_look(canvas::border_symbols(style), style, active, inactive);
            let drawn = lines::split_lines_drawn(grid, cells, panes, splits, look)[at];
            &&& is_first_focused(panes, k) ==> drawn.fg == if on_line_along(
                splits,
                panes[k].rect,
                at.0 as int,
                at.1 as int,
            ) {
                active
            } else {
                inactive
            }
            &&& (forall|j: int| 0 <= j < panes.len() ==> !(#[trigger] panes[j]).is_focused)
                ==> drawn.fg == inactive
        }),
{
    let x = at.0 as int;
    let y = at.1 as int;
    lines_agree(splits, grid, x, y);
    let focused = lines::focused_rect(panes);
    if is_first_focused(panes, k) {
        first_focused_is_found(panes, k);
        let rect = panes[k].rect;
        if lines::on_active_lines(splits, focused, grid.width, grid.height, x, y) {
            let i = choose|i: int|
                0 <= i < splits.len() && lines::touches(#[trigger] splits[i], rect)
                    && lines::on_split(splits[i], grid.width, grid.height, x, y) && lines::beside(
                    splits[i].direction,
                    rect,
                    x,
                    y,
                );
            assert(on_line_along(splits, rect, x, y)) by {
                assert(splits[i].pos == if splits[i].direction == Direction::Horizontal {
                    x
                } else {
                    y
                });
            }
        }
        if on_line_along(splits, rect, x, y) {
            let i = choose|i: int|
                {
                    &&& 0 <= i < splits.len()
                    &&& match (#[trigger] splits[i]).direction {
                        Direction::Horizontal => {
                            &&& splits[i].pos == x
                            &&& splits[i].area.y <= y < splits[i].area.y + splits[i].area.height
                            &&& x == rect.x || x == rect.x + rect.width
                            &&& rect.y <= y <= rect.y + rect.height
                        },
                        Direction::Vertical => {
                            &&& splits[i].pos == y
                            &&& splits[i].area.x <= x < splits[i].area.x + splits[i].area.width
                            &&& y == rect.y || y == rect.y + rect.height
                            &&& rect.x <= x <= rect.x + rect.width
                        },
                    }
                };
            assert(lines::touches(splits[i], rect));
            assert(lines::on_split(splits[i], grid.width, grid.height, x, y));
            assert(lines::beside(splits[i].direction, rect, x, y));
        }
    }
    if forall|j: int| 0 <= j < panes.len() ==> !(#[trigger] panes[j]).is_focused {
        unfocused_is_not_found(panes);
    }
}

/// The characters of split lines are the first ones of the set of pieces that is
/// given, and those of plain lines where the set has none.
pub proof fn split_lines_take_the_pieces_of_their_set(
    symbols: canvas::BorderSymbols,
    style: PaneBorderStyle,
    active: Color,
    inactive: Color,
)
    ensures
        ({
            let look = lines::line_look(symbols, style, active, inactive);
            &&& symbols.vertical_left.len() > 0 ==> look.vert_ch == symbols.vertical_left[0]
            &&& symbols.horizontal_top.len() > 0 ==> look.horiz_ch == symbols.horizontal_top[0]
            &&& symbols.vertical_left.len() == 0 ==> look.vert_ch == '│'
            &&& symbols.horizontal_top.len() == 0 ==> look.horiz_ch == '─'
            &&& look.thick == (style == PaneBorderStyle::Thick)
            &&& look.active_color == active && look.inactive_color == inactive
        }),
{
}

/// The cells that a line puts into the sets are the cells of a grid of that size
/// in the line's column or row, within its span. Of those, the active ones are
/// within the rows or columns of the focused pane, and one cell further.
pub proof fn filled_lines_are_columns_and_rows(
    direction: Direction,
    fixed: u16,
    start: u16,
    end: u16,
    buf_width: u16,
    buf_height: u16,
    focused: Rect,
    x: int,
    y: int,
)
    ensures
        ({
            let on = lines::on_line(
                direction,
                fixed,
                start as int,
                end as int,
                buf_width,
                buf_height,
                x,
                y,
            );
            let along = lines::beside(direction, focused, x, y);
            &&& on ==> 0 <= x < buf_width && 0 <= y < buf_height
            &&& 0 <= x < buf_width && 0 <= y < buf_height && direction == Direction::Horizontal ==> (
            on <==> x == fixed && start <= y < end)
            &&& 0 <= x < buf_width && 0 <= y < buf_height && direction == Direction::Vertical ==> (on
                <==> y == fixed && start <= x < end)
            &&& direction == Direction::Horizontal ==> (along <==> focused.y <= y <= focused.y
                + focused.height)
            &&& direction == Direction::Vertical ==> (along <==> focused.x <= x <= focused.x
                + focused.width)
        }),
{
}

/// `result` is the number nearest to 28 percent of the way between two others.
pub open spec fn is_28_percent(from: u8, to: int, result: u8) -> bool {
    -50 <= 100 * result - (72 * from + 28 * to) <= 50
}

/// `bg` is right for selected text: 28 percent of the way from the host's
/// background to white where that is dark, to black where it is light. Where the
/// host's background is not known it is the palette's for panels, or its dim
/// surface where panels have none.
pub open spec fn is_selection_background<F: Fn(Rgb) -> bool>(
    p: Palette,
    host: TerminalTheme,
    is_dark: F,
    bg: Color,
) -> bool {
    match host.background {
        Some(c) => exists|dark: bool|
            {
                &&& #[trigger] call_ensures(is_dark, ((c.r, c.g, c.b),), dark)
                &&& bg matches Color::Rgb(r, g, b) && {
                    let to: int = if dark { 255 } else { 0 };
                    &&& is_28_percent(c.r, to, r)
                    &&& is_28_percent(c.g, to, g)
                    &&& is_28_percent(c.b, to, b)
                }
            },
        None => bg == if p.panel_bg == Color::Reset { p.surface_dim } else { p.panel_bg },
    }
}

/// `fg` is right for text on `bg`: white where that is dark, black where it is
/// light, and the palette's where its numbers are not known.
pub open spec fn is_text_on<F: Fn(Rgb) -> bool>(
    bg: Color,
    p: Palette,
    is_dark: F,
    fg: Color,
) -> bool {
    match style::rgb_of(bg) {
        Some(rgb) => exists|dark: bool|
            {
                &&& #[trigger] call_ensures(is_dark, (rgb,), dark)
                &&& fg == if dark { Color::White } else { Color::Black }
            },
        None => fg == p.panel_contrast_fg,
    }
}

proof fn background_is_right<F: Fn(Rgb) -> bool>(
    p: Palette,
    host: TerminalTheme,
    is_dark: F,
    bg: Color,
)
    requires
        style::selection_bg_is(p, host, is_dark, bg),
    ensures
        is_selection_background(p, host, is_dark, bg),
{
    if let Some(c) = host.background {
        let dark = choose|dark: bool|
            {
                &&& #[trigger] call_ensures(is_dark, ((c.r, c.g, c.b),), dark)
                &&& bg == style::selected_over((c.r, c.g, c.b), dark)
            };
        assert(call_ensures(is_dark, ((c.r, c.g, c.b),), dark));
    }
}

/// The background of selected text, and the text on it, stand out from the host's
/// background and from each other.
pub proof fn selections_stand_out<F: Fn(Rgb) -> bool>(
    p: Palette,
    host: TerminalTheme,
    is_dark: F,
    bg: Color,
    other: Color,
    fg: Color,
)
    requires
        style::selection_bg_is(p, host, is_dark, bg),
        style::selection_fg_is(other, p, is_dark, fg),
    ensures
        is_selection_background(p, host, is_dark, bg),
        is_text_on(other, p, is_dark, fg),
{
    background_is_right(p, host, is_dark, bg);
}

/// The style of selected text sets both colours, right for each other, and sets
/// back everything else.
pub proof fn selection_styles_leave_nothing_else<F: Fn(Rgb) -> bool>(
    p: Palette,
    host: TerminalTheme,
    is_dark: F,
    selected: Style,
)
    requires
        style::selection_style_is(p, host, is_dark, selected),
    ensures
        selected.fg is Some && selected.bg is Some,
        is_selection_background(p, host, is_dark, selected.bg->0),
        is_text_on(selected.bg->0, p, is_dark, selected.fg->0),
        selected.underline_color == Some(Color::Reset),
        selected.add_modifier == 0,
        selected.sub_modifier == 0x1ff,
{
    let (fg, bg) = choose|fg: Color, bg: Color|
        {
            &&& selected == #[trigger] style::selected_style(fg, bg)
            &&& style::selection_bg_is(p, host, is_dark, bg)
            &&& style::selection_fg_is(bg, p, is_dark, fg)
        };
    background_is_right(p, host, is_dark, bg);
}

/// Mixing two colours gives, channel by channel, the number nearest to 28 percent
/// of the way from the first to the second.
pub proof fn mixing_goes_28_percent_of_the_way(base: Rgb, target: Rgb)
    ensures
        is_28_percent(base.0, target.0 as int, style::mixed(base, target).0),
        is_28_percent(base.1, target.1 as int, style::mixed(base, target).1),
        is_28_percent(base.2, target.2 as int, style::mixed(base, target).2),
{
}

/// A colour that is given by its numbers has those, and the terminal's default and
/// indexed colours have none. Of the named ones a light colour is as bright as can
/// be in the channels in which its dark counterpart is not black, and there alone.
pub proof fn colors_have_their_own_numbers(r: u8, g: u8, b: u8, i: u8)
    ensures
        style::rgb_of(Color::Rgb(r, g, b)) == Some((r, g, b)),
        style::rgb_of(Color::Indexed(i)) is None,
        style::rgb_of(Color::Reset) is None,
        is_light_form(Color::Red, Color::LightRed),
        is_light_form(Color::Green, Color::LightGreen),
        is_light_form(Color::Yellow, Color::LightYellow),
        is_light_form(Color::Blue, Color::LightBlue),
        is_light_form(Color::Magenta, Color::LightMagenta),
        is_light_form(Color::Cyan, Color::LightCyan),
        is_light_form(Color::Gray, Color::White),
        is_light_form(Color::Black, Color::Black),
{
}

/// Both colours have numbers, and the second has 255 in the channels in which the
/// first is not 0, and 0 in the others.
pub open spec fn is_light_form(dark: Color, light: Color) -> bool {
    let full = |channel: u8| if channel > 0 { 255u8 } else { 0u8 };
    style::rgb_of(dark) matches Some(rgb) && style::rgb_of(light) == Some(
        (full(rgb.0), full(rgb.1), full(rgb.2)),
    )
}

/// The cell is one of `rect`.
pub open spec fn is_in(rect: Rect, at: (u16, u16)) -> bool {
    &&& rect.x <= at.0 < rect.x + rect.width
    &&& rect.y <= at.1 < rect.y + rect.height
}

/// A selection that is to be seen in that pane holds the cell, by its row and
/// column in the terminal in `inner`.
pub open spec fn is_chosen(
    selection: Option<Selection>,
    pane: PaneId,
    inner: Rect,
    at: (u16, u16),
) -> bool {
    let row = at.1 - inner.y;
    let col = at.0 - inner.x;
    &&& is_in(inner, at)
    &&& selection matches Some(sel) && sel.visible && sel.pane_id == pane && row < sel.rows@.len()
        && col < sel.rows@[row]@.len() && sel.rows@[row]@[col]
}

/// Copy mode's cursor is on the cell, in the terminal of that pane.
pub open spec fn has_copy_cursor(app: AppState, info: PaneInfo, at: (u16, u16)) -> bool {
    &&& app.mode == Mode::Copy
    &&& is_in(info.inner_rect, at)
    &&& app.copy_mode matches Some(copy) && copy.pane_id == info.id && info.inner_rect.x
        + copy.cursor_col == at.0 && info.inner_rect.y + copy.cursor_row == at.1
}

/// Dimming adds one modifier to the cells of a terminal, and changes nothing else
/// there and nothing elsewhere.
pub proof fn dimming_dims_the_terminal_alone(
    cells: Map<(u16, u16), CellView>,
    inner: Rect,
    at: (u16, u16),
)
    requires
        cells.contains_key(at),
    ensures
        overlay::dimmed(cells, inner).dom() == cells.dom(),
        overlay::dimmed(cells, inner)[at] == if is_in(inner, at) {
            CellView { modifier: cells[at].modifier | 0x002, ..cells[at] }
        } else {
            cells[at]
        },
{
    assert(overlay::dimmed(cells, inner).dom() =~= cells.dom());
}

/// Laying a selection over a terminal restyles the cells that it holds, found by
/// their row and column in the terminal, and leaves all others as they are.
pub proof fn selections_cover_the_chosen_cells<F: Fn(Rgb) -> bool>(
    before: Map<(u16, u16), CellView>,
    after: Map<(u16, u16), CellView>,
    selection: Option<Selection>,
    pane: PaneId,
    inner: Rect,
    p: Palette,
    host: TerminalTheme,
    is_dark: F,
    at: (u16, u16),
)
    requires
        before.contains_key(at),
        overlay::selection_laid_over(before, after, selection, pane, inner, p, host, is_dark),
    ensures
        after.contains_key(at),
        !is_chosen(selection, pane, inner, at) ==> after[at] == before[at],
        is_chosen(selection, pane, inner, at) ==> {
            &&& after[at].symbol == before[at].symbol
            &&& is_selection_background(p, host, is_dark, after[at].bg)
            &&& is_text_on(after[at].bg, p, is_dark, after[at].fg)
            &&& after[at].underline_color == Color::Reset
            &&& after[at].modifier & 0x1ff == 0
        },
{
    if overlay::shown_in(selection, pane) {
        let selected = choose|selected: Style|
            {
                &&& style::selection_style_is(p, host, is_dark, selected)
                &&& after == #[trigger] overlay::highlighted(before, inner, selection->0, selected)
            };
        selection_styles_leave_nothing_else(p, host, is_dark, selected);
        let modifier = before[at].modifier;
        assert(((modifier | 0u16) & !0x1ffu16) & 0x1ffu16 == 0u16) by (bit_vector);
    }
}

/// Copy mode's cursor is drawn on its own cell, bold in the palette's two colours
/// for it, and changes nothing else.
pub proof fn copy_cursor_marks_its_cell(
    cells: Map<(u16, u16), CellView>,
    app: AppState,
    info: PaneInfo,
    at: (u16, u16),
)
    requires
        cells.contains_key(at),
        overlay::cursor_fits(cells, app, info),
    ensures
        ({
            let after = overlay::cursor_drawn(cells, app, info);
            &&& after.contains_key(at)
            &&& !has_copy_cursor(app, info, at) ==> after[at] == cells[at]
            &&& has_copy_cursor(app, info, at) ==> after[at] == (CellView {
                fg: app.palette.panel_contrast_fg,
                bg: app.palette.accent,
                modifier: cells[at].modifier | 0x001,
                ..cells[at]
            })
        }),
{
    let modifier = cells[at].modifier;
    assert((modifier | 0x001u16) & !0u16 == modifier | 0x001u16) by (bit_vector);
}

/// Highlighting gives the cells that a selection holds the colours of a style
/// where the style has them, and leaves all others as they are.
pub proof fn highlighting_styles_the_chosen_cells(
    cells: Map<(u16, u16), CellView>,
    inner: Rect,
    selection: Selection,
    given: Style,
    at: (u16, u16),
)
    requires
        cells.contains_key(at),
        selection.visible,
    ensures
        ({
            let after = overlay::highlighted(cells, inner, selection, given)[at];
            let chosen = is_chosen(Some(selection), selection.pane_id, inner, at);
            &&& overlay::highlighted(cells, inner, selection, given).contains_key(at)
            &&& !chosen ==> after == cells[at]
            &&& chosen ==> {
                &&& after.symbol == cells[at].symbol
                &&& after.fg == if given.fg is Some { given.fg->0 } else { cells[at].fg }
                &&& after.bg == if given.bg is Some { given.bg->0 } else { cells[at].bg }
                &&& after.modifier & given.sub_modifier == 0
                &&& after.modifier & given.add_modifier == given.add_modifier
                    & !given.sub_modifier
            }
        }),
{
    let m = cells[at].modifier;
    let plus = given.add_modifier;
    let minus = given.sub_modifier;
    assert(((m | plus) & !minus) & minus == 0u16) by (bit_vector);
    assert(((m | plus) & !minus) & plus == plus & !minus) by (bit_vector);
}

/// The workspace that is shown draws lines between its panes once the last of
/// them is drawn: drawing goes on with the pane of that index.
pub open spec fn lines_are_due(app: AppState, tab: Tab, index: int) -> bool {
    &&& tab.layout.pane_count > 1
    &&& app.pane_border_mode == PaneBorderMode::Line
    &&& index >= app.view.pane_infos@.len()
}

/// The split lines of the view, drawn on a grid in the configured style.
pub open spec fn lines_over(
    app: AppState,
    grid: Rect,
    cells: Map<(u16, u16), CellView>,
    colors: BorderColors,
) -> Map<(u16, u16), CellView> {
    lines::split_lines_drawn(
        grid,
        cells,
        app.view.pane_infos@,
        app.view.split_borders@,
        lines::line_look(
            canvas::border_symbols(app.pane_border_style),
            app.pane_border_style,
            colors.active,
            colors.inactive,
        ),
    )
}

/// Drawing asks for the panes of the view one after the other, from the first one
/// on, and changes nothing while it does. Behind the last pane it draws the split
/// lines, in line mode and among several panes only, and is finished.
pub proof fn steps_between_panes_draw_only_lines<F: Fn(Rgb) -> bool>(
    app: AppState,
    tab: Tab,
    grid: Rect,
    before: Map<(u16, u16), CellView>,
    after: Map<(u16, u16), CellView>,
    area: Rect,
    colors: BorderColors,
    event: RenderEvent,
    request: RenderRequest,
    is_dark: F,
    next: int,
)
    requires
        shows_tab(app, tab),
        event == RenderEvent::Start && next == 0 || (event matches RenderEvent::PaneMissing {
            index,
        } && next == index + 1 && index < app.view.pane_infos@.len()),
        app.view.pane_infos@.len() <= usize::MAX,
        render::step_taken(app, grid, before, after, area, colors, event, request, is_dark),
    ensures
        next < app.view.pane_infos@.len() ==> request == (RenderRequest::LookUpPane {
            index: next as usize,
        }),
        next >= app.view.pane_infos@.len() ==> request == RenderRequest::Finished,
        after == if lines_are_due(app, tab, next) {
            lines_over(app, grid, before, colors)
        } else {
            before
        },
{
}

/// The terminal of a found pane is drawn next. It shows the host's cursor exactly
/// where the pane has the focus, the keyboard drives the terminal, the terminal is
/// at the end of its scrollback or has none, and the pane exposes the cursor,
/// whatever the borders and the number of panes.
pub proof fn the_cursor_shows_where_the_user_types<F: Fn(Rgb) -> bool>(
    app: AppState,
    grid: Rect,
    before: Map<(u16, u16), CellView>,
    after: Map<(u16, u16), CellView>,
    area: Rect,
    colors: BorderColors,
    index: usize,
    content: PaneContent,
    request: RenderRequest,
    is_dark: F,
)
    requires
        index < app.view.pane_infos@.len(),
        render::step_taken(
            app,
            grid,
            before,
            after,
            area,
            colors,
            RenderEvent::PaneFound { index, content },
            request,
            is_dark,
        ),
    ensures
        request matches RenderRequest::DrawTerminal { index: drawn, show_cursor } && drawn == index
            && (show_cursor <==> {
            &&& app.view.pane_infos@[index as int].is_focused
            &&& app.mode == Mode::Terminal
            &&& content.runtime.scroll_metrics is None
                || content.runtime.scroll_metrics->0.offset_from_bottom == 0
            &&& content.exposes_host_cursor
        }),
{
}

/// What the overlays of a drawn terminal make of one cell: nothing outside the
/// terminal, and no change of text. Copy mode's cursor goes over the selection,
/// and the selection over the dimming of panes without the focus.
pub open spec fn overlays_make<F: Fn(Rgb) -> bool>(
    app: AppState,
    tab: Tab,
    info: PaneInfo,
    selection: Option<Selection>,
    is_dark: F,
    at: (u16, u16),
    cell: CellView,
    after: CellView,
) -> bool {
    let dim = !info.is_focused && app.mode != Mode::Terminal && tab.layout.pane_count > 1;
    let inside = is_in(info.inner_rect, at);
    let chosen = is_chosen(selection, info.id, info.inner_rect, at);
    let cursor = has_copy_cursor(app, info, at);
    &&& after.symbol == cell.symbol
    &&& !inside ==> after == cell
    &&& inside && !chosen && !cursor ==> after == if dim {
        CellView { modifier: cell.modifier | 0x002, ..cell }
    } else {
        cell
    }
    &&& chosen && !cursor ==> {
        &&& is_selection_background(app.palette, app.host_terminal_theme, is_dark, after.bg)
        &&& is_text_on(after.bg, app.palette, is_dark, after.fg)
        &&& after.underline_color == Color::Reset
        &&& after.modifier & 0x1ff == 0
    }
    &&& cursor ==> {
        &&& after.fg == app.palette.panel_contrast_fg
        &&& after.bg == app.palette.accent
        &&& after.modifier & 0x001 == 0x001
    }
}

/// The step behind a drawn terminal lays its overlays over the cells of the
/// terminal, found by their row and column there, and leaves every other cell as
/// it is, but for the split lines behind the last pane. Those show what they show
/// whatever was drawn before.
pub proof fn drawn_terminals_get_their_overlays<F: Fn(Rgb) -> bool>(
    app: AppState,
    tab: Tab,
    grid: Rect,
    before: Map<(u16, u16), CellView>,
    after: Map<(u16, u16), CellView>,
    area: Rect,
    colors: BorderColors,
    index: usize,
    selection: Option<Selection>,
    request: RenderRequest,
    is_dark: F,
    at: (u16, u16),
)
    requires
        shows_tab(app, tab),
        index < app.view.pane_infos@.len(),
        app.view.pane_infos@.len() <= usize::MAX,
        before.contains_key(at),
        render::step_fits(
            app,
            grid,
            before,
            area,
            RenderEvent::TerminalDrawn { index, selection },
        ),
        render::step_taken(
            app,
            grid,
            before,
            after,
            area,
            colors,
            RenderEvent::TerminalDrawn { index, selection },
            request,
            is_dark,
        ),
    ensures
        ({
            let on_lines = column_line_at(
                app.view.split_borders@,
                grid,
                at.0 as int,
                at.1 as int,
            ) || row_line_at(app.view.split_borders@, grid, at.0 as int, at.1 as int);
            let info = app.view.pane_infos@[index as int];
            &&& after.contains_key(at)
            &&& !(lines_are_due(app, tab, index + 1) && on_lines) ==> overlays_make(
                app,
                tab,
                info,
                selection,
                is_dark,
                at,
                before[at],
                after[at],
            )
            &&& lines_are_due(app, tab, index + 1) && on_lines ==> {
                &&& after[at].symbol == lines_over(app, grid, before, colors)[at].symbol
                &&& after[at].fg == lines_over(app, grid, before, colors)[at].fg
            }
            &&& index + 1 < app.view.pane_infos@.len() ==> request == (RenderRequest::LookUpPane {
                index: (index + 1) as usize,
            })
            &&& index + 1 == app.view.pane_infos@.len() ==> request == RenderRequest::Finished
        }),
{
    let info = app.view.pane_infos@[index as int];
    let drawn = choose|drawn: Map<(u16, u16), CellView>|
        {
            &&& render::overlaid(app, before, drawn, info, selection, is_dark)
            &&& after == #[trigger] render::advanced(app, grid, drawn, colors, index + 1)
        };
    let dimmed = render::dimmed_where_due(app, before, info);
    let selected = choose|selected: Map<(u16, u16), CellView>|
        {
            &&& overlay::selection_laid_over(
                dimmed,
                selected,
                selection,
                info.id,
                info.inner_rect,
                app.palette,
                app.host_terminal_theme,
                is_dark,
            )
            &&& drawn == #[trigger] overlay::cursor_drawn(selected, app, info)
        };
    dimming_dims_the_terminal_alone(before, info.inner_rect, at);
    assert(dimmed.contains_key(at));
    assert forall|c: (u16, u16)| before.contains_key(c) implies #[trigger] selected.contains_key(
        c,
    ) by {
        dimming_dims_the_terminal_alone(before, info.inner_rect, c);
        selections_cover_the_chosen_cells(
            dimmed,
            selected,
            selection,
            info.id,
            info.inner_rect,
            app.palette,
            app.host_terminal_theme,
            is_dark,
            c,
        );
    }
    selections_cover_the_chosen_cells(
        dimmed,
        selected,
        selection,
        info.id,
        info.inner_rect,
        app.palette,
        app.host_terminal_theme,
        is_dark,
        at,
    );
    assert(overlay::cursor_fits(selected, app, info));
    copy_cursor_marks_its_cell(selected, app, info, at);
    let modifier = selected[at].modifier;
    assert((modifier | 0x001u16) & 0x001u16 == 0x001u16) by (bit_vector);
    assert(overlays_make(app, tab, info, selection, is_dark, at, before[at], drawn[at]));
    split_lines_join_their_neighbours(
        grid,
        drawn,
        app.view.pane_infos@,
        app.view.split_borders@,
        app.pane_border_style,
        colors.active,
        colors.inactive,
        at,
    );
    lines_agree(app.view.split_borders@, grid, at.0 as int, at.1 as int);
}

/// `rect` lies on the grid, which ends within `u16`.
pub open spec fn lies_on(rect: Rect, grid: Rect) -> bool {
    &&& grid.x <= rect.x && rect.x + rect.width <= grid.x + grid.width <= u16::MAX
    &&& grid.y <= rect.y && rect.y + rect.height <= grid.y + grid.height <= u16::MAX
}

/// The piece of a box around `rect` in one of its outermost cells.
pub open spec fn box_piece(rect: Rect, thick: bool, at: (u16, u16)) -> char {
    let left = at.0 == rect.x;
    let right = at.0 == rect.x + rect.width - 1;
    let top = at.1 == rect.y;
    let bottom = at.1 == rect.y + rect.height - 1;
    if left && top {
        if thick { '┏' } else { '┌' }
    } else if right && top {
        if thick { '┓' } else { '┐' }
    } else if left && bottom {
        if thick { '┗' } else { '└' }
    } else if right && bottom {
        if thick { '┛' } else { '┘' }
    } else if left || right {
        if thick { '┃' } else { '│' }
    } else {
        if thick { '━' } else { '─' }
    }
}

/// Text of printable ASCII and ellipses alone.
pub open spec fn is_one_cell_each(text: Seq<char>) -> bool {
    forall|i: int| 0 <= i < text.len() ==> ' ' <= (#[trigger] text[i]) <= '~' || text[i] == '…'
}

/// The title that a label makes on a box of that width, where there is a label.
pub open spec fn title_of(text: Option<String>, width: u16) -> Option<Seq<char>> {
    match text {
        Some(text) => label::border_title(text@, width),
        None => None,
    }
}

/// The step with a found pane draws a box around it in box mode and among several
/// panes only, along the outermost cells of its whole rectangle. The box has the
/// active colour around the focused pane and the inactive one around others. It is
/// heavy only around the focused pane, while the keyboard drives the terminal and
/// the configured style is thick. The title of the pane's label, cut to the width
/// of the rectangle, stands on the top edge from behind the left corner on, one
/// cell for each character. Nothing else changes.
pub proof fn found_panes_get_their_boxes<F: Fn(Rgb) -> bool>(
    app: AppState,
    tab: Tab,
    grid: Rect,
    before: Map<(u16, u16), CellView>,
    after: Map<(u16, u16), CellView>,
    area: Rect,
    colors: BorderColors,
    index: usize,
    content: PaneContent,
    request: RenderRequest,
    is_dark: F,
    at: (u16, u16),
)
    requires
        shows_tab(app, tab),
        index < app.view.pane_infos@.len(),
        before.contains_key(at),
        lies_on(app.view.pane_infos@[index as int].rect, grid),
        app.view.pane_infos@[index as int].rect.width >= 2,
        app.view.pane_infos@[index as int].rect.height >= 2,
        render::step_taken(
            app,
            grid,
            before,
            after,
            area,
            colors,
            RenderEvent::PaneFound { index, content },
            request,
            is_dark,
        ),
    ensures
        ({
            let info = app.view.pane_infos@[index as int];
            let rect = info.rect;
            let boxed = tab.layout.pane_count > 1 && app.pane_border_mode == PaneBorderMode::Box;
            let on_box = is_in(rect, at) && (at.0 == rect.x || at.1 == rect.y || at.0 == rect.x
                + rect.width - 1 || at.1 == rect.y + rect.height - 1);
            let thick = info.is_focused && app.mode == Mode::Terminal && app.pane_border_style
                == PaneBorderStyle::Thick;
            let title = title_of(content.border_label, rect.width);
            let on_top = at.1 == rect.y && rect.x < at.0 < rect.x + rect.width - 1;
            let k = at.0 - rect.x - 1;
            &&& !boxed || !on_box ==> after[at] == before[at]
            &&& boxed && on_box && (!on_top || title is None) ==> {
                &&& after[at].symbol == seq![box_piece(rect, thick, at)]
                &&& after[at].fg == if info.is_focused { colors.active } else { colors.inactive }
                &&& after[at].bg == before[at].bg
                &&& after[at].modifier == before[at].modifier
            }
            &&& boxed && on_top && title is Some && is_one_cell_each(title->0) ==> {
                &&& after[at].symbol == seq![
                    if k < title->0.len() {
                        title->0[k]
                    } else {
                        box_piece(rect, thick, at)
                    },
                ]
                &&& after[at].fg == if info.is_focused { colors.active } else { colors.inactive }
                &&& after[at].bg == before[at].bg
            }
        }),
{
    let modifier = before[at].modifier;
    assert((modifier | 0u16) & !0u16 == modifier) by (bit_vector);
    let info = app.view.pane_infos@[index as int];
    if let Some(title) = render::pane_title(info, content) {
        if is_one_cell_each(title) {
            assert(label::is_plain_text(title));
        }
    }
    let x = at.0;
    let y = at.1;
    assert(after[(x, y)] == after[at]);
}

/// What the screen without workspaces says in one of its rows: its text, and the
/// colour and the modifiers of that.
pub open spec fn says_in_row(
    before: Map<(u16, u16), CellView>,
    after: Map<(u16, u16), CellView>,
    area: Rect,
    row: int,
    start: int,
    text: Seq<char>,
    color: Color,
    modifier: u16,
) -> bool {
    forall|at: (u16, u16)|
        {
            let k = at.0 - area.x - 1 - start;
            &&& #[trigger] after.contains_key(at)
            &&& at.1 == area.y + 1 + row && at.1 < area.y + area.height - 1
            &&& 0 <= k < text.len() && at.0 < area.x + area.width - 1
        } ==> {
            &&& after[at].symbol == seq![text[at.0 - area.x - 1 - start]]
            &&& after[at].fg == color
            &&& after[at].bg == before[at].bg
            &&& after[at].modifier == before[at].modifier | modifier
        }
}

/// The screen without workspaces has a plain box along the outermost cells of its
/// area, in the palette's dim surface colour. Inside, its rows say that there are
/// no workspaces, what one is, what names it, and which keys make one. Inside the
/// box nothing but those rows changes, and nothing at all outside.
pub proof fn empty_screens_say_how_to_begin(
    app: AppState,
    grid: Rect,
    before: Map<(u16, u16), CellView>,
    after: Map<(u16, u16), CellView>,
    area: Rect,
)
    requires
        before.dom() == after.dom(),
        lies_on(area, grid),
        area.width >= 2,
        area.height >= 2,
        render::empty_screen_drawn(app, grid, before, after, area),
    ensures
        ({
            let p = app.palette;
            let keys = match app.new_workspace_label {
                Some(keys) => keys@,
                None => "unset"@,
            };
            &&& says_in_row(before, after, area, 2, 0, "  No workspaces yet"@, p.overlay0, 0)
            &&& says_in_row(
                before,
                after,
                area,
                4,
                0,
                "  A workspace is one project context."@,
                p.overlay1,
                0,
            )
            &&& says_in_row(
                before,
                after,
                area,
                5,
                0,
                "  Its root pane (top-left) sets the default repo or folder name."@,
                p.overlay1,
                0,
            )
            &&& is_one_cell_each(keys) ==> {
                &&& says_in_row(before, after, area, 7, 0, "  Press "@, p.overlay0, 0)
                &&& says_in_row(before, after, area, 7, 8, keys, p.accent, 0x001)
                &&& says_in_row(
                    before,
                    after,
                    area,
                    7,
                    8 + keys.len() as int,
                    " to create one"@,
                    p.overlay0,
                    0,
                )
            }
        }),
        forall|at: (u16, u16)| #[trigger]
            after.contains_key(at) ==> {
                let inside = area.x < at.0 < area.x + area.width - 1 && area.y < at.1 < area.y
                    + area.height - 1;
                let row = at.1 - area.y - 1;
                &&& !is_in(area, at) ==> after[at] == before[at]
                &&& is_in(area, at) && !inside ==> after[at].symbol == seq![
                    box_piece(area, false, at),
                ] && after[at].fg == app.palette.surface_dim
                &&& inside && (row == 0 || row == 1 || row == 3 || row == 6 || row > 7) ==> after[at]
                    == before[at]
            },
{
    reveal_strlit("  No workspaces yet");
    reveal_strlit("  A workspace is one project context.");
    reveal_strlit("  Its root pane (top-left) sets the default repo or folder name.");
    reveal_strlit("  Press ");
    reveal_strlit(" to create one");
    let keys = render::new_workspace_keys(app.new_workspace_label);
    let lines = render::empty_screen(app.palette, keys);
    let border = render::colored(app.palette.surface_dim);
    let plainly = canvas::plain_paragraph(grid, before, area, lines, border);
    let edges = canvas::shared_edges(area, grid);
    assert(edges == (
        area.x as int,
        area.y as int,
        area.x + area.width - 1,
        area.y + area.height - 1,
    ));
    if is_one_cell_each(keys) {
        assert(label::is_plain_text(keys));
    }
    assert forall|at: (u16, u16)| #[trigger] after.contains_key(at) implies (after[at]
        == plainly[at] || !is_one_cell_each(keys) && at.1 - area.y - 1 == 7
        && canvas::inside_edges(edges, at.0 as int, at.1 as int)) by {
        let x = at.0;
        let y = at.1;
        assert(before.contains_key((x, y)));
        assert(after[(x, y)] == after[at]);
    }
    row_chars(app.palette, keys);
    assert forall|m: u16| #![trigger m | 0u16] (m | 0u16) & !0u16 == m | 0u16 by {
        assert((m | 0u16) & !0u16 == m | 0u16) by (bit_vector);
    }
    assert forall|m: u16| #![trigger m | 0x001u16] (m | 0x001u16) & !0u16 == m | 0x001u16 by {
        assert((m | 0x001u16) & !0u16 == m | 0x001u16) by (bit_vector);
    }
}

/// The characters of the rows of the screen without workspaces.
proof fn row_chars(p: Palette, keys: Seq<char>)
    ensures
        ({
            let lines = render::empty_screen(p, keys);
            let run = |text: Seq<char>, color: Color|
                canvas::run_chars((text, render::colored(color)));
            &&& canvas::line_chars(lines[0]).len() == 0
            &&& canvas::line_chars(lines[1]).len() == 0
            &&& canvas::line_chars(lines[2]) == run("  No workspaces yet"@, p.overlay0)
            &&& canvas::line_chars(lines[3]).len() == 0
            &&& canvas::line_chars(lines[4]) == run(
                "  A workspace is one project context."@,
                p.overlay1,
            )
            &&& canvas::line_chars(lines[5]) == run(
                "  Its root pane (top-left) sets the default repo or folder name."@,
                p.overlay1,
            )
            &&& canvas::line_chars(lines[6]).len() == 0
            &&& canvas::line_chars(lines[7]) == run("  Press "@, p.overlay0) + canvas::run_chars(
                (keys, Style { add_modifier: 0x001, ..render::colored(p.accent) }),
            ) + run(" to create one"@, p.overlay0)
        }),
{
    let lines = render::empty_screen(p, keys);
    reveal_with_fuel(Seq::flatten, 4);
    assert forall|i: int| 0 <= i < 8 && i != 7 && lines[i].len() == 1 implies canvas::line_chars(
        #[trigger] lines[i],
    ) =~= canvas::run_chars(lines[i][0]) by {
        let runs = lines[i].map_values(|run: (Seq<char>, Style)| canvas::run_chars(run));
        assert(runs.drop_first().len() == 0);
    }
    let runs = lines[7].map_values(|run: (Seq<char>, Style)| canvas::run_chars(run));
    assert(runs.drop_first().drop_first().drop_first().len() == 0);
    assert(runs.flatten() =~= runs[0] + runs[1] + runs[2]);
}

/// Every cell of a grid with its corner at the origin is there.
pub open spec fn has_all_cells(grid: Rect, cells: Map<(u16, u16), CellView>) -> bool {
    &&& grid.x == 0 && grid.y == 0
    &&& forall|at: (u16, u16)|
        at.0 < grid.width && at.1 < grid.height ==> #[trigger] cells.contains_key(at)
}

/// On a grid with all its cells every step can be taken that answers a request,
/// where the panes of the view and the areas of its splits lie on the grid, and so
/// can the first step without a workspace where the area is no wider than
/// `i16::MAX` or the keys are few or take one cell each.
pub proof fn steps_on_screens_can_be_taken(
    app: AppState,
    grid: Rect,
    cells: Map<(u16, u16), CellView>,
    area: Rect,
    event: RenderEvent,
)
    requires
        has_all_cells(grid, cells),
        area.width <= i16::MAX || app.new_workspace_label is None
            || app.new_workspace_label->0@.len() <= 21823 || is_one_cell_each(
            app.new_workspace_label->0@,
        ),
        forall|k: int|
            0 <= k < app.view.pane_infos@.len() ==> lies_on(
                (#[trigger] app.view.pane_infos@[k]).rect,
                grid,
            ) && lies_on(app.view.pane_infos@[k].inner_rect, grid),
        forall|i: int|
            0 <= i < app.view.split_borders@.len() ==> lies_on(
                (#[trigger] app.view.split_borders@[i]).area,
                grid,
            ),
        event == RenderEvent::Start || app.active is Some && app.active->0 < app.workspaces@.len(),
        event matches RenderEvent::PaneMissing { index } ==> index < app.view.pane_infos@.len(),
        event matches RenderEvent::PaneFound { index, content } ==> index
            < app.view.pane_infos@.len(),
        event matches RenderEvent::TerminalDrawn { index, selection } ==> index
            < app.view.pane_infos@.len(),
    ensures
        render::event_expected(app, event),
        render::step_fits(app, grid, cells, area, event),
{
    let panes = app.view.pane_infos@;
    let splits = app.view.split_borders@;
    assert(canvas::whole(grid, cells));
    reveal_strlit("unset");
    if app.new_workspace_label is Some && is_one_cell_each(app.new_workspace_label->0@) {
        assert(label::is_plain_text(app.new_workspace_label->0@));
    }
    focused_is_a_pane(panes);
    assert forall|i: int| 0 <= i < splits.len() implies lines::split_fits(
        #[trigger] splits[i],
        lines::focused_rect(panes),
        grid.width,
        grid.height,
    ) by {}
    assert(lines::split_lines_fit(grid, cells, panes, splits));
}

proof fn focused_is_a_pane(panes: Seq<PaneInfo>)
    ensures
        lines::focused_rect(panes) matches Some(rect) ==> exists|k: int|
            0 <= k < panes.len() && (#[trigger] panes[k]).rect == rect,
    decreases panes.len(),
{
    if panes.len() > 0 {
        if panes.first().is_focused {
            assert(panes[0].rect == panes.first().rect);
        } else {
            let rest = panes.drop_first();
            focused_is_a_pane(rest);
            if let Some(rect) = lines::focused_rect(rest) {
                let k = choose|k: int| 0 <= k < rest.len() && (#[trigger] rest[k]).rect == rect;
                assert(panes[k + 1] == rest[k]);
            }
        }
    }
}

/// The colour of a border is the literal of its configuration where one was
/// parsed. Where none was, it is the palette's colour of that name, if the palette
/// answers with one, and only otherwise what the text is read as.
pub proof fn border_colors_prefer_literals_then_tokens<
    T: Fn(&str) -> Option<Color>,
    L: Fn(&str) -> Color,
>(
    config: BorderColorConfig,
    resolve_token: T,
    parse_color: L,
    color: Color,
    token: Option<Color>,
    literal: Color,
)
    requires
        style::border_color_is(config, resolve_token, parse_color, color),
        forall|raw: &str, answer: Option<Color>|
            raw@ == config.raw@ && #[trigger] call_ensures(resolve_token, (raw,), answer) ==> answer
                == token,
        forall|raw: &str, answer: Color|
            raw@ == config.raw@ && #[trigger] call_ensures(parse_color, (raw,), answer) ==> answer
                == literal,
    ensures
        config.parsed is Some ==> color == config.parsed->0,
        config.parsed is None && token is Some ==> color == token->0,
        config.parsed is None && token is None ==> color == literal,
{
}

} // verus!
