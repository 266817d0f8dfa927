//! The lines between panes, drawn with one character per cell.

use crate::canvas;
use crate::canvas::{
    area_of, has_cell, set_cell_char, set_cell_style, BorderSet, CellView, PaneBorderStyle,
};
use crate::geometry;
use crate::geometry::{Direction, Rect, SplitBorder};
use crate::junction;
use crate::junction::junction_char;
use crate::model::{AppState, PaneInfo};
use crate::style::{Color, Style};
use ratatui::buffer::Buffer;
use std::collections::HashSet;
use std::ops::Range;
use vstd::prelude::*;

verus! {

broadcast use vstd::std_specs::hash::group_hash_axioms;

/// The number that stands for a cell in a set of cells.
spec fn cell_key(x: int, y: int) -> int {
    x * 0x1_0000 + y
}

/// A set of cells.
pub struct CellSet {
    keys: HashSet<u32>,
}

impl CellSet {
    /// The cell in column `x` and row `y` is in the set.
    pub closed spec fn holds(self, x: int, y: int) -> bool {
        &&& 0 <= x <= u16::MAX
        &&& 0 <= y <= u16::MAX
        &&& self.keys@.contains(cell_key(x, y) as u32)
    }

    /// The set without cells.
    pub fn new() -> (cells: CellSet)
        ensures
            forall|x: int, y: int| !#[trigger] cells.holds(x, y),
    {
        CellSet { keys: HashSet::new() }
    }

    /// Puts a cell into the set.
    pub fn insert(&mut self, x: u16, y: u16)
        ensures
            forall|cx: int, cy: int| #[trigger]
                final(self).holds(cx, cy) == (old(self).holds(cx, cy) || (cx == x && cy == y)),
    {
        let key: u32 = x as u32 * 0x1_0000 + y as u32;
        self.keys.insert(key);
    }

    /// Whether a cell is in the set.
    pub fn contains(&self, x: u16, y: u16) -> (found: bool)
        ensures
            found == self.holds(x as int, y as int),
    {
        let key: u32 = x as u32 * 0x1_0000 + y as u32;
        self.keys.contains(&key)
    }
}

/// A cell of a grid of that size is on a line of a split: on the fixed column
/// or row, and within the span of the line.
pub open spec fn on_line(
    direction: Direction,
    fixed: u16,
    start: int,
    end: int,
    buf_width: u16,
    buf_height: u16,
    x: int,
    y: int,
) -> bool {
    &&& 0 <= x < buf_width
    &&& 0 <= y < buf_height
    &&& match direction {
        Direction::Horizontal => x == fixed && start <= y < end,
        Direction::Vertical => y == fixed && start <= x < end,
    }
}

/// A cell is beside the focused pane: within its rows for a vertical line,
/// within its columns for a horizontal one, and one cell further.
pub open spec fn beside(direction: Direction, focused: Rect, x: int, y: int) -> bool {
    match direction {
        Direction::Horizontal => focused.y <= y <= focused.y + focused.height,
        Direction::Vertical => focused.x <= x <= focused.x + focused.width,
    }
}

/// The far edge of the focused pane is within `u16` where a cell of the line is
/// compared with it.
pub open spec fn beside_fits(direction: Direction, focused: Rect, x: int, y: int) -> bool {
    match direction {
        Direction::Horizontal => focused.y <= y ==> focused.y + focused.height <= u16::MAX,
        Direction::Vertical => focused.x <= x ==> focused.x + focused.width <= u16::MAX,
    }
}

/// Puts the cells of a line that are in a grid of that size into `cells`, and
/// those beside the focused pane into `active_cells`.
pub fn fill_split_line(
    cells: &mut CellSet,
    active_cells: &mut CellSet,
    range: Range<u16>,
    fixed: u16,
    direction: Direction,
    buf_width: u16,
    buf_height: u16,
    focused_rect: Option<Rect>,
)
    requires
        focused_rect matches Some(focused) ==> forall|x: int, y: int| #[trigger]
            on_line(
                direction,
                fixed,
                range.start as int,
                range.end as int,
                buf_width,
                buf_height,
                x,
                y,
            ) ==> beside_fits(direction, focused, x, y),
    ensures
        forall|x: int, y: int| #[trigger]
            final(cells).holds(x, y) == (old(cells).holds(x, y) || on_line(
                direction,
                fixed,
                range.start as int,
                range.end as int,
                buf_width,
                buf_height,
                x,
                y,
            )),
        forall|x: int, y: int| #[trigger]
            final(active_cells).holds(x, y) == (old(active_cells).holds(x, y) || (on_line(
                direction,
                fixed,
                range.start as int,
                range.end as int,
                buf_width,
                buf_height,
                x,
                y,
            ) && (focused_rect matches Some(focused) && beside(direction, focused, x, y)))),
{
    let vertical_line = direction == Direction::Horizontal;
    let start: u16 = range.start;
    let end: u16 = range.end;
    let mut var: u16 = start;
    while var < end
        invariant
            vertical_line == (direction == Direction::Horizontal),
            start <= var,
            start < end ==> var <= end,
            start >= end ==> var == start,
            focused_rect matches Some(focused) ==> forall|x: int, y: int| #[trigger]
                on_line(
                    direction,
                    fixed,
                    start as int,
                    end as int,
                    buf_width,
                    buf_height,
                    x,
                    y,
                ) ==> beside_fits(direction, focused, x, y),
            forall|x: int, y: int| #[trigger]
                cells.holds(x, y) == (old(cells).holds(x, y) || on_line(
                    direction,
                    fixed,
                    start as int,
                    var as int,
                    buf_width,
                    buf_height,
                    x,
                    y,
                )),
            forall|x: int, y: int| #[trigger]
                active_cells.holds(x, y) == (old(active_cells).holds(x, y) || (on_line(
                    direction,
                    fixed,
                    start as int,
                    var as int,
                    buf_width,
                    buf_height,
                    x,
                    y,
                ) && (focused_rect matches Some(focused) && beside(direction, focused, x, y)))),
        decreases end - var,
    {
        let (x, y): (u16, u16) = if vertical_line {
            (fixed, var)
        } else {
            (var, fixed)
        };
        if x < buf_width && y < buf_height {
            cells.insert(x, y);
            if let Some(fr) = focused_rect {
                assert(on_line(
                    direction,
                    fixed,
                    start as int,
                    end as int,
                    buf_width,
                    buf_height,
                    x as int,
                    y as int,
                ));
                let in_extent = if vertical_line {
                    var >= fr.y && var <= fr.y + fr.height
                } else {
                    var >= fr.x && var <= fr.x + fr.width
                };
                if in_extent {
                    active_cells.insert(x, y);
                }
            }
        }
        var += 1;
    }
}

/// How split lines are drawn.
pub struct LineLook {
    pub vert_ch: char,
    pub horiz_ch: char,
    pub thick: bool,
    pub active_color: Color,
    pub inactive_color: Color,
}

/// A cell with the split line of its place drawn on it, where `v`, `h` and `a`
/// tell the cells of vertical lines, of horizontal lines and beside the focused
/// pane.
pub open spec fn line_cell(
    cell: CellView,
    look: LineLook,
    v: spec_fn(int, int) -> bool,
    h: spec_fn(int, int) -> bool,
    a: spec_fn(int, int) -> bool,
    x: int,
    y: int,
) -> CellView {
    let ch = junction::junction(
        v(x, y - 1),
        v(x, y + 1),
        h(x - 1, y),
        h(x + 1, y),
        look.vert_ch,
        look.horiz_ch,
        look.thick,
        if v(x, y) {
            look.vert_ch
        } else {
            look.horiz_ch
        },
    );
    let color = if a(x, y) {
        look.active_color
    } else {
        look.inactive_color
    };
    canvas::styled(
        CellView { symbol: seq![ch], ..cell },
        Style { fg: Some(color), ..Style::spec_new() },
    )
}

/// The cells of a grid with split lines drawn on the cells that `drawn` tells.
pub open spec fn lined(
    cells: Map<(u16, u16), CellView>,
    look: LineLook,
    v: spec_fn(int, int) -> bool,
    h: spec_fn(int, int) -> bool,
    a: spec_fn(int, int) -> bool,
    drawn: spec_fn(int, int) -> bool,
) -> Map<(u16, u16), CellView> {
    cells.map_entries(
        |at: (u16, u16), cell: CellView|
            if drawn(at.0 as int, at.1 as int) {
                line_cell(cell, look, v, h, a, at.0 as int, at.1 as int)
            } else {
                cell
            },
    )
}

impl CellSet {
    /// Which cells are in the set.
    pub open spec fn test(self) -> spec_fn(int, int) -> bool {
        |x: int, y: int| self.holds(x, y)
    }

    /// Every cell of the set is a cell of a grid of that size.
    pub open spec fn within(self, buf_width: u16, buf_height: u16) -> bool {
        forall|x: int, y: int| #[trigger] self.holds(x, y) ==> x < buf_width && y < buf_height
    }
}

/// Draws the split line of one cell.
fn draw_line_cell(
    buf: &mut Buffer,
    look: &LineLook,
    vertical_cells: &CellSet,
    horizontal_cells: &CellSet,
    active_cells: &CellSet,
    x: u16,
    y: u16,
    buf_width: u16,
    buf_height: u16,
)
    requires
        canvas::buffer_cells(*old(buf)).contains_key((x, y)),
        x < buf_width,
        y < buf_height,
        vertical_cells.within(buf_width, buf_height),
        horizontal_cells.within(buf_width, buf_height),
    ensures
        canvas::buffer_area(*final(buf)) == canvas::buffer_area(*old(buf)),
        canvas::buffer_cells(*final(buf)) == canvas::buffer_cells(*old(buf)).insert(
            (x, y),
            line_cell(
                canvas::buffer_cells(*old(buf))[(x, y)],
                *look,
                vertical_cells.test(),
                horizontal_cells.test(),
                active_cells.test(),
                x as int,
                y as int,
            ),
        ),
{
    let v_above = y > 0 && vertical_cells.contains(x, y.saturating_sub(1));
    let v_below = y + 1 < buf_height && vertical_cells.contains(x, y + 1);
    let h_left = x > 0 && horizontal_cells.contains(x.saturating_sub(1), y);
    let h_right = x + 1 < buf_width && horizontal_cells.contains(x + 1, y);
    let fallback = if vertical_cells.contains(x, y) {
        look.vert_ch
    } else {
        look.horiz_ch
    };
    let ch = junction_char(
        v_above,
        v_below,
        h_left,
        h_right,
        look.vert_ch,
        look.horiz_ch,
        look.thick,
        fallback,
    );
    let cell_style = if active_cells.contains(x, y) {
        Style::new().fg(look.active_color)
    } else {
        Style::new().fg(look.inactive_color)
    };
    assert(v_above == vertical_cells.holds(x as int, y - 1));
    assert(v_below == vertical_cells.holds(x as int, y + 1));
    assert(h_left == horizontal_cells.holds(x - 1, y as int));
    assert(h_right == horizontal_cells.holds(x + 1, y as int));
    set_cell_char(buf, x, y, ch);
    set_cell_style(buf, x, y, cell_style);
    assert(canvas::buffer_cells(*buf) =~= canvas::buffer_cells(*old(buf)).insert(
        (x, y),
        line_cell(
            canvas::buffer_cells(*old(buf))[(x, y)],
            *look,
            vertical_cells.test(),
            horizontal_cells.test(),
            active_cells.test(),
            x as int,
            y as int,
        ),
    ));
}

/// One more key is among the first ones, and no other.
proof fn taken_keys(keys: Seq<u32>, n: int)
    requires
        0 <= n < keys.len(),
    ensures
        forall|key: u32| #[trigger]
            keys.take(n + 1).contains(key) == (keys.take(n).contains(key) || key == keys[n]),
{
    let more = keys.take(n + 1);
    assert forall|key: u32| #[trigger]
        more.contains(key) == (keys.take(n).contains(key) || key == keys[n]) by {
        if keys.take(n).contains(key) {
            let m = choose|m: int| 0 <= m < n && keys.take(n)[m] == key;
            assert(more[m] == key);
        }
        if key == keys[n] {
            assert(more[n] == key);
        }
        if more.contains(key) && key != keys[n] {
            let m = choose|m: int| 0 <= m < more.len() && more[m] == key;
            assert(keys.take(n)[m] == key);
        }
    }
}

/// Draws the split lines of the cells in `drawn`.
fn draw_line_cells(
    buf: &mut Buffer,
    look: &LineLook,
    vertical_cells: &CellSet,
    horizontal_cells: &CellSet,
    active_cells: &CellSet,
    drawn: &CellSet,
    buf_width: u16,
    buf_height: u16,
)
    requires
        forall|x: int, y: int| #[trigger]
            drawn.holds(x, y) ==> canvas::buffer_cells(*old(buf)).contains_key(
                (x as u16, y as u16),
            ),
        drawn.within(buf_width, buf_height),
        vertical_cells.within(buf_width, buf_height),
        horizontal_cells.within(buf_width, buf_height),
    ensures
        canvas::buffer_area(*final(buf)) == canvas::buffer_area(*old(buf)),
        canvas::buffer_cells(*final(buf)) == lined(
            canvas::buffer_cells(*old(buf)),
            *look,
            vertical_cells.test(),
            horizontal_cells.test(),
            active_cells.test(),
            drawn.test(),
        ),
{
    let ghost before = canvas::buffer_cells(*buf);
    let ghost v = vertical_cells.test();
    let ghost h = horizontal_cells.test();
    let ghost a = active_cells.test();
    let ghost mut done: Set<u32> = Set::empty();
    for key in iter: drawn.keys.iter()
        invariant
            iter.seq().unref().to_set() == drawn.keys@,
            iter.seq().no_duplicates(),
            done =~= iter.seq().unref().take(iter.index()).to_set(),
            iter.index() == iter.seq().len() ==> done =~= drawn.keys@,
            forall|x: int, y: int| #[trigger]
                drawn.holds(x, y) ==> before.contains_key((x as u16, y as u16)),
            drawn.within(buf_width, buf_height),
            vertical_cells.within(buf_width, buf_height),
            horizontal_cells.within(buf_width, buf_height),
            v == vertical_cells.test(),
            h == horizontal_cells.test(),
            a == active_cells.test(),
            canvas::buffer_area(*buf) == canvas::buffer_area(*old(buf)),
            canvas::buffer_cells(*buf).dom() == before.dom(),
            forall|at: (u16, u16)|
                before.contains_key(at) ==> #[trigger] canvas::buffer_cells(*buf)[at] == (
                if done.contains(cell_key(at.0 as int, at.1 as int) as u32) {
                    line_cell(before[at], *look, v, h, a, at.0 as int, at.1 as int)
                } else {
                    before[at]
                }),
    {
        let x: u16 = (*key / 0x1_0000) as u16;
        let y: u16 = (*key % 0x1_0000) as u16;
        let ghost now = canvas::buffer_cells(*buf);
        proof {
            assert(iter.seq().unref()[iter.index()] == *key);
            assert(iter.seq().unref().to_set().contains(*key));
            assert(cell_key(x as int, y as int) == *key);
            assert(drawn.holds(x as int, y as int));
            assert forall|m: int| 0 <= m < iter.index() implies iter.seq().unref().take(
                iter.index(),
            )[m] != *key by {
                assert(iter.seq()[m] != iter.seq()[iter.index()]);
            }
            assert(!done.contains(*key));
        }
        draw_line_cell(
            buf,
            look,
            vertical_cells,
            horizontal_cells,
            active_cells,
            x,
            y,
            buf_width,
            buf_height,
        );
        proof {
            assert(canvas::buffer_cells(*buf).dom() =~= before.dom());
            taken_keys(iter.seq().unref(), iter.index());
            done = done.insert(*key);
            assert(iter.index() + 1 == iter.seq().len() ==> iter.seq().unref().take(
                iter.index() + 1,
            ) =~= iter.seq().unref());
            assert forall|at: (u16, u16)| before.contains_key(at) implies #[trigger] canvas::buffer_cells(
                *buf,
            )[at] == (if done.contains(cell_key(at.0 as int, at.1 as int) as u32) {
                line_cell(before[at], *look, v, h, a, at.0 as int, at.1 as int)
            } else {
                before[at]
            }) by {
                // What the invariant says of this cell.
                assert(now[at] == now[at]);
                assert((cell_key(at.0 as int, at.1 as int) == *key) == (at == (x, y)));
            }
        }
    }
    proof {
        assert(canvas::buffer_cells(*buf) =~= lined(before, *look, v, h, a, drawn.test()));
    }
}

/// The first pane of a list that has the focus.
pub open spec fn focused_pane(panes: Seq<PaneInfo>) -> Option<PaneInfo>
    decreases panes.len(),
{
    if panes.len() == 0 {
        None
    } else if panes.first().is_focused {
        Some(panes.first())
    } else {
        focused_pane(panes.drop_first())
    }
}

/// The rectangle of the first pane of a list that has the focus.
pub open spec fn focused_rect(panes: Seq<PaneInfo>) -> Option<Rect> {
    match focused_pane(panes) {
        Some(info) => Some(info.rect),
        None => None,
    }
}

fn find_focused(panes: &Vec<PaneInfo>) -> (rect: Option<Rect>)
    ensures
        rect == focused_rect(panes@),
{
    let mut i: usize = 0;
    assert(panes@.skip(0) =~= panes@);
    while i < panes.len()
        invariant
            i <= panes@.len(),
            focused_pane(panes@) == focused_pane(panes@.skip(i as int)),
        decreases panes@.len() - i,
    {
        if panes[i].is_focused {
            return Some(panes[i].rect);
        }
        assert(panes@.skip(i as int).drop_first() =~= panes@.skip(i + 1));
        i += 1;
    }
    None
}

/// A cell of a grid of that size is on the line of `split`.
pub open spec fn on_split(split: SplitBorder, buf_width: u16, buf_height: u16, x: int, y: int) -> bool {
    match split.direction {
        Direction::Horizontal => on_line(
            split.direction,
            split.pos,
            split.area.y as int,
            split.area.y + split.area.height,
            buf_width,
            buf_height,
            x,
            y,
        ),
        Direction::Vertical => on_line(
            split.direction,
            split.pos,
            split.area.x as int,
            split.area.x + split.area.width,
            buf_width,
            buf_height,
            x,
            y,
        ),
    }
}

/// A split line runs along an edge of `rect`.
pub open spec fn touches(split: SplitBorder, rect: Rect) -> bool {
    match split.direction {
        Direction::Horizontal => split.pos == rect.x || split.pos == rect.x + rect.width,
        Direction::Vertical => split.pos == rect.y || split.pos == rect.y + rect.height,
    }
}

/// A cell is on a line of that direction.
pub open spec fn on_lines(
    splits: Seq<SplitBorder>,
    direction: Direction,
    buf_width: u16,
    buf_height: u16,
    x: int,
    y: int,
) -> bool {
    exists|i: int|
        0 <= i < splits.len() && (#[trigger] splits[i]).direction == direction && on_split(
            splits[i],
            buf_width,
            buf_height,
            x,
            y,
        )
}

/// A cell is on a line along an edge of the focused pane, and beside the pane.
pub open spec fn on_active_lines(
    splits: Seq<SplitBorder>,
    focused: Option<Rect>,
    buf_width: u16,
    buf_height: u16,
    x: int,
    y: int,
) -> bool {
    focused matches Some(rect) && exists|i: int|
        0 <= i < splits.len() && touches(#[trigger] splits[i], rect) && on_split(
            splits[i],
            buf_width,
            buf_height,
            x,
            y,
        ) && beside(splits[i].direction, rect, x, y)
}

/// The sums that drawing the line of `split` forms stay within `u16`: its far
/// end, and the far edges of the focused pane where they are compared with.
pub open spec fn split_fits(
    split: SplitBorder,
    focused: Option<Rect>,
    buf_width: u16,
    buf_height: u16,
) -> bool {
    &&& split.direction == Direction::Horizontal ==> split.area.y + split.area.height <= u16::MAX
    &&& split.direction == Direction::Vertical ==> split.area.x + split.area.width <= u16::MAX
    &&& focused matches Some(rect) ==> {
        &&& split.direction == Direction::Horizontal && split.pos != rect.x ==> rect.x + rect.width
            <= u16::MAX
        &&& split.direction == Direction::Vertical && split.pos != rect.y ==> rect.y + rect.height
            <= u16::MAX
        &&& touches(split, rect) ==> forall|x: int, y: int| #[trigger]
            on_split(split, buf_width, buf_height, x, y) ==> beside_fits(
                split.direction,
                rect,
                x,
                y,
            )
    }
}

/// The characters of plain lines in a set of pieces, and the colours.
pub open spec fn line_look(
    symbols: canvas::BorderSymbols,
    style: PaneBorderStyle,
    active_color: Color,
    inactive_color: Color,
) -> LineLook {
    LineLook {
        vert_ch: if symbols.vertical_left.len() == 0 {
            '│'
        } else {
            symbols.vertical_left.first()
        },
        horiz_ch: if symbols.horizontal_top.len() == 0 {
            '─'
        } else {
            symbols.horizontal_top.first()
        },
        thick: style == PaneBorderStyle::Thick,
        active_color,
        inactive_color,
    }
}

/// The cells of a grid with every split line of the view drawn on it.
pub open spec fn split_lines_drawn(
    area: Rect,
    cells: Map<(u16, u16), CellView>,
    panes: Seq<PaneInfo>,
    splits: Seq<SplitBorder>,
    look: LineLook,
) -> Map<(u16, u16), CellView> {
    let v = |x: int, y: int| on_lines(splits, Direction::Horizontal, area.width, area.height, x, y);
    let h = |x: int, y: int| on_lines(splits, Direction::Vertical, area.width, area.height, x, y);
    let a = |x: int, y: int|
        on_active_lines(splits, focused_rect(panes), area.width, area.height, x, y);
    lined(cells, look, v, h, a, |x: int, y: int| v(x, y) || h(x, y))
}

/// Drawing the split lines of the view reaches only cells that the grid holds,
/// and its sums stay within `u16`.
pub open spec fn split_lines_fit(
    area: Rect,
    cells: Map<(u16, u16), CellView>,
    panes: Seq<PaneInfo>,
    splits: Seq<SplitBorder>,
) -> bool {
    &&& forall|i: int|
        0 <= i < splits.len() ==> split_fits(
            #[trigger] splits[i],
            focused_rect(panes),
            area.width,
            area.height,
        )
    &&& forall|i: int, x: u16, y: u16|
        0 <= i < splits.len() && #[trigger] on_split(
            splits[i],
            area.width,
            area.height,
            x as int,
            y as int,
        ) ==> cells.contains_key((x, y))
}

/// The first character of `text`, or `default` where it has none.
fn first_char_or(text: &str, default: char) -> (ch: char)
    ensures
        ch == if text@.len() == 0 {
            default
        } else {
            text@.first()
        },
{
    if text.is_empty() {
        default
    } else {
        text.get_char(0)
    }
}

/// Whether a split line runs along an edge of `rect`.
fn split_touches(split: SplitBorder, rect: Rect) -> (touching: bool)
    requires
        split.direction == Direction::Horizontal && split.pos != rect.x ==> rect.x + rect.width
            <= u16::MAX,
        split.direction == Direction::Vertical && split.pos != rect.y ==> rect.y + rect.height
            <= u16::MAX,
    ensures
        touching == touches(split, rect),
{
    match split.direction {
        Direction::Horizontal => split.pos == rect.x || split.pos == rect.x + rect.width,
        Direction::Vertical => split.pos == rect.y || split.pos == rect.y + rect.height,
    }
}

/// The line of `split` can be drawn on a grid of that size with those cells.
spec fn split_drawable(
    split: SplitBorder,
    focused: Option<Rect>,
    cells: Map<(u16, u16), CellView>,
    buf_width: u16,
    buf_height: u16,
) -> bool {
    &&& split_fits(split, focused, buf_width, buf_height)
    &&& forall|x: u16, y: u16| #[trigger]
        on_split(split, buf_width, buf_height, x as int, y as int) ==> cells.contains_key((x, y))
}

/// Whether the line of `split` can be drawn.
fn can_draw_split(
    buf: &Buffer,
    split: SplitBorder,
    focused: Option<Rect>,
    buf_width: u16,
    buf_height: u16,
) -> (fits: bool)
    ensures
        fits == split_drawable(
            split,
            focused,
            canvas::buffer_cells(*buf),
            buf_width,
            buf_height,
        ),
{
    let vertical_line = split.direction == Direction::Horizontal;
    let (start, length): (u16, u16) = if vertical_line {
        (split.area.y, split.area.height)
    } else {
        (split.area.x, split.area.width)
    };
    if length > u16::MAX - start {
        return false;
    }
    let touching = match focused {
        Some(rect) => {
            if vertical_line && split.pos != rect.x && rect.width > u16::MAX - rect.x {
                return false;
            }
            if !vertical_line && split.pos != rect.y && rect.height > u16::MAX - rect.y {
                return false;
            }
            split_touches(split, rect)
        },
        None => false,
    };
    let ghost cells = canvas::buffer_cells(*buf);
    let mut var: u16 = start;
    while var < start + length
        invariant
            start + length <= u16::MAX,
            start <= var <= start + length,
            vertical_line == (split.direction == Direction::Horizontal),
            vertical_line ==> start == split.area.y && length == split.area.height,
            !vertical_line ==> start == split.area.x && length == split.area.width,
            touching ==> focused is Some && touches(split, focused->0),
            cells == canvas::buffer_cells(*buf),
            forall|x: int, y: int| #[trigger]
                on_line(
                    split.direction,
                    split.pos,
                    start as int,
                    var as int,
                    buf_width,
                    buf_height,
                    x,
                    y,
                ) ==> {
                    &&& cells.contains_key((x as u16, y as u16))
                    &&& touching ==> beside_fits(split.direction, focused->0, x, y)
                },
        decreases start + length - var,
    {
        let (x, y): (u16, u16) = if vertical_line {
            (split.pos, var)
        } else {
            (var, split.pos)
        };
        if x < buf_width && y < buf_height {
            assert(on_split(split, buf_width, buf_height, x as int, y as int));
            if !has_cell(buf, x, y) {
                return false;
            }
            if touching {
                if let Some(rect) = focused {
                    if vertical_line && rect.y <= y && rect.height > u16::MAX - rect.y {
                        assert(!beside_fits(split.direction, rect, x as int, y as int));
                        return false;
                    }
                    if !vertical_line && rect.x <= x && rect.width > u16::MAX - rect.x {
                        assert(!beside_fits(split.direction, rect, x as int, y as int));
                        return false;
                    }
                }
            }
        }
        assert forall|cx: int, cy: int| #[trigger]
            on_line(
                split.direction,
                split.pos,
                start as int,
                var + 1,
                buf_width,
                buf_height,
                cx,
                cy,
            ) implies {
            &&& cells.contains_key((cx as u16, cy as u16))
            &&& touching ==> beside_fits(split.direction, focused->0, cx, cy)
        } by {
            if !(cx == x && cy == y) {
                assert(on_line(
                    split.direction,
                    split.pos,
                    start as int,
                    var as int,
                    buf_width,
                    buf_height,
                    cx,
                    cy,
                ));
            }
        }
        var += 1;
    }
    true
}

/// Whether the lines between panes can be drawn.
pub fn can_draw_split_lines(app: &AppState, buf: &Buffer) -> (fits: bool)
    ensures
        fits == split_lines_fit(
            canvas::buffer_area(*buf),
            canvas::buffer_cells(*buf),
            app.view.pane_infos@,
            app.view.split_borders@,
        ),
{
    let area = area_of(buf);
    let focused = find_focused(&app.view.pane_infos);
    let ghost splits = app.view.split_borders@;
    let ghost cells = canvas::buffer_cells(*buf);
    let mut i: usize = 0;
    while i < app.view.split_borders.len()
        invariant
            i <= splits.len(),
            splits == app.view.split_borders@,
            cells == canvas::buffer_cells(*buf),
            area == canvas::buffer_area(*buf),
            focused == focused_rect(app.view.pane_infos@),
            forall|k: int|
                0 <= k < i ==> split_drawable(
                    #[trigger] splits[k],
                    focused,
                    cells,
                    area.width,
                    area.height,
                ),
        decreases splits.len() - i,
    {
        if !can_draw_split(buf, app.view.split_borders[i], focused, area.width, area.height) {
            proof {
                let split = splits[i as int];
                if split_fits(split, focused, area.width, area.height) {
                    let (x, y) = choose|x: u16, y: u16| #[trigger]
                        on_split(split, area.width, area.height, x as int, y as int)
                            && !cells.contains_key((x, y));
                    assert(on_split(splits[i as int], area.width, area.height, x as int, y as int));
                }
            }
            return false;
        }
        i += 1;
    }
    proof {
        assert forall|k: int, x: u16, y: u16|
            0 <= k < splits.len() && #[trigger] on_split(
                splits[k],
                area.width,
                area.height,
                x as int,
                y as int,
            ) implies cells.contains_key((x, y)) by {
            assert(split_drawable(splits[k], focused, cells, area.width, area.height));
        }
    }
    true
}

/// Draws the lines between panes, each cell with the character that joins it
/// to the lines around it. Lines along the focused pane get the active colour.
pub fn render_split_lines(
    app: &AppState,
    buf: &mut Buffer,
    active_color: Color,
    inactive_color: Color,
    border_set: &BorderSet,
)
    requires
        split_lines_fit(
            canvas::buffer_area(*old(buf)),
            canvas::buffer_cells(*old(buf)),
            app.view.pane_infos@,
            app.view.split_borders@,
        ),
    ensures
        canvas::buffer_area(*final(buf)) == canvas::buffer_area(*old(buf)),
        canvas::buffer_cells(*final(buf)) == split_lines_drawn(
            canvas::buffer_area(*old(buf)),
            canvas::buffer_cells(*old(buf)),
            app.view.pane_infos@,
            app.view.split_borders@,
            line_look(border_set@, app.pane_border_style, active_color, inactive_color),
        ),
{
    let area = area_of(buf);
    let mut vertical_cells = CellSet::new();
    let mut horizontal_cells = CellSet::new();
    let mut active_cells = CellSet::new();
    let focused = find_focused(&app.view.pane_infos);
    let ghost splits = app.view.split_borders@;
    let ghost before = canvas::buffer_cells(*buf);

    let mut i: usize = 0;
    while i < app.view.split_borders.len()
        invariant
            splits == app.view.split_borders@,
            focused == focused_rect(app.view.pane_infos@),
            split_lines_fit(area, before, app.view.pane_infos@, splits),
            i <= splits.len(),
            forall|x: int, y: int| #[trigger]
                vertical_cells.holds(x, y) == on_lines(
                    splits.take(i as int),
                    Direction::Horizontal,
                    area.width,
                    area.height,
                    x,
                    y,
                ),
            forall|x: int, y: int| #[trigger]
                horizontal_cells.holds(x, y) == on_lines(
                    splits.take(i as int),
                    Direction::Vertical,
                    area.width,
                    area.height,
                    x,
                    y,
                ),
            forall|x: int, y: int| #[trigger]
                active_cells.holds(x, y) == on_active_lines(
                    splits.take(i as int),
                    focused,
                    area.width,
                    area.height,
                    x,
                    y,
                ),
        decreases splits.len() - i,
    {
        let split = app.view.split_borders[i];
        assert(split_fits(splits[i as int], focused, area.width, area.height));
        let focused_rect = match focused {
            Some(rect) => if split_touches(split, rect) {
                Some(rect)
            } else {
                None
            },
            None => None,
        };
        match split.direction {
            Direction::Horizontal => {
                proof {
                    line_of_split_fits(split, focused_rect, area.width, area.height);
                }
                fill_split_line(
                    &mut vertical_cells,
                    &mut active_cells,
                    split.area.y..split.area.y + split.area.height,
                    split.pos,
                    Direction::Horizontal,
                    area.width,
                    area.height,
                    focused_rect,
                );
            },
            Direction::Vertical => {
                proof {
                    line_of_split_fits(split, focused_rect, area.width, area.height);
                }
                fill_split_line(
                    &mut horizontal_cells,
                    &mut active_cells,
                    split.area.x..split.area.x + split.area.width,
                    split.pos,
                    Direction::Vertical,
                    area.width,
                    area.height,
                    focused_rect,
                );
            },
        }
        proof {
            lines_step(splits, i as int, focused, area.width, area.height);
        }
        i += 1;
    }
    let look = LineLook {
        vert_ch: first_char_or(border_set.vertical_left.as_str(), '│'),
        horiz_ch: first_char_or(border_set.horizontal_top.as_str(), '─'),
        thick: app.pane_border_style == PaneBorderStyle::Thick,
        active_color,
        inactive_color,
    };
    let ghost v = |x: int, y: int|
        on_lines(splits, Direction::Horizontal, area.width, area.height, x, y);
    let ghost h = |x: int, y: int|
        on_lines(splits, Direction::Vertical, area.width, area.height, x, y);
    let ghost a = |x: int, y: int| on_active_lines(splits, focused, area.width, area.height, x, y);
    proof {
        assert(splits.take(i as int) =~= splits);
        assert(vertical_cells.test() =~= v);
        assert(horizontal_cells.test() =~= h);
        assert(active_cells.test() =~= a);
    }
    draw_line_cells(
        buf,
        &look,
        &vertical_cells,
        &horizontal_cells,
        &active_cells,
        &vertical_cells,
        area.width,
        area.height,
    );
    draw_line_cells(
        buf,
        &look,
        &vertical_cells,
        &horizontal_cells,
        &active_cells,
        &horizontal_cells,
        area.width,
        area.height,
    );
    proof {
        line_cells_are_stable(look, v, h, a);
        assert(canvas::buffer_cells(*buf) =~= lined(
            before,
            look,
            v,
            h,
            a,
            |x: int, y: int| v(x, y) || h(x, y),
        ));
    }
}

/// Drawing a cell's split line again changes nothing.
proof fn line_cells_are_stable(
    look: LineLook,
    v: spec_fn(int, int) -> bool,
    h: spec_fn(int, int) -> bool,
    a: spec_fn(int, int) -> bool,
)
    ensures
        forall|cell: CellView, x: int, y: int| #[trigger]
            line_cell(line_cell(cell, look, v, h, a, x, y), look, v, h, a, x, y) == line_cell(
                cell,
                look,
                v,
                h,
                a,
                x,
                y,
            ),
{
    assert forall|cell: CellView, x: int, y: int| #[trigger]
        line_cell(line_cell(cell, look, v, h, a, x, y), look, v, h, a, x, y) == line_cell(
        cell,
        look,
        v,
        h,
        a,
        x,
        y,
    ) by {
        let modifier = cell.modifier;
        assert((modifier | 0u16) & !0u16 == modifier) by (bit_vector);
    }
}

/// What `split_fits` says of a line, said of its span.
proof fn line_of_split_fits(
    split: SplitBorder,
    focused: Option<Rect>,
    buf_width: u16,
    buf_height: u16,
)
    requires
        split_fits(split, focused, buf_width, buf_height),
        focused matches Some(rect) ==> touches(split, rect),
    ensures
        split.direction == Direction::Horizontal ==> (focused matches Some(rect) ==> forall|
            x: int,
            y: int,
        | #[trigger]
            on_line(
                split.direction,
                split.pos,
                split.area.y as int,
                split.area.y + split.area.height,
                buf_width,
                buf_height,
                x,
                y,
            ) ==> beside_fits(split.direction, rect, x, y)),
        split.direction == Direction::Vertical ==> (focused matches Some(rect) ==> forall|
            x: int,
            y: int,
        | #[trigger]
            on_line(
                split.direction,
                split.pos,
                split.area.x as int,
                split.area.x + split.area.width,
                buf_width,
                buf_height,
                x,
                y,
            ) ==> beside_fits(split.direction, rect, x, y)),
{
    if let Some(rect) = focused {
        assert forall|x: int, y: int|
            on_split(split, buf_width, buf_height, x, y) implies beside_fits(
            split.direction,
            rect,
            x,
            y,
        ) by {}
    }
}

/// One more split adds the cells of its line, and no others.
proof fn lines_step(
    splits: Seq<SplitBorder>,
    n: int,
    focused: Option<Rect>,
    buf_width: u16,
    buf_height: u16,
)
    requires
        0 <= n < splits.len(),
    ensures
        forall|direction: Direction, x: int, y: int| #[trigger]
            on_lines(splits.take(n + 1), direction, buf_width, buf_height, x, y) == (on_lines(
                splits.take(n),
                direction,
                buf_width,
                buf_height,
                x,
                y,
            ) || (splits[n].direction == direction && on_split(
                splits[n],
                buf_width,
                buf_height,
                x,
                y,
            ))),
        forall|x: int, y: int| #[trigger]
            on_active_lines(splits.take(n + 1), focused, buf_width, buf_height, x, y) == (
            on_active_lines(splits.take(n), focused, buf_width, buf_height, x, y) || (
            focused matches Some(rect) && touches(splits[n], rect) && on_split(
                splits[n],
                buf_width,
                buf_height,
                x,
                y,
            ) && beside(splits[n].direction, rect, x, y))),
{
    let more = splits.take(n + 1);
    assert(more[n] == splits[n]);
    assert forall|direction: Direction, x: int, y: int| #[trigger]
        on_lines(more, direction, buf_width, buf_height, x, y) == (on_lines(
            splits.take(n),
            direction,
            buf_width,
            buf_height,
            x,
            y,
        ) || (splits[n].direction == direction && on_split(
            splits[n],
            buf_width,
            buf_height,
            x,
            y,
        ))) by {
        if on_lines(splits.take(n), direction, buf_width, buf_height, x, y) {
            let i = choose|i: int|
                0 <= i < n && (#[trigger] splits.take(n)[i]).direction == direction && on_split(
                    splits.take(n)[i],
                    buf_width,
                    buf_height,
                    x,
                    y,
                );
            assert(more[i] == splits.take(n)[i]);
        }
        if on_lines(more, direction, buf_width, buf_height, x, y) {
            let i = choose|i: int|
                0 <= i < more.len() && (#[trigger] more[i]).direction == direction && on_split(
                    more[i],
                    buf_width,
                    buf_height,
                    x,
                    y,
                );
            if i < n {
                assert(splits.take(n)[i] == more[i]);
            }
        }
    }
    if let Some(rect) = focused {
        assert forall|x: int, y: int| #[trigger]
            on_active_lines(more, focused, buf_width, buf_height, x, y) == (on_active_lines(
                splits.take(n),
                focused,
                buf_width,
                buf_height,
                x,
                y,
            ) || (touches(splits[n], rect) && on_split(splits[n], buf_width, buf_height, x, y)
                && beside(splits[n].direction, rect, x, y))) by {
            if on_active_lines(splits.take(n), focused, buf_width, buf_height, x, y) {
                let i = choose|i: int|
                    0 <= i < n && touches(#[trigger] splits.take(n)[i], rect) && on_split(
                        splits.take(n)[i],
                        buf_width,
                        buf_height,
                        x,
                        y,
                    ) && beside(splits.take(n)[i].direction, rect, x, y);
                assert(more[i] == splits.take(n)[i]);
            }
            if on_active_lines(more, focused, buf_width, buf_height, x, y) {
                let i = choose|i: int|
                    0 <= i < more.len() && touches(#[trigger] more[i], rect) && on_split(
                        more[i],
                        buf_width,
                        buf_height,
                        x,
                        y,
                    ) && beside(more[i].direction, rect, x, y);
                if i < n {
                    assert(splits.take(n)[i] == more[i]);
                }
            }
        }
    }
}

/// Split lines are drawn on their own cells: every other cell stays as it is,
/// and no cell comes or goes.
pub proof fn split_lines_keep_other_cells(
    area: Rect,
    cells: Map<(u16, u16), CellView>,
    panes: Seq<PaneInfo>,
    splits: Seq<SplitBorder>,
    look: LineLook,
    at: (u16, u16),
)
    ensures
        split_lines_drawn(area, cells, panes, splits, look).dom() == cells.dom(),
        cells.contains_key(at) && !on_lines(
            splits,
            Direction::Horizontal,
            area.width,
            area.height,
            at.0 as int,
            at.1 as int,
        ) && !on_lines(
            splits,
            Direction::Vertical,
            area.width,
            area.height,
            at.0 as int,
            at.1 as int,
        ) ==> split_lines_drawn(area, cells, panes, splits, look)[at] == cells[at],
{
    assert(split_lines_drawn(area, cells, panes, splits, look).dom() =~= cells.dom());
}

/// Drawing the split lines again changes nothing.
pub proof fn split_lines_are_stable(
    area: Rect,
    cells: Map<(u16, u16), CellView>,
    panes: Seq<PaneInfo>,
    splits: Seq<SplitBorder>,
    look: LineLook,
)
    ensures
        split_lines_drawn(
            area,
            split_lines_drawn(area, cells, panes, splits, look),
            panes,
            splits,
            look,
        ) == split_lines_drawn(area, cells, panes, splits, look),
{
    let v = |x: int, y: int| on_lines(splits, Direction::Horizontal, area.width, area.height, x, y);
    let h = |x: int, y: int| on_lines(splits, Direction::Vertical, area.width, area.height, x, y);
    let a = |x: int, y: int|
        on_active_lines(splits, focused_rect(panes), area.width, area.height, x, y);
    line_cells_are_stable(look, v, h, a);
    assert(split_lines_drawn(
        area,
        split_lines_drawn(area, cells, panes, splits, look),
        panes,
        splits,
        look,
    ) =~= split_lines_drawn(area, cells, panes, splits, look));
}

/// A split line along an edge of a pane is drawn on no cell of the room that the
/// pane has in line mode.
pub proof fn touching_lines_keep_off_the_room(
    pane: Rect,
    splits: Seq<SplitBorder>,
    i: int,
    buf_width: u16,
    buf_height: u16,
    x: int,
    y: int,
)
    requires
        geometry::line_inner_fits(pane, splits),
        0 <= i < splits.len(),
        touches(splits[i], pane),
        geometry::in_rect(geometry::line_inner(pane, splits), x, y),
    ensures
        !on_split(splits[i], buf_width, buf_height, x, y),
{
    geometry::line_inner_avoids_split_lines(pane, splits, i, x, y);
}

/// Only cells of split lines are ever drawn in the active colour.
pub proof fn active_cells_are_line_cells(
    splits: Seq<SplitBorder>,
    focused: Option<Rect>,
    buf_width: u16,
    buf_height: u16,
    x: int,
    y: int,
)
    requires
        on_active_lines(splits, focused, buf_width, buf_height, x, y),
    ensures
        on_lines(splits, Direction::Horizontal, buf_width, buf_height, x, y) || on_lines(
            splits,
            Direction::Vertical,
            buf_width,
            buf_height,
            x,
            y,
        ),
{
    let rect = focused->0;
    let i = choose|i: int|
        0 <= i < splits.len() && touches(#[trigger] splits[i], rect) && on_split(
            splits[i],
            buf_width,
            buf_height,
            x,
            y,
        ) && beside(splits[i].direction, rect, x, y);
    assert(splits[i].direction == Direction::Horizontal || splits[i].direction
        == Direction::Vertical);
}

/// Where all splits put panes side by side, every line cell shows the plain
/// vertical character, in the colour of its side of the focus.
pub proof fn columns_have_plain_lines(
    area: Rect,
    cells: Map<(u16, u16), CellView>,
    panes: Seq<PaneInfo>,
    splits: Seq<SplitBorder>,
    look: LineLook,
    at: (u16, u16),
)
    requires
        forall|i: int|
            0 <= i < splits.len() ==> (#[trigger] splits[i]).direction == Direction::Horizontal,
        junction::heavy(look.vert_ch) == look.vert_ch,
        cells.contains_key(at),
        on_lines(
            splits,
            Direction::Horizontal,
            area.width,
            area.height,
            at.0 as int,
            at.1 as int,
        ),
    ensures
        split_lines_drawn(area, cells, panes, splits, look)[at].symbol == seq![look.vert_ch],
        split_lines_drawn(area, cells, panes, splits, look)[at].fg == if on_active_lines(
            splits,
            focused_rect(panes),
            area.width,
            area.height,
            at.0 as int,
            at.1 as int,
        ) {
            look.active_color
        } else {
            look.inactive_color
        },
{
}

} // verus!
