//! Rectangles of terminal cells, and the room that borders, split lines and
//! the scrollbar leave inside a pane.

use vstd::prelude::*;

verus! {

/// A rectangle of terminal cells: its top left corner and its size.
#[derive(Clone, Copy, Debug, PartialEq, Eq, Structural)]
pub struct Rect {
    pub x: u16,
    pub y: u16,
    pub width: u16,
    pub height: u16,
}

/// The axis along which a split puts its two halves side by side.
#[derive(Clone, Copy, Debug, PartialEq, Eq, Structural)]
pub enum Direction {
    /// Left and right halves, with a vertical line between them.
    Horizontal,
    /// Top and bottom halves, with a horizontal line between them.
    Vertical,
}

/// The line between the two halves of a split.
#[derive(Clone, Copy, Debug, PartialEq, Eq, Structural)]
pub struct SplitBorder {
    /// The column of a vertical line, or the row of a horizontal one.
    pub pos: u16,
    pub direction: Direction,
    /// The area that the split divides.
    pub area: Rect,
}

/// The cell in column `x` and row `y` is a cell of `rect`.
pub open spec fn in_rect(rect: Rect, x: int, y: int) -> bool {
    &&& rect.x <= x < rect.x + rect.width
    &&& rect.y <= y < rect.y + rect.height
}

/// The rectangle with the given corner, its size cut so that its right and
/// bottom edges stay within `u16`.
pub open spec fn clamped_rect(x: u16, y: u16, width: u16, height: u16) -> Rect {
    Rect {
        x,
        y,
        width: if x + width <= u16::MAX { width } else { (u16::MAX - x) as u16 },
        height: if y + height <= u16::MAX { height } else { (u16::MAX - y) as u16 },
    }
}

/// Calls `ratatui::layout::Rect::new`. Trusted: the corner and the size come
/// back as given, but for a width or height that would carry the right or
/// bottom edge past `u16::MAX`, which is cut to end there.
#[verifier::external_body]
fn clamp_rect(x: u16, y: u16, width: u16, height: u16) -> (rect: Rect)
    ensures
        rect == clamped_rect(x, y, width, height),
{
    let r = ratatui::layout::Rect::new(x, y, width, height);
    Rect { x: r.x, y: r.y, width: r.width, height: r.height }
}

impl Rect {
    /// The rectangle with the given corner and size, cut to end within `u16`.
    pub fn new(x: u16, y: u16, width: u16, height: u16) -> (rect: Rect)
        ensures
            rect == clamped_rect(x, y, width, height),
    {
        clamp_rect(x, y, width, height)
    }
}

/// What is left of `area` inside a border on all four sides: one cell less on
/// each side, down to an empty rectangle.
pub open spec fn bordered_inner(area: Rect) -> Rect {
    Rect {
        x: if area.width == 0 || area.x == u16::MAX { area.x } else { (area.x + 1) as u16 },
        y: if area.height == 0 || area.y == u16::MAX { area.y } else { (area.y + 1) as u16 },
        width: if area.width < 2 { 0 } else { (area.width - 2) as u16 },
        height: if area.height < 2 { 0 } else { (area.height - 2) as u16 },
    }
}

/// Calls `ratatui::widgets::Block::inner` on a block with borders on all four
/// sides and neither title nor padding. Trusted: each border takes one cell,
/// the corner does not leave the area, and no size goes below zero.
#[verifier::external_body]
pub(crate) fn block_inner(area: Rect) -> (inner: Rect)
    ensures
        inner == bordered_inner(area),
{
    let native = ratatui::layout::Rect {
        x: area.x,
        y: area.y,
        width: area.width,
        height: area.height,
    };
    let r = ratatui::widgets::Block::default().borders(ratatui::widgets::Borders::ALL).inner(native);
    Rect { x: r.x, y: r.y, width: r.width, height: r.height }
}

/// A pane's room inside its frame, or all of it where it has none.
pub open spec fn framed_inner(area: Rect, framed: bool) -> Rect {
    if framed {
        bordered_inner(area)
    } else {
        area
    }
}

/// The room that `area` leaves inside its border, where it is framed.
pub fn pane_inner_rect(area: Rect, framed: bool) -> (inner: Rect)
    ensures
        inner == framed_inner(area, framed),
{
    if framed {
        block_inner(area)
    } else {
        area
    }
}

/// The part of `pane_inner` that the terminal fills: all but the last column,
/// which is kept for a scrollbar, unless the pane is at most four columns wide.
pub open spec fn terminal_inner(pane_inner: Rect) -> Rect {
    if pane_inner.width <= 4 {
        pane_inner
    } else {
        clamped_rect(pane_inner.x, pane_inner.y, (pane_inner.width - 1) as u16, pane_inner.height)
    }
}

/// The part of a pane that its terminal fills, whether or not a scrollbar is
/// shown.
pub fn stable_terminal_inner_rect(pane_inner: Rect) -> (inner: Rect)
    ensures
        inner == terminal_inner(pane_inner),
{
    if pane_inner.width <= 4 {
        return pane_inner;
    }
    Rect::new(
        pane_inner.x,
        pane_inner.y,
        pane_inner.width.saturating_sub(1),
        pane_inner.height,
    )
}

/// A split line in `direction` stands at `pos`, and its span overlaps that of
/// `pane` on the other axis.
pub open spec fn runs_along(
    split: SplitBorder,
    pane: Rect,
    direction: Direction,
    pos: int,
) -> bool {
    &&& split.direction == direction
    &&& split.pos == pos
    &&& match direction {
        Direction::Horizontal => split.area.y < pane.y + pane.height && pane.y < split.area.y
            + split.area.height,
        Direction::Vertical => split.area.x < pane.x + pane.width && pane.x < split.area.x
            + split.area.width,
    }
}

/// One of `splits` has its line along the edge of `pane` at `pos`.
pub open spec fn shares_line(
    splits: Seq<SplitBorder>,
    pane: Rect,
    direction: Direction,
    pos: int,
) -> bool {
    exists|i: int| 0 <= i < splits.len() && runs_along(#[trigger] splits[i], pane, direction, pos)
}

/// What an edge gives up to split lines: one cell where it shares one.
pub open spec fn given_up(
    splits: Seq<SplitBorder>,
    pane: Rect,
    direction: Direction,
    pos: int,
) -> nat {
    if shares_line(splits, pane, direction, pos) {
        1
    } else {
        0
    }
}

/// `length` less `count`, and no less than zero.
pub open spec fn shrunk(length: u16, count: nat) -> u16 {
    if count <= length {
        (length - count) as u16
    } else {
        0
    }
}

/// A pane's room between split lines: one cell less on each edge that shares a
/// split line.
pub open spec fn line_inner(pane: Rect, splits: Seq<SplitBorder>) -> Rect {
    let left = given_up(splits, pane, Direction::Horizontal, pane.x as int);
    let right = given_up(splits, pane, Direction::Horizontal, pane.x + pane.width);
    let top = given_up(splits, pane, Direction::Vertical, pane.y as int);
    let bottom = given_up(splits, pane, Direction::Vertical, pane.y + pane.height);
    Rect {
        x: (pane.x + left) as u16,
        y: (pane.y + top) as u16,
        width: shrunk(pane.width, left + right),
        height: shrunk(pane.height, top + bottom),
    }
}

/// The sums that `line_inner` forms stay within `u16`: a far edge where a split
/// line is compared with it, and the corner moved in by the near lines.
pub open spec fn line_inner_fits(pane: Rect, splits: Seq<SplitBorder>) -> bool {
    &&& forall|i: int|
        0 <= i < splits.len() && (#[trigger] splits[i]).direction == Direction::Horizontal
            && splits[i].pos != pane.x ==> pane.x + pane.width <= u16::MAX
    &&& forall|i: int|
        0 <= i < splits.len() && (#[trigger] splits[i]).direction == Direction::Vertical
            && splits[i].pos != pane.y ==> pane.y + pane.height <= u16::MAX
    &&& pane.x + given_up(splits, pane, Direction::Horizontal, pane.x as int) <= u16::MAX
    &&& pane.y + given_up(splits, pane, Direction::Vertical, pane.y as int) <= u16::MAX
}

/// Whether two spans overlap, each given by its start and its length.
fn spans_overlap(start: u16, length: u16, other_start: u16, other_length: u16) -> (overlap: bool)
    ensures
        overlap == (start < other_start + other_length && other_start < start + length),
{
    (start as u32) < other_start as u32 + other_length as u32 && (other_start as u32)
        < start as u32 + length as u32
}

/// Whether the span of a split line overlaps that of `pane` on the axis along
/// the line.
fn is_level_with(split: SplitBorder, pane: Rect) -> (level: bool)
    ensures
        level == runs_along(split, pane, split.direction, split.pos as int),
{
    match split.direction {
        Direction::Horizontal => spans_overlap(
            split.area.y,
            split.area.height,
            pane.y,
            pane.height,
        ),
        Direction::Vertical => spans_overlap(split.area.x, split.area.width, pane.x, pane.width),
    }
}

/// One more split adds the edge along its line, and no other.
proof fn shares_line_step(
    splits: Seq<SplitBorder>,
    n: int,
    pane: Rect,
    direction: Direction,
    pos: int,
)
    requires
        0 <= n < splits.len(),
    ensures
        shares_line(splits.take(n + 1), pane, direction, pos) == (shares_line(
            splits.take(n),
            pane,
            direction,
            pos,
        ) || runs_along(splits[n], pane, direction, pos)),
{
    let more = splits.take(n + 1);
    assert(more[n] == splits[n]);
    if shares_line(splits.take(n), pane, direction, pos) {
        let i = choose|i: int|
            0 <= i < n && runs_along(#[trigger] splits.take(n)[i], pane, direction, pos);
        assert(more[i] == splits.take(n)[i]);
    }
    if shares_line(more, pane, direction, pos) {
        let i = choose|i: int|
            0 <= i < more.len() && runs_along(#[trigger] more[i], pane, direction, pos);
        if i < n {
            assert(splits.take(n)[i] == more[i]);
        }
    }
}

/// Whether the room of a pane in line mode can be told within `u16`.
pub fn has_line_room(pane_rect: Rect, splits: &[SplitBorder]) -> (fits: bool)
    ensures
        fits == line_inner_fits(pane_rect, splits@),
{
    let mut left = false;
    let mut top = false;
    let mut i: usize = 0;
    while i < splits.len()
        invariant
            i <= splits@.len(),
            left == shares_line(
                splits@.take(i as int),
                pane_rect,
                Direction::Horizontal,
                pane_rect.x as int,
            ),
            top == shares_line(
                splits@.take(i as int),
                pane_rect,
                Direction::Vertical,
                pane_rect.y as int,
            ),
            forall|k: int|
                0 <= k < i && (#[trigger] splits@[k]).direction == Direction::Horizontal
                    && splits@[k].pos != pane_rect.x ==> pane_rect.x + pane_rect.width <= u16::MAX,
            forall|k: int|
                0 <= k < i && (#[trigger] splits@[k]).direction == Direction::Vertical
                    && splits@[k].pos != pane_rect.y ==> pane_rect.y + pane_rect.height <= u16::MAX,
        decreases splits@.len() - i,
    {
        let split = splits[i];
        proof {
            let n = i as int;
            shares_line_step(splits@, n, pane_rect, Direction::Horizontal, pane_rect.x as int);
            shares_line_step(splits@, n, pane_rect, Direction::Vertical, pane_rect.y as int);
        }
        match split.direction {
            Direction::Horizontal => {
                if split.pos == pane_rect.x {
                    left = left || is_level_with(split, pane_rect);
                } else if pane_rect.width > u16::MAX - pane_rect.x {
                    return false;
                }
            },
            Direction::Vertical => {
                if split.pos == pane_rect.y {
                    top = top || is_level_with(split, pane_rect);
                } else if pane_rect.height > u16::MAX - pane_rect.y {
                    return false;
                }
            },
        }
        i += 1;
    }
    proof {
        assert(splits@.take(i as int) =~= splits@);
    }
    !(left && pane_rect.x == u16::MAX) && !(top && pane_rect.y == u16::MAX)
}

/// The room of a pane in line mode: each edge that shares a split line gives
/// up one cell.
pub fn inner_rect_for_line_mode(pane_rect: Rect, splits: &[SplitBorder]) -> (inner: Rect)
    requires
        line_inner_fits(pane_rect, splits@),
    ensures
        inner == line_inner(pane_rect, splits@),
{
    let mut left = false;
    let mut right = false;
    let mut top = false;
    let mut bottom = false;
    let mut i: usize = 0;
    while i < splits.len()
        invariant
            i <= splits@.len(),
            line_inner_fits(pane_rect, splits@),
            left == shares_line(
                splits@.take(i as int),
                pane_rect,
                Direction::Horizontal,
                pane_rect.x as int,
            ),
            pane_rect.width > 0 ==> right == shares_line(
                splits@.take(i as int),
                pane_rect,
                Direction::Horizontal,
                pane_rect.x + pane_rect.width,
            ),
            top == shares_line(
                splits@.take(i as int),
                pane_rect,
                Direction::Vertical,
                pane_rect.y as int,
            ),
            pane_rect.height > 0 ==> bottom == shares_line(
                splits@.take(i as int),
                pane_rect,
                Direction::Vertical,
                pane_rect.y + pane_rect.height,
            ),
        decreases splits@.len() - i,
    {
        let split = splits[i];
        proof {
            let n = i as int;
            let far_x = pane_rect.x + pane_rect.width;
            let far_y = pane_rect.y + pane_rect.height;
            shares_line_step(splits@, n, pane_rect, Direction::Horizontal, pane_rect.x as int);
            shares_line_step(splits@, n, pane_rect, Direction::Horizontal, far_x);
            shares_line_step(splits@, n, pane_rect, Direction::Vertical, pane_rect.y as int);
            shares_line_step(splits@, n, pane_rect, Direction::Vertical, far_y);
        }
        if is_level_with(split, pane_rect) {
            match split.direction {
                Direction::Horizontal => {
                    if split.pos == pane_rect.x {
                        left = true;
                    } else if split.pos == pane_rect.x + pane_rect.width {
                        right = true;
                    }
                },
                Direction::Vertical => {
                    if split.pos == pane_rect.y {
                        top = true;
                    } else if split.pos == pane_rect.y + pane_rect.height {
                        bottom = true;
                    }
                },
            }
        }
        i += 1;
    }
    proof {
        assert(splits@.take(i as int) =~= splits@);
    }
    let mut inner = pane_rect;
    if left {
        inner.x += 1;
        inner.width = inner.width.saturating_sub(1);
    }
    if right {
        inner.width = inner.width.saturating_sub(1);
    }
    if top {
        inner.y += 1;
        inner.height = inner.height.saturating_sub(1);
    }
    if bottom {
        inner.height = inner.height.saturating_sub(1);
    }
    inner
}

/// In line mode a pane's room lies inside the pane: every cell of it is a cell
/// of the pane.
pub proof fn line_inner_stays_inside(pane: Rect, splits: Seq<SplitBorder>, x: int, y: int)
    requires
        line_inner_fits(pane, splits),
        in_rect(line_inner(pane, splits), x, y),
    ensures
        in_rect(pane, x, y),
{
}

/// In line mode a pane keeps off the split lines along its edges: no cell of
/// its room lies on such a line.
pub proof fn line_inner_avoids_split_lines(
    pane: Rect,
    splits: Seq<SplitBorder>,
    i: int,
    x: int,
    y: int,
)
    requires
        line_inner_fits(pane, splits),
        0 <= i < splits.len(),
        in_rect(line_inner(pane, splits), x, y),
    ensures
        runs_along(splits[i], pane, Direction::Horizontal, pane.x as int) || runs_along(
            splits[i],
            pane,
            Direction::Horizontal,
            pane.x + pane.width,
        ) ==> x != splits[i].pos,
        runs_along(splits[i], pane, Direction::Vertical, pane.y as int) || runs_along(
            splits[i],
            pane,
            Direction::Vertical,
            pane.y + pane.height,
        ) ==> y != splits[i].pos,
{
}

/// In line mode an edge gives up at most one cell, however many split lines run
/// along it, and a pane without split lines along its edges keeps all its room.
pub proof fn line_inner_gives_up_one_cell_an_edge(pane: Rect, splits: Seq<SplitBorder>)
    requires
        line_inner_fits(pane, splits),
    ensures
        pane.x <= line_inner(pane, splits).x <= pane.x + 1,
        pane.y <= line_inner(pane, splits).y <= pane.y + 1,
        pane.width <= line_inner(pane, splits).width + 2,
        pane.height <= line_inner(pane, splits).height + 2,
        !shares_line(splits, pane, Direction::Horizontal, pane.x as int) && !shares_line(
            splits,
            pane,
            Direction::Horizontal,
            pane.x + pane.width,
        ) && !shares_line(splits, pane, Direction::Vertical, pane.y as int) && !shares_line(
            splits,
            pane,
            Direction::Vertical,
            pane.y + pane.height,
        ) ==> line_inner(pane, splits) == pane,
{
}

/// Split lines that run along no edge of a pane take nothing from it: a further
/// line elsewhere leaves its room as it is.
pub proof fn lines_elsewhere_take_nothing(pane: Rect, splits: Seq<SplitBorder>, other: SplitBorder)
    requires
        !runs_along(other, pane, Direction::Horizontal, pane.x as int),
        !runs_along(other, pane, Direction::Horizontal, pane.x + pane.width),
        !runs_along(other, pane, Direction::Vertical, pane.y as int),
        !runs_along(other, pane, Direction::Vertical, pane.y + pane.height),
    ensures
        line_inner(pane, splits.push(other)) == line_inner(pane, splits),
{
    let more = splits.push(other);
    let n = splits.len() as int;
    assert(more.take(n) =~= splits && more.take(n + 1) =~= more);
    shares_line_step(more, n, pane, Direction::Horizontal, pane.x as int);
    shares_line_step(more, n, pane, Direction::Horizontal, pane.x + pane.width);
    shares_line_step(more, n, pane, Direction::Vertical, pane.y as int);
    shares_line_step(more, n, pane, Direction::Vertical, pane.y + pane.height);
}

/// A border keeps its pane's room inside the pane and off its outermost cells.
pub proof fn bordered_inner_avoids_border(area: Rect, x: int, y: int)
    requires
        area.x < u16::MAX,
        area.y < u16::MAX,
        in_rect(bordered_inner(area), x, y),
    ensures
        area.x < x < area.x + area.width - 1,
        area.y < y < area.y + area.height - 1,
{
}

} // verus!
