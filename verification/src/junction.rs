//! The character of a split line in a cell, from the lines around the cell.

use vstd::prelude::*;

verus! {

/// The heavy form of a light junction. Other characters have none and stay.
pub open spec fn heavy(c: char) -> char {
    if c == '├' {
        '┣'
    } else if c == '┤' {
        '┫'
    } else if c == '┬' {
        '┳'
    } else if c == '┴' {
        '┻'
    } else if c == '┼' {
        '╋'
    } else {
        c
    }
}

/// The light character of a cell: a plain line where only lines of one kind
/// meet it, a junction where both kinds do. A corner is drawn as a crossing.
pub open spec fn light_junction(
    v_above: bool,
    v_below: bool,
    h_left: bool,
    h_right: bool,
    vert_ch: char,
    horiz_ch: char,
    fallback: char,
) -> char {
    let vertical = v_above || v_below;
    let horizontal = h_left || h_right;
    if !vertical && !horizontal {
        fallback
    } else if !horizontal {
        vert_ch
    } else if !vertical {
        horiz_ch
    } else if v_above && v_below && h_left != h_right {
        if h_right {
            '├'
        } else {
            '┤'
        }
    } else if h_left && h_right && v_above != v_below {
        if v_below {
            '┬'
        } else {
            '┴'
        }
    } else {
        '┼'
    }
}

/// The character of a cell, light or heavy. The fallback of a cell without lines
/// around it is taken as it is.
pub open spec fn junction(
    v_above: bool,
    v_below: bool,
    h_left: bool,
    h_right: bool,
    vert_ch: char,
    horiz_ch: char,
    thick: bool,
    fallback: char,
) -> char {
    let light = light_junction(v_above, v_below, h_left, h_right, vert_ch, horiz_ch, fallback);
    if thick && (v_above || v_below || h_left || h_right) {
        heavy(light)
    } else {
        light
    }
}

/// The character of a cell, from which of its four neighbours have split lines.
/// A cell without such neighbours gets `fallback`.
pub fn junction_char(
    v_above: bool,
    v_below: bool,
    h_left: bool,
    h_right: bool,
    vert_ch: char,
    horiz_ch: char,
    thick: bool,
    fallback: char,
) -> (ch: char)
    ensures
        ch == junction(v_above, v_below, h_left, h_right, vert_ch, horiz_ch, thick, fallback),
{
    let thin_ch = match (v_above, v_below, h_left, h_right) {
        // Plain lines.
        (true, true, false, false) => vert_ch,
        (false, false, true, true) => horiz_ch,
        // A vertical line with a branch.
        (true, true, false, true) => '├',
        (true, true, true, false) => '┤',
        // A horizontal line with a branch.
        (false, true, true, true) => '┬',
        (true, false, true, true) => '┴',
        // A crossing.
        (true, true, true, true) => '┼',
        // The end of a line at a pane's edge.
        (true, false, false, false) | (false, true, false, false) => vert_ch,
        (false, false, true, false) | (false, false, false, true) => horiz_ch,
        // A line of a single cell.
        (false, false, false, false) => fallback,
        // Corners.
        _ => '┼',
    };
    if thick && (v_above || v_below || h_left || h_right) {
        match thin_ch {
            '├' => '┣',
            '┤' => '┫',
            '┬' => '┳',
            '┴' => '┻',
            '┼' => '╋',
            other => other,
        }
    } else {
        thin_ch
    }
}

/// A cell that only vertical lines meet is drawn as a vertical line, and the
/// same of horizontal ones: line characters that are no junctions themselves
/// stay as they are given, light or heavy.
pub proof fn plain_lines_keep_their_character(
    v_above: bool,
    v_below: bool,
    h_left: bool,
    h_right: bool,
    vert_ch: char,
    horiz_ch: char,
    thick: bool,
    fallback: char,
)
    requires
        heavy(vert_ch) == vert_ch,
        heavy(horiz_ch) == horiz_ch,
    ensures
        !h_left && !h_right && (v_above || v_below) ==> junction(
            v_above,
            v_below,
            h_left,
            h_right,
            vert_ch,
            horiz_ch,
            thick,
            fallback,
        ) == vert_ch,
        !v_above && !v_below && (h_left || h_right) ==> junction(
            v_above,
            v_below,
            h_left,
            h_right,
            vert_ch,
            horiz_ch,
            thick,
            fallback,
        ) == horiz_ch,
{
}

/// A cell that no lines meet shows its fallback as it is given, light or heavy.
pub proof fn lone_cell_shows_its_fallback(
    vert_ch: char,
    horiz_ch: char,
    thick: bool,
    fallback: char,
)
    ensures
        junction(false, false, false, false, vert_ch, horiz_ch, thick, fallback) == fallback,
{
}

} // verus!
