use panes::junction::junction_char;
use panes::label::{has_plain_text, pane_border_title, truncate_label};

#[test]
fn pane_border_title_trims_and_truncates() {
    assert_eq!(
        pane_border_title(" editor ", 20).as_deref(),
        Some(" editor ")
    );
    assert_eq!(pane_border_title("", 20), None);
    assert_eq!(pane_border_title("abcdef", 8).as_deref(), Some(" abc… "));
    assert_eq!(pane_border_title("abcdef", 4), None);
}

#[test]
fn titles_need_something_left_and_room() {
    assert_eq!(pane_border_title(" \t\n ", 20), None);
    assert_eq!(pane_border_title("a", 5).as_deref(), Some(" a "));
    assert_eq!(pane_border_title("ab", 5).as_deref(), Some(" … "));
    assert_eq!(pane_border_title("\u{3000}größe\u{a0}", 9).as_deref(), Some(" größe "));
    assert_eq!(pane_border_title("größer", 9).as_deref(), Some(" größ… "));
}

#[test]
fn trimming_takes_white_space_and_nothing_else() {
    let white = [
        '\u{9}', '\u{a}', '\u{b}', '\u{c}', '\u{d}', ' ', '\u{85}', '\u{a0}', '\u{1680}',
        '\u{2000}', '\u{2001}', '\u{2002}', '\u{2003}', '\u{2004}', '\u{2005}', '\u{2006}',
        '\u{2007}', '\u{2008}', '\u{2009}', '\u{200a}', '\u{2028}', '\u{2029}', '\u{202f}',
        '\u{205f}', '\u{3000}',
    ];
    for c in '\0'..=char::MAX {
        let label = format!("{c}x{c}");
        let expected = if white.contains(&c) {
            " x ".to_string()
        } else {
            format!(" {label} ")
        };
        assert_eq!(pane_border_title(&label, 20), Some(expected));
    }
}

#[test]
fn labels_are_cut_with_an_ellipsis() {
    assert_eq!(truncate_label("abc", 3), "abc");
    assert_eq!(truncate_label("abcd", 3), "ab…");
    assert_eq!(truncate_label("abcd", 2), "a…");
    assert_eq!(truncate_label("abcd", 1), "…");
    assert_eq!(truncate_label("abcd", 0), "");
    assert_eq!(truncate_label("", 0), "");
    assert_eq!(truncate_label("äöüß", 3), "äö…");
    let cut = truncate_label("abcdefgh", 5);
    assert_eq!(truncate_label(&cut, 5), cut);
}

#[test]
fn junction_char_simple_lines() {
    let v = '│';
    let h = '─';
    // Vertical pass-through.
    assert_eq!(
        junction_char(true, true, false, false, v, h, false, '.'),
        '│'
    );
    // Horizontal pass-through.
    assert_eq!(
        junction_char(false, false, true, true, v, h, false, '.'),
        '─'
    );
}

#[test]
fn junction_char_t_junctions() {
    let v = '│';
    let h = '─';
    // Thin T-junctions.
    assert_eq!(
        junction_char(true, true, false, true, v, h, false, '.'),
        '├'
    );
    assert_eq!(
        junction_char(true, true, true, false, v, h, false, '.'),
        '┤'
    );
    assert_eq!(
        junction_char(false, true, true, true, v, h, false, '.'),
        '┬'
    );
    assert_eq!(
        junction_char(true, false, true, true, v, h, false, '.'),
        '┴'
    );
    // Thick T-junctions.
    assert_eq!(junction_char(true, true, false, true, v, h, true, '.'), '┣');
    assert_eq!(junction_char(true, true, true, false, v, h, true, '.'), '┫');
    assert_eq!(junction_char(false, true, true, true, v, h, true, '.'), '┳');
    assert_eq!(junction_char(true, false, true, true, v, h, true, '.'), '┻');
}

#[test]
fn junction_char_full_crossing() {
    let v = '│';
    let h = '─';
    assert_eq!(junction_char(true, true, true, true, v, h, false, '.'), '┼');
    assert_eq!(junction_char(true, true, true, true, v, h, true, '.'), '╋');
}

#[test]
fn junction_char_edge_single_direction() {
    let v = '│';
    let h = '─';
    // Vertical only: one end terminates at a pane boundary.
    assert_eq!(
        junction_char(true, false, false, false, v, h, false, '.'),
        '│'
    );
    assert_eq!(
        junction_char(false, true, false, false, v, h, false, '.'),
        '│'
    );
    // Horizontal only.
    assert_eq!(
        junction_char(false, false, true, false, v, h, false, '.'),
        '─'
    );
    assert_eq!(
        junction_char(false, false, false, true, v, h, false, '.'),
        '─'
    );
}

#[test]
fn junction_char_degenerate_uses_fallback() {
    let v = '│';
    let h = '─';
    assert_eq!(
        junction_char(false, false, false, false, v, h, false, '│'),
        '│'
    );
    assert_eq!(
        junction_char(false, false, false, false, v, h, false, '─'),
        '─'
    );
}

#[test]
fn junction_char_catch_all_patterns() {
    let v = '│';
    let h = '─';
    // Corner patterns with no continuation on one side.
    // thin.
    assert_eq!(
        junction_char(false, true, false, true, v, h, false, '.'),
        '┼'
    );
    assert_eq!(
        junction_char(false, true, true, false, v, h, false, '.'),
        '┼'
    );
    assert_eq!(
        junction_char(true, false, false, true, v, h, false, '.'),
        '┼'
    );
    assert_eq!(
        junction_char(true, false, true, false, v, h, false, '.'),
        '┼'
    );
    // thick.
    assert_eq!(
        junction_char(false, true, false, true, v, h, true, '.'),
        '╋'
    );
    assert_eq!(
        junction_char(false, true, true, false, v, h, true, '.'),
        '╋'
    );
    assert_eq!(
        junction_char(true, false, false, true, v, h, true, '.'),
        '╋'
    );
    assert_eq!(
        junction_char(true, false, true, false, v, h, true, '.'),
        '╋'
    );
}

#[test]
fn thick_keeps_plain_line_characters() {
    assert_eq!(junction_char(true, true, false, false, '┃', '━', true, '.'), '┃');
    assert_eq!(junction_char(false, false, true, false, '┃', '━', true, '.'), '━');
    assert_eq!(junction_char(false, false, false, false, '┃', '━', true, '┃'), '┃');
    // Without lines around it a cell shows its fallback as it is.
    assert_eq!(junction_char(false, false, false, false, '┃', '━', true, '┼'), '┼');
    assert_eq!(junction_char(false, false, false, false, '┃', '━', false, '┼'), '┼');
    // A junction that is given as a plain character is made heavy as well.
    assert_eq!(junction_char(true, true, false, false, '┼', '━', true, '.'), '╋');
}

#[test]
fn plain_text_is_printable_ascii_and_the_ellipsis() {
    for c in '\0'..=char::MAX {
        let plain = (' '..='~').contains(&c) || c == '…';
        assert_eq!(has_plain_text(&format!("a{c}")), plain);
    }
    assert!(has_plain_text(""));
}
