//! Labels on pane borders, cut to the width that a border leaves them.

use vstd::prelude::*;

verus! {

/// The characters with Unicode's White_Space property.
pub open spec fn is_white_space(c: char) -> bool {
    ||| '\u{9}' <= c <= '\u{d}'
    ||| c == ' '
    ||| c == '\u{85}'
    ||| c == '\u{a0}'
    ||| c == '\u{1680}'
    ||| '\u{2000}' <= c <= '\u{200a}'
    ||| c == '\u{2028}'
    ||| c == '\u{2029}'
    ||| c == '\u{202f}'
    ||| c == '\u{205f}'
    ||| c == '\u{3000}'
}

/// `text` from its first character on that is not white space.
pub open spec fn trimmed_start(text: Seq<char>) -> Seq<char>
    decreases text.len(),
{
    if text.len() > 0 && is_white_space(text.first()) {
        trimmed_start(text.drop_first())
    } else {
        text
    }
}

/// `text` up to its last character that is not white space.
pub open spec fn trimmed_end(text: Seq<char>) -> Seq<char>
    decreases text.len(),
{
    if text.len() > 0 && is_white_space(text.last()) {
        trimmed_end(text.drop_last())
    } else {
        text
    }
}

/// `text` without the white space at both ends.
pub open spec fn trimmed(text: Seq<char>) -> Seq<char> {
    trimmed_end(trimmed_start(text))
}

/// `str::trim` of the standard library. Trusted: it takes away the characters
/// with the White_Space property at both ends, and no others.
pub assume_specification[ str::trim ](text: &str) -> (rest: &str)
    ensures
        rest@ == trimmed(text@),
;

/// A character that takes exactly one cell of its own: printable ASCII, and the
/// ellipsis of a cut label.
pub open spec fn is_plain(c: char) -> bool {
    ' ' <= c <= '~' || c == '…'
}

/// Text of nothing but plain characters.
pub open spec fn is_plain_text(text: Seq<char>) -> bool {
    forall|i: int| 0 <= i < text.len() ==> is_plain(#[trigger] text[i])
}

/// Whether a text has nothing but plain characters.
pub fn has_plain_text(text: &str) -> (plain: bool)
    ensures
        plain == is_plain_text(text@),
{
    let len: usize = text.unicode_len();
    let mut i: usize = 0;
    while i < len
        invariant
            i <= len == text@.len(),
            forall|k: int| 0 <= k < i ==> is_plain(#[trigger] text@[k]),
        decreases len - i,
    {
        let c = text.get_char(i);
        if !((' ' <= c && c <= '~') || c == '…') {
            return false;
        }
        i += 1;
    }
    true
}

/// `text` where it has at most `max_width` characters, else as many of its
/// first characters as leave room for an ellipsis behind them.
pub open spec fn truncated(text: Seq<char>, max_width: nat) -> Seq<char> {
    if text.len() <= max_width {
        text
    } else if max_width == 0 {
        seq![]
    } else {
        text.take(max_width - 1).push('…')
    }
}

/// `text` cut to `max_width` characters, an ellipsis marking the cut.
pub fn truncate_label(text: &str, max_width: usize) -> (label: String)
    ensures
        label@ == truncated(text@, max_width as nat),
{
    let len: usize = text.unicode_len();
    if len <= max_width {
        return text.to_owned();
    }
    if max_width == 0 {
        return String::new();
    }
    proof {
        reveal_strlit("…");
        assert("…"@ =~= seq!['…']);
    }
    if max_width == 1 {
        let label = "…".to_owned();
        assert(label@ =~= text@.take(0).push('…'));
        return label;
    }
    let mut label: String = text.substring_char(0, max_width.saturating_sub(1)).to_owned();
    label.append("…");
    assert(label@ =~= text@.take(max_width - 1).push('…'));
    label
}

/// The title of a pane of `pane_width` columns: its trimmed label, cut to fit
/// between the corners with a space on both sides. There is none where nothing
/// of the label is left or the border has no room.
pub open spec fn border_title(label: Seq<char>, pane_width: u16) -> Option<Seq<char>> {
    let label = trimmed(label);
    if label.len() == 0 || pane_width <= 4 {
        None
    } else {
        Some(seq![' '] + truncated(label, (pane_width - 4) as nat) + seq![' '])
    }
}

/// The title that a pane's label makes on a border of `pane_width` columns.
pub fn pane_border_title(label: &str, pane_width: u16) -> (title: Option<String>)
    ensures
        match title {
            Some(text) => border_title(label@, pane_width) == Some(text@),
            None => border_title(label@, pane_width) is None,
        },
{
    let label = label.trim();
    if label.is_empty() || pane_width <= 4 {
        return None;
    }
    let max_label_width = pane_width.saturating_sub(4) as usize;
    let mut title = " ".to_owned();
    title.append(truncate_label(label, max_label_width).as_str());
    title.append(" ");
    proof {
        reveal_strlit(" ");
        assert(" "@ =~= seq![' ']);
    }
    Some(title)
}

/// A cut label has at most the width that it was cut to, and exactly that
/// width where anything was cut away.
pub proof fn truncated_label_fits(text: Seq<char>, max_width: nat)
    ensures
        truncated(text, max_width).len() <= max_width,
        text.len() > max_width ==> truncated(text, max_width).len() == max_width,
{
}

/// Cutting a label to the same width again changes nothing.
pub proof fn truncated_label_is_stable(text: Seq<char>, max_width: nat)
    ensures
        truncated(truncated(text, max_width), max_width) == truncated(text, max_width),
{
}

/// A title leaves the two corners of its border free.
pub proof fn border_title_leaves_corners(label: Seq<char>, pane_width: u16)
    ensures
        border_title(label, pane_width) matches Some(title) ==> 2 < title.len() <= pane_width - 2,
{
}

/// What trimming leaves neither starts nor ends with white space.
pub proof fn trimmed_has_bare_ends(text: Seq<char>)
    ensures
        trimmed(text).len() > 0 ==> !is_white_space(trimmed(text).first()) && !is_white_space(
            trimmed(text).last(),
        ),
{
    trimmed_start_is_bare(text);
    trimmed_end_is_bare(trimmed_start(text));
}

/// A label of plain characters makes a title of plain characters.
pub proof fn plain_label_makes_plain_title(label: Seq<char>, pane_width: u16)
    requires
        is_plain_text(label),
    ensures
        border_title(label, pane_width) matches Some(title) ==> is_plain_text(title),
{
    trimmed_start_stays_plain(label);
    trimmed_end_stays_plain(trimmed_start(label));
}

proof fn trimmed_start_stays_plain(text: Seq<char>)
    requires
        is_plain_text(text),
    ensures
        is_plain_text(trimmed_start(text)),
    decreases text.len(),
{
    if text.len() > 0 && is_white_space(text.first()) {
        trimmed_start_stays_plain(text.drop_first());
    }
}

proof fn trimmed_end_stays_plain(text: Seq<char>)
    requires
        is_plain_text(text),
    ensures
        is_plain_text(trimmed_end(text)),
    decreases text.len(),
{
    if text.len() > 0 && is_white_space(text.last()) {
        trimmed_end_stays_plain(text.drop_last());
    }
}

proof fn trimmed_start_is_bare(text: Seq<char>)
    ensures
        trimmed_start(text).len() > 0 ==> !is_white_space(trimmed_start(text).first()),
    decreases text.len(),
{
    if text.len() > 0 && is_white_space(text.first()) {
        trimmed_start_is_bare(text.drop_first());
    }
}

proof fn trimmed_end_is_bare(text: Seq<char>)
    ensures
        trimmed_end(text).len() > 0 ==> !is_white_space(trimmed_end(text).last())
            && trimmed_end(text).first() == text.first(),
    decreases text.len(),
{
    if text.len() > 0 && is_white_space(text.last()) {
        trimmed_end_is_bare(text.drop_last());
    }
}

} // verus!
