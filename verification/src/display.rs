//! Small renderer helpers with rules of their own: a change kind's
//! sigil, an author's initials, and the scroll offset that keeps a
//! selected row in view.

use vstd::prelude::*;
use crate::model::ChangeKind;
use crate::text::{chars_of, is_white_space, white_space};

verus! {

/// The renderer's glyph tokens: replaceable like the colours, so a theme
/// swaps them without touching the renderer.
pub struct Glyphs {
    pub staged: char,
    pub partially_staged: char,
    pub unstaged: char,
    pub staged_stale: char,
    pub active: char,
    pub all: char,
    pub unassigned: char,
    pub group: char,
    pub refreshing: char,
    /// The Status panel's leading mark.
    pub ok: char,
    /// The Status panel's repo → branch separator, and the help
    /// overlay's drill arrow.
    pub arrow: char,
    /// Log severities: their own tokens, distinct from the staging set
    /// and the unassigned marker.
    pub log_info: char,
    pub log_notice: char,
    pub log_error: char,
    /// The pinned-condition marker at the top of the Log panel.
    pub pin: char,
    /// Diff hunk-tag delimiters.
    pub tag_open: char,
    pub tag_close: char,
    /// The persistent selection cursor.
    pub cursor: char,
}

/// The one-letter sigil the Files panel shows for a change kind.
pub open spec fn sigil(kind: ChangeKind) -> char {
    match kind {
        ChangeKind::Added => 'A',
        ChangeKind::Modified => 'M',
        ChangeKind::Deleted => 'D',
        ChangeKind::TypeChanged => 'T',
        ChangeKind::Untracked => '?',
        ChangeKind::Conflicted => 'U',
    }
}

pub fn kind_sigil(kind: ChangeKind) -> (r: char)
    ensures
        r == sigil(kind),
{
    match kind {
        ChangeKind::Added => 'A',
        ChangeKind::Modified => 'M',
        ChangeKind::Deleted => 'D',
        ChangeKind::TypeChanged => 'T',
        ChangeKind::Untracked => '?',
        ChangeKind::Conflicted => 'U',
    }
}

/// What `char::to_uppercase` yields for `c`: one character or several
/// (`ß` gives `SS`), by std's Unicode tables.
pub uninterp spec fn uppercase(c: char) -> Seq<char>;

/// `char::to_uppercase`, collected.
///
/// Claims only that the result is the (named) uppercase mapping of `c`.
#[verifier::external_body]
fn upper(c: char) -> (r: String)
    ensures
        r@ == uppercase(c),
{
    c.to_uppercase().collect()
}

/// The first character of every white-space-separated word of `s`.
pub open spec fn word_starts(s: Seq<char>) -> Seq<char>
    decreases s.len(),
{
    if s.len() == 0 {
        Seq::empty()
    } else {
        let prev = word_starts(s.drop_last());
        let c = s.last();
        if !white_space(c) && (s.len() == 1 || white_space(s[s.len() - 2])) { prev.push(c) } else { prev }
    }
}

/// The uppercase mappings of `cs`, one after another.
pub open spec fn uppercased(cs: Seq<char>) -> Seq<char>
    decreases cs.len(),
{
    if cs.len() == 0 { Seq::empty() } else { uppercased(cs.drop_last()) + uppercase(cs.last()) }
}

/// Two-letter author initials: the first two words' first letters,
/// uppercased.
pub open spec fn initials_text(author: Seq<char>) -> Seq<char> {
    let starts = word_starts(author);
    uppercased(if starts.len() <= 2 { starts } else { starts.take(2) })
}

/// Two-letter author initials for the Commits panel.
pub fn initials(author: &str) -> (r: String)
    ensures
        r@ == initials_text(author@),
{
    let cs = chars_of(author);
    let mut starts: Vec<char> = Vec::new();
    let mut i: usize = 0;
    while i < cs.len()
        invariant
            cs@ == author@,
            i <= cs.len(),
            starts@ == word_starts(cs@.take(i as int)),
        decreases cs.len() - i,
    {
        assert(cs@.take(i + 1).drop_last() =~= cs@.take(i as int));
        assert(cs@.take(i + 1).last() == cs@[i as int]);
        if i > 0 {
            assert(cs@.take(i + 1)[i - 1] == cs@[i - 1]);
        }
        let c = cs[i];
        let starts_word = !is_white_space(c) && (i == 0 || is_white_space(cs[i - 1]));
        if starts_word {
            starts.push(c);
        }
        i = i + 1;
    }
    assert(cs@.take(cs.len() as int) =~= cs@);
    let ghost firsts = if starts@.len() <= 2 { starts@ } else { starts@.take(2) };
    let n: usize = if starts.len() <= 2 { starts.len() } else { 2 };
    let mut out = String::new();
    let mut j: usize = 0;
    while j < n
        invariant
            n <= starts.len(),
            n == firsts.len(),
            firsts == if starts@.len() <= 2 { starts@ } else { starts@.take(2) },
            j <= n,
            out@ == uppercased(firsts.take(j as int)),
        decreases n - j,
    {
        assert(firsts.take(j + 1).drop_last() =~= firsts.take(j as int));
        out.append(upper(starts[j]).as_str());
        j = j + 1;
    }
    assert(firsts.take(n as int) =~= firsts);
    out
}

/// The scroll offset keeping row `selected` inside a viewport of
/// `height` rows: the row index taken as a `u16` (so modulo 65536), less
/// one screen but a row, floored at zero.
pub open spec fn visible_offset(selected: usize, height: u16) -> int {
    let row = (selected % 65536) as int;
    let reach = if height > 0 { height - 1 } else { 0 };
    if row > reach { row - reach } else { 0 }
}

/// Scroll offset keeping `selected` inside a viewport of `height` rows.
pub fn keep_visible(selected: usize, height: u16) -> (r: u16)
    ensures
        r as int == visible_offset(selected, height),
{
    let row = selected as u16;
    assert(row as usize == selected % 65536) by (bit_vector)
        requires
            row == selected as u16,
    ;
    row.saturating_sub(height.saturating_sub(1))
}

} // verus!
