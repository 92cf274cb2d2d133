//! Snapshot application and selection survival: swapping in a fresh
//! snapshot identity-first, and moving the per-panel cursors.

use vstd::prelude::*;
use crate::app::{page_size, App, AppView};
use crate::panel::Panel;
use crate::view::{entries_view, first_index_of, opt_entry_view, rows_view, FileEntry, FileEntryView};
use crate::view_model::{
    diff_lines_of, entries_of_app, header_positions, scope_of, selected_file_of, position_of_entry,
};
use crate::model::{
    operation_label, saturate, ChangedFile, CommitInfo, GitOperation, Hunk, HunkIdentity,
    IdentityView, Snapshot,
};
use crate::status::{commit_disabled, count_conflicted, logged, logged_advisories, Severity};
use crate::text::{count_noun, count_noun_text, decimal, opt_view, owned, same_text, usize_decimal};
use crate::view::{changelist_rows_for, conflicted_count, ChangelistRow, ChangelistRowView, Scope, ScopeView};

verus! {

/// How far one movement press moves.
#[derive(Debug, Clone, Copy, PartialEq, Eq, Structural)]
pub enum Motion {
    /// One row, line or hunk — `j`/`k` and the arrows.
    Row,
    /// A screenful of the focused panel, less a row of overlap.
    Page,
    /// The whole panel: as far as its content goes.
    Jump,
}

/// `index + delta`, clamped to `[0, len)` (`0` for an empty range).
pub open spec fn stepped(index: int, delta: int, len: int) -> int {
    if len <= 0 {
        0
    } else {
        let moved = index + delta;
        if moved < 0 { 0 } else if moved > len - 1 { len - 1 } else { moved }
    }
}

/// Step an index by `delta`, clamped to `[0, len)`.
pub fn step(index: usize, delta: isize, len: usize) -> (r: usize)
    ensures
        r == stepped(index as int, delta as int, len as int),
        len > 0 ==> r < len,
        len == 0 ==> r == 0,
{
    if len == 0 {
        return 0;
    }
    let moved: usize = if delta >= 0 {
        index.saturating_add(delta as usize)
    } else {
        let back: usize = if delta == isize::MIN { (isize::MAX as usize) + 1 } else { (-delta) as usize };
        index.saturating_sub(back)
    };
    if moved < len - 1 { moved } else { len - 1 }
}

/// The first header at or past `fold`.
pub open spec fn first_at_or_past(headers: Seq<usize>, fold: int) -> Option<int>
    decreases headers.len(),
{
    if headers.len() == 0 {
        None
    } else {
        match first_at_or_past(headers.drop_last(), fold) {
            Some(i) => Some(i),
            None => if headers.last() >= fold { Some(headers.len() - 1) } else { None },
        }
    }
}

/// The last header at or before `fold`.
pub open spec fn last_at_or_before(headers: Seq<usize>, fold: int) -> Option<int>
    decreases headers.len(),
{
    if headers.len() == 0 {
        None
    } else if headers.last() <= fold {
        Some(headers.len() - 1)
    } else {
        last_at_or_before(headers.drop_last(), fold)
    }
}

/// The hunk a page of `page` lines lands on from the one at `index`:
/// downward the first header a screenful (or more) past the current one,
/// upward the last a screenful (or more) before it; neither end wraps.
pub open spec fn paged_hunk_of(headers: Seq<usize>, index: usize, direction: isize, page: usize) -> usize {
    if index >= headers.len() {
        index
    } else {
        let current = headers[index as int];
        if direction > 0 {
            let fold = if current + page > usize::MAX { usize::MAX as int } else { current + page };
            match first_at_or_past(headers, fold) {
                Some(i) => i as usize,
                None => (headers.len() - 1) as usize,
            }
        } else {
            let fold = if current - page < 0 { 0 } else { current - page };
            match last_at_or_before(headers, fold) {
                Some(i) => i as usize,
                None => 0,
            }
        }
    }
}

/// The signed step a motion takes in `direction` (`1` down, `-1` up).
pub open spec fn motion_delta(amount: usize, direction: isize) -> int {
    let a: int = if amount > isize::MAX { isize::MAX as int } else { amount as int };
    if direction > 0 { a } else { -a }
}

pub open spec fn motion_amount(a: AppView, motion: Motion) -> usize {
    match motion {
        Motion::Row => 1,
        Motion::Page => page_size(a.panel_heights.height(a.focus)),
        Motion::Jump => usize::MAX,
    }
}

/// The state after selecting Changelists row `row`: the Files panel
/// rescopes and its selection moves to the new scope's first file.
pub open spec fn with_changelist_row(a: AppView, row: usize) -> AppView {
    if row == a.changelist_row {
        a
    } else {
        let moved = AppView { changelist_row: row, diff_scroll: 0, hunk_sel: None, ..a };
        let es = entries_of_app(moved);
        AppView { file_sel: if es.len() > 0 { Some(es[0]) } else { None }, ..moved }
    }
}

/// The state after one movement press in the focused panel.
pub open spec fn moved(a: AppView, motion: Motion, direction: isize) -> AppView {
    let amount = motion_amount(a, motion);
    let delta = motion_delta(amount, direction);
    match a.focus {
        Panel::Changelists => with_changelist_row(
            a,
            stepped(a.changelist_row as int, delta, crate::view::changelist_rows_for(a.snapshot).len() as int) as usize,
        ),
        Panel::Files => {
            let es = entries_of_app(a);
            let position = match a.file_sel {
                Some(sel) => match first_index_of(es, sel) {
                    Some(i) => i,
                    None => 0,
                },
                None => 0,
            };
            let target = stepped(position, delta, es.len() as int);
            let next = if es.len() > 0 { Some(es[target]) } else { None };
            if next != a.file_sel {
                AppView { file_sel: next, diff_scroll: 0, hunk_sel: None, ..a }
            } else {
                a
            }
        },
        Panel::Commits => {
            let n = match a.snapshot {
                Some(s) => s.recent_commits@.len(),
                None => 0,
            };
            AppView { commit_row: stepped(a.commit_row as int, delta, n as int) as usize, ..a }
        },
        Panel::Diff => match a.hunk_sel {
            Some(index) => {
                let next = match motion {
                    Motion::Page => paged_hunk_of(header_positions(diff_lines_of(a)), index, direction, amount),
                    _ => {
                        let n = match selected_file_of(a) {
                            Some(f) => f.hunks@.len(),
                            None => 0,
                        };
                        stepped(index as int, delta, n as int) as usize
                    },
                };
                AppView { hunk_sel: Some(next), ..a }
            },
            None => {
                let last = diff_lines_of(a).len() - 1;
                let max: int = if last < 0 { 0 } else if last > u16::MAX { u16::MAX as int } else { last };
                let lines: int = if amount > u16::MAX { u16::MAX as int } else { amount as int };
                let scroll: int = if direction > 0 {
                    let up = a.diff_scroll + lines;
                    let sat = if up > u16::MAX { u16::MAX as int } else { up };
                    if sat < max { sat } else { max }
                } else {
                    let down = a.diff_scroll - lines;
                    if down < 0 { 0 } else { down }
                };
                AppView { diff_scroll: scroll as u16, ..a }
            },
        },
        Panel::Log => {
            let scroll: int = if direction > 0 {
                let down = a.log_scroll - amount;
                if down < 0 { 0 } else { down }
            } else {
                let up = a.log_scroll + amount;
                let sat = if up > usize::MAX { usize::MAX as int } else { up };
                let cap = if a.log.len() == 0 { 0 } else { a.log.len() - 1 };
                if sat < cap { sat } else { cap }
            };
            AppView { log_scroll: scroll as usize, ..a }
        },
        Panel::Status => a,
    }
}

fn same_opt_entry(a: &Option<FileEntry>, b: &Option<FileEntry>) -> (r: bool)
    ensures
        r == (opt_entry_view(*a) == opt_entry_view(*b)),
{
    match (a, b) {
        (Some(x), Some(y)) => x.same(y),
        (None, None) => true,
        _ => false,
    }
}

impl App {
    /// Select a Changelists row, rescoping the Files panel: selection
    /// moves to the new scope's first file.
    pub fn select_changelist_row(&mut self, row: usize)
        ensures
            final(self)@ == with_changelist_row(old(self)@, row),
    {
        if row == self.changelist_row {
            return;
        }
        self.changelist_row = row;
        self.diff_scroll = 0;
        self.hunk_sel = None;
        let entries = self.file_entries();
        self.file_sel = if entries.len() > 0 { Some(entries[0].duplicate()) } else { None };
    }

    /// The hunk a page of `page` lines lands on, from the one at `index`.
    #[verifier::loop_isolation(false)]
    pub fn paged_hunk(&self, index: usize, direction: isize, page: usize) -> (r: usize)
        ensures
            r == paged_hunk_of(header_positions(diff_lines_of(self@)), index, direction, page),
    {
        let headers = self.hunk_header_lines();
        if index >= headers.len() {
            return index;
        }
        let current = headers[index];
        if direction > 0 {
            let fold = current.saturating_add(page);
            let mut i: usize = 0;
            while i < headers.len()
                invariant
                    i <= headers.len(),
                    first_at_or_past(headers@.take(i as int), fold as int) is None,
                decreases headers.len() - i,
            {
                assert(headers@.take(i + 1).drop_last() =~= headers@.take(i as int));
                assert(headers@.take(i + 1).last() == headers@[i as int]);
                if headers[i] >= fold {
                    assert(first_at_or_past(headers@.take(i + 1), fold as int) == Some(i as int));
                    proof {
                        lemma_first_past_prefix(headers@, fold as int, i + 1);
                    }
                    return i;
                }
                i = i + 1;
            }
            assert(headers@.take(headers.len() as int) =~= headers@);
            headers.len() - 1
        } else {
            let fold = current.saturating_sub(page);
            let mut i: usize = headers.len();
            assert(headers@.take(i as int) =~= headers@);
            while i > 0
                invariant
                    i <= headers.len(),
                    last_at_or_before(headers@, fold as int) == last_at_or_before(headers@.take(i as int), fold as int),
                decreases i,
            {
                assert(headers@.take(i as int).drop_last() =~= headers@.take(i - 1));
                assert(headers@.take(i as int).last() == headers@[i - 1]);
                if headers[i - 1] <= fold {
                    assert(last_at_or_before(headers@.take(i as int), fold as int) == Some(i - 1));
                    return i - 1;
                }
                i = i - 1;
            }
            0
        }
    }

    /// Move the focused panel's selection — or its scroll, where the
    /// panel has no selection — one row, one screenful or the whole
    /// panel, in `direction` (`1` down, `-1` up).
    pub fn move_selection(&mut self, motion: Motion, direction: isize)
        requires
            direction == 1 || direction == -1,
        ensures
            final(self)@ == moved(old(self)@, motion, direction),
    {
        let amount: usize = match motion {
            Motion::Row => 1,
            Motion::Page => self.page(self.focus),
            Motion::Jump => usize::MAX,
        };
        let magnitude: isize = if amount > isize::MAX as usize { isize::MAX } else { amount as isize };
        let delta: isize = if direction > 0 { magnitude } else { -magnitude };
        match self.focus {
            Panel::Changelists => {
                let rows = self.changelist_rows().len();
                let row = step(self.changelist_row, delta, rows);
                self.select_changelist_row(row);
            },
            Panel::Files => {
                let entries = self.file_entries();
                let position = match &self.file_sel {
                    Some(sel) => match position_of_entry(&entries, sel) {
                        Some(p) => p,
                        None => 0,
                    },
                    None => 0,
                };
                let target = step(position, delta, entries.len());
                let next = if entries.len() > 0 { Some(entries[target].duplicate()) } else { None };
                if !same_opt_entry(&next, &self.file_sel) {
                    self.diff_scroll = 0;
                    // A blurred hunk selection belongs to the old file.
                    self.hunk_sel = None;
                    self.file_sel = next;
                }
            },
            Panel::Commits => {
                let commits = match &self.snapshot {
                    Some(snapshot) => snapshot.recent_commits.len(),
                    None => 0,
                };
                self.commit_row = step(self.commit_row, delta, commits);
            },
            Panel::Diff => {
                match self.hunk_sel {
                    Some(index) => {
                        let next = match motion {
                            Motion::Page => self.paged_hunk(index, direction, amount),
                            _ => {
                                let hunks = match self.selected_file() {
                                    Some(file) => file.hunks.len(),
                                    None => 0,
                                };
                                step(index, delta, hunks)
                            },
                        };
                        self.hunk_sel = Some(next);
                    },
                    None => {
                        let n = self.diff_lines().len();
                        let last = n.saturating_sub(1);
                        let max: u16 = if last > 65535 { 65535 } else { last as u16 };
                        let lines: u16 = if amount > 65535 { 65535 } else { amount as u16 };
                        self.diff_scroll = if direction > 0 {
                            let up = self.diff_scroll.saturating_add(lines);
                            if up < max { up } else { max }
                        } else {
                            self.diff_scroll.saturating_sub(lines)
                        };
                    },
                }
            },
            Panel::Log => {
                self.log_scroll = if direction > 0 {
                    self.log_scroll.saturating_sub(amount)
                } else {
                    let up = self.log_scroll.saturating_add(amount);
                    let cap = self.log.len().saturating_sub(1);
                    if up < cap { up } else { cap }
                };
            },
            Panel::Status => {},
        }
    }
}

// ── snapshot application ────────────────────────────────────────────

/// Every hunk across `files`.
pub open spec fn hunk_total(files: Seq<ChangedFile>) -> nat
    decreases files.len(),
{
    if files.len() == 0 { 0 } else { hunk_total(files.drop_last()) + files.last().hunks@.len() }
}

/// What a refresh echo counts: files, hunks (saturating) and conflicted
/// paths.
pub open spec fn refresh_counts(s: Snapshot) -> (usize, usize, usize) {
    (s.files@.len() as usize, saturate(hunk_total(s.files@)), conflicted_count(s.files@) as usize)
}

/// The event that an operation began: `<op> detected — <why>`.
pub open spec fn detected_text(op: GitOperation, conflicted: nat) -> Seq<char> {
    operation_label(op) + " detected — "@ + if conflicted > 0 {
        count_noun_text(conflicted, "file"@) + " conflicted, "@ + commit_disabled()
    } else {
        commit_disabled()
    }
}

/// The refresh echo: `refresh — N files · M hunks`, with the conflicted
/// count when there is one.
pub open spec fn echo_text(counts: (usize, usize, usize)) -> Seq<char> {
    "refresh — "@ + decimal(counts.0 as nat) + " files · "@ + decimal(counts.1 as nat) + " hunks"@
        + if counts.2 > 0 { " ("@ + decimal(counts.2 as nat) + " conflicted)"@ } else { Seq::empty() }
}

/// Whether `s` reports an operation the previous snapshot did not.
pub open spec fn operation_began(a: AppView, s: Snapshot) -> bool {
    match s.operation {
        Some(op) => match a.snapshot {
            Some(old) => old.operation != Some(op),
            None => true,
        },
        None => false,
    }
}

/// A snapshot's arrival in the Log: the refresh bookkeeping cleared, the
/// operation-began event, the echo when the counts moved, then the
/// snapshot's advisories — each exactly once.
pub open spec fn announced(a: AppView, s: Snapshot) -> AppView {
    let log1 = if operation_began(a, s) {
        logged(a.log, Severity::Info, detected_text(s.operation.unwrap(), conflicted_count(s.files@)))
    } else {
        a.log
    };
    let counts = refresh_counts(s);
    let echo = a.last_refresh_echo != Some(counts);
    let log2 = if echo { logged(log1, Severity::Info, echo_text(counts)) } else { log1 };
    AppView {
        refresh_started: None,
        last_refresh_failure: None,
        last_refresh_echo: Some(counts),
        log: logged_advisories(log2, s.advisories@),
        ..a
    }
}

/// The first Changelists row showing `scope`.
pub open spec fn first_scope_index(rows: Seq<ChangelistRowView>, scope: ScopeView) -> Option<int>
    decreases rows.len(),
{
    if rows.len() == 0 {
        None
    } else {
        match first_scope_index(rows.drop_last(), scope) {
            Some(i) => Some(i),
            None => if rows.last().scope == scope { Some(rows.len() - 1) } else { None },
        }
    }
}

/// The first entry at `path`, whatever its group.
pub open spec fn first_entry_at(es: Seq<FileEntryView>, path: Seq<char>) -> Option<int>
    decreases es.len(),
{
    if es.len() == 0 {
        None
    } else {
        match first_entry_at(es.drop_last(), path) {
            Some(i) => Some(i),
            None => if es.last().path == path { Some(es.len() - 1) } else { None },
        }
    }
}

/// The first commit with id `id`.
pub open spec fn first_commit(commits: Seq<CommitInfo>, id: Seq<char>) -> Option<int>
    decreases commits.len(),
{
    if commits.len() == 0 {
        None
    } else {
        match first_commit(commits.drop_last(), id) {
            Some(i) => Some(i),
            None => if commits.last().short_id@ == id { Some(commits.len() - 1) } else { None },
        }
    }
}

pub open spec fn distance(a: u32, b: u32) -> int {
    if a >= b { a - b } else { b - a }
}

/// Among the hunks with identity `id`, the first of those whose start is
/// nearest `start`.
pub open spec fn nearest_same_hunk(hs: Seq<Hunk>, id: IdentityView, start: u32) -> Option<int>
    decreases hs.len(),
{
    if hs.len() == 0 {
        None
    } else {
        let prev = nearest_same_hunk(hs.drop_last(), id, start);
        let closer = match prev {
            Some(p) => distance(hs.last().new_start, start) < distance(hs[p].new_start, start),
            None => true,
        };
        if hs.last().identity@ == id && closer { Some(hs.len() - 1) } else { prev }
    }
}

/// `index` clamped into `[0, len)`; `0` when there is nothing.
pub open spec fn clamped(index: int, len: int) -> int {
    if len <= 0 { 0 } else if index < len - 1 { index } else { len - 1 }
}

/// The snapshot swapped in, its Changelists row found again by scope,
/// else clamped.
pub open spec fn with_rows(b: AppView, s: Snapshot) -> AppView {
    let rows = changelist_rows_for(Some(s));
    let row = match first_scope_index(rows, scope_of(b)) {
        Some(i) => i,
        None => clamped(b.changelist_row as int, rows.len() as int),
    };
    AppView { snapshot: Some(s), changelist_row: row as usize, ..b }
}

/// The file selection carried into `c`'s entries: by (group, path), else
/// by path, else the entry at the old position (clamped), scrolled to
/// the top.
pub open spec fn with_file(c: AppView, old_sel: Option<FileEntryView>, old_pos: Option<int>) -> AppView {
    let entries = entries_of_app(c);
    let survived = match old_sel {
        Some(sel) => if first_index_of(entries, sel) is Some {
            Some(sel)
        } else {
            match first_entry_at(entries, sel.path) {
                Some(i) => Some(entries[i]),
                None => None,
            }
        },
        None => None,
    };
    match survived {
        Some(sel) => AppView { file_sel: Some(sel), ..c },
        None => {
            let position = match old_pos {
                Some(p) => p,
                None => 0,
            };
            AppView {
                diff_scroll: 0,
                file_sel: if entries.len() > 0 {
                    Some(entries[clamped(position, entries.len() as int)])
                } else {
                    None
                },
                ..c
            }
        },
    }
}

/// The hunk selection carried into `d`'s selected file: the nearest hunk
/// with the old content, else clamped; hunk mode ends (and the Diff
/// focus falls back to Files) when the file has no hunks.
pub open spec fn with_hunk(d: AppView, old_hunk: Option<(IdentityView, u32)>) -> AppView {
    match d.hunk_sel {
        None => d,
        Some(index) => {
            let hunks = match selected_file_of(d) {
                Some(f) => f.hunks@,
                None => Seq::empty(),
            };
            if hunks.len() == 0 {
                AppView { focus: if d.focus == Panel::Diff { Panel::Files } else { d.focus }, hunk_sel: None, ..d }
            } else {
                let kept = match old_hunk {
                    Some((id, start)) => nearest_same_hunk(hunks, id, start),
                    None => None,
                };
                AppView {
                    hunk_sel: Some(
                        match kept {
                            Some(p) => p as usize,
                            None => clamped(index as int, hunks.len() as int) as usize,
                        },
                    ),
                    ..d
                }
            }
        },
    }
}

/// The commit selection carried into `e`'s commits: by id, else clamped.
pub open spec fn with_commit(e: AppView, old_commit: Option<Seq<char>>) -> AppView {
    let commits = match e.snapshot {
        Some(s) => s.recent_commits@,
        None => Seq::empty(),
    };
    let row = match old_commit {
        Some(id) => match first_commit(commits, id) {
            Some(p) => p,
            None => clamped(e.commit_row as int, commits.len() as int),
        },
        None => clamped(e.commit_row as int, commits.len() as int),
    };
    AppView { commit_row: row as usize, ..e }
}

/// The selected file's position among the entries, if it is one.
pub open spec fn file_position(b: AppView) -> Option<int> {
    match b.file_sel {
        Some(sel) => first_index_of(entries_of_app(b), sel),
        None => None,
    }
}

/// The selected commit's id, if the row holds one.
pub open spec fn commit_id(b: AppView) -> Option<Seq<char>> {
    match b.snapshot {
        Some(o) => if b.commit_row < o.recent_commits@.len() {
            Some(o.recent_commits@[b.commit_row as int].short_id@)
        } else {
            None
        },
        None => None,
    }
}

/// The selected hunk's content and start, if hunk mode selects one.
pub open spec fn hunk_identity(b: AppView) -> Option<(IdentityView, u32)> {
    match b.hunk_sel {
        Some(i) => match selected_file_of(b) {
            Some(f) => if i < f.hunks@.len() {
                Some((f.hunks@[i as int].identity@, f.hunks@[i as int].new_start))
            } else {
                None
            },
            None => None,
        },
        None => None,
    }
}

/// The state after swapping in `s`: announced in the Log, then each
/// selection carried over identity-first — the changelist row by scope,
/// else clamped; the file by (group, path), else by path, else the
/// nearest sibling at its old position; the hunk by content with the
/// nearest start, else clamped, leaving hunk mode when the file has no
/// hunks left; the commit by id, else clamped.
pub open spec fn applied(a: AppView, s: Snapshot) -> AppView {
    let b = announced(a, s);
    let c = with_rows(b, s);
    let d = with_file(c, b.file_sel, file_position(b));
    let e = with_hunk(d, hunk_identity(b));
    with_commit(e, commit_id(b))
}

/// Every hunk across `files`, saturating.
pub fn total_hunk_count(files: &Vec<ChangedFile>) -> (r: usize)
    ensures
        r == saturate(hunk_total(files@)),
{
    let mut n: usize = 0;
    let mut i: usize = 0;
    while i < files.len()
        invariant
            i <= files.len(),
            n == saturate(hunk_total(files@.take(i as int))),
        decreases files.len() - i,
    {
        assert(files@.take(i + 1).drop_last() =~= files@.take(i as int));
        n = n.saturating_add(files[i].hunks.len());
        i = i + 1;
    }
    assert(files@.take(files.len() as int) =~= files@);
    n
}

fn scope_position(rows: &Vec<ChangelistRow>, scope: &Scope) -> (r: Option<usize>)
    ensures
        match r {
            Some(i) => first_scope_index(rows_view(rows@), scope@) == Some(i as int),
            None => first_scope_index(rows_view(rows@), scope@) is None,
        },
{
    let ghost all = rows_view(rows@);
    let mut i: usize = 0;
    while i < rows.len()
        invariant
            all == rows_view(rows@),
            i <= rows.len(),
            first_scope_index(all.take(i as int), scope@) is None,
        decreases rows.len() - i,
    {
        assert(all.take(i + 1).drop_last() =~= all.take(i as int));
        assert(all.take(i + 1).last() == rows@[i as int]@);
        if rows[i].scope.same(scope) {
            proof {
                lemma_scope_prefix(all, scope@, i + 1);
            }
            return Some(i);
        }
        i = i + 1;
    }
    assert(all.take(rows.len() as int) =~= all);
    None
}

proof fn lemma_scope_prefix(rows: Seq<ChangelistRowView>, scope: ScopeView, k: int)
    requires
        0 <= k <= rows.len(),
        first_scope_index(rows.take(k), scope) is Some,
    ensures
        first_scope_index(rows, scope) == first_scope_index(rows.take(k), scope),
    decreases rows.len() - k,
{
    if k < rows.len() {
        assert(rows.take(k + 1).drop_last() =~= rows.take(k));
        lemma_scope_prefix(rows, scope, k + 1);
    } else {
        assert(rows.take(k) =~= rows);
    }
}

fn entry_at_path(es: &Vec<FileEntry>, path: &str) -> (r: Option<usize>)
    ensures
        match r {
            Some(i) => first_entry_at(entries_view(es@), path@) == Some(i as int) && i < es@.len(),
            None => first_entry_at(entries_view(es@), path@) is None,
        },
{
    let ghost all = entries_view(es@);
    let mut i: usize = 0;
    while i < es.len()
        invariant
            all == entries_view(es@),
            i <= es.len(),
            first_entry_at(all.take(i as int), path@) is None,
        decreases es.len() - i,
    {
        assert(all.take(i + 1).drop_last() =~= all.take(i as int));
        assert(all.take(i + 1).last() == es@[i as int]@);
        if same_text(es[i].path.as_str(), path) {
            proof {
                lemma_entry_prefix(all, path@, i + 1);
            }
            return Some(i);
        }
        i = i + 1;
    }
    assert(all.take(es.len() as int) =~= all);
    None
}

proof fn lemma_entry_prefix(es: Seq<FileEntryView>, path: Seq<char>, k: int)
    requires
        0 <= k <= es.len(),
        first_entry_at(es.take(k), path) is Some,
    ensures
        first_entry_at(es, path) == first_entry_at(es.take(k), path),
    decreases es.len() - k,
{
    if k < es.len() {
        assert(es.take(k + 1).drop_last() =~= es.take(k));
        lemma_entry_prefix(es, path, k + 1);
    } else {
        assert(es.take(k) =~= es);
    }
}

fn commit_position(commits: &Vec<CommitInfo>, id: &str) -> (r: Option<usize>)
    ensures
        match r {
            Some(i) => first_commit(commits@, id@) == Some(i as int),
            None => first_commit(commits@, id@) is None,
        },
{
    let mut i: usize = 0;
    while i < commits.len()
        invariant
            i <= commits.len(),
            first_commit(commits@.take(i as int), id@) is None,
        decreases commits.len() - i,
    {
        assert(commits@.take(i + 1).drop_last() =~= commits@.take(i as int));
        if same_text(commits[i].short_id.as_str(), id) {
            proof {
                lemma_commit_prefix(commits@, id@, i + 1);
            }
            return Some(i);
        }
        i = i + 1;
    }
    assert(commits@.take(commits.len() as int) =~= commits@);
    None
}

proof fn lemma_commit_prefix(commits: Seq<CommitInfo>, id: Seq<char>, k: int)
    requires
        0 <= k <= commits.len(),
        first_commit(commits.take(k), id) is Some,
    ensures
        first_commit(commits, id) == first_commit(commits.take(k), id),
    decreases commits.len() - k,
{
    if k < commits.len() {
        assert(commits.take(k + 1).drop_last() =~= commits.take(k));
        lemma_commit_prefix(commits, id, k + 1);
    } else {
        assert(commits.take(k) =~= commits);
    }
}

pub proof fn lemma_nearest_in_range(hs: Seq<Hunk>, id: IdentityView, start: u32)
    ensures
        nearest_same_hunk(hs, id, start) matches Some(p) ==> 0 <= p < hs.len(),
    decreases hs.len(),
{
    if hs.len() > 0 {
        lemma_nearest_in_range(hs.drop_last(), id, start);
    }
}

/// The hunk among `hs` a hunk selection survives onto.
fn nearest_hunk_position(hs: &Vec<Hunk>, id: &HunkIdentity, start: u32) -> (r: Option<usize>)
    ensures
        match r {
            Some(i) => nearest_same_hunk(hs@, id@, start) == Some(i as int),
            None => nearest_same_hunk(hs@, id@, start) is None,
        },
{
    let mut best: Option<usize> = None;
    let mut best_distance: u32 = 0;
    let mut i: usize = 0;
    while i < hs.len()
        invariant
            i <= hs.len(),
            match best {
                Some(p) => nearest_same_hunk(hs@.take(i as int), id@, start) == Some(p as int)
                    && p < i && best_distance == distance(hs@[p as int].new_start, start),
                None => nearest_same_hunk(hs@.take(i as int), id@, start) is None,
            },
        decreases hs.len() - i,
    {
        let ghost pre = hs@.take(i as int);
        assert(hs@.take(i + 1).drop_last() =~= pre);
        assert(hs@.take(i + 1).last() == hs@[i as int]);
        let h = &hs[i];
        let d: u32 = if h.new_start >= start { h.new_start - start } else { start - h.new_start };
        if h.identity.same_hunk(id) {
            let closer = match best {
                Some(_) => d < best_distance,
                None => true,
            };
            if closer {
                best = Some(i);
                best_distance = d;
            }
        }
        i = i + 1;
    }
    assert(hs@.take(hs.len() as int) =~= hs@);
    best
}

impl App {
    /// The snapshot's arrival in the Log: the refresh bookkeeping, the
    /// operation-began event, the echo when the counts moved, and the
    /// snapshot's advisories.
    fn announce(&mut self, snapshot: &Snapshot)
        ensures
            final(self)@ == announced(old(self)@, *snapshot),
    {
        self.refresh_started = None;
        self.last_refresh_failure = None;

        // The moment an operation condition begins is an event; the pin
        // carries the live state after.
        let old_operation = match &self.snapshot {
            Some(old) => old.operation,
            None => None,
        };
        if let Some(operation) = snapshot.operation {
            let began = match old_operation {
                Some(o) => o != operation,
                None => true,
            };
            if began {
                let conflicted = count_conflicted(&snapshot.files);
                let mut text = owned(operation.label());
                text.append(" detected — ");
                if conflicted > 0 {
                    text.append(count_noun(conflicted, "file").as_str());
                    text.append(" conflicted, ");
                }
                text.append("commit disabled");
                assert(text@ =~= detected_text(operation, conflicted_count(snapshot.files@)));
                self.push_log(Severity::Info, text.as_str());
            }
        }
        let ghost log1 = self@.log;
        assert(log1 == if operation_began(old(self)@, *snapshot) {
            logged(old(self)@.log, Severity::Info, detected_text(snapshot.operation.unwrap(), conflicted_count(snapshot.files@)))
        } else {
            old(self)@.log
        });

        // The refresh echo: quiet when nothing moved.
        let hunks = total_hunk_count(&snapshot.files);
        let conflicted = count_conflicted(&snapshot.files);
        let files = snapshot.files.len();
        let unchanged = match self.last_refresh_echo {
            Some((f, h, c)) => f == files && h == hunks && c == conflicted,
            None => false,
        };
        self.last_refresh_echo = Some((files, hunks, conflicted));
        if !unchanged {
            let mut echo = owned("refresh — ");
            echo.append(usize_decimal(files).as_str());
            echo.append(" files · ");
            echo.append(usize_decimal(hunks).as_str());
            echo.append(" hunks");
            if conflicted > 0 {
                echo.append(" (");
                echo.append(usize_decimal(conflicted).as_str());
                echo.append(" conflicted)");
            }
            assert(echo@ =~= echo_text((files, hunks, conflicted)));
            self.push_log(Severity::Info, echo.as_str());
        }
        assert((files, hunks, conflicted) == refresh_counts(*snapshot));
        assert(unchanged == (old(self)@.last_refresh_echo == Some(refresh_counts(*snapshot))));

        // This refresh's automatic membership decisions, each once.
        self.push_advisories(&snapshot.advisories);
    }

    /// Swap in the snapshot and find the Changelists row again.
    fn reselect_row(&mut self, snapshot: Snapshot)
        ensures
            final(self)@ == with_rows(old(self)@, snapshot),
    {
        let old_scope = self.scope();
        self.snapshot = Some(snapshot);
        let rows = self.changelist_rows();
        self.changelist_row = match scope_position(&rows, &old_scope) {
            Some(i) => i,
            None => {
                let last = rows.len().saturating_sub(1);
                if self.changelist_row < last { self.changelist_row } else { last }
            },
        };
    }

    /// Carry the file selection `old_sel` into the current entries.
    fn reselect_file(&mut self, old_sel: Option<FileEntry>, old_pos: Option<usize>)
        ensures
            final(self)@ == with_file(
                old(self)@,
                opt_entry_view(old_sel),
                match old_pos { Some(p) => Some(p as int), None => None },
            ),
    {
        let entries = self.file_entries();
        let survived: Option<FileEntry> = match &old_sel {
            Some(sel) => match position_of_entry(&entries, sel) {
                Some(_) => Some(sel.duplicate()),
                None => match entry_at_path(&entries, sel.path.as_str()) {
                    Some(i) => Some(entries[i].duplicate()),
                    None => None,
                },
            },
            None => None,
        };
        match survived {
            Some(sel) => {
                self.file_sel = Some(sel);
            },
            None => {
                self.diff_scroll = 0;
                let position = match old_pos {
                    Some(p) => p,
                    None => 0,
                };
                self.file_sel = if entries.len() > 0 {
                    let last = entries.len() - 1;
                    let at = if position < last { position } else { last };
                    Some(entries[at].duplicate())
                } else {
                    None
                };
            },
        }
    }

    /// Carry the hunk selection into the current file's hunks.
    fn reselect_hunk(&mut self, old_hunk: &Option<(HunkIdentity, u32)>)
        ensures
            final(self)@ == with_hunk(
                old(self)@,
                match old_hunk { Some((id, start)) => Some((id@, *start)), None => None },
            ),
    {
        if let Some(index) = self.hunk_sel {
            let count = match self.selected_file() {
                Some(file) => file.hunks.len(),
                None => 0,
            };
            if count == 0 {
                if self.focus == Panel::Diff {
                    self.focus = Panel::Files;
                }
                self.hunk_sel = None;
            } else {
                let kept = match old_hunk {
                    Some((identity, start)) => match self.selected_file() {
                        Some(file) => nearest_hunk_position(&file.hunks, identity, *start),
                        None => None,
                    },
                    None => None,
                };
                let last = count - 1;
                self.hunk_sel = Some(match kept {
                    Some(p) => p,
                    None => if index < last { index } else { last },
                });
            }
        }
    }

    /// Carry the commit selection, by id, into the current commits.
    fn reselect_commit(&mut self, old_commit: &Option<String>)
        ensures
            final(self)@ == with_commit(old(self)@, opt_view(old_commit)),
    {
        let (n, kept) = match &self.snapshot {
            Some(snapshot) => (
                snapshot.recent_commits.len(),
                match old_commit {
                    Some(id) => commit_position(&snapshot.recent_commits, id.as_str()),
                    None => None,
                },
            ),
            None => (0, None),
        };
        self.commit_row = match kept {
            Some(p) => p,
            None => {
                let last = n.saturating_sub(1);
                if self.commit_row < last { self.commit_row } else { last }
            },
        };
    }

    /// Swap in a whole snapshot, preserving selections identity-first:
    /// changelist by name, file by (group, path) then by path alone,
    /// else the nearest sibling by visual position.
    pub fn apply_snapshot(&mut self, snapshot: Snapshot)
        ensures
            final(self)@ == applied(old(self)@, snapshot),
    {
        self.announce(&snapshot);
        let ghost b = self@;

        let old_entries = self.file_entries();
        let old_sel: Option<FileEntry> = match &self.file_sel {
            Some(sel) => Some(sel.duplicate()),
            None => None,
        };
        let old_pos = match &self.file_sel {
            Some(sel) => position_of_entry(&old_entries, sel),
            None => None,
        };
        let old_commit: Option<String> = match &self.snapshot {
            Some(old) => if self.commit_row < old.recent_commits.len() {
                Some(old.recent_commits[self.commit_row].short_id.clone())
            } else {
                None
            },
            None => None,
        };
        let old_hunk: Option<(HunkIdentity, u32)> = match self.hunk_sel {
            Some(index) => match self.selected_file() {
                Some(file) => if index < file.hunks.len() {
                    Some((file.hunks[index].identity.duplicate(), file.hunks[index].new_start))
                } else {
                    None
                },
                None => None,
            },
            None => None,
        };
        assert(opt_entry_view(old_sel) == b.file_sel);
        assert(opt_view(&old_commit) == commit_id(b));

        self.reselect_row(snapshot);
        self.reselect_file(old_sel, old_pos);
        self.reselect_hunk(&old_hunk);
        self.reselect_commit(&old_commit);
    }
}

proof fn lemma_first_past_prefix(headers: Seq<usize>, fold: int, k: int)
    requires
        0 <= k <= headers.len(),
        first_at_or_past(headers.take(k), fold) is Some,
    ensures
        first_at_or_past(headers, fold) == first_at_or_past(headers.take(k), fold),
    decreases headers.len() - k,
{
    if k < headers.len() {
        assert(headers.take(k + 1).drop_last() =~= headers.take(k));
        lemma_first_past_prefix(headers, fold, k + 1);
    } else {
        assert(headers.take(k) =~= headers);
    }
}

} // verus!
