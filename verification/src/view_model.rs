//! The App's view-models: the Changelists and Files rows for the current
//! scope, the selected file, and the Diff panel's title and body.

use vstd::prelude::*;
use crate::app::{App, AppView};
use crate::model::{
    coords_text, hunks_view, ChangeKind, ChangedFile, Changelist, FileStage, Hunk, HunkIdentity,
    HunkStage, Snapshot,
};
use crate::text::{
    after_last_slash, count_noun, count_noun_text, decimal, file_name, opt_view, owned,
    push_char, same_text, strip_newlines, trim_end_newlines, u64_decimal, usize_decimal,
};
use crate::view::{
    all_view_rows, changelist_groups, changelist_rows_for, conflicted_count, diff_view,
    entries_of, entries_view, files_rows_for, files_rows_view, first_with_path, group_owner,
    group_rows, group_size, header, in_group, is_active, lemma_group_size_bounded, marker,
    owned_count, owned_counts, owned_with, owns, owns_hunk, rows_view, scope_group, scope_owner,
    ChangelistRow, ChangelistRowView, DiffLine, DiffLineView, FileEntry, FileEntryView, FilesRow,
    FilesRowView, Group, GroupView, HunkTag, HunkTagView, Scope, ScopeView,
};

verus! {

// ── scope and rows ──────────────────────────────────────────────────

/// The drill-down scope: the selected Changelists row's, All when the
/// row index is past the end.
pub open spec fn scope_of(a: AppView) -> ScopeView {
    let rows = changelist_rows_for(a.snapshot);
    if a.changelist_row < rows.len() { rows[a.changelist_row as int].scope } else { ScopeView::All }
}

pub open spec fn files_rows_of(a: AppView) -> Seq<FilesRowView> {
    files_rows_for(a.snapshot, scope_of(a))
}

pub open spec fn entries_of_app(a: AppView) -> Seq<FileEntryView> {
    entries_of(files_rows_of(a))
}

/// The snapshot file the selection points at: the first file at the
/// selected path.
pub open spec fn selected_index(a: AppView) -> Option<int> {
    match (a.file_sel, a.snapshot) {
        (Some(sel), Some(s)) => first_with_path(s.files@, sel.path),
        _ => None,
    }
}

pub open spec fn selected_file_of(a: AppView) -> Option<ChangedFile> {
    match selected_index(a) {
        Some(i) => Some(a.snapshot.unwrap().files@[i]),
        None => None,
    }
}

/// The selection's 1-based position among the entries (0 when none) and
/// the number of entries.
pub open spec fn files_count_of(a: AppView) -> (usize, usize) {
    let es = entries_of_app(a);
    let position = match a.file_sel {
        Some(sel) => match crate::view::first_index_of(es, sel) {
            Some(i) => (i + 1) as usize,
            None => 0,
        },
        None => 0,
    };
    (position, es.len() as usize)
}

proof fn lemma_entries_bounded(rows: Seq<FilesRowView>)
    ensures
        entries_of(rows).len() <= rows.len(),
    decreases rows.len(),
{
    if rows.len() > 0 {
        lemma_entries_bounded(rows.drop_last());
    }
}

/// How many of `files` render under `owner`'s group.
fn group_len(files: &Vec<ChangedFile>, owner: &Option<String>) -> (r: usize)
    ensures
        r == group_size(files@, opt_view(owner)),
{
    let ghost o = opt_view(owner);
    let mut n: usize = 0;
    let mut i: usize = 0;
    while i < files.len()
        invariant
            o == opt_view(owner),
            i <= files.len(),
            n == group_size(files@.take(i as int), o),
        decreases files.len() - i,
    {
        assert(files@.take(i + 1).drop_last() =~= files@.take(i as int));
        assert(files@.take(i + 1).last() == files@[i as int]);
        proof {
            lemma_group_size_bounded(files@.take(i as int), o);
        }
        if crate::view::holds(&files[i], owner) {
            n = n + 1;
        }
        i = i + 1;
    }
    assert(files@.take(files.len() as int) =~= files@);
    n
}

fn group_row(f: &ChangedFile, group: &Group, indent: bool) -> (r: FilesRow)
    ensures
        r@ == crate::view::file_row(*f, group@, indent),
{
    let entry = FileEntry { group: group.duplicate(), path: f.path.clone() };
    match group.owner() {
        None => FilesRow::File { entry, stage: FileStage::Unstaged, kind: f.kind, staged: 0, total: 0, indent },
        Some(owner) => {
            let (total, staged, stale) = owned_counts(&f.hunks, &owner);
            let stage = if total > 0 && staged == total {
                FileStage::Staged
            } else if staged == 0 && stale == 0 {
                FileStage::Unstaged
            } else {
                FileStage::PartiallyStaged
            };
            FilesRow::File { entry, stage, kind: f.kind, staged, total, indent }
        },
    }
}

/// Append the rows of every file `group` holds.
fn push_group_rows(rows: &mut Vec<FilesRow>, files: &Vec<ChangedFile>, group: &Group, indent: bool)
    ensures
        files_rows_view(final(rows)@) == files_rows_view(old(rows)@) + group_rows(files@, group@, indent),
{
    let ghost start = files_rows_view(rows@);
    let owner = group.owner();
    let mut i: usize = 0;
    while i < files.len()
        invariant
            i <= files.len(),
            match owner {
                None => group_owner(group@) is None,
                Some(o) => group_owner(group@) == Some(opt_view(&o)),
            },
            files_rows_view(rows@) =~= start + group_rows(files@.take(i as int), group@, indent),
        decreases files.len() - i,
    {
        assert(files@.take(i + 1).drop_last() =~= files@.take(i as int));
        assert(files@.take(i + 1).last() == files@[i as int]);
        let f = &files[i];
        let member = match &owner {
            None => f.kind == ChangeKind::Conflicted,
            Some(o) => crate::view::holds(f, o),
        };
        if member {
            let ghost before = rows@;
            rows.push(group_row(f, group, indent));
            assert(files_rows_view(rows@) =~= files_rows_view(before).push(rows@.last()@));
        }
        i = i + 1;
    }
    assert(files@.take(files.len() as int) =~= files@);
}

fn header_row(label: String, count: usize, unassigned: bool, conflicted: bool, active: bool) -> (r: FilesRow)
    ensures
        r@ == header(label@, count as nat, unassigned, conflicted, active),
{
    FilesRow::Header { label, count, unassigned, conflicted, active }
}

fn active_is(snapshot: &Snapshot, name: &String) -> (r: bool)
    ensures
        r == is_active(*snapshot, name@),
{
    match &snapshot.active {
        Some(a) => same_text(a.as_str(), name.as_str()),
        None => false,
    }
}

fn all_rows(snapshot: &Snapshot) -> (r: Vec<FilesRow>)
    ensures
        files_rows_view(r@) == all_view_rows(*snapshot),
{
    let files = &snapshot.files;
    let mut rows: Vec<FilesRow> = Vec::new();
    let conflicts = crate::status::count_conflicted(files);
    if conflicts > 0 {
        rows.push(header_row(owned("conflicts"), conflicts, false, true, false));
        push_group_rows(&mut rows, files, &Group::Conflicts, true);
    }
    let ghost conflict_part = files_rows_view(rows@);
    assert(conflict_part =~= (if conflicts > 0 {
        seq![header("conflicts"@, conflicts as nat, false, true, false)] + group_rows(files@, GroupView::Conflicts, true)
    } else {
        Seq::empty()
    }));
    let cls = &snapshot.changelists;
    let mut i: usize = 0;
    while i < cls.len()
        invariant
            i <= cls.len(),
            files == &snapshot.files,
            cls == &snapshot.changelists,
            files_rows_view(rows@) =~= conflict_part + changelist_groups(*snapshot, cls@.take(i as int)),
        decreases cls.len() - i,
    {
        assert(cls@.take(i + 1).drop_last() =~= cls@.take(i as int));
        assert(cls@.take(i + 1).last() == cls@[i as int]);
        let name = &cls[i].name;
        let some_name = Some(name.clone());
        let count = group_len(files, &some_name);
        let ghost before = files_rows_view(rows@);
        rows.push(header_row(name.clone(), count, false, false, active_is(snapshot, name)));
        push_group_rows(&mut rows, files, &Group::Changelist(name.clone()), true);
        assert(files_rows_view(rows@) =~= before + seq![header(name@, group_size(files@, Some(name@)), false, false, is_active(*snapshot, name@))]
            + group_rows(files@, GroupView::Changelist(name@), true));
        i = i + 1;
    }
    assert(cls@.take(cls.len() as int) =~= cls@);
    let ghost middle = files_rows_view(rows@);
    let unassigned = group_len(files, &None);
    if unassigned > 0 {
        rows.push(header_row(owned("unassigned"), unassigned, true, false, false));
        push_group_rows(&mut rows, files, &Group::Unassigned, true);
    }
    assert(files_rows_view(rows@) =~= all_view_rows(*snapshot));
    rows
}


impl App {
    /// Changelists panel rows: `all`, user changelists in user order,
    /// `unassigned` pinned last.
    pub fn changelist_rows(&self) -> (r: Vec<ChangelistRow>)
        ensures
            rows_view(r@) == changelist_rows_for(self@.snapshot),
    {
        match &self.snapshot {
            None => {
                let r = vec![
                    ChangelistRow { scope: Scope::All, count: 0, active: false },
                    ChangelistRow { scope: Scope::Unassigned, count: 0, active: false },
                ];
                assert(rows_view(r@) =~= changelist_rows_for(self@.snapshot));
                r
            },
            Some(snapshot) => {
                let mut rows = vec![ChangelistRow { scope: Scope::All, count: snapshot.files.len(), active: false }];
                let cls = &snapshot.changelists;
                let mut i: usize = 0;
                while i < cls.len()
                    invariant
                        i <= cls.len(),
                        cls == &snapshot.changelists,
                        rows@.len() == i + 1,
                        rows@[0]@ == (ChangelistRowView { scope: ScopeView::All, count: snapshot.files@.len() as usize, active: false }),
                        forall|j: int| 0 <= j < i ==> (#[trigger] rows@[j + 1])@ == (ChangelistRowView {
                            scope: ScopeView::Changelist(cls@[j].name@),
                            count: group_size(snapshot.files@, Some(cls@[j].name@)) as usize,
                            active: is_active(*snapshot, cls@[j].name@),
                        }),
                    decreases cls.len() - i,
                {
                    let name = &cls[i].name;
                    let count = group_len(&snapshot.files, &Some(name.clone()));
                    let active = active_is(snapshot, name);
                    rows.push(ChangelistRow { scope: Scope::Changelist(name.clone()), count, active });
                    i = i + 1;
                }
                let count = group_len(&snapshot.files, &None);
                rows.push(ChangelistRow { scope: Scope::Unassigned, count, active: snapshot.active.is_none() });
                let ghost spec_rows = changelist_rows_for(self@.snapshot);
                assert forall|j: int| 0 <= j < rows@.len() implies #[trigger] rows_view(rows@)[j] == spec_rows[j] by {
                    if 1 <= j < rows@.len() - 1 {
                        assert(rows@[(j - 1) + 1]@ == rows@[j]@);
                    }
                }
                assert(rows_view(rows@) =~= spec_rows);
                rows
            },
        }
    }

    pub fn scope(&self) -> (r: Scope)
        ensures
            r@ == scope_of(self@),
    {
        let rows = self.changelist_rows();
        if self.changelist_row < rows.len() {
            assert(rows_view(rows@)[self.changelist_row as int] == rows@[self.changelist_row as int]@);
            rows[self.changelist_row].scope.duplicate()
        } else {
            Scope::All
        }
    }

    /// Files panel rows for the current scope.
    pub fn files_rows(&self) -> (r: Vec<FilesRow>)
        ensures
            files_rows_view(r@) == files_rows_of(self@),
    {
        match &self.snapshot {
            None => {
                let r: Vec<FilesRow> = Vec::new();
                assert(files_rows_view(r@) =~= files_rows_of(self@));
                r
            },
            Some(snapshot) => {
                let scope = self.scope();
                match scope {
                    Scope::All => all_rows(snapshot),
                    _ => {
                        let mut rows: Vec<FilesRow> = Vec::new();
                        let group = match scope.as_group() {
                            Some(g) => g,
                            None => Group::Unassigned,
                        };
                        push_group_rows(&mut rows, &snapshot.files, &group, false);
                        assert(files_rows_view(rows@) =~= files_rows_of(self@));
                        rows
                    },
                }
            },
        }
    }

    /// The selectable file entries, in row order.
    pub fn file_entries(&self) -> (r: Vec<FileEntry>)
        ensures
            entries_view(r@) == entries_of_app(self@),
    {
        let rows = self.files_rows();
        let mut out: Vec<FileEntry> = Vec::new();
        let mut i: usize = 0;
        while i < rows.len()
            invariant
                i <= rows.len(),
                files_rows_view(rows@) == files_rows_of(self@),
                entries_view(out@) =~= entries_of(files_rows_view(rows@).take(i as int)),
            decreases rows.len() - i,
        {
            let ghost pre = files_rows_view(rows@).take(i as int);
            assert(files_rows_view(rows@).take(i + 1).drop_last() =~= pre);
            assert(files_rows_view(rows@).take(i + 1).last() == rows@[i as int]@);
            match &rows[i] {
                FilesRow::File { entry, .. } => {
                    let ghost before = out@;
                    out.push(entry.duplicate());
                    assert(entries_view(out@) =~= entries_view(before).push(entry@));
                },
                FilesRow::Header { .. } => {},
            }
            i = i + 1;
        }
        assert(files_rows_view(rows@).take(rows.len() as int) =~= files_rows_view(rows@));
        out
    }

    /// The selected file's position among selectable entries, 1-based,
    /// for the panel's `n of m` count.
    pub fn files_count(&self) -> (r: (usize, usize))
        ensures
            r == files_count_of(self@),
    {
        let entries = self.file_entries();
        proof {
            if self@.file_sel is Some {
                crate::view::lemma_first_index_of(entries_view(entries@), self@.file_sel.unwrap());
            }
        }
        let position = match &self.file_sel {
            Some(sel) => match position_of_entry(&entries, sel) {
                Some(p) => p + 1,
                None => 0,
            },
            None => 0,
        };
        (position, entries.len())
    }

    /// Index of the selected file in the snapshot.
    #[verifier::loop_isolation(false)]
    pub fn selected_file_index(&self) -> (r: Option<usize>)
        ensures
            match r {
                Some(i) => selected_index(self@) == Some(i as int),
                None => selected_index(self@) is None,
            },
            r matches Some(i) ==> i < self.snapshot.unwrap().files@.len(),
    {
        match (&self.file_sel, &self.snapshot) {
            (Some(sel), Some(snapshot)) => {
                let files = &snapshot.files;
                let mut i: usize = 0;
                while i < files.len()
                    invariant
                        i <= files.len(),
                        first_with_path(files@.take(i as int), sel.path@) is None,
                    decreases files.len() - i,
                {
                    assert(files@.take(i + 1).drop_last() =~= files@.take(i as int));
                    if same_text(files[i].path.as_str(), sel.path.as_str()) {
                        assert(first_with_path(files@.take(i + 1), sel.path@) == Some(i as int));
                        proof {
                            lemma_first_with_prefix(files@, sel.path@, i + 1);
                        }
                        return Some(i);
                    }
                    i = i + 1;
                }
                assert(files@.take(files.len() as int) =~= files@);
                None
            },
            _ => None,
        }
    }

    pub fn selected_file(&self) -> (r: Option<&ChangedFile>)
        ensures
            match r {
                Some(f) => selected_file_of(self@) == Some(*f),
                None => selected_file_of(self@) is None,
            },
    {
        match self.selected_file_index() {
            Some(i) => Some(&self.snapshot.as_ref().unwrap().files[i]),
            None => None,
        }
    }
}

/// A first match in a prefix stays the first match of the whole.
pub proof fn lemma_first_with_prefix(files: Seq<ChangedFile>, path: Seq<char>, k: int)
    requires
        0 <= k <= files.len(),
        first_with_path(files.take(k), path) is Some,
    ensures
        first_with_path(files, path) == first_with_path(files.take(k), path),
    decreases files.len() - k,
{
    if k < files.len() {
        assert(files.take(k + 1).drop_last() =~= files.take(k));
        lemma_first_with_prefix(files, path, k + 1);
    } else {
        assert(files.take(k) =~= files);
    }
}

/// The position of `e` among `es`, compared by content.
pub fn position_of_entry(es: &Vec<FileEntry>, e: &FileEntry) -> (r: Option<usize>)
    ensures
        match r {
            Some(i) => crate::view::first_index_of(entries_view(es@), e@) == Some(i as int),
            None => crate::view::first_index_of(entries_view(es@), e@) is None,
        },
{
    let ghost all = entries_view(es@);
    let mut i: usize = 0;
    while i < es.len()
        invariant
            all == entries_view(es@),
            i <= es.len(),
            crate::view::first_index_of(all.take(i as int), e@) is None,
        decreases es.len() - i,
    {
        assert(all.take(i + 1).drop_last() =~= all.take(i as int));
        assert(all.take(i + 1).last() == es@[i as int]@);
        if es[i].same(e) {
            proof {
                lemma_first_index_prefix(all, e@, i + 1);
            }
            return Some(i);
        }
        i = i + 1;
    }
    assert(all.take(es.len() as int) =~= all);
    None
}

pub proof fn lemma_first_index_prefix<T>(s: Seq<T>, x: T, k: int)
    requires
        0 <= k <= s.len(),
        crate::view::first_index_of(s.take(k), x) is Some,
    ensures
        crate::view::first_index_of(s, x) == crate::view::first_index_of(s.take(k), x),
    decreases s.len() - k,
{
    if k < s.len() {
        assert(s.take(k + 1).drop_last() =~= s.take(k));
        lemma_first_index_prefix(s, x, k + 1);
    } else {
        assert(s.take(k) =~= s);
    }
}

// ── the Diff panel ──────────────────────────────────────────────────

/// A whole file's hunks at `stage`.
pub open spec fn count_stage(hs: Seq<Hunk>, stage: HunkStage) -> nat
    decreases hs.len(),
{
    if hs.len() == 0 {
        0
    } else {
        count_stage(hs.drop_last(), stage) + if hs.last().stage == stage { 1nat } else { 0nat }
    }
}

proof fn lemma_count_stage_bounded(hs: Seq<Hunk>, stage: HunkStage)
    ensures
        count_stage(hs, stage) <= hs.len(),
    decreases hs.len(),
{
    if hs.len() > 0 {
        lemma_count_stage_bounded(hs.drop_last(), stage);
    }
}

fn stage_count(hs: &Vec<Hunk>, stage: HunkStage) -> (r: usize)
    ensures
        r == count_stage(hs@, stage),
{
    let mut n: usize = 0;
    let mut i: usize = 0;
    while i < hs.len()
        invariant
            i <= hs.len(),
            n == count_stage(hs@.take(i as int), stage),
        decreases hs.len() - i,
    {
        assert(hs@.take(i + 1).drop_last() =~= hs@.take(i as int));
        assert(hs@.take(i + 1).last() == hs@[i as int]);
        proof {
            lemma_count_stage_bounded(hs@.take(i as int), stage);
        }
        if hs[i].stage == stage {
            n = n + 1;
        }
        i = i + 1;
    }
    assert(hs@.take(hs.len() as int) =~= hs@);
    n
}

/// The Diff panel's title context: file name plus staged counts —
/// scoped to the drilled changelist's own hunks, with a note of how many
/// hunks live elsewhere; the selection's position in hunk mode.
pub open spec fn diff_title_of(a: AppView) -> Seq<char> {
    match selected_file_of(a) {
        None => Seq::empty(),
        Some(f) => {
            let name = after_last_slash(f.path@);
            let total = f.hunks@.len();
            if f.kind == ChangeKind::Conflicted {
                name + " (conflicted)"@
            } else if a.hunk_sel is Some {
                name + " — hunk "@ + decimal((a.hunk_sel.unwrap() + 1) as nat) + " of "@ + decimal(total)
            } else {
                match scope_owner(scope_of(a)) {
                    None => name + " ("@ + decimal(count_stage(f.hunks@, HunkStage::Staged)) + "/"@ + decimal(total)
                        + " staged)"@,
                    Some(o) => {
                        let own = owned_count(f.hunks@, o);
                        let elsewhere = (total - own) as nat;
                        name + " ("@ + decimal(owned_with(f.hunks@, o, HunkStage::Staged)) + "/"@ + decimal(own)
                            + " staged"@ + (if elsewhere > 0 {
                            " · "@ + count_noun_text(elsewhere, "hunk"@) + " elsewhere"@
                        } else {
                            Seq::empty()
                        }) + ")"@
                    },
                }
            }
        },
    }
}

pub open spec fn pow1024(k: nat) -> nat {
    if k == 0 { 1 } else if k == 1 { 1024 } else if k == 2 { 1048576 } else { 1073741824 }
}

/// How many 1024-steps `bytes` takes to fall under 1024, capped at GB.
pub open spec fn size_steps(bytes: nat) -> nat {
    if bytes >= 1073741824 { 3 } else if bytes >= 1048576 { 2 } else if bytes >= 1024 { 1 } else { 0 }
}

/// `bytes / d` in tenths, rounded to nearest with ties to even — how a
/// one-decimal rendering of the exact quotient rounds.
pub open spec fn rounded_tenths(bytes: nat, d: nat) -> nat {
    let q = (bytes * 10) / d;
    let r = (bytes * 10) % d;
    if 2 * r > d || (2 * r == d && q % 2 == 1) { q + 1 } else { q }
}

pub open spec fn size_unit(k: nat) -> Seq<char> {
    if k == 1 { "KB"@ } else if k == 2 { "MB"@ } else { "GB"@ }
}

/// `12.4 KB`-style size, 1024-based, one decimal above bytes.
pub open spec fn human_size_text(bytes: u64) -> Seq<char> {
    let k = size_steps(bytes as nat);
    if k == 0 {
        decimal(bytes as nat) + " B"@
    } else {
        let t = rounded_tenths(bytes as nat, pow1024(k));
        decimal(t / 10) + seq!['.', crate::text::digit_char(t % 10), ' '] + size_unit(k)
    }
}

fn digit(d: u64) -> (r: char)
    requires
        d < 10,
    ensures
        r == crate::text::digit_char(d as nat),
{
    if d == 0 { '0' } else if d == 1 { '1' } else if d == 2 { '2' } else if d == 3 { '3' } else if d == 4 {
        '4'
    } else if d == 5 { '5' } else if d == 6 { '6' } else if d == 7 { '7' } else if d == 8 { '8' } else { '9' }
}

pub fn human_size(bytes: u64) -> (r: String)
    ensures
        r@ == human_size_text(bytes),
{
    let d: u128 = if bytes >= 1073741824 {
        1073741824
    } else if bytes >= 1048576 {
        1048576
    } else if bytes >= 1024 {
        1024
    } else {
        1
    };
    if d == 1 {
        let mut r = u64_decimal(bytes);
        r.append(" B");
        return r;
    }
    let ghost k = size_steps(bytes as nat);
    assert(d == pow1024(k));
    let scaled: u128 = (bytes as u128) * 10;
    let q: u128 = scaled / d;
    let rem: u128 = scaled % d;
    let t: u128 = if 2 * rem > d || (2 * rem == d && q % 2 == 1) { q + 1 } else { q };
    assert(t == rounded_tenths(bytes as nat, pow1024(k)));
    assert(q <= scaled) by (nonlinear_arith)
        requires q == scaled / d, d >= 1, scaled >= 0;
    assert(t / 10 <= u64::MAX) by (nonlinear_arith)
        requires t <= q + 1, q <= scaled, scaled == bytes * 10, bytes <= u64::MAX, d >= 1024, q == scaled / d;
    let whole = (t / 10) as u64;
    let mut r = u64_decimal(whole);
    push_char(&mut r, '.');
    push_char(&mut r, digit((t % 10) as u64));
    push_char(&mut r, ' ');
    if d == 1024 {
        r.append("KB");
    } else if d == 1048576 {
        r.append("MB");
    } else {
        r.append("GB");
    }
    assert(r@ =~= human_size_text(bytes));
    r
}

pub open spec fn blob_size(side: Option<crate::model::BlobInfo>) -> Option<u64> {
    match side {
        Some(b) => Some(b.size),
        None => None,
    }
}

/// The Diff panel's one-line binary placeholder: side presence picks the
/// variant.
pub open spec fn binary_placeholder_text(f: ChangedFile) -> Seq<char> {
    let (head, changed) = match f.binary_sides {
        Some(sides) => (blob_size(sides.head), blob_size(sides.changed)),
        None => (None, None),
    };
    match (head, changed) {
        (Some(h), Some(c)) => "Binary file changed ("@ + human_size_text(h) + " → "@ + human_size_text(c) + ")"@,
        (None, Some(c)) => "Binary file added ("@ + human_size_text(c) + ")"@,
        (Some(h), None) => "Binary file deleted ("@ + human_size_text(h) + ")"@,
        (None, None) => "Binary file changed"@,
    }
}

fn binary_placeholder(f: &ChangedFile) -> (r: String)
    ensures
        r@ == binary_placeholder_text(*f),
{
    let (head, changed): (Option<u64>, Option<u64>) = match &f.binary_sides {
        Some(sides) => (
            match &sides.head { Some(b) => Some(b.size), None => None },
            match &sides.changed { Some(b) => Some(b.size), None => None },
        ),
        None => (None, None),
    };
    match (head, changed) {
        (Some(h), Some(c)) => {
            let mut r = owned("Binary file changed (");
            r.append(human_size(h).as_str());
            r.append(" → ");
            r.append(human_size(c).as_str());
            r.append(")");
            r
        },
        (None, Some(c)) => {
            let mut r = owned("Binary file added (");
            r.append(human_size(c).as_str());
            r.append(")");
            r
        },
        (Some(h), None) => {
            let mut r = owned("Binary file deleted (");
            r.append(human_size(h).as_str());
            r.append(")");
            r
        },
        (None, None) => owned("Binary file changed"),
    }
}

/// Whether `h` is foreign to the scope owner: owned by someone else in a
/// drilled view. Nothing is foreign in the All view.
pub open spec fn is_foreign(h: Hunk, owner: Option<Option<Seq<char>>>) -> bool {
    match owner {
        Some(o) => !owns(h, o),
        None => false,
    }
}

/// The tag naming a hunk's owner: on every hunk in the All view, on
/// foreign hunks (dimmed) in a drilled one.
pub open spec fn hunk_tag(h: Hunk, owner: Option<Option<Seq<char>>>) -> Option<HunkTagView> {
    let foreign = is_foreign(h, owner);
    if owner is None || foreign {
        let unassigned = h.changelist is None;
        Some(HunkTagView {
            label: if unassigned { "unassigned"@ } else { h.changelist.unwrap()@ },
            stage: if unassigned { None } else { Some(h.stage) },
            unassigned: unassigned,
            dim: foreign,
        })
    } else {
        None
    }
}

pub open spec fn content_line(l: crate::model::HunkLine, foreign: bool, selected: bool) -> DiffLineView {
    DiffLineView::Content { origin: l.origin, text: strip_newlines(l.content@), foreign, selected }
}

pub open spec fn content_lines(ls: Seq<crate::model::HunkLine>, foreign: bool, selected: bool) -> Seq<DiffLineView>
    decreases ls.len(),
{
    if ls.len() == 0 {
        Seq::empty()
    } else {
        content_lines(ls.drop_last(), foreign, selected).push(content_line(ls.last(), foreign, selected))
    }
}

pub open spec fn hunk_header_text(h: Hunk) -> Seq<char> {
    "@@ "@ + coords_text('-', h.old_start, h.old_lines) + " "@ + coords_text('+', h.new_start, h.new_lines) + " @@"@
}

/// One hunk's lines: a spacer before every hunk but the first, its
/// header, and its text lines (a whole-file hunk has none).
pub open spec fn hunk_block(h: Hunk, index: nat, owner: Option<Option<Seq<char>>>, sel: Option<usize>) -> Seq<DiffLineView> {
    let foreign = is_foreign(h, owner);
    let selected = sel == Some(index as usize);
    (if index > 0 { seq![DiffLineView::Spacer] } else { Seq::empty() })
        + seq![DiffLineView::HunkHeader { text: hunk_header_text(h), tag: hunk_tag(h, owner), foreign, selected }]
        + match h.identity {
        HunkIdentity::Text { lines } => content_lines(lines@, foreign, selected),
        HunkIdentity::WholeFile { .. } => Seq::empty(),
    }
}

pub open spec fn hunk_blocks(hs: Seq<Hunk>, owner: Option<Option<Seq<char>>>, sel: Option<usize>) -> Seq<DiffLineView>
    decreases hs.len(),
{
    if hs.len() == 0 {
        Seq::empty()
    } else {
        hunk_blocks(hs.drop_last(), owner, sel) + hunk_block(hs.last(), (hs.len() - 1) as nat, owner, sel)
    }
}

/// The Diff panel body for the selected file: its headers, then the
/// quarantine placeholder, the binary placeholder, `no hunks`, or every
/// hunk — tagged by owner in the All view, foreign ones dimmed and
/// tagged in a drilled one.
pub open spec fn diff_lines_of(a: AppView) -> Seq<DiffLineView> {
    match selected_file_of(a) {
        None => Seq::empty(),
        Some(f) => seq![
            DiffLineView::FileHeader("--- a/"@ + f.path@),
            DiffLineView::FileHeader("+++ b/"@ + f.path@),
        ] + if f.kind == ChangeKind::Conflicted {
            seq![DiffLineView::Conflict("conflicted — resolve outside gitchange"@)]
        } else if f.binary {
            seq![DiffLineView::Placeholder(binary_placeholder_text(f))]
        } else if f.hunks@.len() == 0 {
            seq![DiffLineView::Placeholder("no hunks"@)]
        } else {
            hunk_blocks(f.hunks@, scope_owner(scope_of(a)), a.hunk_sel)
        },
    }
}

/// The positions of the hunk headers among `lines`.
pub open spec fn header_positions(lines: Seq<DiffLineView>) -> Seq<usize>
    decreases lines.len(),
{
    if lines.len() == 0 {
        Seq::empty()
    } else if lines.last() is HunkHeader {
        header_positions(lines.drop_last()).push((lines.len() - 1) as usize)
    } else {
        header_positions(lines.drop_last())
    }
}

/// The first selected hunk header among `lines`.
pub open spec fn first_selected_header(lines: Seq<DiffLineView>) -> Option<int>
    decreases lines.len(),
{
    if lines.len() == 0 {
        None
    } else {
        match first_selected_header(lines.drop_last()) {
            Some(i) => Some(i),
            None => if lines.last() matches DiffLineView::HunkHeader { selected: true, .. } {
                Some(lines.len() - 1)
            } else {
                None
            },
        }
    }
}

fn hunk_tag_of(h: &Hunk, owner: &Option<Option<String>>) -> (r: Option<HunkTag>)
    ensures
        crate::view::opt_tag_view(r) == hunk_tag(*h, match owner { Some(o) => Some(opt_view(&o)), None => None }),
{
    let foreign = match owner {
        Some(o) => !owns_hunk(h, o),
        None => false,
    };
    if owner.is_none() || foreign {
        let unassigned = h.changelist.is_none();
        let label = match &h.changelist {
            Some(n) => n.clone(),
            None => owned("unassigned"),
        };
        Some(HunkTag { label, stage: if unassigned { None } else { Some(h.stage) }, unassigned, dim: foreign })
    } else {
        None
    }
}

fn hunk_header_line(h: &Hunk, index: usize, owner: &Option<Option<String>>, sel: Option<usize>) -> (r: (DiffLine, bool, bool))
    ensures
        ({
            let o = match owner { Some(o) => Some(opt_view(&o)), None => None };
            &&& r.1 == is_foreign(*h, o)
            &&& r.2 == (sel == Some(index))
            &&& r.0@ == DiffLineView::HunkHeader { text: hunk_header_text(*h), tag: hunk_tag(*h, o), foreign: r.1, selected: r.2 }
        }),
{
    let foreign = match owner {
        Some(o) => !owns_hunk(h, o),
        None => false,
    };
    let selected = match sel {
        Some(s) => s == index,
        None => false,
    };
    let mut text = owned("@@ ");
    text.append(h.old_coords().as_str());
    text.append(" ");
    text.append(h.new_coords().as_str());
    text.append(" @@");
    (DiffLine::HunkHeader { text, tag: hunk_tag_of(h, owner), foreign, selected }, foreign, selected)
}

fn push_content_lines(lines: &mut Vec<DiffLine>, ls: &Vec<crate::model::HunkLine>, foreign: bool, selected: bool)
    ensures
        diff_view(final(lines)@) == diff_view(old(lines)@) + content_lines(ls@, foreign, selected),
{
    let ghost head = diff_view(lines@);
    let mut i: usize = 0;
    while i < ls.len()
        invariant
            i <= ls.len(),
            diff_view(lines@) =~= head + content_lines(ls@.take(i as int), foreign, selected),
        decreases ls.len() - i,
    {
        assert(ls@.take(i + 1).drop_last() =~= ls@.take(i as int));
        assert(ls@.take(i + 1).last() == ls@[i as int]);
        let l = &ls[i];
        let ghost before = lines@;
        lines.push(DiffLine::Content {
            origin: l.origin,
            text: trim_end_newlines(l.content.as_str()),
            foreign,
            selected,
        });
        assert(diff_view(lines@) =~= diff_view(before).push(content_line(*l, foreign, selected)));
        i = i + 1;
    }
    assert(ls@.take(ls.len() as int) =~= ls@);
}

fn push_hunk_block(lines: &mut Vec<DiffLine>, h: &Hunk, index: usize, owner: &Option<Option<String>>, sel: Option<usize>)
    ensures
        diff_view(final(lines)@) == diff_view(old(lines)@) + hunk_block(
            *h,
            index as nat,
            match owner { Some(o) => Some(opt_view(&o)), None => None },
            sel,
        ),
{
    let ghost start = diff_view(lines@);
    if index > 0 {
        lines.push(DiffLine::Spacer);
    }
    let (header, foreign, selected) = hunk_header_line(h, index, owner, sel);
    lines.push(header);
    let ghost head = diff_view(lines@);
    match &h.identity {
        HunkIdentity::Text { lines: ls } => {
            push_content_lines(lines, ls, foreign, selected);
        },
        HunkIdentity::WholeFile { .. } => {},
    }
    assert(diff_view(lines@) =~= diff_view(old(lines)@) + hunk_block(
            *h,
            index as nat,
            match owner { Some(o) => Some(opt_view(&o)), None => None },
            sel,
        ));
}

impl App {
    /// The Diff panel's title context.
    pub fn diff_title(&self) -> (r: String)
        requires
            self.hunk_sel matches Some(i) ==> i < usize::MAX,
        ensures
            r@ == diff_title_of(self@),
    {
        let file = match self.selected_file() {
            Some(f) => f,
            None => return String::new(),
        };
        let name = file_name(file.path.as_str());
        if file.kind == ChangeKind::Conflicted {
            let mut r = name;
            r.append(" (conflicted)");
            return r;
        }
        let total = file.hunks.len();
        if let Some(index) = self.hunk_sel {
            let mut r = name;
            r.append(" — hunk ");
            r.append(usize_decimal(index + 1).as_str());
            r.append(" of ");
            r.append(usize_decimal(total).as_str());
            return r;
        }
        let scope = self.scope();
        match scope.owner() {
            None => {
                let mut r = name;
                r.append(" (");
                r.append(usize_decimal(stage_count(&file.hunks, HunkStage::Staged)).as_str());
                r.append("/");
                r.append(usize_decimal(total).as_str());
                r.append(" staged)");
                r
            },
            Some(owner) => {
                let (own, staged_own, _) = owned_counts(&file.hunks, &owner);
                proof {
                    crate::view::lemma_counts_bounded(file.hunks@, opt_view(&owner), HunkStage::Staged);
                }
                let elsewhere = total - own;
                let mut r = name;
                r.append(" (");
                r.append(usize_decimal(staged_own).as_str());
                r.append("/");
                r.append(usize_decimal(own).as_str());
                r.append(" staged");
                let ghost mid = r@;
                if elsewhere > 0 {
                    r.append(" · ");
                    r.append(count_noun(elsewhere, "hunk").as_str());
                    r.append(" elsewhere");
                }
                r.append(")");
                assert(r@ =~= diff_title_of(self@));
                r
            },
        }
    }

    /// The Diff panel body for the selected file.
    pub fn diff_lines(&self) -> (r: Vec<DiffLine>)
        ensures
            diff_view(r@) == diff_lines_of(self@),
    {
        let file = match self.selected_file() {
            Some(f) => f,
            None => {
                let r: Vec<DiffLine> = Vec::new();
                assert(diff_view(r@) =~= diff_lines_of(self@));
                return r;
            },
        };
        let mut lines: Vec<DiffLine> = Vec::new();
        lines.push(DiffLine::FileHeader(crate::text::cat("--- a/", file.path.as_str())));
        lines.push(DiffLine::FileHeader(crate::text::cat("+++ b/", file.path.as_str())));
        let ghost heads = diff_view(lines@);
        if file.kind == ChangeKind::Conflicted {
            lines.push(DiffLine::Conflict(owned("conflicted — resolve outside gitchange")));
            assert(diff_view(lines@) =~= diff_lines_of(self@));
            return lines;
        }
        if file.binary {
            lines.push(DiffLine::Placeholder(binary_placeholder(file)));
            assert(diff_view(lines@) =~= diff_lines_of(self@));
            return lines;
        }
        if file.hunks.len() == 0 {
            lines.push(DiffLine::Placeholder(owned("no hunks")));
            assert(diff_view(lines@) =~= diff_lines_of(self@));
            return lines;
        }
        let scope = self.scope();
        let owner = scope.owner();
        let ghost o = scope_owner(scope_of(self@));
        let hs = &file.hunks;
        let mut i: usize = 0;
        while i < hs.len()
            invariant
                i <= hs.len(),
                o == match owner { Some(x) => Some(opt_view(&x)), None => None },
                diff_view(lines@) =~= heads + hunk_blocks(hs@.take(i as int), o, self.hunk_sel),
            decreases hs.len() - i,
        {
            assert(hs@.take(i + 1).drop_last() =~= hs@.take(i as int));
            assert(hs@.take(i + 1).last() == hs@[i as int]);
            push_hunk_block(&mut lines, &hs[i], i, &owner, self.hunk_sel);
            i = i + 1;
        }
        assert(hs@.take(hs.len() as int) =~= hs@);
        lines
    }

    /// The positions of the hunk headers within [`App::diff_lines`] —
    /// the diff lines a hunk-mode page is measured in.
    pub fn hunk_header_lines(&self) -> (r: Vec<usize>)
        ensures
            r@ == header_positions(diff_lines_of(self@)),
    {
        let lines = self.diff_lines();
        let mut out: Vec<usize> = Vec::new();
        let mut i: usize = 0;
        while i < lines.len()
            invariant
                i <= lines.len(),
                diff_view(lines@) == diff_lines_of(self@),
                out@ =~= header_positions(diff_view(lines@).take(i as int)),
            decreases lines.len() - i,
        {
            assert(diff_view(lines@).take(i + 1).drop_last() =~= diff_view(lines@).take(i as int));
            assert(diff_view(lines@).take(i + 1).last() == lines@[i as int]@);
            if let DiffLine::HunkHeader { .. } = &lines[i] {
                out.push(i);
            }
            i = i + 1;
        }
        assert(diff_view(lines@).take(lines.len() as int) =~= diff_view(lines@));
        out
    }

    /// The selected hunk's header position within [`App::diff_lines`],
    /// for the renderer's keep-visible scroll in hunk mode.
    #[verifier::loop_isolation(false)]
    pub fn selected_hunk_line(&self) -> (r: Option<usize>)
        ensures
            self.hunk_sel is None ==> r is None,
            self.hunk_sel is Some ==> match r {
                Some(i) => first_selected_header(diff_lines_of(self@)) == Some(i as int),
                None => first_selected_header(diff_lines_of(self@)) is None,
            },
    {
        if self.hunk_sel.is_none() {
            return None;
        }
        let lines = self.diff_lines();
        let ghost all = diff_view(lines@);
        let mut i: usize = 0;
        while i < lines.len()
            invariant
                i <= lines.len(),
                all == diff_view(lines@),
                all == diff_lines_of(self@),
                first_selected_header(all.take(i as int)) is None,
            decreases lines.len() - i,
        {
            assert(all.take(i + 1).drop_last() =~= all.take(i as int));
            assert(all.take(i + 1).last() == lines@[i as int]@);
            if let DiffLine::HunkHeader { selected: true, .. } = &lines[i] {
                proof {
                    lemma_first_selected_prefix(all, i + 1);
                }
                return Some(i);
            }
            i = i + 1;
        }
        assert(all.take(lines.len() as int) =~= all);
        None
    }
}

proof fn lemma_first_selected_prefix(lines: Seq<DiffLineView>, k: int)
    requires
        0 <= k <= lines.len(),
        first_selected_header(lines.take(k)) is Some,
    ensures
        first_selected_header(lines) == first_selected_header(lines.take(k)),
    decreases lines.len() - k,
{
    if k < lines.len() {
        assert(lines.take(k + 1).drop_last() =~= lines.take(k));
        lemma_first_selected_prefix(lines, k + 1);
    } else {
        assert(lines.take(k) =~= lines);
    }
}

} // verus!
