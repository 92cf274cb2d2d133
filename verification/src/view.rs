//! The row and diff view-models the renderer draws: Changelists rows,
//! Files rows, diff lines and panel titles — pure reads over the current
//! snapshot and selections.

use vstd::prelude::*;
use crate::model::{ChangeKind, ChangedFile, FileStage, Hunk, HunkStage, HunkView, Snapshot};
use crate::text::{opt_view, same_text};

verus! {

/// One row of the Changelists panel — also the drill-down scope the
/// Files and Diff panels render.
#[derive(Debug, Clone, PartialEq, Eq)]
pub enum Scope {
    /// The All pseudo-view: every changed file grouped by changelist.
    All,
    Changelist(String),
    /// The unassigned pseudo-changelist, pinned last.
    Unassigned,
}

/// The group a Files row sits under. `Conflicts` is a group but never a
/// Changelists row, and `All` is a row but never a group.
#[derive(Debug, Clone, PartialEq, Eq)]
pub enum Group {
    /// The quarantine group.
    Conflicts,
    Changelist(String),
    /// The unassigned pseudo-changelist, pinned last.
    Unassigned,
}

#[derive(Debug, Clone, PartialEq, Eq)]
pub struct ChangelistRow {
    pub scope: Scope,
    pub count: usize,
    pub active: bool,
}

/// A selected file's identity: owning group plus path, so the same path
/// appearing under two changelists stays two distinct selections.
#[derive(Debug, Clone, PartialEq, Eq)]
pub struct FileEntry {
    pub group: Group,
    pub path: String,
}

#[derive(Debug, Clone, PartialEq, Eq)]
pub enum FilesRow {
    /// A group header in the All view.
    Header {
        label: String,
        count: usize,
        unassigned: bool,
        /// The Conflicts group's error tint.
        conflicted: bool,
        active: bool,
    },
    File {
        entry: FileEntry,
        stage: FileStage,
        kind: ChangeKind,
        staged: usize,
        total: usize,
        /// Grouped (All) rows indent under their header.
        indent: bool,
    },
}

/// A diff hunk's tag naming its owning changelist (All view: every hunk;
/// drilled views: foreign hunks only, dimmed).
#[derive(Debug, Clone, PartialEq, Eq)]
pub struct HunkTag {
    pub label: String,
    /// Staging glyph next to the label; `None` on unassigned tags.
    pub stage: Option<HunkStage>,
    pub unassigned: bool,
    pub dim: bool,
}

/// One renderable diff line. `foreign` rows belong to another
/// changelist in a drilled view and render dimmed.
#[derive(Debug, Clone, PartialEq, Eq)]
pub enum DiffLine {
    FileHeader(String),
    HunkHeader { text: String, tag: Option<HunkTag>, foreign: bool, selected: bool },
    Content { origin: char, text: String, foreign: bool, selected: bool },
    /// Blank spacing between hunks.
    Spacer,
    Placeholder(String),
    /// The quarantine placeholder, error-tinted: no conflict diff
    /// rendering, ever.
    Conflict(String),
}

// ── views ───────────────────────────────────────────────────────────

pub ghost enum ScopeView {
    All,
    Changelist(Seq<char>),
    Unassigned,
}

pub ghost enum GroupView {
    Conflicts,
    Changelist(Seq<char>),
    Unassigned,
}

pub ghost struct ChangelistRowView {
    pub scope: ScopeView,
    pub count: usize,
    pub active: bool,
}

pub ghost struct FileEntryView {
    pub group: GroupView,
    pub path: Seq<char>,
}

pub ghost enum FilesRowView {
    Header { label: Seq<char>, count: usize, unassigned: bool, conflicted: bool, active: bool },
    File { entry: FileEntryView, stage: FileStage, kind: ChangeKind, staged: usize, total: usize, indent: bool },
}

pub ghost struct HunkTagView {
    pub label: Seq<char>,
    pub stage: Option<HunkStage>,
    pub unassigned: bool,
    pub dim: bool,
}

pub ghost enum DiffLineView {
    FileHeader(Seq<char>),
    HunkHeader { text: Seq<char>, tag: Option<HunkTagView>, foreign: bool, selected: bool },
    Content { origin: char, text: Seq<char>, foreign: bool, selected: bool },
    Spacer,
    Placeholder(Seq<char>),
    Conflict(Seq<char>),
}

impl View for Scope {
    type V = ScopeView;

    open spec fn view(&self) -> ScopeView {
        match self {
            Scope::All => ScopeView::All,
            Scope::Changelist(n) => ScopeView::Changelist(n@),
            Scope::Unassigned => ScopeView::Unassigned,
        }
    }
}

impl View for Group {
    type V = GroupView;

    open spec fn view(&self) -> GroupView {
        match self {
            Group::Conflicts => GroupView::Conflicts,
            Group::Changelist(n) => GroupView::Changelist(n@),
            Group::Unassigned => GroupView::Unassigned,
        }
    }
}

impl View for ChangelistRow {
    type V = ChangelistRowView;

    open spec fn view(&self) -> ChangelistRowView {
        ChangelistRowView { scope: self.scope@, count: self.count, active: self.active }
    }
}

impl View for FileEntry {
    type V = FileEntryView;

    open spec fn view(&self) -> FileEntryView {
        FileEntryView { group: self.group@, path: self.path@ }
    }
}

impl View for FilesRow {
    type V = FilesRowView;

    open spec fn view(&self) -> FilesRowView {
        match self {
            FilesRow::Header { label, count, unassigned, conflicted, active } => FilesRowView::Header {
                label: label@,
                count: *count,
                unassigned: *unassigned,
                conflicted: *conflicted,
                active: *active,
            },
            FilesRow::File { entry, stage, kind, staged, total, indent } => FilesRowView::File {
                entry: entry@,
                stage: *stage,
                kind: *kind,
                staged: *staged,
                total: *total,
                indent: *indent,
            },
        }
    }
}

impl View for HunkTag {
    type V = HunkTagView;

    open spec fn view(&self) -> HunkTagView {
        HunkTagView { label: self.label@, stage: self.stage, unassigned: self.unassigned, dim: self.dim }
    }
}

pub open spec fn opt_tag_view(t: Option<HunkTag>) -> Option<HunkTagView> {
    match t {
        Some(t) => Some(t@),
        None => None,
    }
}

impl View for DiffLine {
    type V = DiffLineView;

    open spec fn view(&self) -> DiffLineView {
        match self {
            DiffLine::FileHeader(t) => DiffLineView::FileHeader(t@),
            DiffLine::HunkHeader { text, tag, foreign, selected } => DiffLineView::HunkHeader {
                text: text@,
                tag: opt_tag_view(*tag),
                foreign: *foreign,
                selected: *selected,
            },
            DiffLine::Content { origin, text, foreign, selected } => DiffLineView::Content {
                origin: *origin,
                text: text@,
                foreign: *foreign,
                selected: *selected,
            },
            DiffLine::Spacer => DiffLineView::Spacer,
            DiffLine::Placeholder(t) => DiffLineView::Placeholder(t@),
            DiffLine::Conflict(t) => DiffLineView::Conflict(t@),
        }
    }
}

pub open spec fn opt_entry_view(e: Option<FileEntry>) -> Option<FileEntryView> {
    match e {
        Some(e) => Some(e@),
        None => None,
    }
}

pub open spec fn rows_view(rows: Seq<ChangelistRow>) -> Seq<ChangelistRowView> {
    rows.map_values(|r: ChangelistRow| r@)
}

pub open spec fn files_rows_view(rows: Seq<FilesRow>) -> Seq<FilesRowView> {
    rows.map_values(|r: FilesRow| r@)
}

pub open spec fn entries_view(es: Seq<FileEntry>) -> Seq<FileEntryView> {
    es.map_values(|e: FileEntry| e@)
}

pub open spec fn diff_view(ls: Seq<DiffLine>) -> Seq<DiffLineView> {
    ls.map_values(|l: DiffLine| l@)
}

// ── owners ──────────────────────────────────────────────────────────

/// The hunk owner a scope drills into; `None` for All — no owner, so
/// nothing is foreign there. `Some(None)` is unassigned.
pub open spec fn scope_owner(s: ScopeView) -> Option<Option<Seq<char>>> {
    match s {
        ScopeView::All => None,
        ScopeView::Changelist(n) => Some(Some(n)),
        ScopeView::Unassigned => Some(None),
    }
}

/// The hunk owner a group holds; `None` for Conflicts, which is
/// quarantined and holds no owned hunks.
pub open spec fn group_owner(g: GroupView) -> Option<Option<Seq<char>>> {
    match g {
        GroupView::Conflicts => None,
        GroupView::Changelist(n) => Some(Some(n)),
        GroupView::Unassigned => Some(None),
    }
}

/// The Files-row group a drilled scope renders as.
pub open spec fn scope_group(s: ScopeView) -> GroupView {
    match s {
        ScopeView::All => GroupView::Unassigned,
        ScopeView::Changelist(n) => GroupView::Changelist(n),
        ScopeView::Unassigned => GroupView::Unassigned,
    }
}

/// The group as user-facing text.
pub open spec fn group_label(g: GroupView) -> Seq<char> {
    match g {
        GroupView::Conflicts => "conflicts"@,
        GroupView::Changelist(n) => n,
        GroupView::Unassigned => "unassigned"@,
    }
}

pub open spec fn scope_title(s: ScopeView) -> Seq<char> {
    match s {
        ScopeView::All => "all changelists"@,
        ScopeView::Changelist(n) => n,
        ScopeView::Unassigned => "unassigned"@,
    }
}

/// Whether `owner` (`None` = unassigned) owns `h` — the one ownership
/// test the diff tags foreign hunks by and the assign payloads select by.
pub open spec fn owns(h: Hunk, owner: Option<Seq<char>>) -> bool {
    opt_view(&h.changelist) == owner
}

pub open spec fn owned_count(hs: Seq<Hunk>, owner: Option<Seq<char>>) -> nat
    decreases hs.len(),
{
    if hs.len() == 0 {
        0
    } else {
        owned_count(hs.drop_last(), owner) + if owns(hs.last(), owner) { 1nat } else { 0nat }
    }
}

pub open spec fn owned_with(hs: Seq<Hunk>, owner: Option<Seq<char>>, stage: HunkStage) -> nat
    decreases hs.len(),
{
    if hs.len() == 0 {
        0
    } else {
        owned_with(hs.drop_last(), owner, stage) + if owns(hs.last(), owner) && hs.last().stage == stage {
            1nat
        } else {
            0nat
        }
    }
}

/// The hunks `owner` owns, in file order.
pub open spec fn owned_hunks(hs: Seq<Hunk>, owner: Option<Seq<char>>) -> Seq<Hunk>
    decreases hs.len(),
{
    if hs.len() == 0 {
        Seq::empty()
    } else if owns(hs.last(), owner) {
        owned_hunks(hs.drop_last(), owner).push(hs.last())
    } else {
        owned_hunks(hs.drop_last(), owner)
    }
}

/// The marker over a set of hunks: `●` when every one is staged, `○`
/// when none is staged or stale, `◐` otherwise.
pub open spec fn marker(total: nat, staged: nat, stale: nat) -> FileStage {
    if total > 0 && staged == total {
        FileStage::Staged
    } else if staged == 0 && stale == 0 {
        FileStage::Unstaged
    } else {
        FileStage::PartiallyStaged
    }
}

/// Whether a file renders under the group `owner` names: a quarantined
/// file never does; any other does when it holds an owned hunk. A file
/// with no hunks at all (a mode change, an empty new file) belongs to no
/// changelist, so it renders as unassigned.
pub open spec fn in_group(f: ChangedFile, owner: Option<Seq<char>>) -> bool {
    f.kind != ChangeKind::Conflicted && (owned_count(f.hunks@, owner) > 0 || (owner is None && f.hunks@.len() == 0))
}

pub open spec fn group_size(files: Seq<ChangedFile>, owner: Option<Seq<char>>) -> nat
    decreases files.len(),
{
    if files.len() == 0 {
        0
    } else {
        group_size(files.drop_last(), owner) + if in_group(files.last(), owner) { 1nat } else { 0nat }
    }
}

pub open spec fn conflicted_count(files: Seq<ChangedFile>) -> nat
    decreases files.len(),
{
    if files.len() == 0 {
        0
    } else {
        conflicted_count(files.drop_last()) + if files.last().kind == ChangeKind::Conflicted {
            1nat
        } else {
            0nat
        }
    }
}

pub proof fn lemma_counts_bounded(hs: Seq<Hunk>, owner: Option<Seq<char>>, stage: HunkStage)
    ensures
        owned_count(hs, owner) <= hs.len(),
        owned_with(hs, owner, stage) <= owned_count(hs, owner),
    decreases hs.len(),
{
    if hs.len() > 0 {
        lemma_counts_bounded(hs.drop_last(), owner, stage);
    }
}

pub proof fn lemma_group_size_bounded(files: Seq<ChangedFile>, owner: Option<Seq<char>>)
    ensures
        group_size(files, owner) <= files.len(),
        conflicted_count(files) <= files.len(),
    decreases files.len(),
{
    if files.len() > 0 {
        lemma_group_size_bounded(files.drop_last(), owner);
    }
}

/// The Files row of `f` under `group`. A conflicted row counts the
/// whole file; any other counts only its group's own hunks, so the
/// marker a row draws is exactly what its `space` acts on.
pub open spec fn file_row(f: ChangedFile, group: GroupView, indent: bool) -> FilesRowView {
    let entry = FileEntryView { group: group, path: f.path@ };
    match group_owner(group) {
        None => FilesRowView::File {
            entry: entry,
            stage: FileStage::Unstaged,
            kind: f.kind,
            staged: 0,
            total: 0,
            indent: indent,
        },
        Some(owner) => FilesRowView::File {
            entry: entry,
            stage: marker(
                owned_count(f.hunks@, owner),
                owned_with(f.hunks@, owner, HunkStage::Staged),
                owned_with(f.hunks@, owner, HunkStage::StagedStale),
            ),
            kind: f.kind,
            staged: owned_with(f.hunks@, owner, HunkStage::Staged) as usize,
            total: owned_count(f.hunks@, owner) as usize,
            indent: indent,
        },
    }
}

/// The rows of every file `owner`'s group holds, in file order.
pub open spec fn group_rows(files: Seq<ChangedFile>, group: GroupView, indent: bool) -> Seq<FilesRowView>
    decreases files.len(),
{
    if files.len() == 0 {
        Seq::empty()
    } else {
        let rest = group_rows(files.drop_last(), group, indent);
        let f = files.last();
        let member = match group_owner(group) {
            None => f.kind == ChangeKind::Conflicted,
            Some(owner) => in_group(f, owner),
        };
        if member { rest.push(file_row(f, group, indent)) } else { rest }
    }
}

pub open spec fn header(label: Seq<char>, count: nat, unassigned: bool, conflicted: bool, active: bool) -> FilesRowView {
    FilesRowView::Header { label, count: count as usize, unassigned, conflicted, active }
}

pub open spec fn is_active(snap: Snapshot, name: Seq<char>) -> bool {
    opt_view(&snap.active) == Some(name)
}

/// The All view's changelist groups, in user order — each shown, owned
/// files or not.
pub open spec fn changelist_groups(snap: Snapshot, cls: Seq<crate::model::Changelist>) -> Seq<FilesRowView>
    decreases cls.len(),
{
    if cls.len() == 0 {
        Seq::empty()
    } else {
        let name = cls.last().name@;
        changelist_groups(snap, cls.drop_last())
            + seq![header(name, group_size(snap.files@, Some(name)), false, false, is_active(snap, name))]
            + group_rows(snap.files@, GroupView::Changelist(name), true)
    }
}

/// The All view: Conflicts first when any path is conflicted,
/// changelists in user order, unassigned last when non-empty.
pub open spec fn all_view_rows(snap: Snapshot) -> Seq<FilesRowView> {
    let files = snap.files@;
    let conflicts = conflicted_count(files);
    let unassigned = group_size(files, None);
    (if conflicts > 0 {
        seq![header("conflicts"@, conflicts, false, true, false)] + group_rows(files, GroupView::Conflicts, true)
    } else {
        Seq::empty()
    }) + changelist_groups(snap, snap.changelists@) + (if unassigned > 0 {
        seq![header("unassigned"@, unassigned, true, false, false)] + group_rows(files, GroupView::Unassigned, true)
    } else {
        Seq::empty()
    })
}

/// The Files panel's rows for `scope`: the All view's groups, or the
/// drilled group as a flat list.
pub open spec fn files_rows_for(snap: Option<Snapshot>, scope: ScopeView) -> Seq<FilesRowView> {
    match snap {
        None => Seq::empty(),
        Some(s) => match scope {
            ScopeView::All => all_view_rows(s),
            _ => group_rows(s.files@, scope_group(scope), false),
        },
    }
}

/// The selectable entries among `rows`, in row order.
pub open spec fn entries_of(rows: Seq<FilesRowView>) -> Seq<FileEntryView>
    decreases rows.len(),
{
    if rows.len() == 0 {
        Seq::empty()
    } else {
        match rows.last() {
            FilesRowView::File { entry, .. } => entries_of(rows.drop_last()).push(entry),
            FilesRowView::Header { .. } => entries_of(rows.drop_last()),
        }
    }
}

/// The Changelists panel's rows: `all`, user changelists in user order,
/// `unassigned` pinned last and marked active when capture is off.
pub open spec fn changelist_rows_for(snap: Option<Snapshot>) -> Seq<ChangelistRowView> {
    match snap {
        None => seq![
            ChangelistRowView { scope: ScopeView::All, count: 0, active: false },
            ChangelistRowView { scope: ScopeView::Unassigned, count: 0, active: false },
        ],
        Some(s) => seq![ChangelistRowView { scope: ScopeView::All, count: s.files@.len() as usize, active: false }]
            + s.changelists@.map_values(|c: crate::model::Changelist| ChangelistRowView {
                scope: ScopeView::Changelist(c.name@),
                count: group_size(s.files@, Some(c.name@)) as usize,
                active: is_active(s, c.name@),
            })
            + seq![ChangelistRowView {
                scope: ScopeView::Unassigned,
                count: group_size(s.files@, None) as usize,
                active: s.active is None,
            }],
    }
}

/// The first index of `x` in `s`, if any.
pub open spec fn first_index_of<T>(s: Seq<T>, x: T) -> Option<int>
    decreases s.len(),
{
    if s.len() == 0 {
        None
    } else {
        match first_index_of(s.drop_last(), x) {
            Some(i) => Some(i),
            None => if s.last() == x { Some(s.len() - 1) } else { None },
        }
    }
}

pub proof fn lemma_first_index_of<T>(s: Seq<T>, x: T)
    ensures
        first_index_of(s, x) matches Some(i) ==> 0 <= i < s.len() && s[i] == x && forall|j: int| 0 <= j < i ==> s[j] != x,
        first_index_of(s, x) is None ==> forall|j: int| 0 <= j < s.len() ==> s[j] != x,
    decreases s.len(),
{
    if s.len() > 0 {
        lemma_first_index_of(s.drop_last(), x);
        assert forall|j: int| 0 <= j < s.len() - 1 implies s[j] == s.drop_last()[j] by {}
    }
}

/// The first file of `files` at `path`, if any.
pub open spec fn first_with_path(files: Seq<ChangedFile>, path: Seq<char>) -> Option<int>
    decreases files.len(),
{
    if files.len() == 0 {
        None
    } else {
        match first_with_path(files.drop_last(), path) {
            Some(i) => Some(i),
            None => if files.last().path@ == path { Some(files.len() - 1) } else { None },
        }
    }
}

pub proof fn lemma_first_with_path(files: Seq<ChangedFile>, path: Seq<char>)
    ensures
        first_with_path(files, path) matches Some(i) ==> 0 <= i < files.len() && files[i].path@ == path,
    decreases files.len(),
{
    if files.len() > 0 {
        lemma_first_with_path(files.drop_last(), path);
    }
}

// ── exec helpers ────────────────────────────────────────────────────

impl Scope {
    pub fn duplicate(&self) -> (r: Scope)
        ensures
            r@ == self@,
    {
        match self {
            Scope::All => Scope::All,
            Scope::Changelist(n) => Scope::Changelist(n.clone()),
            Scope::Unassigned => Scope::Unassigned,
        }
    }

    pub fn same(&self, other: &Scope) -> (r: bool)
        ensures
            r == (self@ == other@),
    {
        match (self, other) {
            (Scope::All, Scope::All) => true,
            (Scope::Unassigned, Scope::Unassigned) => true,
            (Scope::Changelist(a), Scope::Changelist(b)) => same_text(a.as_str(), b.as_str()),
            _ => false,
        }
    }

    /// The scope's title, as the Files border shows it.
    pub fn title(&self) -> (r: String)
        ensures
            r@ == scope_title(self@),
    {
        match self {
            Scope::All => crate::text::owned("all changelists"),
            Scope::Changelist(n) => n.clone(),
            Scope::Unassigned => crate::text::owned("unassigned"),
        }
    }

    /// The Files-row group a drilled scope renders as; `None` for All,
    /// which is a view over every group rather than one of them.
    pub fn as_group(&self) -> (r: Option<Group>)
        ensures
            match r {
                Some(g) => !(self@ is All) && g@ == scope_group(self@),
                None => self@ is All,
            },
    {
        match self {
            Scope::All => None,
            Scope::Changelist(n) => Some(Group::Changelist(n.clone())),
            Scope::Unassigned => Some(Group::Unassigned),
        }
    }

    /// The hunk owner this scope drills into.
    pub fn owner(&self) -> (r: Option<Option<String>>)
        ensures
            match r {
                None => scope_owner(self@) is None,
                Some(o) => scope_owner(self@) == Some(opt_view(&o)),
            },
    {
        match self {
            Scope::All => None,
            Scope::Changelist(n) => Some(Some(n.clone())),
            Scope::Unassigned => Some(None),
        }
    }
}

impl Group {
    pub fn duplicate(&self) -> (r: Group)
        ensures
            r@ == self@,
    {
        match self {
            Group::Conflicts => Group::Conflicts,
            Group::Changelist(n) => Group::Changelist(n.clone()),
            Group::Unassigned => Group::Unassigned,
        }
    }

    pub fn same(&self, other: &Group) -> (r: bool)
        ensures
            r == (self@ == other@),
    {
        match (self, other) {
            (Group::Conflicts, Group::Conflicts) => true,
            (Group::Unassigned, Group::Unassigned) => true,
            (Group::Changelist(a), Group::Changelist(b)) => same_text(a.as_str(), b.as_str()),
            _ => false,
        }
    }

    /// The group as user-facing text — the Files headers' vocabulary.
    pub fn label(&self) -> (r: String)
        ensures
            r@ == group_label(self@),
    {
        match self {
            Group::Conflicts => crate::text::owned("conflicts"),
            Group::Changelist(n) => n.clone(),
            Group::Unassigned => crate::text::owned("unassigned"),
        }
    }

    pub fn owner(&self) -> (r: Option<Option<String>>)
        ensures
            match r {
                None => group_owner(self@) is None,
                Some(o) => group_owner(self@) == Some(opt_view(&o)),
            },
    {
        match self {
            Group::Conflicts => None,
            Group::Changelist(n) => Some(Some(n.clone())),
            Group::Unassigned => Some(None),
        }
    }
}

impl FileEntry {
    pub fn duplicate(&self) -> (r: FileEntry)
        ensures
            r@ == self@,
    {
        FileEntry { group: self.group.duplicate(), path: self.path.clone() }
    }

    pub fn same(&self, other: &FileEntry) -> (r: bool)
        ensures
            r == (self@ == other@),
    {
        self.group.same(&other.group) && same_text(self.path.as_str(), other.path.as_str())
    }
}

pub fn owns_hunk(h: &Hunk, owner: &Option<String>) -> (r: bool)
    ensures
        r == owns(*h, opt_view(owner)),
{
    crate::text::same_opt_text(&h.changelist, owner)
}

/// Whether `f` renders under `owner`'s group.
pub fn holds(f: &ChangedFile, owner: &Option<String>) -> (r: bool)
    ensures
        r == in_group(*f, opt_view(owner)),
{
    if f.kind == ChangeKind::Conflicted {
        return false;
    }
    let (total, _, _) = owned_counts(&f.hunks, owner);
    total > 0 || (owner.is_none() && f.hunks.len() == 0)
}

/// `(owned, owned ●, owned ◑)` over `hs` for `owner`.
pub fn owned_counts(hs: &Vec<Hunk>, owner: &Option<String>) -> (r: (usize, usize, usize))
    ensures
        r.0 == owned_count(hs@, opt_view(owner)),
        r.1 == owned_with(hs@, opt_view(owner), HunkStage::Staged),
        r.2 == owned_with(hs@, opt_view(owner), HunkStage::StagedStale),
{
    let ghost o = opt_view(owner);
    let mut total: usize = 0;
    let mut staged: usize = 0;
    let mut stale: usize = 0;
    let mut i: usize = 0;
    while i < hs.len()
        invariant
            o == opt_view(owner),
            i <= hs.len(),
            total == owned_count(hs@.take(i as int), o),
            staged == owned_with(hs@.take(i as int), o, HunkStage::Staged),
            stale == owned_with(hs@.take(i as int), o, HunkStage::StagedStale),
            total <= i,
            staged <= total,
            stale <= total,
        decreases hs.len() - i,
    {
        assert(hs@.take(i + 1).drop_last() =~= hs@.take(i as int));
        assert(hs@.take(i + 1).last() == hs@[i as int]);
        assert(owned_count(hs@.take(i + 1), o) == owned_count(hs@.take(i as int), o) + if owns(hs@[i as int], o) { 1nat } else { 0nat });
        proof {
            lemma_counts_bounded(hs@.take(i as int), o, HunkStage::Staged);
        }
        if owns_hunk(&hs[i], owner) {
            total = total + 1;
            if hs[i].stage == HunkStage::Staged {
                staged = staged + 1;
            }
            if hs[i].stage == HunkStage::StagedStale {
                stale = stale + 1;
            }
        }
        i = i + 1;
    }
    assert(hs@.take(hs.len() as int) =~= hs@);
    (total, staged, stale)
}

/// The hunks of `hs` that `owner` owns, in order, duplicated.
pub fn collect_owned(hs: &Vec<Hunk>, owner: &Option<String>) -> (r: Vec<Hunk>)
    ensures
        crate::model::hunks_view(r@) == crate::model::hunks_view(owned_hunks(hs@, opt_view(owner))),
{
    let ghost o = opt_view(owner);
    let mut out: Vec<Hunk> = Vec::new();
    let mut i: usize = 0;
    while i < hs.len()
        invariant
            o == opt_view(owner),
            i <= hs.len(),
            crate::model::hunks_view(out@) =~= crate::model::hunks_view(owned_hunks(hs@.take(i as int), o)),
        decreases hs.len() - i,
    {
        assert(hs@.take(i + 1).drop_last() =~= hs@.take(i as int));
        assert(hs@.take(i + 1).last() == hs@[i as int]);
        let ghost before = out@;
        if owns_hunk(&hs[i], owner) {
            let h = hs[i].duplicate();
            out.push(h);
            assert(crate::model::hunks_view(out@) =~= crate::model::hunks_view(before).push(hs@[i as int]@));
            assert(crate::model::hunks_view(owned_hunks(hs@.take(i + 1), o)) =~= crate::model::hunks_view(owned_hunks(hs@.take(i as int), o)).push(hs@[i as int]@));
        }
        i = i + 1;
    }
    assert(hs@.take(hs.len() as int) =~= hs@);
    out
}

} // verus!
