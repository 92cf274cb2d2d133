//! The repository snapshot the TUI renders: changed files with their
//! hunks and hunk-level changelist membership, the changelists in user
//! order, the active marker, recent commits, the HEAD and any git
//! operation in progress, plus the commit payload the commit dialog
//! inspects. Plain values, produced elsewhere and only read here.

use vstd::prelude::*;
use crate::text::{cat, count_noun, count_noun_text, decimal, opt_view, owned, push_char, same_opt_text, same_text, u32_decimal};

verus! {

/// A hunk's staging state: `○` unstaged, `●` staged, `◑` staged but
/// stale (the index holds a different version than the worktree).
#[derive(Debug, Clone, Copy, PartialEq, Eq, Structural)]
pub enum HunkStage {
    Unstaged,
    Staged,
    StagedStale,
}

/// A file row's staging marker: `○`, `◐` or `●`.
#[derive(Debug, Clone, Copy, PartialEq, Eq, Structural)]
pub enum FileStage {
    Unstaged,
    PartiallyStaged,
    Staged,
}

#[derive(Debug, Clone, Copy, PartialEq, Eq, Structural)]
pub enum ChangeKind {
    Added,
    Modified,
    Deleted,
    TypeChanged,
    Untracked,
    /// Quarantined: three index stages, no hunks, never rendered as a diff.
    Conflicted,
}

/// One line of a text hunk: its origin (`' '`, `+`, `-`, …) and content,
/// newline included.
#[derive(Debug, Clone, PartialEq, Eq)]
pub struct HunkLine {
    pub origin: char,
    pub content: String,
}

/// The blob ids a whole-file (binary) hunk is anchored to.
#[derive(Debug, Clone, PartialEq, Eq)]
pub struct OidAnchor {
    pub head: Option<String>,
    pub changed: Option<String>,
}

/// What a hunk *is*, independent of where it sits: its lines for a text
/// hunk, its blob anchors for a whole-file one.
#[derive(Debug, Clone, PartialEq, Eq)]
pub enum HunkIdentity {
    Text { lines: Vec<HunkLine> },
    WholeFile { oids: OidAnchor },
}

#[derive(Debug, Clone, PartialEq, Eq)]
pub struct Hunk {
    pub old_start: u32,
    pub old_lines: u32,
    pub new_start: u32,
    pub new_lines: u32,
    pub stage: HunkStage,
    pub index_only: bool,
    pub identity: HunkIdentity,
    /// The owning changelist; `None` is unassigned.
    pub changelist: Option<String>,
}

#[derive(Debug, Clone, PartialEq, Eq)]
pub struct BlobInfo {
    pub oid: String,
    pub size: u64,
}

/// A binary file's two sides; a missing side means added or deleted.
#[derive(Debug, Clone, PartialEq, Eq)]
pub struct BinarySides {
    pub head: Option<BlobInfo>,
    pub changed: Option<BlobInfo>,
}

#[derive(Debug, Clone, PartialEq, Eq)]
pub struct ChangedFile {
    pub path: String,
    pub kind: ChangeKind,
    pub binary: bool,
    pub binary_sides: Option<BinarySides>,
    pub hunks: Vec<Hunk>,
}

#[derive(Debug, Clone, PartialEq, Eq)]
pub struct Changelist {
    pub name: String,
}

#[derive(Debug, Clone, PartialEq, Eq)]
pub struct CommitInfo {
    pub short_id: String,
    pub author: String,
    pub summary: String,
}

#[derive(Debug, Clone, PartialEq, Eq)]
pub enum Head {
    Branch { name: String },
    Detached { short_id: String },
    Unborn { name: String },
}

/// A git operation in progress, which the next commit would conclude.
#[derive(Debug, Clone, Copy, PartialEq, Eq, Structural)]
pub enum GitOperation {
    Merge,
    Rebase,
    CherryPick,
    Revert,
}

/// An automatic membership decision or fail-soft outcome a refresh or an
/// op reports, for the Log.
#[derive(Debug, Clone, PartialEq, Eq)]
pub enum Advisory {
    AutoCaptured { path: String, new_start: u32, changelist: String },
    AmbiguousOverlap {
        path: String,
        new_start: u32,
        candidates: Vec<String>,
        assigned_to: Option<String>,
    },
    DormantRevival { path: String, changelist: Option<String>, hunks: usize },
    StaleHunk { path: String, new_start: u32 },
    HeadMoveDormancy { path: String, changelists: Vec<String> },
}

#[derive(Debug, Clone, PartialEq, Eq)]
pub struct Snapshot {
    pub files: Vec<ChangedFile>,
    /// User order.
    pub changelists: Vec<Changelist>,
    /// The active changelist; `None` is capture-off (unassigned active).
    pub active: Option<String>,
    pub advisories: Vec<Advisory>,
    pub head: Head,
    /// Newest first.
    pub recent_commits: Vec<CommitInfo>,
    pub operation: Option<GitOperation>,
}

/// One file of a commit payload: how many of its payload hunks are `●`
/// and how many `◑`.
#[derive(Debug, Clone, PartialEq, Eq)]
pub struct PayloadFile {
    pub path: String,
    pub staged_hunks: usize,
    pub stale_hunks: usize,
    pub hunks: Vec<Hunk>,
    pub whole_file: Option<OidAnchor>,
}

/// What a commit of one changelist would contain, as inspected when the
/// dialog opened.
#[derive(Debug, Clone, PartialEq, Eq)]
pub struct CommitPayload {
    pub files: Vec<PayloadFile>,
}

// ── views ───────────────────────────────────────────────────────────

pub ghost enum IdentityView {
    Text(Seq<(char, Seq<char>)>),
    WholeFile(Option<Seq<char>>, Option<Seq<char>>),
}

pub ghost struct HunkView {
    pub old_start: u32,
    pub old_lines: u32,
    pub new_start: u32,
    pub new_lines: u32,
    pub stage: HunkStage,
    pub index_only: bool,
    pub identity: IdentityView,
    pub changelist: Option<Seq<char>>,
}

pub open spec fn line_view(l: HunkLine) -> (char, Seq<char>) {
    (l.origin, l.content@)
}

pub open spec fn lines_view(ls: Seq<HunkLine>) -> Seq<(char, Seq<char>)> {
    ls.map_values(|l: HunkLine| line_view(l))
}

impl View for HunkIdentity {
    type V = IdentityView;

    open spec fn view(&self) -> IdentityView {
        match self {
            HunkIdentity::Text { lines } => IdentityView::Text(lines_view(lines@)),
            HunkIdentity::WholeFile { oids } => IdentityView::WholeFile(opt_view(&oids.head), opt_view(&oids.changed)),
        }
    }
}

impl View for Hunk {
    type V = HunkView;

    open spec fn view(&self) -> HunkView {
        HunkView {
            old_start: self.old_start,
            old_lines: self.old_lines,
            new_start: self.new_start,
            new_lines: self.new_lines,
            stage: self.stage,
            index_only: self.index_only,
            identity: self.identity@,
            changelist: opt_view(&self.changelist),
        }
    }
}

pub open spec fn hunks_view(hs: Seq<Hunk>) -> Seq<HunkView> {
    hs.map_values(|h: Hunk| h@)
}

pub(crate) fn copy_opt(o: &Option<String>) -> (r: Option<String>)
    ensures
        opt_view(&r) == opt_view(o),
{
    match o {
        Some(s) => Some(s.clone()),
        None => None,
    }
}

impl HunkIdentity {
    pub fn duplicate(&self) -> (r: HunkIdentity)
        ensures
            r@ == self@,
    {
        match self {
            HunkIdentity::Text { lines } => {
                let mut out: Vec<HunkLine> = Vec::new();
                let mut i: usize = 0;
                while i < lines.len()
                    invariant
                        i <= lines.len(),
                        out.len() == i,
                        forall|j: int| 0 <= j < i ==> line_view(#[trigger] out@[j]) == line_view(lines@[j]),
                    decreases lines.len() - i,
                {
                    let l = &lines[i];
                    out.push(HunkLine { origin: l.origin, content: l.content.clone() });
                    i = i + 1;
                }
                assert(lines_view(out@) =~= lines_view(lines@));
                HunkIdentity::Text { lines: out }
            },
            HunkIdentity::WholeFile { oids } => HunkIdentity::WholeFile {
                oids: OidAnchor { head: copy_opt(&oids.head), changed: copy_opt(&oids.changed) },
            },
        }
    }

    /// Whether two identities name the same hunk content — the test a
    /// hunk selection survives a refresh by.
    pub fn same_hunk(&self, other: &HunkIdentity) -> (r: bool)
        ensures
            r == (self@ == other@),
    {
        match (self, other) {
            (HunkIdentity::Text { lines: a }, HunkIdentity::Text { lines: b }) => {
                if a.len() != b.len() {
                    assert(self@->Text_0.len() != other@->Text_0.len());
                    return false;
                }
                let mut i: usize = 0;
                while i < a.len()
                    invariant
                        self@ == IdentityView::Text(lines_view(a@)),
                        other@ == IdentityView::Text(lines_view(b@)),
                        a.len() == b.len(),
                        i <= a.len(),
                        forall|j: int| 0 <= j < i ==> line_view(#[trigger] a@[j]) == line_view(b@[j]),
                    decreases a.len() - i,
                {
                    if a[i].origin != b[i].origin || !same_text(a[i].content.as_str(), b[i].content.as_str()) {
                        assert(self@->Text_0[i as int] == line_view(a@[i as int]));
                        assert(other@->Text_0[i as int] == line_view(b@[i as int]));
                        assert(self@->Text_0[i as int] != other@->Text_0[i as int]);
                        return false;
                    }
                    i = i + 1;
                }
                assert(lines_view(a@) =~= lines_view(b@));
                true
            },
            (HunkIdentity::WholeFile { oids: x }, HunkIdentity::WholeFile { oids: y }) => {
                same_opt_text(&x.head, &y.head) && same_opt_text(&x.changed, &y.changed)
            },
            _ => false,
        }
    }
}

/// `-<start>,<lines>` / `+<start>,<lines>`: one side of a hunk header.
pub open spec fn coords_text(sign: char, start: u32, lines: u32) -> Seq<char> {
    seq![sign] + decimal(start as nat) + seq![','] + decimal(lines as nat)
}

impl Hunk {
    pub fn duplicate(&self) -> (r: Hunk)
        ensures
            r@ == self@,
    {
        Hunk {
            old_start: self.old_start,
            old_lines: self.old_lines,
            new_start: self.new_start,
            new_lines: self.new_lines,
            stage: self.stage,
            index_only: self.index_only,
            identity: self.identity.duplicate(),
            changelist: copy_opt(&self.changelist),
        }
    }

    pub fn old_coords(&self) -> (r: String)
        ensures
            r@ == coords_text('-', self.old_start, self.old_lines),
    {
        let mut r = String::new();
        push_char(&mut r, '-');
        r.append(u32_decimal(self.old_start).as_str());
        push_char(&mut r, ',');
        r.append(u32_decimal(self.old_lines).as_str());
        r
    }

    pub fn new_coords(&self) -> (r: String)
        ensures
            r@ == coords_text('+', self.new_start, self.new_lines),
    {
        let mut r = String::new();
        push_char(&mut r, '+');
        r.append(u32_decimal(self.new_start).as_str());
        push_char(&mut r, ',');
        r.append(u32_decimal(self.new_lines).as_str());
        r
    }
}

/// Duplicate a run of hunks, view for view.
pub fn duplicate_hunks(hs: &Vec<Hunk>) -> (r: Vec<Hunk>)
    ensures
        hunks_view(r@) == hunks_view(hs@),
{
    let mut out: Vec<Hunk> = Vec::new();
    let mut i: usize = 0;
    while i < hs.len()
        invariant
            i <= hs.len(),
            out.len() == i,
            forall|j: int| 0 <= j < i ==> (#[trigger] out@[j])@ == hs@[j]@,
        decreases hs.len() - i,
    {
        out.push(hs[i].duplicate());
        i = i + 1;
    }
    assert(hunks_view(out@) =~= hunks_view(hs@));
    out
}

// ── operations and advisories in the Log's vocabulary ───────────────

/// The operation's lower-case name, as the pins and the guard say it.
pub open spec fn operation_label(op: GitOperation) -> Seq<char> {
    match op {
        GitOperation::Merge => "merge"@,
        GitOperation::Rebase => "rebase"@,
        GitOperation::CherryPick => "cherry-pick"@,
        GitOperation::Revert => "revert"@,
    }
}

impl GitOperation {
    pub fn label(self) -> (r: &'static str)
        ensures
            r@ == operation_label(self),
    {
        match self {
            GitOperation::Merge => "merge",
            GitOperation::Rebase => "rebase",
            GitOperation::CherryPick => "cherry-pick",
            GitOperation::Revert => "revert",
        }
    }

    /// Why a commit waits: `<op> in progress — conclude or abort it first`.
    pub fn in_progress_message(self) -> (r: String)
        ensures
            r@ == operation_label(self) + " in progress — conclude or abort it first"@,
    {
        cat(self.label(), " in progress — conclude or abort it first")
    }
}

/// The label unassigned hunks and the unassigned group carry.
pub fn unassigned_label() -> (r: &'static str)
    ensures
        r@ == "unassigned"@,
{
    "unassigned"
}

/// `'name'`: a changelist name as the Log quotes it.
pub open spec fn quoted(name: Seq<char>) -> Seq<char> {
    seq!['\''] + name + seq!['\'']
}

pub fn quote(name: &str) -> (r: String)
    ensures
        r@ == quoted(name@),
{
    let mut r = String::new();
    push_char(&mut r, '\'');
    r.append(name);
    push_char(&mut r, '\'');
    r
}

/// Quoted names joined by `, `.
pub open spec fn quoted_list(names: Seq<Seq<char>>) -> Seq<char>
    decreases names.len(),
{
    if names.len() == 0 {
        Seq::empty()
    } else if names.len() == 1 {
        quoted(names[0])
    } else {
        quoted_list(names.drop_last()) + ", "@ + quoted(names.last())
    }
}

pub open spec fn names_view(names: Seq<String>) -> Seq<Seq<char>> {
    names.map_values(|s: String| s@)
}

pub fn quote_list(names: &Vec<String>) -> (r: String)
    ensures
        r@ == quoted_list(names_view(names@)),
{
    let mut r = String::new();
    let mut i: usize = 0;
    while i < names.len()
        invariant
            i <= names.len(),
            r@ == quoted_list(names_view(names@.take(i as int))),
        decreases names.len() - i,
    {
        let ghost prefix = names_view(names@.take(i as int));
        let ghost next = names_view(names@.take(i + 1));
        assert(next.drop_last() =~= prefix);
        if i > 0 {
            r.append(", ");
        }
        let q = quote(names[i].as_str());
        r.append(q.as_str());
        proof {
            if i == 0 {
                assert(r@ =~= quoted(next[0]));
            } else {
                assert(r@ =~= quoted_list(prefix) + ", "@ + quoted(next.last()));
            }
        }
        i = i + 1;
    }
    assert(names@.take(names.len() as int) =~= names@);
    r
}

/// `<path>:<new_start>`: where a hunk sits.
pub open spec fn at_text(path: Seq<char>, new_start: u32) -> Seq<char> {
    path + seq![':'] + decimal(new_start as nat)
}

/// The advisory as the Log renders it — core's canonical phrasing.
pub open spec fn advisory_text(a: Advisory) -> Seq<char> {
    match a {
        Advisory::AutoCaptured { path, new_start, changelist } =>
            "auto-captured hunk at "@ + at_text(path@, new_start) + " → "@ + quoted(changelist@),
        Advisory::AmbiguousOverlap { path, new_start, candidates, assigned_to } =>
            match assigned_to {
                Some(name) => "auto-captured hunk at "@ + at_text(path@, new_start) + " → "@
                    + quoted(name@) + " (ambiguous overlap: "@ + quoted_list(names_view(candidates@)) + ")"@,
                None => "hunk at "@ + at_text(path@, new_start) + " left unassigned (ambiguous overlap: "@
                    + quoted_list(names_view(candidates@)) + ")"@,
            },
        Advisory::DormantRevival { path, changelist, hunks } =>
            "restored "@ + count_noun_text(hunks as nat, "hunk"@) + " to "@
                + (match changelist { Some(name) => quoted(name@), None => "unassigned"@ })
                + " — "@ + path@,
        Advisory::StaleHunk { path, new_start } =>
            "hunk at "@ + at_text(path@, new_start) + " changed since the last refresh; nothing applied"@,
        Advisory::HeadMoveDormancy { path, changelists } =>
            "external HEAD move changed "@ + path@ + " — records in "@ + quoted_list(names_view(changelists@))
                + " went dormant; affected hunks captured to active"@,
    }
}

fn at(path: &str, new_start: u32) -> (r: String)
    ensures
        r@ == at_text(path@, new_start),
{
    let mut r = owned(path);
    push_char(&mut r, ':');
    r.append(u32_decimal(new_start).as_str());
    r
}

impl Advisory {
    pub fn message(&self) -> (r: String)
        ensures
            r@ == advisory_text(*self),
    {
        match self {
            Advisory::AutoCaptured { path, new_start, changelist } => {
                let mut r = owned("auto-captured hunk at ");
                r.append(at(path.as_str(), *new_start).as_str());
                r.append(" → ");
                r.append(quote(changelist.as_str()).as_str());
                r
            },
            Advisory::AmbiguousOverlap { path, new_start, candidates, assigned_to } => {
                let overlap = quote_list(candidates);
                match assigned_to {
                    Some(name) => {
                        let mut r = owned("auto-captured hunk at ");
                        r.append(at(path.as_str(), *new_start).as_str());
                        r.append(" → ");
                        r.append(quote(name.as_str()).as_str());
                        r.append(" (ambiguous overlap: ");
                        r.append(overlap.as_str());
                        r.append(")");
                        r
                    },
                    None => {
                        let mut r = owned("hunk at ");
                        r.append(at(path.as_str(), *new_start).as_str());
                        r.append(" left unassigned (ambiguous overlap: ");
                        r.append(overlap.as_str());
                        r.append(")");
                        r
                    },
                }
            },
            Advisory::DormantRevival { path, changelist, hunks } => {
                let mut r = owned("restored ");
                r.append(count_noun(*hunks, "hunk").as_str());
                r.append(" to ");
                match changelist {
                    Some(name) => r.append(quote(name.as_str()).as_str()),
                    None => r.append("unassigned"),
                }
                r.append(" — ");
                r.append(path.as_str());
                r
            },
            Advisory::StaleHunk { path, new_start } => {
                let mut r = owned("hunk at ");
                r.append(at(path.as_str(), *new_start).as_str());
                r.append(" changed since the last refresh; nothing applied");
                r
            },
            Advisory::HeadMoveDormancy { path, changelists } => {
                let mut r = owned("external HEAD move changed ");
                r.append(path.as_str());
                r.append(" — records in ");
                r.append(quote_list(changelists).as_str());
                r.append(" went dormant; affected hunks captured to active");
                r
            },
        }
    }
}

/// `<path> is conflicted — resolve outside gitchange`: why a quarantined
/// path takes no staging or assigning.
pub open spec fn conflicted_hint_text(path: Seq<char>) -> Seq<char> {
    path + " is conflicted — resolve outside gitchange"@
}

pub fn conflicted_hint(path: &str) -> (r: String)
    ensures
        r@ == conflicted_hint_text(path@),
{
    cat(path, " is conflicted — resolve outside gitchange")
}

// ── commit payload counts ───────────────────────────────────────────

pub open spec fn staged_sum(files: Seq<PayloadFile>) -> nat
    decreases files.len(),
{
    if files.len() == 0 { 0 } else { staged_sum(files.drop_last()) + files.last().staged_hunks as nat }
}

pub open spec fn stale_sum(files: Seq<PayloadFile>) -> nat
    decreases files.len(),
{
    if files.len() == 0 { 0 } else { stale_sum(files.drop_last()) + files.last().stale_hunks as nat }
}

pub open spec fn saturate(n: nat) -> usize {
    if n > usize::MAX { usize::MAX } else { n as usize }
}

impl CommitPayload {
    /// The payload's `●` hunks (saturating at `usize::MAX`).
    pub fn staged_hunks(&self) -> (r: usize)
        ensures
            r == saturate(staged_sum(self.files@)),
    {
        let mut total: usize = 0;
        let mut i: usize = 0;
        while i < self.files.len()
            invariant
                i <= self.files.len(),
                total == saturate(staged_sum(self.files@.take(i as int))),
            decreases self.files.len() - i,
        {
            assert(self.files@.take(i + 1).drop_last() =~= self.files@.take(i as int));
            total = total.saturating_add(self.files[i].staged_hunks);
            i = i + 1;
        }
        assert(self.files@.take(self.files.len() as int) =~= self.files@);
        total
    }

    /// The payload's `◑` hunks (saturating at `usize::MAX`).
    pub fn stale_hunks(&self) -> (r: usize)
        ensures
            r == saturate(stale_sum(self.files@)),
    {
        let mut total: usize = 0;
        let mut i: usize = 0;
        while i < self.files.len()
            invariant
                i <= self.files.len(),
                total == saturate(stale_sum(self.files@.take(i as int))),
            decreases self.files.len() - i,
        {
            assert(self.files@.take(i + 1).drop_last() =~= self.files@.take(i as int));
            total = total.saturating_add(self.files[i].stale_hunks);
            i = i + 1;
        }
        assert(self.files@.take(self.files.len() as int) =~= self.files@);
        total
    }

    pub fn file_count(&self) -> (r: usize)
        ensures
            r == self.files@.len(),
    {
        self.files.len()
    }
}

/// "N staged hunks in M files", singulars handled — the payload
/// summary's counts (`◑` hunks count as staged here; the dialog appends
/// their tail separately).
pub open spec fn payload_counts_text(p: CommitPayload) -> Seq<char> {
    count_noun_text(
        saturate((saturate(staged_sum(p.files@)) + saturate(stale_sum(p.files@))) as nat) as nat,
        "staged hunk"@,
    ) + " in "@ + count_noun_text(p.files@.len(), "file"@)
}

pub fn payload_counts(payload: &CommitPayload) -> (r: String)
    ensures
        r@ == payload_counts_text(*payload),
{
    let hunks = payload.staged_hunks().saturating_add(payload.stale_hunks());
    let mut r = count_noun(hunks, "staged hunk");
    r.append(" in ");
    r.append(count_noun(payload.file_count(), "file").as_str());
    r
}

} // verus!
