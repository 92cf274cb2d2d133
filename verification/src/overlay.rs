//! The modal layer: the overlay stack's types and key routing — text
//! inputs, delete confirmation, the assign popup, and the commit
//! dialog's warn/drift/restore lifecycle.

use vstd::prelude::*;
use crate::model::{CommitPayload, Hunk, HunkView};
use crate::text::opt_view;
use crate::view::{FileEntry, FileEntryView};

verus! {

/// Everything the commit dialog holds: the target changelist, the
/// inspected payload, the independent message/body drafts, and the flag
/// toggles. Kept whole through the warn/drift overlays so a failed
/// commit restores the dialog untouched.
#[derive(Debug, Clone, PartialEq, Eq)]
pub struct CommitDraft {
    /// `None` commits unassigned — committable like any changelist.
    pub changelist: Option<String>,
    pub payload: CommitPayload,
    /// The one-line commit subject.
    pub message: String,
    /// The optional multiline body (`tab` reaches it).
    pub body: String,
    /// Which input holds the cursor.
    pub body_focus: bool,
    pub skip_hooks: bool,
    pub amend: bool,
}

/// A modal above the panel stack. At most one is open; it swallows every
/// key until it closes.
#[derive(Debug, Clone, PartialEq, Eq)]
pub enum Overlay {
    /// A one-line text input.
    Input { kind: InputKind, value: String },
    /// Delete-changelist confirmation: the changelist's hunks go to
    /// unassigned.
    ConfirmDelete { name: String },
    /// The centered assign popup.
    Assign { payload: AssignPayload, row: usize },
    /// The all-in-one commit dialog.
    Commit(CommitDraft),
    /// The `◑` staged-stale warn-and-confirm over the dialog.
    CommitStale(CommitDraft),
    /// The zero-staged stage-all offer (core never auto-stages).
    CommitStageAll {
        changelist: Option<String>,
        /// The changelist's hunk/file counts, captured at open.
        hunks: usize,
        files: usize,
    },
    /// Drift re-confirm keeping the message: `draft.payload` is already
    /// the fresh payload; `previous` is what the dialog had confirmed.
    CommitDrift { draft: CommitDraft, previous: CommitPayload },
}

/// What an [`Overlay::Input`] submission means.
#[derive(Debug, Clone, PartialEq, Eq)]
pub enum InputKind {
    NewChangelist,
    Rename { from: String },
    /// The assign popup's escape hatch: create the named changelist,
    /// then assign the payload into it. `esc` returns to the popup.
    NewChangelistForAssign { payload: AssignPayload },
}

/// What a confirmed assign popup assigns. The three scopes escalate with
/// keypress difficulty (`a` / `A` / `ctrl+a`).
#[derive(Debug, Clone, PartialEq, Eq)]
pub enum AssignPayload {
    /// `a` on a Files row: the file's hunks owned by the row's group.
    FileRow(FileEntry),
    /// `a` in hunk mode: the selected hunk, captured at popup open.
    Hunk { path: String, hunk: Hunk },
    /// `A`: the file's unassigned hunks, wherever they render.
    UnassignedHunks { path: String },
    /// `ctrl+a`: every hunk of the file, foreign ones included.
    AllHunks { path: String },
}

/// One row of the assign popup.
#[derive(Debug, Clone, PartialEq, Eq)]
pub enum AssignRow {
    Changelist { name: String, active: bool },
    /// Unassigned is a target like any other: releasing the hunks.
    Unassigned,
    /// "+ create new changelist…", pinned last.
    CreateNew,
}

/// Where a confirmed assign sends its hunks.
#[derive(Debug, Clone, PartialEq, Eq)]
pub enum AssignTarget {
    Existing(String),
    /// Create the changelist first (an existing name is still a target).
    New(String),
    /// Release to unassigned.
    Unassigned,
}

// ── views ───────────────────────────────────────────────────────────

pub ghost struct CommitDraftView {
    pub changelist: Option<Seq<char>>,
    pub payload: CommitPayload,
    pub message: Seq<char>,
    pub body: Seq<char>,
    pub body_focus: bool,
    pub skip_hooks: bool,
    pub amend: bool,
}

pub ghost enum AssignPayloadView {
    FileRow(FileEntryView),
    Hunk { path: Seq<char>, hunk: HunkView },
    UnassignedHunks { path: Seq<char> },
    AllHunks { path: Seq<char> },
}

pub ghost enum InputKindView {
    NewChangelist,
    Rename { from: Seq<char> },
    NewChangelistForAssign { payload: AssignPayloadView },
}

pub ghost enum OverlayView {
    Input { kind: InputKindView, value: Seq<char> },
    ConfirmDelete { name: Seq<char> },
    Assign { payload: AssignPayloadView, row: usize },
    Commit(CommitDraftView),
    CommitStale(CommitDraftView),
    CommitStageAll { changelist: Option<Seq<char>>, hunks: usize, files: usize },
    CommitDrift { draft: CommitDraftView, previous: CommitPayload },
}

pub ghost enum AssignRowView {
    Changelist { name: Seq<char>, active: bool },
    Unassigned,
    CreateNew,
}

pub ghost enum AssignTargetView {
    Existing(Seq<char>),
    New(Seq<char>),
    Unassigned,
}

impl View for CommitDraft {
    type V = CommitDraftView;

    open spec fn view(&self) -> CommitDraftView {
        CommitDraftView {
            changelist: opt_view(&self.changelist),
            payload: self.payload,
            message: self.message@,
            body: self.body@,
            body_focus: self.body_focus,
            skip_hooks: self.skip_hooks,
            amend: self.amend,
        }
    }
}

impl View for AssignPayload {
    type V = AssignPayloadView;

    open spec fn view(&self) -> AssignPayloadView {
        match self {
            AssignPayload::FileRow(e) => AssignPayloadView::FileRow(e@),
            AssignPayload::Hunk { path, hunk } => AssignPayloadView::Hunk { path: path@, hunk: hunk@ },
            AssignPayload::UnassignedHunks { path } => AssignPayloadView::UnassignedHunks { path: path@ },
            AssignPayload::AllHunks { path } => AssignPayloadView::AllHunks { path: path@ },
        }
    }
}

impl View for InputKind {
    type V = InputKindView;

    open spec fn view(&self) -> InputKindView {
        match self {
            InputKind::NewChangelist => InputKindView::NewChangelist,
            InputKind::Rename { from } => InputKindView::Rename { from: from@ },
            InputKind::NewChangelistForAssign { payload } => InputKindView::NewChangelistForAssign { payload: payload@ },
        }
    }
}

impl View for Overlay {
    type V = OverlayView;

    open spec fn view(&self) -> OverlayView {
        match self {
            Overlay::Input { kind, value } => OverlayView::Input { kind: kind@, value: value@ },
            Overlay::ConfirmDelete { name } => OverlayView::ConfirmDelete { name: name@ },
            Overlay::Assign { payload, row } => OverlayView::Assign { payload: payload@, row: *row },
            Overlay::Commit(d) => OverlayView::Commit(d@),
            Overlay::CommitStale(d) => OverlayView::CommitStale(d@),
            Overlay::CommitStageAll { changelist, hunks, files } => OverlayView::CommitStageAll {
                changelist: opt_view(changelist),
                hunks: *hunks,
                files: *files,
            },
            Overlay::CommitDrift { draft, previous } => OverlayView::CommitDrift { draft: draft@, previous: *previous },
        }
    }
}

impl View for AssignRow {
    type V = AssignRowView;

    open spec fn view(&self) -> AssignRowView {
        match self {
            AssignRow::Changelist { name, active } => AssignRowView::Changelist { name: name@, active: *active },
            AssignRow::Unassigned => AssignRowView::Unassigned,
            AssignRow::CreateNew => AssignRowView::CreateNew,
        }
    }
}

impl View for AssignTarget {
    type V = AssignTargetView;

    open spec fn view(&self) -> AssignTargetView {
        match self {
            AssignTarget::Existing(n) => AssignTargetView::Existing(n@),
            AssignTarget::New(n) => AssignTargetView::New(n@),
            AssignTarget::Unassigned => AssignTargetView::Unassigned,
        }
    }
}

pub open spec fn opt_overlay_view(o: Option<Overlay>) -> Option<OverlayView> {
    match o {
        Some(o) => Some(o@),
        None => None,
    }
}

pub open spec fn assign_rows_view(rows: Seq<AssignRow>) -> Seq<AssignRowView> {
    rows.map_values(|r: AssignRow| r@)
}

/// The file every assign scope is anchored to.
pub open spec fn payload_path(p: AssignPayloadView) -> Seq<char> {
    match p {
        AssignPayloadView::FileRow(e) => e.path,
        AssignPayloadView::Hunk { path, .. } => path,
        AssignPayloadView::UnassignedHunks { path } => path,
        AssignPayloadView::AllHunks { path } => path,
    }
}

impl AssignPayload {
    pub fn path(&self) -> (r: &String)
        ensures
            r@ == payload_path(self@),
    {
        match self {
            AssignPayload::FileRow(entry) => &entry.path,
            AssignPayload::Hunk { path, .. } => path,
            AssignPayload::UnassignedHunks { path } => path,
            AssignPayload::AllHunks { path } => path,
        }
    }
}

} // verus!
