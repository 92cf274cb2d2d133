//! The TUI's state machine, pure over snapshots: panel focus, drill-down
//! scope, selections and their identity-first survival across snapshot
//! swaps, and the actions a key press asks the main loop to perform.

use vstd::prelude::*;
use crate::model::{hunks_view, Hunk, HunkView, Snapshot};
use crate::overlay::{
    opt_overlay_view, AssignTarget, AssignTargetView, CommitDraft, CommitDraftView, Overlay,
    OverlayView,
};
use crate::panel::{Panel, PanelHeights};
use crate::status::{log_view, opt_modal_view, ErrorModal, ErrorModalView, LogEntry, LogEntryView};
use crate::text::opt_view;
use crate::view::{opt_entry_view, FileEntry, FileEntryView};

verus! {

/// What a key press asks the main loop to do beyond mutating the App.
#[derive(Debug, Clone, PartialEq, Eq)]
pub enum Action {
    Quit,
    /// The manual refresh key.
    Refresh,
    /// A synchronous mutation for the main loop's own repository handle;
    /// a refresh request follows it.
    Op(Op),
    /// One commit-flow IO step; outcomes come back through the App's
    /// `commit_*`/`open_*` methods.
    Commit(CommitStep),
}

/// One synchronous repository mutation.
#[derive(Debug, Clone, PartialEq, Eq)]
pub enum Op {
    /// `n`: create a changelist and switch to it.
    CreateChangelist { name: String },
    RenameChangelist { from: String, to: String },
    DeleteChangelist { name: String },
    /// `s`: set the active changelist; `None` is unassigned — capture off.
    SetActive { changelist: Option<String> },
    /// Assign snapshot hunks to a target.
    Assign { path: String, hunks: Vec<Hunk>, target: AssignTarget },
    /// `space` on a Files row with any `○`/`◑` among the row's own hunks:
    /// index := worktree for them (`None` = unassigned).
    StageOwnedHunks { path: String, changelist: Option<String> },
    /// `space` on a Files row whose own hunks are all `●`.
    UnstageOwnedHunks { path: String, changelist: Option<String> },
    /// `space` on a `○`/`◑` hunk: index := worktree for its region.
    StageHunk { path: String, hunk: Hunk },
    /// `space` on a `●` hunk: index := HEAD for its region.
    UnstageHunk { path: String, hunk: Hunk },
    /// `space` on a Changelists row holding any `○`/`◑` hunk.
    StageChangelist { changelist: Option<String> },
    /// `space` on a Changelists row whose hunks are all `●`.
    UnstageChangelist { changelist: Option<String> },
}

/// The commit flow's IO steps, executed by the main loop.
#[derive(Debug, Clone, PartialEq, Eq)]
pub enum CommitStep {
    /// `c`: derive the payload, then open the dialog (or the stage-all
    /// offer on an empty payload).
    Open { changelist: Option<String> },
    /// The zero-staged offer confirmed: stage the changelist's unstaged
    /// hunks, then derive the payload and open the dialog.
    StageAllAndOpen { changelist: Option<String> },
    /// The confirmed dialog: commit against its inspected payload.
    Commit(CommitDraft),
    /// The `◑` warn's align option: index := worktree over the
    /// changelist's `◑` hunks, then commit the aligned payload.
    AlignAndCommit(CommitDraft),
}

pub ghost enum OpView {
    CreateChangelist { name: Seq<char> },
    RenameChangelist { from: Seq<char>, to: Seq<char> },
    DeleteChangelist { name: Seq<char> },
    SetActive { changelist: Option<Seq<char>> },
    Assign { path: Seq<char>, hunks: Seq<HunkView>, target: AssignTargetView },
    StageOwnedHunks { path: Seq<char>, changelist: Option<Seq<char>> },
    UnstageOwnedHunks { path: Seq<char>, changelist: Option<Seq<char>> },
    StageHunk { path: Seq<char>, hunk: HunkView },
    UnstageHunk { path: Seq<char>, hunk: HunkView },
    StageChangelist { changelist: Option<Seq<char>> },
    UnstageChangelist { changelist: Option<Seq<char>> },
}

pub ghost enum CommitStepView {
    Open { changelist: Option<Seq<char>> },
    StageAllAndOpen { changelist: Option<Seq<char>> },
    Commit(CommitDraftView),
    AlignAndCommit(CommitDraftView),
}

pub ghost enum ActionView {
    Quit,
    Refresh,
    Op(OpView),
    Commit(CommitStepView),
}

impl View for Op {
    type V = OpView;

    open spec fn view(&self) -> OpView {
        match self {
            Op::CreateChangelist { name } => OpView::CreateChangelist { name: name@ },
            Op::RenameChangelist { from, to } => OpView::RenameChangelist { from: from@, to: to@ },
            Op::DeleteChangelist { name } => OpView::DeleteChangelist { name: name@ },
            Op::SetActive { changelist } => OpView::SetActive { changelist: opt_view(changelist) },
            Op::Assign { path, hunks, target } => OpView::Assign {
                path: path@,
                hunks: hunks_view(hunks@),
                target: target@,
            },
            Op::StageOwnedHunks { path, changelist } => OpView::StageOwnedHunks {
                path: path@,
                changelist: opt_view(changelist),
            },
            Op::UnstageOwnedHunks { path, changelist } => OpView::UnstageOwnedHunks {
                path: path@,
                changelist: opt_view(changelist),
            },
            Op::StageHunk { path, hunk } => OpView::StageHunk { path: path@, hunk: hunk@ },
            Op::UnstageHunk { path, hunk } => OpView::UnstageHunk { path: path@, hunk: hunk@ },
            Op::StageChangelist { changelist } => OpView::StageChangelist { changelist: opt_view(changelist) },
            Op::UnstageChangelist { changelist } => OpView::UnstageChangelist { changelist: opt_view(changelist) },
        }
    }
}

impl View for CommitStep {
    type V = CommitStepView;

    open spec fn view(&self) -> CommitStepView {
        match self {
            CommitStep::Open { changelist } => CommitStepView::Open { changelist: opt_view(changelist) },
            CommitStep::StageAllAndOpen { changelist } => CommitStepView::StageAllAndOpen {
                changelist: opt_view(changelist),
            },
            CommitStep::Commit(d) => CommitStepView::Commit(d@),
            CommitStep::AlignAndCommit(d) => CommitStepView::AlignAndCommit(d@),
        }
    }
}

impl View for Action {
    type V = ActionView;

    open spec fn view(&self) -> ActionView {
        match self {
            Action::Quit => ActionView::Quit,
            Action::Refresh => ActionView::Refresh,
            Action::Op(op) => ActionView::Op(op@),
            Action::Commit(step) => ActionView::Commit(step@),
        }
    }
}

/// The TUI's whole state. Time is a millisecond count on the main loop's
/// monotonic clock.
pub struct App {
    /// Directory name of the worktree root, for the Status line.
    pub repo_name: String,
    pub snapshot: Option<Snapshot>,
    pub focus: Panel,
    /// Index into [`App::changelist_rows`].
    pub changelist_row: usize,
    pub file_sel: Option<FileEntry>,
    pub commit_row: usize,
    pub diff_scroll: u16,
    /// Hunk-mode selection: `Some` while `enter` on a file has focused
    /// the Diff panel for per-hunk work; `0`-key focus is plain scroll
    /// mode (`None`). Survives a blur to another panel and ends when the
    /// underlying file selection moves.
    pub hunk_sel: Option<usize>,
    /// The open modal, if any.
    pub overlay: Option<Overlay>,
    /// The Log panel's chronological stream, newest last.
    pub log: Vec<LogEntry>,
    /// Lines scrolled up from the stream's bottom; zero sticks to the
    /// newest entry.
    pub log_scroll: usize,
    /// The open error modal, above any [`Overlay`].
    pub error_modal: Option<ErrorModal>,
    /// Whether the engine reported the watcher degraded.
    pub watcher_degraded: bool,
    pub help_open: bool,
    /// When the in-flight refresh started; drives the deferred indicator.
    pub refresh_started: Option<u64>,
    /// The last refresh failure's text, so a persistent failure repeats
    /// silently. Cleared by the next successful refresh.
    pub last_refresh_failure: Option<String>,
    /// The (files, hunks, conflicted) counts last echoed to the log.
    pub last_refresh_echo: Option<(usize, usize, usize)>,
    /// What the last frame gave each panel.
    pub panel_heights: PanelHeights,
}

pub ghost struct AppView {
    pub repo_name: Seq<char>,
    pub snapshot: Option<Snapshot>,
    pub focus: Panel,
    pub changelist_row: usize,
    pub file_sel: Option<FileEntryView>,
    pub commit_row: usize,
    pub diff_scroll: u16,
    pub hunk_sel: Option<usize>,
    pub overlay: Option<OverlayView>,
    pub log: Seq<LogEntryView>,
    pub log_scroll: usize,
    pub error_modal: Option<ErrorModalView>,
    pub watcher_degraded: bool,
    pub help_open: bool,
    pub refresh_started: Option<u64>,
    pub last_refresh_failure: Option<Seq<char>>,
    pub last_refresh_echo: Option<(usize, usize, usize)>,
    pub panel_heights: PanelHeights,
}

impl View for App {
    type V = AppView;

    open spec fn view(&self) -> AppView {
        AppView {
            repo_name: self.repo_name@,
            snapshot: self.snapshot,
            focus: self.focus,
            changelist_row: self.changelist_row,
            file_sel: opt_entry_view(self.file_sel),
            commit_row: self.commit_row,
            diff_scroll: self.diff_scroll,
            hunk_sel: self.hunk_sel,
            overlay: opt_overlay_view(self.overlay),
            log: log_view(self.log@),
            log_scroll: self.log_scroll,
            error_modal: opt_modal_view(self.error_modal),
            watcher_degraded: self.watcher_degraded,
            help_open: self.help_open,
            refresh_started: self.refresh_started,
            last_refresh_failure: opt_view(&self.last_refresh_failure),
            last_refresh_echo: self.last_refresh_echo,
            panel_heights: self.panel_heights,
        }
    }
}

/// A page-sized step in a panel of `height` rows: one screen less a row
/// of overlap, never zero.
pub open spec fn page_size(height: u16) -> usize {
    if height <= 2 { 1 } else { (height - 1) as usize }
}

impl App {
    pub fn new(repo_name: &str) -> (r: App)
        ensures
            r@ == (AppView {
                repo_name: repo_name@,
                snapshot: None,
                focus: Panel::Changelists,
                changelist_row: 0,
                file_sel: None,
                commit_row: 0,
                diff_scroll: 0,
                hunk_sel: None,
                overlay: None,
                log: Seq::empty(),
                log_scroll: 0,
                error_modal: None,
                watcher_degraded: false,
                help_open: false,
                refresh_started: None,
                last_refresh_failure: None,
                last_refresh_echo: None,
                panel_heights: r.panel_heights,
            }),
            forall|p: Panel| r.panel_heights.height(p) == 0,
    {
        let r = App {
            repo_name: crate::text::owned(repo_name),
            snapshot: None,
            focus: Panel::Changelists,
            changelist_row: 0,
            file_sel: None,
            commit_row: 0,
            diff_scroll: 0,
            hunk_sel: None,
            overlay: None,
            log: Vec::new(),
            log_scroll: 0,
            error_modal: None,
            watcher_degraded: false,
            help_open: false,
            refresh_started: None,
            last_refresh_failure: None,
            last_refresh_echo: None,
            panel_heights: PanelHeights::zero(),
        };
        assert(log_view(r.log@) =~= Seq::<LogEntryView>::empty());
        r
    }

    /// Record what the frame just drawn gave each panel.
    pub fn set_panel_heights(&mut self, heights: PanelHeights)
        ensures
            final(self)@ == (AppView { panel_heights: heights, ..old(self)@ }),
    {
        self.panel_heights = heights;
    }

    /// `panel`'s content height as of the last frame; zero before the
    /// first one.
    pub fn panel_height(&self, panel: Panel) -> (r: u16)
        ensures
            r == self.panel_heights.height(panel),
    {
        self.panel_heights.get(panel)
    }

    /// How far a page-sized step moves in `panel`: one screen, less a
    /// row of overlap; never zero.
    pub fn page(&self, panel: Panel) -> (r: usize)
        ensures
            r == page_size(self.panel_heights.height(panel)),
            r >= 1,
    {
        let h = self.panel_height(panel).saturating_sub(1);
        if h < 1 { 1 } else { h as usize }
    }
}

} // verus!
