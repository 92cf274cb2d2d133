//! The binding core's context rules: which capabilities are live for the
//! current focus and scope, the focus moves, `space`'s decide-by-state
//! toggle, and the keybar that advertises exactly the live bindings.

use vstd::prelude::*;
use crate::app::{Action, ActionView, App, AppView, Op, OpView};
use crate::keymap::{bar_spelling, bar_text, binding_capability, capability_of, BindingId, Capability};
use crate::model::{conflicted_hint, conflicted_hint_text, operation_label, ChangeKind, ChangedFile, Hunk, HunkStage};
use crate::panel::Panel;
use crate::status::{logged, Severity};
use crate::text::{opt_view, owned};
use crate::view::{
    group_owner, owned_count, owned_counts, owned_with, scope_owner, Scope, ScopeView,
};
use crate::view_model::{entries_of_app, scope_of, selected_file_of};

verus! {

// ── capabilities ────────────────────────────────────────────────────

/// A hunk selection owns keys only while the Diff panel is focused; a
/// blurred one stays visible for the cross-panel assign keys.
pub open spec fn hunk_mode_focused_of(a: AppView) -> bool {
    a.focus == Panel::Diff && a.hunk_sel is Some
}

/// Whether the focused panel is one that shows a changelist scope.
pub open spec fn scope_panel(a: AppView) -> bool {
    a.focus == Panel::Changelists || a.focus == Panel::Files
}

/// Why a capability's keys won't act right now: `None` is live, an empty
/// reason hides the binding silently, any other reason hides it from the
/// bar and logs when the key is pressed anyway.
pub open spec fn disabled_reason_of(a: AppView, capability: Capability) -> Option<Seq<char>> {
    match capability {
        Capability::Always => None,
        Capability::ChangelistOps => if !scope_panel(a) {
            Some(Seq::empty())
        } else {
            match scope_of(a) {
                ScopeView::Changelist(_) => None,
                ScopeView::All => Some("select a changelist — all is a view"@),
                ScopeView::Unassigned => Some("select a changelist — unassigned is built-in"@),
            }
        },
        Capability::SwitchActive => if !scope_panel(a) {
            Some(Seq::empty())
        } else {
            match scope_of(a) {
                ScopeView::All => Some("select a changelist — all is a view"@),
                _ => None,
            }
        },
        Capability::Assign => if a.focus == Panel::Files || a.focus == Panel::Diff || a.hunk_sel is Some {
            None
        } else {
            Some(Seq::empty())
        },
        Capability::Stage => if hunk_mode_focused_of(a) || a.focus == Panel::Files {
            None
        } else if a.focus != Panel::Changelists {
            Some(Seq::empty())
        } else {
            match scope_of(a) {
                ScopeView::All => Some("select a changelist to stage — all is a view"@),
                _ => None,
            }
        },
        Capability::Commit => {
            let operation = match a.snapshot {
                Some(s) => s.operation,
                None => None,
            };
            match operation {
                Some(op) => Some(operation_label(op) + " in progress — conclude or abort it first"@),
                None => match scope_of(a) {
                    ScopeView::All => Some("select a changelist to commit — all is a view"@),
                    _ => None,
                },
            }
        },
    }
}

// ── focus ───────────────────────────────────────────────────────────

/// Focus `panel`; refocusing the Diff panel itself is scroll mode, so it
/// ends hunk mode.
pub open spec fn focused(a: AppView, panel: Panel) -> AppView {
    AppView { focus: panel, hunk_sel: if panel == Panel::Diff { None } else { a.hunk_sel }, ..a }
}

/// Focus the Files panel, selecting its first entry when none is.
pub open spec fn files_focused(a: AppView) -> AppView {
    let b = focused(a, Panel::Files);
    if b.file_sel is None {
        let es = entries_of_app(b);
        AppView { file_sel: if es.len() > 0 { Some(es[0]) } else { None }, ..b }
    } else {
        b
    }
}

/// `enter` on a file: the Diff panel with its first hunk selected, when
/// the file is text with hunks; otherwise nothing changes.
pub open spec fn hunk_mode_entered(a: AppView) -> AppView {
    match selected_file_of(a) {
        Some(f) => if !f.binary && f.hunks@.len() > 0 {
            AppView { focus: Panel::Diff, hunk_sel: Some(0), ..a }
        } else {
            a
        },
        None => a,
    }
}

// ── space ───────────────────────────────────────────────────────────

/// Whether `owner` owns any hunk across `files`.
pub open spec fn owns_any(files: Seq<ChangedFile>, owner: Option<Seq<char>>) -> bool
    decreases files.len(),
{
    if files.len() == 0 {
        false
    } else {
        owns_any(files.drop_last(), owner) || owned_count(files.last().hunks@, owner) > 0
    }
}

/// Whether every hunk `owner` owns across `files` is `●`.
pub open spec fn owned_all_staged(files: Seq<ChangedFile>, owner: Option<Seq<char>>) -> bool
    decreases files.len(),
{
    if files.len() == 0 {
        true
    } else {
        owned_all_staged(files.drop_last(), owner)
            && owned_with(files.last().hunks@, owner, HunkStage::Staged) == owned_count(files.last().hunks@, owner)
    }
}

/// `space` on a hunk: `●` unstages, `○`/`◑` stages.
pub open spec fn hunk_toggle(path: Seq<char>, h: Hunk) -> OpView {
    if h.stage == HunkStage::Staged {
        OpView::UnstageHunk { path, hunk: h@ }
    } else {
        OpView::StageHunk { path, hunk: h@ }
    }
}

/// `space` on a Files row: its own hunks, all `●` unstage, anything else
/// (no hunks included) stages.
pub open spec fn row_toggle(path: Seq<char>, owner: Option<Seq<char>>, hs: Seq<Hunk>) -> OpView {
    let total = owned_count(hs, owner);
    if total > 0 && owned_with(hs, owner, HunkStage::Staged) == total {
        OpView::UnstageOwnedHunks { path, changelist: owner }
    } else {
        OpView::StageOwnedHunks { path, changelist: owner }
    }
}

/// `space` on a Changelists row: every hunk the row owns across files —
/// all `●` unstage; anything else, an owner of nothing included, stages.
pub open spec fn changelist_toggle(a: AppView) -> Option<OpView> {
    match (scope_owner(scope_of(a)), a.snapshot) {
        (Some(owner), Some(s)) => Some(
            if owns_any(s.files@, owner) && owned_all_staged(s.files@, owner) {
                OpView::UnstageChangelist { changelist: owner }
            } else {
                OpView::StageChangelist { changelist: owner }
            },
        ),
        _ => None,
    }
}

pub open spec fn op_action(op: Option<OpView>) -> Option<ActionView> {
    match op {
        Some(op) => Some(ActionView::Op(op)),
        None => None,
    }
}

/// `space`'s decide-by-current-state toggle: the selected hunk in hunk
/// mode, the Files row's own hunks, or the scoped changelist's; a
/// conflicted file politely refuses in the Log.
pub open spec fn stage_toggled(a: AppView) -> (AppView, Option<ActionView>) {
    if hunk_mode_focused_of(a) {
        let index = a.hunk_sel.unwrap();
        match selected_file_of(a) {
            Some(f) => if index < f.hunks@.len() {
                (a, Some(ActionView::Op(hunk_toggle(f.path@, f.hunks@[index as int]))))
            } else {
                (a, None)
            },
            None => (a, None),
        }
    } else if a.focus == Panel::Changelists {
        (a, op_action(changelist_toggle(a)))
    } else if a.focus != Panel::Files {
        (a, None)
    } else {
        match (a.file_sel, selected_file_of(a)) {
            (Some(sel), Some(f)) => if f.kind == ChangeKind::Conflicted {
                (AppView { log: logged(a.log, Severity::Info, conflicted_hint_text(f.path@)), ..a }, None)
            } else {
                match group_owner(sel.group) {
                    Some(owner) => (a, Some(ActionView::Op(row_toggle(f.path@, owner, f.hunks@)))),
                    None => (a, None),
                }
            },
            _ => (a, None),
        }
    }
}

// ── the keybar ──────────────────────────────────────────────────────

pub open spec fn assign_trio() -> Seq<BindingId> {
    seq![BindingId::AssignSelected, BindingId::AssignUnassigned, BindingId::AssignAll]
}

/// The hints every arm but hunk mode's ends with.
pub open spec fn tail_arm() -> Seq<(Seq<BindingId>, Seq<char>)> {
    seq![
        (seq![BindingId::FocusPanel], "panels"@),
        (seq![BindingId::Refresh], "refresh"@),
        (seq![BindingId::Help], "keybindings"@),
        (seq![BindingId::Quit], "quit"@),
    ]
}

/// The focused context's candidate hints, in bar order.
pub open spec fn hint_arm(a: AppView) -> Seq<(Seq<BindingId>, Seq<char>)> {
    if hunk_mode_focused_of(a) {
        seq![
            (seq![BindingId::StageToggle], "toggle stage hunk"@),
            (assign_trio(), "assign hunk / unassigned / all"@),
            (seq![BindingId::Commit], "commit changelist"@),
            (seq![BindingId::Back], "back to files"@),
            (seq![BindingId::Help], "keybindings"@),
        ]
    } else {
        let own: Seq<(Seq<BindingId>, Seq<char>)> = match a.focus {
            Panel::Changelists => seq![
                (seq![BindingId::DrillIn], "files"@),
                (seq![BindingId::StageToggle], "toggle stage changelist"@),
                (seq![BindingId::NewChangelist], "new"@),
                (seq![BindingId::DeleteChangelist], "delete"@),
                (seq![BindingId::RenameChangelist], "rename"@),
                (seq![BindingId::SwitchActive], "switch active"@),
                (seq![BindingId::Commit], "commit"@),
                (assign_trio(), "assign hunk / unassigned / all"@),
            ],
            Panel::Files => seq![
                (seq![BindingId::StageToggle], "toggle stage row"@),
                (seq![BindingId::DrillIn], "hunks"@),
                (assign_trio(), "assign group / unassigned / all"@),
                (seq![BindingId::Commit], "commit"@),
                (seq![BindingId::NewChangelist], "new"@),
                (seq![BindingId::DeleteChangelist], "delete"@),
                (seq![BindingId::RenameChangelist], "rename"@),
                (seq![BindingId::SwitchActive], "switch active"@),
                (seq![BindingId::Back], "back"@),
            ],
            Panel::Diff => seq![
                (seq![BindingId::AssignUnassigned, BindingId::AssignAll], "assign unassigned / all"@),
                (seq![BindingId::Back], "back"@),
            ],
            _ => seq![(assign_trio(), "assign hunk / unassigned / all"@)],
        };
        own + tail_arm()
    }
}

/// Whether every binding of a hint is live.
pub open spec fn hint_live(a: AppView, ids: Seq<BindingId>) -> bool {
    forall|i: int| 0 <= i < ids.len() ==> disabled_reason_of(a, binding_capability(#[trigger] ids[i])) is None
}

/// The live hints of `arm`, spelled for the bar, in order.
pub open spec fn live_hints(a: AppView, arm: Seq<(Seq<BindingId>, Seq<char>)>) -> Seq<(Seq<char>, Seq<char>)>
    decreases arm.len(),
{
    if arm.len() == 0 {
        Seq::empty()
    } else {
        let rest = live_hints(a, arm.drop_last());
        let (ids, label) = arm.last();
        if hint_live(a, ids) { rest.push((bar_text(ids), label)) } else { rest }
    }
}

/// The keybar: the focused context's hints, filtered by the same
/// disabled-reason dispatch consults.
pub open spec fn key_hints_of(a: AppView) -> Seq<(Seq<char>, Seq<char>)> {
    live_hints(a, hint_arm(a))
}

pub open spec fn hints_view(hints: Seq<(String, &'static str)>) -> Seq<(Seq<char>, Seq<char>)> {
    hints.map_values(|h: (String, &'static str)| (h.0@, h.1@))
}

impl App {
    /// The shared disabled-reason predicate, consulted by dispatch and
    /// the keybar alike.
    pub fn disabled_reason(&self, capability: Capability) -> (r: Option<String>)
        ensures
            opt_view(&r) == disabled_reason_of(self@, capability),
    {
        match capability {
            Capability::Always => None,
            Capability::ChangelistOps => {
                if !(self.focus == Panel::Changelists || self.focus == Panel::Files) {
                    return Some(String::new());
                }
                match self.scope() {
                    Scope::Changelist(_) => None,
                    Scope::All => Some(owned("select a changelist — all is a view")),
                    Scope::Unassigned => Some(owned("select a changelist — unassigned is built-in")),
                }
            },
            Capability::SwitchActive => {
                if !(self.focus == Panel::Changelists || self.focus == Panel::Files) {
                    return Some(String::new());
                }
                match self.scope() {
                    Scope::All => Some(owned("select a changelist — all is a view")),
                    _ => None,
                }
            },
            Capability::Assign => {
                if self.focus == Panel::Files || self.focus == Panel::Diff || self.hunk_sel.is_some() {
                    None
                } else {
                    Some(String::new())
                }
            },
            Capability::Stage => {
                if self.hunk_mode_focused() || self.focus == Panel::Files {
                    return None;
                }
                if self.focus != Panel::Changelists {
                    return Some(String::new());
                }
                match self.scope() {
                    Scope::All => Some(owned("select a changelist to stage — all is a view")),
                    _ => None,
                }
            },
            Capability::Commit => {
                let operation = match &self.snapshot {
                    Some(s) => s.operation,
                    None => None,
                };
                match operation {
                    Some(op) => Some(op.in_progress_message()),
                    None => match self.scope() {
                        Scope::All => Some(owned("select a changelist to commit — all is a view")),
                        _ => None,
                    },
                }
            },
        }
    }

    pub fn hunk_mode_focused(&self) -> (r: bool)
        ensures
            r == hunk_mode_focused_of(self@),
    {
        self.focus == Panel::Diff && self.hunk_sel.is_some()
    }

    /// Move panel focus. Hunk mode survives a blur to another panel, but
    /// refocusing the Diff panel itself is scroll mode, so that resets it.
    pub fn set_focus(&mut self, panel: Panel)
        ensures
            final(self)@ == focused(old(self)@, panel),
    {
        self.focus = panel;
        if panel == Panel::Diff {
            self.hunk_sel = None;
        }
    }

    pub fn focus_files(&mut self)
        ensures
            final(self)@ == files_focused(old(self)@),
    {
        self.set_focus(Panel::Files);
        if self.file_sel.is_none() {
            let entries = self.file_entries();
            self.file_sel = if entries.len() > 0 { Some(entries[0].duplicate()) } else { None };
        }
    }

    /// `enter` on a file: focus the Diff panel with its first hunk
    /// selected. Hunk-less files and binaries are a polite no-op.
    pub fn enter_hunk_mode(&mut self)
        ensures
            final(self)@ == hunk_mode_entered(old(self)@),
    {
        let has_hunks = match self.selected_file() {
            Some(file) => !file.binary && file.hunks.len() > 0,
            None => false,
        };
        if has_hunks {
            self.focus = Panel::Diff;
            self.hunk_sel = Some(0);
        }
    }

    /// The changelist the ops keys act on: the scoped row's name.
    pub fn scoped_changelist(&self) -> (r: Option<String>)
        ensures
            opt_view(&r) == match scope_of(self@) {
                ScopeView::Changelist(n) => Some(n),
                _ => None,
            },
    {
        match self.scope() {
            Scope::Changelist(name) => Some(name),
            _ => None,
        }
    }

    /// `space` on a Changelists row: the same toggle at changelist scope.
    pub fn stage_toggle_changelist(&self) -> (r: Option<Action>)
        ensures
            match r {
                Some(a) => op_action(changelist_toggle(self@)) == Some(a@),
                None => changelist_toggle(self@) is None,
            },
    {
        let owner = match self.scope().owner() {
            Some(o) => o,
            None => return None,
        };
        let snapshot = match &self.snapshot {
            Some(s) => s,
            None => return None,
        };
        let files = &snapshot.files;
        let mut any = false;
        let mut all = true;
        let mut i: usize = 0;
        while i < files.len()
            invariant
                i <= files.len(),
                any == owns_any(files@.take(i as int), opt_view(&owner)),
                all == owned_all_staged(files@.take(i as int), opt_view(&owner)),
            decreases files.len() - i,
        {
            assert(files@.take(i + 1).drop_last() =~= files@.take(i as int));
            let (total, staged, _) = owned_counts(&files[i].hunks, &owner);
            any = any || total > 0;
            all = all && staged == total;
            i = i + 1;
        }
        assert(files@.take(files.len() as int) =~= files@);
        Some(Action::Op(if any && all {
            Op::UnstageChangelist { changelist: owner }
        } else {
            Op::StageChangelist { changelist: owner }
        }))
    }

    /// `space`'s decide-by-current-state toggle: in hunk mode the
    /// selected hunk, in the Files panel the row's own hunks, in the
    /// Changelists panel every hunk of the scoped row.
    pub fn stage_toggle(&mut self) -> (r: Option<Action>)
        ensures
            (final(self)@, match r { Some(a) => Some(a@), None => None }) == stage_toggled(old(self)@),
    {
        if self.hunk_mode_focused() {
            let index = match self.hunk_sel {
                Some(i) => i,
                None => return None,
            };
            let file = match self.selected_file() {
                Some(f) => f,
                None => return None,
            };
            if index >= file.hunks.len() {
                return None;
            }
            let hunk = file.hunks[index].duplicate();
            let path = file.path.clone();
            let op = if hunk.stage == HunkStage::Staged {
                Op::UnstageHunk { path, hunk }
            } else {
                Op::StageHunk { path, hunk }
            };
            return Some(Action::Op(op));
        }
        if self.focus == Panel::Changelists {
            return self.stage_toggle_changelist();
        }
        if self.focus != Panel::Files {
            return None;
        }
        let owner = match &self.file_sel {
            Some(sel) => sel.group.owner(),
            None => return None,
        };
        let (path, conflicted, total, staged) = match self.selected_file() {
            Some(file) => {
                let (total, staged) = match &owner {
                    Some(o) => {
                        let (t, s, _) = owned_counts(&file.hunks, o);
                        (t, s)
                    },
                    None => (0, 0),
                };
                (file.path.clone(), file.kind == ChangeKind::Conflicted, total, staged)
            },
            None => return None,
        };
        // `space` on quarantined content politely refuses.
        if conflicted {
            let hint = conflicted_hint(path.as_str());
            self.push_log(Severity::Info, hint.as_str());
            return None;
        }
        match owner {
            Some(changelist) => Some(Action::Op(if total > 0 && staged == total {
                Op::UnstageOwnedHunks { path, changelist }
            } else {
                Op::StageOwnedHunks { path, changelist }
            })),
            None => None,
        }
    }

    /// The keybar: each hint of the focused context whose bindings are
    /// all live, spelled by primary key.
    pub fn key_hints(&self) -> (r: Vec<(String, &'static str)>)
        ensures
            hints_view(r@) == key_hints_of(self@),
    {
        let arm = self.hint_arm();
        let mut out: Vec<(String, &'static str)> = Vec::new();
        let mut i: usize = 0;
        while i < arm.len()
            invariant
                i <= arm.len(),
                arms_view(arm@) == hint_arm(self@),
                hints_view(out@) =~= live_hints(self@, arms_view(arm@).take(i as int)),
            decreases arm.len() - i,
        {
            let ghost pre = arms_view(arm@).take(i as int);
            assert(arms_view(arm@).take(i + 1).drop_last() =~= pre);
            assert(arms_view(arm@).take(i + 1).last() == (arm@[i as int].0@, arm@[i as int].1@));
            let ids = &arm[i].0;
            let mut live = true;
            let mut j: usize = 0;
            while j < ids.len()
                invariant
                    j <= ids.len(),
                    live == forall|k: int| 0 <= k < j ==> disabled_reason_of(self@, binding_capability(#[trigger] ids@[k])) is None,
                decreases ids.len() - j,
            {
                let reason = self.disabled_reason(capability_of(ids[j]));
                live = live && reason.is_none();
                j = j + 1;
            }
            if live {
                let ghost before = out@;
                out.push((bar_spelling(ids), arm[i].1));
                assert(hints_view(out@) =~= hints_view(before).push((bar_text(ids@), arm@[i as int].1@)));
            }
            i = i + 1;
        }
        assert(arms_view(arm@).take(arm.len() as int) =~= arms_view(arm@));
        out
    }

    fn hint_arm(&self) -> (r: Vec<(Vec<BindingId>, &'static str)>)
        ensures
            arms_view(r@) == hint_arm(self@),
    {
        let trio = vec![BindingId::AssignSelected, BindingId::AssignUnassigned, BindingId::AssignAll];
        let r = if self.hunk_mode_focused() {
            vec![
                (vec![BindingId::StageToggle], "toggle stage hunk"),
                (trio, "assign hunk / unassigned / all"),
                (vec![BindingId::Commit], "commit changelist"),
                (vec![BindingId::Back], "back to files"),
                (vec![BindingId::Help], "keybindings"),
            ]
        } else {
            let mut own = match self.focus {
                Panel::Changelists => vec![
                    (vec![BindingId::DrillIn], "files"),
                    (vec![BindingId::StageToggle], "toggle stage changelist"),
                    (vec![BindingId::NewChangelist], "new"),
                    (vec![BindingId::DeleteChangelist], "delete"),
                    (vec![BindingId::RenameChangelist], "rename"),
                    (vec![BindingId::SwitchActive], "switch active"),
                    (vec![BindingId::Commit], "commit"),
                    (trio, "assign hunk / unassigned / all"),
                ],
                Panel::Files => vec![
                    (vec![BindingId::StageToggle], "toggle stage row"),
                    (vec![BindingId::DrillIn], "hunks"),
                    (trio, "assign group / unassigned / all"),
                    (vec![BindingId::Commit], "commit"),
                    (vec![BindingId::NewChangelist], "new"),
                    (vec![BindingId::DeleteChangelist], "delete"),
                    (vec![BindingId::RenameChangelist], "rename"),
                    (vec![BindingId::SwitchActive], "switch active"),
                    (vec![BindingId::Back], "back"),
                ],
                Panel::Diff => vec![
                    (vec![BindingId::AssignUnassigned, BindingId::AssignAll], "assign unassigned / all"),
                    (vec![BindingId::Back], "back"),
                ],
                _ => vec![(trio, "assign hunk / unassigned / all")],
            };
            let ghost own_view = arms_view(own@);
            own.push((vec![BindingId::FocusPanel], "panels"));
            own.push((vec![BindingId::Refresh], "refresh"));
            own.push((vec![BindingId::Help], "keybindings"));
            own.push((vec![BindingId::Quit], "quit"));
            assert(arms_view(own@) =~~= own_view + tail_arm());
            own
        };
        assert(arms_view(r@) =~~= hint_arm(self@));
        r
    }
}

pub open spec fn arms_view(arm: Seq<(Vec<BindingId>, &'static str)>) -> Seq<(Seq<BindingId>, Seq<char>)> {
    arm.map_values(|h: (Vec<BindingId>, &'static str)| (h.0@, h.1@))
}

} // verus!
