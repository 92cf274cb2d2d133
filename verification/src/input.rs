//! Key routing: the protocol-level quit, the error modal and the help
//! overlay above everything, the open overlay's own keys, and the
//! binding core's dispatch once a key resolves to a live binding.

use vstd::prelude::*;
use crate::app::{Action, ActionView, App, AppView, CommitStep, CommitStepView, Op, OpView};
use crate::assign::{assign_op_of, assign_opened, assign_path_of, assign_payload_of, assign_rows_of};
use crate::commit_flow::{dialog_keyed, opt_action, popped};
use crate::dispatch::{disabled_reason_of, files_focused, focused, hunk_mode_entered, stage_toggled};
use crate::keymap::{binding_capability, binding_for, capability_of, ctrl_of, resolve_key, BindingId, KeyCode, KeyEvent, KeyModifiers};
use crate::overlay::{
    AssignPayload, AssignPayloadView, AssignRow, AssignRowView, AssignTarget, AssignTargetView,
    InputKind, InputKindView, Overlay, OverlayView,
};
use crate::panel::{panel_for, Panel};
use crate::selection::{moved, stepped, step, with_changelist_row, Motion};
use crate::status::{logged, ErrorModalView, Severity};
use crate::text::{chars_of, opt_view, owned, pop_char, push_char, same_text, trim, trimmed};
use crate::view::{Scope, ScopeView};
use crate::view_model::scope_of;

verus! {

// ── overlays ────────────────────────────────────────────────────────

/// The overlay `o` put back over `b`, no action.
pub open spec fn restored(b: AppView, o: OverlayView) -> (AppView, Option<ActionView>) {
    (AppView { overlay: Some(o), ..b }, None)
}

pub open spec fn last_row(n: nat) -> usize {
    if n == 0 { 0 } else { (n - 1) as usize }
}

/// A key in the open overlay. Overlays swallow everything; the ones that
/// produce an action close as they return it.
pub open spec fn overlay_keyed(a: AppView, key: KeyEvent) -> (AppView, Option<ActionView>) {
    let b = AppView { overlay: None, ..a };
    let code = key.code;
    match a.overlay {
        None => (a, None),
        Some(o) => match o {
            OverlayView::Input { kind, value } => if code == KeyCode::Esc {
                match kind {
                    InputKindView::NewChangelistForAssign { payload } => restored(
                        b,
                        OverlayView::Assign { payload, row: last_row(assign_rows_of(b).len()) },
                    ),
                    _ => (b, None),
                }
            } else if code == KeyCode::Enter {
                let name = trimmed(value);
                if name.len() == 0 {
                    restored(b, o)
                } else {
                    match kind {
                        InputKindView::NewChangelist => (b, Some(ActionView::Op(OpView::CreateChangelist { name }))),
                        InputKindView::Rename { from } => if from == name {
                            (b, None)
                        } else {
                            (b, Some(ActionView::Op(OpView::RenameChangelist { from, to: name })))
                        },
                        InputKindView::NewChangelistForAssign { payload } => (
                            b,
                            assign_op_of(b, payload, AssignTargetView::New(name)),
                        ),
                    }
                }
            } else if code == KeyCode::Backspace {
                restored(b, OverlayView::Input { kind, value: popped(value) })
            } else {
                match code {
                    KeyCode::Char(c) => restored(b, OverlayView::Input { kind, value: value.push(c) }),
                    _ => restored(b, o),
                }
            },
            OverlayView::ConfirmDelete { name } => if code == KeyCode::Enter {
                (b, Some(ActionView::Op(OpView::DeleteChangelist { name })))
            } else if code == KeyCode::Esc {
                (b, None)
            } else {
                restored(b, o)
            },
            OverlayView::Commit(d) => dialog_keyed(b, key, d),
            OverlayView::CommitStale(d) => if code == KeyCode::Enter {
                (b, Some(ActionView::Commit(CommitStepView::Commit(d))))
            } else if code == KeyCode::Char('w') {
                (b, Some(ActionView::Commit(CommitStepView::AlignAndCommit(d))))
            } else if code == KeyCode::Esc {
                restored(b, OverlayView::Commit(d))
            } else {
                restored(b, o)
            },
            OverlayView::CommitStageAll { changelist, .. } => if code == KeyCode::Enter {
                (b, Some(ActionView::Commit(CommitStepView::StageAllAndOpen { changelist })))
            } else if code == KeyCode::Esc {
                (b, None)
            } else {
                restored(b, o)
            },
            OverlayView::CommitDrift { draft, .. } => if code == KeyCode::Enter {
                (b, Some(ActionView::Commit(CommitStepView::Commit(draft))))
            } else if code == KeyCode::Char('e') {
                restored(b, OverlayView::Commit(draft))
            } else if code == KeyCode::Esc {
                (b, None)
            } else {
                restored(b, o)
            },
            OverlayView::Assign { payload, row } => {
                let rows = assign_rows_of(b);
                let n = rows.len() as int;
                let row = if row < last_row(rows.len()) { row } else { last_row(rows.len()) };
                if code == KeyCode::Esc {
                    (b, None)
                } else if code == KeyCode::Char('j') || code == KeyCode::Down {
                    restored(b, OverlayView::Assign { payload, row: stepped(row as int, 1, n) as usize })
                } else if code == KeyCode::Char('k') || code == KeyCode::Up {
                    restored(b, OverlayView::Assign { payload, row: stepped(row as int, -1, n) as usize })
                } else if code == KeyCode::Enter {
                    if row < n {
                        match rows[row as int] {
                            AssignRowView::Changelist { name, .. } => (
                                b,
                                assign_op_of(b, payload, AssignTargetView::Existing(name)),
                            ),
                            AssignRowView::Unassigned => (b, assign_op_of(b, payload, AssignTargetView::Unassigned)),
                            AssignRowView::CreateNew => restored(
                                b,
                                OverlayView::Input {
                                    kind: InputKindView::NewChangelistForAssign { payload },
                                    value: Seq::empty(),
                                },
                            ),
                        }
                    } else {
                        (b, None)
                    }
                } else {
                    restored(b, OverlayView::Assign { payload, row })
                }
            },
        },
    }
}

// ── the binding core ────────────────────────────────────────────────

/// What a live binding does.
pub open spec fn binding_dispatched(a: AppView, id: BindingId, key: KeyEvent) -> (AppView, Option<ActionView>) {
    match id {
        BindingId::Quit => (a, Some(ActionView::Quit)),
        BindingId::Refresh => (a, Some(ActionView::Refresh)),
        BindingId::Help => (AppView { help_open: true, ..a }, None),
        BindingId::FocusPanel => match key.code {
            KeyCode::Char(c) => match panel_for(c) {
                Some(p) => if p == Panel::Files { (files_focused(a), None) } else { (focused(a, p), None) },
                None => (a, None),
            },
            _ => (a, None),
        },
        BindingId::MoveDown => (moved(a, Motion::Row, 1isize), None),
        BindingId::MoveUp => (moved(a, Motion::Row, -1isize), None),
        BindingId::PageDown => (moved(a, Motion::Page, 1isize), None),
        BindingId::PageUp => (moved(a, Motion::Page, -1isize), None),
        BindingId::JumpBottom => (moved(a, Motion::Jump, 1isize), None),
        BindingId::JumpTop => (moved(a, Motion::Jump, -1isize), None),
        BindingId::NewChangelist => (
            AppView {
                overlay: Some(OverlayView::Input { kind: InputKindView::NewChangelist, value: Seq::empty() }),
                ..a
            },
            None,
        ),
        BindingId::AssignSelected => match assign_payload_of(a) {
            Some(p) => (assign_opened(a, p), None),
            None => (a, None),
        },
        BindingId::AssignUnassigned => match assign_path_of(a) {
            Some(path) => (assign_opened(a, AssignPayloadView::UnassignedHunks { path }), None),
            None => (a, None),
        },
        BindingId::AssignAll => match assign_path_of(a) {
            Some(path) => (assign_opened(a, AssignPayloadView::AllHunks { path }), None),
            None => (a, None),
        },
        BindingId::SwitchActive => match scope_of(a) {
            ScopeView::All => (a, None),
            ScopeView::Changelist(n) => (a, Some(ActionView::Op(OpView::SetActive { changelist: Some(n) }))),
            ScopeView::Unassigned => (a, Some(ActionView::Op(OpView::SetActive { changelist: None }))),
        },
        BindingId::RenameChangelist => match scope_of(a) {
            ScopeView::Changelist(n) => (
                AppView {
                    overlay: Some(OverlayView::Input { kind: InputKindView::Rename { from: n }, value: n }),
                    ..a
                },
                None,
            ),
            _ => (a, None),
        },
        BindingId::DeleteChangelist => match scope_of(a) {
            ScopeView::Changelist(n) => (AppView { overlay: Some(OverlayView::ConfirmDelete { name: n }), ..a }, None),
            _ => (a, None),
        },
        BindingId::StageToggle => stage_toggled(a),
        BindingId::Commit => match scope_of(a) {
            ScopeView::All => (a, None),
            ScopeView::Changelist(n) => (a, Some(ActionView::Commit(CommitStepView::Open { changelist: Some(n) }))),
            ScopeView::Unassigned => (a, Some(ActionView::Commit(CommitStepView::Open { changelist: None }))),
        },
        BindingId::DrillIn => if a.focus == Panel::Changelists {
            (files_focused(a), None)
        } else if a.focus == Panel::Files {
            (hunk_mode_entered(a), None)
        } else {
            (a, None)
        },
        BindingId::Back => if a.focus == Panel::Diff {
            (AppView { hunk_sel: None, focus: Panel::Files, ..a }, None)
        } else if a.focus == Panel::Files {
            (AppView { focus: Panel::Changelists, ..a }, None)
        } else if a.focus == Panel::Changelists {
            (with_changelist_row(a, 0), None)
        } else {
            (a, None)
        },
    }
}

/// The error modal's keys: `esc`/`enter` dismiss, j/k scroll the detail.
pub open spec fn modal_keyed(a: AppView, key: KeyEvent, m: ErrorModalView) -> AppView {
    let code = key.code;
    if code == KeyCode::Esc || code == KeyCode::Enter {
        AppView { error_modal: None, ..a }
    } else if code == KeyCode::Char('j') || code == KeyCode::Down {
        let up = if m.scroll < u16::MAX { (m.scroll + 1) as u16 } else { u16::MAX };
        AppView { error_modal: Some(ErrorModalView { scroll: up, ..m }), ..a }
    } else if code == KeyCode::Char('k') || code == KeyCode::Up {
        let down = if m.scroll > 0 { (m.scroll - 1) as u16 } else { 0 };
        AppView { error_modal: Some(ErrorModalView { scroll: down, ..m }), ..a }
    } else {
        a
    }
}

/// One key press: `ctrl+c` quits from anywhere; the error modal, then
/// the help overlay, then an open overlay swallow keys; otherwise the key
/// resolves to a binding, and a disabled binding logs its non-empty
/// reason instead of acting.
pub open spec fn keyed(a: AppView, key: KeyEvent) -> (AppView, Option<ActionView>) {
    let code = key.code;
    if ctrl_of(key) && (code == KeyCode::Char('c') || code == KeyCode::Char('C')) {
        (a, Some(ActionView::Quit))
    } else if a.error_modal is Some {
        (modal_keyed(a, key, a.error_modal.unwrap()), None)
    } else if a.help_open {
        if code == KeyCode::Esc || code == KeyCode::Char('?') {
            (AppView { help_open: false, ..a }, None)
        } else if code == KeyCode::Char('q') {
            (a, Some(ActionView::Quit))
        } else {
            (a, None)
        }
    } else if a.overlay is Some {
        overlay_keyed(a, key)
    } else {
        match resolve_key(key) {
            None => (a, None),
            Some(id) => match disabled_reason_of(a, binding_capability(id)) {
                Some(reason) => (
                    if reason.len() > 0 { AppView { log: logged(a.log, Severity::Info, reason), ..a } } else { a },
                    None,
                ),
                None => binding_dispatched(a, id, key),
            },
        }
    }
}

impl App {
    /// Route a key into the open overlay.
    pub fn on_overlay_key(&mut self, key: KeyEvent) -> (r: Option<Action>)
        ensures
            (final(self)@, opt_action(r)) == overlay_keyed(old(self)@, key),
    {
        let overlay = match self.overlay.take() {
            Some(o) => o,
            None => return None,
        };
        match overlay {
            Overlay::Input { kind, value } => self.on_input_key(key, kind, value),
            Overlay::ConfirmDelete { name } => match key.code {
                KeyCode::Enter => Some(Action::Op(Op::DeleteChangelist { name })),
                KeyCode::Esc => None,
                _ => {
                    self.overlay = Some(Overlay::ConfirmDelete { name });
                    None
                },
            },
            Overlay::Commit(draft) => self.on_commit_dialog_key(key, draft),
            Overlay::CommitStale(draft) => match key.code {
                // Commit as-is: `◑` content ships exactly as the index
                // holds it — never silent, never blocking.
                KeyCode::Enter => Some(Action::Commit(CommitStep::Commit(draft))),
                KeyCode::Char('w') => Some(Action::Commit(CommitStep::AlignAndCommit(draft))),
                KeyCode::Esc => {
                    self.overlay = Some(Overlay::Commit(draft));
                    None
                },
                _ => {
                    self.overlay = Some(Overlay::CommitStale(draft));
                    None
                },
            },
            Overlay::CommitStageAll { changelist, hunks, files } => match key.code {
                KeyCode::Enter => Some(Action::Commit(CommitStep::StageAllAndOpen { changelist })),
                KeyCode::Esc => None,
                _ => {
                    self.overlay = Some(Overlay::CommitStageAll { changelist, hunks, files });
                    None
                },
            },
            Overlay::CommitDrift { draft, previous } => match key.code {
                // The fresh payload was shown; committing it is the
                // re-confirmation.
                KeyCode::Enter => Some(Action::Commit(CommitStep::Commit(draft))),
                KeyCode::Char('e') => {
                    self.overlay = Some(Overlay::Commit(draft));
                    None
                },
                KeyCode::Esc => None,
                _ => {
                    self.overlay = Some(Overlay::CommitDrift { draft, previous });
                    None
                },
            },
            Overlay::Assign { payload, row } => self.on_assign_key(key, payload, row),
        }
    }

    /// A key in a one-line text input (the overlay already taken).
    fn on_input_key(&mut self, key: KeyEvent, kind: InputKind, value: String) -> (r: Option<Action>)
        requires
            old(self).overlay is None,
        ensures
            (final(self)@, opt_action(r)) == overlay_keyed(
                AppView { overlay: Some(OverlayView::Input { kind: kind@, value: value@ }), ..old(self)@ },
                key,
            ),
    {
        let mut value = value;
        match key.code {
            KeyCode::Esc => {
                // The escape hatch returns to the popup it left.
                if let InputKind::NewChangelistForAssign { payload } = kind {
                    let rows = self.assign_rows().len();
                    let row = if rows == 0 { 0 } else { rows - 1 };
                    self.overlay = Some(Overlay::Assign { payload, row });
                }
                None
            },
            KeyCode::Enter => {
                let name = trim(value.as_str());
                if chars_of(name.as_str()).len() == 0 {
                    self.overlay = Some(Overlay::Input { kind, value });
                    return None;
                }
                match kind {
                    InputKind::NewChangelist => Some(Action::Op(Op::CreateChangelist { name })),
                    InputKind::Rename { from } => {
                        if same_text(from.as_str(), name.as_str()) {
                            return None;
                        }
                        Some(Action::Op(Op::RenameChangelist { from, to: name }))
                    },
                    InputKind::NewChangelistForAssign { payload } => self.assign_op(&payload, AssignTarget::New(name)),
                }
            },
            KeyCode::Backspace => {
                pop_char(&mut value);
                self.overlay = Some(Overlay::Input { kind, value });
                None
            },
            KeyCode::Char(c) => {
                push_char(&mut value, c);
                self.overlay = Some(Overlay::Input { kind, value });
                None
            },
            _ => {
                self.overlay = Some(Overlay::Input { kind, value });
                None
            },
        }
    }

    /// A key in the assign popup (the overlay already taken).
    fn on_assign_key(&mut self, key: KeyEvent, payload: AssignPayload, row: usize) -> (r: Option<Action>)
        requires
            old(self).overlay is None,
        ensures
            (final(self)@, opt_action(r)) == overlay_keyed(
                AppView { overlay: Some(OverlayView::Assign { payload: payload@, row }), ..old(self)@ },
                key,
            ),
    {
        let rows = self.assign_rows();
        let last = if rows.len() == 0 { 0 } else { rows.len() - 1 };
        let row = if row < last { row } else { last };
        match key.code {
            KeyCode::Esc => None,
            KeyCode::Char('j') | KeyCode::Down => {
                let row = step(row, 1, rows.len());
                self.overlay = Some(Overlay::Assign { payload, row });
                None
            },
            KeyCode::Char('k') | KeyCode::Up => {
                let row = step(row, -1, rows.len());
                self.overlay = Some(Overlay::Assign { payload, row });
                None
            },
            KeyCode::Enter => {
                if row < rows.len() {
                    assert(crate::overlay::assign_rows_view(rows@)[row as int] == rows@[row as int]@);
                    match &rows[row] {
                        AssignRow::Changelist { name, .. } => self.assign_op(&payload, AssignTarget::Existing(name.clone())),
                        AssignRow::Unassigned => self.assign_op(&payload, AssignTarget::Unassigned),
                        AssignRow::CreateNew => {
                            self.overlay = Some(Overlay::Input {
                                kind: InputKind::NewChangelistForAssign { payload },
                                value: String::new(),
                            });
                            None
                        },
                    }
                } else {
                    None
                }
            },
            _ => {
                self.overlay = Some(Overlay::Assign { payload, row });
                None
            },
        }
    }

    /// What a live binding does.
    fn dispatch(&mut self, id: BindingId, key: KeyEvent) -> (r: Option<Action>)
        ensures
            (final(self)@, opt_action(r)) == binding_dispatched(old(self)@, id, key),
    {
        match id {
            BindingId::Quit => return Some(Action::Quit),
            BindingId::Refresh => return Some(Action::Refresh),
            BindingId::Help => self.help_open = true,
            BindingId::FocusPanel => {
                // Explicit Diff focus is scroll mode; hunk mode only
                // enters through `enter` on a file.
                if let KeyCode::Char(c) = key.code {
                    match Panel::from_number(c) {
                        Some(Panel::Files) => self.focus_files(),
                        Some(panel) => self.set_focus(panel),
                        None => {},
                    }
                }
            },
            BindingId::MoveDown => self.move_selection(Motion::Row, 1),
            BindingId::MoveUp => self.move_selection(Motion::Row, -1),
            BindingId::PageDown => self.move_selection(Motion::Page, 1),
            BindingId::PageUp => self.move_selection(Motion::Page, -1),
            BindingId::JumpBottom => self.move_selection(Motion::Jump, 1),
            BindingId::JumpTop => self.move_selection(Motion::Jump, -1),
            BindingId::NewChangelist => {
                self.overlay = Some(Overlay::Input { kind: InputKind::NewChangelist, value: String::new() });
            },
            // The assign trio, scope escalating with keypress difficulty;
            // empty payloads stay press-time no-ops inside the helpers.
            BindingId::AssignSelected => {
                if let Some(payload) = self.selected_assign_payload() {
                    self.open_assign(payload);
                }
            },
            BindingId::AssignUnassigned => {
                if let Some(path) = self.assign_file_path() {
                    self.open_assign(AssignPayload::UnassignedHunks { path });
                }
            },
            BindingId::AssignAll => {
                if let Some(path) = self.assign_file_path() {
                    self.open_assign(AssignPayload::AllHunks { path });
                }
            },
            // `s` reaches one target the other ops keys don't:
            // unassigned, whose `*` is capture-off.
            BindingId::SwitchActive => match self.scope() {
                Scope::All => {},
                Scope::Changelist(name) => {
                    return Some(Action::Op(Op::SetActive { changelist: Some(name) }));
                },
                Scope::Unassigned => {
                    return Some(Action::Op(Op::SetActive { changelist: None }));
                },
            },
            BindingId::RenameChangelist => {
                if let Some(name) = self.scoped_changelist() {
                    self.overlay = Some(Overlay::Input { kind: InputKind::Rename { from: name.clone() }, value: name });
                }
            },
            BindingId::DeleteChangelist => {
                if let Some(name) = self.scoped_changelist() {
                    self.overlay = Some(Overlay::ConfirmDelete { name });
                }
            },
            BindingId::StageToggle => return self.stage_toggle(),
            BindingId::Commit => match self.scope() {
                Scope::All => {},
                Scope::Changelist(name) => {
                    return Some(Action::Commit(CommitStep::Open { changelist: Some(name) }));
                },
                // Unassigned is committable like any changelist.
                Scope::Unassigned => {
                    return Some(Action::Commit(CommitStep::Open { changelist: None }));
                },
            },
            // Drill-down only: changelist → files → hunk mode.
            BindingId::DrillIn => match self.focus {
                Panel::Changelists => self.focus_files(),
                Panel::Files => self.enter_hunk_mode(),
                _ => {},
            },
            BindingId::Back => match self.focus {
                Panel::Diff => {
                    self.hunk_sel = None;
                    self.focus = Panel::Files;
                },
                Panel::Files => self.focus = Panel::Changelists,
                Panel::Changelists => self.select_changelist_row(0),
                _ => {},
            },
        }
        None
    }

    /// One key press.
    pub fn on_key(&mut self, key: KeyEvent) -> (r: Option<Action>)
        ensures
            (final(self)@, opt_action(r)) == keyed(old(self)@, key),
    {
        // Every `ctrl+<letter>` binding is matched on CONTROL alone.
        let ctrl = key.modifiers.contains(KeyModifiers::CONTROL);
        if ctrl && (key.code == KeyCode::Char('c') || key.code == KeyCode::Char('C')) {
            return Some(Action::Quit);
        }
        // The error modal sits above everything: `esc`/`enter` dismiss,
        // j/k scroll the verbatim detail. No inline actions.
        if let Some(modal) = &mut self.error_modal {
            match key.code {
                KeyCode::Esc | KeyCode::Enter => self.error_modal = None,
                KeyCode::Char('j') | KeyCode::Down => {
                    modal.scroll = modal.scroll.saturating_add(1);
                },
                KeyCode::Char('k') | KeyCode::Up => {
                    modal.scroll = modal.scroll.saturating_sub(1);
                },
                _ => {},
            }
            return None;
        }
        if self.help_open {
            match key.code {
                KeyCode::Esc | KeyCode::Char('?') => self.help_open = false,
                KeyCode::Char('q') => return Some(Action::Quit),
                _ => {},
            }
            return None;
        }
        if self.overlay.is_some() {
            return self.on_overlay_key(key);
        }
        // The binding core: resolve the key to its record, then consult
        // the same disabled-reason the keybar hides by — a non-empty
        // reason logs on the press, an empty one drops it silently.
        let id = match binding_for(key) {
            Some(id) => id,
            None => return None,
        };
        if let Some(reason) = self.disabled_reason(capability_of(id)) {
            if chars_of(reason.as_str()).len() > 0 {
                self.push_log(Severity::Info, reason.as_str());
            }
            return None;
        }
        self.dispatch(id, key)
    }
}

} // verus!
