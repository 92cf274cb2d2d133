//! The commit dialog's lifecycle: opening it over a payload, the
//! stage-all offer over an empty one, the dialog's own keys, and the
//! outcomes the main loop feeds back (drift, rejection, success).

use vstd::prelude::*;
use crate::app::{Action, ActionView, App, AppView, CommitStep, CommitStepView};
use crate::keymap::{ctrl_of, KeyCode, KeyEvent, KeyModifiers};
use crate::model::{saturate, stale_sum, unassigned_label, ChangedFile, CommitPayload};
use crate::overlay::{CommitDraft, CommitDraftView, Overlay, OverlayView};
use crate::status::{logged, Severity};
use crate::text::{is_blank, opt_view, owned, pop_char, push_char, trim_end, trimmed, trimmed_end};
use crate::view::{owned_count, owned_counts};

verus! {

/// A fresh dialog over `payload`: empty drafts, flags off.
pub open spec fn fresh_draft(changelist: Option<Seq<char>>, payload: CommitPayload) -> CommitDraftView {
    CommitDraftView {
        changelist,
        payload,
        message: Seq::empty(),
        body: Seq::empty(),
        body_focus: false,
        skip_hooks: false,
        amend: false,
    }
}

/// The changelist the dialog title names.
pub open spec fn draft_label(d: CommitDraftView) -> Seq<char> {
    match d.changelist {
        Some(n) => n,
        None => "unassigned"@,
    }
}

/// The message `git commit` receives: the subject alone when the body
/// is blank, else subject, a blank line, and the body without trailing
/// white space.
pub open spec fn composed_message_text(d: CommitDraftView) -> Seq<char> {
    if trimmed(d.body).len() == 0 { d.message } else { d.message + "\n\n"@ + trimmed_end(d.body) }
}

impl CommitDraft {
    /// The message the confirmed dialog commits with.
    pub fn composed_message(&self) -> (r: String)
        ensures
            r@ == composed_message_text(self@),
    {
        if is_blank(self.body.as_str()) {
            return self.message.clone();
        }
        let mut r = self.message.clone();
        r.append("\n\n");
        r.append(trim_end(self.body.as_str()).as_str());
        r
    }

    pub fn new(changelist: Option<String>, payload: CommitPayload) -> (r: CommitDraft)
        ensures
            r@ == fresh_draft(opt_view(&changelist), payload),
    {
        CommitDraft {
            changelist,
            payload,
            message: String::new(),
            body: String::new(),
            body_focus: false,
            skip_hooks: false,
            amend: false,
        }
    }

    /// The dialog title's changelist name.
    pub fn changelist_label(&self) -> (r: &str)
        ensures
            r@ == draft_label(self@),
    {
        match &self.changelist {
            Some(name) => name.as_str(),
            None => unassigned_label(),
        }
    }
}

// ── the stage-all offer ─────────────────────────────────────────────

/// Every hunk `owner` owns across `files`.
pub open spec fn owned_total(files: Seq<ChangedFile>, owner: Option<Seq<char>>) -> nat
    decreases files.len(),
{
    if files.len() == 0 { 0 } else { owned_total(files.drop_last(), owner) + owned_count(files.last().hunks@, owner) }
}

/// The files holding at least one hunk `owner` owns.
pub open spec fn owning_files(files: Seq<ChangedFile>, owner: Option<Seq<char>>) -> nat
    decreases files.len(),
{
    if files.len() == 0 {
        0
    } else {
        owning_files(files.drop_last(), owner) + if owned_count(files.last().hunks@, owner) > 0 { 1nat } else { 0nat }
    }
}

proof fn lemma_owning_files_bounded(files: Seq<ChangedFile>, owner: Option<Seq<char>>)
    ensures
        owning_files(files, owner) <= files.len(),
    decreases files.len(),
{
    if files.len() > 0 {
        lemma_owning_files_bounded(files.drop_last(), owner);
    }
}

/// The payload came back empty: the stage-all offer when the changelist
/// owns hunks at all (counts saturating), otherwise a Log line saying
/// why nothing opened.
pub open spec fn stage_all_offered(a: AppView, changelist: Option<Seq<char>>) -> AppView {
    let files = match a.snapshot {
        Some(s) => s.files@,
        None => Seq::empty(),
    };
    let hunks = owned_total(files, changelist);
    if hunks == 0 {
        let label = match changelist {
            Some(n) => n,
            None => "unassigned"@,
        };
        AppView { log: logged(a.log, Severity::Info, "nothing to commit in '"@ + label + "'"@), ..a }
    } else {
        AppView {
            overlay: Some(OverlayView::CommitStageAll {
                changelist,
                hunks: saturate(hunks),
                files: owning_files(files, changelist) as usize,
            }),
            ..a
        }
    }
}

// ── the dialog's keys ───────────────────────────────────────────────

/// The dialog kept open over `d`, no action.
pub open spec fn dialog_kept(a: AppView, d: CommitDraftView) -> (AppView, Option<ActionView>) {
    (AppView { overlay: Some(OverlayView::Commit(d)), ..a }, None)
}

pub open spec fn popped(s: Seq<char>) -> Seq<char> {
    if s.len() == 0 { s } else { s.drop_last() }
}

/// The commit dialog's keys over `d` (the overlay already taken): `enter`
/// commits from the message and breaks the line in the body, `tab`
/// toggles message/body, `ctrl+n`/`ctrl+a` toggle the flags, `esc`
/// cancels. An empty subject is ignored; a `◑` in the payload warns
/// first.
pub open spec fn dialog_keyed(a: AppView, key: KeyEvent, d: CommitDraftView) -> (AppView, Option<ActionView>) {
    let ctrl = ctrl_of(key);
    match key.code {
        KeyCode::Esc => (a, None),
        KeyCode::Tab => dialog_kept(a, CommitDraftView { body_focus: !d.body_focus, ..d }),
        KeyCode::Enter => if d.body_focus {
            dialog_kept(a, CommitDraftView { body: d.body.push('\n'), ..d })
        } else if trimmed(d.message).len() == 0 {
            dialog_kept(a, d)
        } else if saturate(stale_sum(d.payload.files@)) > 0 {
            (AppView { overlay: Some(OverlayView::CommitStale(d)), ..a }, None)
        } else {
            (a, Some(ActionView::Commit(CommitStepView::Commit(d))))
        },
        KeyCode::Backspace => if d.body_focus {
            dialog_kept(a, CommitDraftView { body: popped(d.body), ..d })
        } else {
            dialog_kept(a, CommitDraftView { message: popped(d.message), ..d })
        },
        KeyCode::Char(c) => if ctrl {
            if c == 'n' || c == 'N' {
                dialog_kept(a, CommitDraftView { skip_hooks: !d.skip_hooks, ..d })
            } else if c == 'a' || c == 'A' {
                dialog_kept(a, CommitDraftView { amend: !d.amend, ..d })
            } else {
                dialog_kept(a, d)
            }
        } else if d.body_focus {
            dialog_kept(a, CommitDraftView { body: d.body.push(c), ..d })
        } else {
            dialog_kept(a, CommitDraftView { message: d.message.push(c), ..d })
        },
        _ => dialog_kept(a, d),
    }
}

pub open spec fn opt_action(r: Option<Action>) -> Option<ActionView> {
    match r {
        Some(a) => Some(a@),
        None => None,
    }
}

impl App {
    /// The commit dialog's keys over `draft`.
    pub fn on_commit_dialog_key(&mut self, key: KeyEvent, draft: CommitDraft) -> (r: Option<Action>)
        ensures
            (final(self)@, opt_action(r)) == dialog_keyed(old(self)@, key, draft@),
    {
        let mut draft = draft;
        let ctrl = key.modifiers.contains(KeyModifiers::CONTROL);
        match key.code {
            KeyCode::Esc => return None,
            KeyCode::Tab => draft.body_focus = !draft.body_focus,
            KeyCode::Enter => {
                if draft.body_focus {
                    push_char(&mut draft.body, '\n');
                } else {
                    // An empty subject would only bounce off `git commit`.
                    if is_blank(draft.message.as_str()) {
                        self.overlay = Some(Overlay::Commit(draft));
                        return None;
                    }
                    // `◑` in the payload: warn-and-confirm first.
                    if draft.payload.stale_hunks() > 0 {
                        self.overlay = Some(Overlay::CommitStale(draft));
                        return None;
                    }
                    return Some(Action::Commit(CommitStep::Commit(draft)));
                }
            },
            KeyCode::Backspace => {
                if draft.body_focus {
                    pop_char(&mut draft.body);
                } else {
                    pop_char(&mut draft.message);
                }
            },
            KeyCode::Char(c) => {
                if ctrl {
                    if c == 'n' || c == 'N' {
                        draft.skip_hooks = !draft.skip_hooks;
                    } else if c == 'a' || c == 'A' {
                        draft.amend = !draft.amend;
                    }
                } else if draft.body_focus {
                    push_char(&mut draft.body, c);
                } else {
                    push_char(&mut draft.message, c);
                }
            },
            _ => {},
        }
        self.overlay = Some(Overlay::Commit(draft));
        None
    }

    /// A derived payload arrived for `c`'s dialog.
    pub fn open_commit_dialog(&mut self, changelist: Option<String>, payload: CommitPayload)
        ensures
            final(self)@ == (AppView {
                overlay: Some(OverlayView::Commit(fresh_draft(opt_view(&changelist), payload))),
                ..old(self)@
            }),
    {
        self.overlay = Some(Overlay::Commit(CommitDraft::new(changelist, payload)));
    }

    /// The payload came back empty: offer stage-all-and-commit when the
    /// changelist has hunks at all, otherwise say why nothing opened.
    pub fn offer_stage_all(&mut self, changelist: Option<String>)
        ensures
            final(self)@ == stage_all_offered(old(self)@, opt_view(&changelist)),
    {
        let ghost owner = opt_view(&changelist);
        let mut hunks: usize = 0;
        let mut files: usize = 0;
        let mut any = false;
        if let Some(snapshot) = &self.snapshot {
            let fs = &snapshot.files;
            let mut i: usize = 0;
            while i < fs.len()
                invariant
                    i <= fs.len(),
                    hunks == saturate(owned_total(fs@.take(i as int), owner)),
                    any == (owned_total(fs@.take(i as int), owner) > 0),
                    files == owning_files(fs@.take(i as int), owner),
                    files <= i,
                    owner == opt_view(&changelist),
                decreases fs.len() - i,
            {
                assert(fs@.take(i + 1).drop_last() =~= fs@.take(i as int));
                let (owned, _, _) = owned_counts(&fs[i].hunks, &changelist);
                if owned > 0 {
                    files = files + 1;
                    any = true;
                }
                hunks = hunks.saturating_add(owned);
                i = i + 1;
            }
            assert(fs@.take(fs.len() as int) =~= fs@);
        }
        if !any {
            let mut text = owned("nothing to commit in '");
            match &changelist {
                Some(name) => text.append(name.as_str()),
                None => text.append(unassigned_label()),
            }
            text.append("'");
            self.push_log(Severity::Info, text.as_str());
            return;
        }
        self.overlay = Some(Overlay::CommitStageAll { changelist, hunks, files });
    }

    /// The refresh-before-commit guard tripped: re-confirm against the
    /// fresh payload, message and flags kept.
    pub fn commit_drifted(&mut self, draft: CommitDraft, fresh: CommitPayload)
        ensures
            final(self)@ == (AppView {
                overlay: Some(OverlayView::CommitDrift {
                    draft: CommitDraftView { payload: fresh, ..draft@ },
                    previous: draft.payload,
                }),
                ..old(self)@
            }),
    {
        let mut draft = draft;
        let previous = draft.payload;
        draft.payload = fresh;
        self.overlay = Some(Overlay::CommitDrift { draft, previous });
    }

    /// A failed commit restores the dialog exactly as confirmed.
    pub fn restore_commit_dialog(&mut self, draft: CommitDraft)
        ensures
            final(self)@ == (AppView { overlay: Some(OverlayView::Commit(draft@)), ..old(self)@ }),
    {
        self.overlay = Some(Overlay::Commit(draft));
    }

    /// The align-and-commit path found `◑` hunks still in the payload:
    /// re-warn rather than commit content the user hasn't seen flagged.
    pub fn reconfirm_stale(&mut self, draft: CommitDraft)
        ensures
            final(self)@ == (AppView { overlay: Some(OverlayView::CommitStale(draft@)), ..old(self)@ }),
    {
        self.overlay = Some(Overlay::CommitStale(draft));
    }

    /// Success closes the flow; the new commit appearing is the feedback.
    pub fn commit_succeeded(&mut self)
        ensures
            final(self)@ == (AppView { overlay: None, ..old(self)@ }),
    {
        self.overlay = None;
    }
}

} // verus!
