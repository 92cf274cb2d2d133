//! The main loop's exchanges with the engine. An op or a commit step
//! may take several engine calls; which call comes next, what lands in
//! the Log, and which modal a failure raises are decided here, one step
//! at a time, from what the previous call answered. The main loop only
//! performs the calls and hands their answers back.

use vstd::prelude::*;
use crate::app::{App, AppView, CommitStep, CommitStepView, Op, OpView};
use crate::commit_flow::{fresh_draft, stage_all_offered};
use crate::model::{copy_opt, duplicate_hunks, hunks_view, stale_sum, Advisory, CommitPayload, Hunk, HunkView};
use crate::overlay::{AssignTarget, AssignTargetView, CommitDraft, CommitDraftView, OverlayView};
use crate::status::{error_log_text, logged, logged_advisories, ErrorModalView, Severity};
use crate::text::{join, joined, opt_view, owned, strings_view};

verus! {

// ── what the engine is asked and what it answers ────────────────────

/// What a successful mutation reports: the decision it echoes, if any,
/// and the advisories it raised.
#[derive(Debug, Clone, PartialEq, Eq)]
pub struct OpOutcome {
    pub echo: Option<String>,
    pub advisories: Vec<Advisory>,
}

pub ghost struct OpOutcomeView {
    pub echo: Option<Seq<char>>,
    pub advisories: Seq<Advisory>,
}

impl View for OpOutcome {
    type V = OpOutcomeView;

    open spec fn view(&self) -> OpOutcomeView {
        OpOutcomeView { echo: opt_view(&self.echo), advisories: self.advisories@ }
    }
}

/// One repository mutation the engine performs for an op.
#[derive(Debug, Clone, PartialEq, Eq)]
pub enum Call {
    CreateChangelist { name: String },
    /// Move the active marker; `None` is unassigned.
    Switch { changelist: Option<String> },
    RenameChangelist { from: String, to: String },
    /// Delete with the records guard released: the confirm dialog was
    /// the user's override.
    DeleteChangelist { name: String },
    StageOwnedHunks { path: String, changelist: Option<String> },
    UnstageOwnedHunks { path: String, changelist: Option<String> },
    StageHunk { path: String, hunk: Hunk },
    UnstageHunk { path: String, hunk: Hunk },
    StageChangelist { changelist: Option<String> },
    UnstageChangelist { changelist: Option<String> },
    /// Assign hunks of one file; `None` releases them to unassigned.
    AssignHunks { path: String, hunks: Vec<Hunk>, changelist: Option<String> },
}

pub ghost enum CallView {
    CreateChangelist { name: Seq<char> },
    Switch { changelist: Option<Seq<char>> },
    RenameChangelist { from: Seq<char>, to: Seq<char> },
    DeleteChangelist { name: Seq<char> },
    StageOwnedHunks { path: Seq<char>, changelist: Option<Seq<char>> },
    UnstageOwnedHunks { path: Seq<char>, changelist: Option<Seq<char>> },
    StageHunk { path: Seq<char>, hunk: HunkView },
    UnstageHunk { path: Seq<char>, hunk: HunkView },
    StageChangelist { changelist: Option<Seq<char>> },
    UnstageChangelist { changelist: Option<Seq<char>> },
    AssignHunks { path: Seq<char>, hunks: Seq<HunkView>, changelist: Option<Seq<char>> },
}

impl View for Call {
    type V = CallView;

    open spec fn view(&self) -> CallView {
        match self {
            Call::CreateChangelist { name } => CallView::CreateChangelist { name: name@ },
            Call::Switch { changelist } => CallView::Switch { changelist: opt_view(changelist) },
            Call::RenameChangelist { from, to } => CallView::RenameChangelist { from: from@, to: to@ },
            Call::DeleteChangelist { name } => CallView::DeleteChangelist { name: name@ },
            Call::StageOwnedHunks { path, changelist } => CallView::StageOwnedHunks {
                path: path@,
                changelist: opt_view(changelist),
            },
            Call::UnstageOwnedHunks { path, changelist } => CallView::UnstageOwnedHunks {
                path: path@,
                changelist: opt_view(changelist),
            },
            Call::StageHunk { path, hunk } => CallView::StageHunk { path: path@, hunk: hunk@ },
            Call::UnstageHunk { path, hunk } => CallView::UnstageHunk { path: path@, hunk: hunk@ },
            Call::StageChangelist { changelist } => CallView::StageChangelist { changelist: opt_view(changelist) },
            Call::UnstageChangelist { changelist } => CallView::UnstageChangelist { changelist: opt_view(changelist) },
            Call::AssignHunks { path, hunks, changelist } => CallView::AssignHunks {
                path: path@,
                hunks: hunks_view(hunks@),
                changelist: opt_view(changelist),
            },
        }
    }
}

/// How the engine answered a call.
#[derive(Debug, Clone, PartialEq, Eq)]
pub enum Reply {
    Done(OpOutcome),
    /// A delete the engine refused: each offender's message.
    Refused(Vec<String>),
    /// A create refused because the name is already a changelist; the
    /// error's text.
    NameTaken(String),
    /// Any other failure; the error's text.
    Failed(String),
}

pub ghost enum ReplyView {
    Done(OpOutcomeView),
    Refused(Seq<Seq<char>>),
    NameTaken(Seq<char>),
    Failed(Seq<char>),
}

impl View for Reply {
    type V = ReplyView;

    open spec fn view(&self) -> ReplyView {
        match self {
            Reply::Done(o) => ReplyView::Done(o@),
            Reply::Refused(messages) => ReplyView::Refused(strings_view(messages@)),
            Reply::NameTaken(text) => ReplyView::NameTaken(text@),
            Reply::Failed(text) => ReplyView::Failed(text@),
        }
    }
}

/// A call the engine has answered.
#[derive(Debug, Clone, PartialEq, Eq)]
pub struct Answer {
    pub call: Call,
    pub reply: Reply,
}

pub ghost struct AnswerView {
    pub call: CallView,
    pub reply: ReplyView,
}

impl View for Answer {
    type V = AnswerView;

    open spec fn view(&self) -> AnswerView {
        AnswerView { call: self.call@, reply: self.reply@ }
    }
}

pub open spec fn opt_answer_view(a: Option<Answer>) -> Option<AnswerView> {
    match a {
        Some(answer) => Some(answer@),
        None => None,
    }
}

/// What follows a step: another call, the error modal, or nothing.
#[derive(Debug, Clone, PartialEq, Eq)]
pub enum OpNext {
    Call(Call),
    Fail { title: String, detail: String },
    Done,
}

pub ghost enum OpNextView {
    Call(CallView),
    Fail { title: Seq<char>, detail: Seq<char> },
    Done,
}

impl View for OpNext {
    type V = OpNextView;

    open spec fn view(&self) -> OpNextView {
        match self {
            OpNext::Call(c) => OpNextView::Call(c@),
            OpNext::Fail { title, detail } => OpNextView::Fail { title: title@, detail: detail@ },
            OpNext::Done => OpNextView::Done,
        }
    }
}

/// One step of an op: the outcome to log first, then what follows.
#[derive(Debug, Clone, PartialEq, Eq)]
pub struct OpStep {
    pub log: Option<OpOutcome>,
    pub next: OpNext,
}

pub ghost struct OpStepView {
    pub log: Option<OpOutcomeView>,
    pub next: OpNextView,
}

impl View for OpStep {
    type V = OpStepView;

    open spec fn view(&self) -> OpStepView {
        OpStepView {
            log: match self.log {
                Some(o) => Some(o@),
                None => None,
            },
            next: self.next@,
        }
    }
}

// ── the op decisions ────────────────────────────────────────────────

/// The error modal's title when `call` fails.
pub open spec fn failure_title(call: CallView) -> Seq<char> {
    match call {
        CallView::CreateChangelist { .. } => "Create changelist failed"@,
        CallView::Switch { .. } => "Switch changelist failed"@,
        CallView::RenameChangelist { .. } => "Rename changelist failed"@,
        CallView::DeleteChangelist { .. } => "Delete changelist failed"@,
        CallView::StageOwnedHunks { .. } | CallView::StageHunk { .. } | CallView::StageChangelist { .. } =>
            "Stage failed"@,
        CallView::UnstageOwnedHunks { .. } | CallView::UnstageHunk { .. } | CallView::UnstageChangelist { .. } =>
            "Unstage failed"@,
        CallView::AssignHunks { .. } => "Assign failed"@,
    }
}

/// The call an op starts with. Assigning to a new name creates the
/// changelist first; assigning to unassigned releases the hunks.
pub open spec fn first_call(op: OpView) -> CallView {
    match op {
        OpView::CreateChangelist { name } => CallView::CreateChangelist { name },
        OpView::RenameChangelist { from, to } => CallView::RenameChangelist { from, to },
        OpView::DeleteChangelist { name } => CallView::DeleteChangelist { name },
        OpView::SetActive { changelist } => CallView::Switch { changelist },
        OpView::Assign { path, hunks, target } => match target {
            AssignTargetView::Existing(name) => CallView::AssignHunks { path, hunks, changelist: Some(name) },
            AssignTargetView::New(name) => CallView::CreateChangelist { name },
            AssignTargetView::Unassigned => CallView::AssignHunks { path, hunks, changelist: None },
        },
        OpView::StageOwnedHunks { path, changelist } => CallView::StageOwnedHunks { path, changelist },
        OpView::UnstageOwnedHunks { path, changelist } => CallView::UnstageOwnedHunks { path, changelist },
        OpView::StageHunk { path, hunk } => CallView::StageHunk { path, hunk },
        OpView::UnstageHunk { path, hunk } => CallView::UnstageHunk { path, hunk },
        OpView::StageChangelist { changelist } => CallView::StageChangelist { changelist },
        OpView::UnstageChangelist { changelist } => CallView::UnstageChangelist { changelist },
    }
}

/// The call that follows a created changelist: `n` switches to it (the
/// engine creates without moving the marker), an assign to a new name
/// assigns to it.
pub open spec fn after_create(op: OpView) -> Option<CallView> {
    match op {
        OpView::CreateChangelist { name } => Some(CallView::Switch { changelist: Some(name) }),
        OpView::Assign { path, hunks, target: AssignTargetView::New(name) } =>
            Some(CallView::AssignHunks { path, hunks, changelist: Some(name) }),
        _ => None,
    }
}

/// What follows `call` when it did what it was asked.
pub open spec fn onward(op: OpView, call: CallView) -> OpNextView {
    if call is CreateChangelist {
        match after_create(op) {
            Some(c) => OpNextView::Call(c),
            None => OpNextView::Done,
        }
    } else {
        OpNextView::Done
    }
}

/// One step of `op` after `last`: the first call when nothing was
/// answered yet; a success logs its outcome and goes on; a name that
/// already exists is a valid target for an assign, so that create's
/// refusal goes on to the assign; any other failure raises the modal
/// titled after the failed call and ends the op (a failed create leaves
/// the marker alone). A refused delete's modal lists each offender's
/// message on a line of its own.
pub open spec fn op_next_of(op: OpView, last: Option<AnswerView>) -> OpStepView {
    match last {
        None => OpStepView { log: None, next: OpNextView::Call(first_call(op)) },
        Some(answer) => match answer.reply {
            ReplyView::Done(outcome) => OpStepView { log: Some(outcome), next: onward(op, answer.call) },
            ReplyView::Refused(messages) => OpStepView {
                log: None,
                next: OpNextView::Fail { title: failure_title(answer.call), detail: joined(messages, "\n"@) },
            },
            ReplyView::NameTaken(detail) => if op is Assign && answer.call is CreateChangelist {
                OpStepView { log: None, next: onward(op, answer.call) }
            } else {
                OpStepView { log: None, next: OpNextView::Fail { title: failure_title(answer.call), detail } }
            },
            ReplyView::Failed(detail) => OpStepView {
                log: None,
                next: OpNextView::Fail { title: failure_title(answer.call), detail },
            },
        },
    }
}

fn failure_title_of(call: &Call) -> (r: String)
    ensures
        r@ == failure_title(call@),
{
    match call {
        Call::CreateChangelist { .. } => owned("Create changelist failed"),
        Call::Switch { .. } => owned("Switch changelist failed"),
        Call::RenameChangelist { .. } => owned("Rename changelist failed"),
        Call::DeleteChangelist { .. } => owned("Delete changelist failed"),
        Call::StageOwnedHunks { .. } | Call::StageHunk { .. } | Call::StageChangelist { .. } => owned("Stage failed"),
        Call::UnstageOwnedHunks { .. } | Call::UnstageHunk { .. } | Call::UnstageChangelist { .. } =>
            owned("Unstage failed"),
        Call::AssignHunks { .. } => owned("Assign failed"),
    }
}

/// The call `op` starts with.
pub fn first_call_of(op: &Op) -> (r: Call)
    ensures
        r@ == first_call(op@),
{
    match op {
        Op::CreateChangelist { name } => Call::CreateChangelist { name: name.clone() },
        Op::RenameChangelist { from, to } => Call::RenameChangelist { from: from.clone(), to: to.clone() },
        Op::DeleteChangelist { name } => Call::DeleteChangelist { name: name.clone() },
        Op::SetActive { changelist } => Call::Switch { changelist: copy_opt(changelist) },
        Op::Assign { path, hunks, target } => match target {
            AssignTarget::Existing(name) => Call::AssignHunks {
                path: path.clone(),
                hunks: duplicate_hunks(hunks),
                changelist: Some(name.clone()),
            },
            AssignTarget::New(name) => Call::CreateChangelist { name: name.clone() },
            AssignTarget::Unassigned => Call::AssignHunks {
                path: path.clone(),
                hunks: duplicate_hunks(hunks),
                changelist: None,
            },
        },
        Op::StageOwnedHunks { path, changelist } => Call::StageOwnedHunks {
            path: path.clone(),
            changelist: copy_opt(changelist),
        },
        Op::UnstageOwnedHunks { path, changelist } => Call::UnstageOwnedHunks {
            path: path.clone(),
            changelist: copy_opt(changelist),
        },
        Op::StageHunk { path, hunk } => Call::StageHunk { path: path.clone(), hunk: hunk.duplicate() },
        Op::UnstageHunk { path, hunk } => Call::UnstageHunk { path: path.clone(), hunk: hunk.duplicate() },
        Op::StageChangelist { changelist } => Call::StageChangelist { changelist: copy_opt(changelist) },
        Op::UnstageChangelist { changelist } => Call::UnstageChangelist { changelist: copy_opt(changelist) },
    }
}

fn onward_of(op: &Op, call: &Call) -> (r: OpNext)
    ensures
        r@ == onward(op@, call@),
{
    match call {
        Call::CreateChangelist { .. } => match op {
            Op::CreateChangelist { name } => OpNext::Call(Call::Switch { changelist: Some(name.clone()) }),
            Op::Assign { path, hunks, target: AssignTarget::New(name) } => OpNext::Call(Call::AssignHunks {
                path: path.clone(),
                hunks: duplicate_hunks(hunks),
                changelist: Some(name.clone()),
            }),
            _ => OpNext::Done,
        },
        _ => OpNext::Done,
    }
}

/// The next step of `op`, given the answer to its previous call (`None`
/// before the first).
pub fn op_next(op: &Op, last: Option<Answer>) -> (r: OpStep)
    ensures
        r@ == op_next_of(op@, opt_answer_view(last)),
{
    match last {
        None => OpStep { log: None, next: OpNext::Call(first_call_of(op)) },
        Some(answer) => {
            let Answer { call, reply } = answer;
            match reply {
                Reply::Done(outcome) => OpStep { log: Some(outcome), next: onward_of(op, &call) },
                Reply::Refused(messages) => OpStep {
                    log: None,
                    next: OpNext::Fail { title: failure_title_of(&call), detail: join(&messages, "\n") },
                },
                Reply::NameTaken(detail) => {
                    let assigning = match op {
                        Op::Assign { .. } => true,
                        _ => false,
                    };
                    let creating = match call {
                        Call::CreateChangelist { .. } => true,
                        _ => false,
                    };
                    if assigning && creating {
                        OpStep { log: None, next: onward_of(op, &call) }
                    } else {
                        OpStep { log: None, next: OpNext::Fail { title: failure_title_of(&call), detail } }
                    }
                },
                Reply::Failed(detail) => OpStep {
                    log: None,
                    next: OpNext::Fail { title: failure_title_of(&call), detail },
                },
            }
        },
    }
}

// ── the Log's two channels ──────────────────────────────────────────

/// A successful outcome on the Log: its echo at `·`, then its
/// advisories at `!`.
pub open spec fn outcome_logged(log: Seq<crate::status::LogEntryView>, o: OpOutcomeView) -> Seq<crate::status::LogEntryView> {
    let echoed = match o.echo {
        Some(echo) => logged(log, Severity::Info, echo),
        None => log,
    };
    logged_advisories(echoed, o.advisories)
}

impl App {
    /// Put a successful outcome on the Log.
    pub fn log_outcome(&mut self, outcome: &OpOutcome)
        ensures
            final(self)@ == (AppView { log: outcome_logged(old(self)@.log, outcome@), ..old(self)@ }),
    {
        if let Some(echo) = &outcome.echo {
            self.push_log(Severity::Info, echo.as_str());
        }
        self.push_advisories(&outcome.advisories);
    }
}

// ── the commit flow ─────────────────────────────────────────────────

/// One engine call of the commit flow.
#[derive(Debug, Clone, PartialEq, Eq)]
pub enum CommitCall {
    /// Derive the changelist's commit payload.
    Payload { changelist: Option<String> },
    /// Stage the changelist's unstaged hunks.
    StageAll { changelist: Option<String> },
    /// Index := worktree over the changelist's `◑` hunks.
    Align { changelist: Option<String> },
    /// Commit the confirmed draft against its inspected payload.
    Commit(CommitDraft),
}

pub ghost enum CommitCallView {
    Payload { changelist: Option<Seq<char>> },
    StageAll { changelist: Option<Seq<char>> },
    Align { changelist: Option<Seq<char>> },
    Commit(CommitDraftView),
}

impl View for CommitCall {
    type V = CommitCallView;

    open spec fn view(&self) -> CommitCallView {
        match self {
            CommitCall::Payload { changelist } => CommitCallView::Payload { changelist: opt_view(changelist) },
            CommitCall::StageAll { changelist } => CommitCallView::StageAll { changelist: opt_view(changelist) },
            CommitCall::Align { changelist } => CommitCallView::Align { changelist: opt_view(changelist) },
            CommitCall::Commit(d) => CommitCallView::Commit(d@),
        }
    }
}

pub open spec fn opt_commit_call_view(c: Option<CommitCall>) -> Option<CommitCallView> {
    match c {
        Some(call) => Some(call@),
        None => None,
    }
}

/// How the engine answered a commit-flow call.
#[derive(Debug, Clone, PartialEq, Eq)]
pub enum CommitReply {
    /// A stage-all or an align succeeded.
    Done(OpOutcome),
    /// The derived payload, and whether the engine found it empty.
    Payload { payload: CommitPayload, empty: bool },
    /// The commit landed: its short id and the command line that ran.
    Committed { short_id: String, command: String },
    /// The payload changed since confirm; nothing was committed.
    Drifted(CommitPayload),
    /// A hook refused the commit: the command line that ran and the
    /// hook's stderr.
    Rejected { command: String, stderr: String },
    /// Any other failure; the error's text.
    Failed(String),
}

pub ghost enum CommitReplyView {
    Done(OpOutcomeView),
    Payload { payload: CommitPayload, empty: bool },
    Committed { short_id: Seq<char>, command: Seq<char> },
    Drifted(CommitPayload),
    Rejected { command: Seq<char>, stderr: Seq<char> },
    Failed(Seq<char>),
}

impl View for CommitReply {
    type V = CommitReplyView;

    open spec fn view(&self) -> CommitReplyView {
        match self {
            CommitReply::Done(o) => CommitReplyView::Done(o@),
            CommitReply::Payload { payload, empty } => CommitReplyView::Payload { payload: *payload, empty: *empty },
            CommitReply::Committed { short_id, command } => CommitReplyView::Committed {
                short_id: short_id@,
                command: command@,
            },
            CommitReply::Drifted(p) => CommitReplyView::Drifted(*p),
            CommitReply::Rejected { command, stderr } => CommitReplyView::Rejected {
                command: command@,
                stderr: stderr@,
            },
            CommitReply::Failed(text) => CommitReplyView::Failed(text@),
        }
    }
}

/// A commit-flow call the engine has answered.
#[derive(Debug, Clone, PartialEq, Eq)]
pub struct CommitAnswer {
    pub call: CommitCall,
    pub reply: CommitReply,
}

pub ghost struct CommitAnswerView {
    pub call: CommitCallView,
    pub reply: CommitReplyView,
}

impl View for CommitAnswer {
    type V = CommitAnswerView;

    open spec fn view(&self) -> CommitAnswerView {
        CommitAnswerView { call: self.call@, reply: self.reply@ }
    }
}

pub open spec fn opt_commit_answer_view(a: Option<CommitAnswer>) -> Option<CommitAnswerView> {
    match a {
        Some(answer) => Some(answer@),
        None => None,
    }
}

/// The changelist a commit step works on.
pub open spec fn step_changelist(step: CommitStepView) -> Option<Seq<char>> {
    match step {
        CommitStepView::Open { changelist } => changelist,
        CommitStepView::StageAllAndOpen { changelist } => changelist,
        CommitStepView::Commit(d) => d.changelist,
        CommitStepView::AlignAndCommit(d) => d.changelist,
    }
}

/// The call a commit step starts with.
pub open spec fn first_commit_call(step: CommitStepView) -> CommitCallView {
    match step {
        CommitStepView::Open { changelist } => CommitCallView::Payload { changelist },
        CommitStepView::StageAllAndOpen { changelist } => CommitCallView::StageAll { changelist },
        CommitStepView::Commit(d) => CommitCallView::Commit(d),
        CommitStepView::AlignAndCommit(d) => CommitCallView::Align { changelist: d.changelist },
    }
}

/// The dialog a failure restores: the draft that was committed, else
/// the step's own; opening a dialog restores none.
pub open spec fn restored_draft(step: CommitStepView, call: CommitCallView) -> Option<CommitDraftView> {
    match call {
        CommitCallView::Commit(d) => Some(d),
        _ => match step {
            CommitStepView::Commit(d) => Some(d),
            CommitStepView::AlignAndCommit(d) => Some(d),
            _ => None,
        },
    }
}

/// The error modal raised over `a`, its first line logged at `✗`.
pub open spec fn error_shown(a: AppView, title: Seq<char>, detail: Seq<char>) -> AppView {
    AppView {
        log: logged(a.log, Severity::Error, error_log_text(title, detail)),
        error_modal: Some(ErrorModalView { title, detail, scroll: 0 }),
        ..a
    }
}

/// A failed commit-flow call: the modal, over the restored dialog when
/// there is one.
pub open spec fn commit_failed(a: AppView, restore: Option<CommitDraftView>, detail: Seq<char>) -> AppView {
    let shown = error_shown(a, "Commit failed"@, detail);
    match restore {
        Some(d) => AppView { overlay: Some(OverlayView::Commit(d)), ..shown },
        None => shown,
    }
}

pub open spec fn committed_line(short_id: Seq<char>, message: Seq<char>) -> Seq<char> {
    "committed "@ + short_id + " \""@ + message + "\""@
}

/// One step of the commit flow after `last`, as the App's new state and
/// the call that follows. Opening derives the payload; an empty one
/// turns into the stage-all offer, any other opens the dialog. Staging
/// all or aligning logs its outcome and re-derives the payload. After
/// an align, `◑` hunks surviving it re-warn; otherwise the aligned
/// draft is committed. A commit logs the command that ran and the new
/// commit, and closes the flow; a drifted payload loops back to
/// re-confirm; a hook rejection logs the command (git did run) before
/// the modal; every failure restores the dialog there was.
pub open spec fn commit_next_of(a: AppView, step: CommitStepView, last: Option<CommitAnswerView>) -> (AppView, Option<CommitCallView>) {
    match last {
        None => (a, Some(first_commit_call(step))),
        Some(answer) => {
            let restore = restored_draft(step, answer.call);
            match answer.reply {
                CommitReplyView::Done(outcome) => (
                    AppView { log: outcome_logged(a.log, outcome), ..a },
                    Some(CommitCallView::Payload { changelist: step_changelist(step) }),
                ),
                CommitReplyView::Payload { payload, empty } => match step {
                    CommitStepView::AlignAndCommit(d) => {
                        let aligned = CommitDraftView { payload, ..d };
                        if stale_sum(payload.files@) > 0 {
                            (AppView { overlay: Some(OverlayView::CommitStale(aligned)), ..a }, None)
                        } else {
                            (a, Some(CommitCallView::Commit(aligned)))
                        }
                    },
                    _ => if empty {
                        (stage_all_offered(a, step_changelist(step)), None)
                    } else {
                        (AppView {
                            overlay: Some(OverlayView::Commit(fresh_draft(step_changelist(step), payload))),
                            ..a
                        }, None)
                    },
                },
                CommitReplyView::Committed { short_id, command } => {
                    let message = match restore {
                        Some(d) => d.message,
                        None => Seq::empty(),
                    };
                    (AppView {
                        log: logged(logged(a.log, Severity::Info, command), Severity::Info, committed_line(short_id, message)),
                        overlay: None,
                        ..a
                    }, None)
                },
                CommitReplyView::Drifted(fresh) => {
                    let noted = AppView {
                        log: logged(a.log, Severity::Info, "nothing committed — payload changed since confirm"@),
                        ..a
                    };
                    match restore {
                        Some(d) => (AppView {
                            overlay: Some(OverlayView::CommitDrift {
                                draft: CommitDraftView { payload: fresh, ..d },
                                previous: d.payload,
                            }),
                            ..noted
                        }, None),
                        None => (noted, None),
                    }
                },
                CommitReplyView::Rejected { command, stderr } => (
                    commit_failed(AppView { log: logged(a.log, Severity::Info, command), ..a }, restore, stderr),
                    None,
                ),
                CommitReplyView::Failed(detail) => (commit_failed(a, restore, detail), None),
            }
        },
    }
}

fn first_commit_call_of(step: CommitStep) -> (r: CommitCall)
    ensures
        r@ == first_commit_call(step@),
{
    match step {
        CommitStep::Open { changelist } => CommitCall::Payload { changelist },
        CommitStep::StageAllAndOpen { changelist } => CommitCall::StageAll { changelist },
        CommitStep::Commit(d) => CommitCall::Commit(d),
        CommitStep::AlignAndCommit(d) => CommitCall::Align { changelist: d.changelist },
    }
}

fn step_changelist_of(step: CommitStep) -> (r: Option<String>)
    ensures
        opt_view(&r) == step_changelist(step@),
{
    match step {
        CommitStep::Open { changelist } => changelist,
        CommitStep::StageAllAndOpen { changelist } => changelist,
        CommitStep::Commit(d) => d.changelist,
        CommitStep::AlignAndCommit(d) => d.changelist,
    }
}

fn restored_draft_of(step: CommitStep, call: CommitCall) -> (r: Option<CommitDraft>)
    ensures
        (match r {
            Some(d) => Some(d@),
            None => None,
        }) == restored_draft(step@, call@),
{
    match call {
        CommitCall::Commit(d) => Some(d),
        _ => match step {
            CommitStep::Commit(d) => Some(d),
            CommitStep::AlignAndCommit(d) => Some(d),
            _ => None,
        },
    }
}

impl App {
    /// A failed commit-flow call: the modal, over the restored dialog.
    fn commit_failed(&mut self, restore: Option<CommitDraft>, detail: &str)
        ensures
            final(self)@ == commit_failed(old(self)@, match restore {
                Some(d) => Some(d@),
                None => None,
            }, detail@),
    {
        self.show_error("Commit failed", detail);
        if let Some(d) = restore {
            self.restore_commit_dialog(d);
        }
    }

    /// The next step of the commit flow, given the answer to its previous
    /// call (`None` before the first): the App takes in what the answer
    /// means, and the call that follows comes back (`None` ends the
    /// flow).
    pub fn commit_next(&mut self, step: CommitStep, last: Option<CommitAnswer>) -> (r: Option<CommitCall>)
        ensures
            (final(self)@, opt_commit_call_view(r)) == commit_next_of(old(self)@, step@, opt_commit_answer_view(last)),
    {
        match last {
            None => Some(first_commit_call_of(step)),
            Some(answer) => {
                let ghost step_view = step@;
                let CommitAnswer { call, reply } = answer;
                match reply {
                    CommitReply::Done(outcome) => {
                        self.log_outcome(&outcome);
                        Some(CommitCall::Payload { changelist: step_changelist_of(step) })
                    },
                    CommitReply::Payload { payload, empty } => match step {
                        CommitStep::AlignAndCommit(d) => {
                            let mut aligned = d;
                            aligned.payload = payload;
                            if aligned.payload.stale_hunks() > 0 {
                                self.reconfirm_stale(aligned);
                                None
                            } else {
                                Some(CommitCall::Commit(aligned))
                            }
                        },
                        other => {
                            let changelist = step_changelist_of(other);
                            if empty {
                                self.offer_stage_all(changelist);
                            } else {
                                self.open_commit_dialog(changelist, payload);
                            }
                            None
                        },
                    },
                    CommitReply::Committed { short_id, command } => {
                        let restore = restored_draft_of(step, call);
                        let mut line = owned("committed ");
                        line.append(short_id.as_str());
                        line.append(" \"");
                        if let Some(d) = &restore {
                            line.append(d.message.as_str());
                        }
                        line.append("\"");
                        self.push_log(Severity::Info, command.as_str());
                        self.push_log(Severity::Info, line.as_str());
                        self.commit_succeeded();
                        None
                    },
                    CommitReply::Drifted(fresh) => {
                        let restore = restored_draft_of(step, call);
                        self.push_log(Severity::Info, "nothing committed — payload changed since confirm");
                        if let Some(d) = restore {
                            self.commit_drifted(d, fresh);
                        }
                        None
                    },
                    CommitReply::Rejected { command, stderr } => {
                        let restore = restored_draft_of(step, call);
                        self.push_log(Severity::Info, command.as_str());
                        self.commit_failed(restore, stderr.as_str());
                        None
                    },
                    CommitReply::Failed(detail) => {
                        let restore = restored_draft_of(step, call);
                        self.commit_failed(restore, detail.as_str());
                        None
                    },
                }
            },
        }
    }
}

} // verus!
