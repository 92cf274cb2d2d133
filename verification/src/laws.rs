//! What holds of the App across calls and across every state: the keys'
//! precedence and the binding core's agreement with the keybar, the
//! Log's capped tail, the condition events' idempotence, selection
//! survival across a snapshot swap, and the movement magnitudes.

use vstd::prelude::*;
use crate::app::{ActionView, AppView, CommitStepView};
use crate::dispatch::{disabled_reason_of, hint_arm, hint_live, key_hints_of, live_hints, tail_arm};
use crate::input::{keyed, overlay_keyed};
use crate::keymap::{
    bar_text, binding_answers, binding_help, group_spelling, help_groups, help_label_text, help_rows_text,
    key_positions, least_number_above, panels_help_text, position_spellings, greatest_number, key_spelling, least_number, panels_bar_text, Register, binding_capability, binding_keys, binding_order, control_held,
    ctrl_of, first_binding, key_matches, resolve_key, BindingId, Key, KeyCode, KeyEvent, KeyModifiers,
};
use crate::model::Snapshot;
use crate::panel::{panel_for, panel_number, Panel};
use crate::text::joined;
use crate::selection::{
    announced, applied, clamped, first_commit, first_entry_at, first_scope_index, hunk_identity,
    lemma_nearest_in_range, moved, motion_amount, nearest_same_hunk, stepped, with_commit, with_file,
    with_hunk, with_rows, Motion,
};
use crate::view::{changelist_rows_for, entries_of, files_rows_for, first_index_of, lemma_first_index_of, ChangelistRowView, FileEntryView, ScopeView};
use crate::model::{ChangeKind, ChangedFile, CommitInfo, FileStage, Hunk, HunkStage, IdentityView};
use crate::app::OpView;
use crate::dispatch::{changelist_toggle, owned_all_staged, owns_any};
use crate::text::{count_noun_text, decimal, digit_char};
use crate::view::{file_row, group_owner, owned_count, owned_with, scope_owner, FilesRowView, GroupView};
use crate::view_model::{diff_title_of, human_size_text, pow1024, rounded_tenths, size_steps, size_unit};
use crate::selection::commit_id;
use crate::app::page_size;
use crate::status::{logged, refresh_failed, watcher_degraded_state, watcher_recovered_state, LogEntryView, Severity, LOG_CAP};
use crate::view_model::{entries_of_app, scope_of, selected_file_of};

verus! {

// ── panels ──────────────────────────────────────────────────────────

/// A digit key focuses exactly the panel whose border shows that digit:
/// the keybinding and the border prefix cannot disagree.
pub proof fn law_digit_focuses_its_panel(p: Panel)
    ensures
        panel_for(panel_number(p)) == Some(p),
{
}

// ── the Log ─────────────────────────────────────────────────────────

/// Appending to the Log keeps a capped tail: at most [`LOG_CAP`]
/// entries, the new one last, the rest the newest of what was there, in
/// order.
pub proof fn law_log_keeps_a_capped_tail(log: Seq<LogEntryView>, severity: Severity, text: Seq<char>)
    ensures
        ({
            let after = logged(log, severity, text);
            let grown = log.push(LogEntryView { severity, text });
            &&& after.len() == if grown.len() > LOG_CAP { LOG_CAP as int } else { grown.len() as int }
            &&& after.last() == LogEntryView { severity, text }
            &&& after =~= grown.skip(grown.len() - after.len())
        }),
{
    let grown = log.push(LogEntryView { severity, text });
    if grown.len() <= LOG_CAP {
        assert(grown.skip(0) =~= grown);
    }
}

/// A failure the Log already carries repeats silently: failing twice
/// with the same error is failing once.
pub proof fn law_a_repeated_refresh_failure_is_silent(a: AppView, error: Seq<char>)
    ensures
        refresh_failed(refresh_failed(a, error), error) == refresh_failed(a, error),
{
}

/// The watcher conditions are events, not toggles: reporting a
/// degradation or a recovery twice is reporting it once.
pub proof fn law_watcher_reports_are_idempotent(a: AppView)
    ensures
        watcher_degraded_state(watcher_degraded_state(a)) == watcher_degraded_state(a),
        watcher_recovered_state(watcher_recovered_state(a)) == watcher_recovered_state(a),
{
}

// ── keys ────────────────────────────────────────────────────────────

/// `ctrl+c` quits from every state, above every modal.
pub proof fn law_ctrl_c_always_quits(a: AppView, letter: char, modifiers: KeyModifiers)
    requires
        control_held(modifiers),
        letter == 'c' || letter == 'C',
    ensures
        keyed(a, KeyEvent { code: KeyCode::Char(letter), modifiers }).1 == Some(ActionView::Quit),
{
}

/// The error modal sits above everything: while it is open no key but
/// `ctrl+c` acts, and a key changes nothing but the modal itself.
pub proof fn law_the_error_modal_swallows_keys(a: AppView, key: KeyEvent)
    requires
        a.error_modal is Some,
        !(ctrl_of(key) && (key.code == KeyCode::Char('c') || key.code == KeyCode::Char('C'))),
    ensures
        keyed(a, key).1 is None,
        keyed(a, key).0 == (AppView { error_modal: keyed(a, key).0.error_modal, ..a }),
{
}

/// An open overlay swallows the global keys: whatever is pressed, it
/// never quits or refreshes (`q` types; only `ctrl+c` quits).
pub proof fn law_an_overlay_swallows_global_keys(a: AppView, key: KeyEvent)
    requires
        a.error_modal is None,
        !a.help_open,
        a.overlay is Some,
    ensures
        keyed(a, key).1 != Some(ActionView::Quit)
            || (ctrl_of(key) && (key.code == KeyCode::Char('c') || key.code == KeyCode::Char('C'))),
        keyed(a, key).1 != Some(ActionView::Refresh),
{
    let r = overlay_keyed(a, key);
    assert(r.1 != Some(ActionView::Quit) && r.1 != Some(ActionView::Refresh));
}

/// A binding that is disabled only explains itself: pressing it acts
/// on nothing, and logs its reason when the reason is worth logging.
pub proof fn law_a_disabled_binding_only_explains(a: AppView, key: KeyEvent, id: BindingId, reason: Seq<char>)
    requires
        a.error_modal is None,
        !a.help_open,
        a.overlay is None,
        !(ctrl_of(key) && (key.code == KeyCode::Char('c') || key.code == KeyCode::Char('C'))),
        resolve_key(key) == Some(id),
        disabled_reason_of(a, binding_capability(id)) == Some(reason),
    ensures
        keyed(a, key).1 is None,
        reason.len() > 0 ==> keyed(a, key).0 == (AppView { log: logged(a.log, Severity::Info, reason), ..a }),
        reason.len() == 0 ==> keyed(a, key).0 == a,
{
}

/// Commit waits for a git operation to conclude: while one is in
/// progress, no key opens the commit flow from the panels.
pub proof fn law_commit_waits_for_an_operation(a: AppView, key: KeyEvent)
    requires
        a.error_modal is None,
        !a.help_open,
        a.overlay is None,
        a.snapshot matches Some(s) && s.operation is Some,
    ensures
        !(keyed(a, key).1 matches Some(ActionView::Commit(_))),
{
    match resolve_key(key) {
        Some(id) => {
            if id == BindingId::Commit {
                assert(disabled_reason_of(a, binding_capability(id)) is Some);
            }
        },
        None => {},
    }
}

/// Dispatch is unambiguous: a key event one of a binding's keys matches
/// resolves to that binding — no two bindings answer to the same press,
/// so a hint spelled from a binding's keys names what the key does.
#[verifier::rlimit(80)]
pub proof fn law_every_key_names_one_binding(id: BindingId, e: KeyEvent)
    requires
        binding_answers(id, e),
    ensures
        resolve_key(e) == Some(id),
{
    reveal_with_fuel(first_binding, 22);
    reveal_with_fuel(crate::keymap::any_key_matches, 3);
    crate::keymap::lemma_any_key_matches(binding_keys(id), e);
}

proof fn lemma_matching_ignores_shift(k: Key, e1: KeyEvent, e2: KeyEvent)
    requires
        e1.code == e2.code,
        control_held(e1.modifiers) == control_held(e2.modifiers),
    ensures
        key_matches(k, e1) == key_matches(k, e2),
{
}

proof fn lemma_answers_ignore_shift(id: BindingId, e1: KeyEvent, e2: KeyEvent)
    requires
        e1.code == e2.code,
        control_held(e1.modifiers) == control_held(e2.modifiers),
    ensures
        binding_answers(id, e1) == binding_answers(id, e2),
{
    lemma_keys_ignore_shift(binding_keys(id), e1, e2);
}

proof fn lemma_keys_ignore_shift(keys: Seq<Key>, e1: KeyEvent, e2: KeyEvent)
    requires
        e1.code == e2.code,
        control_held(e1.modifiers) == control_held(e2.modifiers),
    ensures
        crate::keymap::any_key_matches(keys, e1) == crate::keymap::any_key_matches(keys, e2),
    decreases keys.len(),
{
    if keys.len() > 0 {
        lemma_matching_ignores_shift(keys[0], e1, e2);
        lemma_keys_ignore_shift(keys.drop_first(), e1, e2);
    }
}

proof fn lemma_first_binding_ignores_shift(ids: Seq<BindingId>, e1: KeyEvent, e2: KeyEvent)
    requires
        e1.code == e2.code,
        control_held(e1.modifiers) == control_held(e2.modifiers),
    ensures
        first_binding(ids, e1) == first_binding(ids, e2),
    decreases ids.len(),
{
    if ids.len() > 0 {
        lemma_answers_ignore_shift(ids[0], e1, e2);
        lemma_first_binding_ignores_shift(ids.drop_first(), e1, e2);
    }
}

/// No binding inspects SHIFT: a key resolves to the same binding, and a
/// press does exactly the same thing, whether or not SHIFT was reported
/// with it — only CONTROL is ever consulted.
pub proof fn law_shift_is_never_consulted(a: AppView, code: KeyCode, m1: KeyModifiers, m2: KeyModifiers)
    requires
        control_held(m1) == control_held(m2),
    ensures
        resolve_key(KeyEvent { code, modifiers: m1 }) == resolve_key(KeyEvent { code, modifiers: m2 }),
        keyed(a, KeyEvent { code, modifiers: m1 }) == keyed(a, KeyEvent { code, modifiers: m2 }),
{
    let e1 = KeyEvent { code, modifiers: m1 };
    let e2 = KeyEvent { code, modifiers: m2 };
    lemma_first_binding_ignores_shift(binding_order(), e1, e2);
}

// ── the keybar ──────────────────────────────────────────────────────

proof fn lemma_live_hints_are_live(a: AppView, arm: Seq<(Seq<BindingId>, Seq<char>)>, k: int)
    requires
        0 <= k < live_hints(a, arm).len(),
    ensures
        exists|j: int| 0 <= j < arm.len() && hint_live(a, #[trigger] arm[j].0)
            && live_hints(a, arm)[k] == (bar_text(arm[j].0), arm[j].1),
    decreases arm.len(),
{
    let rest = live_hints(a, arm.drop_last());
    if k < rest.len() {
        lemma_live_hints_are_live(a, arm.drop_last(), k);
        let j = choose|j: int| 0 <= j < arm.drop_last().len() && hint_live(a, #[trigger] arm.drop_last()[j].0)
            && rest[k] == (bar_text(arm.drop_last()[j].0), arm.drop_last()[j].1);
        assert(arm[j] == arm.drop_last()[j]);
    } else {
        assert(hint_live(a, arm[arm.len() - 1].0));
    }
}

proof fn lemma_live_arm_entries_are_shown(a: AppView, arm: Seq<(Seq<BindingId>, Seq<char>)>, j: int)
    requires
        0 <= j < arm.len(),
        hint_live(a, arm[j].0),
    ensures
        live_hints(a, arm).contains((bar_text(arm[j].0), arm[j].1)),
    decreases arm.len(),
{
    if j < arm.len() - 1 {
        assert(arm.drop_last()[j] == arm[j]);
        lemma_live_arm_entries_are_shown(a, arm.drop_last(), j);
        let rest = live_hints(a, arm.drop_last());
        let i = choose|i: int| 0 <= i < rest.len() && rest[i] == (bar_text(arm[j].0), arm[j].1);
        if hint_live(a, arm.last().0) {
            assert(live_hints(a, arm)[i] == rest[i]);
        }
    } else {
        let after = live_hints(a, arm);
        assert(after[after.len() - 1] == (bar_text(arm[j].0), arm[j].1));
    }
}

/// The keybar and dispatch tell one story: every hint the bar shows is
/// one whose bindings are all live, and every hint of the focused
/// context whose bindings are all live is shown.
pub proof fn law_the_bar_shows_exactly_the_live_hints(a: AppView)
    ensures
        forall|k: int| 0 <= k < key_hints_of(a).len() ==> exists|j: int|
            0 <= j < hint_arm(a).len() && hint_live(a, #[trigger] hint_arm(a)[j].0)
                && #[trigger] key_hints_of(a)[k] == (bar_text(hint_arm(a)[j].0), hint_arm(a)[j].1),
        forall|j: int| 0 <= j < hint_arm(a).len() && hint_live(a, #[trigger] hint_arm(a)[j].0) ==>
            key_hints_of(a).contains((bar_text(hint_arm(a)[j].0), hint_arm(a)[j].1)),
{
    assert forall|k: int| 0 <= k < key_hints_of(a).len() implies exists|j: int|
        0 <= j < hint_arm(a).len() && hint_live(a, #[trigger] hint_arm(a)[j].0)
            && #[trigger] key_hints_of(a)[k] == (bar_text(hint_arm(a)[j].0), hint_arm(a)[j].1) by {
        lemma_live_hints_are_live(a, hint_arm(a), k);
    }
    assert forall|j: int| 0 <= j < hint_arm(a).len() && hint_live(a, #[trigger] hint_arm(a)[j].0) implies
        key_hints_of(a).contains((bar_text(hint_arm(a)[j].0), hint_arm(a)[j].1)) by {
        lemma_live_arm_entries_are_shown(a, hint_arm(a), j);
    }
}

/// The keys a page or jump binding answers to; the bar advertises none
/// of them.
pub open spec fn page_mark(c: char) -> bool {
    c == '.' || c == ',' || c == '<' || c == '>'
}

/// The movement bindings: the help overlay lists them, the bar never.
pub open spec fn movement_binding(id: BindingId) -> bool {
    id == BindingId::MoveDown || id == BindingId::MoveUp || id == BindingId::PageDown
        || id == BindingId::PageUp || id == BindingId::JumpBottom || id == BindingId::JumpTop
}

proof fn lemma_joined_avoids(parts: Seq<Seq<char>>, sep: Seq<char>, c: char)
    requires
        forall|i: int| 0 <= i < parts.len() ==> !(#[trigger] parts[i]).contains(c),
        !sep.contains(c),
    ensures
        !joined(parts, sep).contains(c),
    decreases parts.len(),
{
    if parts.len() > 1 {
        let front = joined(parts.drop_last(), sep);
        assert forall|i: int| 0 <= i < parts.drop_last().len() implies !(#[trigger] parts.drop_last()[i]).contains(c) by {
            assert(parts.drop_last()[i] == parts[i]);
        }
        lemma_joined_avoids(parts.drop_last(), sep, c);
        let last = parts[parts.len() - 1];
        let whole = front + sep + last;
        assert(joined(parts, sep) == whole);
        assert forall|k: int| 0 <= k < whole.len() implies whole[k] != c by {
            if k < front.len() {
                assert(whole[k] == front[k]);
            } else if k < front.len() + sep.len() {
                assert(whole[k] == sep[k - front.len()]);
            } else {
                assert(whole[k] == last[k - front.len() - sep.len()]);
            }
        }
    }
}

/// What the bar spells of one binding: never a page mark unless it is a
/// movement binding, never empty, and `c` only for the commit binding.
proof fn lemma_bar_spelling_of(id: BindingId)
    ensures
        key_spelling(binding_keys(id)[0], Register::Bar).len() >= 1,
        !movement_binding(id) ==> forall|c: char| page_mark(c) ==>
            !key_spelling(binding_keys(id)[0], Register::Bar).contains(c),
        key_spelling(binding_keys(id)[0], Register::Bar) == seq!['c'] ==> id == BindingId::Commit,
{
    reveal_strlit("space");
    reveal_strlit("ctrl+");
    reveal_strlit("enter");
    reveal_strlit("esc");
    reveal_with_fuel(least_number, 6);
    reveal_with_fuel(greatest_number, 6);
    let t = key_spelling(binding_keys(id)[0], Register::Bar);
    assert(panels_bar_text() == seq!['0', '-', '5']);
    if t == seq!['c'] {
        assert(t.len() == 1 && t[0] == 'c');
        match binding_keys(id)[0] {
            Key::Char(x) => assert(x == 'c'),
            _ => {},
        }
    }
    assert forall|c: char| !movement_binding(id) && page_mark(c) implies !t.contains(c) by {
        assert forall|k: int| 0 <= k < t.len() implies t[k] != c by {}
    }
}

/// The bar's spelling of a hint whose bindings are none of the movement
/// ones names no page mark; of one that is not exactly the commit
/// binding, it is not `c`.
proof fn lemma_bar_text_of(ids: Seq<BindingId>)
    requires
        ids.len() >= 1,
    ensures
        (forall|i: int| 0 <= i < ids.len() ==> !movement_binding(#[trigger] ids[i])) ==>
            forall|c: char| page_mark(c) ==> !bar_text(ids).contains(c),
        bar_text(ids) == seq!['c'] ==> ids == seq![BindingId::Commit],
{
    let parts = ids.map_values(|id: BindingId| key_spelling(binding_keys(id)[0], Register::Bar));
    assert forall|i: int| 0 <= i < ids.len() implies #[trigger] parts[i] == key_spelling(binding_keys(ids[i])[0], Register::Bar) by {}
    if forall|i: int| 0 <= i < ids.len() ==> !movement_binding(#[trigger] ids[i]) {
        reveal_strlit("/");
        assert forall|c: char| page_mark(c) implies !bar_text(ids).contains(c) by {
            assert forall|i: int| 0 <= i < parts.len() implies !(#[trigger] parts[i]).contains(c) by {
                lemma_bar_spelling_of(ids[i]);
            }
            assert forall|k: int| 0 <= k < "/"@.len() implies "/"@[k] != c by {}
            lemma_joined_avoids(parts, "/"@, c);
        }
    }
    if bar_text(ids) == seq!['c'] {
        lemma_bar_spelling_of(ids[ids.len() - 1]);
        if ids.len() == 1 {
            lemma_bar_spelling_of(ids[0]);
            assert(ids =~= seq![BindingId::Commit]);
        } else {
            reveal_strlit("/");
            assert(joined(parts, "/"@).len() >= 2);
        }
    }
}

/// The keybar never advertises a page or jump key, whatever the state:
/// `.` `,` `<` `>` stay in the help overlay alone. And while a git
/// operation is in progress no hint spells `c`, since commit is then
/// disabled and its hint dropped.
pub proof fn law_the_bar_hides_paging_and_a_blocked_commit(a: AppView)
    ensures
        forall|k: int| 0 <= k < key_hints_of(a).len() ==> {
            let keys = (#[trigger] key_hints_of(a)[k]).0;
            !keys.contains('.') && !keys.contains(',') && !keys.contains('<') && !keys.contains('>')
        },
        (a.snapshot matches Some(s) && s.operation is Some) ==>
            forall|k: int| 0 <= k < key_hints_of(a).len() ==> (#[trigger] key_hints_of(a)[k]).0 != seq!['c'],
{
    let arm = hint_arm(a);
    assert forall|j: int| 0 <= j < arm.len() implies (#[trigger] arm[j]).0.len() >= 1
        && forall|i: int| 0 <= i < arm[j].0.len() ==> !movement_binding(#[trigger] arm[j].0[i]) by {
        assert(tail_arm().len() == 4);
    }
    assert forall|k: int| 0 <= k < key_hints_of(a).len() implies {
        let keys = (#[trigger] key_hints_of(a)[k]).0;
        !keys.contains('.') && !keys.contains(',') && !keys.contains('<') && !keys.contains('>')
    } by {
        lemma_live_hints_are_live(a, arm, k);
        let j = choose|j: int| 0 <= j < arm.len() && hint_live(a, #[trigger] arm[j].0)
            && live_hints(a, arm)[k] == (bar_text(arm[j].0), arm[j].1);
        lemma_bar_text_of(arm[j].0);
        assert(page_mark('.') && page_mark(',') && page_mark('<') && page_mark('>'));
    }
    if a.snapshot matches Some(s) && s.operation is Some {
        assert(disabled_reason_of(a, binding_capability(BindingId::Commit)) is Some);
        assert forall|k: int| 0 <= k < key_hints_of(a).len() implies (#[trigger] key_hints_of(a)[k]).0 != seq!['c'] by {
            lemma_live_hints_are_live(a, arm, k);
            let j = choose|j: int| 0 <= j < arm.len() && hint_live(a, #[trigger] arm[j].0)
                && live_hints(a, arm)[k] == (bar_text(arm[j].0), arm[j].1);
            lemma_bar_text_of(arm[j].0);
            if bar_text(arm[j].0) == seq!['c'] {
                assert(arm[j].0[0] == BindingId::Commit);
            }
        }
    }
}

// ── the help overlay ────────────────────────────────────────────────

/// The help overlay's groups: one per run of consecutive records that
/// share a help label.
pub open spec fn help_group_table() -> Seq<Seq<BindingId>> {
    seq![seq![BindingId::FocusPanel], seq![BindingId::MoveDown, BindingId::MoveUp], seq![BindingId::PageDown, BindingId::PageUp], seq![BindingId::JumpBottom, BindingId::JumpTop], seq![BindingId::DrillIn], seq![BindingId::AssignSelected], seq![BindingId::AssignUnassigned], seq![BindingId::AssignAll], seq![BindingId::StageToggle], seq![BindingId::Commit], seq![BindingId::NewChangelist], seq![BindingId::DeleteChangelist], seq![BindingId::RenameChangelist], seq![BindingId::SwitchActive], seq![BindingId::Back], seq![BindingId::Refresh], seq![BindingId::Help], seq![BindingId::Quit]]
}

proof fn lemma_help_groups_are_the_table()
    ensures
        help_groups(binding_order()) =~~= help_group_table(),
{
    reveal_strlit("move within panel / hunks / scroll diff");
    reveal_strlit("page within panel / hunks / scroll diff");
    reveal_strlit("jump to either end of panel / hunks / diff");
    reveal_strlit("assign hunk (files: the row's group)");
    reveal_strlit("assign the file's unassigned hunks");
    reveal_strlit("assign every hunk of the file");
    reveal_strlit("toggle stage changelist/file row/hunk");
    reveal_strlit("commit changelist");
    reveal_strlit("new changelist (and switch to it)");
    reveal_strlit("delete changelist");
    reveal_strlit("rename changelist");
    reveal_strlit("switch active changelist (or unassigned)");
    reveal_strlit("refresh now");
    reveal_strlit("toggle keybindings");
    reveal_strlit("quit");
    let o = binding_order();
    assert(help_groups(o.take(0)) =~~= Seq::<Seq<BindingId>>::empty());
    assert(binding_help(BindingId::MoveUp) != binding_help(BindingId::PageDown)) by {
        assert("move within panel / hunks / scroll diff"@[0] != "page within panel / hunks / scroll diff"@[0]);
    }
    assert(binding_help(BindingId::PageUp) != binding_help(BindingId::JumpBottom)) by {
        assert("page within panel / hunks / scroll diff"@[0] != "jump to either end of panel / hunks / diff"@[0]);
    }
    assert(binding_help(BindingId::AssignSelected) != binding_help(BindingId::AssignUnassigned)) by {
        assert("assign hunk (files: the row's group)"@[7] != "assign the file's unassigned hunks"@[7]);
    }
    assert(binding_help(BindingId::AssignUnassigned) != binding_help(BindingId::AssignAll)) by {
        assert("assign the file's unassigned hunks"@[7] != "assign every hunk of the file"@[7]);
    }
    assert(binding_help(BindingId::AssignAll) != binding_help(BindingId::StageToggle)) by {
        assert("assign every hunk of the file"@[0] != "toggle stage changelist/file row/hunk"@[0]);
    }
    assert(binding_help(BindingId::StageToggle) != binding_help(BindingId::Commit)) by {
        assert("toggle stage changelist/file row/hunk"@[0] != "commit changelist"@[0]);
    }
    assert(binding_help(BindingId::Commit) != binding_help(BindingId::NewChangelist)) by {
        assert("commit changelist"@[0] != "new changelist (and switch to it)"@[0]);
    }
    assert(binding_help(BindingId::NewChangelist) != binding_help(BindingId::DeleteChangelist)) by {
        assert("new changelist (and switch to it)"@[0] != "delete changelist"@[0]);
    }
    assert(binding_help(BindingId::DeleteChangelist) != binding_help(BindingId::RenameChangelist)) by {
        assert("delete changelist"@[0] != "rename changelist"@[0]);
    }
    assert(binding_help(BindingId::RenameChangelist) != binding_help(BindingId::SwitchActive)) by {
        assert("rename changelist"@[0] != "switch active changelist (or unassigned)"@[0]);
    }
    assert(binding_help(BindingId::Refresh) != binding_help(BindingId::Help)) by {
        assert("refresh now"@[0] != "toggle keybindings"@[0]);
    }
    assert(binding_help(BindingId::Help) != binding_help(BindingId::Quit)) by {
        assert("toggle keybindings"@[0] != "quit"@[0]);
    }
    assert(o.take(1).drop_last() =~= o.take(0) && o.take(1).last() == o[0]);
    assert(help_groups(o.take(1)) =~~= seq![seq![BindingId::FocusPanel]]);
    assert(o.take(2).drop_last() =~= o.take(1) && o.take(2).last() == o[1]);
    assert(help_groups(o.take(2)) =~~= seq![seq![BindingId::FocusPanel], seq![BindingId::MoveDown]]);
    assert(o.take(3).drop_last() =~= o.take(2) && o.take(3).last() == o[2]);
    assert(help_groups(o.take(3)) =~~= seq![seq![BindingId::FocusPanel], seq![BindingId::MoveDown, BindingId::MoveUp]]);
    assert(o.take(4).drop_last() =~= o.take(3) && o.take(4).last() == o[3]);
    assert(help_groups(o.take(4)) =~~= seq![seq![BindingId::FocusPanel], seq![BindingId::MoveDown, BindingId::MoveUp], seq![BindingId::PageDown]]);
    assert(o.take(5).drop_last() =~= o.take(4) && o.take(5).last() == o[4]);
    assert(help_groups(o.take(5)) =~~= seq![seq![BindingId::FocusPanel], seq![BindingId::MoveDown, BindingId::MoveUp], seq![BindingId::PageDown, BindingId::PageUp]]);
    assert(o.take(6).drop_last() =~= o.take(5) && o.take(6).last() == o[5]);
    assert(help_groups(o.take(6)) =~~= seq![seq![BindingId::FocusPanel], seq![BindingId::MoveDown, BindingId::MoveUp], seq![BindingId::PageDown, BindingId::PageUp], seq![BindingId::JumpBottom]]);
    assert(o.take(7).drop_last() =~= o.take(6) && o.take(7).last() == o[6]);
    assert(help_groups(o.take(7)) =~~= seq![seq![BindingId::FocusPanel], seq![BindingId::MoveDown, BindingId::MoveUp], seq![BindingId::PageDown, BindingId::PageUp], seq![BindingId::JumpBottom, BindingId::JumpTop]]);
    assert(o.take(8).drop_last() =~= o.take(7) && o.take(8).last() == o[7]);
    assert(help_groups(o.take(8)) =~~= seq![seq![BindingId::FocusPanel], seq![BindingId::MoveDown, BindingId::MoveUp], seq![BindingId::PageDown, BindingId::PageUp], seq![BindingId::JumpBottom, BindingId::JumpTop], seq![BindingId::DrillIn]]);
    assert(o.take(9).drop_last() =~= o.take(8) && o.take(9).last() == o[8]);
    assert(help_groups(o.take(9)) =~~= seq![seq![BindingId::FocusPanel], seq![BindingId::MoveDown, BindingId::MoveUp], seq![BindingId::PageDown, BindingId::PageUp], seq![BindingId::JumpBottom, BindingId::JumpTop], seq![BindingId::DrillIn], seq![BindingId::AssignSelected]]);
    assert(o.take(10).drop_last() =~= o.take(9) && o.take(10).last() == o[9]);
    assert(help_groups(o.take(10)) =~~= seq![seq![BindingId::FocusPanel], seq![BindingId::MoveDown, BindingId::MoveUp], seq![BindingId::PageDown, BindingId::PageUp], seq![BindingId::JumpBottom, BindingId::JumpTop], seq![BindingId::DrillIn], seq![BindingId::AssignSelected], seq![BindingId::AssignUnassigned]]);
    assert(o.take(11).drop_last() =~= o.take(10) && o.take(11).last() == o[10]);
    assert(help_groups(o.take(11)) =~~= seq![seq![BindingId::FocusPanel], seq![BindingId::MoveDown, BindingId::MoveUp], seq![BindingId::PageDown, BindingId::PageUp], seq![BindingId::JumpBottom, BindingId::JumpTop], seq![BindingId::DrillIn], seq![BindingId::AssignSelected], seq![BindingId::AssignUnassigned], seq![BindingId::AssignAll]]);
    assert(o.take(12).drop_last() =~= o.take(11) && o.take(12).last() == o[11]);
    assert(help_groups(o.take(12)) =~~= seq![seq![BindingId::FocusPanel], seq![BindingId::MoveDown, BindingId::MoveUp], seq![BindingId::PageDown, BindingId::PageUp], seq![BindingId::JumpBottom, BindingId::JumpTop], seq![BindingId::DrillIn], seq![BindingId::AssignSelected], seq![BindingId::AssignUnassigned], seq![BindingId::AssignAll], seq![BindingId::StageToggle]]);
    assert(o.take(13).drop_last() =~= o.take(12) && o.take(13).last() == o[12]);
    assert(help_groups(o.take(13)) =~~= seq![seq![BindingId::FocusPanel], seq![BindingId::MoveDown, BindingId::MoveUp], seq![BindingId::PageDown, BindingId::PageUp], seq![BindingId::JumpBottom, BindingId::JumpTop], seq![BindingId::DrillIn], seq![BindingId::AssignSelected], seq![BindingId::AssignUnassigned], seq![BindingId::AssignAll], seq![BindingId::StageToggle], seq![BindingId::Commit]]);
    assert(o.take(14).drop_last() =~= o.take(13) && o.take(14).last() == o[13]);
    assert(help_groups(o.take(14)) =~~= seq![seq![BindingId::FocusPanel], seq![BindingId::MoveDown, BindingId::MoveUp], seq![BindingId::PageDown, BindingId::PageUp], seq![BindingId::JumpBottom, BindingId::JumpTop], seq![BindingId::DrillIn], seq![BindingId::AssignSelected], seq![BindingId::AssignUnassigned], seq![BindingId::AssignAll], seq![BindingId::StageToggle], seq![BindingId::Commit], seq![BindingId::NewChangelist]]);
    assert(o.take(15).drop_last() =~= o.take(14) && o.take(15).last() == o[14]);
    assert(help_groups(o.take(15)) =~~= seq![seq![BindingId::FocusPanel], seq![BindingId::MoveDown, BindingId::MoveUp], seq![BindingId::PageDown, BindingId::PageUp], seq![BindingId::JumpBottom, BindingId::JumpTop], seq![BindingId::DrillIn], seq![BindingId::AssignSelected], seq![BindingId::AssignUnassigned], seq![BindingId::AssignAll], seq![BindingId::StageToggle], seq![BindingId::Commit], seq![BindingId::NewChangelist], seq![BindingId::DeleteChangelist]]);
    assert(o.take(16).drop_last() =~= o.take(15) && o.take(16).last() == o[15]);
    assert(help_groups(o.take(16)) =~~= seq![seq![BindingId::FocusPanel], seq![BindingId::MoveDown, BindingId::MoveUp], seq![BindingId::PageDown, BindingId::PageUp], seq![BindingId::JumpBottom, BindingId::JumpTop], seq![BindingId::DrillIn], seq![BindingId::AssignSelected], seq![BindingId::AssignUnassigned], seq![BindingId::AssignAll], seq![BindingId::StageToggle], seq![BindingId::Commit], seq![BindingId::NewChangelist], seq![BindingId::DeleteChangelist], seq![BindingId::RenameChangelist]]);
    assert(o.take(17).drop_last() =~= o.take(16) && o.take(17).last() == o[16]);
    assert(help_groups(o.take(17)) =~~= seq![seq![BindingId::FocusPanel], seq![BindingId::MoveDown, BindingId::MoveUp], seq![BindingId::PageDown, BindingId::PageUp], seq![BindingId::JumpBottom, BindingId::JumpTop], seq![BindingId::DrillIn], seq![BindingId::AssignSelected], seq![BindingId::AssignUnassigned], seq![BindingId::AssignAll], seq![BindingId::StageToggle], seq![BindingId::Commit], seq![BindingId::NewChangelist], seq![BindingId::DeleteChangelist], seq![BindingId::RenameChangelist], seq![BindingId::SwitchActive]]);
    assert(o.take(18).drop_last() =~= o.take(17) && o.take(18).last() == o[17]);
    assert(help_groups(o.take(18)) =~~= seq![seq![BindingId::FocusPanel], seq![BindingId::MoveDown, BindingId::MoveUp], seq![BindingId::PageDown, BindingId::PageUp], seq![BindingId::JumpBottom, BindingId::JumpTop], seq![BindingId::DrillIn], seq![BindingId::AssignSelected], seq![BindingId::AssignUnassigned], seq![BindingId::AssignAll], seq![BindingId::StageToggle], seq![BindingId::Commit], seq![BindingId::NewChangelist], seq![BindingId::DeleteChangelist], seq![BindingId::RenameChangelist], seq![BindingId::SwitchActive], seq![BindingId::Back]]);
    assert(o.take(19).drop_last() =~= o.take(18) && o.take(19).last() == o[18]);
    assert(help_groups(o.take(19)) =~~= seq![seq![BindingId::FocusPanel], seq![BindingId::MoveDown, BindingId::MoveUp], seq![BindingId::PageDown, BindingId::PageUp], seq![BindingId::JumpBottom, BindingId::JumpTop], seq![BindingId::DrillIn], seq![BindingId::AssignSelected], seq![BindingId::AssignUnassigned], seq![BindingId::AssignAll], seq![BindingId::StageToggle], seq![BindingId::Commit], seq![BindingId::NewChangelist], seq![BindingId::DeleteChangelist], seq![BindingId::RenameChangelist], seq![BindingId::SwitchActive], seq![BindingId::Back], seq![BindingId::Refresh]]);
    assert(o.take(20).drop_last() =~= o.take(19) && o.take(20).last() == o[19]);
    assert(help_groups(o.take(20)) =~~= seq![seq![BindingId::FocusPanel], seq![BindingId::MoveDown, BindingId::MoveUp], seq![BindingId::PageDown, BindingId::PageUp], seq![BindingId::JumpBottom, BindingId::JumpTop], seq![BindingId::DrillIn], seq![BindingId::AssignSelected], seq![BindingId::AssignUnassigned], seq![BindingId::AssignAll], seq![BindingId::StageToggle], seq![BindingId::Commit], seq![BindingId::NewChangelist], seq![BindingId::DeleteChangelist], seq![BindingId::RenameChangelist], seq![BindingId::SwitchActive], seq![BindingId::Back], seq![BindingId::Refresh], seq![BindingId::Help]]);
    assert(o.take(21).drop_last() =~= o.take(20) && o.take(21).last() == o[20]);
    assert(help_groups(o.take(21)) =~~= seq![seq![BindingId::FocusPanel], seq![BindingId::MoveDown, BindingId::MoveUp], seq![BindingId::PageDown, BindingId::PageUp], seq![BindingId::JumpBottom, BindingId::JumpTop], seq![BindingId::DrillIn], seq![BindingId::AssignSelected], seq![BindingId::AssignUnassigned], seq![BindingId::AssignAll], seq![BindingId::StageToggle], seq![BindingId::Commit], seq![BindingId::NewChangelist], seq![BindingId::DeleteChangelist], seq![BindingId::RenameChangelist], seq![BindingId::SwitchActive], seq![BindingId::Back], seq![BindingId::Refresh], seq![BindingId::Help], seq![BindingId::Quit]]);
    assert(o.take(21) =~= o);
}

/// The help overlay lists one row per run of records sharing a label:
/// eighteen rows, the panel digits first, the stage toggle ninth, quit
/// last; and the key column does not depend on the drill glyph, which
/// only the labels show.
pub proof fn law_the_help_rows(arrow: char, other_arrow: char)
    ensures
        help_rows_text(arrow).len() == 18,
        help_rows_text(arrow)[0] == ("1-5, 0"@, "focus panel (0 = diff)"@),
        help_rows_text(arrow)[8] == ("space"@, "toggle stage changelist/file row/hunk"@),
        help_rows_text(arrow)[17] == ("q"@, "quit"@),
        help_rows_text(other_arrow).len() == help_rows_text(arrow).len(),
        forall|i: int| 0 <= i < help_rows_text(arrow).len() ==>
            (#[trigger] help_rows_text(arrow)[i]).0 == help_rows_text(other_arrow)[i].0,
{
    lemma_help_groups_are_the_table();
    let groups = help_groups(binding_order());
    let table = help_group_table();
    assert(groups[0] == table[0] && groups[8] == table[8] && groups[17] == table[17]);
    reveal_with_fuel(key_positions, 2);
    reveal_with_fuel(position_spellings, 2);
    reveal_strlit("1-5, 0");
    reveal_strlit("focus panel (0 = diff)");
    reveal_strlit("focus panel (");
    reveal_strlit(" = diff)");
    reveal_strlit(", 0");
    reveal_strlit("space");
    reveal_strlit("q");
    reveal_with_fuel(least_number, 6);
    reveal_with_fuel(greatest_number, 6);
    reveal_with_fuel(least_number_above, 7);
    assert(panels_help_text() =~= "1-5, 0"@);
    let first = groups[0];
    assert(key_positions(first) == 1) by {
        assert(first.drop_last().len() == 0);
    }
    assert(position_spellings(first, 0) =~= seq![panels_help_text()]) by {
        assert(first.drop_last().len() == 0);
    }
    assert(group_spelling(first) =~= "1-5, 0"@);
    assert(help_label_text(binding_help(first[0]), arrow) =~= "focus panel (0 = diff)"@);
    let ninth = groups[8];
    assert(key_positions(ninth) == 1) by {
        assert(ninth.drop_last().len() == 0);
    }
    assert(position_spellings(ninth, 0) =~= seq!["space"@]) by {
        assert(ninth.drop_last().len() == 0);
    }
    assert(group_spelling(ninth) =~= "space"@);
    let last = groups[17];
    assert(key_positions(last) == 1) by {
        assert(last.drop_last().len() == 0);
    }
    assert(position_spellings(last, 0) =~= seq![seq!['q']]) by {
        assert(last.drop_last().len() == 0);
    }
    assert(group_spelling(last) =~= "q"@);
}

// ── staging counts, hunk by hunk ────────────────────────────────────

/// Whether `owner` (`None` = unassigned) owns `h`, read off the hunk.
pub open spec fn held_by(h: Hunk, owner: Option<Seq<char>>) -> bool {
    crate::text::opt_view(&h.changelist) == owner
}

proof fn lemma_owned_counts_by_hunk(hs: Seq<Hunk>, owner: Option<Seq<char>>, stage: HunkStage)
    ensures
        (owned_count(hs, owner) > 0) == (exists|j: int| 0 <= j < hs.len() && held_by(#[trigger] hs[j], owner)),
        (owned_with(hs, owner, stage) == 0) == (forall|j: int| 0 <= j < hs.len() && held_by(#[trigger] hs[j], owner)
            ==> hs[j].stage != stage),
        (owned_with(hs, owner, stage) == owned_count(hs, owner)) == (forall|j: int|
            0 <= j < hs.len() && held_by(#[trigger] hs[j], owner) ==> hs[j].stage == stage),
        owned_with(hs, owner, stage) == hs.filter(|h: Hunk| held_by(h, owner) && h.stage == stage).len(),
        owned_count(hs, owner) == hs.filter(|h: Hunk| held_by(h, owner)).len(),
        hs.len() - owned_count(hs, owner) == hs.filter(|h: Hunk| !held_by(h, owner)).len(),
    decreases hs.len(),
{
    if hs.len() > 0 {
        let front = hs.drop_last();
        lemma_owned_counts_by_hunk(front, owner, stage);
        crate::view::lemma_counts_bounded(front, owner, stage);
        assert(hs =~= front.push(hs.last()));
        front.lemma_filter_len_push(|h: Hunk| held_by(h, owner) && h.stage == stage, hs.last());
        front.lemma_filter_len_push(|h: Hunk| held_by(h, owner), hs.last());
        front.lemma_filter_len_push(|h: Hunk| !held_by(h, owner), hs.last());
        assert forall|j: int| 0 <= j < front.len() implies #[trigger] front[j] == hs[j] by {}
        if exists|j: int| 0 <= j < hs.len() && held_by(#[trigger] hs[j], owner) {
            let j = choose|j: int| 0 <= j < hs.len() && held_by(#[trigger] hs[j], owner);
            if j < front.len() {
                assert(held_by(front[j], owner));
            }
        }
        if forall|j: int| 0 <= j < front.len() && held_by(#[trigger] front[j], owner) ==> front[j].stage != stage {
            if !held_by(hs.last(), owner) || hs.last().stage != stage {
                assert forall|j: int| 0 <= j < hs.len() && held_by(#[trigger] hs[j], owner) implies hs[j].stage != stage by {
                    if j < front.len() {
                        assert(held_by(front[j], owner));
                    }
                }
            }
        } else {
            let j = choose|j: int| 0 <= j < front.len() && held_by(#[trigger] front[j], owner) && front[j].stage == stage;
            assert(held_by(hs[j], owner));
        }
        if forall|j: int| 0 <= j < front.len() && held_by(#[trigger] front[j], owner) ==> front[j].stage == stage {
            if !held_by(hs.last(), owner) || hs.last().stage == stage {
                assert forall|j: int| 0 <= j < hs.len() && held_by(#[trigger] hs[j], owner) implies hs[j].stage == stage by {
                    if j < front.len() {
                        assert(held_by(front[j], owner));
                    }
                }
            }
        } else {
            let j = choose|j: int| 0 <= j < front.len() && held_by(#[trigger] front[j], owner) && front[j].stage != stage;
            assert(held_by(hs[j], owner));
        }
    }
}

proof fn lemma_changelist_state_by_hunk(files: Seq<ChangedFile>, owner: Option<Seq<char>>)
    ensures
        owns_any(files, owner) == (exists|i: int, j: int| 0 <= i < files.len() && 0 <= j < files[i].hunks@.len()
            && held_by(#[trigger] files[i].hunks@[j], owner)),
        owned_all_staged(files, owner) == (forall|i: int, j: int| 0 <= i < files.len() && 0 <= j < files[i].hunks@.len()
            && held_by(#[trigger] files[i].hunks@[j], owner) ==> files[i].hunks@[j].stage == HunkStage::Staged),
    decreases files.len(),
{
    if files.len() > 0 {
        let front = files.drop_last();
        let k = files.len() - 1;
        lemma_changelist_state_by_hunk(front, owner);
        lemma_owned_counts_by_hunk(files[k].hunks@, owner, HunkStage::Staged);
        assert forall|i: int| 0 <= i < front.len() implies #[trigger] front[i] == files[i] by {}
        if exists|i: int, j: int| 0 <= i < files.len() && 0 <= j < files[i].hunks@.len()
            && held_by(#[trigger] files[i].hunks@[j], owner) {
            let (i, j) = choose|i: int, j: int| 0 <= i < files.len() && 0 <= j < files[i].hunks@.len()
                && held_by(#[trigger] files[i].hunks@[j], owner);
            if i < k {
                assert(held_by(front[i].hunks@[j], owner));
            } else {
                assert(held_by(files[k].hunks@[j], owner));
            }
        }
        if owns_any(files, owner) {
            if !owns_any(front, owner) {
                let j = choose|j: int| 0 <= j < files[k].hunks@.len() && held_by(#[trigger] files[k].hunks@[j], owner);
                assert(held_by(files[k].hunks@[j], owner));
            }
        }
        if forall|i: int, j: int| 0 <= i < files.len() && 0 <= j < files[i].hunks@.len()
            && held_by(#[trigger] files[i].hunks@[j], owner) ==> files[i].hunks@[j].stage == HunkStage::Staged {
            assert forall|i: int, j: int| 0 <= i < front.len() && 0 <= j < front[i].hunks@.len()
                && held_by(#[trigger] front[i].hunks@[j], owner) implies front[i].hunks@[j].stage == HunkStage::Staged by {
                assert(held_by(files[i].hunks@[j], owner));
            }
            assert forall|j: int| 0 <= j < files[k].hunks@.len() && held_by(#[trigger] files[k].hunks@[j], owner)
                implies files[k].hunks@[j].stage == HunkStage::Staged by {
                assert(held_by(files[k].hunks@[j], owner));
            }
        }
        if owned_all_staged(files, owner) {
            assert forall|i: int, j: int| 0 <= i < files.len() && 0 <= j < files[i].hunks@.len()
                && held_by(#[trigger] files[i].hunks@[j], owner) implies files[i].hunks@[j].stage == HunkStage::Staged by {
                if i < k {
                    assert(held_by(front[i].hunks@[j], owner));
                } else {
                    assert(held_by(files[k].hunks@[j], owner));
                }
            }
        }
    }
}

/// `space` on a Changelists row unstages exactly when the row owns at
/// least one hunk and every hunk it owns, in every file of the snapshot,
/// is `●`; any `○` or `◑` anywhere among them, or owning nothing, makes
/// it stage.
pub proof fn law_space_on_a_changelist_reads_every_file(a: AppView, s: Snapshot, owner: Option<Seq<char>>)
    requires
        a.snapshot == Some(s),
        scope_owner(scope_of(a)) == Some(owner),
    ensures
        changelist_toggle(a) == Some(
            if (exists|i: int, j: int| 0 <= i < s.files@.len() && 0 <= j < s.files@[i].hunks@.len()
                && held_by(#[trigger] s.files@[i].hunks@[j], owner))
                && (forall|i: int, j: int| 0 <= i < s.files@.len() && 0 <= j < s.files@[i].hunks@.len()
                && held_by(#[trigger] s.files@[i].hunks@[j], owner) ==> s.files@[i].hunks@[j].stage == HunkStage::Staged) {
                OpView::UnstageChangelist { changelist: owner }
            } else {
                OpView::StageChangelist { changelist: owner }
            },
        ),
{
    lemma_changelist_state_by_hunk(s.files@, owner);
}

/// A Files row's marker, read off its group's own hunks: `●` when it
/// owns some and every one is staged, `○` when none of them is staged
/// or stale, `◐` otherwise; so a row with a `◑` hunk that is not wholly
/// staged is `◐`, and its count is of its own `●` hunks.
pub proof fn law_a_rows_marker_reads_its_own_hunks(f: ChangedFile, group: GroupView, indent: bool, owner: Option<Seq<char>>)
    requires
        group_owner(group) == Some(owner),
    ensures
        file_row(f, group, indent) matches FilesRowView::File { stage, staged, total, .. }
            && staged == f.hunks@.filter(|h: Hunk| held_by(h, owner) && h.stage == HunkStage::Staged).len() as usize
            && total == f.hunks@.filter(|h: Hunk| held_by(h, owner)).len() as usize
            && stage == (
            if (exists|j: int| 0 <= j < f.hunks@.len() && held_by(#[trigger] f.hunks@[j], owner))
                && (forall|j: int| 0 <= j < f.hunks@.len() && held_by(#[trigger] f.hunks@[j], owner)
                ==> f.hunks@[j].stage == HunkStage::Staged) {
                FileStage::Staged
            } else if forall|j: int| 0 <= j < f.hunks@.len() && held_by(#[trigger] f.hunks@[j], owner)
                ==> f.hunks@[j].stage == HunkStage::Unstaged {
                FileStage::Unstaged
            } else {
                FileStage::PartiallyStaged
            }
        ),
{
    let hs = f.hunks@;
    lemma_owned_counts_by_hunk(hs, owner, HunkStage::Staged);
    lemma_owned_counts_by_hunk(hs, owner, HunkStage::StagedStale);
    crate::view::lemma_counts_bounded(hs, owner, HunkStage::Staged);
    assert((owned_with(hs, owner, HunkStage::Staged) == 0 && owned_with(hs, owner, HunkStage::StagedStale) == 0)
        == (forall|j: int| 0 <= j < hs.len() && held_by(#[trigger] hs[j], owner) ==> hs[j].stage == HunkStage::Unstaged));
}

/// In a drilled scope the Diff title counts the owner's own hunks: the
/// staged number is how many of the file's hunks the owner holds that
/// are `●`, never the whole file's, so it never exceeds the owned count
/// after the slash.
pub proof fn law_the_diff_title_counts_the_owners_staged_hunks(a: AppView, f: ChangedFile, owner: Option<Seq<char>>)
    requires
        selected_file_of(a) == Some(f),
        f.kind != ChangeKind::Conflicted,
        a.hunk_sel is None,
        scope_owner(scope_of(a)) == Some(owner),
    ensures
        ({
            let staged = f.hunks@.filter(|h: Hunk| held_by(h, owner) && h.stage == HunkStage::Staged).len();
            let own = f.hunks@.filter(|h: Hunk| held_by(h, owner)).len();
            let others = f.hunks@.filter(|h: Hunk| !held_by(h, owner)).len();
            &&& staged <= own
            &&& diff_title_of(a) == crate::text::after_last_slash(f.path@) + " ("@ + decimal(staged) + "/"@
                + decimal(own) + " staged"@ + (if others > 0 {
                " · "@ + count_noun_text(others, "hunk"@) + " elsewhere"@
            } else {
                Seq::empty()
            }) + ")"@
        }),
{
    let hs = f.hunks@;
    lemma_owned_counts_by_hunk(hs, owner, HunkStage::Staged);
    crate::view::lemma_counts_bounded(hs, owner, HunkStage::Staged);
}

/// A refresh that no longer lists the selected commit keeps the row
/// where it was, clamped into the new list (the top one when the list
/// is empty); it never throws the selection back to the newest commit.
pub proof fn law_a_vanished_commit_keeps_its_row(a: AppView, s: Snapshot)
    requires
        forall|i: int| 0 <= i < s.recent_commits@.len() ==> commit_id(a) != Some(
            #[trigger] s.recent_commits@[i].short_id@,
        ),
    ensures
        applied(a, s).commit_row == if s.recent_commits@.len() == 0 {
            0
        } else if a.commit_row < s.recent_commits@.len() - 1 {
            a.commit_row as int
        } else {
            s.recent_commits@.len() - 1
        },
{
    let b = announced(a, s);
    match commit_id(b) {
        Some(id) => {
            lemma_first_commit(s.recent_commits@, id);
            match first_commit(s.recent_commits@, id) {
                Some(p) => assert(s.recent_commits@[p].short_id@ == id),
                None => {},
            }
        },
        None => {},
    }
}

/// A quantity with one decimal and a unit: `12.4 KB`.
pub open spec fn one_decimal(whole: nat, tenth: nat, unit: Seq<char>) -> Seq<char> {
    decimal(whole) + seq!['.', digit_char(tenth), ' '] + unit
}

/// `bytes` as the Diff panel's binary placeholder spells it: plain bytes
/// under 1 KiB; above, one decimal in the largest 1024-based unit that
/// fits, capped at GB — KB under 1 MiB, MB under 1 GiB, GB from 1 GiB
/// up — with the tenths within half a tenth of the exact quotient.
pub proof fn law_a_size_is_spelled_in_its_largest_unit(bytes: u64)
    ensures
        bytes < 1024 ==> human_size_text(bytes) == decimal(bytes as nat) + " B"@,
        bytes >= 1024 ==> exists|whole: nat, tenth: nat, unit: Seq<char>|
            tenth < 10 && human_size_text(bytes) == #[trigger] one_decimal(whole, tenth, unit) && {
                let t = 10 * whole + tenth;
                ||| unit == "KB"@ && bytes < 1048576 && 2 * t * 1024 <= 20 * bytes + 1024
                    && 20 * bytes <= 2 * t * 1024 + 1024
                ||| unit == "MB"@ && 1048576 <= bytes < 1073741824 && 2 * t * 1048576 <= 20 * bytes + 1048576
                    && 20 * bytes <= 2 * t * 1048576 + 1048576
                ||| unit == "GB"@ && 1073741824 <= bytes && 2 * t * 1073741824 <= 20 * bytes + 1073741824
                    && 20 * bytes <= 2 * t * 1073741824 + 1073741824
            },
{
    if bytes >= 1024 {
        let k = size_steps(bytes as nat);
        let p = pow1024(k);
        let t = rounded_tenths(bytes as nat, p);
        lemma_rounded_tenths_bounds(bytes as nat, p);
        let whole = t / 10;
        let tenth = t % 10;
        assert(t == 10 * whole + tenth);
        let unit = size_unit(k);
        assert(human_size_text(bytes) =~= one_decimal(whole, tenth, unit));
    }
}

proof fn lemma_rounded_tenths_bounds(b: nat, p: nat)
    requires
        p > 0,
    ensures
        2 * rounded_tenths(b, p) * p <= 20 * b + p,
        20 * b <= 2 * rounded_tenths(b, p) * p + p,
{
    let q = (b * 10) / p;
    let r = (b * 10) % p;
    assert(b * 10 == q * p + r && 0 <= r < p) by (nonlinear_arith)
        requires
            p > 0,
            q == (b * 10) / p,
            r == (b * 10) % p,
    ;
    let t = rounded_tenths(b, p);
    if 2 * r > p || (2 * r == p && q % 2 == 1) {
        assert(t == q + 1);
        assert(2 * t * p <= 20 * b + p && 20 * b <= 2 * t * p + p) by (nonlinear_arith)
            requires
                t == q + 1,
                b * 10 == q * p + r,
                0 <= r < p,
                2 * r >= p,
        ;
    } else {
        assert(t == q);
        assert(2 * t * p <= 20 * b + p && 20 * b <= 2 * t * p + p) by (nonlinear_arith)
            requires
                t == q,
                b * 10 == q * p + r,
                0 <= r < p,
                2 * r <= p,
        ;
    }
}

// ── a snapshot swap ─────────────────────────────────────────────────

/// Every collection of the snapshot within what a `Vec` can hold.
pub open spec fn snapshot_sized(s: Snapshot) -> bool {
    &&& s.files@.len() <= isize::MAX
    &&& s.changelists@.len() + 2 <= isize::MAX
    &&& s.recent_commits@.len() <= isize::MAX
    &&& forall|i: int| 0 <= i < s.files@.len() ==> (#[trigger] s.files@[i]).hunks@.len() <= isize::MAX
}

proof fn lemma_first_scope(rows: Seq<ChangelistRowView>, scope: ScopeView)
    ensures
        first_scope_index(rows, scope) matches Some(j) ==> 0 <= j < rows.len() && rows[j].scope == scope,
        (exists|i: int| 0 <= i < rows.len() && #[trigger] rows[i].scope == scope) ==> first_scope_index(rows, scope) is Some,
    decreases rows.len(),
{
    if rows.len() > 0 {
        lemma_first_scope(rows.drop_last(), scope);
        if exists|i: int| 0 <= i < rows.len() && #[trigger] rows[i].scope == scope {
            let i = choose|i: int| 0 <= i < rows.len() && #[trigger] rows[i].scope == scope;
            if i < rows.len() - 1 {
                assert(rows.drop_last()[i].scope == scope);
            }
        }
    }
}

proof fn lemma_first_entry(es: Seq<FileEntryView>, path: Seq<char>)
    ensures
        first_entry_at(es, path) matches Some(j) ==> 0 <= j < es.len(),
    decreases es.len(),
{
    if es.len() > 0 {
        lemma_first_entry(es.drop_last(), path);
    }
}

proof fn lemma_first_commit(cs: Seq<CommitInfo>, id: Seq<char>)
    ensures
        first_commit(cs, id) matches Some(j) ==> 0 <= j < cs.len() && cs[j].short_id@ == id,
        (exists|i: int| 0 <= i < cs.len() && #[trigger] cs[i].short_id@ == id) ==> first_commit(cs, id) is Some,
    decreases cs.len(),
{
    if cs.len() > 0 {
        lemma_first_commit(cs.drop_last(), id);
        if exists|i: int| 0 <= i < cs.len() && #[trigger] cs[i].short_id@ == id {
            let i = choose|i: int| 0 <= i < cs.len() && #[trigger] cs[i].short_id@ == id;
            if i < cs.len() - 1 {
                assert(cs.drop_last()[i].short_id@ == id);
            }
        }
    }
}

proof fn lemma_nearest_same_hunk(hs: Seq<Hunk>, id: IdentityView, start: u32)
    ensures
        nearest_same_hunk(hs, id, start) matches Some(j) ==> 0 <= j < hs.len() && hs[j].identity@ == id,
        (exists|i: int| 0 <= i < hs.len() && #[trigger] hs[i].identity@ == id) ==> nearest_same_hunk(hs, id, start) is Some,
    decreases hs.len(),
{
    if hs.len() > 0 {
        lemma_nearest_same_hunk(hs.drop_last(), id, start);
        lemma_nearest_in_range(hs.drop_last(), id, start);
        if exists|i: int| 0 <= i < hs.len() && #[trigger] hs[i].identity@ == id {
            let i = choose|i: int| 0 <= i < hs.len() && #[trigger] hs[i].identity@ == id;
            if i < hs.len() - 1 {
                assert(hs.drop_last()[i].identity@ == id);
            }
        }
    }
}

/// The stages after the row is found keep the snapshot and the row.
proof fn lemma_later_stages_keep_the_scope(a: AppView, s: Snapshot)
    ensures
        ({
            let b = announced(a, s);
            let c = with_rows(b, s);
            let r = applied(a, s);
            &&& r.snapshot == c.snapshot
            &&& r.changelist_row == c.changelist_row
            &&& scope_of(r) == scope_of(c)
            &&& entries_of_app(r) == entries_of_app(c)
            &&& scope_of(b) == scope_of(a)
            &&& entries_of_app(b) == entries_of_app(a)
        }),
{
}

/// A refresh keeps the drill-down: when the scoped changelist (or
/// pseudo-row) still exists, the same scope stays selected.
pub proof fn law_the_scope_survives_a_refresh(a: AppView, s: Snapshot)
    requires
        snapshot_sized(s),
        exists|i: int| 0 <= i < changelist_rows_for(Some(s)).len()
            && #[trigger] changelist_rows_for(Some(s))[i].scope == scope_of(a),
    ensures
        scope_of(applied(a, s)) == scope_of(a),
{
    lemma_later_stages_keep_the_scope(a, s);
    lemma_first_scope(changelist_rows_for(Some(s)), scope_of(a));
}

/// A refresh keeps the file selection by identity: when the selected
/// (group, path) is still a row of the surviving scope, it stays
/// selected.
pub proof fn law_the_file_survives_a_refresh(a: AppView, s: Snapshot, sel: FileEntryView)
    requires
        snapshot_sized(s),
        a.file_sel == Some(sel),
        exists|i: int| 0 <= i < changelist_rows_for(Some(s)).len()
            && #[trigger] changelist_rows_for(Some(s))[i].scope == scope_of(a),
        entries_of(files_rows_for(Some(s), scope_of(a))).contains(sel),
    ensures
        applied(a, s).file_sel == Some(sel),
{
    lemma_later_stages_keep_the_scope(a, s);
    lemma_first_scope(changelist_rows_for(Some(s)), scope_of(a));
    let b = announced(a, s);
    let c = with_rows(b, s);
    let es = entries_of_app(c);
    assert(es == entries_of(files_rows_for(Some(s), scope_of(a))));
    lemma_first_index_of(es, sel);
}

/// A refresh keeps the commit selection by id: when the selected commit
/// is still among the recent commits, the row follows it.
pub proof fn law_the_commit_survives_a_refresh(a: AppView, s: Snapshot, id: Seq<char>)
    requires
        snapshot_sized(s),
        a.snapshot matches Some(o) && a.commit_row < o.recent_commits@.len()
            && o.recent_commits@[a.commit_row as int].short_id@ == id,
        exists|i: int| 0 <= i < s.recent_commits@.len() && #[trigger] s.recent_commits@[i].short_id@ == id,
    ensures
        applied(a, s).commit_row < s.recent_commits@.len(),
        s.recent_commits@[applied(a, s).commit_row as int].short_id@ == id,
{
    lemma_first_commit(s.recent_commits@, id);
}

/// A refresh keeps the hunk-mode cursor on content: when the selected
/// file still holds a hunk with the selected hunk's lines, the cursor
/// lands on such a hunk.
pub proof fn law_the_hunk_survives_a_refresh(a: AppView, s: Snapshot, id: IdentityView, start: u32)
    requires
        snapshot_sized(s),
        hunk_identity(announced(a, s)) == Some((id, start)),
        selected_file_of(applied(a, s)) matches Some(f)
            && exists|i: int| 0 <= i < f.hunks@.len() && #[trigger] f.hunks@[i].identity@ == id,
    ensures
        applied(a, s).hunk_sel matches Some(j) && selected_file_of(applied(a, s)) matches Some(f)
            && j < f.hunks@.len() && f.hunks@[j as int].identity@ == id,
{
    let b = announced(a, s);
    let c = with_rows(b, s);
    let d = with_file(c, b.file_sel, crate::selection::file_position(b));
    let f = selected_file_of(applied(a, s)).unwrap();
    assert(selected_file_of(d) == Some(f));
    crate::view::lemma_first_with_path(s.files@, d.file_sel.unwrap().path);
    let k = crate::view::first_with_path(s.files@, d.file_sel.unwrap().path).unwrap();
    assert(f == s.files@[k]);
    assert(f.hunks@.len() <= isize::MAX);
    lemma_nearest_same_hunk(f.hunks@, id, start);
}

/// After a refresh every selection points at something that exists: the
/// Changelists row, the commit, the file entry and the hunk.
pub proof fn law_a_refresh_leaves_every_selection_in_range(a: AppView, s: Snapshot)
    requires
        snapshot_sized(s),
    ensures
        applied(a, s).changelist_row < changelist_rows_for(Some(s)).len(),
        s.recent_commits@.len() > 0 ==> applied(a, s).commit_row < s.recent_commits@.len(),
        applied(a, s).file_sel matches Some(e) ==> entries_of_app(applied(a, s)).contains(e),
        applied(a, s).hunk_sel matches Some(i) ==> (selected_file_of(applied(a, s)) matches Some(f) && i < f.hunks@.len()),
{
    lemma_later_stages_keep_the_scope(a, s);
    let b = announced(a, s);
    lemma_first_scope(changelist_rows_for(Some(s)), scope_of(b));
    let c = with_rows(b, s);
    let es = entries_of_app(c);
    let d = with_file(c, b.file_sel, crate::selection::file_position(b));
    match b.file_sel {
        Some(sel) => {
            lemma_first_index_of(es, sel);
            lemma_first_entry(es, sel.path);
        },
        None => {},
    }
    if d.file_sel is Some {
        let e = d.file_sel.unwrap();
        let sel = b.file_sel;
        if sel is Some && first_index_of(es, sel.unwrap()) is Some {
            let i = first_index_of(es, sel.unwrap()).unwrap();
            assert(0 <= i < es.len() && es[i] == e);
            assert(es.contains(e));
        } else if sel is Some && first_entry_at(es, sel.unwrap().path) is Some {
            let i = first_entry_at(es, sel.unwrap().path).unwrap();
            assert(0 <= i < es.len() && es[i] == e);
            assert(es.contains(e));
        } else {
            let position = match crate::selection::file_position(b) {
                Some(p) => p,
                None => 0,
            };
            if sel is Some {
                lemma_first_index_of(entries_of_app(b), sel.unwrap());
            }
            assert(position >= 0);
            let i = clamped(position, es.len() as int);
            assert(0 <= i < es.len() && es[i] == e);
            assert(es.contains(e));
        }
    }
    assert(selected_file_of(applied(a, s)) == selected_file_of(d));
    match selected_file_of(d) {
        Some(f) => match hunk_identity(b) {
            Some((id, start)) => lemma_nearest_same_hunk(f.hunks@, id, start),
            None => {},
        },
        None => {},
    }
    match commit_id_of(b) {
        Some(id) => lemma_first_commit(s.recent_commits@, id),
        None => {},
    }
}

spec fn commit_id_of(b: AppView) -> Option<Seq<char>> {
    crate::selection::commit_id(b)
}

// ── movement ────────────────────────────────────────────────────────

/// A run of `k` single-row presses in `direction`.
pub open spec fn row_run(a: AppView, direction: isize, k: nat) -> AppView
    decreases k,
{
    if k == 0 { a } else { moved(row_run(a, direction, (k - 1) as nat), Motion::Row, direction) }
}

pub open spec fn commit_count(a: AppView) -> nat {
    match a.snapshot {
        Some(s) => s.recent_commits@.len(),
        None => 0,
    }
}

proof fn lemma_commit_run(a: AppView, direction: isize, k: nat)
    requires
        a.focus == Panel::Commits,
        direction == 1 || direction == -1,
        commit_count(a) <= isize::MAX,
        commit_count(a) == 0 || a.commit_row < commit_count(a),
        k >= 1,
    ensures
        row_run(a, direction, k) == (AppView {
            commit_row: stepped(a.commit_row as int, if direction > 0 { k as int } else { -k }, commit_count(a) as int) as usize,
            ..a
        }),
    decreases k,
{
    let n = commit_count(a) as int;
    if k > 1 {
        lemma_commit_run(a, direction, (k - 1) as nat);
        let prev = row_run(a, direction, (k - 1) as nat);
        let r1 = stepped(a.commit_row as int, if direction > 0 { (k - 1) as int } else { -(k - 1) }, n);
        assert(prev.commit_row as int == r1);
        assert(prev.focus == Panel::Commits);
        assert(stepped(r1, direction as int, n) == stepped(a.commit_row as int, if direction > 0 { k as int } else { -k }, n));
    }
}

/// A page is a run of single steps: in the Commits panel, paging moves
/// the selection exactly as far as that many presses of `j`/`k` would.
pub proof fn law_a_page_is_a_run_of_single_steps(a: AppView, direction: isize)
    requires
        a.focus == Panel::Commits,
        direction == 1 || direction == -1,
        commit_count(a) <= isize::MAX,
        commit_count(a) == 0 || a.commit_row < commit_count(a),
    ensures
        moved(a, Motion::Page, direction)
            == row_run(a, direction, page_size(a.panel_heights.height(Panel::Commits)) as nat),
{
    let page = page_size(a.panel_heights.height(Panel::Commits));
    lemma_commit_run(a, direction, page as nat);
}

/// A jump reaches either end of the panel's content from any valid
/// selection: the last or first commit, the last or first file entry,
/// the newest or oldest Log line.
pub proof fn law_a_jump_reaches_either_end(a: AppView)
    requires
        commit_count(a) <= isize::MAX,
        commit_count(a) == 0 || a.commit_row < commit_count(a),
        entries_of_app(a).len() <= isize::MAX,
        a.log.len() <= LOG_CAP,
    ensures
        a.focus == Panel::Commits && commit_count(a) > 0 ==> {
            &&& moved(a, Motion::Jump, 1isize).commit_row == commit_count(a) - 1
            &&& moved(a, Motion::Jump, -1isize).commit_row == 0
        },
        a.focus == Panel::Files && entries_of_app(a).len() > 0 ==> {
            &&& moved(a, Motion::Jump, 1isize).file_sel == Some(entries_of_app(a).last())
            &&& moved(a, Motion::Jump, -1isize).file_sel == Some(entries_of_app(a)[0])
        },
        a.focus == Panel::Log ==> {
            &&& moved(a, Motion::Jump, 1isize).log_scroll == 0
            &&& moved(a, Motion::Jump, -1isize).log_scroll == if a.log.len() == 0 { 0 } else { a.log.len() - 1 }
        },
{
    if a.focus == Panel::Files && a.file_sel is Some {
        lemma_first_index_of(entries_of_app(a), a.file_sel.unwrap());
    }
}

/// The selection's position among the entries, `0` when it is none of
/// them.
pub open spec fn entry_position(a: AppView) -> int {
    match a.file_sel {
        Some(sel) => match first_index_of(entries_of_app(a), sel) {
            Some(i) => i,
            None => 0,
        },
        None => 0,
    }
}

/// The Files selection moved onto entry `target`: the diff back at its
/// top and a blurred hunk selection dropped whenever the file changes.
pub open spec fn files_stepped(a: AppView, target: int) -> AppView {
    let es = entries_of_app(a);
    let next = if es.len() > 0 { Some(es[target]) } else { None };
    if next != a.file_sel { AppView { file_sel: next, diff_scroll: 0, hunk_sel: None, ..a } } else { a }
}

pub open spec fn entries_distinct(a: AppView) -> bool {
    forall|i: int, j: int| 0 <= i < j < entries_of_app(a).len() ==> entries_of_app(a)[i] != entries_of_app(a)[j]
}

pub open spec fn signed(direction: isize, k: nat) -> int {
    if direction > 0 { k as int } else { -k }
}

proof fn lemma_distinct_position(es: Seq<FileEntryView>, t: int)
    requires
        0 <= t < es.len(),
        forall|i: int, j: int| 0 <= i < j < es.len() ==> es[i] != es[j],
    ensures
        first_index_of(es, es[t]) == Some(t),
{
    lemma_first_index_of(es, es[t]);
}

proof fn lemma_files_run(a: AppView, direction: isize, k: nat)
    requires
        a.focus == Panel::Files,
        direction == 1 || direction == -1,
        entries_of_app(a).len() <= isize::MAX,
        entries_distinct(a),
        k >= 1,
    ensures
        row_run(a, direction, k)
            == files_stepped(a, stepped(entry_position(a), signed(direction, k), entries_of_app(a).len() as int)),
    decreases k,
{
    let es = entries_of_app(a);
    let n = es.len() as int;
    let p = entry_position(a);
    if a.file_sel is Some {
        lemma_first_index_of(es, a.file_sel.unwrap());
    }
    assert(0 <= p && (n == 0 || p < n));
    if k > 1 {
        lemma_files_run(a, direction, (k - 1) as nat);
        let prev = row_run(a, direction, (k - 1) as nat);
        let t1 = stepped(p, signed(direction, (k - 1) as nat), n);
        let t2 = stepped(p, signed(direction, k), n);
        assert(prev == files_stepped(a, t1));
        assert(entries_of_app(prev) == es);
        assert(stepped(t1, direction as int, n) == t2);
        if n > 0 {
            lemma_distinct_position(es, t1);
            lemma_distinct_position(es, t2);
            assert(entry_position(prev) == t1);
            if Some(es[t1]) == a.file_sel {
                assert(p == t1);
                assert(t2 == t1);
            } else if Some(es[t2]) == a.file_sel {
                assert(p == t2);
                assert(t1 == t2);
            }
        }
    }
}

/// A page is a run of single steps in the Files panel too: paging
/// leaves exactly the state that many presses of `j`/`k` leave — the
/// same file selected, the diff at its top and a blurred hunk selection
/// dropped whenever the file changed. (Entries are told apart by group
/// and path, so no entry repeats.)
pub proof fn law_a_files_page_is_a_run_of_single_steps(a: AppView, direction: isize)
    requires
        a.focus == Panel::Files,
        direction == 1 || direction == -1,
        entries_of_app(a).len() <= isize::MAX,
        entries_distinct(a),
    ensures
        moved(a, Motion::Page, direction)
            == row_run(a, direction, page_size(a.panel_heights.height(Panel::Files)) as nat),
{
    let page = page_size(a.panel_heights.height(Panel::Files));
    lemma_files_run(a, direction, page as nat);
    if a.file_sel is Some {
        lemma_first_index_of(entries_of_app(a), a.file_sel.unwrap());
    }
}

/// A jump is the limit of a run of single steps: in the Files panel it
/// leaves exactly the state as many presses of `j`/`k` as there are
/// entries leave — the far end selected, with the same resets.
pub proof fn law_a_files_jump_is_a_run_to_the_end(a: AppView, direction: isize)
    requires
        a.focus == Panel::Files,
        direction == 1 || direction == -1,
        0 < entries_of_app(a).len() <= isize::MAX,
        entries_distinct(a),
    ensures
        moved(a, Motion::Jump, direction) == row_run(a, direction, entries_of_app(a).len()),
{
    lemma_files_run(a, direction, entries_of_app(a).len());
    if a.file_sel is Some {
        lemma_first_index_of(entries_of_app(a), a.file_sel.unwrap());
    }
}

/// The marker a Files row draws is exactly what its `space` acts on:
/// the row reads `●` precisely when `space` unstages the row's own
/// hunks, and anything else stages them.
pub proof fn law_space_follows_the_rows_marker(f: crate::model::ChangedFile, owner: Option<Seq<char>>, indent: bool)
    ensures
        ({
            let group = match owner {
                Some(n) => crate::view::GroupView::Changelist(n),
                None => crate::view::GroupView::Unassigned,
            };
            let row = crate::view::file_row(f, group, indent);
            &&& row matches crate::view::FilesRowView::File { stage, .. }
            &&& (row->stage == crate::model::FileStage::Staged)
                <==> crate::dispatch::row_toggle(f.path@, owner, f.hunks@) is UnstageOwnedHunks
        }),
{
}

/// The assign popup states the payload before it lands: when a target
/// is confirmed, the op carries exactly the hunks the popup's subject
/// line counted, in the file it named.
pub proof fn law_the_popup_names_what_lands(
    a: AppView,
    p: crate::overlay::AssignPayloadView,
    target: crate::overlay::AssignTargetView,
)
    requires
        crate::assign::assign_op_of(a, p, target) is Some,
    ensures
        crate::assign::assign_op_of(a, p, target) matches Some(ActionView::Op(crate::app::OpView::Assign { path, hunks, .. })) && {
            let noun = if p is UnassignedHunks { "unassigned hunk"@ } else { "hunk"@ };
            let head = crate::text::count_noun_text(hunks.len(), noun) + " in "@ + path;
            crate::assign::assign_description_text(a, p).take(head.len() as int) == head
        },
{
    let (path, hunks) = crate::assign::resolved(a, p).unwrap();
    let noun = if p is UnassignedHunks { "unassigned hunk"@ } else { "hunk"@ };
    let head = crate::text::count_noun_text(hunks.len(), noun) + " in "@ + path;
    let full = crate::assign::assign_description_text(a, p);
    assert(full.take(head.len() as int) =~= head);
}

// ── refresh bookkeeping ─────────────────────────────────────────────

/// A completed refresh ends the in-flight indicator and forgets the last
/// failure, so the next failure modals again.
pub proof fn law_a_refresh_resets_the_failure_memory(a: AppView, s: Snapshot, error: Seq<char>)
    ensures
        applied(a, s).refresh_started is None,
        applied(a, s).last_refresh_failure is None,
        refresh_failed(applied(a, s), error).error_modal
            == Some(crate::status::ErrorModalView { title: "Refresh failed"@, detail: error, scroll: 0 }),
{
}

/// Swapping in the same advisory-free snapshot again says nothing: the
/// echo is quiet when the counts have not moved, and an operation that
/// was already in progress is no new event.
pub proof fn law_an_unchanged_refresh_stays_quiet(a: AppView, s: Snapshot)
    requires
        s.advisories@.len() == 0,
    ensures
        applied(applied(a, s), s).log == applied(a, s).log,
{
}

// ── the drill ───────────────────────────────────────────────────────

pub open spec fn plain(code: KeyCode) -> KeyEvent {
    KeyEvent { code, modifiers: KeyModifiers::NONE }
}

/// `enter` only drills in: with no modal or overlay open it never asks
/// the main loop for anything — in particular it never assigns.
pub proof fn law_enter_only_drills_in(a: AppView, modifiers: KeyModifiers)
    requires
        a.error_modal is None,
        !a.help_open,
        a.overlay is None,
    ensures
        keyed(a, KeyEvent { code: KeyCode::Enter, modifiers }).1 is None,
{
    reveal_with_fuel(first_binding, 9);
    reveal_with_fuel(crate::keymap::any_key_matches, 3);
    assert(resolve_key(KeyEvent { code: KeyCode::Enter, modifiers }) == Some(BindingId::DrillIn));
}

/// `esc` walks back out of the drill one level per press: hunk mode to
/// Files (ending hunk mode), Files to Changelists, and there to the All
/// row — never asking the main loop for anything.
pub proof fn law_escape_walks_out_of_the_drill(a: AppView)
    requires
        a.error_modal is None,
        !a.help_open,
        a.overlay is None,
    ensures
        keyed(a, plain(KeyCode::Esc)).1 is None,
        a.focus == Panel::Diff ==> keyed(a, plain(KeyCode::Esc)).0 == (AppView { hunk_sel: None, focus: Panel::Files, ..a }),
        a.focus == Panel::Files ==> keyed(a, plain(KeyCode::Esc)).0 == (AppView { focus: Panel::Changelists, ..a }),
        a.focus == Panel::Changelists ==> {
            &&& keyed(a, plain(KeyCode::Esc)).0 == crate::selection::with_changelist_row(a, 0)
            &&& scope_of(keyed(a, plain(KeyCode::Esc)).0) == ScopeView::All
        },
{
    lemma_escape_is_back(a);
}

proof fn lemma_resolve_escape()
    ensures
        resolve_key(plain(KeyCode::Esc)) == Some(BindingId::Back),
{
    reveal_with_fuel(first_binding, 19);
    reveal_with_fuel(crate::keymap::any_key_matches, 3);
}

proof fn lemma_escape_is_back(a: AppView)
    requires
        a.error_modal is None,
        !a.help_open,
        a.overlay is None,
    ensures
        keyed(a, plain(KeyCode::Esc)) == crate::input::binding_dispatched(a, BindingId::Back, plain(KeyCode::Esc)),
{
    lemma_resolve_escape();
}

} // verus!
