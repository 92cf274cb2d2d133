//! Key events and the binding core: one record per panel-level action —
//! identity, key spelling(s), capability link, help label. Dispatch
//! resolves keys against these records and both display surfaces render
//! spellings from them, so a hint can never name a key dispatch doesn't
//! match. Modal and overlay keys stay with their modals; `ctrl+c` stays
//! a protocol-level quit above the keymap.

use vstd::prelude::*;
use crate::panel::{all_panels, panel_number, Panel};
use crate::text::{join, joined, owned, push_char, strings_view};

verus! {

/// A key as the terminal reports it.
#[derive(Debug, Clone, Copy, PartialEq, Eq, Structural)]
pub enum KeyCode {
    Char(char),
    Enter,
    Esc,
    Backspace,
    Tab,
    BackTab,
    Up,
    Down,
    Left,
    Right,
    PageUp,
    PageDown,
    Home,
    End,
    Delete,
    Insert,
    F(u8),
    /// Any key the keymap has no name for.
    Null,
}

/// The modifiers held with a key. Only CONTROL is ever consulted: a
/// plain terminal cannot be relied upon to report SHIFT, and
/// `ctrl+shift+<letter>` is indistinguishable from `ctrl+<letter>`.
#[allow(non_camel_case_types)]
#[derive(Debug, Clone, Copy, PartialEq, Eq, Structural)]
pub enum KeyModifiers {
    NONE,
    SHIFT,
    CONTROL,
    CONTROL_SHIFT,
}

pub open spec fn control_held(m: KeyModifiers) -> bool {
    m is CONTROL || m is CONTROL_SHIFT
}

pub open spec fn shift_held(m: KeyModifiers) -> bool {
    m is SHIFT || m is CONTROL_SHIFT
}

pub open spec fn modifiers_of(control: bool, shift: bool) -> KeyModifiers {
    if control && shift {
        KeyModifiers::CONTROL_SHIFT
    } else if control {
        KeyModifiers::CONTROL
    } else if shift {
        KeyModifiers::SHIFT
    } else {
        KeyModifiers::NONE
    }
}

impl KeyModifiers {
    /// Whether every modifier of `other` is held in `self`.
    pub fn contains(self, other: KeyModifiers) -> (r: bool)
        ensures
            r == ((control_held(other) ==> control_held(self)) && (shift_held(other) ==> shift_held(self))),
    {
        let control = matches!(self, KeyModifiers::CONTROL | KeyModifiers::CONTROL_SHIFT);
        let shift = matches!(self, KeyModifiers::SHIFT | KeyModifiers::CONTROL_SHIFT);
        let want_control = matches!(other, KeyModifiers::CONTROL | KeyModifiers::CONTROL_SHIFT);
        let want_shift = matches!(other, KeyModifiers::SHIFT | KeyModifiers::CONTROL_SHIFT);
        (!want_control || control) && (!want_shift || shift)
    }

    /// The union of two modifier sets.
    pub fn union(self, other: KeyModifiers) -> (r: KeyModifiers)
        ensures
            r == modifiers_of(control_held(self) || control_held(other), shift_held(self) || shift_held(other)),
    {
        let control = matches!(self, KeyModifiers::CONTROL | KeyModifiers::CONTROL_SHIFT)
            || matches!(other, KeyModifiers::CONTROL | KeyModifiers::CONTROL_SHIFT);
        let shift = matches!(self, KeyModifiers::SHIFT | KeyModifiers::CONTROL_SHIFT)
            || matches!(other, KeyModifiers::SHIFT | KeyModifiers::CONTROL_SHIFT);
        if control && shift {
            KeyModifiers::CONTROL_SHIFT
        } else if control {
            KeyModifiers::CONTROL
        } else if shift {
            KeyModifiers::SHIFT
        } else {
            KeyModifiers::NONE
        }
    }
}

impl core::ops::BitOr for KeyModifiers {
    type Output = KeyModifiers;

    fn bitor(self, rhs: KeyModifiers) -> (r: KeyModifiers) {
        self.union(rhs)
    }
}

impl vstd::std_specs::ops::BitOrSpecImpl for KeyModifiers {
    open spec fn obeys_bitor_spec() -> bool {
        true
    }

    open spec fn bitor_req(self, rhs: KeyModifiers) -> bool {
        true
    }

    open spec fn bitor_spec(self, rhs: KeyModifiers) -> KeyModifiers {
        modifiers_of(control_held(self) || control_held(rhs), shift_held(self) || shift_held(rhs))
    }
}

#[derive(Debug, Clone, Copy, PartialEq, Eq, Structural)]
pub struct KeyEvent {
    pub code: KeyCode,
    pub modifiers: KeyModifiers,
}

impl KeyEvent {
    pub fn new(code: KeyCode, modifiers: KeyModifiers) -> (r: KeyEvent)
        ensures
            r.code == code,
            r.modifiers == modifiers,
    {
        KeyEvent { code, modifiers }
    }
}

pub open spec fn ctrl_of(key: KeyEvent) -> bool {
    control_held(key.modifiers)
}

/// A binding's identity: what dispatch matches on once the key resolves,
/// and what the keybar arms mention.
#[derive(Debug, Clone, Copy, PartialEq, Eq, Structural)]
pub enum BindingId {
    FocusPanel,
    MoveDown,
    MoveUp,
    PageDown,
    PageUp,
    JumpBottom,
    JumpTop,
    DrillIn,
    AssignSelected,
    AssignUnassigned,
    AssignAll,
    StageToggle,
    Commit,
    NewChangelist,
    DeleteChangelist,
    RenameChangelist,
    SwitchActive,
    Back,
    Refresh,
    Help,
    Quit,
}

/// The context capability a binding needs — the one link dispatch and
/// the keybar both consult.
#[derive(Debug, Clone, Copy, PartialEq, Eq, Structural)]
pub enum Capability {
    Always,
    /// `d`/`r`: a changelist row is scoped, from a panel that shows it.
    ChangelistOps,
    /// `s`: a changelist row or the unassigned row is scoped, from a
    /// panel that shows it.
    SwitchActive,
    /// The assign trio: Files or Diff focus, or a blurred hunk selection.
    Assign,
    /// `space`: on the Changelists panel, a row that is a staging target.
    Stage,
    /// `c`: no git operation in progress, and not the All view.
    Commit,
}

/// One key a binding answers to. `Char` never matches with CONTROL held;
/// `Ctrl` matches on CONTROL alone and case-agnostically.
#[derive(Debug, Clone, Copy, PartialEq, Eq, Structural)]
pub enum Key {
    Char(char),
    Ctrl(char),
    Enter,
    Esc,
    Down,
    Up,
    PageDown,
    PageUp,
    /// Any digit in the panel numbering.
    PanelDigit,
}

/// Which display surface a spelling is for.
#[derive(Debug, Clone, Copy, PartialEq, Eq, Structural)]
pub enum Register {
    Bar,
    Help,
}

/// The help register's per-binding label.
#[derive(Debug, Clone, Copy, PartialEq, Eq)]
pub enum HelpLabel {
    Plain(&'static str),
    /// `drill in: changelist → files → hunk mode`, arrows themed.
    DrillIn,
    /// `back (diff → files → changelists → all)`, arrows themed.
    Back,
    /// `focus panel (0 = diff)`, the digit taken from the numbering.
    PanelFocus,
}

pub ghost enum HelpLabelView {
    Plain(Seq<char>),
    DrillIn,
    Back,
    PanelFocus,
}

impl View for HelpLabel {
    type V = HelpLabelView;

    open spec fn view(&self) -> HelpLabelView {
        match self {
            HelpLabel::Plain(t) => HelpLabelView::Plain(t@),
            HelpLabel::DrillIn => HelpLabelView::DrillIn,
            HelpLabel::Back => HelpLabelView::Back,
            HelpLabel::PanelFocus => HelpLabelView::PanelFocus,
        }
    }
}

// ── the binding table ───────────────────────────────────────────────

/// Record order: the help overlay's order and dispatch's search order.
pub open spec fn binding_order() -> Seq<BindingId> {
    seq![
        BindingId::FocusPanel, BindingId::MoveDown, BindingId::MoveUp, BindingId::PageDown,
        BindingId::PageUp, BindingId::JumpBottom, BindingId::JumpTop, BindingId::DrillIn,
        BindingId::AssignSelected, BindingId::AssignUnassigned, BindingId::AssignAll,
        BindingId::StageToggle, BindingId::Commit, BindingId::NewChangelist,
        BindingId::DeleteChangelist, BindingId::RenameChangelist, BindingId::SwitchActive,
        BindingId::Back, BindingId::Refresh, BindingId::Help, BindingId::Quit,
    ]
}

/// A binding's keys, primary spelling first.
pub open spec fn binding_keys(id: BindingId) -> Seq<Key> {
    match id {
        BindingId::FocusPanel => seq![Key::PanelDigit],
        BindingId::MoveDown => seq![Key::Char('j'), Key::Down],
        BindingId::MoveUp => seq![Key::Char('k'), Key::Up],
        BindingId::PageDown => seq![Key::Char('.'), Key::PageDown],
        BindingId::PageUp => seq![Key::Char(','), Key::PageUp],
        BindingId::JumpBottom => seq![Key::Char('>')],
        BindingId::JumpTop => seq![Key::Char('<')],
        BindingId::DrillIn => seq![Key::Enter],
        BindingId::AssignSelected => seq![Key::Char('a')],
        BindingId::AssignUnassigned => seq![Key::Char('A')],
        BindingId::AssignAll => seq![Key::Ctrl('a')],
        BindingId::StageToggle => seq![Key::Char(' ')],
        BindingId::Commit => seq![Key::Char('c')],
        BindingId::NewChangelist => seq![Key::Char('n')],
        BindingId::DeleteChangelist => seq![Key::Char('d')],
        BindingId::RenameChangelist => seq![Key::Char('r')],
        BindingId::SwitchActive => seq![Key::Char('s')],
        BindingId::Back => seq![Key::Esc],
        BindingId::Refresh => seq![Key::Char('R')],
        BindingId::Help => seq![Key::Char('?')],
        BindingId::Quit => seq![Key::Char('q')],
    }
}

pub open spec fn binding_capability(id: BindingId) -> Capability {
    match id {
        BindingId::AssignSelected | BindingId::AssignUnassigned | BindingId::AssignAll => Capability::Assign,
        BindingId::StageToggle => Capability::Stage,
        BindingId::Commit => Capability::Commit,
        BindingId::DeleteChangelist | BindingId::RenameChangelist => Capability::ChangelistOps,
        BindingId::SwitchActive => Capability::SwitchActive,
        _ => Capability::Always,
    }
}

pub open spec fn binding_help(id: BindingId) -> HelpLabelView {
    match id {
        BindingId::FocusPanel => HelpLabelView::PanelFocus,
        BindingId::MoveDown | BindingId::MoveUp => HelpLabelView::Plain("move within panel / hunks / scroll diff"@),
        BindingId::PageDown | BindingId::PageUp => HelpLabelView::Plain("page within panel / hunks / scroll diff"@),
        BindingId::JumpBottom | BindingId::JumpTop => HelpLabelView::Plain("jump to either end of panel / hunks / diff"@),
        BindingId::DrillIn => HelpLabelView::DrillIn,
        BindingId::AssignSelected => HelpLabelView::Plain("assign hunk (files: the row's group)"@),
        BindingId::AssignUnassigned => HelpLabelView::Plain("assign the file's unassigned hunks"@),
        BindingId::AssignAll => HelpLabelView::Plain("assign every hunk of the file"@),
        BindingId::StageToggle => HelpLabelView::Plain("toggle stage changelist/file row/hunk"@),
        BindingId::Commit => HelpLabelView::Plain("commit changelist"@),
        BindingId::NewChangelist => HelpLabelView::Plain("new changelist (and switch to it)"@),
        BindingId::DeleteChangelist => HelpLabelView::Plain("delete changelist"@),
        BindingId::RenameChangelist => HelpLabelView::Plain("rename changelist"@),
        BindingId::SwitchActive => HelpLabelView::Plain("switch active changelist (or unassigned)"@),
        BindingId::Back => HelpLabelView::Back,
        BindingId::Refresh => HelpLabelView::Plain("refresh now"@),
        BindingId::Help => HelpLabelView::Plain("toggle keybindings"@),
        BindingId::Quit => HelpLabelView::Plain("quit"@),
    }
}

pub fn binding_ids() -> (r: Vec<BindingId>)
    ensures
        r@ == binding_order(),
{
    let r = vec![
        BindingId::FocusPanel, BindingId::MoveDown, BindingId::MoveUp, BindingId::PageDown,
        BindingId::PageUp, BindingId::JumpBottom, BindingId::JumpTop, BindingId::DrillIn,
        BindingId::AssignSelected, BindingId::AssignUnassigned, BindingId::AssignAll,
        BindingId::StageToggle, BindingId::Commit, BindingId::NewChangelist,
        BindingId::DeleteChangelist, BindingId::RenameChangelist, BindingId::SwitchActive,
        BindingId::Back, BindingId::Refresh, BindingId::Help, BindingId::Quit,
    ];
    assert(r@ =~= binding_order());
    r
}

pub fn keys_of(id: BindingId) -> (r: Vec<Key>)
    ensures
        r@ == binding_keys(id),
{
    let r = match id {
        BindingId::FocusPanel => vec![Key::PanelDigit],
        BindingId::MoveDown => vec![Key::Char('j'), Key::Down],
        BindingId::MoveUp => vec![Key::Char('k'), Key::Up],
        BindingId::PageDown => vec![Key::Char('.'), Key::PageDown],
        BindingId::PageUp => vec![Key::Char(','), Key::PageUp],
        BindingId::JumpBottom => vec![Key::Char('>')],
        BindingId::JumpTop => vec![Key::Char('<')],
        BindingId::DrillIn => vec![Key::Enter],
        BindingId::AssignSelected => vec![Key::Char('a')],
        BindingId::AssignUnassigned => vec![Key::Char('A')],
        BindingId::AssignAll => vec![Key::Ctrl('a')],
        BindingId::StageToggle => vec![Key::Char(' ')],
        BindingId::Commit => vec![Key::Char('c')],
        BindingId::NewChangelist => vec![Key::Char('n')],
        BindingId::DeleteChangelist => vec![Key::Char('d')],
        BindingId::RenameChangelist => vec![Key::Char('r')],
        BindingId::SwitchActive => vec![Key::Char('s')],
        BindingId::Back => vec![Key::Esc],
        BindingId::Refresh => vec![Key::Char('R')],
        BindingId::Help => vec![Key::Char('?')],
        BindingId::Quit => vec![Key::Char('q')],
    };
    assert(r@ =~= binding_keys(id));
    r
}

pub fn capability_of(id: BindingId) -> (r: Capability)
    ensures
        r == binding_capability(id),
{
    match id {
        BindingId::AssignSelected | BindingId::AssignUnassigned | BindingId::AssignAll => Capability::Assign,
        BindingId::StageToggle => Capability::Stage,
        BindingId::Commit => Capability::Commit,
        BindingId::DeleteChangelist | BindingId::RenameChangelist => Capability::ChangelistOps,
        BindingId::SwitchActive => Capability::SwitchActive,
        _ => Capability::Always,
    }
}

pub fn help_of(id: BindingId) -> (r: HelpLabel)
    ensures
        r@ == binding_help(id),
{
    match id {
        BindingId::FocusPanel => HelpLabel::PanelFocus,
        BindingId::MoveDown | BindingId::MoveUp => HelpLabel::Plain("move within panel / hunks / scroll diff"),
        BindingId::PageDown | BindingId::PageUp => HelpLabel::Plain("page within panel / hunks / scroll diff"),
        BindingId::JumpBottom | BindingId::JumpTop => HelpLabel::Plain("jump to either end of panel / hunks / diff"),
        BindingId::DrillIn => HelpLabel::DrillIn,
        BindingId::AssignSelected => HelpLabel::Plain("assign hunk (files: the row's group)"),
        BindingId::AssignUnassigned => HelpLabel::Plain("assign the file's unassigned hunks"),
        BindingId::AssignAll => HelpLabel::Plain("assign every hunk of the file"),
        BindingId::StageToggle => HelpLabel::Plain("toggle stage changelist/file row/hunk"),
        BindingId::Commit => HelpLabel::Plain("commit changelist"),
        BindingId::NewChangelist => HelpLabel::Plain("new changelist (and switch to it)"),
        BindingId::DeleteChangelist => HelpLabel::Plain("delete changelist"),
        BindingId::RenameChangelist => HelpLabel::Plain("rename changelist"),
        BindingId::SwitchActive => HelpLabel::Plain("switch active changelist (or unassigned)"),
        BindingId::Back => HelpLabel::Back,
        BindingId::Refresh => HelpLabel::Plain("refresh now"),
        BindingId::Help => HelpLabel::Plain("toggle keybindings"),
        BindingId::Quit => HelpLabel::Plain("quit"),
    }
}

/// One binding record: identity, key spellings (primary first), the
/// capability dispatch and the keybar consult, and the help label.
pub struct Binding {
    pub id: BindingId,
    pub keys: Vec<Key>,
    pub capability: Capability,
    pub help: HelpLabel,
}

/// The record behind an identity — total: every identity has one.
pub fn binding(id: BindingId) -> (r: Binding)
    ensures
        r.id == id,
        r.keys@ == binding_keys(id),
        r.capability == binding_capability(id),
        r.help@ == binding_help(id),
{
    Binding { id, keys: keys_of(id), capability: capability_of(id), help: help_of(id) }
}

// ── matching ────────────────────────────────────────────────────────

/// ASCII case-insensitive character equality — `eq_ignore_ascii_case`.
pub open spec fn same_ignoring_ascii_case(a: char, b: char) -> bool {
    let x = a as u32;
    let y = b as u32;
    ||| x == y
    ||| (0x41 <= x <= 0x5a && x + 0x20 == y)
    ||| (0x41 <= y <= 0x5a && y + 0x20 == x)
}

pub open spec fn is_panel_digit(c: char) -> bool {
    exists|p: Panel| panel_number(p) == c
}

pub open spec fn key_matches(k: Key, e: KeyEvent) -> bool {
    let ctrl = ctrl_of(e);
    match k {
        Key::Char(c) => !ctrl && e.code == KeyCode::Char(c),
        Key::Ctrl(c) => ctrl && (e.code matches KeyCode::Char(x) && same_ignoring_ascii_case(x, c)),
        Key::Enter => e.code == KeyCode::Enter,
        Key::Esc => e.code == KeyCode::Esc,
        Key::Down => e.code == KeyCode::Down,
        Key::Up => e.code == KeyCode::Up,
        Key::PageDown => e.code == KeyCode::PageDown,
        Key::PageUp => e.code == KeyCode::PageUp,
        Key::PanelDigit => !ctrl && (e.code matches KeyCode::Char(x) && is_panel_digit(x)),
    }
}

/// Whether one of `keys` matches `e`.
pub open spec fn any_key_matches(keys: Seq<Key>, e: KeyEvent) -> bool
    decreases keys.len(),
{
    keys.len() > 0 && (key_matches(keys[0], e) || any_key_matches(keys.drop_first(), e))
}

pub proof fn lemma_any_key_matches(keys: Seq<Key>, e: KeyEvent)
    ensures
        any_key_matches(keys, e) <==> exists|i: int| 0 <= i < keys.len() && key_matches(#[trigger] keys[i], e),
    decreases keys.len(),
{
    if keys.len() > 0 {
        lemma_any_key_matches(keys.drop_first(), e);
        if exists|i: int| 0 <= i < keys.len() && key_matches(#[trigger] keys[i], e) {
            let i = choose|i: int| 0 <= i < keys.len() && key_matches(#[trigger] keys[i], e);
            if i > 0 {
                assert(keys.drop_first()[i - 1] == keys[i]);
            }
        }
        if any_key_matches(keys.drop_first(), e) {
            let i = choose|i: int| 0 <= i < keys.drop_first().len() && key_matches(#[trigger] keys.drop_first()[i], e);
            assert(keys[i + 1] == keys.drop_first()[i]);
        }
    }
}

/// Whether one of the binding's keys matches `e`.
pub open spec fn binding_answers(id: BindingId, e: KeyEvent) -> bool {
    any_key_matches(binding_keys(id), e)
}

/// The first record, in table order, one of whose keys matches `e`.
pub open spec fn first_binding(ids: Seq<BindingId>, e: KeyEvent) -> Option<BindingId>
    decreases ids.len(),
{
    if ids.len() == 0 {
        None
    } else if binding_answers(ids[0], e) {
        Some(ids[0])
    } else {
        first_binding(ids.drop_first(), e)
    }
}

/// The record a key event resolves to, if any.
pub open spec fn resolve_key(e: KeyEvent) -> Option<BindingId> {
    first_binding(binding_order(), e)
}

fn control(e: KeyEvent) -> (r: bool)
    ensures
        r == ctrl_of(e),
{
    matches!(e.modifiers, KeyModifiers::CONTROL | KeyModifiers::CONTROL_SHIFT)
}

fn eq_ignore_ascii_case(a: char, b: char) -> (r: bool)
    ensures
        r == same_ignoring_ascii_case(a, b),
{
    let x = a as u32;
    let y = b as u32;
    x == y || (0x41 <= x && x <= 0x5a && x + 0x20 == y) || (0x41 <= y && y <= 0x5a && y + 0x20 == x)
}

impl Key {
    pub fn matches(self, e: KeyEvent) -> (r: bool)
        ensures
            r == key_matches(self, e),
    {
        let ctrl = control(e);
        match self {
            Key::Char(c) => !ctrl && e.code == KeyCode::Char(c),
            Key::Ctrl(c) => ctrl && match e.code {
                KeyCode::Char(k) => eq_ignore_ascii_case(k, c),
                _ => false,
            },
            Key::Enter => e.code == KeyCode::Enter,
            Key::Esc => e.code == KeyCode::Esc,
            Key::Down => e.code == KeyCode::Down,
            Key::Up => e.code == KeyCode::Up,
            Key::PageDown => e.code == KeyCode::PageDown,
            Key::PageUp => e.code == KeyCode::PageUp,
            Key::PanelDigit => !ctrl && match e.code {
                KeyCode::Char(c) => Panel::from_number(c).is_some(),
                _ => false,
            },
        }
    }
}

fn answers(id: BindingId, e: KeyEvent) -> (r: bool)
    ensures
        r == binding_answers(id, e),
{
    let keys = keys_of(id);
    proof {
        lemma_any_key_matches(binding_keys(id), e);
    }
    let mut i: usize = 0;
    while i < keys.len()
        invariant
            keys@ == binding_keys(id),
            i <= keys.len(),
            forall|j: int| 0 <= j < i ==> !key_matches(#[trigger] keys@[j], e),
            any_key_matches(binding_keys(id), e) <==> exists|j: int| 0 <= j < binding_keys(id).len() && key_matches(#[trigger] binding_keys(id)[j], e),
        decreases keys.len() - i,
    {
        if keys[i].matches(e) {
            return true;
        }
        i = i + 1;
    }
    false
}

/// The record a key event resolves to, if any. Unbound keys are nobody's
/// business — dispatch drops them.
pub fn binding_for(e: KeyEvent) -> (r: Option<BindingId>)
    ensures
        r == resolve_key(e),
{
    let ids = binding_ids();
    let mut i: usize = 0;
    assert(binding_order().skip(0) =~= binding_order());
    while i < ids.len()
        invariant
            ids@ == binding_order(),
            i <= ids.len(),
            first_binding(binding_order(), e) == first_binding(binding_order().skip(i as int), e),
        decreases ids.len() - i,
    {
        let ghost rest = binding_order().skip(i as int);
        assert(rest.drop_first() =~= binding_order().skip(i + 1));
        assert(rest[0] == ids@[i as int]);
        if answers(ids[i], e) {
            return Some(ids[i]);
        }
        i = i + 1;
    }
    assert(binding_order().skip(i as int) =~= Seq::<BindingId>::empty());
    None
}

// ── spellings ───────────────────────────────────────────────────────

/// The least panel number among `ps`.
pub open spec fn least_number(ps: Seq<Panel>) -> char
    decreases ps.len(),
{
    if ps.len() <= 1 {
        panel_number(ps[0])
    } else {
        let rest = least_number(ps.drop_last());
        if panel_number(ps.last()) < rest { panel_number(ps.last()) } else { rest }
    }
}

/// The greatest panel number among `ps`.
pub open spec fn greatest_number(ps: Seq<Panel>) -> char
    decreases ps.len(),
{
    if ps.len() <= 1 {
        panel_number(ps[0])
    } else {
        let rest = greatest_number(ps.drop_last());
        if panel_number(ps.last()) > rest { panel_number(ps.last()) } else { rest }
    }
}

/// The least panel number above `floor` among `ps` (`floor` itself when
/// there is none).
pub open spec fn least_number_above(ps: Seq<Panel>, floor: char) -> char
    decreases ps.len(),
{
    if ps.len() == 0 {
        floor
    } else {
        let rest = least_number_above(ps.drop_last(), floor);
        let n = panel_number(ps.last());
        if n > floor && (rest == floor || n < rest) { n } else { rest }
    }
}

/// The bar's compact panel-digit span: lowest to highest digit.
pub open spec fn panels_bar_text() -> Seq<char> {
    seq![least_number(all_panels()), '-', greatest_number(all_panels())]
}

/// The help register's explanatory span: when `0` is a panel digit, the
/// run of the others and the off-run `0` named last.
pub open spec fn panels_help_text() -> Seq<char> {
    if least_number(all_panels()) == '0' {
        seq![least_number_above(all_panels(), '0'), '-', greatest_number(all_panels())] + ", 0"@
    } else {
        panels_bar_text()
    }
}

/// The panel digits in ascending order: each panel's number once.
pub fn panel_digits() -> (r: Vec<char>)
    ensures
        forall|i: int, j: int| 0 <= i < j < r@.len() ==> r@[i] < r@[j],
        forall|p: Panel| r@.contains(#[trigger] panel_number(p)),
        forall|i: int| 0 <= i < r@.len() ==> is_panel_digit(#[trigger] r@[i]),
{
    let digits = ['0', '1', '2', '3', '4', '5', '6', '7', '8', '9'];
    let mut out: Vec<char> = Vec::new();
    let mut i: usize = 0;
    while i < 10
        invariant
            digits@ == seq!['0', '1', '2', '3', '4', '5', '6', '7', '8', '9'],
            i <= 10,
            forall|a: int, b: int| 0 <= a < b < out@.len() ==> out@[a] < out@[b],
            forall|a: int| 0 <= a < out@.len() ==> is_panel_digit(#[trigger] out@[a]),
            forall|a: int| 0 <= a < out@.len() ==> ((#[trigger] out@[a]) as u32) < 48 + i,
            forall|p: Panel| (panel_number(p) as u32) < 48 + i ==> out@.contains(#[trigger] panel_number(p)),
        decreases 10 - i,
    {
        let c = digits[i];
        assert(c as u32 == 48 + i);
        let found = Panel::from_number(c);
        if found.is_some() {
            assert(panel_number(found.unwrap()) == c);
            assert(is_panel_digit(c));
            let ghost before = out@;
            out.push(c);
            assert forall|p: Panel| (panel_number(p) as u32) < 48 + i + 1 implies out@.contains(#[trigger] panel_number(p)) by {
                if (panel_number(p) as u32) < 48 + i {
                    let k = choose|k: int| 0 <= k < before.len() && before[k] == panel_number(p);
                    assert(out@[k] == panel_number(p));
                } else {
                    assert(out@[out@.len() - 1] == panel_number(p));
                }
            }
        } else {
            assert forall|p: Panel| (panel_number(p) as u32) < 48 + i + 1 implies out@.contains(#[trigger] panel_number(p)) by {
                assert(panel_number(p) != c);
            }
        }
        i = i + 1;
    }
    assert forall|p: Panel| out@.contains(#[trigger] panel_number(p)) by {
        assert((panel_number(p) as u32) < 58);
    }
    out
}

fn panel_digit_bounds() -> (r: (char, char, char))
    ensures
        r.0 == least_number(all_panels()),
        r.1 == greatest_number(all_panels()),
        r.2 == least_number_above(all_panels(), least_number(all_panels())),
{
    let all = Panel::ALL;
    let mut lo = all[0].number();
    let mut hi = all[0].number();
    let mut i: usize = 1;
    while i < 6
        invariant
            all@ == all_panels(),
            1 <= i <= 6,
            lo == least_number(all_panels().take(i as int)),
            hi == greatest_number(all_panels().take(i as int)),
        decreases 6 - i,
    {
        assert(all_panels().take(i + 1).drop_last() =~= all_panels().take(i as int));
        let n = all[i].number();
        if n < lo {
            lo = n;
        }
        if n > hi {
            hi = n;
        }
        i = i + 1;
    }
    assert(all_panels().take(6) =~= all_panels());
    let mut above = lo;
    let mut j: usize = 0;
    while j < 6
        invariant
            all@ == all_panels(),
            j <= 6,
            above == least_number_above(all_panels().take(j as int), lo),
        decreases 6 - j,
    {
        assert(all_panels().take(j + 1).drop_last() =~= all_panels().take(j as int));
        let n = all[j].number();
        if n > lo && (above == lo || n < above) {
            above = n;
        }
        j = j + 1;
    }
    (lo, hi, above)
}

pub fn panels_bar_spelling() -> (r: String)
    ensures
        r@ == panels_bar_text(),
{
    let (lo, hi, _) = panel_digit_bounds();
    let mut r = String::new();
    push_char(&mut r, lo);
    push_char(&mut r, '-');
    push_char(&mut r, hi);
    assert(r@ =~= panels_bar_text());
    r
}

pub fn panels_help_spelling() -> (r: String)
    ensures
        r@ == panels_help_text(),
{
    let (lo, hi, above) = panel_digit_bounds();
    if lo == '0' {
        let mut r = String::new();
        push_char(&mut r, above);
        push_char(&mut r, '-');
        push_char(&mut r, hi);
        r.append(", 0");
        assert(r@ =~= panels_help_text());
        r
    } else {
        panels_bar_spelling()
    }
}

pub open spec fn key_spelling(k: Key, register: Register) -> Seq<char> {
    match k {
        Key::Char(c) => if c == ' ' { "space"@ } else { seq![c] },
        Key::Ctrl(c) => "ctrl+"@ + seq![c],
        Key::Enter => "enter"@,
        Key::Esc => "esc"@,
        Key::Down => "↓"@,
        Key::Up => "↑"@,
        Key::PageDown => "PgDn"@,
        Key::PageUp => "PgUp"@,
        Key::PanelDigit => match register {
            Register::Bar => panels_bar_text(),
            Register::Help => panels_help_text(),
        },
    }
}

impl Key {
    pub fn spelling(self, register: Register) -> (r: String)
        ensures
            r@ == key_spelling(self, register),
    {
        match self {
            Key::Char(c) => {
                if c == ' ' {
                    owned("space")
                } else {
                    let mut r = String::new();
                    push_char(&mut r, c);
                    assert(r@ =~= seq![c]);
                    r
                }
            },
            Key::Ctrl(c) => {
                let mut r = owned("ctrl+");
                push_char(&mut r, c);
                r
            },
            Key::Enter => owned("enter"),
            Key::Esc => owned("esc"),
            Key::Down => owned("↓"),
            Key::Up => owned("↑"),
            Key::PageDown => owned("PgDn"),
            Key::PageUp => owned("PgUp"),
            Key::PanelDigit => match register {
                Register::Bar => panels_bar_spelling(),
                Register::Help => panels_help_spelling(),
            },
        }
    }
}

/// The bar spelling of an editorial mention: each member's primary key,
/// joined with `/`.
pub open spec fn bar_text(ids: Seq<BindingId>) -> Seq<char> {
    joined(ids.map_values(|id: BindingId| key_spelling(binding_keys(id)[0], Register::Bar)), "/"@)
}

pub fn bar_spelling(ids: &Vec<BindingId>) -> (r: String)
    ensures
        r@ == bar_text(ids@),
{
    let mut parts: Vec<String> = Vec::new();
    let mut i: usize = 0;
    while i < ids.len()
        invariant
            i <= ids.len(),
            parts.len() == i,
            forall|j: int| 0 <= j < i ==> (#[trigger] parts@[j])@ == key_spelling(binding_keys(ids@[j])[0], Register::Bar),
        decreases ids.len() - i,
    {
        let keys = keys_of(ids[i]);
        parts.push(keys[0].spelling(Register::Bar));
        i = i + 1;
    }
    assert(strings_view(parts@) =~= ids@.map_values(|id: BindingId| key_spelling(binding_keys(id)[0], Register::Bar)));
    join(&parts, "/")
}

// ── the help overlay ────────────────────────────────────────────────

/// The label as the help overlay shows it; `arrow` is the theme's drill
/// glyph.
pub open spec fn help_label_text(label: HelpLabelView, arrow: char) -> Seq<char> {
    let a = seq![' ', arrow, ' '];
    match label {
        HelpLabelView::Plain(t) => t,
        HelpLabelView::DrillIn => "drill in: "@ + joined(seq!["changelist"@, "files"@, "hunk mode"@], a),
        HelpLabelView::Back => "back ("@ + joined(seq!["diff"@, "files"@, "changelists"@, "all"@], a) + ")"@,
        HelpLabelView::PanelFocus => "focus panel ("@ + seq![panel_number(Panel::Diff)] + " = diff)"@,
    }
}

impl HelpLabel {
    fn same(self, other: HelpLabel) -> (r: bool)
        ensures
            r == (self@ == other@),
    {
        match (self, other) {
            (HelpLabel::Plain(a), HelpLabel::Plain(b)) => crate::text::same_text(a, b),
            (HelpLabel::DrillIn, HelpLabel::DrillIn) => true,
            (HelpLabel::Back, HelpLabel::Back) => true,
            (HelpLabel::PanelFocus, HelpLabel::PanelFocus) => true,
            _ => false,
        }
    }

    pub fn render(self, arrow: char) -> (r: String)
        ensures
            r@ == help_label_text(self@, arrow),
    {
        let mut sep = String::new();
        push_char(&mut sep, ' ');
        push_char(&mut sep, arrow);
        push_char(&mut sep, ' ');
        assert(sep@ =~= seq![' ', arrow, ' ']);
        match self {
            HelpLabel::Plain(text) => owned(text),
            HelpLabel::DrillIn => {
                let parts = vec![owned("changelist"), owned("files"), owned("hunk mode")];
                assert(strings_view(parts@) =~= seq!["changelist"@, "files"@, "hunk mode"@]);
                let mut r = owned("drill in: ");
                r.append(join(&parts, sep.as_str()).as_str());
                r
            },
            HelpLabel::Back => {
                let parts = vec![owned("diff"), owned("files"), owned("changelists"), owned("all")];
                assert(strings_view(parts@) =~= seq!["diff"@, "files"@, "changelists"@, "all"@]);
                let mut r = owned("back (");
                r.append(join(&parts, sep.as_str()).as_str());
                r.append(")");
                r
            },
            HelpLabel::PanelFocus => {
                let mut r = owned("focus panel (");
                push_char(&mut r, Panel::Diff.number());
                r.append(" = diff)");
                r
            },
        }
    }
}

/// Consecutive records sharing a help label, merged into one group each.
pub open spec fn help_groups(ids: Seq<BindingId>) -> Seq<Seq<BindingId>>
    decreases ids.len(),
{
    if ids.len() == 0 {
        Seq::empty()
    } else {
        let groups = help_groups(ids.drop_last());
        let b = ids.last();
        if groups.len() > 0 && binding_help(groups.last()[0]) == binding_help(b) {
            groups.update(groups.len() - 1, groups.last().push(b))
        } else {
            groups.push(seq![b])
        }
    }
}

/// The most keys any member of `group` has.
pub open spec fn key_positions(group: Seq<BindingId>) -> nat
    decreases group.len(),
{
    if group.len() == 0 {
        0
    } else {
        let rest = key_positions(group.drop_last());
        let n = binding_keys(group.last()).len();
        if n > rest { n } else { rest }
    }
}

/// The help spellings of the members' keys at one position, in order.
pub open spec fn position_spellings(group: Seq<BindingId>, position: int) -> Seq<Seq<char>>
    decreases group.len(),
{
    if group.len() == 0 {
        Seq::empty()
    } else {
        let rest = position_spellings(group.drop_last(), position);
        let keys = binding_keys(group.last());
        if position < keys.len() { rest.push(key_spelling(keys[position], Register::Help)) } else { rest }
    }
}

/// A help row's keys: `/` within a position, two blanks between
/// positions (a comma is itself a bound key).
pub open spec fn group_spelling(group: Seq<BindingId>) -> Seq<char> {
    joined(
        Seq::new(key_positions(group), |p: int| joined(position_spellings(group, p), "/"@)),
        "  "@,
    )
}

pub open spec fn help_rows_text(arrow: char) -> Seq<(Seq<char>, Seq<char>)> {
    help_groups(binding_order()).map_values(
        |g: Seq<BindingId>| (group_spelling(g), help_label_text(binding_help(g[0]), arrow)),
    )
}

pub open spec fn pairs_view(rows: Seq<(String, String)>) -> Seq<(Seq<char>, Seq<char>)> {
    rows.map_values(|row: (String, String)| (row.0@, row.1@))
}

pub open spec fn groups_view(gs: Seq<Vec<BindingId>>) -> Seq<Seq<BindingId>> {
    gs.map_values(|g: Vec<BindingId>| g@)
}

fn render_group(group: &Vec<BindingId>) -> (r: String)
    ensures
        r@ == group_spelling(group@),
{
    let mut positions: usize = 0;
    let mut i: usize = 0;
    while i < group.len()
        invariant
            i <= group.len(),
            positions == key_positions(group@.take(i as int)),
            positions <= 2,
        decreases group.len() - i,
    {
        assert(group@.take(i + 1).drop_last() =~= group@.take(i as int));
        let n = keys_of(group[i]).len();
        if n > positions {
            positions = n;
        }
        i = i + 1;
    }
    assert(group@.take(group.len() as int) =~= group@);
    let mut spellings: Vec<String> = Vec::new();
    let mut p: usize = 0;
    while p < positions
        invariant
            positions == key_positions(group@),
            p <= positions,
            spellings.len() == p,
            forall|q: int| 0 <= q < p ==> (#[trigger] spellings@[q])@ == joined(position_spellings(group@, q), "/"@),
        decreases positions - p,
    {
        let mut parts: Vec<String> = Vec::new();
        let mut k: usize = 0;
        while k < group.len()
            invariant
                k <= group.len(),
                strings_view(parts@) =~= position_spellings(group@.take(k as int), p as int),
            decreases group.len() - k,
        {
            assert(group@.take(k + 1).drop_last() =~= group@.take(k as int));
            let keys = keys_of(group[k]);
            if p < keys.len() {
                parts.push(keys[p].spelling(Register::Help));
            }
            k = k + 1;
        }
        assert(group@.take(group.len() as int) =~= group@);
        spellings.push(join(&parts, "/"));
        p = p + 1;
    }
    assert(strings_view(spellings@) =~= Seq::new(key_positions(group@), |q: int| joined(position_spellings(group@, q), "/"@)));
    join(&spellings, "  ")
}

/// The help overlay's rows in table order: every spelling of every
/// binding, consecutive same-label records merged into one row
/// (`j/k  ↓/↑`). `arrow` is the theme's drill glyph.
pub fn help_rows(arrow: char) -> (r: Vec<(String, String)>)
    ensures
        pairs_view(r@) == help_rows_text(arrow),
{
    let ids = binding_ids();
    let mut groups: Vec<Vec<BindingId>> = Vec::new();
    let mut i: usize = 0;
    while i < ids.len()
        invariant
            ids@ == binding_order(),
            i <= ids.len(),
            groups_view(groups@) =~= help_groups(binding_order().take(i as int)),
            forall|j: int| 0 <= j < groups.len() ==> (#[trigger] groups@[j])@.len() > 0,
        decreases ids.len() - i,
    {
        let ghost before = groups_view(groups@);
        assert(binding_order().take(i + 1).drop_last() =~= binding_order().take(i as int));
        let id = ids[i];
        let n = groups.len();
        let merge = n > 0 && help_of(groups[n - 1][0]).same(help_of(id));
        if merge {
            let mut last = groups.pop().unwrap();
            last.push(id);
            groups.push(last);
            assert(groups_view(groups@) =~= before.update(before.len() - 1, before.last().push(id)));
        } else {
            let single = vec![id];
            assert(single@ =~= seq![id]);
            groups.push(single);
            assert(groups_view(groups@) =~= before.push(seq![id]));
        }
        i = i + 1;
    }
    assert(binding_order().take(ids.len() as int) =~= binding_order());
    let mut rows: Vec<(String, String)> = Vec::new();
    let mut k: usize = 0;
    while k < groups.len()
        invariant
            groups_view(groups@) =~= help_groups(binding_order()),
            forall|j: int| 0 <= j < groups.len() ==> (#[trigger] groups@[j])@.len() > 0,
            k <= groups.len(),
            rows.len() == k,
            forall|j: int| 0 <= j < k ==> ((#[trigger] rows@[j]).0@, rows@[j].1@) == (
                group_spelling(groups@[j]@),
                help_label_text(binding_help(groups@[j]@[0]), arrow),
            ),
        decreases groups.len() - k,
    {
        let g = &groups[k];
        assert(g@.len() > 0);
        let spelling = render_group(g);
        let label = help_of(g[0]).render(arrow);
        rows.push((spelling, label));
        k = k + 1;
    }
    assert(pairs_view(rows@) =~= help_rows_text(arrow)) by {
        assert forall|j: int| 0 <= j < rows.len() implies
            #[trigger] pairs_view(rows@)[j] == help_rows_text(arrow)[j] by {
            assert(help_groups(binding_order())[j] == groups_view(groups@)[j]);
        }
    }
    rows
}

} // verus!
