//! The assign trio's payloads and the assign popup: what each key
//! reaches, how a payload resolves against the snapshot, the popup's
//! rows, and the subject line that states the payload before it lands.

use vstd::prelude::*;
use crate::app::{Action, ActionView, App, AppView, Op, OpView};
use crate::model::{
    conflicted_hint, conflicted_hint_text, coords_text, duplicate_hunks, hunks_view, quote, quoted,
    unassigned_label, ChangeKind, ChangedFile, Hunk, HunkView,
};
use crate::overlay::{
    assign_rows_view, payload_path, AssignPayload, AssignPayloadView, AssignRow, AssignRowView,
    AssignTarget, AssignTargetView, Overlay, OverlayView,
};
use crate::panel::Panel;
use crate::status::{logged, Severity};
use crate::text::{
    count_noun, count_noun_text, decimal, join, joined, opt_view, owned, same_opt_text, same_text,
    strings_view, usize_decimal,
};
use crate::view::{
    collect_owned, first_with_path, group_label, group_owner, is_active, lemma_first_with_path,
    owned_hunks, scope_owner, Group,
};
use crate::view_model::{lemma_first_with_prefix, scope_of, selected_file_of};

verus! {

// ── payloads ────────────────────────────────────────────────────────

/// What `a` assigns: the Files row's group-owned hunks from the Files
/// panel, the hunk-mode selection otherwise — blurred ones included.
pub open spec fn assign_payload_of(a: AppView) -> Option<AssignPayloadView> {
    if a.focus == Panel::Files {
        match a.file_sel {
            Some(e) => Some(AssignPayloadView::FileRow(e)),
            None => None,
        }
    } else {
        match (a.hunk_sel, selected_file_of(a)) {
            (Some(i), Some(f)) => if i < f.hunks@.len() {
                Some(AssignPayloadView::Hunk { path: f.path@, hunk: f.hunks@[i as int]@ })
            } else {
                None
            },
            _ => None,
        }
    }
}

/// The file the file-scoped assign keys act on: the Files selection.
pub open spec fn assign_path_of(a: AppView) -> Option<Seq<char>> {
    match selected_file_of(a) {
        Some(f) => Some(f.path@),
        None => None,
    }
}

/// A payload against the current snapshot: its path and hunks. A
/// selected hunk resolves to itself; the file scopes need the file, and
/// a Files row needs a group that owns hunks.
pub open spec fn resolved(a: AppView, p: AssignPayloadView) -> Option<(Seq<char>, Seq<HunkView>)> {
    match a.snapshot {
        None => None,
        Some(s) => {
            let path = payload_path(p);
            let file = first_with_path(s.files@, path);
            match p {
                AssignPayloadView::Hunk { hunk, .. } => Some((path, seq![hunk])),
                AssignPayloadView::AllHunks { .. } => match file {
                    Some(i) => Some((path, hunks_view(s.files@[i].hunks@))),
                    None => None,
                },
                AssignPayloadView::UnassignedHunks { .. } => match file {
                    Some(i) => Some((path, hunks_view(owned_hunks(s.files@[i].hunks@, None)))),
                    None => None,
                },
                AssignPayloadView::FileRow(e) => match (file, group_owner(e.group)) {
                    (Some(i), Some(owner)) => Some((path, hunks_view(owned_hunks(s.files@[i].hunks@, owner)))),
                    _ => None,
                },
            }
        },
    }
}

/// Whether some file at `path` is conflicted.
pub open spec fn conflicted_at(files: Seq<ChangedFile>, path: Seq<char>) -> bool
    decreases files.len(),
{
    if files.len() == 0 {
        false
    } else {
        conflicted_at(files.drop_last(), path)
            || (files.last().path@ == path && files.last().kind == ChangeKind::Conflicted)
    }
}

/// Why nothing opened, in the Log's voice: which scope came up empty on
/// which file — or, on a quarantined path, that it is conflicted.
pub open spec fn empty_payload_text(a: AppView, p: AssignPayloadView) -> Seq<char> {
    let path = payload_path(p);
    let conflicted = match a.snapshot {
        Some(s) => conflicted_at(s.files@, path),
        None => false,
    };
    if conflicted {
        conflicted_hint_text(path)
    } else {
        match p {
            AssignPayloadView::FileRow(e) => "no hunks in '"@ + group_label(e.group) + "' for "@ + path
                + " — nothing to assign"@,
            AssignPayloadView::UnassignedHunks { .. } => "no unassigned hunks in "@ + path + " — nothing to assign"@,
            _ => "no hunks in "@ + path + " — nothing to assign"@,
        }
    }
}

/// The popup opened over a payload with hunks in it; an empty payload is
/// a polite no-op with a Log line.
pub open spec fn assign_opened(a: AppView, p: AssignPayloadView) -> AppView {
    let count = match resolved(a, p) {
        Some((_, hs)) => hs.len(),
        None => 0,
    };
    if count > 0 {
        AppView { overlay: Some(OverlayView::Assign { payload: p, row: 0 }), ..a }
    } else {
        AppView { log: logged(a.log, Severity::Info, empty_payload_text(a, p)), ..a }
    }
}

/// The assign op for a confirmed payload and target; nothing when the
/// payload no longer resolves to any hunk.
pub open spec fn assign_op_of(a: AppView, p: AssignPayloadView, target: AssignTargetView) -> Option<ActionView> {
    match resolved(a, p) {
        Some((path, hs)) => if hs.len() > 0 {
            Some(ActionView::Op(OpView::Assign { path, hunks: hs, target }))
        } else {
            None
        },
        None => None,
    }
}

// ── the popup's rows ────────────────────────────────────────────────

/// The assign popup's rows: every changelist (the active one marked),
/// then unassigned, then the create-new escape hatch.
pub open spec fn assign_rows_of(a: AppView) -> Seq<AssignRowView> {
    let named = match a.snapshot {
        Some(s) => s.changelists@.map_values(|c: crate::model::Changelist| AssignRowView::Changelist {
            name: c.name@,
            active: is_active(s, c.name@),
        }),
        None => Seq::empty(),
    };
    named + seq![AssignRowView::Unassigned, AssignRowView::CreateNew]
}

// ── the subject line ────────────────────────────────────────────────

/// The owner an assign payload is stated relative to: the drilled scope's,
/// or in the All view the selected row's group; `None` when no owner is
/// in view.
pub open spec fn assign_owner_of(a: AppView) -> Option<Option<Seq<char>>> {
    match scope_owner(scope_of(a)) {
        Some(o) => Some(o),
        None => match a.file_sel {
            Some(e) => group_owner(e.group),
            None => None,
        },
    }
}

/// A foreign hunk's source as the popup names it.
pub open spec fn source_label(h: HunkView) -> Seq<char> {
    match h.changelist {
        Some(n) => quoted(n),
        None => "unassigned"@,
    }
}

/// The first source named `label`.
pub open spec fn source_index(srcs: Seq<(Seq<char>, nat)>, label: Seq<char>) -> Option<int>
    decreases srcs.len(),
{
    if srcs.len() == 0 {
        None
    } else {
        match source_index(srcs.drop_last(), label) {
            Some(i) => Some(i),
            None => if srcs.last().0 == label { Some(srcs.len() - 1) } else { None },
        }
    }
}

/// One more hunk from `label`: counted on its entry, or a new entry last.
pub open spec fn with_source(srcs: Seq<(Seq<char>, nat)>, label: Seq<char>) -> Seq<(Seq<char>, nat)> {
    match source_index(srcs, label) {
        Some(i) => srcs.update(i, (label, srcs[i].1 + 1)),
        None => srcs.push((label, 1)),
    }
}

/// The sources of the hunks `owner` does not own, with counts, in
/// first-seen order.
pub open spec fn foreign_sources(hs: Seq<HunkView>, owner: Option<Seq<char>>) -> Seq<(Seq<char>, nat)>
    decreases hs.len(),
{
    if hs.len() == 0 {
        Seq::empty()
    } else {
        let prev = foreign_sources(hs.drop_last(), owner);
        if hs.last().changelist == owner { prev } else { with_source(prev, source_label(hs.last())) }
    }
}

/// The payload's foreign sources relative to [`assign_owner_of`].
pub open spec fn provenance_of(a: AppView, hs: Seq<HunkView>) -> Seq<(Seq<char>, nat)> {
    match assign_owner_of(a) {
        Some(owner) => foreign_sources(hs, owner),
        None => Seq::empty(),
    }
}

pub open spec fn source_text(src: (Seq<char>, nat), single: bool) -> Seq<char> {
    if single { "from "@ + src.0 } else { decimal(src.1) + " from "@ + src.0 }
}

pub open spec fn source_texts(srcs: Seq<(Seq<char>, nat)>, single: bool) -> Seq<Seq<char>> {
    srcs.map_values(|src: (Seq<char>, nat)| source_text(src, single))
}

/// The assign popup's subject line: how many hunks, in which file, at
/// which coordinates for a single selected hunk, and which other
/// changelists they come out of.
pub open spec fn assign_description_text(a: AppView, p: AssignPayloadView) -> Seq<char> {
    match resolved(a, p) {
        None => empty_payload_text(a, p),
        Some((path, hs)) => {
            let unassigned = p is UnassignedHunks;
            let noun = if unassigned { "unassigned hunk"@ } else { "hunk"@ };
            let srcs = if unassigned { Seq::empty() } else { provenance_of(a, hs) };
            let coords = match p {
                AssignPayloadView::Hunk { hunk, .. } => " @@ "@ + coords_text('-', hunk.old_start, hunk.old_lines)
                    + " "@ + coords_text('+', hunk.new_start, hunk.new_lines),
                _ => Seq::empty(),
            };
            let tail = if srcs.len() > 0 {
                " ("@ + joined(source_texts(srcs, hs.len() == 1), ", "@) + ")"@
            } else {
                Seq::empty()
            };
            count_noun_text(hs.len(), noun) + " in "@ + path + coords + tail
        },
    }
}

pub open spec fn sources_view(v: Seq<(String, usize)>) -> Seq<(Seq<char>, nat)> {
    v.map_values(|s: (String, usize)| (s.0@, s.1 as nat))
}

pub open spec fn resolved_view(r: Option<(String, Vec<Hunk>)>) -> Option<(Seq<char>, Seq<HunkView>)> {
    match r {
        Some((path, hs)) => Some((path@, hunks_view(hs@))),
        None => None,
    }
}

/// The first file of `files` at `path`.
pub fn file_at(files: &Vec<ChangedFile>, path: &str) -> (r: Option<usize>)
    ensures
        match r {
            Some(i) => first_with_path(files@, path@) == Some(i as int) && i < files@.len(),
            None => first_with_path(files@, path@) is None,
        },
{
    let mut i: usize = 0;
    while i < files.len()
        invariant
            i <= files.len(),
            first_with_path(files@.take(i as int), path@) is None,
        decreases files.len() - i,
    {
        assert(files@.take(i + 1).drop_last() =~= files@.take(i as int));
        if same_text(files[i].path.as_str(), path) {
            assert(first_with_path(files@.take(i + 1), path@) == Some(i as int));
            proof {
                lemma_first_with_prefix(files@, path@, i + 1);
            }
            return Some(i);
        }
        i = i + 1;
    }
    assert(files@.take(files.len() as int) =~= files@);
    None
}

fn any_conflicted_at(files: &Vec<ChangedFile>, path: &str) -> (r: bool)
    ensures
        r == conflicted_at(files@, path@),
{
    let mut found = false;
    let mut i: usize = 0;
    while i < files.len()
        invariant
            i <= files.len(),
            found == conflicted_at(files@.take(i as int), path@),
        decreases files.len() - i,
    {
        assert(files@.take(i + 1).drop_last() =~= files@.take(i as int));
        found = found || (files[i].kind == ChangeKind::Conflicted && same_text(files[i].path.as_str(), path));
        i = i + 1;
    }
    assert(files@.take(files.len() as int) =~= files@);
    found
}

fn find_source(srcs: &Vec<(String, usize)>, label: &str) -> (r: Option<usize>)
    ensures
        match r {
            Some(i) => source_index(sources_view(srcs@), label@) == Some(i as int),
            None => source_index(sources_view(srcs@), label@) is None,
        },
{
    let ghost all = sources_view(srcs@);
    let mut i: usize = 0;
    while i < srcs.len()
        invariant
            all == sources_view(srcs@),
            i <= srcs.len(),
            source_index(all.take(i as int), label@) is None,
        decreases srcs.len() - i,
    {
        assert(all.take(i + 1).drop_last() =~= all.take(i as int));
        assert(all.take(i + 1).last() == (srcs@[i as int].0@, srcs@[i as int].1 as nat));
        if same_text(srcs[i].0.as_str(), label) {
            proof {
                lemma_source_prefix(all, label@, i + 1);
            }
            return Some(i);
        }
        i = i + 1;
    }
    assert(all.take(srcs.len() as int) =~= all);
    None
}

proof fn lemma_source_prefix(srcs: Seq<(Seq<char>, nat)>, label: Seq<char>, k: int)
    requires
        0 <= k <= srcs.len(),
        source_index(srcs.take(k), label) is Some,
    ensures
        source_index(srcs, label) == source_index(srcs.take(k), label),
    decreases srcs.len() - k,
{
    if k < srcs.len() {
        assert(srcs.take(k + 1).drop_last() =~= srcs.take(k));
        lemma_source_prefix(srcs, label, k + 1);
    } else {
        assert(srcs.take(k) =~= srcs);
    }
}

proof fn lemma_source_index_in_range(srcs: Seq<(Seq<char>, nat)>, label: Seq<char>)
    ensures
        source_index(srcs, label) matches Some(i) ==> 0 <= i < srcs.len(),
    decreases srcs.len(),
{
    if srcs.len() > 0 {
        lemma_source_index_in_range(srcs.drop_last(), label);
    }
}

/// The sources of the hunks of `hs` that `owner` does not own.
fn collect_sources(hs: &Vec<Hunk>, owner: &Option<String>) -> (r: Vec<(String, usize)>)
    ensures
        sources_view(r@) == foreign_sources(hunks_view(hs@), opt_view(owner)),
{
    let ghost all = hunks_view(hs@);
    let mut srcs: Vec<(String, usize)> = Vec::new();
    let mut i: usize = 0;
    while i < hs.len()
        invariant
            all == hunks_view(hs@),
            i <= hs.len(),
            sources_view(srcs@) =~= foreign_sources(all.take(i as int), opt_view(owner)),
            forall|j: int| 0 <= j < srcs@.len() ==> (#[trigger] srcs@[j]).1 <= i,
        decreases hs.len() - i,
    {
        assert(all.take(i + 1).drop_last() =~= all.take(i as int));
        assert(all.take(i + 1).last() == hs@[i as int]@);
        let h = &hs[i];
        if !same_opt_text(&h.changelist, owner) {
            let label = match &h.changelist {
                Some(name) => quote(name.as_str()),
                None => owned(unassigned_label()),
            };
            let ghost before = srcs@;
            match find_source(&srcs, label.as_str()) {
                Some(k) => {
                    proof {
                        lemma_source_index_in_range(sources_view(before), label@);
                    }
                    let count = srcs[k].1;
                    let ghost label_view = label@;
                    srcs.set(k, (label, count + 1));
                    assert(sources_view(srcs@) =~= sources_view(before).update(k as int, (label_view, count as nat + 1)));
                },
                None => {
                    srcs.push((label, 1));
                    assert(sources_view(srcs@) =~= sources_view(before).push((label@, 1nat)));
                },
            }
        }
        i = i + 1;
    }
    assert(all.take(hs.len() as int) =~= all);
    srcs
}

impl App {
    /// What `a` assigns: the Files row's group-owned hunks from the Files
    /// panel, the hunk-mode selection otherwise.
    pub fn selected_assign_payload(&self) -> (r: Option<AssignPayload>)
        ensures
            match r {
                Some(p) => assign_payload_of(self@) == Some(p@),
                None => assign_payload_of(self@) is None,
            },
    {
        if self.focus == Panel::Files {
            return match &self.file_sel {
                Some(e) => Some(AssignPayload::FileRow(e.duplicate())),
                None => None,
            };
        }
        let index = match self.hunk_sel {
            Some(i) => i,
            None => return None,
        };
        match self.selected_file() {
            Some(file) => if index < file.hunks.len() {
                Some(AssignPayload::Hunk { path: file.path.clone(), hunk: file.hunks[index].duplicate() })
            } else {
                None
            },
            None => None,
        }
    }

    /// The file the file-scoped assign keys act on.
    pub fn assign_file_path(&self) -> (r: Option<String>)
        ensures
            opt_view(&r) == assign_path_of(self@),
    {
        match self.selected_file() {
            Some(file) => Some(file.path.clone()),
            None => None,
        }
    }

    /// Resolve a payload against the current snapshot.
    pub fn resolve_payload(&self, payload: &AssignPayload) -> (r: Option<(String, Vec<Hunk>)>)
        ensures
            resolved_view(r) == resolved(self@, payload@),
    {
        let snapshot = match &self.snapshot {
            Some(s) => s,
            None => return None,
        };
        let path = payload.path();
        let file = file_at(&snapshot.files, path.as_str());
        match payload {
            AssignPayload::Hunk { hunk, .. } => {
                let hs = vec![hunk.duplicate()];
                assert(hunks_view(hs@) =~= seq![hunk@]);
                Some((path.clone(), hs))
            },
            AssignPayload::AllHunks { .. } => match file {
                Some(i) => Some((path.clone(), duplicate_hunks(&snapshot.files[i].hunks))),
                None => None,
            },
            AssignPayload::UnassignedHunks { .. } => match file {
                Some(i) => Some((path.clone(), collect_owned(&snapshot.files[i].hunks, &None))),
                None => None,
            },
            AssignPayload::FileRow(entry) => match (file, entry.group.owner()) {
                (Some(i), Some(owner)) => Some((path.clone(), collect_owned(&snapshot.files[i].hunks, &owner))),
                _ => None,
            },
        }
    }

    /// Why nothing opened for `payload`.
    pub fn empty_payload_reason(&self, payload: &AssignPayload) -> (r: String)
        ensures
            r@ == empty_payload_text(self@, payload@),
    {
        let path = payload.path();
        let conflicted = match &self.snapshot {
            Some(s) => any_conflicted_at(&s.files, path.as_str()),
            None => false,
        };
        if conflicted {
            return conflicted_hint(path.as_str());
        }
        match payload {
            AssignPayload::FileRow(entry) => {
                let mut r = owned("no hunks in '");
                r.append(entry.group.label().as_str());
                r.append("' for ");
                r.append(path.as_str());
                r.append(" — nothing to assign");
                r
            },
            AssignPayload::UnassignedHunks { .. } => {
                let mut r = owned("no unassigned hunks in ");
                r.append(path.as_str());
                r.append(" — nothing to assign");
                r
            },
            _ => {
                let mut r = owned("no hunks in ");
                r.append(path.as_str());
                r.append(" — nothing to assign");
                r
            },
        }
    }

    /// Open the assign popup when the payload has hunks in it; an empty
    /// payload is a polite no-op with a Log line, never an error modal.
    pub fn open_assign(&mut self, payload: AssignPayload)
        ensures
            final(self)@ == assign_opened(old(self)@, payload@),
    {
        let count = match self.resolve_payload(&payload) {
            Some((_, hunks)) => hunks.len(),
            None => 0,
        };
        if count > 0 {
            self.overlay = Some(Overlay::Assign { payload, row: 0 });
        } else {
            let reason = self.empty_payload_reason(&payload);
            self.push_log(Severity::Info, reason.as_str());
        }
    }

    /// Resolve a payload and emit the assign op; a payload that no longer
    /// resolves to any hunk closes silently.
    pub fn assign_op(&self, payload: &AssignPayload, target: AssignTarget) -> (r: Option<Action>)
        ensures
            match r {
                Some(a) => assign_op_of(self@, payload@, target@) == Some(a@),
                None => assign_op_of(self@, payload@, target@) is None,
            },
    {
        let (path, hunks) = match self.resolve_payload(payload) {
            Some(x) => x,
            None => return None,
        };
        if hunks.len() == 0 {
            return None;
        }
        Some(Action::Op(Op::Assign { path, hunks, target }))
    }

    /// The assign popup's rows: every changelist, the active one marked,
    /// then unassigned, then the create-new escape hatch.
    pub fn assign_rows(&self) -> (r: Vec<AssignRow>)
        ensures
            assign_rows_view(r@) == assign_rows_of(self@),
    {
        let mut rows: Vec<AssignRow> = Vec::new();
        if let Some(snapshot) = &self.snapshot {
            let cls = &snapshot.changelists;
            let mut i: usize = 0;
            while i < cls.len()
                invariant
                    i <= cls.len(),
                    cls == &snapshot.changelists,
                    assign_rows_view(rows@) =~= cls@.take(i as int).map_values(|c: crate::model::Changelist| AssignRowView::Changelist {
                        name: c.name@,
                        active: is_active(*snapshot, c.name@),
                    }),
                decreases cls.len() - i,
            {
                let name = cls[i].name.clone();
                let active = match &snapshot.active {
                    Some(a) => same_text(a.as_str(), name.as_str()),
                    None => false,
                };
                let ghost before = rows@;
                rows.push(AssignRow::Changelist { name, active });
                assert(assign_rows_view(rows@) =~= assign_rows_view(before).push(rows@[i as int]@));
                i = i + 1;
            }
            assert(cls@.take(cls.len() as int) =~= cls@);
        }
        let ghost named = assign_rows_view(rows@);
        rows.push(AssignRow::Unassigned);
        rows.push(AssignRow::CreateNew);
        assert(assign_rows_view(rows@) =~= named + seq![AssignRowView::Unassigned, AssignRowView::CreateNew]);
        rows
    }

    /// The owner an assign payload is stated relative to.
    fn assign_owner(&self) -> (r: Option<Option<String>>)
        ensures
            match r {
                Some(o) => assign_owner_of(self@) == Some(opt_view(&o)),
                None => assign_owner_of(self@) is None,
            },
    {
        if let Some(owner) = self.scope().owner() {
            return Some(owner);
        }
        match &self.file_sel {
            Some(e) => e.group.owner(),
            None => None,
        }
    }

    /// The payload's foreign sources as `(label, count)` in payload order.
    fn assign_provenance(&self, hunks: &Vec<Hunk>) -> (r: Vec<(String, usize)>)
        ensures
            sources_view(r@) == provenance_of(self@, hunks_view(hunks@)),
    {
        match self.assign_owner() {
            Some(owner) => collect_sources(hunks, &owner),
            None => {
                let r: Vec<(String, usize)> = Vec::new();
                assert(sources_view(r@) =~= Seq::<(Seq<char>, nat)>::empty());
                r
            },
        }
    }

    /// The assign popup's subject line: the payload stated before it
    /// lands — how many hunks, in which file, and which other changelists
    /// they come out of.
    pub fn assign_description(&self, payload: &AssignPayload) -> (r: String)
        ensures
            r@ == assign_description_text(self@, payload@),
    {
        let (path, hunks) = match self.resolve_payload(payload) {
            Some(x) => x,
            None => return self.empty_payload_reason(payload),
        };
        let unassigned = match payload {
            AssignPayload::UnassignedHunks { .. } => true,
            _ => false,
        };
        let srcs = if unassigned {
            let r: Vec<(String, usize)> = Vec::new();
            assert(sources_view(r@) =~= Seq::<(Seq<char>, nat)>::empty());
            r
        } else {
            self.assign_provenance(&hunks)
        };
        let mut line = count_noun(hunks.len(), if unassigned { "unassigned hunk" } else { "hunk" });
        line.append(" in ");
        line.append(path.as_str());
        if let AssignPayload::Hunk { hunk, .. } = payload {
            line.append(" @@ ");
            line.append(hunk.old_coords().as_str());
            line.append(" ");
            line.append(hunk.new_coords().as_str());
        }
        if srcs.len() > 0 {
            let single = hunks.len() == 1;
            let mut parts: Vec<String> = Vec::new();
            let mut i: usize = 0;
            while i < srcs.len()
                invariant
                    i <= srcs.len(),
                    strings_view(parts@) =~= source_texts(sources_view(srcs@), single).take(i as int),
                decreases srcs.len() - i,
            {
                let text = if single {
                    let mut t = owned("from ");
                    t.append(srcs[i].0.as_str());
                    t
                } else {
                    let mut t = usize_decimal(srcs[i].1);
                    t.append(" from ");
                    t.append(srcs[i].0.as_str());
                    t
                };
                let ghost before = parts@;
                parts.push(text);
                assert(strings_view(parts@) =~= strings_view(before).push(text@));
                i = i + 1;
            }
            assert(source_texts(sources_view(srcs@), single).take(srcs.len() as int) =~= source_texts(sources_view(srcs@), single));
            line.append(" (");
            line.append(join(&parts, ", ").as_str());
            line.append(")");
        }
        line
    }
}

} // verus!
