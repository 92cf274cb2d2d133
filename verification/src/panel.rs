//! The lazygit-style panel stack and the per-panel heights of the last
//! drawn frame.

use vstd::prelude::*;

verus! {

/// The lazygit-style panel stack: `1-5` plus the dominant `0` Diff.
#[derive(Debug, Clone, Copy, PartialEq, Eq, Structural)]
pub enum Panel {
    Status,
    Changelists,
    Files,
    Commits,
    Diff,
    Log,
}

/// The panel a digit key focuses, if any.
pub open spec fn panel_for(c: char) -> Option<Panel> {
    if c == '1' {
        Some(Panel::Status)
    } else if c == '2' {
        Some(Panel::Changelists)
    } else if c == '3' {
        Some(Panel::Files)
    } else if c == '4' {
        Some(Panel::Commits)
    } else if c == '0' {
        Some(Panel::Diff)
    } else if c == '5' {
        Some(Panel::Log)
    } else {
        None
    }
}

/// The digit a panel answers to and shows in its border.
pub open spec fn panel_number(p: Panel) -> char {
    match p {
        Panel::Status => '1',
        Panel::Changelists => '2',
        Panel::Files => '3',
        Panel::Commits => '4',
        Panel::Diff => '0',
        Panel::Log => '5',
    }
}

/// A panel's slot in [`Panel::ALL`].
pub open spec fn panel_slot(p: Panel) -> int {
    match p {
        Panel::Status => 0,
        Panel::Changelists => 1,
        Panel::Files => 2,
        Panel::Commits => 3,
        Panel::Diff => 4,
        Panel::Log => 5,
    }
}

/// Every panel, in slot order.
pub open spec fn all_panels() -> Seq<Panel> {
    seq![Panel::Status, Panel::Changelists, Panel::Files, Panel::Commits, Panel::Diff, Panel::Log]
}

pub open spec fn panel_title_text(p: Panel) -> Seq<char> {
    match p {
        Panel::Status => "Status"@,
        Panel::Changelists => "Changelists"@,
        Panel::Files => "Files"@,
        Panel::Commits => "Commits"@,
        Panel::Diff => "Diff"@,
        Panel::Log => "Log"@,
    }
}

impl Panel {
    pub const ALL: [Panel; 6] = [
        Panel::Status,
        Panel::Changelists,
        Panel::Files,
        Panel::Commits,
        Panel::Diff,
        Panel::Log,
    ];

    pub fn number(self) -> (r: char)
        ensures
            r == panel_number(self),
    {
        match self {
            Panel::Status => '1',
            Panel::Changelists => '2',
            Panel::Files => '3',
            Panel::Commits => '4',
            Panel::Diff => '0',
            Panel::Log => '5',
        }
    }

    /// The inverse of [`Panel::number`]: which panel a digit key focuses,
    /// if any — the first panel of [`Panel::ALL`] whose number it is.
    pub fn from_number(c: char) -> (r: Option<Panel>)
        ensures
            r == panel_for(c),
            r matches Some(p) ==> panel_number(p) == c,
            r is None <==> (forall|p: Panel| panel_number(p) != c),
    {
        let all = Panel::ALL;
        let mut i: usize = 0;
        while i < 6
            invariant
                i <= 6,
                all@ == all_panels(),
                forall|j: int| 0 <= j < i ==> panel_number(#[trigger] all@[j]) != c,
            decreases 6 - i,
        {
            if all[i].number() == c {
                return Some(all[i]);
            }
            i = i + 1;
        }
        assert forall|p: Panel| panel_number(p) != c by {
            assert(all@[panel_slot(p)] == p);
        }
        None
    }

    /// The panel's border title.
    pub fn title(self) -> (r: &'static str)
        ensures
            r@ == panel_title_text(self),
    {
        match self {
            Panel::Status => "Status",
            Panel::Changelists => "Changelists",
            Panel::Files => "Files",
            Panel::Commits => "Commits",
            Panel::Diff => "Diff",
            Panel::Log => "Log",
        }
    }

    /// The panel's slot in [`Panel::ALL`], for keying a fixed-size
    /// per-panel array.
    pub fn slot(self) -> (r: usize)
        ensures
            r == panel_slot(self),
            Panel::ALL@[r as int] == self,
    {
        let all = Panel::ALL;
        let mut i: usize = 0;
        while i < 6
            invariant
                i <= 6,
                all@ == all_panels(),
                forall|j: int| 0 <= j < i ==> all@[j] != self,
            decreases 6 - i,
        {
            if all[i] == self {
                return i;
            }
            i = i + 1;
        }
        assert(all@[panel_slot(self)] == self);
        0
    }
}

/// Every panel's number is answered by that panel: the digit keys and
/// the border prefixes cannot disagree.
pub proof fn lemma_panel_numbers_round_trip(p: Panel, q: Panel)
    ensures
        panel_number(p) == panel_number(q) ==> p == q,
        0 <= panel_slot(p) < 6,
        all_panels()[panel_slot(p)] == p,
{
}

/// Per-panel content heights as of the last drawn frame: borders
/// excluded. Every panel has a height at all times — zero until the
/// first frame.
#[derive(Debug, Clone, Copy, PartialEq, Eq, Default)]
pub struct PanelHeights([u16; 6]);

impl PanelHeights {
    /// `panel`'s recorded height.
    pub closed spec fn height(&self, panel: Panel) -> u16 {
        self.0@[panel_slot(panel)]
    }

    /// The all-zero heights of an App that has never been drawn.
    pub fn zero() -> (r: Self)
        ensures
            forall|p: Panel| r.height(p) == 0,
    {
        PanelHeights([0, 0, 0, 0, 0, 0])
    }

    /// Measure every panel: `height` is asked once per panel, so the set
    /// is total by construction.
    pub fn from_fn(height: impl Fn(Panel) -> u16) -> (r: Self)
        requires
            forall|p: Panel| height.requires((p,)),
        ensures
            forall|p: Panel| height.ensures((p,), #[trigger] r.height(p)),
    {
        let a = height(Panel::Status);
        let b = height(Panel::Changelists);
        let c = height(Panel::Files);
        let d = height(Panel::Commits);
        let e = height(Panel::Diff);
        let f = height(Panel::Log);
        PanelHeights([a, b, c, d, e, f])
    }

    pub fn get(&self, panel: Panel) -> (r: u16)
        ensures
            r == self.height(panel),
    {
        self.0[panel.slot()]
    }
}

} // verus!
