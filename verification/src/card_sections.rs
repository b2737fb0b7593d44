//! The sections of a card: each spans the card, and those that fold away are
//! drawers whose open state is kept with the project view.

use vstd::prelude::*;
use vstd::string::*;

use crate::action::{ActionModel, NodeCardDrawer, UiAction};
use crate::node_view::{UiNodeFace, UiPlainFaceKind};
use crate::space_section::UiSpaceSection;

verus! {

/// The typography a section's label has, folded away or not.
pub const SECTION_LABEL_TEXT_CLASS: &'static str = "tw:select-none tw:text-[0.6rem] tw:font-bold tw:uppercase tw:leading-none tw:tracking-[0.14em]";

pub const SECTION_CLASS: &'static str = "tw:grid tw:min-w-0";

pub const SECTION_DIVIDED_CLASS: &'static str = "tw:grid tw:min-w-0 tw:border-t tw:border-border-strong";

pub const PANEL_TINT: &'static str = " tw:bg-[linear-gradient(90deg,rgba(24,32,29,0.85),rgba(24,32,29,0.25)_60%,transparent)]";

/// The class of a section: all but the first have a line above them, and only a
/// module's panel is tinted.
pub fn section_container_class(first: bool, panel_tint: bool) -> (r: String)
    ensures
        r@ == (if first {
            SECTION_CLASS@
        } else {
            SECTION_DIVIDED_CLASS@
        }) + (if panel_tint {
            PANEL_TINT@
        } else {
            Seq::empty()
        }),
{
    let mut class: String = if first {
        SECTION_CLASS.to_string()
    } else {
        SECTION_DIVIDED_CLASS.to_string()
    };
    if panel_tint {
        class.append(PANEL_TINT);
    }
    class
}

/// The form a section takes.
#[derive(Clone, Copy, Debug, PartialEq, Eq, Structural)]
pub enum SectionForm {
    /// One row that unfolds.
    Collapsed,
    /// Its content, beside a rail that folds it away.
    Drawer,
    /// Its content, beside a rail that is only a label.
    Permanent,
}

/// The form a section takes: one without an open state is permanent, and one
/// that nothing can fold away has a rail that is only a label.
pub fn section_form(open: Option<bool>, can_toggle: bool) -> (r: SectionForm)
    ensures
        r == match open {
            None => SectionForm::Permanent,
            Some(open) => if !open {
                SectionForm::Collapsed
            } else if can_toggle {
                SectionForm::Drawer
            } else {
                SectionForm::Permanent
            },
        },
{
    match open {
        None => SectionForm::Permanent,
        Some(open) => if !open {
            SectionForm::Collapsed
        } else if can_toggle {
            SectionForm::Drawer
        } else {
            SectionForm::Permanent
        },
    }
}

/// What pressing a section's bar does, in words; a permanent one has no bar.
pub fn section_title(form: SectionForm, label: &str) -> (r: Option<String>)
    ensures
        match form {
            SectionForm::Collapsed => r matches Some(title) && title@ == "Expand "@ + label@,
            SectionForm::Drawer => r matches Some(title) && title@ == "Collapse "@ + label@,
            SectionForm::Permanent => r is None,
        },
{
    match form {
        SectionForm::Collapsed => {
            let mut title: String = "Expand ".to_string();
            title.append(label);
            Some(title)
        },
        SectionForm::Drawer => {
            let mut title: String = "Collapse ".to_string();
            title.append(label);
            Some(title)
        },
        SectionForm::Permanent => None,
    }
}

/// The action that opens or closes a drawer of a card.
pub fn drawer_action(node: &str, drawer: NodeCardDrawer, open: bool) -> (r: UiAction)
    ensures
        r@ == (ActionModel::SetDrawer { node: node@, drawer, open }),
{
    UiAction::SetDrawer { node: node.to_string(), drawer, open }
}

/// The kinds of generic sections.
#[derive(Clone, Copy, Debug, PartialEq, Eq, Structural)]
pub enum UiSectionKind {
    /// The debug section, which is never folded away.
    DebugSlots,
    /// A section for the advanced drawer.
    Ordinary,
}

/// The places of the sections of a kind among the first `n`, in order.
pub open spec fn places(kinds: Seq<UiSectionKind>, kind: UiSectionKind, n: nat) -> Seq<usize>
    decreases n,
{
    if n == 0 {
        Seq::empty()
    } else if kinds[n - 1] == kind {
        places(kinds, kind, (n - 1) as nat).push((n - 1) as usize)
    } else {
        places(kinds, kind, (n - 1) as nat)
    }
}

/// What stands under a card's face.
#[derive(Clone, Debug, PartialEq, Eq)]
pub struct CardDrawers {
    /// The places of the debug sections, which stand above all the drawers.
    pub debug: Vec<usize>,
    /// The code drawer, open or not, where there is one.
    pub code: Option<bool>,
    /// The dimensionality drawer, open or not, where there is one.
    pub space: Option<bool>,
    /// The advanced drawer, open or not, where it holds anything.
    pub advanced: Option<bool>,
    /// The places of the sections it holds.
    pub advanced_sections: Vec<usize>,
}

/// The open states kept with the project view.
#[derive(Clone, Copy, Debug, PartialEq, Eq, Structural)]
pub struct DrawerStates {
    pub code_open: bool,
    pub space_open: bool,
    pub advanced_open: bool,
}

/// A mismatch or an open picker keeps the dimensionality drawer open: what is
/// folded away is hidden.
pub open spec fn space_drawer_open(
    section: UiSpaceSection,
    picker_open: bool,
    space_open: bool,
) -> bool {
    space_open || section.mismatch is Some || picker_open
}

/// What stands under a card's face.
pub fn card_drawers(
    has_code: bool,
    space: &Option<UiSpaceSection>,
    picker_open: bool,
    sections: &Vec<UiSectionKind>,
    states: DrawerStates,
) -> (r: CardDrawers)
    ensures
        r.code == if has_code {
            Some(states.code_open)
        } else {
            None
        },
        r.space == match *space {
            Some(section) => Some(space_drawer_open(section, picker_open, states.space_open)),
            None => None,
        },
        r.debug@ == places(sections@, UiSectionKind::DebugSlots, sections@.len()),
        r.advanced_sections@ == places(sections@, UiSectionKind::Ordinary, sections@.len()),
        r.advanced == if r.advanced_sections@.len() > 0 {
            Some(states.advanced_open)
        } else {
            None
        },
{
    let mut debug: Vec<usize> = Vec::new();
    let mut advanced_sections: Vec<usize> = Vec::new();
    let mut at: usize = 0;
    while at < sections.len()
        invariant
            at <= sections@.len(),
            debug@ == places(sections@, UiSectionKind::DebugSlots, at as nat),
            advanced_sections@ == places(sections@, UiSectionKind::Ordinary, at as nat),
        decreases sections.len() - at,
    {
        match sections[at] {
            UiSectionKind::DebugSlots => debug.push(at),
            UiSectionKind::Ordinary => advanced_sections.push(at),
        }
        at += 1;
    }
    let has_advanced: bool = advanced_sections.len() > 0;
    CardDrawers {
        code: if has_code {
            Some(states.code_open)
        } else {
            None
        },
        space: match space {
            Some(section) => Some(
                states.space_open || section.mismatch.is_some() || picker_open,
            ),
            None => None,
        },
        debug,
        advanced: if has_advanced {
            Some(states.advanced_open)
        } else {
            None
        },
        advanced_sections,
    }
}

/// No section is lost or shown twice: each stands in exactly one of the two
/// places, and in the order of the list.
pub proof fn every_section_has_one_place(kinds: Seq<UiSectionKind>, kind: UiSectionKind, n: nat)
    requires
        n <= kinds.len() <= usize::MAX,
    ensures
        forall|i: int|
            0 <= i < n ==> (kinds[i] == kind <==> #[trigger] places(kinds, kind, n).contains(
                i as usize,
            )),
        forall|a: int, b: int|
            0 <= a < b < places(kinds, kind, n).len() ==> #[trigger] places(kinds, kind, n)[a]
                < #[trigger] places(kinds, kind, n)[b],
        forall|a: int|
            0 <= a < places(kinds, kind, n).len() ==> #[trigger] places(kinds, kind, n)[a] < n,
    decreases n,
{
    if n > 0 {
        let before = places(kinds, kind, (n - 1) as nat);
        let all = places(kinds, kind, n);
        every_section_has_one_place(kinds, kind, (n - 1) as nat);
        assert forall|i: int| 0 <= i < n implies (kinds[i] == kind <==> #[trigger] all.contains(
            i as usize,
        )) by {
            if kinds[n - 1] == kind {
                assert(all == before.push((n - 1) as usize));
                if i == n - 1 {
                    assert(all[before.len() as int] == i as usize);
                } else {
                    if before.contains(i as usize) {
                        let a = choose|a: int|
                            0 <= a < before.len() && before[a] == i as usize;
                        assert(all[a] == i as usize);
                    }
                    if all.contains(i as usize) {
                        let a = choose|a: int| 0 <= a < all.len() && all[a] == i as usize;
                        assert(before[a] == i as usize);
                    }
                }
            } else if i == n - 1 {
                if all.contains(i as usize) {
                    let a = choose|a: int| 0 <= a < all.len() && all[a] == i as usize;
                    assert(before[a] < n - 1);
                }
            }
        }
    }
}

/// Which of a card's parts come with its face.
#[derive(Clone, Copy, Debug, PartialEq, Eq, Structural)]
pub struct FaceBody {
    /// The drawers under the face include the code drawer.
    pub code_drawer: bool,
    /// The drawers stand under the face at all.
    pub drawers: bool,
}

/// Which of a card's parts come with its face: only a shader's has code, and a
/// module's wiring drawer is a part of its face.
pub fn face_body(face: &UiNodeFace) -> (r: FaceBody)
    ensures
        r.code_drawer == (face matches UiNodeFace::Plain(kind) && kind == UiPlainFaceKind::Shader),
        r.drawers == face is Plain,
{
    match face {
        UiNodeFace::Plain(UiPlainFaceKind::Shader) => FaceBody {
            code_drawer: true,
            drawers: true,
        },
        UiNodeFace::Plain(_) => FaceBody { code_drawer: false, drawers: true },
        _ => FaceBody { code_drawer: false, drawers: false },
    }
}

/// The line under the agent section's label.
pub const AGENT_SUBLINE: &'static str = "edits this shader with you";

/// Which sections a shader's or an effect's face has below its output.
#[derive(Clone, Copy, Debug, PartialEq, Eq, Structural)]
pub struct HeroSections {
    pub controls: bool,
    pub agent: bool,
    pub provenance: bool,
}

/// Which sections a shader's or an effect's face has below its output: each
/// where it has something to show.
pub fn hero_sections(controls: usize, has_agent: bool, has_provenance: bool) -> (r: HeroSections)
    ensures
        r.controls == (controls > 0),
        r.agent == has_agent,
        r.provenance == has_provenance,
{
    HeroSections { controls: controls > 0, agent: has_agent, provenance: has_provenance }
}

} // verus!
