//! The fixture's face: the lit preview with its mapping editor in the same
//! place, and the power readout under the fader.

use vstd::prelude::*;
use vstd::string::*;

use crate::node_view::UiProductKind;
use crate::text::{decimal, decimal_text};

verus! {

/// The editor's place on the card.
#[derive(Clone, Copy, Debug, PartialEq, Eq, Structural)]
pub struct EditorState {
    /// The pencil is down.
    pub editing: bool,
    /// The editor was asked to fill the page.
    pub expanded: bool,
    /// Counted up whenever the editor's box changes, so that it fits itself
    /// anew.
    pub refit: u64,
    /// The texture frame is shown.
    pub fit_preview: bool,
}

/// What a press of the toggle bar changes.
#[derive(Clone, Copy, Debug, PartialEq, Eq, Structural)]
pub enum EditorPress {
    Pencil,
    Frame,
    Expand,
}

impl EditorState {
    /// The editor as a card starts out with it.
    pub fn new(edit_initially_open: bool, fit_preview: bool) -> (r: Self)
        ensures
            r == (EditorState {
                editing: edit_initially_open,
                expanded: false,
                refit: 0,
                fit_preview,
            }),
    {
        EditorState { editing: edit_initially_open, expanded: false, refit: 0, fit_preview }
    }

    /// The state after a press.
    pub open spec fn pressed(self, press: EditorPress) -> EditorState {
        match press {
            EditorPress::Pencil => EditorState {
                editing: !self.editing,
                expanded: !self.editing && self.expanded,
                ..self
            },
            EditorPress::Frame => EditorState { fit_preview: !self.fit_preview, ..self },
            EditorPress::Expand => EditorState {
                expanded: !self.expanded,
                refit: (self.refit + 1) as u64,
                ..self
            },
        }
    }

    /// Takes a press of the toggle bar. Putting the editor away also takes it off
    /// the full page.
    pub fn press(&mut self, press: EditorPress)
        requires
            press == EditorPress::Expand ==> old(self).refit < u64::MAX,
        ensures
            *final(self) == old(self).pressed(press),
    {
        match press {
            EditorPress::Pencil => {
                if self.editing {
                    self.expanded = false;
                }
                self.editing = !self.editing;
            },
            EditorPress::Frame => {
                self.fit_preview = !self.fit_preview;
            },
            EditorPress::Expand => {
                self.expanded = !self.expanded;
                self.refit = self.refit + 1;
            },
        }
    }
}

pub const HOME_CLASS: &'static str = "ux-map-home";

pub const HOME_FULL_CLASS: &'static str = "ux-map-home ux-map-home-full";

pub const TOGGLE_CLASS: &'static str = "ux-map-toggle";

pub const TOGGLE_ON_CLASS: &'static str = "ux-map-toggle ux-map-toggle-on";

/// The class of a toggle of the bar.
pub open spec fn toggle_look(on: bool) -> Seq<char> {
    if on {
        TOGGLE_ON_CLASS@
    } else {
        TOGGLE_CLASS@
    }
}

/// The class of a toggle of the bar.
pub fn toggle_class(on: bool) -> (r: &'static str)
    ensures
        r@ == toggle_look(on),
{
    if on {
        TOGGLE_ON_CLASS
    } else {
        TOGGLE_CLASS
    }
}

/// How the output section is drawn.
#[derive(Clone, Debug, PartialEq, Eq)]
pub struct OutputSection {
    /// The editor stands there, in place of the preview.
    pub edit_open: bool,
    /// It fills the page.
    pub full: bool,
    pub home_class: &'static str,
    pub toggle_bar: bool,
    pub pencil: bool,
    pub pencil_class: &'static str,
    pub pencil_title: &'static str,
    pub frame_class: &'static str,
    pub expand_title: &'static str,
    /// The toggles of the map's view stand on the bar.
    pub view_toggles: bool,
    /// The editor is fed the live colours of the lamps.
    pub feeds_live: bool,
}

/// The editor stands in the section.
pub open spec fn editor_stands(state: EditorState, editable: bool) -> bool {
    editable && state.editing
}

/// How the output section is drawn. `editable` says that the mapping can be
/// edited, `live` that the map shows live colours, and `native` that the preview
/// carries them.
pub fn output_section(
    state: &EditorState,
    kind: UiProductKind,
    editable: bool,
    live: bool,
    native: bool,
) -> (r: OutputSection)
    ensures
        r.edit_open == editor_stands(*state, editable),
        r.full == (editor_stands(*state, editable) && state.expanded),
        r.home_class@ == if r.full {
            HOME_FULL_CLASS@
        } else {
            HOME_CLASS@
        },
        r.toggle_bar == (kind == UiProductKind::Control || editable),
        r.pencil == editable,
        r.pencil_class@ == toggle_look(r.edit_open),
        r.pencil_title@ == if r.edit_open {
            "close the mapping editor"@
        } else {
            "edit the mapping here"@
        },
        r.frame_class@ == toggle_look(state.fit_preview),
        r.expand_title@ == if r.full {
            "back to the card"@
        } else {
            "expand the editor to the full page"@
        },
        r.view_toggles == (kind == UiProductKind::Control),
        r.feeds_live == (r.edit_open && live && native),
{
    let edit_open: bool = editable && state.editing;
    let full: bool = edit_open && state.expanded;
    let is_control: bool = kind == UiProductKind::Control;
    OutputSection {
        edit_open,
        full,
        home_class: if full {
            HOME_FULL_CLASS
        } else {
            HOME_CLASS
        },
        toggle_bar: is_control || editable,
        pencil: editable,
        pencil_class: toggle_class(edit_open),
        pencil_title: if edit_open {
            "close the mapping editor"
        } else {
            "edit the mapping here"
        },
        frame_class: toggle_class(state.fit_preview),
        expand_title: if full {
            "back to the card"
        } else {
            "expand the editor to the full page"
        },
        view_toggles: is_control,
        feeds_live: edit_open && live && native,
    }
}

/// Putting the editor away and taking it out again brings it back on the card,
/// never on the full page, and with its view as it was.
pub proof fn the_editor_comes_back_on_the_card(state: EditorState)
    requires
        state.editing,
    ensures
        !editor_stands(state.pressed(EditorPress::Pencil), true),
        editor_stands(state.pressed(EditorPress::Pencil).pressed(EditorPress::Pencil), true),
        !state.pressed(EditorPress::Pencil).pressed(EditorPress::Pencil).expanded,
        state.pressed(EditorPress::Pencil).pressed(EditorPress::Pencil).fit_preview
            == state.fit_preview,
{
}

/// Expanding and folding back leaves the editor where it was, fitted anew each
/// time.
pub proof fn expanding_twice_is_no_change_of_place(state: EditorState)
    requires
        state.refit < u64::MAX - 1,
    ensures
        ({
            let after = state.pressed(EditorPress::Expand).pressed(EditorPress::Expand);
            &&& after.editing == state.editing
            &&& after.expanded == state.expanded
            &&& after.refit == state.refit + 2
        }),
{
}

/// A fixture's estimated draw against its budget, in milliamperes.
#[derive(Clone, Copy, Debug, PartialEq, Eq, Structural)]
pub struct UiFixturePower {
    pub estimated_draw_ma: u32,
    pub budget_ma: u32,
    /// The draw in percent of the budget.
    pub percent: u32,
    /// What the lamps are limited to, in percent, where they are.
    pub limited_to: Option<u32>,
}

/// What the power readout says.
#[derive(Clone, Debug, PartialEq, Eq)]
pub struct PowerReadout {
    pub title: String,
    pub estimate: String,
    pub budget: String,
    pub limiting: Option<String>,
}

/// What the power readout says.
pub fn power_readout(power: &UiFixturePower) -> (r: PowerReadout)
    ensures
        r.title@ == "estimated draw from the lamp type's power model \u{2014} not measured\n"@
            + decimal(power.estimated_draw_ma as nat) + " mA of "@ + decimal(
            power.budget_ma as nat,
        ) + " mA budget"@,
        r.estimate@ == "\u{2248}"@ + decimal(power.estimated_draw_ma as nat),
        r.budget@ == "/"@ + decimal(power.budget_ma as nat) + " mA ("@ + decimal(
            power.percent as nat,
        ) + "%)"@,
        match r.limiting {
            Some(words) => power.limited_to matches Some(percent) && words@
                == "limiting to "@ + decimal(percent as nat) + "%"@,
            None => power.limited_to is None,
        },
{
    let draw: String = decimal_text(power.estimated_draw_ma as u64);
    let limit: String = decimal_text(power.budget_ma as u64);
    let mut title: String =
        "estimated draw from the lamp type's power model \u{2014} not measured\n".to_string();
    title.append(draw.as_str());
    title.append(" mA of ");
    title.append(limit.as_str());
    title.append(" mA budget");
    let mut estimate: String = "\u{2248}".to_string();
    estimate.append(draw.as_str());
    let mut budget: String = "/".to_string();
    budget.append(limit.as_str());
    budget.append(" mA (");
    budget.append(decimal_text(power.percent as u64).as_str());
    budget.append("%)");
    let limiting: Option<String> = match power.limited_to {
        Some(percent) => {
            let mut words: String = "limiting to ".to_string();
            words.append(decimal_text(percent as u64).as_str());
            words.append("%");
            Some(words)
        },
        None => None,
    };
    PowerReadout { title, estimate, budget, limiting }
}

} // verus!
