//! One control on a panel: a widget, a label and a value. Its state is in the
//! colours and in whether it can be reset; what drives it is in its details.

use vstd::prelude::*;
use vstd::string::*;

use crate::action::PanelGesture;
use crate::panel::{
    ControlModel, GroupModel, UiPanelControlState, UiPanelControlView, UiPanelGroup, UiPanelTarget,
    UiPanelWidget, UiSlotValue, WireScopeRef,
};
use crate::text::{decimal, decimal_text, same_text};

verus! {

/// Numbers the controls, each of which needs a name of its own on the page.
#[derive(Clone, Debug)]
pub struct ControlIds {
    pub next: usize,
}

impl ControlIds {
    /// The first control is number one.
    pub fn new() -> (r: Self)
        ensures
            r.next == 1,
    {
        ControlIds { next: 1 }
    }

    /// Takes the name of the next control; after the last number they start over.
    pub fn next_anchor_id(&mut self) -> (r: String)
        ensures
            r@ == "ux-module-control-"@ + decimal(old(self).next as nat),
            final(self).next == if old(self).next == usize::MAX {
                0usize
            } else {
                (old(self).next + 1) as usize
            },
    {
        let mut id: String = "ux-module-control-".to_string();
        id.append(decimal_text(self.next as u64).as_str());
        self.next = if self.next == usize::MAX {
            0
        } else {
            self.next + 1
        };
        id
    }
}

pub const LABEL_DEFAULT: &'static str = "tw:text-subtle-foreground";

pub const LABEL_FOLLOWING: &'static str = "tw:text-status-bound-foreground";

pub const LABEL_ENGAGED: &'static str = "tw:text-status-attention-foreground";

pub const READOUT_DEFAULT: &'static str = "tw:text-dim-foreground";

/// The colour of a label in a given state.
pub open spec fn label_color(state: UiPanelControlState) -> Seq<char> {
    match state {
        UiPanelControlState::ReadDefault => LABEL_DEFAULT@,
        UiPanelControlState::ReadFollowing => LABEL_FOLLOWING@,
        UiPanelControlState::Engaged => LABEL_ENGAGED@,
    }
}

/// The colour of a readout in a given state.
pub open spec fn readout_color(state: UiPanelControlState) -> Seq<char> {
    match state {
        UiPanelControlState::ReadDefault => READOUT_DEFAULT@,
        UiPanelControlState::ReadFollowing => LABEL_FOLLOWING@,
        UiPanelControlState::Engaged => LABEL_ENGAGED@,
    }
}

/// A label's colour: the three states wear three families, none of them green.
pub fn panel_state_label_class(state: UiPanelControlState) -> (r: &'static str)
    ensures
        r@ == label_color(state),
{
    match state {
        UiPanelControlState::ReadDefault => LABEL_DEFAULT,
        UiPanelControlState::ReadFollowing => LABEL_FOLLOWING,
        UiPanelControlState::Engaged => LABEL_ENGAGED,
    }
}

/// A readout's colour: as the label's, but quiet at the default.
pub fn panel_state_readout_class(state: UiPanelControlState) -> (r: &'static str)
    ensures
        r@ == readout_color(state),
{
    match state {
        UiPanelControlState::ReadDefault => READOUT_DEFAULT,
        UiPanelControlState::ReadFollowing => LABEL_FOLLOWING,
        UiPanelControlState::Engaged => LABEL_ENGAGED,
    }
}

/// The box a readout stands in: of one width whatever the value.
pub const READOUT_CLASS: &'static str = "tw:inline-flex tw:min-w-[4.5ch] tw:flex-none tw:items-baseline tw:justify-center tw:gap-1 tw:font-mono tw:text-[0.7rem] tw:tabular-nums";

/// The text a readout shows in a given state.
pub open spec fn displayed(
    value: Seq<char>,
    live: Option<Seq<char>>,
    state: UiPanelControlState,
) -> Seq<char> {
    if state == UiPanelControlState::ReadFollowing && live is Some {
        live->0
    } else {
        value
    }
}

/// What the readout shows: the live value where the control follows one, and its
/// own otherwise.
pub fn shown_display(value: &str, live: Option<&str>, state: UiPanelControlState) -> (r: String)
    ensures
        r@ == displayed(
            value@,
            match live {
                Some(live) => Some(live@),
                None => None,
            },
            state,
        ),
{
    match (state, live) {
        (UiPanelControlState::ReadFollowing, Some(live)) => live.to_string(),
        _ => value.to_string(),
    }
}

/// The truth value a text spells.
pub open spec fn spelled_bool(text: Seq<char>) -> Option<bool> {
    if text == "true"@ {
        Some(true)
    } else if text == "false"@ {
        Some(false)
    } else {
        None
    }
}

/// The live reading of a toggle, where the control follows one and it can be
/// read.
pub fn live_bool(live: &Option<String>, following: bool) -> (r: Option<bool>)
    ensures
        r == if following && live is Some {
            spelled_bool(live->0@)
        } else {
            None
        },
{
    if !following {
        return None;
    }
    match live {
        Some(text) => if same_text(text.as_str(), "true") {
            Some(true)
        } else if same_text(text.as_str(), "false") {
            proof {
                reveal_strlit("true");
                reveal_strlit("false");
            }
            Some(false)
        } else {
            None
        },
        None => None,
    }
}

/// The widget can show the value.
pub open spec fn widget_fits(widget: UiPanelWidget, value: UiSlotValue) -> bool {
    match widget {
        UiPanelWidget::Knob { .. } => value is F32,
        UiPanelWidget::Fader { .. } => value is F32,
        UiPanelWidget::Toggle => value is Bool,
        UiPanelWidget::PaletteSwatch => true,
        UiPanelWidget::PatternPicker => true,
    }
}

/// Whether the widget can show the value; where it cannot, label and value stand
/// there as text.
pub fn fits(widget: &UiPanelWidget, value: &UiSlotValue) -> (r: bool)
    ensures
        r == widget_fits(*widget, *value),
{
    match widget {
        UiPanelWidget::Knob { .. } => matches!(value, UiSlotValue::F32(_)),
        UiPanelWidget::Fader { .. } => matches!(value, UiSlotValue::F32(_)),
        UiPanelWidget::Toggle => matches!(value, UiSlotValue::Bool(_)),
        UiPanelWidget::PaletteSwatch => true,
        UiPanelWidget::PatternPicker => true,
    }
}

/// A fader's footprint: fixed, or the row would shift with its value.
pub const FADER_CLASS: &'static str = "tw:grid tw:w-[184px] tw:flex-none tw:gap-1";

pub const COLUMN_PLAY_CLASS: &'static str = "tw:flex tw:min-w-[76px] tw:flex-none tw:flex-col tw:items-center tw:gap-1.5";

pub const COLUMN_CLASS: &'static str = "tw:flex tw:min-w-[64px] tw:flex-none tw:flex-col tw:items-center tw:gap-1";

pub const FADER_ANCHOR_CLASS: &'static str = "tw:grid tw:h-full tw:w-full tw:content-start tw:gap-1";

pub const ANCHOR_CLASS: &'static str = "tw:flex tw:h-full tw:w-full tw:flex-col tw:items-center tw:gap-1";

/// How a control is drawn.
#[derive(Clone, Debug, PartialEq, Eq)]
pub struct ControlDrawing {
    pub column_class: &'static str,
    pub anchor_class: &'static str,
    pub label_class: &'static str,
    pub readout_class: String,
    /// The value stands on the widget; otherwise it is text.
    pub shows_widget: bool,
    /// The widget wears the colour of a control that follows.
    pub bound: bool,
    /// The widget wears the colour of a held control.
    pub engaged: bool,
}

/// How a control is drawn, on a card or in play mode.
pub fn control_drawing(view: &UiPanelControlView, play: bool) -> (r: ControlDrawing)
    ensures
        r.column_class@ == if view.control.widget is Fader {
            FADER_CLASS@
        } else if play {
            COLUMN_PLAY_CLASS@
        } else {
            COLUMN_CLASS@
        },
        r.anchor_class@ == if view.control.widget is Fader {
            FADER_ANCHOR_CLASS@
        } else {
            ANCHOR_CLASS@
        },
        r.label_class@ == label_color(view.state),
        r.readout_class@ == READOUT_CLASS@ + " "@ + readout_color(view.state),
        r.shows_widget == widget_fits(view.control.widget, view.control.value),
        r.bound == (view.state == UiPanelControlState::ReadFollowing),
        r.engaged == view@.engaged(),
{
    let is_fader: bool = matches!(view.control.widget, UiPanelWidget::Fader { .. });
    let mut readout_class: String = READOUT_CLASS.to_string();
    readout_class.append(" ");
    readout_class.append(panel_state_readout_class(view.state));
    ControlDrawing {
        column_class: if is_fader {
            FADER_CLASS
        } else if play {
            COLUMN_PLAY_CLASS
        } else {
            COLUMN_CLASS
        },
        anchor_class: if is_fader {
            FADER_ANCHOR_CLASS
        } else {
            ANCHOR_CLASS
        },
        label_class: panel_state_label_class(view.state),
        readout_class,
        shows_widget: fits(&view.control.widget, &view.control.value),
        bound: matches!(view.state, UiPanelControlState::ReadFollowing),
        engaged: view.state.engaged(),
    }
}

/// The way back from a held control.
#[derive(Clone, Debug, PartialEq, Eq)]
pub struct ControlReset {
    pub gesture: PanelGesture,
    pub title: String,
    pub label: String,
}

/// The way back from a held control: there is one only while it is held, and it
/// names the control by its scope and channel.
pub fn control_reset(view: &UiPanelControlView, scope: WireScopeRef) -> (r: Option<ControlReset>)
    ensures
        match r {
            Some(reset) => {
                &&& view@.engaged()
                &&& reset.gesture matches PanelGesture::ClearControl { target }
                &&& target.scope == scope
                &&& target.channel@ == view.channel@
                &&& target.engaged
                &&& reset.title@ == "Reset "@ + view.control.label@
                    + " \u{2014} drop the held value and follow the project again"@
                &&& reset.label@ == "Reset "@ + view.control.label@
            },
            None => !view@.engaged(),
        },
{
    if !view.state.engaged() {
        return None;
    }
    let mut label: String = "Reset ".to_string();
    label.append(view.control.label.as_str());
    let mut title: String = label.clone();
    title.append(" \u{2014} drop the held value and follow the project again");
    Some(
        ControlReset {
            gesture: PanelGesture::ClearControl {
                target: UiPanelTarget { scope, channel: view.channel.clone(), engaged: true },
            },
            title,
            label,
        },
    )
}

/// The parts of a control's details.
#[derive(Clone, Copy, Debug, PartialEq, Eq, Structural)]
pub enum UiSlotAspectKind {
    /// The state, and what is behind it.
    PanelState,
    /// What the control is known by.
    Identity,
}

/// One part of the details of a control or a group.
#[derive(Clone, Debug, PartialEq, Eq)]
pub struct UiSlotAspect {
    pub kind: UiSlotAspectKind,
    pub title: String,
    pub rows: Vec<String>,
}

/// A part of the details that reads so.
pub open spec fn aspect_reads(
    aspect: UiSlotAspect,
    kind: UiSlotAspectKind,
    title: Seq<char>,
    rows: Seq<Seq<char>>,
) -> bool {
    &&& aspect.kind == kind
    &&& aspect.title@ == title
    &&& aspect.rows@.len() == rows.len()
    &&& forall|i: int| 0 <= i < rows.len() ==> (#[trigger] aspect.rows@[i])@ == rows[i]
}

/// The word for a control's state.
pub open spec fn state_title(state: UiPanelControlState) -> Seq<char> {
    match state {
        UiPanelControlState::ReadDefault => "At default"@,
        UiPanelControlState::ReadFollowing => "Following"@,
        UiPanelControlState::Engaged => "Held"@,
    }
}

/// What is said of a control's source.
pub open spec fn source_rows(control: ControlModel) -> Seq<Seq<char>> {
    match control.source {
        Some(source) => seq![source],
        None => Seq::empty(),
    }
}

impl UiPanelControlView {
    /// The details: the state with what drives the control or was displaced, and
    /// the scope and channel the control is known by.
    pub fn detail_aspects(&self, scope: &str) -> (r: Vec<UiSlotAspect>)
        ensures
            r@.len() == 2,
            aspect_reads(
                r@[0],
                UiSlotAspectKind::PanelState,
                state_title(self.state),
                source_rows(self@),
            ),
            aspect_reads(
                r@[1],
                UiSlotAspectKind::Identity,
                self.control.label@,
                seq![scope@, self.channel@],
            ),
    {
        let title: &'static str = match self.state {
            UiPanelControlState::ReadDefault => "At default",
            UiPanelControlState::ReadFollowing => "Following",
            UiPanelControlState::Engaged => "Held",
        };
        let mut rows: Vec<String> = Vec::new();
        if let Some(source) = &self.source {
            rows.push(source.clone());
        }
        let mut identity: Vec<String> = Vec::new();
        identity.push(scope.to_string());
        identity.push(self.channel.clone());
        let mut aspects: Vec<UiSlotAspect> = Vec::new();
        aspects.push(
            UiSlotAspect { kind: UiSlotAspectKind::PanelState, title: title.to_string(), rows },
        );
        aspects.push(
            UiSlotAspect {
                kind: UiSlotAspectKind::Identity,
                title: self.control.label.clone(),
                rows: identity,
            },
        );
        aspects
    }
}

impl UiPanelGroup {
    /// The details of a group: the path of its scope, which its label leaves out.
    pub fn detail_aspects(&self) -> (r: Vec<UiSlotAspect>)
        ensures
            r@.len() == 1,
            aspect_reads(r@[0], UiSlotAspectKind::Identity, self.label@, seq![self.scope@]),
    {
        let mut rows: Vec<String> = Vec::new();
        rows.push(self.scope.clone());
        let mut aspects: Vec<UiSlotAspect> = Vec::new();
        aspects.push(
            UiSlotAspect {
                kind: UiSlotAspectKind::Identity,
                title: self.label.clone(),
                rows,
            },
        );
        aspects
    }
}

/// The sentence on a reset of a whole scope.
pub open spec fn reset_sentence(held: nat, scope: Seq<char>) -> Seq<char> {
    "Reset "@ + decimal(held) + " held "@ + if held == 1 {
        "control"@
    } else {
        "controls"@
    } + " in "@ + scope
        + " \u{2014} panel writers are dropped and the project drives again"@
}

/// The way back from everything held in a scope.
#[derive(Clone, Debug, PartialEq, Eq)]
pub struct ScopeReset {
    pub gesture: PanelGesture,
    pub label: String,
    pub held: usize,
}

/// How many held controls the reset of a group counts.
pub open spec fn held_shown(group: GroupModel) -> nat {
    if group.engaged_total() > usize::MAX {
        usize::MAX as nat
    } else {
        group.engaged_total()
    }
}

/// The way back from everything held in a group and under it: there is one only
/// where something is held and the group's scope is known.
pub fn scope_reset(group: &UiPanelGroup) -> (r: Option<ScopeReset>)
    ensures
        match r {
            Some(reset) => {
                &&& group@.engaged_total() > 0
                &&& group.target is Some
                &&& reset.gesture == (PanelGesture::ClearScope { scope: group.target->0 })
                &&& reset.held == held_shown(group@)
                &&& reset.label@ == reset_sentence(held_shown(group@), group.scope@)
            },
            None => group@.engaged_total() == 0 || group.target is None,
        },
{
    let held: usize = group.engaged_total();
    if held == 0 {
        return None;
    }
    let target: WireScopeRef = match group.target {
        Some(target) => target,
        None => return None,
    };
    let mut label: String = "Reset ".to_string();
    label.append(decimal_text(held as u64).as_str());
    label.append(" held ");
    if held == 1 {
        label.append("control");
    } else {
        label.append("controls");
    }
    label.append(" in ");
    label.append(group.scope.as_str());
    label.append(" \u{2014} panel writers are dropped and the project drives again");
    Some(ScopeReset { gesture: PanelGesture::ClearScope { scope: target }, label, held })
}

/// The parts of a panel's chrome that are there.
#[derive(Clone, Copy, Debug, PartialEq, Eq, Structural)]
pub struct PanelParts {
    /// The panel has nothing to show, and says how that changes.
    pub empty_note: bool,
    /// The row of the scope's own affordances.
    pub affordances: bool,
    pub controls: bool,
    pub groups: bool,
}

/// The parts of a panel that are there. `auto_save` is absent where the panel
/// does not offer it.
pub fn panel_parts(panel: &UiPanelGroup, auto_save: Option<bool>) -> (r: PanelParts)
    ensures
        r.empty_note == (panel@.controls.len() == 0 && panel@.groups.len() == 0),
        r.affordances == (!r.empty_note && (panel@.engaged_total() > 0 || auto_save is Some)),
        r.controls == (panel@.controls.len() > 0),
        r.groups == (panel@.groups.len() > 0),
{
    let empty_note: bool = panel.is_empty();
    PanelParts {
        empty_note,
        affordances: !empty_note && (panel.engaged_total() > 0 || auto_save.is_some()),
        controls: panel.controls.len() > 0,
        groups: panel.groups.len() > 0,
    }
}

pub const ROW_GAP: &'static str = "tw:gap-4";

pub const PANEL_GAP_PLAY: &'static str = "tw:gap-6";

pub const GROUP_GAP_PLAY: &'static str = "tw:gap-5";

/// The gap between a panel's own controls.
pub fn row_gap(play: bool) -> (r: &'static str)
    ensures
        r@ == if play {
            PANEL_GAP_PLAY@
        } else {
            ROW_GAP@
        },
{
    if play {
        PANEL_GAP_PLAY
    } else {
        ROW_GAP
    }
}

pub const HEADING_HELD: &'static str = "tw:truncate tw:text-[0.62rem] tw:font-bold tw:uppercase tw:tracking-[0.12em] tw:text-status-engaged-foreground";

pub const HEADING_PLAIN: &'static str = "tw:truncate tw:text-[0.62rem] tw:font-bold tw:uppercase tw:tracking-[0.12em] tw:text-subtle-foreground";

pub const BOX_PLAY: &'static str = "tw:m-0 tw:min-w-0 tw:flex-auto tw:basis-[240px] tw:rounded-sm tw:border tw:border-border-muted tw:px-3 tw:pb-3";

pub const BOX_CARD: &'static str = "tw:m-0 tw:min-w-0 tw:flex-auto tw:basis-[220px] tw:rounded-sm tw:border tw:border-border-muted tw:px-3 tw:pb-2";

/// How a nested group's box is drawn.
#[derive(Clone, Debug, PartialEq, Eq)]
pub struct GroupBox {
    pub heading_class: &'static str,
    pub box_class: &'static str,
    pub control_gap: &'static str,
}

/// How a nested group's box is drawn: its name wears the engaged colour while
/// anything in it is held.
pub fn group_box(group: &UiPanelGroup, play: bool) -> (r: GroupBox)
    ensures
        r.heading_class@ == if group@.engaged_total() > 0 {
            HEADING_HELD@
        } else {
            HEADING_PLAIN@
        },
        r.box_class@ == if play {
            BOX_PLAY@
        } else {
            BOX_CARD@
        },
        r.control_gap@ == if play {
            GROUP_GAP_PLAY@
        } else {
            ROW_GAP@
        },
{
    GroupBox {
        heading_class: if group.engaged_total() > 0 {
            HEADING_HELD
        } else {
            HEADING_PLAIN
        },
        box_class: if play {
            BOX_PLAY
        } else {
            BOX_CARD
        },
        control_gap: if play {
            GROUP_GAP_PLAY
        } else {
            ROW_GAP
        },
    }
}

pub const TRACK_ON: &'static str = "tw:relative tw:inline-flex tw:h-[11px] tw:w-[20px] tw:flex-none tw:items-center tw:rounded-full tw:border tw:border-border-strong tw:bg-card-raised";

pub const TRACK_OFF: &'static str = "tw:relative tw:inline-flex tw:h-[11px] tw:w-[20px] tw:flex-none tw:items-center tw:rounded-full tw:border tw:border-border-muted tw:bg-transparent";

pub const KNOB_ON: &'static str = "tw:absolute tw:left-[9px] tw:h-[7px] tw:w-[7px] tw:rounded-full tw:bg-muted-foreground";

pub const KNOB_OFF: &'static str = "tw:absolute tw:left-[1px] tw:h-[7px] tw:w-[7px] tw:rounded-full tw:bg-dim-foreground";

pub const AUTO_SAVE_ON: &'static str = "Auto-save on \u{2014} panel settings are saved and restored on boot (.lp/state.json)";

pub const AUTO_SAVE_OFF: &'static str = "Auto-save off \u{2014} panel settings are NOT saved, and are lost on restart";

pub const SAVE_ICON_ON: &'static str = "tw:inline-flex tw:flex-none tw:text-subtle-foreground";

pub const SAVE_ICON_OFF: &'static str = "tw:inline-flex tw:flex-none tw:text-dim-foreground";

/// How the auto-save switch is drawn, and what pressing it means.
#[derive(Clone, Debug, PartialEq, Eq)]
pub struct AutoSaveSwitch {
    pub track_class: &'static str,
    pub knob_class: &'static str,
    pub title: &'static str,
    pub icon_class: &'static str,
    pub press: PanelGesture,
}

/// How the auto-save switch is drawn. Pressing it asks for the other setting.
pub fn auto_save_switch(auto_save: bool) -> (r: AutoSaveSwitch)
    ensures
        r.track_class@ == if auto_save {
            TRACK_ON@
        } else {
            TRACK_OFF@
        },
        r.knob_class@ == if auto_save {
            KNOB_ON@
        } else {
            KNOB_OFF@
        },
        r.title@ == if auto_save {
            AUTO_SAVE_ON@
        } else {
            AUTO_SAVE_OFF@
        },
        r.icon_class@ == if auto_save {
            SAVE_ICON_ON@
        } else {
            SAVE_ICON_OFF@
        },
        r.press == PanelGesture::SetAutoSave(!auto_save),
{
    if auto_save {
        AutoSaveSwitch {
            track_class: TRACK_ON,
            knob_class: KNOB_ON,
            title: AUTO_SAVE_ON,
            icon_class: SAVE_ICON_ON,
            press: PanelGesture::SetAutoSave(false),
        }
    } else {
        AutoSaveSwitch {
            track_class: TRACK_OFF,
            knob_class: KNOB_OFF,
            title: AUTO_SAVE_OFF,
            icon_class: SAVE_ICON_OFF,
            press: PanelGesture::SetAutoSave(true),
        }
    }
}

/// Two controls in different states are told apart by the colours of their
/// labels, and of their readouts.
pub proof fn the_three_states_look_different(a: UiPanelControlState, b: UiPanelControlState)
    requires
        a != b,
    ensures
        label_color(a) != label_color(b),
        readout_color(a) != readout_color(b),
{
    reveal_strlit("tw:text-subtle-foreground");
    reveal_strlit("tw:text-status-bound-foreground");
    reveal_strlit("tw:text-status-attention-foreground");
    reveal_strlit("tw:text-dim-foreground");
    assert(LABEL_DEFAULT@.len() == 25);
    assert(LABEL_FOLLOWING@.len() == 31);
    assert(LABEL_ENGAGED@.len() == 35);
    assert(READOUT_DEFAULT@.len() == 22);
}

} // verus!
