//! A module's panel: its controls, their states, and the groups that nest in
//! it.
//!
//! A control's identity is its scope and its channel. The same control may be
//! shown on several cards; what happens to it happens wherever it is shown.

use vstd::prelude::*;
use vstd::string::*;

use crate::slot::{clone_text_opt, text_opt, ProjectSlotAddress, SlotAddressView};

verus! {

/// A scope on the wire: a module's own, or the anonymous one of a playlist
/// entry.
#[derive(Clone, Copy, Debug, PartialEq, Eq, Structural)]
pub enum WireScopeRef {
    Module { owner: u32 },
    Sink { owner: u32, entry: u32 },
}

/// The three states of a panel control.
#[derive(Clone, Copy, Debug, PartialEq, Eq, Structural)]
pub enum UiPanelControlState {
    /// Nothing writes the channel: the control rests at its default.
    ReadDefault,
    /// A writer drives the channel and the control shows it.
    ReadFollowing,
    /// The panel holds the channel.
    Engaged,
}

impl UiPanelControlState {
    /// Whether the panel holds the control.
    pub fn engaged(self) -> (r: bool)
        ensures
            r == (self == UiPanelControlState::Engaged),
    {
        matches!(self, UiPanelControlState::Engaged)
    }
}

/// What a widget sends: a plain value, or a whole gradient.
#[derive(Clone, Copy, Debug, PartialEq, Eq, Structural)]
pub enum UiPanelEmit {
    Value,
    Gradient,
}

/// The widget of a control. Single-precision numbers are bit patterns.
#[derive(Clone, Copy, Debug, PartialEq, Eq, Structural)]
pub enum UiPanelWidget {
    Knob { min: u32, max: u32, step: Option<u32> },
    Fader { min: u32, max: u32, step: Option<u32> },
    Toggle,
    PaletteSwatch,
    PatternPicker,
}

/// The value a control holds. A single-precision number is a bit pattern.
#[derive(Debug, PartialEq, Eq)]
pub enum UiSlotValue {
    Bool(bool),
    F32(u32),
    Text(String),
}

/// What a [`UiSlotValue`] holds.
pub enum SlotValueModel {
    Bool(bool),
    F32(u32),
    Text(Seq<char>),
}

impl View for UiSlotValue {
    type V = SlotValueModel;

    open spec fn view(&self) -> SlotValueModel {
        match *self {
            UiSlotValue::Bool(value) => SlotValueModel::Bool(value),
            UiSlotValue::F32(bits) => SlotValueModel::F32(bits),
            UiSlotValue::Text(text) => SlotValueModel::Text(text@),
        }
    }
}

impl Clone for UiSlotValue {
    fn clone(&self) -> (r: Self)
        ensures
            r == *self,
    {
        match self {
            UiSlotValue::Bool(value) => UiSlotValue::Bool(*value),
            UiSlotValue::F32(bits) => UiSlotValue::F32(*bits),
            UiSlotValue::Text(text) => UiSlotValue::Text(text.clone()),
        }
    }
}

/// Where a control's panel writes go, and whether the panel holds the channel.
#[derive(Debug, PartialEq, Eq)]
pub struct UiPanelTarget {
    pub scope: WireScopeRef,
    pub channel: String,
    pub engaged: bool,
}

/// What a [`UiPanelTarget`] says.
pub struct TargetModel {
    pub scope: WireScopeRef,
    pub channel: Seq<char>,
    pub engaged: bool,
}

impl View for UiPanelTarget {
    type V = TargetModel;

    open spec fn view(&self) -> TargetModel {
        TargetModel { scope: self.scope, channel: self.channel@, engaged: self.engaged }
    }
}

impl Clone for UiPanelTarget {
    fn clone(&self) -> (r: Self)
        ensures
            r == *self,
    {
        UiPanelTarget {
            scope: self.scope,
            channel: self.channel.clone(),
            engaged: self.engaged,
        }
    }
}

/// What an optional target says.
pub open spec fn target_opt(target: Option<UiPanelTarget>) -> Option<TargetModel> {
    match target {
        Some(t) => Some(t@),
        None => None,
    }
}

/// What an optional address says.
pub open spec fn address_opt(address: Option<ProjectSlotAddress>) -> Option<SlotAddressView> {
    match address {
        Some(a) => Some(a@),
        None => None,
    }
}

/// Copies an optional target.
pub fn clone_target_opt(target: &Option<UiPanelTarget>) -> (r: Option<UiPanelTarget>)
    ensures
        r == *target,
{
    match target {
        Some(t) => Some(t.clone()),
        None => None,
    }
}

/// Copies an optional address.
pub fn clone_address_opt(address: &Option<ProjectSlotAddress>) -> (r: Option<ProjectSlotAddress>)
    ensures
        r == *address,
{
    match address {
        Some(a) => Some(a.clone()),
        None => None,
    }
}

/// A widget with the value it shows and the places it writes to.
#[derive(Debug, PartialEq, Eq)]
pub struct UiPanelControl {
    pub emit: UiPanelEmit,
    pub label: String,
    pub address: Option<ProjectSlotAddress>,
    pub widget: UiPanelWidget,
    pub value: UiSlotValue,
    pub live_value: Option<String>,
    pub panel_target: Option<UiPanelTarget>,
}

impl Clone for UiPanelControl {
    fn clone(&self) -> (r: Self)
        ensures
            r == *self,
    {
        UiPanelControl {
            emit: self.emit,
            label: self.label.clone(),
            address: clone_address_opt(&self.address),
            widget: self.widget,
            value: self.value.clone(),
            live_value: clone_text_opt(&self.live_value),
            panel_target: clone_target_opt(&self.panel_target),
        }
    }
}

/// A control on a panel: its channel, its widget and its state. `source` says
/// in words what drives it, or what the held value displaced.
#[derive(Debug, PartialEq, Eq)]
pub struct UiPanelControlView {
    pub channel: String,
    pub control: UiPanelControl,
    pub state: UiPanelControlState,
    pub source: Option<String>,
}

/// What a [`UiPanelControlView`] says.
pub struct ControlModel {
    pub channel: Seq<char>,
    pub emit: UiPanelEmit,
    pub label: Seq<char>,
    pub address: Option<SlotAddressView>,
    pub widget: UiPanelWidget,
    pub value: SlotValueModel,
    pub live_value: Option<Seq<char>>,
    pub panel_target: Option<TargetModel>,
    pub state: UiPanelControlState,
    pub source: Option<Seq<char>>,
}

impl ControlModel {
    /// The panel holds the control.
    pub open spec fn engaged(self) -> bool {
        self.state == UiPanelControlState::Engaged
    }
}

impl View for UiPanelControlView {
    type V = ControlModel;

    open spec fn view(&self) -> ControlModel {
        ControlModel {
            channel: self.channel@,
            emit: self.control.emit,
            label: self.control.label@,
            address: address_opt(self.control.address),
            widget: self.control.widget,
            value: self.control.value@,
            live_value: text_opt(self.control.live_value),
            panel_target: target_opt(self.control.panel_target),
            state: self.state,
            source: text_opt(self.source),
        }
    }
}

impl Clone for UiPanelControlView {
    fn clone(&self) -> (r: Self)
        ensures
            r == *self,
    {
        UiPanelControlView {
            channel: self.channel.clone(),
            control: self.control.clone(),
            state: self.state,
            source: clone_text_opt(&self.source),
        }
    }
}

impl UiPanelControlView {
    /// A control at rest.
    pub fn new(channel: &str, control: UiPanelControl) -> (r: Self)
        ensures
            r.channel@ == channel@,
            r.control == control,
            r.state == UiPanelControlState::ReadDefault,
            r.source is None,
    {
        UiPanelControlView {
            channel: channel.to_string(),
            control,
            state: UiPanelControlState::ReadDefault,
            source: None,
        }
    }

    /// The control in another state, with the words for its source.
    pub fn with_state(self, state: UiPanelControlState, source: Option<&str>) -> (r: Self)
        ensures
            r.channel == self.channel,
            r.control == self.control,
            r.state == state,
            source matches Some(words) ==> r.source matches Some(s) && s@ == words@,
            source is None ==> r.source is None,
    {
        UiPanelControlView {
            channel: self.channel,
            control: self.control,
            state,
            source: match source {
                Some(words) => Some(words.to_string()),
                None => None,
            },
        }
    }
}

/// One scope's controls under its label, and the groups of the modules inside.
#[derive(Debug, PartialEq, Eq)]
pub struct UiPanelGroup {
    pub label: String,
    pub scope: String,
    pub target: Option<WireScopeRef>,
    pub controls: Vec<UiPanelControlView>,
    pub groups: Vec<UiPanelGroup>,
}

/// What a [`UiPanelGroup`] says.
#[verifier::ext_equal]
pub struct GroupModel {
    pub label: Seq<char>,
    pub scope: Seq<char>,
    pub target: Option<WireScopeRef>,
    pub controls: Seq<ControlModel>,
    pub groups: Seq<GroupModel>,
}

/// What each control of a list says.
pub open spec fn control_models(controls: Seq<UiPanelControlView>) -> Seq<ControlModel> {
    Seq::new(controls.len(), |i: int| controls[i]@)
}

/// What each group of a list says.
pub open spec fn group_models(groups: Seq<UiPanelGroup>) -> Seq<GroupModel> {
    Seq::new(groups.len(), |i: int| groups[i]@)
}

impl UiPanelGroup {
    /// What the group says.
    pub open spec fn model(&self) -> GroupModel
        decreases self,
    {
        GroupModel {
            label: self.label@,
            scope: self.scope@,
            target: self.target,
            controls: control_models(self.controls@),
            groups: Seq::new(
                self.groups@.len(),
                |i: int|
                    if 0 <= i < self.groups@.len() {
                        self.groups@[i].model()
                    } else {
                        arbitrary()
                    },
            ),
        }
    }
}

impl View for UiPanelGroup {
    type V = GroupModel;

    open spec fn view(&self) -> GroupModel {
        self.model()
    }
}

/// Copies a list of controls.
pub fn clone_controls(controls: &Vec<UiPanelControlView>) -> (r: Vec<UiPanelControlView>)
    ensures
        r@ =~= controls@,
{
    let mut copies: Vec<UiPanelControlView> = Vec::new();
    let mut at: usize = 0;
    while at < controls.len()
        invariant
            at <= controls.len(),
            copies@ =~= controls@.take(at as int),
        decreases controls.len() - at,
    {
        copies.push(controls[at].clone());
        at += 1;
    }
    copies
}

impl Clone for UiPanelGroup {
    fn clone(&self) -> (r: Self)
        ensures
            r@ == self@,
        decreases self,
    {
        let mut groups: Vec<UiPanelGroup> = Vec::new();
        let mut at: usize = 0;
        while at < self.groups.len()
            invariant
                at <= self.groups.len(),
                groups.len() == at,
                forall|i: int| 0 <= i < at ==> (#[trigger] groups@[i])@ == self.groups@[i]@,
            decreases self.groups.len() - at,
        {
            let nested: &UiPanelGroup = &self.groups[at];
            groups.push(nested.clone());
            at += 1;
        }
        let r = UiPanelGroup {
            label: self.label.clone(),
            scope: self.scope.clone(),
            target: self.target,
            controls: clone_controls(&self.controls),
            groups,
        };
        assert(r@.groups =~= self@.groups);
        r
    }
}

/// How many controls of a list the panel holds.
pub open spec fn engaged_count(controls: Seq<ControlModel>) -> nat
    decreases controls.len(),
{
    if controls.len() == 0 {
        0
    } else {
        engaged_count(controls.drop_last()) + if controls.last().engaged() {
            1nat
        } else {
            0nat
        }
    }
}

impl GroupModel {
    /// The group's own controls that the panel holds.
    pub open spec fn engaged_here(self) -> nat {
        engaged_count(self.controls)
    }

    /// Held controls of the group and of everything nested in it.
    pub open spec fn engaged_total(self) -> nat
        decreases self,
    {
        self.engaged_here() + engaged_in_groups(self.groups)
    }
}

/// Held controls of a list of groups, nested ones included.
pub open spec fn engaged_in_groups(groups: Seq<GroupModel>) -> nat
    decreases groups,
{
    if groups.len() == 0 {
        0
    } else {
        engaged_in_groups(groups.drop_last()) + groups.last().engaged_total()
    }
}

/// No control of the list is held exactly where the count is zero.
pub proof fn nothing_held_counts_zero(controls: Seq<ControlModel>)
    ensures
        engaged_count(controls) == 0 <==> forall|i: int|
            0 <= i < controls.len() ==> !(#[trigger] controls[i]).engaged(),
        engaged_count(controls) <= controls.len(),
    decreases controls.len(),
{
    if controls.len() > 0 {
        let head = controls.drop_last();
        nothing_held_counts_zero(head);
        assert(forall|i: int| 0 <= i < head.len() ==> head[i] == controls[i]);
        assert(controls[controls.len() - 1] == controls.last());
        if engaged_count(controls) == 0 {
            assert forall|i: int| 0 <= i < controls.len() implies !(
            #[trigger] controls[i]).engaged() by {
                if i < head.len() {
                    assert(head[i] == controls[i]);
                }
            }
        }
        if forall|i: int| 0 <= i < controls.len() ==> !(#[trigger] controls[i]).engaged() {
            assert forall|i: int| 0 <= i < head.len() implies !(
            #[trigger] head[i]).engaged() by {
                assert(head[i] == controls[i]);
            }
        }
    }
}

impl UiPanelGroup {
    /// An empty group.
    pub fn new(label: &str, scope: &str) -> (r: Self)
        ensures
            r@ == (GroupModel {
                label: label@,
                scope: scope@,
                target: None,
                controls: Seq::empty(),
                groups: Seq::empty(),
            }),
    {
        let r = UiPanelGroup {
            label: label.to_string(),
            scope: scope.to_string(),
            target: None,
            controls: Vec::new(),
            groups: Vec::new(),
        };
        assert(r@.controls =~= Seq::<ControlModel>::empty());
        assert(r@.groups =~= Seq::<GroupModel>::empty());
        r
    }

    /// The group with the scope its clears address.
    pub fn with_target(self, target: WireScopeRef) -> (r: Self)
        ensures
            r@ == (GroupModel { target: Some(target), ..self@ }),
    {
        UiPanelGroup { target: Some(target), ..self }
    }

    /// The group with these controls of its own.
    pub fn with_controls(self, controls: Vec<UiPanelControlView>) -> (r: Self)
        ensures
            r@ == (GroupModel { controls: control_models(controls@), ..self@ }),
    {
        UiPanelGroup { controls, ..self }
    }

    /// The group with these groups nested in it.
    pub fn with_groups(self, groups: Vec<UiPanelGroup>) -> (r: Self)
        ensures
            r@ == (GroupModel { groups: group_models(groups@), ..self@ }),
    {
        let r = UiPanelGroup { groups, ..self };
        assert(r@.groups =~= group_models(groups@));
        r
    }

    /// Whether there is nothing to show: no control and no nested group.
    pub fn is_empty(&self) -> (r: bool)
        ensures
            r == (self@.controls.len() == 0 && self@.groups.len() == 0),
    {
        self.controls.len() == 0 && self.groups.len() == 0
    }

    /// How many of the group's own controls the panel holds.
    pub fn engaged_here(&self) -> (r: usize)
        ensures
            r == self@.engaged_here(),
    {
        let mut held: usize = 0;
        let mut at: usize = 0;
        while at < self.controls.len()
            invariant
                at <= self.controls.len(),
                held <= at,
                held == engaged_count(control_models(self.controls@).take(at as int)),
            decreases self.controls.len() - at,
        {
            proof {
                let next = control_models(self.controls@).take(at + 1);
                assert(next.drop_last() =~= control_models(self.controls@).take(at as int));
                assert(next.last() == self.controls@[at as int]@);
            }
            if self.controls[at].state.engaged() {
                held += 1;
            }
            at += 1;
        }
        proof {
            assert(control_models(self.controls@).take(at as int) =~= control_models(
                self.controls@,
            ));
        }
        held
    }

    /// How many controls the panel holds in the group and everything nested in
    /// it, counting no further than `usize` reaches.
    pub fn engaged_total(&self) -> (r: usize)
        ensures
            r == if self@.engaged_total() > usize::MAX {
                usize::MAX as nat
            } else {
                self@.engaged_total()
            },
        decreases self,
    {
        let mut held: usize = self.engaged_here();
        let mut at: usize = 0;
        let ghost nested = self@.groups;
        while at < self.groups.len()
            invariant
                nested == self@.groups,
                nested.len() == self.groups.len(),
                at <= self.groups.len(),
                held == if self@.engaged_here() + engaged_in_groups(nested.take(at as int))
                    > usize::MAX {
                    usize::MAX as nat
                } else {
                    self@.engaged_here() + engaged_in_groups(nested.take(at as int))
                },
            decreases self.groups.len() - at,
        {
            proof {
                let next = nested.take(at + 1);
                assert(next.drop_last() =~= nested.take(at as int));
                assert(next.last() == self.groups@[at as int]@);
            }
            let more: usize = self.groups[at].engaged_total();
            held = held.saturating_add(more);
            at += 1;
        }
        proof {
            assert(nested.take(at as int) =~= nested);
        }
        held
    }
}

} // verus!
