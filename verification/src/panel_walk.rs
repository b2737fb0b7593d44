//! A panel that can be played without a device: turning a knob holds it,
//! resetting lets it go.
//!
//! The walk keeps the card it shows and the untouched card it started from. A
//! control's identity is `(scope, channel)`, and the same control may stand on
//! several cards of the column. Whatever happens to it happens on all of them, and
//! letting go gives each back what stood in its own place, or, where it was moved,
//! what the untouched card has under its identity.

use vstd::prelude::*;
use vstd::string::*;

use crate::action::{PanelGesture, UiAction};
use crate::module_scopes::{display_of, scope_display};
use crate::node_view::{
    face_opt, FaceModel, NodeFaceModel, NodeModel, UiModuleFace, UiNodeChild, UiNodeFace,
    UiNodeView,
};
use crate::panel::{
    control_models, ControlModel, SlotValueModel, TargetModel, UiPanelControlState,
    UiPanelControlView, UiPanelGroup, UiSlotValue,
};
use crate::panel_tree::{
    and_next, child_controls, children_controls, face_controls, group_controls, groups_controls,
    map_child, map_face, map_group, map_node, map_node_composes, node_controls, own_controls,
    zip_child, zip_face, zip_group, zip_node, zip_node_keeps, ControlMap, PairMap, Placed,
};
use crate::slot::{LpValue, LpValueView, ProjectSlotAddress, SlotAddressView};
use crate::text::{has_prefix, same_text, starts_with};

verus! {

/// A control with the scope it lives in.
#[derive(Clone, Debug, PartialEq, Eq)]
pub struct PlacedControl {
    pub scope: String,
    pub view: UiPanelControlView,
}

impl View for PlacedControl {
    type V = Placed;

    open spec fn view(&self) -> Placed {
        (self.scope@, self.view@)
    }
}

/// What each placed control of a list says.
pub open spec fn placed_models(controls: Seq<PlacedControl>) -> Seq<Placed> {
    Seq::new(controls.len(), |i: int| controls[i]@)
}

/// The first control of the list with this identity.
pub open spec fn first_with_identity(
    controls: Seq<Placed>,
    scope: Seq<char>,
    channel: Seq<char>,
) -> Option<ControlModel>
    decreases controls.len(),
{
    if controls.len() == 0 {
        None
    } else if controls[0].0 == scope && controls[0].1.channel == channel {
        Some(controls[0].1)
    } else {
        first_with_identity(controls.drop_first(), scope, channel)
    }
}

/// A control to start out held: its identity and the held number's bits.
#[derive(Clone, Debug, PartialEq, Eq)]
pub struct HeldControl {
    pub scope: String,
    pub channel: String,
    pub value: u32,
}

/// The control as the panel holds it at `value`, exactly as if its widget had
/// been turned there.
pub open spec fn held(c: ControlModel, value: u32) -> ControlModel {
    touched(c, LpValueView::F32(value))
}

/// The control after its widget wrote `value`. The first touch takes hold of
/// the channel; later ones only move the held value. What drove the control
/// before stays on record: that is what the held value displaced.
pub open spec fn touched(c: ControlModel, value: LpValueView) -> ControlModel {
    ControlModel {
        value: match value {
            LpValueView::Bool(next) => SlotValueModel::Bool(next),
            LpValueView::F32(next) => SlotValueModel::F32(next),
            _ => c.value,
        },
        source: if !c.engaged() && c.source is None {
            Some("project"@)
        } else {
            c.source
        },
        state: UiPanelControlState::Engaged,
        panel_target: match c.panel_target {
            Some(target) => Some(TargetModel { engaged: true, ..target }),
            None => None,
        },
        ..c
    }
}

/// A change of the controls of a card.
#[derive(Clone, Debug, PartialEq, Eq)]
pub enum ControlEdit {
    /// Hold every control with this identity.
    Hold { scope: String, channel: String, level: u32 },
    /// A widget wrote to the slot at this address.
    Touch { address: ProjectSlotAddress, value: LpValue },
    /// Let go of what the clear covers, to what the list has under its identity.
    Restore { clear: ControlClear, pristine: Vec<PlacedControl> },
}

/// What a [`ControlEdit`] says.
pub enum EditModel {
    Hold { scope: Seq<char>, channel: Seq<char>, level: u32 },
    Touch { address: SlotAddressView, value: LpValueView },
    Restore { clear: ClearModel, pristine: Seq<Placed> },
}

impl View for ControlEdit {
    type V = EditModel;

    open spec fn view(&self) -> EditModel {
        match *self {
            ControlEdit::Hold { scope, channel, level } => EditModel::Hold {
                scope: scope@,
                channel: channel@,
                level,
            },
            ControlEdit::Touch { address, value } => EditModel::Touch {
                address: address@,
                value: value@,
            },
            ControlEdit::Restore { clear, pristine } => EditModel::Restore {
                clear: clear@,
                pristine: placed_models(pristine@),
            },
        }
    }
}

impl EditModel {
    /// What the edit makes of one control.
    pub open spec fn change(self, at: Seq<char>, c: ControlModel) -> ControlModel {
        match self {
            EditModel::Hold { scope, channel, level } => if at == scope && c.channel == channel {
                held(c, level)
            } else {
                c
            },
            EditModel::Touch { address, value } => if c.address == Some(address) {
                touched(c, value)
            } else {
                c
            },
            EditModel::Restore { clear, pristine } => if clear.covers(at, c) {
                match first_with_identity(pristine, at, c.channel) {
                    Some(original) => original,
                    None => c,
                }
            } else {
                c
            },
        }
    }

    /// The edit as a change of whole cards.
    pub open spec fn as_map(self) -> ControlMap {
        |at: Seq<char>, c: ControlModel| self.change(at, c)
    }
}

/// Takes hold of a control at `value`.
pub fn hold(view: &mut UiPanelControlView, value: u32)
    ensures
        final(view)@ == held(old(view)@, value),
{
    touch(view, &LpValue::F32(value));
}

/// Writes a value to a control, as its widget does.
pub fn touch(view: &mut UiPanelControlView, value: &LpValue)
    ensures
        final(view)@ == touched(old(view)@, value@),
{
    match value {
        LpValue::Bool(next) => {
            view.control.value = UiSlotValue::Bool(*next);
        },
        LpValue::F32(next) => {
            view.control.value = UiSlotValue::F32(*next);
        },
        _ => {},
    }
    if !view.state.engaged() {
        if view.source.is_none() {
            view.source = Some("project".to_string());
        }
        view.state = UiPanelControlState::Engaged;
    }
    match &mut view.control.panel_target {
        Some(target) => {
            target.engaged = true;
        },
        None => {},
    }
}

fn restore_by_identity(view: &mut UiPanelControlView, scope: &str, pristine: &Vec<PlacedControl>)
    ensures
        final(view)@ == match first_with_identity(
            placed_models(pristine@),
            scope@,
            old(view)@.channel,
        ) {
            Some(original) => original,
            None => old(view)@,
        },
{
    let ghost all = placed_models(pristine@);
    let mut at: usize = 0;
    assert(all.skip(0) =~= all);
    while at < pristine.len()
        invariant
            at <= pristine.len(),
            all == placed_models(pristine@),
            *view == *old(view),
            first_with_identity(all, scope@, view@.channel) == first_with_identity(
                all.skip(at as int),
                scope@,
                view@.channel,
            ),
        decreases pristine.len() - at,
    {
        proof {
            assert(all.skip(at as int)[0] == pristine@[at as int]@);
            assert(all.skip(at as int).drop_first() =~= all.skip(at + 1));
        }
        if same_text(pristine[at].scope.as_str(), scope) && pristine[at].view.channel
            == view.channel {
            *view = pristine[at].view.clone();
            return ;
        }
        at += 1;
    }
}

impl ControlEdit {
    /// Makes the change on one control.
    pub fn apply(&self, scope: &str, view: &mut UiPanelControlView)
        ensures
            final(view)@ == self@.change(scope@, old(view)@),
    {
        match self {
            ControlEdit::Hold { scope: wanted, channel, level } => {
                if same_text(scope, wanted.as_str()) && view.channel == *channel {
                    hold(view, *level);
                }
            },
            ControlEdit::Touch { address, value } => {
                let hit: bool = match &view.control.address {
                    Some(own) => own.same(address),
                    None => false,
                };
                if hit {
                    touch(view, value);
                }
            },
            ControlEdit::Restore { clear, pristine } => {
                if clear.covers(scope, view) {
                    restore_by_identity(view, scope, pristine);
                }
            },
        }
    }
}

/// Makes the change on every control of a group and of the groups nested in it.
pub fn visit_group_controls(group: &mut UiPanelGroup, edit: &ControlEdit)
    ensures
        final(group)@ == map_group(old(group)@, edit@.as_map()),
    decreases *old(group),
{
    let scope: String = group.scope.clone();
    let mut at: usize = 0;
    let controls: usize = group.controls.len();
    while at < controls
        invariant
            at <= controls,
            controls == group.controls@.len(),
            controls == old(group).controls@.len(),
            scope@ == old(group).scope@,
            group.scope == old(group).scope,
            group.label == old(group).label,
            group.target == old(group).target,
            group.groups == old(group).groups,
            forall|i: int|
                0 <= i < at ==> (#[trigger] group.controls@[i])@ == edit@.change(
                    scope@,
                    old(group).controls@[i]@,
                ),
            forall|i: int|
                at <= i < controls ==> group.controls@[i] == old(group).controls@[i],
        decreases controls - at,
    {
        edit.apply(scope.as_str(), &mut group.controls[at]);
        at += 1;
    }
    let ghost f = edit@.as_map();
    assert(control_models(group.controls@) =~= map_group(old(group)@, f).controls);
    let groups: usize = group.groups.len();
    at = 0;
    while at < groups
        invariant
            at <= groups,
            groups == group.groups@.len(),
            groups == old(group).groups@.len(),
            f == edit@.as_map(),
            group.scope == old(group).scope,
            group.label == old(group).label,
            group.target == old(group).target,
            control_models(group.controls@) == map_group(old(group)@, f).controls,
            forall|i: int|
                0 <= i < at ==> (#[trigger] group.groups@[i])@ == map_group(
                    old(group).groups@[i]@,
                    f,
                ),
            forall|i: int| at <= i < groups ==> group.groups@[i] == old(group).groups@[i],
        decreases groups - at,
    {
        visit_group_controls(&mut group.groups[at], edit);
        at += 1;
    }
    assert(group@.groups =~= map_group(old(group)@, f).groups);
}

/// Makes the change on every control of a face that has a panel.
pub fn visit_face_controls(face: &mut Option<UiNodeFace>, edit: &ControlEdit)
    ensures
        face_opt(*final(face)) == map_face(face_opt(*old(face)), edit@.as_map()),
{
    match face {
        Some(UiNodeFace::Module(module)) => {
            visit_group_controls(&mut module.panel, edit);
        },
        Some(UiNodeFace::Controls(group)) => {
            visit_group_controls(group, edit);
        },
        _ => {},
    }
}

/// Makes the change on every control of a child card and of the cards below it.
pub fn visit_child_controls(child: &mut UiNodeChild, edit: &ControlEdit)
    ensures
        final(child)@ == map_child(old(child)@, edit@.as_map()),
    decreases *old(child),
{
    let ghost f = edit@.as_map();
    visit_face_controls(&mut child.face, edit);
    let mut at: usize = 0;
    let children: usize = child.children.len();
    while at < children
        invariant
            at <= children,
            children == child.children@.len(),
            children == old(child).children@.len(),
            f == edit@.as_map(),
            child.label == old(child).label,
            child.kind == old(child).kind,
            child.detail == old(child).detail,
            child.summary == old(child).summary,
            child.status == old(child).status,
            child.sections == old(child).sections,
            face_opt(child.face) == map_face(face_opt(old(child).face), f),
            forall|i: int|
                0 <= i < at ==> (#[trigger] child.children@[i])@ == map_child(
                    old(child).children@[i]@,
                    f,
                ),
            forall|i: int| at <= i < children ==> child.children@[i] == old(child).children@[i],
        decreases children - at,
    {
        visit_child_controls(&mut child.children[at], edit);
        at += 1;
    }
    assert(child@.children =~= map_child(old(child)@, f).children);
}

/// Makes the change on every control of a card and of the cards below it.
pub fn visit_view_controls(view: &mut UiNodeView, edit: &ControlEdit)
    ensures
        final(view)@ == map_node(old(view)@, edit@.as_map()),
{
    let ghost f = edit@.as_map();
    visit_face_controls(&mut view.face, edit);
    let mut at: usize = 0;
    let children: usize = view.children.len();
    while at < children
        invariant
            at <= children,
            children == view.children@.len(),
            children == old(view).children@.len(),
            f == edit@.as_map(),
            view.header == old(view).header,
            view.node_id == old(view).node_id,
            face_opt(view.face) == map_face(face_opt(old(view).face), f),
            forall|i: int|
                0 <= i < at ==> (#[trigger] view.children@[i])@ == map_child(
                    old(view).children@[i]@,
                    f,
                ),
            forall|i: int| at <= i < children ==> view.children@[i] == old(view).children@[i],
        decreases children - at,
    {
        visit_child_controls(&mut view.children[at], edit);
        at += 1;
    }
    assert(view@.children =~= map_node(old(view)@, f).children);
}

/// Which controls a clear lets go of.
#[derive(Debug, PartialEq, Eq)]
pub enum ControlClear {
    /// Every control with this identity.
    Control { scope: String, channel: String },
    /// Every control in and under this scope.
    Scope { scope: String },
}

/// What a [`ControlClear`] says.
pub enum ClearModel {
    Control { scope: Seq<char>, channel: Seq<char> },
    Scope { scope: Seq<char> },
}

impl View for ControlClear {
    type V = ClearModel;

    open spec fn view(&self) -> ClearModel {
        match *self {
            ControlClear::Control { scope, channel } => ClearModel::Control {
                scope: scope@,
                channel: channel@,
            },
            ControlClear::Scope { scope } => ClearModel::Scope { scope: scope@ },
        }
    }
}

impl Clone for ControlClear {
    fn clone(&self) -> (r: Self)
        ensures
            r == *self,
    {
        match self {
            ControlClear::Control { scope, channel } => ControlClear::Control {
                scope: scope.clone(),
                channel: channel.clone(),
            },
            ControlClear::Scope { scope } => ControlClear::Scope { scope: scope.clone() },
        }
    }
}

impl ClearModel {
    /// The clear lets go of this control.
    pub open spec fn covers(self, at: Seq<char>, c: ControlModel) -> bool {
        match self {
            ClearModel::Control { scope, channel } => at == scope && c.channel == channel,
            ClearModel::Scope { scope } => has_prefix(at, scope),
        }
    }

    /// What the clear makes of one control, given the one that stands in its
    /// place on the untouched card.
    pub open spec fn change(
        self,
        at: Seq<char>,
        c: ControlModel,
        original: ControlModel,
    ) -> ControlModel {
        if self.covers(at, c) && c.channel == original.channel {
            original
        } else {
            c
        }
    }

    /// The clear as a change of whole cards.
    pub open spec fn as_map(self) -> PairMap {
        |at: Seq<char>, c: ControlModel, original: ControlModel| self.change(at, c, original)
    }
}

impl ControlClear {
    /// Whether the clear lets go of this control.
    pub fn covers(&self, scope: &str, view: &UiPanelControlView) -> (r: bool)
        ensures
            r == self@.covers(scope@, view@),
    {
        match self {
            ControlClear::Control { scope: wanted, channel } => same_text(scope, wanted.as_str())
                && view.channel == *channel,
            ControlClear::Scope { scope: wanted } => starts_with(scope, wanted.as_str()),
        }
    }

    /// Lets go of one control, where the clear covers it.
    pub fn apply(&self, scope: &str, view: &mut UiPanelControlView, original: &UiPanelControlView)
        ensures
            final(view)@ == self@.change(scope@, old(view)@, original@),
    {
        if self.covers(scope, view) && view.channel == original.channel {
            *view = original.clone();
        }
    }
}

/// Lets go of the controls of a group and of the groups nested in it.
pub fn restore_group_controls(
    group: &mut UiPanelGroup,
    original: &UiPanelGroup,
    clear: &ControlClear,
)
    ensures
        final(group)@ == zip_group(old(group)@, original@, clear@.as_map()),
    decreases *old(group),
{
    let ghost f = clear@.as_map();
    let ghost target = zip_group(old(group)@, original@, f);
    let scope: String = group.scope.clone();
    let same_scope: bool = same_text(scope.as_str(), original.scope.as_str());
    let mut at: usize = 0;
    let controls: usize = group.controls.len();
    while at < controls
        invariant
            at <= controls,
            controls == group.controls@.len(),
            controls == old(group).controls@.len(),
            scope@ == old(group).scope@,
            same_scope == (scope@ == original.scope@),
            f == clear@.as_map(),
            target == zip_group(old(group)@, original@, f),
            group.scope == old(group).scope,
            group.label == old(group).label,
            group.target == old(group).target,
            group.groups == old(group).groups,
            forall|i: int| 0 <= i < at ==> (#[trigger] group.controls@[i])@ == target.controls[i],
            forall|i: int|
                at <= i < controls ==> group.controls@[i] == old(group).controls@[i],
        decreases controls - at,
    {
        if same_scope && at < original.controls.len() {
            clear.apply(scope.as_str(), &mut group.controls[at], &original.controls[at]);
        }
        at += 1;
    }
    assert(control_models(group.controls@) =~= target.controls);
    let groups: usize = group.groups.len();
    at = 0;
    while at < groups
        invariant
            at <= groups,
            groups == group.groups@.len(),
            groups == old(group).groups@.len(),
            f == clear@.as_map(),
            target == zip_group(old(group)@, original@, f),
            group.scope == old(group).scope,
            group.label == old(group).label,
            group.target == old(group).target,
            control_models(group.controls@) == target.controls,
            forall|i: int| 0 <= i < at ==> (#[trigger] group.groups@[i])@ == target.groups[i],
            forall|i: int| at <= i < groups ==> group.groups@[i] == old(group).groups@[i],
        decreases groups - at,
    {
        if at < original.groups.len() {
            restore_group_controls(&mut group.groups[at], &original.groups[at], clear);
        }
        at += 1;
    }
    assert(group@.groups =~= target.groups);
}

/// Lets go of the controls of a face that has a panel.
pub fn restore_face_controls(
    face: &mut Option<UiNodeFace>,
    original: &Option<UiNodeFace>,
    clear: &ControlClear,
)
    ensures
        face_opt(*final(face)) == zip_face(
            face_opt(*old(face)),
            face_opt(*original),
            clear@.as_map(),
        ),
{
    match face {
        Some(UiNodeFace::Module(module)) => {
            match original {
                Some(UiNodeFace::Module(untouched)) => {
                    restore_group_controls(&mut module.panel, &untouched.panel, clear);
                },
                _ => {},
            }
        },
        Some(UiNodeFace::Controls(group)) => {
            match original {
                Some(UiNodeFace::Controls(untouched)) => {
                    restore_group_controls(group, untouched, clear);
                },
                _ => {},
            }
        },
        _ => {},
    }
}

/// Lets go of the controls of a child card and of the cards below it.
pub fn restore_child_controls(
    child: &mut UiNodeChild,
    original: &UiNodeChild,
    clear: &ControlClear,
)
    ensures
        final(child)@ == zip_child(old(child)@, original@, clear@.as_map()),
    decreases *old(child),
{
    let ghost f = clear@.as_map();
    let ghost target = zip_child(old(child)@, original@, f);
    restore_face_controls(&mut child.face, &original.face, clear);
    let mut at: usize = 0;
    let children: usize = child.children.len();
    while at < children
        invariant
            at <= children,
            children == child.children@.len(),
            children == old(child).children@.len(),
            f == clear@.as_map(),
            target == zip_child(old(child)@, original@, f),
            child.label == old(child).label,
            child.kind == old(child).kind,
            child.detail == old(child).detail,
            child.summary == old(child).summary,
            child.status == old(child).status,
            child.sections == old(child).sections,
            face_opt(child.face) == target.face,
            forall|i: int|
                0 <= i < at ==> (#[trigger] child.children@[i])@ == target.children[i],
            forall|i: int| at <= i < children ==> child.children@[i] == old(child).children@[i],
        decreases children - at,
    {
        if at < original.children.len() {
            restore_child_controls(&mut child.children[at], &original.children[at], clear);
        }
        at += 1;
    }
    assert(child@.children =~= target.children);
}

/// Lets go of the controls of a card and of the cards below it.
pub fn restore_view_controls(view: &mut UiNodeView, original: &UiNodeView, clear: &ControlClear)
    ensures
        final(view)@ == zip_node(old(view)@, original@, clear@.as_map()),
{
    let ghost f = clear@.as_map();
    let ghost target = zip_node(old(view)@, original@, f);
    restore_face_controls(&mut view.face, &original.face, clear);
    let mut at: usize = 0;
    let children: usize = view.children.len();
    while at < children
        invariant
            at <= children,
            children == view.children@.len(),
            children == old(view).children@.len(),
            f == clear@.as_map(),
            target == zip_node(old(view)@, original@, f),
            view.header == old(view).header,
            view.node_id == old(view).node_id,
            face_opt(view.face) == target.face,
            forall|i: int|
                0 <= i < at ==> (#[trigger] view.children@[i])@ == target.children[i],
            forall|i: int| at <= i < children ==> view.children@[i] == old(view).children@[i],
        decreases children - at,
    {
        if at < original.children.len() {
            restore_child_controls(&mut view.children[at], &original.children[at], clear);
        }
        at += 1;
    }
    assert(view@.children =~= target.children);
}

fn collect_group(group: &UiPanelGroup, out: &mut Vec<PlacedControl>)
    ensures
        placed_models(final(out)@) == placed_models(old(out)@) + group_controls(group@),
    decreases group,
{
    let mut at: usize = 0;
    let ghost before = placed_models(out@);
    while at < group.controls.len()
        invariant
            at <= group.controls.len(),
            before == placed_models(old(out)@),
            placed_models(out@) =~= before + own_controls(group@).take(at as int),
        decreases group.controls.len() - at,
    {
        let ghost prior = placed_models(out@);
        let ghost own = own_controls(group@);
        out.push(
            PlacedControl { scope: group.scope.clone(), view: group.controls[at].clone() },
        );
        proof {
            assert(own[at as int] == (group.scope@, group.controls@[at as int]@));
            assert(placed_models(out@) =~= prior.push(own[at as int]));
            assert(own.take(at + 1) =~= own.take(at as int).push(own[at as int]));
        }
        at += 1;
    }
    assert(own_controls(group@).take(at as int) =~= own_controls(group@));
    let ghost nested = group@.groups;
    at = 0;
    assert(groups_controls(nested.take(0)) =~= Seq::<Placed>::empty());
    while at < group.groups.len()
        invariant
            at <= group.groups.len(),
            nested == group@.groups,
            placed_models(out@) =~= before + own_controls(group@) + groups_controls(
                nested.take(at as int),
            ),
        decreases group.groups.len() - at,
    {
        proof {
            let next = nested.take(at + 1);
            assert(next.drop_last() =~= nested.take(at as int));
            assert(next.last() == group.groups@[at as int]@);
        }
        collect_group(&group.groups[at], out);
        at += 1;
    }
    assert(nested.take(at as int) =~= nested);
}

fn collect_face(face: &Option<UiNodeFace>, out: &mut Vec<PlacedControl>)
    ensures
        placed_models(final(out)@) == placed_models(old(out)@) + face_controls(face_opt(*face)),
{
    match face {
        Some(UiNodeFace::Module(module)) => {
            collect_group(&module.panel, out);
        },
        Some(UiNodeFace::Controls(group)) => {
            collect_group(group, out);
        },
        _ => {
            assert(placed_models(out@) =~= placed_models(old(out)@) + Seq::<Placed>::empty());
        },
    }
}

fn collect_child(child: &UiNodeChild, out: &mut Vec<PlacedControl>)
    ensures
        placed_models(final(out)@) == placed_models(old(out)@) + child_controls(child@),
    decreases child,
{
    let ghost before = placed_models(out@);
    collect_face(&child.face, out);
    let ghost below = child@.children;
    let mut at: usize = 0;
    assert(children_controls(below.take(0)) =~= Seq::<Placed>::empty());
    while at < child.children.len()
        invariant
            at <= child.children.len(),
            below == child@.children,
            placed_models(out@) =~= before + face_controls(child@.face) + children_controls(
                below.take(at as int),
            ),
        decreases child.children.len() - at,
    {
        proof {
            let next = below.take(at + 1);
            assert(next.drop_last() =~= below.take(at as int));
            assert(next.last() == child.children@[at as int]@);
        }
        collect_child(&child.children[at], out);
        at += 1;
    }
    assert(below.take(at as int) =~= below);
}

/// Every control of a card and of the cards below it, with its scope.
pub fn collect_controls(view: &UiNodeView) -> (r: Vec<PlacedControl>)
    ensures
        placed_models(r@) == node_controls(view@),
{
    let mut out: Vec<PlacedControl> = Vec::new();
    assert(placed_models(out@) =~= Seq::<Placed>::empty());
    collect_face(&view.face, &mut out);
    let ghost below = view@.children;
    let mut at: usize = 0;
    assert(children_controls(below.take(0)) =~= Seq::<Placed>::empty());
    while at < view.children.len()
        invariant
            at <= view.children.len(),
            below == view@.children,
            placed_models(out@) =~= face_controls(view@.face) + children_controls(
                below.take(at as int),
            ),
        decreases view.children.len() - at,
    {
        proof {
            let next = below.take(at + 1);
            assert(next.drop_last() =~= below.take(at as int));
            assert(next.last() == view.children@[at as int]@);
        }
        collect_child(&view.children[at], &mut out);
        at += 1;
    }
    assert(below.take(at as int) =~= below);
    out
}

/// The card after a clear. A control that the clear covers is given back as the
/// untouched card has it in its place; one that no longer stands where it stood,
/// as the untouched card first has it under its identity.
pub open spec fn cleared(view: NodeModel, original: NodeModel, clear: ClearModel) -> NodeModel {
    zip_node(
        map_node(view, (EditModel::Restore { clear, pristine: node_controls(original) }).as_map()),
        original,
        clear.as_map(),
    )
}

/// Lets go of what a clear covers, against the untouched card.
pub fn clear_view(view: &mut UiNodeView, original: &UiNodeView, clear: &ControlClear)
    ensures
        final(view)@ == cleared(old(view)@, original@, clear@),
{
    let edit: ControlEdit = ControlEdit::Restore {
        clear: clear.clone(),
        pristine: collect_controls(original),
    };
    visit_view_controls(view, &edit);
    restore_view_controls(view, original, clear);
}

/// A control reduced to its identity within its scope.
pub open spec fn blank(scope: Seq<char>, c: ControlModel) -> ControlModel {
    ControlModel {
        channel: c.channel,
        emit: crate::panel::UiPanelEmit::Value,
        label: Seq::empty(),
        address: None,
        widget: crate::panel::UiPanelWidget::Toggle,
        value: SlotValueModel::Bool(false),
        live_value: None,
        panel_target: None,
        state: UiPanelControlState::ReadDefault,
        source: None,
    }
}

/// [`blank`] as a change of whole cards.
pub open spec fn blanked() -> ControlMap {
    |scope: Seq<char>, c: ControlModel| blank(scope, c)
}

/// Two cards are the same but for what their controls hold.
pub open spec fn same_frame(a: NodeModel, b: NodeModel) -> bool {
    map_node(a, blanked()) == map_node(b, blanked())
}

/// The first control with an identity has that identity, and stands in the list.
pub proof fn first_with_identity_is_found(
    controls: Seq<Placed>,
    scope: Seq<char>,
    channel: Seq<char>,
)
    ensures
        match first_with_identity(controls, scope, channel) {
            Some(c) => {
                &&& c.channel == channel
                &&& exists|i: int| 0 <= i < controls.len() && controls[i] == (scope, c)
            },
            None => forall|i: int|
                0 <= i < controls.len() ==> !((#[trigger] controls[i]).0 == scope
                    && controls[i].1.channel == channel),
        },
    decreases controls.len(),
{
    if controls.len() > 0 {
        if controls[0].0 == scope && controls[0].1.channel == channel {
            assert(controls[0] == (scope, controls[0].1));
        } else {
            let rest = controls.drop_first();
            first_with_identity_is_found(rest, scope, channel);
            assert(forall|i: int| 0 <= i < rest.len() ==> rest[i] == controls[i + 1]);
            match first_with_identity(rest, scope, channel) {
                Some(c) => {
                    let k = choose|i: int| 0 <= i < rest.len() && rest[i] == (scope, c);
                    assert(controls[k + 1] == (scope, c));
                },
                None => {
                    assert forall|i: int| 0 <= i < controls.len() implies !((
                    #[trigger] controls[i]).0 == scope && controls[i].1.channel == channel) by {
                        if i > 0 {
                            assert(rest[i - 1] == controls[i]);
                        }
                    }
                },
            }
        }
    }
}

/// No edit changes which control stands where.
pub proof fn edits_keep_the_frame(node: NodeModel, edit: EditModel)
    ensures
        same_frame(map_node(node, edit.as_map()), node),
{
    map_node_composes(node, edit.as_map(), blanked());
    let both = and_next(edit.as_map(), blanked());
    assert forall|scope: Seq<char>, c: ControlModel| #[trigger]
        both(scope, c) == blank(scope, c) by {
        if let EditModel::Restore { pristine, .. } = edit {
            first_with_identity_is_found(pristine, scope, c.channel);
        }
    }
    assert(both =~= blanked());
}

/// No clear changes which control stands where.
pub proof fn clears_keep_the_frame(node: NodeModel, original: NodeModel, clear: ClearModel)
    ensures
        same_frame(cleared(node, original, clear), node),
{
    let edit = EditModel::Restore { clear, pristine: node_controls(original) };
    edits_keep_the_frame(node, edit);
    zip_node_keeps(map_node(node, edit.as_map()), original, clear.as_map(), blanked());
}

/// The card with these controls held, one after the other.
pub open spec fn with_all_held(node: NodeModel, controls: Seq<HeldControl>) -> NodeModel
    decreases controls.len(),
{
    if controls.len() == 0 {
        node
    } else {
        let last = controls.last();
        map_node(
            with_all_held(node, controls.drop_last()),
            (EditModel::Hold {
                scope: last.scope@,
                channel: last.channel@,
                level: last.value,
            }).as_map(),
        )
    }
}

/// What a panel gesture lets go of, if it lets go of anything.
pub open spec fn clear_of(gesture: PanelGesture) -> Option<ClearModel> {
    match gesture {
        PanelGesture::ClearControl { target } => Some(
            ClearModel::Control {
                scope: display_of(target.scope)->Some_0,
                channel: target.channel@,
            },
        ),
        PanelGesture::ClearScope { scope } => Some(
            ClearModel::Scope { scope: display_of(scope)->Some_0 },
        ),
        PanelGesture::SetAutoSave(_) => None,
    }
}

/// The scopes a gesture names are scopes of the example.
pub open spec fn names_known_scopes(gesture: PanelGesture) -> bool {
    match gesture {
        PanelGesture::ClearControl { target } => display_of(target.scope) is Some,
        PanelGesture::ClearScope { scope } => display_of(scope) is Some,
        PanelGesture::SetAutoSave(_) => true,
    }
}

/// The card with a module face's auto-save switch set. Other cards have none.
pub open spec fn with_auto_save(node: NodeModel, enabled: bool) -> NodeModel {
    match node.face {
        Some(NodeFaceModel::Module(module)) => NodeModel {
            face: Some(
                NodeFaceModel::Module(FaceModel { auto_save: Some(enabled), ..module }),
            ),
            ..node
        },
        _ => node,
    }
}

/// A card to play with, and the untouched card that letting go returns to.
#[derive(Clone, Debug, PartialEq, Eq)]
pub struct PanelWalk {
    /// The card as it is now.
    pub view: UiNodeView,
    /// The card as it was before anything touched it.
    pub baseline: UiNodeView,
}

impl PanelWalk {
    /// The card shown is the untouched one but for what its controls hold (and
    /// for the auto-save switch).
    pub open spec fn well_formed(&self) -> bool {
        same_frame(
            with_auto_save(self.view@, false),
            with_auto_save(self.baseline@, false),
        )
    }

    /// Starts from a card that nothing has touched.
    pub fn new(view: UiNodeView) -> (r: Self)
        ensures
            r.view@ == view@,
            r.baseline@ == view@,
            r.well_formed(),
    {
        PanelWalk { baseline: view.clone(), view }
    }

    /// The root module's face.
    pub fn face(&self) -> (r: UiModuleFace)
        requires
            self.view@.face matches Some(NodeFaceModel::Module(_)),
        ensures
            self.view@.face == Some(NodeFaceModel::Module(r@)),
    {
        match &self.view.face {
            Some(UiNodeFace::Module(face)) => face.clone(),
            _ => UiModuleFace::new(UiPanelGroup::new("", "")),
        }
    }

    /// Takes hold of controls as if they had been touched.
    pub fn with_held(self, controls: &Vec<HeldControl>) -> (r: Self)
        ensures
            r.view@ == with_all_held(self.view@, controls@),
            r.baseline@ == self.baseline@,
            self.well_formed() ==> r.well_formed(),
    {
        let mut walk: PanelWalk = self;
        let mut at: usize = 0;
        while at < controls.len()
            invariant
                at <= controls.len(),
                walk.baseline@ == self.baseline@,
                walk.view@ == with_all_held(self.view@, controls@.take(at as int)),
                self.well_formed() ==> walk.well_formed(),
            decreases controls.len() - at,
        {
            let next: &HeldControl = &controls[at];
            let edit: ControlEdit = ControlEdit::Hold {
                scope: next.scope.clone(),
                channel: next.channel.clone(),
                level: next.value,
            };
            proof {
                let done = controls@.take(at + 1);
                assert(done.drop_last() =~= controls@.take(at as int));
                assert(done.last() == controls@[at as int]);
                edit_keeps_well_formed(walk, edit@);
            }
            visit_view_controls(&mut walk.view, &edit);
            at += 1;
        }
        assert(controls@.take(at as int) =~= controls@);
        walk
    }

    /// Takes in what a widget sent: a write to a slot is a touch of every
    /// control at that address, and nothing else is of interest.
    pub fn apply_action(&mut self, action: &UiAction)
        ensures
            final(self).baseline@ == old(self).baseline@,
            match *action {
                UiAction::SetValue { address, value } => final(self).view@ == map_node(
                    old(self).view@,
                    (EditModel::Touch { address: address@, value: value@ }).as_map(),
                ),
                _ => final(self).view == old(self).view,
            },
            old(self).well_formed() ==> final(self).well_formed(),
    {
        match action {
            UiAction::SetValue { address, value } => {
                let edit: ControlEdit = ControlEdit::Touch {
                    address: address.clone(),
                    value: value.clone(),
                };
                proof {
                    edit_keeps_well_formed(*self, edit@);
                }
                visit_view_controls(&mut self.view, &edit);
            },
            _ => {},
        }
    }

    /// Takes in a panel gesture: a clear lets go of what it names, and the
    /// auto-save switch flips.
    pub fn apply_gesture(&mut self, gesture: &PanelGesture)
        requires
            names_known_scopes(*gesture),
        ensures
            final(self).baseline@ == old(self).baseline@,
            final(self).view@ == match clear_of(*gesture) {
                Some(clear) => cleared(old(self).view@, old(self).baseline@, clear),
                None => with_auto_save(old(self).view@, gesture->SetAutoSave_0),
            },
            old(self).well_formed() ==> final(self).well_formed(),
    {
        match gesture {
            PanelGesture::SetAutoSave(next) => {
                match &mut self.view.face {
                    Some(UiNodeFace::Module(face)) => {
                        face.auto_save = Some(*next);
                    },
                    _ => {},
                }
                assert(with_auto_save(self.view@, false) == with_auto_save(
                    old(self).view@,
                    false,
                ));
            },
            PanelGesture::ClearControl { target } => {
                let clear: ControlClear = ControlClear::Control {
                    scope: scope_display(&target.scope).to_string(),
                    channel: target.channel.clone(),
                };
                proof {
                    clear_keeps_well_formed(*self, clear@);
                }
                clear_view(&mut self.view, &self.baseline, &clear);
            },
            PanelGesture::ClearScope { scope } => {
                let clear: ControlClear = ControlClear::Scope {
                    scope: scope_display(scope).to_string(),
                };
                proof {
                    clear_keeps_well_formed(*self, clear@);
                }
                clear_view(&mut self.view, &self.baseline, &clear);
            },
        }
    }
}

/// The auto-save switch and the controls of a card are apart.
pub proof fn auto_save_is_apart_from_the_controls(node: NodeModel, f: ControlMap, enabled: bool)
    ensures
        with_auto_save(map_node(node, f), enabled) == map_node(with_auto_save(node, enabled), f),
        node_controls(with_auto_save(node, enabled)) == node_controls(node),
{
}

/// The auto-save switch stands apart from a clear too.
pub proof fn auto_save_is_apart_from_a_clear(
    node: NodeModel,
    original: NodeModel,
    clear: ClearModel,
    enabled: bool,
)
    ensures
        with_auto_save(cleared(node, original, clear), enabled) == cleared(
            with_auto_save(node, enabled),
            with_auto_save(original, enabled),
            clear,
        ),
{
    let edit = EditModel::Restore { clear, pristine: node_controls(original) };
    auto_save_is_apart_from_the_controls(node, edit.as_map(), enabled);
    auto_save_is_apart_from_the_controls(original, edit.as_map(), enabled);
}

proof fn edit_keeps_well_formed(walk: PanelWalk, edit: EditModel)
    ensures
        walk.well_formed() ==> same_frame(
            with_auto_save(map_node(walk.view@, edit.as_map()), false),
            with_auto_save(walk.baseline@, false),
        ),
{
    auto_save_is_apart_from_the_controls(walk.view@, edit.as_map(), false);
    edits_keep_the_frame(with_auto_save(walk.view@, false), edit);
}

proof fn clear_keeps_well_formed(walk: PanelWalk, clear: ClearModel)
    ensures
        walk.well_formed() ==> same_frame(
            with_auto_save(cleared(walk.view@, walk.baseline@, clear), false),
            with_auto_save(walk.baseline@, false),
        ),
{
    auto_save_is_apart_from_a_clear(walk.view@, walk.baseline@, clear, false);
    clears_keep_the_frame(
        with_auto_save(walk.view@, false),
        with_auto_save(walk.baseline@, false),
        clear,
    );
}

} // verus!
