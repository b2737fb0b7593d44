//! What the examples' controls, groups, buses and cards say, said of the calls that
//! build them, field by field.

use vstd::prelude::*;
use vstd::string::*;

use crate::action::UiAction;
use crate::aurora::{
    at_default, control_in, engage_group, engaged, entry_held_panel, entry_panel, entry_scope,
    fader, following, instance_label, knob, palette_panel, plasma_panel, plasma_read_panel,
    swatch, toggle, walk_address,
};
use crate::aurora_cards::{
    channel, controls_child, held_walk, module_child, module_node_view, plain_child,
    plasma_face, site, the_example_starts_at_rest,
};
use crate::control_laws::takes_hold;
use crate::module_scopes::{scope_target, target_of, PLASMA_1_SCOPE, ROOT_SCOPE};
use crate::node_view::{
    UiBusChannelView, UiBusSiteOrigin, UiBusSiteView, UiBusView, UiModuleFace, UiNodeChild,
    UiNodeFace, UiNodeView,
};
use crate::panel::{
    ControlModel, SlotValueModel, UiPanelControl, UiPanelControlState, UiPanelControlView,
    UiPanelEmit, UiPanelGroup, UiPanelWidget, UiSlotValue, WireScopeRef,
};
use crate::panel_tree::{group_controls, group_controls_of_map, node_controls, node_controls_of_map};
use crate::panel_walk::{EditModel, PanelWalk};
use crate::slot::{LpValue, ProjectSlotAddress};
use crate::text::find_last_segment;
use crate::wiring_views::{drawer_only_face, flow_channel, flow_site, gradient_bus_view};

verus! {

// -- what a value says ---------------------------------------------------------------

/// A control says what it holds: its value, its state, its source and its places are
/// those of its parts.
pub proof fn a_control_says_what_it_holds(view: UiPanelControlView)
    ensures
        view@.channel == view.channel@,
        view@.label == view.control.label@,
        view@.emit == view.control.emit,
        view@.widget == view.control.widget,
        view@.state == view.state,
        view.control.value matches UiSlotValue::Bool(on) ==> view@.value == SlotValueModel::Bool(
            on,
        ),
        view.control.value matches UiSlotValue::F32(bits) ==> view@.value == SlotValueModel::F32(
            bits,
        ),
        view.control.value matches UiSlotValue::Text(text) ==> view@.value == SlotValueModel::Text(
            text@,
        ),
        view@.source is Some <==> view.source is Some,
        view.source matches Some(words) ==> view@.source == Some(words@),
        view@.live_value is Some <==> view.control.live_value is Some,
        view.control.live_value matches Some(words) ==> view@.live_value == Some(words@),
        view@.address is Some <==> view.control.address is Some,
        view.control.address matches Some(slot) ==> view@.address->Some_0.node == slot.node@
            && view@.address->Some_0.root == slot.root@ && view@.address->Some_0.path
            == slot.path@,
        view@.panel_target is Some <==> view.control.panel_target is Some,
        view.control.panel_target matches Some(target) ==> view@.panel_target->Some_0.scope
            == target.scope && view@.panel_target->Some_0.channel == target.channel@
            && view@.panel_target->Some_0.engaged == target.engaged,
{
}

/// A group says what it holds: its name, its place, and each of its controls and of
/// the groups nested in it, in order.
pub proof fn a_group_says_what_it_holds(group: UiPanelGroup, i: int)
    ensures
        group@.label == group.label@,
        group@.scope == group.scope@,
        group@.target == group.target,
        group@.controls.len() == group.controls@.len(),
        0 <= i < group.controls@.len() ==> group@.controls[i] == group.controls@[i]@,
        group@.groups.len() == group.groups@.len(),
        0 <= i < group.groups@.len() ==> group@.groups[i] == group.groups@[i]@,
{
}

/// A card says what it holds: its face, and the cards of its children, in order.
pub proof fn a_card_says_what_it_holds(node: UiNodeView, child: UiNodeChild, i: int)
    ensures
        node@.header.name == node.header.name@,
        node@.header.path == node.header.path@,
        node@.children.len() == node.children@.len(),
        0 <= i < node.children@.len() ==> node@.children[i] == node.children@[i]@,
        child@.children.len() == child.children@.len(),
        0 <= i < child.children@.len() ==> child@.children[i] == child.children@[i]@,
        child@.label == child.label@,
        node@.face is Some <==> node.face is Some,
        child@.face is Some <==> child.face is Some,
        node.face matches Some(UiNodeFace::Module(face)) ==> node@.face == Some(
            crate::node_view::NodeFaceModel::Module(face@),
        ),
        node.face matches Some(UiNodeFace::Controls(group)) ==> node@.face == Some(
            crate::node_view::NodeFaceModel::Controls(group@),
        ),
        child.face matches Some(UiNodeFace::Module(face)) ==> child@.face == Some(
            crate::node_view::NodeFaceModel::Module(face@),
        ),
        child.face matches Some(UiNodeFace::Controls(group)) ==> child@.face == Some(
            crate::node_view::NodeFaceModel::Controls(group@),
        ),
{
}

/// Two written values say the same only where they are of one kind and equal, and two
/// actions do the same only where they are of one kind on one slot.
pub proof fn values_and_actions_are_told_apart(a: LpValue, b: LpValue, x: UiAction, y: UiAction)
    requires
        a@ == b@,
        x@ == y@,
    ensures
        a matches LpValue::Bool(on) ==> b == LpValue::Bool(on),
        a matches LpValue::U32(n) ==> b == LpValue::U32(n),
        a matches LpValue::F32(bits) ==> b == LpValue::F32(bits),
        a matches LpValue::String(text) ==> b is String && b->String_0@ == text@,
        a is Struct ==> b is Struct,
        x is SetValue <==> y is SetValue,
        x is EnsurePresent <==> y is EnsurePresent,
        x is RemoveValue <==> y is RemoveValue,
        x is ClearEdit <==> y is ClearEdit,
        x is PanelWrite <==> y is PanelWrite,
        x is PanelClear <==> y is PanelClear,
        x is PanelClearScope <==> y is PanelClearScope,
        x is PanelAutoSave <==> y is PanelAutoSave,
        x is SetDrawer <==> y is SetDrawer,
        x is SetShapeGuided <==> y is SetShapeGuided,
        x is SetHeroProduct <==> y is SetHeroProduct,
        x is SetValue ==> x->SetValue_address@ == y->SetValue_address@ && x->SetValue_value@
            == y->SetValue_value@,
        x is EnsurePresent ==> x->EnsurePresent_address@ == y->EnsurePresent_address@,
        x is RemoveValue ==> x->RemoveValue_address@ == y->RemoveValue_address@,
        x is ClearEdit ==> x->ClearEdit_address@ == y->ClearEdit_address@,
        x is PanelWrite ==> x->PanelWrite_scope == y->PanelWrite_scope && x->PanelWrite_channel@
            == y->PanelWrite_channel@ && x->PanelWrite_value@ == y->PanelWrite_value@,
{
}

/// An address is made of its three parts, and is the same as another only where all
/// three are.
pub proof fn an_address_is_its_three_parts(
    node: &str,
    root: &str,
    path: &str,
    r: ProjectSlotAddress,
    other: &ProjectSlotAddress,
    same: bool,
)
    requires
        call_ensures(ProjectSlotAddress::new, (node, root, path), r),
        call_ensures(ProjectSlotAddress::same, (&r, other), same),
    ensures
        r.node@ == node@ && r.root@ == root@ && r.path@ == path@,
        same <==> other.node@ == node@ && other.root@ == root@ && other.path@ == path@,
{
    if same {
        assert(r@.node == other@.node && r@.root == other@.root && r@.path == other@.path);
    }
}

// -- building controls and groups ----------------------------------------------------

/// A control starts at rest, and takes the state and the words it is given while its
/// channel and its widget stay.
pub proof fn a_control_takes_the_state_it_is_given(
    channel: &str,
    control: UiPanelControl,
    r: UiPanelControlView,
    state: UiPanelControlState,
    words: Option<&str>,
    after: UiPanelControlView,
    engaged: bool,
)
    requires
        call_ensures(UiPanelControlView::new, (channel, control), r),
        call_ensures(UiPanelControlView::with_state, (r, state, words), after),
        call_ensures(UiPanelControlState::engaged, (state,), engaged),
    ensures
        r.channel@ == channel@ && r.control == control && r.state
            == UiPanelControlState::ReadDefault && r.source is None,
        after.channel@ == channel@ && after.control == control && after.state == state,
        after.source is Some <==> words is Some,
        words matches Some(text) ==> after.source->Some_0@ == text@,
        engaged <==> state == UiPanelControlState::Engaged,
{
}

/// A group is built part by part, and is empty until it has a control or a group.
pub proof fn a_group_is_built_part_by_part(
    label: &str,
    scope: &str,
    bare: UiPanelGroup,
    target: WireScopeRef,
    aimed: UiPanelGroup,
    controls: Vec<UiPanelControlView>,
    filled: UiPanelGroup,
    groups: Vec<UiPanelGroup>,
    r: UiPanelGroup,
    empty: bool,
)
    requires
        call_ensures(UiPanelGroup::new, (label, scope), bare),
        call_ensures(UiPanelGroup::with_target, (bare, target), aimed),
        call_ensures(UiPanelGroup::with_controls, (aimed, controls), filled),
        call_ensures(UiPanelGroup::with_groups, (filled, groups), r),
        call_ensures(UiPanelGroup::is_empty, (&r,), empty),
    ensures
        bare@.target is None && bare@.controls.len() == 0 && bare@.groups.len() == 0,
        r@.label == label@,
        r@.scope == scope@,
        r@.target == Some(target),
        r@.controls.len() == controls@.len(),
        forall|i: int| 0 <= i < controls@.len() ==> r@.controls[i] == controls@[i]@,
        r@.groups.len() == groups@.len(),
        forall|i: int| 0 <= i < groups@.len() ==> r@.groups[i] == groups@[i]@,
        empty <==> controls@.len() == 0 && groups@.len() == 0,
{
}

/// The control is bound to that channel of that scope, writes there, and is at rest.
pub open spec fn is_at_rest(
    c: ControlModel,
    scope: Seq<char>,
    target: WireScopeRef,
    channel: Seq<char>,
    label: Seq<char>,
) -> bool {
    &&& c.channel == channel
    &&& c.label == label
    &&& c.address is Some
    &&& c.address->Some_0.node == scope
    &&& c.address->Some_0.root == "def"@
    &&& c.address->Some_0.path == channel
    &&& c.panel_target is Some
    &&& c.panel_target->Some_0.scope == target
    &&& c.panel_target->Some_0.channel == channel
    &&& !c.panel_target->Some_0.engaged
    &&& c.live_value is None
    &&& c.state == UiPanelControlState::ReadDefault
    &&& c.source is None
}

/// A control in a scope writes to its own channel's slot there, and shows what it is
/// given.
pub proof fn a_control_writes_to_its_own_channel(
    scope: &str,
    target: WireScopeRef,
    channel: &str,
    label: &str,
    emit: UiPanelEmit,
    widget: UiPanelWidget,
    value: UiSlotValue,
    r: UiPanelControlView,
    address: ProjectSlotAddress,
)
    requires
        call_ensures(control_in, (scope, target, channel, label, emit, widget, value), r),
        call_ensures(walk_address, (scope, channel), address),
    ensures
        is_at_rest(r@, scope@, target, channel@, label@),
        r@.emit == emit,
        r@.widget == widget,
        r@.value == value@,
        address.node@ == scope@ && address.root@ == "def"@ && address.path@ == channel@,
{
    assert(address@.node == address.node@);
}

/// Each of the example's widgets is at rest in its scope, with its own range and its
/// own kind of value: a fader runs from zero in whole steps, and a swatch sends a
/// gradient.
pub proof fn each_widget_has_its_own_range(
    scope: &str,
    channel: &str,
    label: &str,
    value: u32,
    min: u32,
    max: u32,
    step: Option<u32>,
    on: bool,
    gradient: &UiSlotValue,
    target: WireScopeRef,
    turned: UiPanelControlView,
    slid: UiPanelControlView,
    flipped: UiPanelControlView,
    shown: UiPanelControlView,
)
    requires
        target_of(scope@) is Some,
        call_ensures(scope_target, (scope,), target),
        call_ensures(knob, (scope, channel, label, value, min, max, step), turned),
        call_ensures(fader, (scope, channel, label, value, max), slid),
        call_ensures(toggle, (scope, channel, label, on), flipped),
        call_ensures(swatch, (scope, channel, label, gradient), shown),
    ensures
        is_at_rest(turned@, scope@, target, channel@, label@),
        is_at_rest(slid@, scope@, target, channel@, label@),
        is_at_rest(flipped@, scope@, target, channel@, label@),
        is_at_rest(shown@, scope@, target, channel@, label@),
        turned@.widget == (UiPanelWidget::Knob { min, max, step }),
        turned@.value == SlotValueModel::F32(value) && turned@.emit == UiPanelEmit::Value,
        slid@.widget == (UiPanelWidget::Fader { min: 0, max, step: Some(0x3f800000u32) }),
        slid@.value == SlotValueModel::F32(value) && slid@.emit == UiPanelEmit::Value,
        flipped@.widget == UiPanelWidget::Toggle,
        flipped@.value == SlotValueModel::Bool(on) && flipped@.emit == UiPanelEmit::Value,
        shown@.widget == UiPanelWidget::PaletteSwatch,
        shown@.value == gradient@ && shown@.emit == UiPanelEmit::Gradient,
{
}

/// Following, holding and resting set the state and the words for it, and following
/// also what is shown live; everything else of the control stays.
pub proof fn a_state_comes_with_its_words(
    view: UiPanelControlView,
    live: &str,
    source: &str,
    follows: UiPanelControlView,
    holds: UiPanelControlView,
    rests: UiPanelControlView,
)
    requires
        call_ensures(following, (view, live, source), follows),
        call_ensures(engaged, (view, source), holds),
        call_ensures(at_default, (view, source), rests),
    ensures
        follows@ == (ControlModel {
            state: UiPanelControlState::ReadFollowing,
            live_value: Some(live@),
            source: Some(source@),
            ..view@
        }),
        holds@ == (ControlModel {
            state: UiPanelControlState::Engaged,
            source: Some(source@),
            ..view@
        }),
        rests@ == (ControlModel {
            state: UiPanelControlState::ReadDefault,
            source: Some(source@),
            ..view@
        }),
{
}

/// An instance is named by the last part of its path up to its first dot, with a space
/// for each underscore.
pub proof fn an_instance_is_named_by_its_path(
    scope: &str,
    leaf: String,
    end: int,
    r: String,
    i: int,
)
    requires
        call_ensures(instance_label, (scope,), r),
        call_ensures(find_last_segment, (scope, '/'), leaf),
        0 <= end <= leaf@.len(),
        forall|k: int| 0 <= k < end ==> leaf@[k] != '.',
        end < leaf@.len() ==> leaf@[end] == '.',
        0 <= i < end,
    ensures
        r@.len() == end,
        leaf@[i] == '_' ==> r@[i] == ' ',
        leaf@[i] != '_' ==> r@[i] == leaf@[i],
{
    crate::text::segment_end_is_first(leaf@, '.', 0);
    let found = crate::text::segment_end(leaf@, '.', 0);
    if found < end {
        assert(leaf@[found] != '.');
    }
    if end < found {
        assert(leaf@[end] != '.');
    }
}

// -- the example's panels ------------------------------------------------------------

/// A plasma instance's panel holds the speed it is given and its own hue, under the
/// instance's name and in its scope; untouched, its speed follows the host's.
pub proof fn a_plasma_panel_is_its_instances_own(
    scope: &str,
    speed: UiPanelControlView,
    target: WireScopeRef,
    name: String,
    r: UiPanelGroup,
    read: UiPanelGroup,
)
    requires
        target_of(scope@) is Some,
        call_ensures(scope_target, (scope,), target),
        call_ensures(instance_label, (scope,), name),
        call_ensures(plasma_panel, (scope, speed), r),
        call_ensures(plasma_read_panel, (scope,), read),
    ensures
        r@.label == name@ && r@.scope == scope@ && r@.target == Some(target),
        r@.groups.len() == 0,
        r@.controls.len() == 2,
        r@.controls[0] == speed@,
        r@.controls[1].channel == "hue"@,
        r@.controls[1].value == SlotValueModel::F32(0x3ea3d70a),
        r@.controls[1].widget == (UiPanelWidget::Knob { min: 0, max: 0x3f800000, step: None }),
        r@.controls[1].state == UiPanelControlState::ReadDefault,
        r@.controls[1].panel_target is Some && r@.controls[1].panel_target->Some_0.scope == target,
        read@.label == name@ && read@.scope == scope@ && read@.target == Some(target),
        read@.controls.len() == 2,
        read@.controls[0].channel == "speed"@,
        read@.controls[0].state == UiPanelControlState::ReadFollowing,
        read@.controls[0].live_value == Some("0.62"@),
        read@.controls[0].source == Some("inherited \u{00b7} Aurora Sign"@),
        read@.controls[0].panel_target is Some && read@.controls[0].panel_target->Some_0.scope
            == target,
        read@.controls[1] == r@.controls[1],
{
}

/// Engaging a control of a group holds it wherever it stands in the group, under its
/// scope and channel, at the given number, and touches no other.
pub proof fn engaging_holds_one_control(
    group: &mut UiPanelGroup,
    scope: &str,
    channel: &str,
    value: u32,
    i: int,
)
    requires
        call_ensures(engage_group, (group, scope, channel, value), ()),
        0 <= i < group_controls(old(group)@).len(),
    ensures
        group_controls(final(group)@).len() == group_controls(old(group)@).len(),
        ({
            let before = group_controls(old(group)@)[i];
            let after = group_controls(final(group)@)[i];
            &&& after.0 == before.0
            &&& before.0 == scope@ && before.1.channel == channel@ ==> takes_hold(
                before.1,
                after.1,
            ) && after.1.value == SlotValueModel::F32(value)
            &&& !(before.0 == scope@ && before.1.channel == channel@) ==> after.1 == before.1
        }),
{
    let edit = EditModel::Hold { scope: scope@, channel: channel@, level: value };
    group_controls_of_map(old(group)@, edit.as_map());
    let before = group_controls(old(group)@)[i];
    assert(group_controls(final(group)@)[i] == (before.0, edit.change(before.0, before.1)));
}

/// A playlist entry's panel binds the speed in the entry's own scope, under the
/// entry's own name and with its own range.
pub proof fn an_entry_binds_its_own_speed(
    entry: u32,
    scope: String,
    path: &str,
    target: WireScopeRef,
    r: UiPanelGroup,
    held: UiPanelGroup,
)
    requires
        call_ensures(entry_scope, (entry,), scope),
        path@ == scope@,
        call_ensures(scope_target, (path,), target),
        call_ensures(entry_panel, (entry,), r),
        call_ensures(entry_held_panel, (entry,), held),
    ensures
        entry == 0 ==> scope@ == "/aurora.module/set.playlist/drift.shader"@,
        entry != 0 ==> scope@ == "/aurora.module/set.playlist/whirl.shader"@,
        r@.scope == scope@,
        r@.target == Some(target),
        r@.groups.len() == 0,
        r@.controls.len() == 1,
        r@.controls[0].channel == "speed"@,
        r@.controls[0].state == UiPanelControlState::ReadDefault,
        r@.controls[0].source == Some("authored default"@),
        r@.controls[0].panel_target is Some && r@.controls[0].panel_target->Some_0.scope == target
            && r@.controls[0].panel_target->Some_0.channel == "speed"@,
        entry == 0 ==> r@.label == "Drift"@ && r@.controls[0].label == "Drift"@
            && r@.controls[0].value == SlotValueModel::F32(0x3f000000) && r@.controls[0].widget
            == (UiPanelWidget::Knob { min: 0, max: 0x3f800000, step: None }),
        entry != 0 ==> r@.label == "Whirl"@ && r@.controls[0].label == "Whirl"@
            && r@.controls[0].value == SlotValueModel::F32(0x40d00000) && r@.controls[0].widget
            == (UiPanelWidget::Knob { min: 0, max: 0x41200000, step: None }),
        entry != 0 ==> held@ == r@,
        entry == 0 ==> held@.controls.len() == 1 && takes_hold(r@.controls[0], held@.controls[0])
            && held@.controls[0].value == SlotValueModel::F32(0x3eb33333),
{
}

/// The palette panel shows a plain gradient at rest, and the cycle both followed, with
/// its words, and held.
pub proof fn the_palettes_stand_in_three_states(
    plain: &UiSlotValue,
    cycle: &UiSlotValue,
    words: &str,
    r: UiPanelGroup,
)
    requires
        call_ensures(palette_panel, (plain, cycle, words), r),
    ensures
        r@.controls.len() == 3,
        r@.controls[0].value == plain@ && r@.controls[0].state
            == UiPanelControlState::ReadDefault && r@.controls[0].live_value is None,
        r@.controls[1].value == cycle@ && r@.controls[1].state
            == UiPanelControlState::ReadFollowing && r@.controls[1].live_value == Some(words@),
        r@.controls[2].value == cycle@ && r@.controls[2].state == UiPanelControlState::Engaged,
        forall|i: int|
            0 <= i < 3 ==> (#[trigger] r@.controls[i]).widget == UiPanelWidget::PaletteSwatch
                && r@.controls[i].emit == UiPanelEmit::Gradient,
{
}

/// The example starts with two controls held, and with those two only: wherever it
/// is shown, a control is engaged exactly where it is the root's brightness or the
/// first instance's speed.
pub proof fn the_example_holds_two_controls(r: PanelWalk, i: int)
    requires
        call_ensures(held_walk, (), r),
        0 <= i < node_controls(r.view@).len(),
    ensures
        ({
            let (scope, c) = node_controls(r.view@)[i];
            let dimmed = scope == "/aurora.module"@ && c.channel == "brightness"@;
            let turned = scope == "/aurora.module/plasma_1.module"@ && c.channel == "speed"@;
            &&& c.state == UiPanelControlState::Engaged <==> dimmed || turned
            &&& dimmed ==> c.value == SlotValueModel::F32(0x42c00000)
            &&& turned ==> c.value == SlotValueModel::F32(0x3f51eb85)
        }),
{
    the_example_starts_at_rest();
    reveal_strlit("brightness");
    reveal_strlit("speed");
    assert("brightness"@.len() != "speed"@.len());
    let card = crate::aurora_cards::root_card();
    let dim = EditModel::Hold {
        scope: ROOT_SCOPE@,
        channel: "brightness"@,
        level: 0x42c00000,
    };
    let turn = EditModel::Hold {
        scope: PLASMA_1_SCOPE@,
        channel: "speed"@,
        level: 0x3f51eb85,
    };
    let middle = crate::panel_tree::map_node(card, dim.as_map());
    node_controls_of_map(card, dim.as_map());
    node_controls_of_map(middle, turn.as_map());
    let start = node_controls(card)[i];
    assert(!start.1.engaged());
    assert(node_controls(middle)[i] == (start.0, dim.change(start.0, start.1)));
    let next = node_controls(middle)[i];
    assert(node_controls(r.view@)[i] == (next.0, turn.change(next.0, next.1)));
}

// -- the example's buses and cards ---------------------------------------------------

/// A site is bound as its author bound it, or as it is said to be, and only a site of
/// a flow can be focused.
pub proof fn a_site_is_bound_as_it_is_said(
    node: &str,
    slot: &str,
    r: UiBusSiteView,
    label: &str,
    of: Option<&str>,
    origin: UiBusSiteOrigin,
    flow: UiBusSiteView,
)
    requires
        call_ensures(site, (node, slot), r),
        call_ensures(flow_site, (label, of, origin), flow),
    ensures
        r@.node_label == node@ && r@.slot == Some(slot@) && r@.origin == UiBusSiteOrigin::Authored,
        !r@.publish && !r@.shadowed && r@.child_scope is None && r@.focus is None,
        flow@.node_label == label@ && flow@.origin == origin,
        flow@.slot is Some <==> of is Some,
        of matches Some(name) ==> flow@.slot == Some(name@),
        !flow@.publish && !flow@.shadowed && flow@.child_scope is None,
        flow@.focus == Some("story.module"@),
{
}

/// A channel lists its writers and its readers, each in order, and says why it has no
/// value where it has none.
pub proof fn a_channel_lists_both_its_sides(
    name: &str,
    kind: &str,
    value: Option<&str>,
    writers: Vec<UiBusSiteView>,
    readers: Vec<UiBusSiteView>,
    r: UiBusChannelView,
    flow: UiBusChannelView,
    i: int,
)
    requires
        call_ensures(channel, (name, kind, value, writers, readers), r),
        call_ensures(flow_channel, (name, kind, writers, readers), flow),
    ensures
        r@.name == name@ && r@.kind == Some(kind@),
        r@.value is Some <==> value is Some,
        value matches Some(words) ==> r@.value == Some(words@) && r@.value_error is None,
        value is None ==> r@.value_error == Some("no writer in any enclosing scope"@),
        r@.writers.len() == writers@.len() && r@.readers.len() == readers@.len(),
        0 <= i < writers@.len() ==> r@.writers[i] == writers@[i]@,
        0 <= i < readers@.len() ==> r@.readers[i] == readers@[i]@,
        !r@.primary_visual && !r@.contended && r@.preview is None && r@.gradient is None
            && r@.scope is None,
        flow@.name == name@ && flow@.kind == Some(kind@),
        flow@.value is None && flow@.value_error is None,
        flow@.scope == Some(WireScopeRef::Module { owner: 1 }),
        flow@.writers.len() == writers@.len() && flow@.readers.len() == readers@.len(),
        0 <= i < writers@.len() ==> flow@.writers[i] == writers@[i]@,
        0 <= i < readers@.len() ==> flow@.readers[i] == readers@[i]@,
        !flow@.primary_visual && !flow@.contended && flow@.preview is None
            && flow@.gradient is None,
{
}

/// A palette's channel carries the gradient and the words for it; the cycle's stands
/// behind the plain one's.
pub proof fn a_palette_channel_carries_its_gradient(
    plain: &UiSlotValue,
    plain_words: &str,
    cycle: &UiSlotValue,
    cycle_words: &str,
    r: UiBusView,
)
    requires
        call_ensures(gradient_bus_view, (plain, plain_words, cycle, cycle_words), r),
    ensures
        r@.len() == 2,
        r@[0].name == "palette"@ && r@[0].gradient == Some(plain@) && r@[0].value == Some(
            plain_words@,
        ),
        r@[1].name == "palette.cycle"@ && r@[1].gradient == Some(cycle@) && r@[1].value == Some(
            cycle_words@,
        ),
        forall|i: int|
            0 <= i < 2 ==> (#[trigger] r@[i]).writers.len() == 1 && r@[i].writers[0].node_label
                == "Palette"@ && r@[i].readers.len() == 1 && r@[i].readers[0].node_label
                == "Plasma"@ && r@[i].readers[0].slot == Some("palette"@),
{
}

/// A child's card has the face and the children it is given, and runs; a module's card
/// is known by its path.
pub proof fn a_card_has_the_face_it_is_given(
    name: &str,
    kind: &str,
    detail: &str,
    summary: &str,
    plain: UiNodeChild,
    controls: UiPanelGroup,
    leaf: UiNodeChild,
    face: UiModuleFace,
    children: Vec<UiNodeChild>,
    module: UiNodeChild,
    view: UiNodeView,
    with: UiNodeView,
    i: int,
)
    requires
        call_ensures(plain_child, (name, kind, detail, summary), plain),
        call_ensures(controls_child, (name, kind, detail, summary, controls), leaf),
        call_ensures(module_child, (name, detail, summary, face, children), module),
        call_ensures(module_node_view, (name, detail, summary, face), view),
        call_ensures(UiNodeView::with_children, (view, children), with),
    ensures
        plain@.label == name@ && plain@.kind == kind@ && plain@.detail == detail@
            && plain@.summary == Some(summary@) && plain@.status == Some("Running"@),
        plain@.face is None && plain@.children.len() == 0 && plain@.sections.len() == 0,
        leaf@.label == name@ && leaf@.kind == kind@ && leaf@.detail == detail@
            && leaf@.children.len() == 0,
        leaf@.face == Some(crate::node_view::NodeFaceModel::Controls(controls@)),
        module@.label == name@ && module@.kind == "Module"@ && module@.detail == detail@,
        module@.face == Some(crate::node_view::NodeFaceModel::Module(face@)),
        module@.children.len() == children@.len(),
        0 <= i < children@.len() ==> module@.children[i] == children@[i]@,
        view@.header.name == name@ && view@.header.kind == "Module"@ && view@.header.path
            == detail@ && view@.header.summary == Some(summary@) && view@.header.status == Some(
            "Running"@,
        ) && view@.header.source == Some("module.json"@),
        view@.node_id == Some(detail@),
        view@.face == Some(crate::node_view::NodeFaceModel::Module(face@)),
        view@.children.len() == 0,
        with@.header == view@.header && with@.node_id == view@.node_id && with@.face == view@.face,
        with@.children.len() == children@.len(),
        0 <= i < children@.len() ==> with@.children[i] == children@[i]@,
{
}

/// A plasma module's face shows its panel and its visual and keeps its drawer shut; it
/// offers no auto-save. A face that is only its drawer shows the wiring, open.
pub proof fn a_face_shows_the_panel_it_is_given(
    panel: UiPanelGroup,
    r: UiModuleFace,
    bare: UiModuleFace,
    wiring: UiBusView,
    drawer: UiModuleFace,
)
    requires
        call_ensures(plasma_face, (panel,), r),
        call_ensures(UiModuleFace::new, (panel,), bare),
        call_ensures(drawer_only_face, (wiring,), drawer),
    ensures
        r@.panel == panel@ && r@.auto_save is None && !r@.wiring_open && r@.hero_choice is None,
        r@.wiring is Some && r@.wiring->Some_0.len() == 3,
        r@.preview is Some && r@.preview->Some_0.tracking,
        r@.provenance == Some("PhotomancerArt \u{00b7} v1.2 \u{00b7} CC0-1.0"@),
        bare@.panel == panel@ && bare@.preview is None && bare@.wiring is None
            && bare@.provenance is None && bare@.auto_save is None && bare@.hero_choice is None
            && !bare@.wiring_open,
        drawer@.wiring == Some(wiring@) && drawer@.wiring_open && drawer@.preview is None
            && drawer@.provenance is None && drawer@.auto_save is None
            && drawer@.hero_choice is None,
        drawer@.panel.controls.len() == 0 && drawer@.panel.groups.len() == 0 && drawer@.panel.label
            == "Aurora Sign"@ && drawer@.panel.target == Some(WireScopeRef::Module { owner: 1 }),
{
}

} // verus!
