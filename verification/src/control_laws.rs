//! What a panel and its controls do, said of the calls that do it: what a touch
//! writes, what letting go gives back, what is counted as held, and what is shown.

use vstd::prelude::*;
use vstd::string::*;

use crate::action::{panel_gesture_action, PanelGesture, UiAction};
use crate::module_scopes::{display_of, scope_display, scope_target, target_of};
use crate::node_view::{ChildModel, FaceModel, NodeFaceModel, NodeModel};
use crate::panel::{
    engaged_count, engaged_in_groups, ControlModel, GroupModel, SlotValueModel,
    UiPanelControlState, UiPanelControlView, UiPanelGroup, UiPanelTarget, UiPanelWidget,
    UiSlotValue, WireScopeRef,
};
use crate::panel_control::{
    auto_save_switch, control_drawing, control_reset, fits, group_box, held_shown, live_bool,
    panel_parts, panel_state_label_class, panel_state_readout_class, scope_reset, shown_display,
    AutoSaveSwitch, ControlDrawing, ControlReset, GroupBox, PanelParts, ScopeReset,
    UiSlotAspect, UiSlotAspectKind,
};
use crate::panel_laws::a_clear_gives_back_what_stood_there;
use crate::panel_tree::{
    child_controls, children_controls, face_controls, group_controls, groups_controls,
    node_controls, node_controls_of_map, own_controls, Placed,
};
use crate::panel_walk::{
    auto_save_is_apart_from_the_controls, hold, touch, with_all_held, ClearModel, EditModel,
    HeldControl, PanelWalk,
};
use crate::slot::{LpValue, ProjectSlotAddress};
use crate::text::{decimal, has_prefix};

verus! {

// -- every control is reached --------------------------------------------------------

proof fn a_part_is_contained(a: Seq<Placed>, b: Seq<Placed>, x: Placed)
    ensures
        a.contains(x) || b.contains(x) <==> (a + b).contains(x),
{
    if a.contains(x) {
        let i = choose|i: int| 0 <= i < a.len() && a[i] == x;
        assert((a + b)[i] == x);
    }
    if b.contains(x) {
        let i = choose|i: int| 0 <= i < b.len() && b[i] == x;
        assert((a + b)[a.len() + i] == x);
    }
    if (a + b).contains(x) {
        let i = choose|i: int| 0 <= i < (a + b).len() && (a + b)[i] == x;
        if i < a.len() {
            assert(a[i] == x);
        } else {
            assert(b[i - a.len()] == x);
        }
    }
}

proof fn groups_list_each_group(groups: Seq<GroupModel>, x: Placed)
    ensures
        groups_controls(groups).contains(x) <==> exists|k: int|
            0 <= k < groups.len() && #[trigger] group_controls(groups[k]).contains(x),
    decreases groups.len(),
{
    if groups.len() > 0 {
        let head = groups.drop_last();
        groups_list_each_group(head, x);
        a_part_is_contained(groups_controls(head), group_controls(groups.last()), x);
        let end = groups.len() - 1;
        if groups_controls(head).contains(x) {
            let k = choose|k: int|
                0 <= k < head.len() && #[trigger] group_controls(head[k]).contains(x);
            assert(group_controls(groups[k]).contains(x));
        }
        if group_controls(groups.last()).contains(x) {
            assert(group_controls(groups[end]).contains(x));
        }
        if exists|k: int|
            0 <= k < groups.len() && #[trigger] group_controls(groups[k]).contains(x) {
            let k = choose|k: int|
                0 <= k < groups.len() && #[trigger] group_controls(groups[k]).contains(x);
            if k < end {
                assert(group_controls(head[k]).contains(x));
            }
        }
    }
}

proof fn children_list_each_child(children: Seq<ChildModel>, x: Placed)
    ensures
        children_controls(children).contains(x) <==> exists|k: int|
            0 <= k < children.len() && #[trigger] child_controls(children[k]).contains(x),
    decreases children.len(),
{
    if children.len() > 0 {
        let head = children.drop_last();
        children_list_each_child(head, x);
        a_part_is_contained(children_controls(head), child_controls(children.last()), x);
        let end = children.len() - 1;
        if children_controls(head).contains(x) {
            let k = choose|k: int|
                0 <= k < head.len() && #[trigger] child_controls(head[k]).contains(x);
            assert(child_controls(children[k]).contains(x));
        }
        if child_controls(children.last()).contains(x) {
            assert(child_controls(children[end]).contains(x));
        }
        if exists|k: int|
            0 <= k < children.len() && #[trigger] child_controls(children[k]).contains(x) {
            let k = choose|k: int|
                0 <= k < children.len() && #[trigger] child_controls(children[k]).contains(x);
            if k < end {
                assert(child_controls(head[k]).contains(x));
            }
        }
    }
}

/// A group lists its own controls, each under the group's scope, and everything that
/// the groups nested in it list, and nothing else.
pub proof fn a_group_lists_its_own_and_its_nested(g: GroupModel, x: Placed)
    ensures
        group_controls(g).contains(x) <==> {
            ||| exists|i: int|
                0 <= i < g.controls.len() && x == (g.scope, #[trigger] g.controls[i])
            ||| exists|k: int|
                0 <= k < g.groups.len() && #[trigger] group_controls(g.groups[k]).contains(x)
        },
{
    groups_list_each_group(g.groups, x);
    a_part_is_contained(own_controls(g), groups_controls(g.groups), x);
    if own_controls(g).contains(x) {
        let i = choose|i: int| 0 <= i < own_controls(g).len() && own_controls(g)[i] == x;
        assert(x == (g.scope, g.controls[i]));
    }
    if exists|i: int| 0 <= i < g.controls.len() && x == (g.scope, #[trigger] g.controls[i]) {
        let i = choose|i: int|
            0 <= i < g.controls.len() && x == (g.scope, #[trigger] g.controls[i]);
        assert(own_controls(g)[i] == x);
    }
}

/// The controls a face has: those of a module's panel, or of a leaf's bound controls.
pub open spec fn panel_of(face: Option<NodeFaceModel>) -> Option<GroupModel> {
    match face {
        Some(NodeFaceModel::Module(module)) => Some(module.panel),
        Some(NodeFaceModel::Controls(group)) => Some(group),
        _ => None,
    }
}

/// A card lists the controls of its own face and everything that the cards below it
/// list, and nothing else; and a child's card does alike.
pub proof fn a_card_lists_its_own_and_those_below(node: NodeModel, child: ChildModel, x: Placed)
    ensures
        node_controls(node).contains(x) <==> {
            ||| panel_of(node.face) matches Some(panel) && group_controls(panel).contains(x)
            ||| exists|k: int|
                0 <= k < node.children.len() && #[trigger] child_controls(
                    node.children[k],
                ).contains(x)
        },
        child_controls(child).contains(x) <==> {
            ||| panel_of(child.face) matches Some(panel) && group_controls(panel).contains(x)
            ||| exists|k: int|
                0 <= k < child.children.len() && #[trigger] child_controls(
                    child.children[k],
                ).contains(x)
        },
{
    children_list_each_child(node.children, x);
    a_part_is_contained(face_controls(node.face), children_controls(node.children), x);
    children_list_each_child(child.children, x);
    a_part_is_contained(face_controls(child.face), children_controls(child.children), x);
}

/// A group lists its own controls first, and each once; one nested group more is listed
/// behind all the others.
pub proof fn a_nested_group_is_listed_last(g: GroupModel, more: GroupModel, i: int)
    ensures
        group_controls(g).len() >= g.controls.len(),
        0 <= i < g.controls.len() ==> group_controls(g)[i] == (g.scope, g.controls[i]),
        g.groups.len() == 0 ==> group_controls(g).len() == g.controls.len(),
        group_controls(GroupModel { groups: g.groups.push(more), ..g }) == group_controls(g)
            + group_controls(more),
{
    let longer = GroupModel { groups: g.groups.push(more), ..g };
    assert(longer.groups.drop_last() =~= g.groups);
    assert(longer.groups.last() == more);
    assert(own_controls(longer) =~= own_controls(g));
    assert(own_controls(g) + (groups_controls(g.groups) + group_controls(more))
        =~= own_controls(g) + groups_controls(g.groups) + group_controls(more));
}

/// A card lists the controls of its face first; one child more is listed behind all the
/// others, on a card and on a child's card alike.
pub proof fn a_child_is_listed_last(node: NodeModel, child: ChildModel, more: ChildModel)
    ensures
        node.children.len() == 0 && panel_of(node.face) is None ==> node_controls(node).len() == 0,
        node.children.len() == 0 ==> (panel_of(node.face) matches Some(panel) ==> node_controls(
            node,
        ) == group_controls(panel)),
        node_controls(NodeModel { children: node.children.push(more), ..node }) == node_controls(
            node,
        ) + child_controls(more),
        child.children.len() == 0 && panel_of(child.face) is None ==> child_controls(child).len()
            == 0,
        child.children.len() == 0 ==> (panel_of(child.face) matches Some(panel)
            ==> child_controls(child) == group_controls(panel)),
        child_controls(ChildModel { children: child.children.push(more), ..child })
            == child_controls(child) + child_controls(more),
{
    let longer = NodeModel { children: node.children.push(more), ..node };
    assert(longer.children.drop_last() =~= node.children);
    assert(longer.children.last() == more);
    assert(face_controls(node.face) + (children_controls(node.children) + child_controls(more))
        =~= face_controls(node.face) + children_controls(node.children) + child_controls(more));
    let larger = ChildModel { children: child.children.push(more), ..child };
    assert(larger.children.drop_last() =~= child.children);
    assert(larger.children.last() == more);
    assert(face_controls(child.face) + (children_controls(child.children) + child_controls(more))
        =~= face_controls(child.face) + children_controls(child.children) + child_controls(more));
    if node.children.len() == 0 {
        assert(node_controls(node) =~= face_controls(node.face));
    }
    if child.children.len() == 0 {
        assert(child_controls(child) =~= face_controls(child.face));
    }
}

// -- touching ------------------------------------------------------------------------

/// A touch leaves a control's place alone: its channel, its label, its widget, what
/// it sends and where.
pub open spec fn keeps_its_place(a: ControlModel, b: ControlModel) -> bool {
    &&& b.channel == a.channel
    &&& b.emit == a.emit
    &&& b.label == a.label
    &&& b.address == a.address
    &&& b.widget == a.widget
    &&& b.live_value == a.live_value
}

/// The control is held: the panel holds its channel, and what it displaced is on
/// record. A control that nothing was known to drive displaced the project.
pub open spec fn takes_hold(a: ControlModel, b: ControlModel) -> bool {
    &&& keeps_its_place(a, b)
    &&& b.state == UiPanelControlState::Engaged
    &&& a.panel_target is Some <==> b.panel_target is Some
    &&& b.panel_target matches Some(target) ==> target.engaged && target.scope
        == a.panel_target->Some_0.scope && target.channel == a.panel_target->Some_0.channel
    &&& a.source is Some ==> b.source == a.source
    &&& a.source is None && a.state != UiPanelControlState::Engaged ==> b.source == Some(
        "project"@,
    )
    &&& a.source is None && a.state == UiPanelControlState::Engaged ==> b.source is None
}

/// What a written value leaves in a control: a switch its position, on or off, a
/// number that number, and any other kind of value what was there.
pub open spec fn holds_what_was_written(
    a: ControlModel,
    b: ControlModel,
    value: LpValue,
) -> bool {
    match value {
        LpValue::Bool(on) => b.value == SlotValueModel::Bool(on),
        LpValue::F32(bits) => b.value == SlotValueModel::F32(bits),
        _ => b.value == a.value,
    }
}

/// A touch takes hold of a control and leaves in it what was written, and holding it
/// at a number is touching it with that number.
pub proof fn a_touch_leaves_what_was_written(
    view: &mut UiPanelControlView,
    value: &LpValue,
    held: &mut UiPanelControlView,
    bits: u32,
)
    requires
        call_ensures(touch, (view, value), ()),
        call_ensures(hold, (held, bits), ()),
    ensures
        takes_hold(old(view)@, final(view)@),
        holds_what_was_written(old(view)@, final(view)@, *value),
        takes_hold(old(held)@, final(held)@),
        final(held)@.value == SlotValueModel::F32(bits),
{
}

/// A write to a slot touches every control at that address, wherever it is shown, and
/// leaves in each of them what was written, a switch that is put out included. It
/// touches no other control, and the card to go back to stays.
pub proof fn a_write_reaches_every_control_at_its_address(
    walk: &mut PanelWalk,
    address: ProjectSlotAddress,
    value: LpValue,
)
    requires
        call_ensures(
            PanelWalk::apply_action,
            (walk, &UiAction::SetValue { address, value }),
            (),
        ),
    ensures
        final(walk).baseline@ == old(walk).baseline@,
        ({
            let before = node_controls(old(walk).view@);
            let after = node_controls(final(walk).view@);
            &&& after.len() == before.len()
            &&& forall|i: int|
                0 <= i < after.len() ==> {
                    let (scope, c) = #[trigger] before[i];
                    &&& after[i].0 == scope
                    &&& c.address == Some(address@) ==> takes_hold(c, after[i].1)
                        && holds_what_was_written(c, after[i].1, value)
                    &&& c.address != Some(address@) ==> after[i].1 == c
                }
        }),
{
    let edit = EditModel::Touch { address: address@, value: value@ };
    node_controls_of_map(old(walk).view@, edit.as_map());
    let before = node_controls(old(walk).view@);
    let after = node_controls(final(walk).view@);
    assert forall|i: int| 0 <= i < after.len() implies {
        let (scope, c) = #[trigger] before[i];
        &&& after[i].0 == scope
        &&& c.address == Some(address@) ==> takes_hold(c, after[i].1) && holds_what_was_written(
            c,
            after[i].1,
            value,
        )
        &&& c.address != Some(address@) ==> after[i].1 == c
    } by {
        assert(after[i] == (before[i].0, edit.change(before[i].0, before[i].1)));
    }
}

/// Any action but a write to a slot leaves the walk as it is.
pub proof fn only_a_write_touches(walk: &mut PanelWalk, action: &UiAction)
    requires
        !(*action is SetValue),
        call_ensures(PanelWalk::apply_action, (walk, action), ()),
    ensures
        final(walk).view == old(walk).view,
        final(walk).baseline@ == old(walk).baseline@,
{
}

/// A walk starts with nothing touched, and with that to go back to.
pub proof fn a_walk_starts_untouched(
    view: crate::node_view::UiNodeView,
    r: PanelWalk,
)
    requires
        call_ensures(PanelWalk::new, (view,), r),
    ensures
        r.view@ == view@,
        r.baseline@ == view@,
        r.well_formed(),
{
}

/// A control that starts out held is held wherever it is shown, under its scope and
/// channel, at its number; no other is. Holding nothing changes nothing.
pub proof fn what_starts_out_held_is_held_everywhere(
    walk: PanelWalk,
    controls: &Vec<HeldControl>,
    r: PanelWalk,
)
    requires
        controls@.len() <= 1,
        call_ensures(PanelWalk::with_held, (walk, controls), r),
    ensures
        r.baseline@ == walk.baseline@,
        controls@.len() == 0 ==> r.view@ == walk.view@,
        controls@.len() == 1 ==> ({
            let one = controls@[0];
            let before = node_controls(walk.view@);
            let after = node_controls(r.view@);
            &&& after.len() == before.len()
            &&& forall|i: int|
                0 <= i < after.len() ==> {
                    let (scope, c) = #[trigger] before[i];
                    &&& after[i].0 == scope
                    &&& scope == one.scope@ && c.channel == one.channel@ ==> takes_hold(
                        c,
                        after[i].1,
                    ) && after[i].1.value == SlotValueModel::F32(one.value)
                    &&& !(scope == one.scope@ && c.channel == one.channel@) ==> after[i].1 == c
                }
        }),
{
    reveal_with_fuel(with_all_held, 2);
    if controls@.len() == 1 {
        let one = controls@[0];
        let edit = EditModel::Hold { scope: one.scope@, channel: one.channel@, level: one.value };
        assert(controls@.drop_last().len() == 0);
        assert(r.view@ == crate::panel_tree::map_node(walk.view@, edit.as_map()));
        node_controls_of_map(walk.view@, edit.as_map());
        let before = node_controls(walk.view@);
        let after = node_controls(r.view@);
        assert forall|i: int| 0 <= i < after.len() implies {
            let (scope, c) = #[trigger] before[i];
            &&& after[i].0 == scope
            &&& scope == one.scope@ && c.channel == one.channel@ ==> takes_hold(c, after[i].1)
                && after[i].1.value == SlotValueModel::F32(one.value)
            &&& !(scope == one.scope@ && c.channel == one.channel@) ==> after[i].1 == c
        } by {
            assert(after[i] == (before[i].0, edit.change(before[i].0, before[i].1)));
        }
    }
}

/// Holding controls one after the other is holding them at once, in order.
pub proof fn holding_goes_in_order(
    walk: PanelWalk,
    controls: &Vec<HeldControl>,
    start: &Vec<HeldControl>,
    last: &Vec<HeldControl>,
    middle: PanelWalk,
    end: PanelWalk,
    r: PanelWalk,
)
    requires
        controls@.len() > 0,
        start@ == controls@.drop_last(),
        last@ == seq![controls@.last()],
        call_ensures(PanelWalk::with_held, (walk, start), middle),
        call_ensures(PanelWalk::with_held, (middle, last), end),
        call_ensures(PanelWalk::with_held, (walk, controls), r),
    ensures
        r.view@ == end.view@,
        r.baseline@ == end.baseline@,
{
    reveal_with_fuel(with_all_held, 2);
    assert(last@.drop_last().len() == 0);
    assert(last@.last() == controls@.last());
}

// -- letting go ----------------------------------------------------------------------

/// The text starts with the path.
pub open spec fn lies_under(scope: Seq<char>, path: Seq<char>) -> bool {
    exists|rest: Seq<char>| scope == #[trigger] (path + rest)
}

proof fn under_is_prefix(scope: Seq<char>, path: Seq<char>)
    ensures
        lies_under(scope, path) == has_prefix(scope, path),
{
    if has_prefix(scope, path) {
        assert(scope =~= path + scope.skip(path.len() as int));
    }
    if lies_under(scope, path) {
        let rest = choose|rest: Seq<char>| scope == #[trigger] (path + rest);
        assert(scope.take(path.len() as int) =~= path);
    }
}

/// Clearing a scope gives back every control in it and under it exactly as the
/// untouched card has it in that place, and leaves every other control and the card
/// to go back to alone.
pub proof fn clearing_a_scope_gives_back_all_under_it(
    walk: &mut PanelWalk,
    scope: WireScopeRef,
    path: &'static str,
)
    requires
        old(walk).well_formed(),
        call_ensures(scope_display, (&scope,), path),
        call_ensures(PanelWalk::apply_gesture, (walk, &PanelGesture::ClearScope { scope }), ()),
    ensures
        final(walk).baseline@ == old(walk).baseline@,
        final(walk).well_formed(),
        ({
            let before = node_controls(old(walk).view@);
            let pristine = node_controls(old(walk).baseline@);
            let after = node_controls(final(walk).view@);
            &&& after.len() == before.len() == pristine.len()
            &&& forall|i: int|
                0 <= i < after.len() ==> after[i] == if lies_under(
                    (#[trigger] before[i]).0,
                    path@,
                ) {
                    pristine[i]
                } else {
                    before[i]
                }
        }),
{
    let clear = ClearModel::Scope { scope: path@ };
    a_clear_gives_back_what_stood_there(*old(walk), clear);
    let before = node_controls(old(walk).view@);
    let after = node_controls(final(walk).view@);
    let pristine = node_controls(old(walk).baseline@);
    assert forall|i: int| 0 <= i < after.len() implies after[i] == if lies_under(
        (#[trigger] before[i]).0,
        path@,
    ) {
        pristine[i]
    } else {
        before[i]
    } by {
        under_is_prefix(before[i].0, path@);
    }
}

/// Clearing one control gives it back wherever it is shown, as the untouched card has
/// it in each of those places, and leaves every other control alone, those of its
/// scope and those of its name.
pub proof fn clearing_a_control_gives_back_only_it(
    walk: &mut PanelWalk,
    target: UiPanelTarget,
    path: &'static str,
)
    requires
        old(walk).well_formed(),
        call_ensures(scope_display, (&target.scope,), path),
        call_ensures(PanelWalk::apply_gesture, (walk, &PanelGesture::ClearControl { target }), ()),
    ensures
        final(walk).baseline@ == old(walk).baseline@,
        final(walk).well_formed(),
        ({
            let before = node_controls(old(walk).view@);
            let pristine = node_controls(old(walk).baseline@);
            let after = node_controls(final(walk).view@);
            &&& after.len() == before.len() == pristine.len()
            &&& forall|i: int|
                0 <= i < after.len() ==> after[i] == if (#[trigger] before[i]).0 == path@
                    && before[i].1.channel == target.channel@ {
                    pristine[i]
                } else {
                    before[i]
                }
        }),
{
    let clear = ClearModel::Control { scope: path@, channel: target.channel@ };
    a_clear_gives_back_what_stood_there(*old(walk), clear);
}

/// The auto-save gesture sets the switch of a module's face as asked and touches no
/// control; a card without a module's face has no switch to set.
pub proof fn the_auto_save_gesture_sets_the_switch(walk: &mut PanelWalk, enabled: bool)
    requires
        call_ensures(PanelWalk::apply_gesture, (walk, &PanelGesture::SetAutoSave(enabled)), ()),
    ensures
        final(walk).baseline@ == old(walk).baseline@,
        old(walk).view@.face matches Some(NodeFaceModel::Module(face)) ==> final(walk).view@ == (
        NodeModel {
            face: Some(NodeFaceModel::Module(FaceModel { auto_save: Some(enabled), ..face })),
            ..old(walk).view@
        }),
        !(old(walk).view@.face matches Some(NodeFaceModel::Module(_))) ==> final(walk).view@
            == old(walk).view@,
        node_controls(final(walk).view@) == node_controls(old(walk).view@),
{
    auto_save_is_apart_from_the_controls(
        old(walk).view@,
        crate::panel_tree::unchanged(),
        enabled,
    );
}

/// A panel gesture becomes the action that names what the gesture names: one channel
/// of one scope, a whole scope, or the setting.
pub proof fn a_gesture_is_sent_as_what_it_names(gesture: &PanelGesture, r: UiAction)
    requires
        call_ensures(panel_gesture_action, (gesture,), r),
    ensures
        gesture matches PanelGesture::ClearControl { target } ==> (r matches UiAction::PanelClear {
            scope,
            channel,
        } && scope == target.scope && channel@ == target.channel@),
        gesture matches PanelGesture::ClearScope { scope } ==> r == (UiAction::PanelClearScope {
            scope: *scope,
        }),
        gesture matches PanelGesture::SetAutoSave(enabled) ==> r == (UiAction::PanelAutoSave {
            enabled: *enabled,
        }),
{
}

/// The example's paths and scopes stand for each other, one for one.
pub proof fn the_examples_scopes_have_their_paths(scope: &str, target: WireScopeRef)
    requires
        target_of(scope@) is Some,
        call_ensures(scope_target, (scope,), target),
    ensures
        scope@ == "/aurora.module"@ ==> target == (WireScopeRef::Module { owner: 1 }),
        scope@ == "/aurora.module/plasma_1.module"@ ==> target == (WireScopeRef::Module {
            owner: 2,
        }),
        scope@ == "/aurora.module/plasma_2.module"@ ==> target == (WireScopeRef::Module {
            owner: 3,
        }),
        scope@ == "/aurora.module/set.playlist/drift.shader"@ ==> target == (WireScopeRef::Sink {
            owner: 4,
            entry: 0,
        }),
        scope@ == "/aurora.module/set.playlist/whirl.shader"@ ==> target == (WireScopeRef::Sink {
            owner: 4,
            entry: 1,
        }),
        display_of(target) == Some(scope@),
{
    reveal_strlit("/aurora.module");
    reveal_strlit("/aurora.module/plasma_1.module");
    reveal_strlit("/aurora.module/plasma_2.module");
    reveal_strlit("/aurora.module/set.playlist/drift.shader");
    reveal_strlit("/aurora.module/set.playlist/whirl.shader");
    assert("/aurora.module"@.len() == 14);
    assert("/aurora.module/plasma_1.module"@.len() == 30);
    assert("/aurora.module/plasma_2.module"@.len() == 30);
    assert("/aurora.module/plasma_1.module"@[22] == '1');
    assert("/aurora.module/plasma_2.module"@[22] == '2');
    assert("/aurora.module/set.playlist/drift.shader"@.len() == 40);
    assert("/aurora.module/set.playlist/whirl.shader"@.len() == 40);
    assert("/aurora.module/set.playlist/drift.shader"@[28] == 'd');
    assert("/aurora.module/set.playlist/whirl.shader"@[28] == 'w');
}

/// Every scope of the example is shown by its own path: the three modules by theirs,
/// and an entry of the playlist by the first entry's or the second's.
pub proof fn a_scope_is_shown_by_its_path(target: &WireScopeRef, r: &'static str)
    requires
        display_of(*target) is Some,
        call_ensures(scope_display, (target,), r),
    ensures
        *target == (WireScopeRef::Module { owner: 1 }) ==> r@ == "/aurora.module"@,
        *target == (WireScopeRef::Module { owner: 2 }) ==> r@ == "/aurora.module/plasma_1.module"@,
        *target == (WireScopeRef::Module { owner: 3 }) ==> r@ == "/aurora.module/plasma_2.module"@,
        target matches WireScopeRef::Sink { entry, .. } ==> r@ == if *entry == 0 {
            "/aurora.module/set.playlist/drift.shader"@
        } else {
            "/aurora.module/set.playlist/whirl.shader"@
        },
{
}

// -- what is held --------------------------------------------------------------------

/// The panel holds the control.
pub open spec fn is_engaged() -> spec_fn(Placed) -> bool {
    |x: Placed| x.1.state == UiPanelControlState::Engaged
}

proof fn filter_of_parts(a: Seq<Placed>, b: Seq<Placed>)
    ensures
        (a + b).filter(is_engaged()).len() == a.filter(is_engaged()).len() + b.filter(
            is_engaged(),
        ).len(),
    decreases b.len(),
{
    reveal(Seq::filter);
    if b.len() == 0 {
        assert(a + b =~= a);
    } else {
        assert((a + b).drop_last() =~= a + b.drop_last());
        filter_of_parts(a, b.drop_last());
    }
}

proof fn own_held(g: GroupModel, n: nat)
    requires
        n <= g.controls.len(),
    ensures
        engaged_count(g.controls.take(n as int)) == own_controls(g).take(n as int).filter(
            is_engaged(),
        ).len(),
    decreases n,
{
    reveal(Seq::filter);
    if n > 0 {
        own_held(g, (n - 1) as nat);
        assert(g.controls.take(n as int).drop_last() =~= g.controls.take(n - 1));
        assert(own_controls(g).take(n as int).drop_last() =~= own_controls(g).take(n - 1));
        assert(own_controls(g).take(n as int).last() == (g.scope, g.controls[n - 1]));
    }
}

proof fn all_held(g: GroupModel)
    ensures
        g.engaged_total() == group_controls(g).filter(is_engaged()).len(),
    decreases g, 0nat,
{
    own_held(g, g.controls.len());
    assert(g.controls.take(g.controls.len() as int) =~= g.controls);
    assert(own_controls(g).take(g.controls.len() as int) =~= own_controls(g));
    nested_held(g.groups);
    filter_of_parts(own_controls(g), groups_controls(g.groups));
}

proof fn nested_held(groups: Seq<GroupModel>)
    ensures
        engaged_in_groups(groups) == groups_controls(groups).filter(is_engaged()).len(),
    decreases groups, groups.len(),
{
    reveal(Seq::filter);
    if groups.len() > 0 {
        nested_held(groups.drop_last());
        all_held(groups.last());
        filter_of_parts(groups_controls(groups.drop_last()), group_controls(groups.last()));
    }
}

/// A panel counts the controls it holds: of its own, and of itself with everything
/// nested in it, each of them once.
pub proof fn a_panel_counts_what_it_holds(group: &UiPanelGroup, own: usize, all: usize)
    requires
        call_ensures(UiPanelGroup::engaged_here, (group,), own),
        call_ensures(UiPanelGroup::engaged_total, (group,), all),
    ensures
        own == Seq::new(
            group@.controls.len(),
            |i: int| (group@.scope, group@.controls[i]),
        ).filter(is_engaged()).len(),
        ({
            let held = group_controls(group@).filter(is_engaged()).len();
            all == if held > usize::MAX {
                usize::MAX as nat
            } else {
                held
            }
        }),
{
    all_held(group@);
    own_held(group@, group@.controls.len());
    assert(group@.controls.take(group@.controls.len() as int) =~= group@.controls);
    assert(own_controls(group@).take(group@.controls.len() as int) =~= own_controls(group@));
    assert(Seq::new(group@.controls.len(), |i: int| (group@.scope, group@.controls[i]))
        =~= own_controls(group@));
}

/// A scope can be reset where something in it or under it is held and the scope is
/// known; the reset clears that scope and says how many controls it lets go of.
pub proof fn a_scope_is_reset_by_what_it_holds(
    group: &UiPanelGroup,
    held: usize,
    r: Option<ScopeReset>,
    boxed: GroupBox,
    play: bool,
)
    requires
        call_ensures(UiPanelGroup::engaged_total, (group,), held),
        call_ensures(scope_reset, (group,), r),
        call_ensures(group_box, (group, play), boxed),
    ensures
        r is Some <==> held > 0 && group.target is Some,
        r matches Some(reset) ==> reset.gesture == (PanelGesture::ClearScope {
            scope: group.target->Some_0,
        }) && reset.held == held && reset.label@ == "Reset "@ + decimal(held as nat) + (if held
            == 1 {
            " held control in "@
        } else {
            " held controls in "@
        }) + group.scope@ + " \u{2014} panel writers are dropped and the project drives again"@,
        held > 0 ==> boxed.heading_class@ == crate::panel_control::HEADING_HELD@,
        held == 0 ==> boxed.heading_class@ == crate::panel_control::HEADING_PLAIN@,
        boxed.box_class@ == if play {
            crate::panel_control::BOX_PLAY@
        } else {
            crate::panel_control::BOX_CARD@
        },
{
    assert(held == held_shown(group@));
    reveal_strlit(" held ");
    reveal_strlit("control");
    reveal_strlit("controls");
    reveal_strlit(" in ");
    reveal_strlit(" held control in ");
    reveal_strlit(" held controls in ");
    assert(" held "@ + "control"@ + " in "@ =~= " held control in "@);
    assert(" held "@ + "controls"@ + " in "@ =~= " held controls in "@);
    let head = "Reset "@ + decimal(held as nat);
    assert(head + " held "@ + "control"@ + " in "@ =~= head + " held control in "@);
    assert(head + " held "@ + "controls"@ + " in "@ =~= head + " held controls in "@);
}

/// A control can be reset only while it is held, and the reset clears the control's
/// own channel in its own scope.
pub proof fn a_control_is_reset_by_its_identity(
    view: &UiPanelControlView,
    scope: WireScopeRef,
    r: Option<ControlReset>,
)
    requires
        call_ensures(control_reset, (view, scope), r),
    ensures
        r is Some <==> view.state == UiPanelControlState::Engaged,
        r matches Some(reset) ==> (reset.gesture matches PanelGesture::ClearControl { target }
            && target.scope == scope && target.channel@ == view.channel@),
        r matches Some(reset) ==> reset.label@ == "Reset "@ + view.control.label@ && reset.title@
            == reset.label@ + " \u{2014} drop the held value and follow the project again"@,
{
}

// -- what is shown -------------------------------------------------------------------

/// A readout shows the live value of a control that follows one, and the control's
/// own value in every other state.
pub proof fn a_readout_shows_what_is_followed(
    value: &str,
    live: Option<&str>,
    state: UiPanelControlState,
    r: String,
)
    requires
        call_ensures(shown_display, (value, live, state), r),
    ensures
        state != UiPanelControlState::ReadFollowing ==> r@ == value@,
        live is None ==> r@ == value@,
        state == UiPanelControlState::ReadFollowing ==> (live matches Some(text) ==> r@ == text@),
{
}

/// A live switch reads as the truth value it spells, while the control follows it,
/// and as nothing otherwise.
pub proof fn a_live_switch_reads_as_it_spells(live: &Option<String>, following: bool, r: Option<bool>)
    requires
        call_ensures(live_bool, (live, following), r),
    ensures
        r == Some(true) <==> following && (live matches Some(text) && text@ == "true"@),
        r == Some(false) <==> following && (live matches Some(text) && text@ == "false"@),
{
    reveal_strlit("true");
    reveal_strlit("false");
    assert("true"@.len() != "false"@.len());
}

/// A knob and a fader show numbers and a toggle shows a truth value; the other
/// widgets show whatever they hold.
pub proof fn a_widget_shows_its_own_kind(widget: &UiPanelWidget, value: &UiSlotValue, r: bool)
    requires
        call_ensures(fits, (widget, value), r),
    ensures
        widget is Knob || widget is Fader ==> (r <==> value is F32),
        widget is Toggle ==> (r <==> value is Bool),
        widget is PaletteSwatch || widget is PatternPicker ==> r,
{
}

/// A control is drawn by its state: a followed one bound, a held one engaged, and one
/// at its default neither, in colours that tell the three apart.
pub proof fn a_control_is_drawn_by_its_state(
    view: &UiPanelControlView,
    play: bool,
    fitting: bool,
    label: &'static str,
    readout: &'static str,
    r: ControlDrawing,
)
    requires
        call_ensures(control_drawing, (view, play), r),
        call_ensures(fits, (&view.control.widget, &view.control.value), fitting),
        call_ensures(panel_state_label_class, (view.state,), label),
        call_ensures(panel_state_readout_class, (view.state,), readout),
    ensures
        r.engaged <==> view.state == UiPanelControlState::Engaged,
        r.bound <==> view.state == UiPanelControlState::ReadFollowing,
        r.shows_widget == fitting,
        r.label_class@ == label@,
        r.readout_class@ == crate::panel_control::READOUT_CLASS@ + " "@ + readout@,
        view.state == UiPanelControlState::ReadDefault ==> label@ == "tw:text-subtle-foreground"@
            && readout@ == "tw:text-dim-foreground"@,
        view.state == UiPanelControlState::ReadFollowing ==> label@
            == "tw:text-status-bound-foreground"@ && readout@ == label@,
        view.state == UiPanelControlState::Engaged ==> label@
            == "tw:text-status-attention-foreground"@ && readout@ == label@,
        view.control.widget is Fader ==> r.column_class@ == crate::panel_control::FADER_CLASS@,
        !(view.control.widget is Fader) ==> r.column_class@ == if play {
            crate::panel_control::COLUMN_PLAY_CLASS@
        } else {
            crate::panel_control::COLUMN_CLASS@
        },
{
}

/// A control's details say its state, what is behind it where that is known, and what
/// it is known by; a group's details say its path.
pub proof fn details_say_state_and_identity(
    view: &UiPanelControlView,
    scope: &str,
    r: Vec<UiSlotAspect>,
    group: &UiPanelGroup,
    path: Vec<UiSlotAspect>,
)
    requires
        call_ensures(UiPanelControlView::detail_aspects, (view, scope), r),
        call_ensures(UiPanelGroup::detail_aspects, (group,), path),
    ensures
        r@.len() == 2,
        r@[0].kind == UiSlotAspectKind::PanelState,
        view.state == UiPanelControlState::ReadDefault ==> r@[0].title@ == "At default"@,
        view.state == UiPanelControlState::ReadFollowing ==> r@[0].title@ == "Following"@,
        view.state == UiPanelControlState::Engaged ==> r@[0].title@ == "Held"@,
        view.source is None ==> r@[0].rows@.len() == 0,
        view.source matches Some(source) ==> r@[0].rows@.len() == 1 && r@[0].rows@[0]@ == source@,
        r@[1].kind == UiSlotAspectKind::Identity,
        r@[1].title@ == view.control.label@,
        r@[1].rows@.len() == 2 && r@[1].rows@[0]@ == scope@ && r@[1].rows@[1]@ == view.channel@,
        path@.len() == 1,
        path@[0].kind == UiSlotAspectKind::Identity,
        path@[0].title@ == group.label@,
        path@[0].rows@.len() == 1 && path@[0].rows@[0]@ == group.scope@,
{
}

/// A panel has a note where it has nothing to show, and its affordances where
/// something is held or it offers to save.
pub proof fn a_panel_shows_what_it_has(
    panel: &UiPanelGroup,
    auto_save: Option<bool>,
    held: usize,
    r: PanelParts,
)
    requires
        call_ensures(panel_parts, (panel, auto_save), r),
        call_ensures(UiPanelGroup::engaged_total, (panel,), held),
    ensures
        r.controls <==> panel@.controls.len() > 0,
        r.groups <==> panel@.groups.len() > 0,
        r.empty_note <==> !r.controls && !r.groups,
        r.affordances <==> !r.empty_note && (held > 0 || auto_save is Some),
{
}

/// Pressing the auto-save switch asks for the other setting, and its words say the
/// one it is at.
pub proof fn the_switch_asks_for_the_other_setting(auto_save: bool, r: AutoSaveSwitch)
    requires
        call_ensures(auto_save_switch, (auto_save,), r),
    ensures
        r.press == PanelGesture::SetAutoSave(!auto_save),
        auto_save ==> r.title@
            == "Auto-save on \u{2014} panel settings are saved and restored on boot (.lp/state.json)"@,
        !auto_save ==> r.title@
            == "Auto-save off \u{2014} panel settings are NOT saved, and are lost on restart"@,
{
}

} // verus!
