//! What holds of a panel whatever is done to it: letting go returns to the
//! untouched state, one control moves everywhere it is shown, and nothing else
//! moves with it.

use vstd::prelude::*;

use crate::node_view::{FaceModel, NodeFaceModel, NodeModel};
use crate::panel::{ControlModel, GroupModel, SlotValueModel};
use crate::panel_tree::{
    agree_on, engaged_total_is_zero_when_nothing_is_held, group_controls, group_controls_of_map,
    map_group, map_group_agrees, map_group_unchanged, map_node, map_node_agrees, map_placed,
    node_controls, node_controls_of_map, node_controls_of_zip, node_is_frame_and_controls,
    nothing_engaged, unchanged, zip_node_changes,
};
use crate::panel_walk::{
    auto_save_is_apart_from_a_clear, auto_save_is_apart_from_the_controls, blanked, cleared,
    clears_keep_the_frame, edits_keep_the_frame, first_with_identity, first_with_identity_is_found,
    same_frame, touched, with_auto_save, ClearModel, EditModel, PanelWalk,
};
use crate::slot::{LpValueView, SlotAddressView};
use crate::text::has_prefix;

verus! {

/// The controls of two cards of one frame pair up by identity.
pub proof fn one_frame_has_one_list_of_identities(a: NodeModel, b: NodeModel)
    requires
        same_frame(a, b),
    ensures
        node_controls(a).len() == node_controls(b).len(),
        forall|i: int|
            0 <= i < node_controls(a).len() ==> (#[trigger] node_controls(a)[i]).0
                == node_controls(b)[i].0 && node_controls(a)[i].1.channel == node_controls(
                b,
            )[i].1.channel,
{
    node_controls_of_map(a, blanked());
    node_controls_of_map(b, blanked());
    let x = map_placed(node_controls(a), blanked());
    let y = map_placed(node_controls(b), blanked());
    assert(x == y);
    assert forall|i: int| 0 <= i < node_controls(a).len() implies (#[trigger] node_controls(
        a,
    )[i]).0 == node_controls(b)[i].0 && node_controls(a)[i].1.channel == node_controls(
        b,
    )[i].1.channel by {
        assert(x[i] == y[i]);
    }
}

proof fn walk_identities(walk: PanelWalk)
    requires
        walk.well_formed(),
    ensures
        node_controls(walk.view@).len() == node_controls(walk.baseline@).len(),
        forall|i: int|
            0 <= i < node_controls(walk.view@).len() ==> (#[trigger] node_controls(
                walk.view@,
            )[i]).0 == node_controls(walk.baseline@)[i].0 && node_controls(
                walk.view@,
            )[i].1.channel == node_controls(walk.baseline@)[i].1.channel,
{
    auto_save_is_apart_from_the_controls(walk.view@, unchanged(), false);
    auto_save_is_apart_from_the_controls(walk.baseline@, unchanged(), false);
    one_frame_has_one_list_of_identities(
        with_auto_save(walk.view@, false),
        with_auto_save(walk.baseline@, false),
    );
}

/// On a card of the untouched card's frame, a clear goes by place: each control it
/// covers is the untouched card's control in that place, and every other stays.
pub proof fn a_clear_goes_by_place(view: NodeModel, original: NodeModel, clear: ClearModel)
    requires
        same_frame(view, original),
    ensures
        ({
            let before = node_controls(view);
            let pristine = node_controls(original);
            let after = node_controls(cleared(view, original, clear));
            &&& after.len() == before.len() == pristine.len()
            &&& forall|i: int|
                0 <= i < after.len() ==> after[i] == if clear.covers(
                    (#[trigger] before[i]).0,
                    before[i].1,
                ) {
                    pristine[i]
                } else {
                    before[i]
                }
        }),
{
    let before = node_controls(view);
    let pristine = node_controls(original);
    let after = node_controls(cleared(view, original, clear));
    let edit = EditModel::Restore { clear, pristine };
    let first = map_node(view, edit.as_map());
    let between = node_controls(first);
    edits_keep_the_frame(view, edit);
    node_controls_of_map(view, edit.as_map());
    node_controls_of_zip(first, original, clear.as_map(), blanked());
    one_frame_has_one_list_of_identities(view, original);
    assert forall|i: int| 0 <= i < after.len() implies after[i] == if clear.covers(
        (#[trigger] before[i]).0,
        before[i].1,
    ) {
        pristine[i]
    } else {
        before[i]
    } by {
        first_with_identity_is_found(pristine, before[i].0, before[i].1.channel);
        assert(before[i].0 == pristine[i].0 && before[i].1.channel == pristine[i].1.channel);
        assert(between[i].0 == before[i].0);
        assert(between[i].1 == edit.change(before[i].0, before[i].1));
        assert(after[i] == (between[i].0, clear.change(
            between[i].0,
            between[i].1,
            pristine[i].1,
        )));
    }
}

/// A clear gives each control it covers back as it stands in the same place on
/// the untouched card, its label, address and value with it, and leaves every
/// other control as it is.
pub proof fn a_clear_gives_back_what_stood_there(walk: PanelWalk, clear: ClearModel)
    requires
        walk.well_formed(),
    ensures
        ({
            let before = node_controls(walk.view@);
            let pristine = node_controls(walk.baseline@);
            let after = node_controls(cleared(walk.view@, walk.baseline@, clear));
            &&& after.len() == before.len() == pristine.len()
            &&& forall|i: int|
                0 <= i < after.len() ==> after[i] == if clear.covers(
                    (#[trigger] before[i]).0,
                    before[i].1,
                ) {
                    pristine[i]
                } else {
                    before[i]
                }
        }),
{
    let v = with_auto_save(walk.view@, false);
    let b = with_auto_save(walk.baseline@, false);
    auto_save_is_apart_from_the_controls(walk.view@, unchanged(), false);
    auto_save_is_apart_from_the_controls(walk.baseline@, unchanged(), false);
    auto_save_is_apart_from_a_clear(walk.view@, walk.baseline@, clear, false);
    auto_save_is_apart_from_the_controls(
        cleared(walk.view@, walk.baseline@, clear),
        unchanged(),
        false,
    );
    a_clear_goes_by_place(v, b, clear);
}

/// However the cards were rearranged, a clear gives back every control it covers
/// that the untouched card knows: it becomes one of the untouched card's controls
/// of that scope and channel. Every other control stays.
pub proof fn a_clear_gives_back_what_the_card_knows(
    view: NodeModel,
    original: NodeModel,
    clear: ClearModel,
)
    ensures
        ({
            let before = node_controls(view);
            let pristine = node_controls(original);
            let after = node_controls(cleared(view, original, clear));
            &&& after.len() == before.len()
            &&& forall|i: int|
                0 <= i < after.len() ==> {
                    let (scope, c) = #[trigger] before[i];
                    if clear.covers(scope, c) && first_with_identity(
                        pristine,
                        scope,
                        c.channel,
                    ) is Some {
                        &&& pristine.contains(after[i])
                        &&& after[i].0 == scope
                        &&& after[i].1.channel == c.channel
                    } else {
                        after[i] == before[i]
                    }
                }
        }),
{
    let before = node_controls(view);
    let pristine = node_controls(original);
    let after = node_controls(cleared(view, original, clear));
    let edit = EditModel::Restore { clear, pristine };
    let first = map_node(view, edit.as_map());
    let between = node_controls(first);
    node_controls_of_map(view, edit.as_map());
    zip_node_changes(first, original, clear.as_map());
    assert forall|i: int| 0 <= i < after.len() implies ({
        let (scope, c) = #[trigger] before[i];
        if clear.covers(scope, c) && first_with_identity(pristine, scope, c.channel) is Some {
            &&& pristine.contains(after[i])
            &&& after[i].0 == scope
            &&& after[i].1.channel == c.channel
        } else {
            after[i] == before[i]
        }
    }) by {
        let (scope, c) = before[i];
        first_with_identity_is_found(pristine, scope, c.channel);
        assert(between[i] == (scope, edit.change(scope, c)));
        if after[i] != between[i] {
            let o = choose|o: ControlModel|
                pristine.contains((between[i].0, o)) && after[i] == (
                    between[i].0,
                    #[trigger] (clear.as_map())(between[i].0, between[i].1, o),
                );
            assert(after[i] == (scope, clear.change(scope, between[i].1, o)));
            let k = choose|k: int| 0 <= k < pristine.len() && pristine[k] == (scope, o);
            assert(pristine[k].1.channel == between[i].1.channel);
        }
    }
}

/// Reset means reset: after a scope is cleared, nothing in it or under it is
/// held, nested groups and child cards included.
pub proof fn clearing_a_scope_releases_everything_under_it(walk: PanelWalk, scope: Seq<char>)
    requires
        walk.well_formed(),
        nothing_engaged(node_controls(walk.baseline@)),
    ensures
        ({
            let after = node_controls(
                cleared(walk.view@, walk.baseline@, ClearModel::Scope { scope }),
            );
            forall|i: int|
                0 <= i < after.len() && has_prefix((#[trigger] after[i]).0, scope)
                    ==> !after[i].1.engaged()
        }),
{
    let clear = ClearModel::Scope { scope };
    let before = node_controls(walk.view@);
    let pristine = node_controls(walk.baseline@);
    let after = node_controls(cleared(walk.view@, walk.baseline@, clear));
    a_clear_gives_back_what_stood_there(walk, clear);
    walk_identities(walk);
    assert forall|i: int|
        0 <= i < after.len() && has_prefix((#[trigger] after[i]).0, scope) implies
        !after[i].1.engaged() by {
        assert(before[i].0 == pristine[i].0);
        assert(!pristine[i].1.engaged());
    }
}

/// A panel whose scope was cleared counts nothing held, and so offers no reset:
/// not for its own controls nor for those of the groups nested in it.
pub proof fn a_cleared_panel_counts_nothing_held(
    walk: PanelWalk,
    face: FaceModel,
    scope: Seq<char>,
)
    requires
        walk.well_formed(),
        nothing_engaged(node_controls(walk.baseline@)),
        walk.view@.face == Some(NodeFaceModel::Module(face)),
        forall|i: int|
            0 <= i < group_controls(face.panel).len() ==> has_prefix(
                (#[trigger] group_controls(face.panel)[i]).0,
                scope,
            ),
    ensures
        cleared(
            walk.view@,
            walk.baseline@,
            ClearModel::Scope { scope },
        ).face matches Some(NodeFaceModel::Module(after)) && after.panel.engaged_total() == 0
            && after == (FaceModel { panel: after.panel, ..face }),
{
    let clear = ClearModel::Scope { scope };
    let card = cleared(walk.view@, walk.baseline@, clear);
    let v = with_auto_save(walk.view@, false);
    let b = with_auto_save(walk.baseline@, false);
    assert(map_node(v, blanked()).face == map_node(b, blanked()).face);
    let after = card.face->Some_0->Module_0;
    assert(card.face == Some(NodeFaceModel::Module(FaceModel { panel: after.panel, ..face })));
    clearing_a_scope_releases_everything_under_it(walk, scope);
    clears_keep_the_frame(v, b, clear);
    auto_save_is_apart_from_a_clear(walk.view@, walk.baseline@, clear, false);
    assert(map_node(with_auto_save(card, false), blanked()).face == map_node(v, blanked()).face);
    assert(map_group(after.panel, blanked()) == map_group(face.panel, blanked()));
    group_controls_of_map(after.panel, blanked());
    group_controls_of_map(face.panel, blanked());
    let x = map_placed(group_controls(after.panel), blanked());
    let y = map_placed(group_controls(face.panel), blanked());
    assert(x == y);
    assert forall|i: int| 0 <= i < group_controls(after.panel).len() implies !(
    #[trigger] group_controls(after.panel)[i]).1.engaged() by {
        assert(node_controls(card)[i] == group_controls(after.panel)[i]);
        assert(x[i] == y[i]);
        assert(group_controls(after.panel)[i].0 == group_controls(face.panel)[i].0);
    }
    engaged_total_is_zero_when_nothing_is_held(after.panel);
}

/// A control outside the cleared scope stays as it is.
pub proof fn clearing_a_scope_leaves_the_rest_alone(walk: PanelWalk, scope: Seq<char>)
    requires
        walk.well_formed(),
    ensures
        ({
            let before = node_controls(walk.view@);
            let after = node_controls(
                cleared(walk.view@, walk.baseline@, ClearModel::Scope { scope }),
            );
            &&& after.len() == before.len()
            &&& forall|i: int|
                0 <= i < after.len() && !has_prefix((#[trigger] after[i]).0, scope) ==> after[i]
                    == before[i]
        }),
{
    a_clear_gives_back_what_stood_there(walk, ClearModel::Scope { scope });
    walk_identities(walk);
    let before = node_controls(walk.view@);
    let pristine = node_controls(walk.baseline@);
    let after = node_controls(
        cleared(walk.view@, walk.baseline@, ClearModel::Scope { scope }),
    );
    assert forall|i: int|
        0 <= i < after.len() && !has_prefix((#[trigger] after[i]).0, scope) implies after[i]
        == before[i] by {
        assert(before[i].0 == pristine[i].0);
    }
}

/// Clearing one control lets go of it wherever it is shown, and of no other.
pub proof fn clearing_one_control_leaves_its_siblings_alone(
    walk: PanelWalk,
    scope: Seq<char>,
    channel: Seq<char>,
)
    requires
        walk.well_formed(),
        nothing_engaged(node_controls(walk.baseline@)),
    ensures
        ({
            let before = node_controls(walk.view@);
            let after = node_controls(
                cleared(walk.view@, walk.baseline@, ClearModel::Control { scope, channel }),
            );
            &&& after.len() == before.len()
            &&& forall|i: int|
                0 <= i < after.len() ==> if (#[trigger] before[i]).0 == scope
                    && before[i].1.channel == channel {
                    !after[i].1.engaged()
                } else {
                    after[i] == before[i]
                }
        }),
{
    let clear = ClearModel::Control { scope, channel };
    let before = node_controls(walk.view@);
    let pristine = node_controls(walk.baseline@);
    let after = node_controls(cleared(walk.view@, walk.baseline@, clear));
    a_clear_gives_back_what_stood_there(walk, clear);
    assert forall|i: int| 0 <= i < after.len() implies if (#[trigger] before[i]).0 == scope
        && before[i].1.channel == channel {
        !after[i].1.engaged()
    } else {
        after[i] == before[i]
    } by {
        assert(!pristine[i].1.engaged());
    }
}

/// One control, however many cards show it: holding it holds it at the same
/// value on all of them, and moves nothing else.
pub proof fn one_control_moves_together(
    node: NodeModel,
    scope: Seq<char>,
    channel: Seq<char>,
    level: u32,
)
    ensures
        ({
            let before = node_controls(node);
            let after = node_controls(
                map_node(node, (EditModel::Hold { scope, channel, level }).as_map()),
            );
            &&& after.len() == before.len()
            &&& forall|i: int|
                0 <= i < after.len() ==> if (#[trigger] before[i]).0 == scope
                    && before[i].1.channel == channel {
                    after[i].1.engaged() && after[i].1.value == SlotValueModel::F32(level)
                } else {
                    after[i] == before[i]
                }
        }),
{
    node_controls_of_map(node, (EditModel::Hold { scope, channel, level }).as_map());
}

/// Panel state is kept by scope and channel: holding a channel of one scope
/// leaves a panel of other scopes as it is, whatever channels it has.
pub proof fn a_hold_stays_in_its_scope(
    panel: GroupModel,
    scope: Seq<char>,
    channel: Seq<char>,
    level: u32,
)
    requires
        forall|i: int|
            0 <= i < group_controls(panel).len() ==> (#[trigger] group_controls(panel)[i]).0
                != scope,
    ensures
        map_group(panel, (EditModel::Hold { scope, channel, level }).as_map()) == panel,
{
    let hold = (EditModel::Hold { scope, channel, level }).as_map();
    assert(agree_on(group_controls(panel), hold, unchanged()));
    map_group_agrees(panel, hold, unchanged());
    map_group_unchanged(panel);
}

/// A widget's write holds every control at its address and touches no other.
pub proof fn a_touch_holds_what_it_touches(
    node: NodeModel,
    address: SlotAddressView,
    value: LpValueView,
)
    ensures
        ({
            let before = node_controls(node);
            let after = node_controls(
                map_node(node, (EditModel::Touch { address, value }).as_map()),
            );
            &&& after.len() == before.len()
            &&& forall|i: int|
                0 <= i < after.len() ==> if (#[trigger] before[i]).1.address == Some(address) {
                    after[i].1.engaged()
                } else {
                    after[i] == before[i]
                }
        }),
{
    node_controls_of_map(node, (EditModel::Touch { address, value }).as_map());
}

/// The first touch takes hold; a later one only moves the held value. What the
/// hold displaced stays on record.
pub proof fn later_touches_only_move_the_value(
    c: ControlModel,
    first: LpValueView,
    next: LpValueView,
)
    ensures
        touched(c, first).engaged(),
        touched(touched(c, first), next) == (ControlModel {
            value: touched(touched(c, first), next).value,
            ..touched(c, first)
        }),
        c.source is Some ==> touched(c, first).source == c.source,
        touched(c, first).source is None ==> c.engaged(),
{
}

/// Holding a control at a value and turning its widget there are one change:
/// what letting go lands on is the same either way.
pub proof fn holding_is_touching(
    node: NodeModel,
    scope: Seq<char>,
    channel: Seq<char>,
    level: u32,
    address: SlotAddressView,
)
    requires
        forall|i: int|
            0 <= i < node_controls(node).len() ==> ((#[trigger] node_controls(node)[i]).0 == scope
                && node_controls(node)[i].1.channel == channel) == (node_controls(
                node,
            )[i].1.address == Some(address)),
    ensures
        map_node(node, (EditModel::Hold { scope, channel, level }).as_map()) == map_node(
            node,
            (EditModel::Touch { address, value: LpValueView::F32(level) }).as_map(),
        ),
{
    let hold = (EditModel::Hold { scope, channel, level }).as_map();
    let touch = (EditModel::Touch { address, value: LpValueView::F32(level) }).as_map();
    assert(agree_on(node_controls(node), hold, touch));
    map_node_agrees(node, hold, touch);
}

/// Letting go twice is letting go once.
pub proof fn clearing_twice_is_clearing_once(walk: PanelWalk, clear: ClearModel)
    requires
        walk.well_formed(),
    ensures
        ({
            let once = cleared(walk.view@, walk.baseline@, clear);
            cleared(once, walk.baseline@, clear) == once
        }),
{
    let once = cleared(walk.view@, walk.baseline@, clear);
    let twice = cleared(once, walk.baseline@, clear);
    clears_keep_the_frame(once, walk.baseline@, clear);
    clears_keep_the_frame(walk.view@, walk.baseline@, clear);
    a_second_clear_finds_nothing(walk, clear);
    node_is_frame_and_controls(twice, once, blanked());
}

proof fn a_second_clear_finds_nothing(walk: PanelWalk, clear: ClearModel)
    requires
        walk.well_formed(),
    ensures
        ({
            let once = cleared(walk.view@, walk.baseline@, clear);
            let twice = cleared(once, walk.baseline@, clear);
            node_controls(twice) == node_controls(once)
        }),
{
    let v = with_auto_save(walk.view@, false);
    let b = with_auto_save(walk.baseline@, false);
    let once = cleared(walk.view@, walk.baseline@, clear);
    let twice = cleared(once, walk.baseline@, clear);
    let w = cleared(v, b, clear);
    auto_save_is_apart_from_a_clear(walk.view@, walk.baseline@, clear, false);
    auto_save_is_apart_from_a_clear(once, walk.baseline@, clear, false);
    auto_save_is_apart_from_the_controls(once, unchanged(), false);
    auto_save_is_apart_from_the_controls(twice, unchanged(), false);
    clears_keep_the_frame(v, b, clear);
    one_frame_has_one_list_of_identities(v, b);
    a_clear_goes_by_place(v, b, clear);
    a_clear_goes_by_place(w, b, clear);
    let before = node_controls(v);
    let between = node_controls(w);
    let after = node_controls(cleared(w, b, clear));
    assert forall|i: int| 0 <= i < after.len() implies after[i] == between[i] by {
        assert(between[i] == if clear.covers(before[i].0, before[i].1) {
            node_controls(b)[i]
        } else {
            before[i]
        });
        assert(before[i].0 == node_controls(b)[i].0);
    }
    assert(after =~= between);
}

/// On a card of the untouched card's frame, clearing a scope that everything lies
/// under gives exactly the untouched card.
pub proof fn clearing_everything_gives_back_the_card(
    view: NodeModel,
    original: NodeModel,
    scope: Seq<char>,
)
    requires
        same_frame(view, original),
        forall|i: int|
            0 <= i < node_controls(original).len() ==> has_prefix(
                (#[trigger] node_controls(original)[i]).0,
                scope,
            ),
    ensures
        cleared(view, original, ClearModel::Scope { scope }) == original,
{
    let clear = ClearModel::Scope { scope };
    let after = cleared(view, original, clear);
    one_frame_has_one_list_of_identities(view, original);
    a_clear_goes_by_place(view, original, clear);
    assert forall|i: int| 0 <= i < node_controls(after).len() implies node_controls(after)[i]
        == node_controls(original)[i] by {
        assert(node_controls(view)[i].0 == node_controls(original)[i].0);
    }
    assert(node_controls(after) =~= node_controls(original));
    clears_keep_the_frame(view, original, clear);
    node_is_frame_and_controls(after, original, blanked());
}

/// Clearing a scope that everything lies under returns to exactly the untouched
/// card, whatever was held or touched before: every card of the column has its
/// own controls back. The auto-save switch stays where it was put.
pub proof fn clearing_everything_returns_to_the_untouched_card(
    walk: PanelWalk,
    scope: Seq<char>,
)
    requires
        walk.well_formed(),
        forall|i: int|
            0 <= i < node_controls(walk.baseline@).len() ==> has_prefix(
                (#[trigger] node_controls(walk.baseline@)[i]).0,
                scope,
            ),
    ensures
        ({
            let after = cleared(walk.view@, walk.baseline@, ClearModel::Scope { scope });
            &&& with_auto_save(after, false) == with_auto_save(walk.baseline@, false)
            &&& same_frame(walk.view@, walk.baseline@) ==> after == walk.baseline@
        }),
{
    let clear = ClearModel::Scope { scope };
    let v = with_auto_save(walk.view@, false);
    let b = with_auto_save(walk.baseline@, false);
    auto_save_is_apart_from_a_clear(walk.view@, walk.baseline@, clear, false);
    auto_save_is_apart_from_the_controls(walk.baseline@, unchanged(), false);
    clearing_everything_gives_back_the_card(v, b, scope);
    if same_frame(walk.view@, walk.baseline@) {
        clearing_everything_gives_back_the_card(walk.view@, walk.baseline@, scope);
    }
}

/// The auto-save switch moves no control, and neither a touch nor a clear moves
/// the switch.
pub proof fn auto_save_is_a_switch_of_its_own(
    node: NodeModel,
    original: NodeModel,
    edit: EditModel,
    clear: ClearModel,
    enabled: bool,
)
    ensures
        node_controls(with_auto_save(node, enabled)) == node_controls(node),
        with_auto_save(map_node(node, edit.as_map()), enabled) == map_node(
            with_auto_save(node, enabled),
            edit.as_map(),
        ),
        with_auto_save(cleared(node, original, clear), enabled) == cleared(
            with_auto_save(node, enabled),
            original,
            clear,
        ),
{
    auto_save_is_apart_from_the_controls(node, edit.as_map(), enabled);
    let restore = EditModel::Restore { clear, pristine: node_controls(original) };
    auto_save_is_apart_from_the_controls(node, restore.as_map(), enabled);
}

/// A path made by going on from a scope lies under that scope.
pub proof fn a_nested_path_lies_under_its_parent(scope: Seq<char>, rest: Seq<char>)
    ensures
        has_prefix(scope + rest, scope),
{
    assert((scope + rest).take(scope.len() as int) =~= scope);
}

} // verus!
