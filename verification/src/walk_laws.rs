//! What a walk's edits and clears reach, said of the calls that make them: which
//! control each of them changes, and that nothing of a card but its controls does.

use vstd::prelude::*;
use vstd::string::*;

use crate::action::{PanelGesture, UiAction};
use crate::control_laws::{holds_what_was_written, lies_under, takes_hold};
use crate::node_view::{
    ChildModel, NodeFaceModel, NodeModel, UiModuleFace, UiNodeChild, UiNodeFace, UiNodeView,
};
use crate::panel::{GroupModel, SlotValueModel, UiPanelControlView, UiPanelGroup};
use crate::panel_laws::a_clear_gives_back_what_the_card_knows;
use crate::panel_tree::{
    map_child, map_face, map_group, map_node, node_controls, zip_child, zip_face, zip_group,
    zip_node, ControlMap, PairMap, Placed,
};
use crate::panel_walk::{
    clear_view, collect_controls, first_with_identity, restore_child_controls,
    restore_face_controls, restore_group_controls, restore_view_controls, visit_child_controls,
    visit_face_controls, visit_group_controls, visit_view_controls, with_all_held, ClearModel,
    ControlClear, ControlEdit, HeldControl, PanelWalk, PlacedControl,
};
use crate::text::has_prefix;

verus! {

// -- one control ---------------------------------------------------------------------

proof fn under_or_not(scope: Seq<char>, path: Seq<char>)
    ensures
        lies_under(scope, path) == has_prefix(scope, path),
{
    if has_prefix(scope, path) {
        assert(scope =~= path + scope.skip(path.len() as int));
    }
    if lies_under(scope, path) {
        let rest = choose|rest: Seq<char>| scope == #[trigger] (path + rest);
        assert(scope.take(path.len() as int) =~= path);
    }
}

/// A clear of one control covers that channel of that scope and nothing else; a clear
/// of a scope covers everything whose path starts with the scope's.
pub proof fn a_clear_covers_its_own(
    clear: &ControlClear,
    scope: &str,
    view: &UiPanelControlView,
    r: bool,
)
    requires
        call_ensures(ControlClear::covers, (clear, scope, view), r),
    ensures
        clear matches ControlClear::Control { scope: wanted, channel } ==> (r <==> scope@ == wanted@
            && view.channel@ == channel@),
        clear matches ControlClear::Scope { scope: wanted } ==> (r <==> lies_under(
            scope@,
            wanted@,
        )),
{
    if let ControlClear::Scope { scope: wanted } = clear {
        under_or_not(scope@, wanted@);
    }
}

/// A clear lets a control go to what stands in its place, where it covers the control
/// and the two are of one channel; otherwise the control stays.
pub proof fn a_clear_lets_go_to_what_stands_there(
    clear: &ControlClear,
    scope: &str,
    view: &mut UiPanelControlView,
    seen: &UiPanelControlView,
    original: &UiPanelControlView,
    covered: bool,
)
    requires
        *seen == *old(view),
        call_ensures(ControlClear::covers, (clear, scope, seen), covered),
        call_ensures(ControlClear::apply, (clear, scope, view, original), ()),
    ensures
        covered && old(view).channel@ == original.channel@ ==> final(view)@ == original@,
        !covered || old(view).channel@ != original.channel@ ==> final(view)@ == old(view)@,
{
}

/// An edit changes one control exactly where it is meant for it: a hold by its scope
/// and channel, a touch by its address.
pub proof fn an_edit_changes_what_it_is_meant_for(
    edit: &ControlEdit,
    scope: &str,
    view: &mut UiPanelControlView,
)
    requires
        call_ensures(ControlEdit::apply, (edit, scope, view), ()),
    ensures
        edit matches ControlEdit::Hold { scope: wanted, channel, level } ==> if scope@ == wanted@
            && old(view)@.channel == channel@ {
            takes_hold(old(view)@, final(view)@) && final(view)@.value == SlotValueModel::F32(
                *level,
            )
        } else {
            final(view)@ == old(view)@
        },
        edit matches ControlEdit::Touch { address, value } ==> if old(view)@.address == Some(
            address@,
        ) {
            takes_hold(old(view)@, final(view)@) && holds_what_was_written(
                old(view)@,
                final(view)@,
                *value,
            )
        } else {
            final(view)@ == old(view)@
        },
{
}

proof fn the_first_of_an_identity(
    controls: Seq<Placed>,
    scope: Seq<char>,
    channel: Seq<char>,
    i: int,
)
    requires
        0 <= i < controls.len(),
        controls[i].0 == scope && controls[i].1.channel == channel,
        forall|k: int|
            0 <= k < i ==> !((#[trigger] controls[k]).0 == scope && controls[k].1.channel
                == channel),
    ensures
        first_with_identity(controls, scope, channel) == Some(controls[i].1),
    decreases i,
{
    if i > 0 {
        let rest = controls.drop_first();
        assert(rest[i - 1] == controls[i]);
        assert forall|k: int| 0 <= k < i - 1 implies !((#[trigger] rest[k]).0 == scope
            && rest[k].1.channel == channel) by {
            assert(rest[k] == controls[k + 1]);
        }
        the_first_of_an_identity(rest, scope, channel, i - 1);
        assert(!(controls[0].0 == scope && controls[0].1.channel == channel));
    }
}

proof fn none_of_an_identity(controls: Seq<Placed>, scope: Seq<char>, channel: Seq<char>)
    requires
        forall|k: int|
            0 <= k < controls.len() ==> !((#[trigger] controls[k]).0 == scope
                && controls[k].1.channel == channel),
    ensures
        first_with_identity(controls, scope, channel) is None,
    decreases controls.len(),
{
    if controls.len() > 0 {
        let rest = controls.drop_first();
        assert forall|k: int| 0 <= k < rest.len() implies !((#[trigger] rest[k]).0 == scope
            && rest[k].1.channel == channel) by {
            assert(rest[k] == controls[k + 1]);
        }
        none_of_an_identity(rest, scope, channel);
        assert(!(controls[0].0 == scope && controls[0].1.channel == channel));
    }
}

/// Restoring a control that the clear covers makes it the first one of the list under
/// its scope and channel; one that is not covered, or not in the list, stays.
pub proof fn restoring_goes_to_the_first_of_its_identity(
    clear: ControlClear,
    pristine: Vec<PlacedControl>,
    scope: &str,
    view: &mut UiPanelControlView,
    seen: &UiPanelControlView,
    covered: bool,
    i: int,
)
    requires
        *seen == *old(view),
        call_ensures(ControlClear::covers, (&clear, scope, seen), covered),
        call_ensures(
            ControlEdit::apply,
            (&ControlEdit::Restore { clear, pristine }, scope, view),
            (),
        ),
    ensures
        !covered ==> final(view)@ == old(view)@,
        covered && 0 <= i < pristine@.len() && pristine@[i].scope@ == scope@
            && pristine@[i].view@.channel == old(view)@.channel && (forall|k: int|
            0 <= k < i ==> !((#[trigger] pristine@[k]).scope@ == scope@
                && pristine@[k].view@.channel == old(view)@.channel)) ==> final(view)@
            == pristine@[i].view@,
        (forall|k: int|
            0 <= k < pristine@.len() ==> !((#[trigger] pristine@[k]).scope@ == scope@
                && pristine@[k].view@.channel == old(view)@.channel)) ==> final(view)@
            == old(view)@,
{
    let all = crate::panel_walk::placed_models(pristine@);
    let channel = old(view)@.channel;
    if covered && 0 <= i < pristine@.len() && pristine@[i].scope@ == scope@
        && pristine@[i].view@.channel == channel && (forall|k: int|
        0 <= k < i ==> !((#[trigger] pristine@[k]).scope@ == scope@ && pristine@[k].view@.channel
            == channel)) {
        assert forall|k: int| 0 <= k < i implies !((#[trigger] all[k]).0 == scope@
            && all[k].1.channel == channel) by {
            assert(all[k] == pristine@[k]@);
        }
        the_first_of_an_identity(all, scope@, channel, i);
    }
    if forall|k: int|
        0 <= k < pristine@.len() ==> !((#[trigger] pristine@[k]).scope@ == scope@
            && pristine@[k].view@.channel == channel) {
        assert forall|k: int| 0 <= k < all.len() implies !((#[trigger] all[k]).0 == scope@
            && all[k].1.channel == channel) by {
            assert(all[k] == pristine@[k]@);
        }
        none_of_an_identity(all, scope@, channel);
    }
}

/// Collecting a card's controls lists each of them once, in order, with its scope.
pub proof fn collecting_lists_every_control(view: &UiNodeView, r: Vec<PlacedControl>, i: int)
    requires
        call_ensures(collect_controls, (view,), r),
    ensures
        r@.len() == node_controls(view@).len(),
        0 <= i < r@.len() ==> r@[i].scope@ == node_controls(view@)[i].0 && r@[i].view@
            == node_controls(view@)[i].1,
{
    let all = crate::panel_walk::placed_models(r@);
    assert(all.len() == r@.len());
    if 0 <= i < r@.len() {
        assert(all[i] == r@[i]@);
    }
}

// -- nothing but the controls --------------------------------------------------------

/// The two groups differ in what their controls say, and in nothing else, however deep
/// they are nested.
pub open spec fn differ_in_controls(a: GroupModel, b: GroupModel) -> bool
    decreases a,
{
    &&& a.label == b.label
    &&& a.scope == b.scope
    &&& a.target == b.target
    &&& a.controls.len() == b.controls.len()
    &&& a.groups.len() == b.groups.len()
    &&& forall|i: int|
        0 <= i < a.groups.len() ==> differ_in_controls(#[trigger] a.groups[i], b.groups[i])
}

/// The two faces differ in what their controls say, and in nothing else.
pub open spec fn faces_differ_in_controls(
    a: Option<NodeFaceModel>,
    b: Option<NodeFaceModel>,
) -> bool {
    match (a, b) {
        (Some(NodeFaceModel::Module(x)), Some(NodeFaceModel::Module(y))) => {
            &&& differ_in_controls(x.panel, y.panel)
            &&& x.preview == y.preview
            &&& x.hero_choice == y.hero_choice
            &&& x.wiring == y.wiring
            &&& x.wiring_open == y.wiring_open
            &&& x.provenance == y.provenance
            &&& x.auto_save == y.auto_save
        },
        (Some(NodeFaceModel::Controls(x)), Some(NodeFaceModel::Controls(y))) => {
            differ_in_controls(x, y)
        },
        (Some(NodeFaceModel::Plain(x)), Some(NodeFaceModel::Plain(y))) => x == y,
        (None, None) => true,
        _ => false,
    }
}

/// The two child cards differ in what the controls on them and below them say, and in
/// nothing else.
pub open spec fn children_differ_in_controls(a: ChildModel, b: ChildModel) -> bool
    decreases a,
{
    &&& a.label == b.label
    &&& a.kind == b.kind
    &&& a.detail == b.detail
    &&& a.summary == b.summary
    &&& a.status == b.status
    &&& a.sections == b.sections
    &&& faces_differ_in_controls(a.face, b.face)
    &&& a.children.len() == b.children.len()
    &&& forall|i: int|
        0 <= i < a.children.len() ==> children_differ_in_controls(
            #[trigger] a.children[i],
            b.children[i],
        )
}

/// The two cards differ in what the controls on them and below them say, and in
/// nothing else.
pub open spec fn cards_differ_in_controls(a: NodeModel, b: NodeModel) -> bool {
    &&& a.header == b.header
    &&& a.node_id == b.node_id
    &&& faces_differ_in_controls(a.face, b.face)
    &&& a.children.len() == b.children.len()
    &&& forall|i: int|
        0 <= i < a.children.len() ==> children_differ_in_controls(
            #[trigger] a.children[i],
            b.children[i],
        )
}

proof fn groups_are_alike(g: GroupModel)
    ensures
        differ_in_controls(g, g),
    decreases g,
{
    assert forall|i: int| 0 <= i < g.groups.len() implies differ_in_controls(
        #[trigger] g.groups[i],
        g.groups[i],
    ) by {
        groups_are_alike(g.groups[i]);
    }
}

proof fn faces_are_alike(face: Option<NodeFaceModel>)
    ensures
        faces_differ_in_controls(face, face),
{
    match face {
        Some(NodeFaceModel::Module(x)) => groups_are_alike(x.panel),
        Some(NodeFaceModel::Controls(x)) => groups_are_alike(x),
        _ => {},
    }
}

proof fn children_are_alike(child: ChildModel)
    ensures
        children_differ_in_controls(child, child),
    decreases child,
{
    faces_are_alike(child.face);
    assert forall|i: int| 0 <= i < child.children.len() implies children_differ_in_controls(
        #[trigger] child.children[i],
        child.children[i],
    ) by {
        children_are_alike(child.children[i]);
    }
}

proof fn alike_through(a: GroupModel, b: GroupModel, c: GroupModel)
    requires
        differ_in_controls(a, b),
        differ_in_controls(b, c),
    ensures
        differ_in_controls(a, c),
    decreases a,
{
    assert forall|i: int| 0 <= i < a.groups.len() implies differ_in_controls(
        #[trigger] a.groups[i],
        c.groups[i],
    ) by {
        assert(differ_in_controls(b.groups[i], c.groups[i]));
        alike_through(a.groups[i], b.groups[i], c.groups[i]);
    }
}

proof fn faces_alike_through(
    a: Option<NodeFaceModel>,
    b: Option<NodeFaceModel>,
    c: Option<NodeFaceModel>,
)
    requires
        faces_differ_in_controls(a, b),
        faces_differ_in_controls(b, c),
    ensures
        faces_differ_in_controls(a, c),
{
    match (a, b, c) {
        (
            Some(NodeFaceModel::Module(x)),
            Some(NodeFaceModel::Module(y)),
            Some(NodeFaceModel::Module(z)),
        ) => alike_through(x.panel, y.panel, z.panel),
        (
            Some(NodeFaceModel::Controls(x)),
            Some(NodeFaceModel::Controls(y)),
            Some(NodeFaceModel::Controls(z)),
        ) => alike_through(x, y, z),
        _ => {},
    }
}

proof fn children_alike_through(a: ChildModel, b: ChildModel, c: ChildModel)
    requires
        children_differ_in_controls(a, b),
        children_differ_in_controls(b, c),
    ensures
        children_differ_in_controls(a, c),
    decreases a,
{
    faces_alike_through(a.face, b.face, c.face);
    assert forall|i: int| 0 <= i < a.children.len() implies children_differ_in_controls(
        #[trigger] a.children[i],
        c.children[i],
    ) by {
        assert(children_differ_in_controls(b.children[i], c.children[i]));
        children_alike_through(a.children[i], b.children[i], c.children[i]);
    }
}

proof fn cards_alike_through(a: NodeModel, b: NodeModel, c: NodeModel)
    requires
        cards_differ_in_controls(a, b),
        cards_differ_in_controls(b, c),
    ensures
        cards_differ_in_controls(a, c),
{
    faces_alike_through(a.face, b.face, c.face);
    assert forall|i: int| 0 <= i < a.children.len() implies children_differ_in_controls(
        #[trigger] a.children[i],
        c.children[i],
    ) by {
        assert(children_differ_in_controls(b.children[i], c.children[i]));
        children_alike_through(a.children[i], b.children[i], c.children[i]);
    }
}

proof fn mapping_keeps_a_group(g: GroupModel, f: ControlMap)
    ensures
        differ_in_controls(g, map_group(g, f)),
    decreases g,
{
    assert forall|i: int| 0 <= i < g.groups.len() implies differ_in_controls(
        #[trigger] g.groups[i],
        map_group(g, f).groups[i],
    ) by {
        mapping_keeps_a_group(g.groups[i], f);
    }
}

proof fn mapping_keeps_a_face(face: Option<NodeFaceModel>, f: ControlMap)
    ensures
        faces_differ_in_controls(face, map_face(face, f)),
{
    match face {
        Some(NodeFaceModel::Module(x)) => mapping_keeps_a_group(x.panel, f),
        Some(NodeFaceModel::Controls(x)) => mapping_keeps_a_group(x, f),
        _ => {},
    }
}

proof fn mapping_keeps_a_child(child: ChildModel, f: ControlMap)
    ensures
        children_differ_in_controls(child, map_child(child, f)),
    decreases child,
{
    mapping_keeps_a_face(child.face, f);
    assert forall|i: int| 0 <= i < child.children.len() implies children_differ_in_controls(
        #[trigger] child.children[i],
        map_child(child, f).children[i],
    ) by {
        mapping_keeps_a_child(child.children[i], f);
    }
}

proof fn mapping_keeps_a_card(node: NodeModel, f: ControlMap)
    ensures
        cards_differ_in_controls(node, map_node(node, f)),
{
    mapping_keeps_a_face(node.face, f);
    assert forall|i: int| 0 <= i < node.children.len() implies children_differ_in_controls(
        #[trigger] node.children[i],
        map_node(node, f).children[i],
    ) by {
        mapping_keeps_a_child(node.children[i], f);
    }
}

proof fn zipping_keeps_a_group(g: GroupModel, other: GroupModel, f: PairMap)
    ensures
        differ_in_controls(g, zip_group(g, other, f)),
    decreases g,
{
    assert forall|i: int| 0 <= i < g.groups.len() implies differ_in_controls(
        #[trigger] g.groups[i],
        zip_group(g, other, f).groups[i],
    ) by {
        if i < other.groups.len() {
            zipping_keeps_a_group(g.groups[i], other.groups[i], f);
        } else {
            groups_are_alike(g.groups[i]);
        }
    }
}

proof fn zipping_keeps_a_face(
    face: Option<NodeFaceModel>,
    other: Option<NodeFaceModel>,
    f: PairMap,
)
    ensures
        faces_differ_in_controls(face, zip_face(face, other, f)),
{
    faces_are_alike(face);
    match (face, other) {
        (Some(NodeFaceModel::Module(x)), Some(NodeFaceModel::Module(y))) => {
            zipping_keeps_a_group(x.panel, y.panel, f);
        },
        (Some(NodeFaceModel::Controls(x)), Some(NodeFaceModel::Controls(y))) => {
            zipping_keeps_a_group(x, y, f);
        },
        _ => {},
    }
}

proof fn zipping_keeps_a_child(child: ChildModel, other: ChildModel, f: PairMap)
    ensures
        children_differ_in_controls(child, zip_child(child, other, f)),
    decreases child,
{
    zipping_keeps_a_face(child.face, other.face, f);
    assert forall|i: int| 0 <= i < child.children.len() implies children_differ_in_controls(
        #[trigger] child.children[i],
        zip_child(child, other, f).children[i],
    ) by {
        if i < other.children.len() {
            zipping_keeps_a_child(child.children[i], other.children[i], f);
        } else {
            children_are_alike(child.children[i]);
        }
    }
}

proof fn zipping_keeps_a_card(node: NodeModel, other: NodeModel, f: PairMap)
    ensures
        cards_differ_in_controls(node, zip_node(node, other, f)),
{
    zipping_keeps_a_face(node.face, other.face, f);
    assert forall|i: int| 0 <= i < node.children.len() implies children_differ_in_controls(
        #[trigger] node.children[i],
        zip_node(node, other, f).children[i],
    ) by {
        if i < other.children.len() {
            zipping_keeps_a_child(node.children[i], other.children[i], f);
        } else {
            children_are_alike(node.children[i]);
        }
    }
}

/// Visiting the controls of a group, a face or a card changes what controls say and
/// nothing else.
pub proof fn a_visit_changes_only_controls(
    edit: &ControlEdit,
    group: &mut UiPanelGroup,
    face: &mut Option<UiNodeFace>,
    child: &mut UiNodeChild,
    view: &mut UiNodeView,
)
    requires
        call_ensures(visit_group_controls, (group, edit), ()),
        call_ensures(visit_face_controls, (face, edit), ()),
        call_ensures(visit_child_controls, (child, edit), ()),
        call_ensures(visit_view_controls, (view, edit), ()),
    ensures
        differ_in_controls(old(group)@, final(group)@),
        faces_differ_in_controls(
            crate::node_view::face_opt(*old(face)),
            crate::node_view::face_opt(*final(face)),
        ),
        children_differ_in_controls(old(child)@, final(child)@),
        cards_differ_in_controls(old(view)@, final(view)@),
{
    let f = edit@.as_map();
    mapping_keeps_a_group(old(group)@, f);
    mapping_keeps_a_face(crate::node_view::face_opt(*old(face)), f);
    mapping_keeps_a_child(old(child)@, f);
    mapping_keeps_a_card(old(view)@, f);
}

/// Restoring the controls of a group, a face or a card from an untouched one changes
/// what controls say and nothing else.
pub proof fn a_restore_changes_only_controls(
    clear: &ControlClear,
    group: &mut UiPanelGroup,
    group_before: &UiPanelGroup,
    face: &mut Option<UiNodeFace>,
    face_before: &Option<UiNodeFace>,
    child: &mut UiNodeChild,
    child_before: &UiNodeChild,
    view: &mut UiNodeView,
    view_before: &UiNodeView,
)
    requires
        call_ensures(restore_group_controls, (group, group_before, clear), ()),
        call_ensures(restore_face_controls, (face, face_before, clear), ()),
        call_ensures(restore_child_controls, (child, child_before, clear), ()),
        call_ensures(restore_view_controls, (view, view_before, clear), ()),
    ensures
        differ_in_controls(old(group)@, final(group)@),
        faces_differ_in_controls(
            crate::node_view::face_opt(*old(face)),
            crate::node_view::face_opt(*final(face)),
        ),
        children_differ_in_controls(old(child)@, final(child)@),
        cards_differ_in_controls(old(view)@, final(view)@),
{
    let f = clear@.as_map();
    zipping_keeps_a_group(old(group)@, group_before@, f);
    zipping_keeps_a_face(
        crate::node_view::face_opt(*old(face)),
        crate::node_view::face_opt(*face_before),
        f,
    );
    zipping_keeps_a_child(old(child)@, child_before@, f);
    zipping_keeps_a_card(old(view)@, view_before@, f);
}

proof fn clearing_keeps_a_card(view: NodeModel, original: NodeModel, clear: ClearModel)
    ensures
        cards_differ_in_controls(view, crate::panel_walk::cleared(view, original, clear)),
{
    let edit = crate::panel_walk::EditModel::Restore {
        clear,
        pristine: node_controls(original),
    };
    let first = map_node(view, edit.as_map());
    mapping_keeps_a_card(view, edit.as_map());
    zipping_keeps_a_card(first, original, clear.as_map());
    cards_alike_through(view, first, zip_node(first, original, clear.as_map()));
}

/// Clearing a view, on whatever cards it was rearranged to, gives back every covered
/// control that the untouched card knows: it becomes one of the untouched card's of
/// that scope and channel. Every other control, and everything but the controls,
/// stays.
pub proof fn clearing_a_view_gives_back_what_is_known(
    view: &mut UiNodeView,
    original: &UiNodeView,
    clear: &ControlClear,
    i: int,
)
    requires
        0 <= i < node_controls(old(view)@).len(),
        call_ensures(clear_view, (view, original, clear), ()),
    ensures
        cards_differ_in_controls(old(view)@, final(view)@),
        node_controls(final(view)@).len() == node_controls(old(view)@).len(),
        ({
            let (scope, c) = node_controls(old(view)@)[i];
            let pristine = node_controls(original@);
            let covered = match *clear {
                ControlClear::Control { scope: wanted, channel } => scope == wanted@ && c.channel
                    == channel@,
                ControlClear::Scope { scope: wanted } => lies_under(scope, wanted@),
            };
            let known = exists|k: int|
                0 <= k < pristine.len() && (#[trigger] pristine[k]).0 == scope
                    && pristine[k].1.channel == c.channel;
            let after = node_controls(final(view)@)[i];
            if covered && known {
                &&& pristine.contains(after)
                &&& after.0 == scope
                &&& after.1.channel == c.channel
            } else {
                after == (scope, c)
            }
        }),
{
    clearing_keeps_a_card(old(view)@, original@, clear@);
    a_clear_gives_back_what_the_card_knows(old(view)@, original@, clear@);
    let (scope, c) = node_controls(old(view)@)[i];
    let pristine = node_controls(original@);
    if let ControlClear::Scope { scope: wanted } = clear {
        under_or_not(scope, wanted@);
    }
    if exists|k: int|
        0 <= k < pristine.len() && (#[trigger] pristine[k]).0 == scope && pristine[k].1.channel
            == c.channel {
        let k = choose|k: int|
            0 <= k < pristine.len() && (#[trigger] pristine[k]).0 == scope
                && pristine[k].1.channel == c.channel;
        an_identity_is_found(pristine, scope, c.channel, k);
    } else {
        none_of_an_identity(pristine, scope, c.channel);
    }
}

proof fn an_identity_is_found(
    controls: Seq<Placed>,
    scope: Seq<char>,
    channel: Seq<char>,
    k: int,
)
    requires
        0 <= k < controls.len(),
        controls[k].0 == scope && controls[k].1.channel == channel,
    ensures
        first_with_identity(controls, scope, channel) is Some,
    decreases k,
{
    if k > 0 && !(controls[0].0 == scope && controls[0].1.channel == channel) {
        let rest = controls.drop_first();
        assert(rest[k - 1] == controls[k]);
        an_identity_is_found(rest, scope, channel, k - 1);
    }
}

proof fn holding_keeps_a_card(node: NodeModel, controls: Seq<HeldControl>)
    ensures
        cards_differ_in_controls(node, with_all_held(node, controls)),
    decreases controls.len(),
{
    if controls.len() == 0 {
        faces_are_alike(node.face);
        assert forall|i: int| 0 <= i < node.children.len() implies children_differ_in_controls(
            #[trigger] node.children[i],
            node.children[i],
        ) by {
            children_are_alike(node.children[i]);
        }
    } else {
        let before = with_all_held(node, controls.drop_last());
        let last = controls.last();
        let edit = crate::panel_walk::EditModel::Hold {
            scope: last.scope@,
            channel: last.channel@,
            level: last.value,
        };
        holding_keeps_a_card(node, controls.drop_last());
        mapping_keeps_a_card(before, edit.as_map());
        cards_alike_through(node, before, map_node(before, edit.as_map()));
    }
}

/// Whatever is touched, held or let go of in a walk, the cards keep everything but
/// what their controls say.
pub proof fn a_walk_changes_only_controls(
    start: PanelWalk,
    controls: &Vec<HeldControl>,
    held: PanelWalk,
    touched: &mut PanelWalk,
    action: &UiAction,
    cleared: &mut PanelWalk,
    gesture: &PanelGesture,
)
    requires
        call_ensures(PanelWalk::with_held, (start, controls), held),
        call_ensures(PanelWalk::apply_action, (touched, action), ()),
        !(gesture is SetAutoSave),
        crate::panel_walk::names_known_scopes(*gesture),
        call_ensures(PanelWalk::apply_gesture, (cleared, gesture), ()),
    ensures
        cards_differ_in_controls(start.view@, held.view@),
        cards_differ_in_controls(old(touched).view@, final(touched).view@),
        cards_differ_in_controls(old(cleared).view@, final(cleared).view@),
{
    holding_keeps_a_card(start.view@, controls@);
    if let UiAction::SetValue { address, value } = action {
        let edit = crate::panel_walk::EditModel::Touch { address: address@, value: value@ };
        mapping_keeps_a_card(old(touched).view@, edit.as_map());
    } else {
        holding_keeps_a_card(old(touched).view@, Seq::empty());
    }
    match crate::panel_walk::clear_of(*gesture) {
        Some(clear) => {
            clearing_keeps_a_card(old(cleared).view@, old(cleared).baseline@, clear);
        },
        None => {},
    }
}

/// A walk's face is its card's own.
pub proof fn a_walk_shows_its_own_face(walk: &PanelWalk, r: UiModuleFace)
    requires
        walk.view@.face matches Some(NodeFaceModel::Module(_)),
        call_ensures(PanelWalk::face, (walk,), r),
    ensures
        walk.view@.face == Some(NodeFaceModel::Module(r@)),
{
}

} // verus!
