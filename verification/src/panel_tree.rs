//! Walking every panel control of a card and of the cards below it.
//!
//! A card's controls form a tree: its face's panel, the groups nested in that,
//! and the same for every child card. What changes controls changes them in
//! place and leaves the tree as it is, so it is a map over the tree, or over two
//! trees of one shape.

use vstd::prelude::*;

use crate::node_view::{ChildModel, FaceModel, NodeFaceModel, NodeModel};
use crate::panel::{engaged_in_groups, nothing_held_counts_zero, ControlModel, GroupModel};

verus! {

/// A change of one control, given the scope it lives in.
pub type ControlMap = spec_fn(Seq<char>, ControlModel) -> ControlModel;

/// The group with every control of its tree changed by `f`.
pub open spec fn map_group(g: GroupModel, f: ControlMap) -> GroupModel
    decreases g,
{
    GroupModel {
        controls: Seq::new(g.controls.len(), |i: int| f(g.scope, g.controls[i])),
        groups: Seq::new(
            g.groups.len(),
            |i: int|
                if 0 <= i < g.groups.len() {
                    map_group(g.groups[i], f)
                } else {
                    arbitrary()
                },
        ),
        ..g
    }
}

/// The face with every control of its panel changed by `f`. A face without a
/// panel stays as it is.
pub open spec fn map_face(face: Option<NodeFaceModel>, f: ControlMap) -> Option<NodeFaceModel> {
    match face {
        Some(NodeFaceModel::Module(module)) => Some(
            NodeFaceModel::Module(FaceModel { panel: map_group(module.panel, f), ..module }),
        ),
        Some(NodeFaceModel::Controls(group)) => Some(NodeFaceModel::Controls(map_group(group, f))),
        other => other,
    }
}

/// The child card with every control in it and below it changed by `f`.
pub open spec fn map_child(child: ChildModel, f: ControlMap) -> ChildModel
    decreases child,
{
    ChildModel {
        face: map_face(child.face, f),
        children: Seq::new(
            child.children.len(),
            |i: int|
                if 0 <= i < child.children.len() {
                    map_child(child.children[i], f)
                } else {
                    arbitrary()
                },
        ),
        ..child
    }
}

/// The card with every control in it and below it changed by `f`.
pub open spec fn map_node(node: NodeModel, f: ControlMap) -> NodeModel {
    NodeModel {
        face: map_face(node.face, f),
        children: Seq::new(node.children.len(), |i: int| map_child(node.children[i], f)),
        ..node
    }
}

/// A control with the scope it lives in.
pub type Placed = (Seq<char>, ControlModel);

/// The group's own controls, in order, each with the group's scope.
pub open spec fn own_controls(g: GroupModel) -> Seq<Placed> {
    Seq::new(g.controls.len(), |i: int| (g.scope, g.controls[i]))
}

/// Every control of a group: its own, then those of its nested groups.
pub open spec fn group_controls(g: GroupModel) -> Seq<Placed>
    decreases g,
{
    own_controls(g) + groups_controls(g.groups)
}

/// Every control of a list of groups, in order.
pub open spec fn groups_controls(groups: Seq<GroupModel>) -> Seq<Placed>
    decreases groups,
{
    if groups.len() == 0 {
        Seq::empty()
    } else {
        groups_controls(groups.drop_last()) + group_controls(groups.last())
    }
}

/// Every control of a face.
pub open spec fn face_controls(face: Option<NodeFaceModel>) -> Seq<Placed> {
    match face {
        Some(NodeFaceModel::Module(module)) => group_controls(module.panel),
        Some(NodeFaceModel::Controls(group)) => group_controls(group),
        _ => Seq::empty(),
    }
}

/// Every control of a child card: its face's, then those of the cards below it.
pub open spec fn child_controls(child: ChildModel) -> Seq<Placed>
    decreases child,
{
    face_controls(child.face) + children_controls(child.children)
}

/// Every control of a list of child cards, in order.
pub open spec fn children_controls(children: Seq<ChildModel>) -> Seq<Placed>
    decreases children,
{
    if children.len() == 0 {
        Seq::empty()
    } else {
        children_controls(children.drop_last()) + child_controls(children.last())
    }
}

/// Every control of a card and of the cards below it.
pub open spec fn node_controls(node: NodeModel) -> Seq<Placed> {
    face_controls(node.face) + children_controls(node.children)
}

/// A list of controls, each changed by `f`.
pub open spec fn map_placed(controls: Seq<Placed>, f: ControlMap) -> Seq<Placed> {
    Seq::new(controls.len(), |i: int| (controls[i].0, f(controls[i].0, controls[i].1)))
}

proof fn map_placed_concat(a: Seq<Placed>, b: Seq<Placed>, f: ControlMap)
    ensures
        map_placed(a + b, f) == map_placed(a, f) + map_placed(b, f),
{
    assert(map_placed(a + b, f) =~= map_placed(a, f) + map_placed(b, f));
}

/// Listing the controls of a changed group lists the changed controls.
pub proof fn group_controls_of_map(g: GroupModel, f: ControlMap)
    ensures
        group_controls(map_group(g, f)) == map_placed(group_controls(g), f),
    decreases g, 0nat,
{
    let m = map_group(g, f);
    assert(own_controls(m) =~= map_placed(own_controls(g), f));
    groups_controls_of_map(g, g.groups.len(), f);
    assert(m.groups.take(g.groups.len() as int) =~= m.groups);
    assert(g.groups.take(g.groups.len() as int) =~= g.groups);
    map_placed_concat(own_controls(g), groups_controls(g.groups), f);
}

proof fn groups_controls_of_map(g: GroupModel, n: nat, f: ControlMap)
    requires
        n <= g.groups.len(),
    ensures
        groups_controls(map_group(g, f).groups.take(n as int)) == map_placed(
            groups_controls(g.groups.take(n as int)),
            f,
        ),
    decreases g.groups, n,
{
    let m = map_group(g, f);
    if n == 0 {
        assert(groups_controls(m.groups.take(0)) =~= map_placed(
            groups_controls(g.groups.take(0)),
            f,
        ));
    } else {
        groups_controls_of_map(g, (n - 1) as nat, f);
        group_controls_of_map(g.groups[n - 1], f);
        let a = g.groups.take(n as int);
        let b = m.groups.take(n as int);
        assert(a.drop_last() =~= g.groups.take(n - 1));
        assert(b.drop_last() =~= m.groups.take(n - 1));
        assert(a.last() == g.groups[n - 1]);
        assert(b.last() == map_group(g.groups[n - 1], f));
        map_placed_concat(groups_controls(a.drop_last()), group_controls(a.last()), f);
    }
}

/// Listing the controls of a changed face lists the changed controls.
pub proof fn face_controls_of_map(face: Option<NodeFaceModel>, f: ControlMap)
    ensures
        face_controls(map_face(face, f)) == map_placed(face_controls(face), f),
{
    match face {
        Some(NodeFaceModel::Module(module)) => {
            group_controls_of_map(module.panel, f);
        },
        Some(NodeFaceModel::Controls(group)) => {
            group_controls_of_map(group, f);
        },
        _ => {
            assert(map_placed(face_controls(face), f) =~= Seq::<Placed>::empty());
        },
    }
}

proof fn child_controls_of_map(child: ChildModel, f: ControlMap)
    ensures
        child_controls(map_child(child, f)) == map_placed(child_controls(child), f),
    decreases child, 0nat,
{
    let m = map_child(child, f);
    face_controls_of_map(child.face, f);
    let n = child.children.len();
    children_controls_of_map(child.children, m.children, n, f);
    assert(m.children.take(n as int) =~= m.children);
    assert(child.children.take(n as int) =~= child.children);
    map_placed_concat(face_controls(child.face), children_controls(child.children), f);
}

proof fn children_controls_of_map(
    children: Seq<ChildModel>,
    mapped: Seq<ChildModel>,
    n: nat,
    f: ControlMap,
)
    requires
        n <= children.len(),
        mapped.len() == children.len(),
        forall|i: int| 0 <= i < children.len() ==> mapped[i] == map_child(children[i], f),
    ensures
        children_controls(mapped.take(n as int)) == map_placed(
            children_controls(children.take(n as int)),
            f,
        ),
    decreases children, n,
{
    if n == 0 {
        assert(children_controls(mapped.take(0)) =~= map_placed(
            children_controls(children.take(0)),
            f,
        ));
    } else {
        children_controls_of_map(children, mapped, (n - 1) as nat, f);
        child_controls_of_map(children[n - 1], f);
        let a = children.take(n as int);
        let b = mapped.take(n as int);
        assert(a.drop_last() =~= children.take(n - 1));
        assert(b.drop_last() =~= mapped.take(n - 1));
        assert(a.last() == children[n - 1]);
        assert(b.last() == map_child(children[n - 1], f));
        map_placed_concat(children_controls(a.drop_last()), child_controls(a.last()), f);
    }
}

/// Listing the controls of a changed card lists the changed controls: none is
/// added, none is lost, and they keep their order and their scopes.
pub proof fn node_controls_of_map(node: NodeModel, f: ControlMap)
    ensures
        node_controls(map_node(node, f)) == map_placed(node_controls(node), f),
{
    let m = map_node(node, f);
    face_controls_of_map(node.face, f);
    let n = node.children.len();
    children_controls_of_map(node.children, m.children, n, f);
    assert(m.children.take(n as int) =~= m.children);
    assert(node.children.take(n as int) =~= node.children);
    map_placed_concat(face_controls(node.face), children_controls(node.children), f);
}

/// The two changes agree on every control of the list.
pub open spec fn agree_on(controls: Seq<Placed>, f: ControlMap, g: ControlMap) -> bool {
    forall|i: int|
        0 <= i < controls.len() ==> f((#[trigger] controls[i]).0, controls[i].1) == g(
            controls[i].0,
            controls[i].1,
        )
}

proof fn agree_on_parts(a: Seq<Placed>, b: Seq<Placed>, f: ControlMap, g: ControlMap)
    requires
        agree_on(a + b, f, g),
    ensures
        agree_on(a, f, g),
        agree_on(b, f, g),
{
    assert forall|i: int| 0 <= i < a.len() implies f((#[trigger] a[i]).0, a[i].1) == g(
        a[i].0,
        a[i].1,
    ) by {
        assert((a + b)[i] == a[i]);
    }
    assert forall|i: int| 0 <= i < b.len() implies f((#[trigger] b[i]).0, b[i].1) == g(
        b[i].0,
        b[i].1,
    ) by {
        assert((a + b)[a.len() + i] == b[i]);
    }
}

proof fn agree_on_group(groups: Seq<GroupModel>, k: int, f: ControlMap, g: ControlMap)
    requires
        agree_on(groups_controls(groups), f, g),
        0 <= k < groups.len(),
    ensures
        agree_on(group_controls(groups[k]), f, g),
    decreases groups.len(),
{
    agree_on_parts(groups_controls(groups.drop_last()), group_controls(groups.last()), f, g);
    if k < groups.len() - 1 {
        agree_on_group(groups.drop_last(), k, f, g);
    }
}

proof fn agree_on_child(children: Seq<ChildModel>, k: int, f: ControlMap, g: ControlMap)
    requires
        agree_on(children_controls(children), f, g),
        0 <= k < children.len(),
    ensures
        agree_on(child_controls(children[k]), f, g),
    decreases children.len(),
{
    agree_on_parts(
        children_controls(children.drop_last()),
        child_controls(children.last()),
        f,
        g,
    );
    if k < children.len() - 1 {
        agree_on_child(children.drop_last(), k, f, g);
    }
}

/// Two changes that agree on every control of a group change it alike.
pub proof fn map_group_agrees(x: GroupModel, f: ControlMap, g: ControlMap)
    requires
        agree_on(group_controls(x), f, g),
    ensures
        map_group(x, f) == map_group(x, g),
    decreases x,
{
    let a = map_group(x, f);
    let b = map_group(x, g);
    agree_on_parts(own_controls(x), groups_controls(x.groups), f, g);
    assert forall|i: int| 0 <= i < x.controls.len() implies a.controls[i] == b.controls[i] by {
        assert(own_controls(x)[i] == (x.scope, x.controls[i]));
    }
    assert(a.controls =~= b.controls);
    assert forall|i: int| 0 <= i < x.groups.len() implies a.groups[i] == b.groups[i] by {
        agree_on_group(x.groups, i, f, g);
        map_group_agrees(x.groups[i], f, g);
    }
    assert(a.groups =~= b.groups);
}

proof fn map_face_agrees(face: Option<NodeFaceModel>, f: ControlMap, g: ControlMap)
    requires
        agree_on(face_controls(face), f, g),
    ensures
        map_face(face, f) == map_face(face, g),
{
    match face {
        Some(NodeFaceModel::Module(module)) => {
            map_group_agrees(module.panel, f, g);
        },
        Some(NodeFaceModel::Controls(group)) => {
            map_group_agrees(group, f, g);
        },
        _ => {},
    }
}

proof fn map_child_agrees(x: ChildModel, f: ControlMap, g: ControlMap)
    requires
        agree_on(child_controls(x), f, g),
    ensures
        map_child(x, f) == map_child(x, g),
    decreases x,
{
    let a = map_child(x, f);
    let b = map_child(x, g);
    agree_on_parts(face_controls(x.face), children_controls(x.children), f, g);
    map_face_agrees(x.face, f, g);
    assert forall|i: int| 0 <= i < x.children.len() implies a.children[i] == b.children[i] by {
        agree_on_child(x.children, i, f, g);
        map_child_agrees(x.children[i], f, g);
    }
    assert(a.children =~= b.children);
}

/// Two changes that agree on every control of a card change it alike.
pub proof fn map_node_agrees(x: NodeModel, f: ControlMap, g: ControlMap)
    requires
        agree_on(node_controls(x), f, g),
    ensures
        map_node(x, f) == map_node(x, g),
{
    let a = map_node(x, f);
    let b = map_node(x, g);
    agree_on_parts(face_controls(x.face), children_controls(x.children), f, g);
    map_face_agrees(x.face, f, g);
    assert forall|i: int| 0 <= i < x.children.len() implies a.children[i] == b.children[i] by {
        agree_on_child(x.children, i, f, g);
        map_child_agrees(x.children[i], f, g);
    }
    assert(a.children =~= b.children);
}

/// First `f`, then `g`.
pub open spec fn and_next(f: ControlMap, g: ControlMap) -> ControlMap {
    |scope: Seq<char>, c: ControlModel| g(scope, f(scope, c))
}

proof fn map_group_composes(x: GroupModel, f: ControlMap, g: ControlMap)
    ensures
        map_group(map_group(x, f), g) == map_group(x, and_next(f, g)),
    decreases x,
{
    let a = map_group(map_group(x, f), g);
    let b = map_group(x, and_next(f, g));
    assert(a.controls =~= b.controls);
    assert forall|i: int| 0 <= i < x.groups.len() implies a.groups[i] == b.groups[i] by {
        map_group_composes(x.groups[i], f, g);
    }
    assert(a.groups =~= b.groups);
}

proof fn map_face_composes(face: Option<NodeFaceModel>, f: ControlMap, g: ControlMap)
    ensures
        map_face(map_face(face, f), g) == map_face(face, and_next(f, g)),
{
    match face {
        Some(NodeFaceModel::Module(module)) => {
            map_group_composes(module.panel, f, g);
        },
        Some(NodeFaceModel::Controls(group)) => {
            map_group_composes(group, f, g);
        },
        _ => {},
    }
}

proof fn map_child_composes(x: ChildModel, f: ControlMap, g: ControlMap)
    ensures
        map_child(map_child(x, f), g) == map_child(x, and_next(f, g)),
    decreases x,
{
    let a = map_child(map_child(x, f), g);
    let b = map_child(x, and_next(f, g));
    map_face_composes(x.face, f, g);
    assert forall|i: int| 0 <= i < x.children.len() implies a.children[i] == b.children[i] by {
        map_child_composes(x.children[i], f, g);
    }
    assert(a.children =~= b.children);
}

/// Two changes one after the other are one change.
pub proof fn map_node_composes(x: NodeModel, f: ControlMap, g: ControlMap)
    ensures
        map_node(map_node(x, f), g) == map_node(x, and_next(f, g)),
{
    let a = map_node(map_node(x, f), g);
    let b = map_node(x, and_next(f, g));
    map_face_composes(x.face, f, g);
    assert forall|i: int| 0 <= i < x.children.len() implies a.children[i] == b.children[i] by {
        map_child_composes(x.children[i], f, g);
    }
    assert(a.children =~= b.children);
}

/// The change that changes nothing.
pub open spec fn unchanged() -> ControlMap {
    |scope: Seq<char>, c: ControlModel| c
}

/// Changing nothing gives the same group.
pub proof fn map_group_unchanged(x: GroupModel)
    ensures
        map_group(x, unchanged()) == x,
    decreases x,
{
    let a = map_group(x, unchanged());
    assert(a.controls =~= x.controls);
    assert forall|i: int| 0 <= i < x.groups.len() implies a.groups[i] == x.groups[i] by {
        map_group_unchanged(x.groups[i]);
    }
    assert(a.groups =~= x.groups);
}

/// What becomes of a control, given the scope it lives in and the control that
/// stands in its place on another card.
pub type PairMap = spec_fn(Seq<char>, ControlModel, ControlModel) -> ControlModel;

/// The group with every control of its tree changed by what stands in its place
/// in the other group. A control with nothing in its place stays.
pub open spec fn zip_group(g: GroupModel, other: GroupModel, f: PairMap) -> GroupModel
    decreases g,
{
    GroupModel {
        controls: Seq::new(
            g.controls.len(),
            |i: int|
                if i < other.controls.len() && g.scope == other.scope {
                    f(g.scope, g.controls[i], other.controls[i])
                } else {
                    g.controls[i]
                },
        ),
        groups: Seq::new(
            g.groups.len(),
            |i: int|
                if 0 <= i < g.groups.len() {
                    if i < other.groups.len() {
                        zip_group(g.groups[i], other.groups[i], f)
                    } else {
                        g.groups[i]
                    }
                } else {
                    arbitrary()
                },
        ),
        ..g
    }
}

/// The face with every control of its panel changed by what stands in its place
/// on the other face.
pub open spec fn zip_face(
    face: Option<NodeFaceModel>,
    other: Option<NodeFaceModel>,
    f: PairMap,
) -> Option<NodeFaceModel> {
    match (face, other) {
        (Some(NodeFaceModel::Module(module)), Some(NodeFaceModel::Module(o))) => Some(
            NodeFaceModel::Module(
                FaceModel { panel: zip_group(module.panel, o.panel, f), ..module },
            ),
        ),
        (Some(NodeFaceModel::Controls(group)), Some(NodeFaceModel::Controls(o))) => Some(
            NodeFaceModel::Controls(zip_group(group, o, f)),
        ),
        _ => face,
    }
}

/// The child card with every control in it and below it changed by what stands
/// in its place on the other card.
pub open spec fn zip_child(child: ChildModel, other: ChildModel, f: PairMap) -> ChildModel
    decreases child,
{
    ChildModel {
        face: zip_face(child.face, other.face, f),
        children: Seq::new(
            child.children.len(),
            |i: int|
                if 0 <= i < child.children.len() {
                    if i < other.children.len() {
                        zip_child(child.children[i], other.children[i], f)
                    } else {
                        child.children[i]
                    }
                } else {
                    arbitrary()
                },
        ),
        ..child
    }
}

/// The card with every control in it and below it changed by what stands in its
/// place on the other card.
pub open spec fn zip_node(node: NodeModel, other: NodeModel, f: PairMap) -> NodeModel {
    NodeModel {
        face: zip_face(node.face, other.face, f),
        children: Seq::new(
            node.children.len(),
            |i: int|
                if i < other.children.len() {
                    zip_child(node.children[i], other.children[i], f)
                } else {
                    node.children[i]
                },
        ),
        ..node
    }
}

/// A list of controls, each changed by the one in its place in the other list.
pub open spec fn zip_placed(controls: Seq<Placed>, others: Seq<Placed>, f: PairMap) -> Seq<Placed> {
    Seq::new(
        controls.len(),
        |i: int| (controls[i].0, f(controls[i].0, controls[i].1, others[i].1)),
    )
}

/// `h` does not see what `f` changes.
pub open spec fn blind_to(h: ControlMap, f: PairMap) -> bool {
    forall|at: Seq<char>, c: ControlModel, o: ControlModel|
        h(at, #[trigger] f(at, c, o)) == h(at, c)
}

proof fn zip_group_keeps(x: GroupModel, other: GroupModel, f: PairMap, h: ControlMap)
    requires
        blind_to(h, f),
    ensures
        map_group(zip_group(x, other, f), h) == map_group(x, h),
    decreases x,
{
    let a = map_group(zip_group(x, other, f), h);
    let b = map_group(x, h);
    assert(a.controls =~= b.controls);
    assert forall|i: int| 0 <= i < x.groups.len() implies a.groups[i] == b.groups[i] by {
        if i < other.groups.len() {
            zip_group_keeps(x.groups[i], other.groups[i], f, h);
        }
    }
    assert(a.groups =~= b.groups);
}

proof fn zip_face_keeps(
    face: Option<NodeFaceModel>,
    other: Option<NodeFaceModel>,
    f: PairMap,
    h: ControlMap,
)
    requires
        blind_to(h, f),
    ensures
        map_face(zip_face(face, other, f), h) == map_face(face, h),
{
    match (face, other) {
        (Some(NodeFaceModel::Module(module)), Some(NodeFaceModel::Module(o))) => {
            zip_group_keeps(module.panel, o.panel, f, h);
        },
        (Some(NodeFaceModel::Controls(group)), Some(NodeFaceModel::Controls(o))) => {
            zip_group_keeps(group, o, f, h);
        },
        _ => {},
    }
}

proof fn zip_child_keeps(x: ChildModel, other: ChildModel, f: PairMap, h: ControlMap)
    requires
        blind_to(h, f),
    ensures
        map_child(zip_child(x, other, f), h) == map_child(x, h),
    decreases x,
{
    let a = map_child(zip_child(x, other, f), h);
    let b = map_child(x, h);
    zip_face_keeps(x.face, other.face, f, h);
    assert forall|i: int| 0 <= i < x.children.len() implies a.children[i] == b.children[i] by {
        if i < other.children.len() {
            zip_child_keeps(x.children[i], other.children[i], f, h);
        }
    }
    assert(a.children =~= b.children);
}

/// What `h` sees of a card stays as it is under a change that it does not see.
pub proof fn zip_node_keeps(x: NodeModel, other: NodeModel, f: PairMap, h: ControlMap)
    requires
        blind_to(h, f),
    ensures
        map_node(zip_node(x, other, f), h) == map_node(x, h),
{
    let a = map_node(zip_node(x, other, f), h);
    let b = map_node(x, h);
    zip_face_keeps(x.face, other.face, f, h);
    assert forall|i: int| 0 <= i < x.children.len() implies a.children[i] == b.children[i] by {
        if i < other.children.len() {
            zip_child_keeps(x.children[i], other.children[i], f, h);
        }
    }
    assert(a.children =~= b.children);
}

proof fn zip_placed_concat(
    a: Seq<Placed>,
    b: Seq<Placed>,
    oa: Seq<Placed>,
    ob: Seq<Placed>,
    f: PairMap,
)
    requires
        a.len() == oa.len(),
        b.len() == ob.len(),
    ensures
        zip_placed(a + b, oa + ob, f) == zip_placed(a, oa, f) + zip_placed(b, ob, f),
{
    assert(zip_placed(a + b, oa + ob, f) =~= zip_placed(a, oa, f) + zip_placed(b, ob, f));
}

proof fn group_controls_of_zip(x: GroupModel, other: GroupModel, f: PairMap, h: ControlMap)
    requires
        map_group(x, h) == map_group(other, h),
    ensures
        group_controls(x).len() == group_controls(other).len(),
        group_controls(zip_group(x, other, f)) == zip_placed(
            group_controls(x),
            group_controls(other),
            f,
        ),
    decreases x, 0nat,
{
    let z = zip_group(x, other, f);
    let m = map_group(x, h);
    let n = map_group(other, h);
    assert(m.controls.len() == n.controls.len() && m.groups.len() == n.groups.len());
    assert(own_controls(z) =~= zip_placed(own_controls(x), own_controls(other), f));
    assert forall|i: int| 0 <= i < x.groups.len() implies map_group(x.groups[i], h) == map_group(
        other.groups[i],
        h,
    ) by {
        assert(m.groups[i] == n.groups[i]);
    }
    groups_controls_of_zip(x.groups, other.groups, z.groups, f, h);
    zip_placed_concat(
        own_controls(x),
        groups_controls(x.groups),
        own_controls(other),
        groups_controls(other.groups),
        f,
    );
}

proof fn groups_controls_of_zip(
    xs: Seq<GroupModel>,
    others: Seq<GroupModel>,
    zs: Seq<GroupModel>,
    f: PairMap,
    h: ControlMap,
)
    requires
        xs.len() == others.len() == zs.len(),
        forall|i: int|
            0 <= i < xs.len() ==> map_group(#[trigger] xs[i], h) == map_group(others[i], h),
        forall|i: int|
            0 <= i < xs.len() ==> #[trigger] zs[i] == zip_group(xs[i], others[i], f),
    ensures
        groups_controls(xs).len() == groups_controls(others).len(),
        groups_controls(zs) == zip_placed(groups_controls(xs), groups_controls(others), f),
    decreases xs, xs.len(),
{
    if xs.len() == 0 {
        assert(groups_controls(zs) =~= zip_placed(
            groups_controls(xs),
            groups_controls(others),
            f,
        ));
    } else {
        groups_controls_of_zip(xs.drop_last(), others.drop_last(), zs.drop_last(), f, h);
        group_controls_of_zip(xs.last(), others.last(), f, h);
        zip_placed_concat(
            groups_controls(xs.drop_last()),
            group_controls(xs.last()),
            groups_controls(others.drop_last()),
            group_controls(others.last()),
            f,
        );
    }
}

proof fn face_controls_of_zip(
    face: Option<NodeFaceModel>,
    other: Option<NodeFaceModel>,
    f: PairMap,
    h: ControlMap,
)
    requires
        map_face(face, h) == map_face(other, h),
    ensures
        face_controls(face).len() == face_controls(other).len(),
        face_controls(zip_face(face, other, f)) == zip_placed(
            face_controls(face),
            face_controls(other),
            f,
        ),
{
    match (face, other) {
        (Some(NodeFaceModel::Module(module)), Some(NodeFaceModel::Module(o))) => {
            group_controls_of_zip(module.panel, o.panel, f, h);
        },
        (Some(NodeFaceModel::Controls(group)), Some(NodeFaceModel::Controls(o))) => {
            group_controls_of_zip(group, o, f, h);
        },
        _ => {
            assert(zip_placed(face_controls(face), face_controls(other), f)
                =~= Seq::<Placed>::empty());
        },
    }
}

proof fn child_controls_of_zip(x: ChildModel, other: ChildModel, f: PairMap, h: ControlMap)
    requires
        map_child(x, h) == map_child(other, h),
    ensures
        child_controls(x).len() == child_controls(other).len(),
        child_controls(zip_child(x, other, f)) == zip_placed(
            child_controls(x),
            child_controls(other),
            f,
        ),
    decreases x, 0nat,
{
    let z = zip_child(x, other, f);
    let m = map_child(x, h);
    let n = map_child(other, h);
    assert(m.children.len() == n.children.len());
    face_controls_of_zip(x.face, other.face, f, h);
    assert forall|i: int| 0 <= i < x.children.len() implies map_child(x.children[i], h)
        == map_child(other.children[i], h) by {
        assert(m.children[i] == n.children[i]);
    }
    children_controls_of_zip(x.children, other.children, z.children, f, h);
    zip_placed_concat(
        face_controls(x.face),
        children_controls(x.children),
        face_controls(other.face),
        children_controls(other.children),
        f,
    );
}

proof fn children_controls_of_zip(
    xs: Seq<ChildModel>,
    others: Seq<ChildModel>,
    zs: Seq<ChildModel>,
    f: PairMap,
    h: ControlMap,
)
    requires
        xs.len() == others.len() == zs.len(),
        forall|i: int|
            0 <= i < xs.len() ==> map_child(#[trigger] xs[i], h) == map_child(others[i], h),
        forall|i: int|
            0 <= i < xs.len() ==> #[trigger] zs[i] == zip_child(xs[i], others[i], f),
    ensures
        children_controls(xs).len() == children_controls(others).len(),
        children_controls(zs) == zip_placed(
            children_controls(xs),
            children_controls(others),
            f,
        ),
    decreases xs, xs.len(),
{
    if xs.len() == 0 {
        assert(children_controls(zs) =~= zip_placed(
            children_controls(xs),
            children_controls(others),
            f,
        ));
    } else {
        children_controls_of_zip(xs.drop_last(), others.drop_last(), zs.drop_last(), f, h);
        child_controls_of_zip(xs.last(), others.last(), f, h);
        zip_placed_concat(
            children_controls(xs.drop_last()),
            child_controls(xs.last()),
            children_controls(others.drop_last()),
            child_controls(others.last()),
            f,
        );
    }
}

/// On two cards that look alike to some `h`, the controls pair up in order, and
/// each is changed by the one it pairs up with.
pub proof fn node_controls_of_zip(x: NodeModel, other: NodeModel, f: PairMap, h: ControlMap)
    requires
        map_node(x, h) == map_node(other, h),
    ensures
        node_controls(x).len() == node_controls(other).len(),
        node_controls(zip_node(x, other, f)) == zip_placed(
            node_controls(x),
            node_controls(other),
            f,
        ),
{
    let z = zip_node(x, other, f);
    let m = map_node(x, h);
    let n = map_node(other, h);
    assert(m.children.len() == n.children.len());
    face_controls_of_zip(x.face, other.face, f, h);
    assert forall|i: int| 0 <= i < x.children.len() implies map_child(x.children[i], h)
        == map_child(other.children[i], h) by {
        assert(m.children[i] == n.children[i]);
    }
    children_controls_of_zip(x.children, other.children, z.children, f, h);
    zip_placed_concat(
        face_controls(x.face),
        children_controls(x.children),
        face_controls(other.face),
        children_controls(other.children),
        f,
    );
}

proof fn split_equal(a: Seq<Placed>, b: Seq<Placed>, c: Seq<Placed>, d: Seq<Placed>)
    requires
        a + b == c + d,
        b.len() == d.len(),
    ensures
        a == c,
        b == d,
{
    assert(a.len() == (a + b).len() - b.len());
    assert(c.len() == (c + d).len() - d.len());
    assert(a =~= (a + b).take(a.len() as int));
    assert(c =~= (c + d).take(c.len() as int));
    assert(b =~= (a + b).skip(a.len() as int));
    assert(d =~= (c + d).skip(c.len() as int));
}

proof fn group_is_frame_and_controls(x: GroupModel, y: GroupModel, h: ControlMap)
    requires
        map_group(x, h) == map_group(y, h),
        group_controls(x) == group_controls(y),
    ensures
        x == y,
    decreases x, 0nat,
{
    let m = map_group(x, h);
    let n = map_group(y, h);
    assert(m.controls.len() == n.controls.len() && m.groups.len() == n.groups.len());
    assert forall|i: int| 0 <= i < x.groups.len() implies map_group(x.groups[i], h) == map_group(
        y.groups[i],
        h,
    ) by {
        assert(m.groups[i] == n.groups[i]);
    }
    let a = own_controls(x);
    let b = own_controls(y);
    assert(groups_controls(x.groups).len() == group_controls(x).len() - a.len());
    assert(groups_controls(y.groups).len() == group_controls(y).len() - b.len());
    split_equal(a, groups_controls(x.groups), b, groups_controls(y.groups));
    assert forall|i: int| 0 <= i < x.controls.len() implies x.controls[i] == y.controls[i] by {
        assert(a[i] == b[i]);
    }
    assert(x.controls =~= y.controls);
    groups_are_frame_and_controls(x.groups, y.groups, h);
}

proof fn groups_are_frame_and_controls(xs: Seq<GroupModel>, ys: Seq<GroupModel>, h: ControlMap)
    requires
        xs.len() == ys.len(),
        forall|i: int|
            0 <= i < xs.len() ==> map_group(#[trigger] xs[i], h) == map_group(ys[i], h),
        groups_controls(xs) == groups_controls(ys),
    ensures
        xs == ys,
    decreases xs, xs.len(),
{
    if xs.len() > 0 {
        let n = xs.len() - 1;
        assert(map_group(xs[n], h) == map_group(ys[n], h));
        group_controls_of_map(xs.last(), h);
        group_controls_of_map(ys.last(), h);
        assert(map_placed(group_controls(xs.last()), h).len() == group_controls(xs.last()).len());
        assert(map_placed(group_controls(ys.last()), h).len() == group_controls(ys.last()).len());
        split_equal(
            groups_controls(xs.drop_last()),
            group_controls(xs.last()),
            groups_controls(ys.drop_last()),
            group_controls(ys.last()),
        );
        groups_are_frame_and_controls(xs.drop_last(), ys.drop_last(), h);
        group_is_frame_and_controls(xs.last(), ys.last(), h);
        assert(xs =~= xs.drop_last().push(xs.last()));
        assert(ys =~= ys.drop_last().push(ys.last()));
    } else {
        assert(xs =~= ys);
    }
}

proof fn face_is_frame_and_controls(
    x: Option<NodeFaceModel>,
    y: Option<NodeFaceModel>,
    h: ControlMap,
)
    requires
        map_face(x, h) == map_face(y, h),
        face_controls(x) == face_controls(y),
    ensures
        x == y,
{
    match (x, y) {
        (Some(NodeFaceModel::Module(a)), Some(NodeFaceModel::Module(b))) => {
            group_is_frame_and_controls(a.panel, b.panel, h);
        },
        (Some(NodeFaceModel::Controls(a)), Some(NodeFaceModel::Controls(b))) => {
            group_is_frame_and_controls(a, b, h);
        },
        _ => {},
    }
}

proof fn faces_of_one_frame_show_as_many(
    x: Option<NodeFaceModel>,
    y: Option<NodeFaceModel>,
    h: ControlMap,
)
    requires
        map_face(x, h) == map_face(y, h),
    ensures
        face_controls(x).len() == face_controls(y).len(),
{
    face_controls_of_map(x, h);
    face_controls_of_map(y, h);
    assert(map_placed(face_controls(x), h).len() == face_controls(x).len());
    assert(map_placed(face_controls(y), h).len() == face_controls(y).len());
}

proof fn child_is_frame_and_controls(x: ChildModel, y: ChildModel, h: ControlMap)
    requires
        map_child(x, h) == map_child(y, h),
        child_controls(x) == child_controls(y),
    ensures
        x == y,
    decreases x, 0nat,
{
    let m = map_child(x, h);
    let n = map_child(y, h);
    assert(m.children.len() == n.children.len());
    assert forall|i: int| 0 <= i < x.children.len() implies map_child(x.children[i], h)
        == map_child(y.children[i], h) by {
        assert(m.children[i] == n.children[i]);
    }
    faces_of_one_frame_show_as_many(x.face, y.face, h);
    let a = children_controls(x.children);
    let b = children_controls(y.children);
    assert(a.len() == child_controls(x).len() - face_controls(x.face).len());
    assert(b.len() == child_controls(y).len() - face_controls(y.face).len());
    split_equal(face_controls(x.face), a, face_controls(y.face), b);
    face_is_frame_and_controls(x.face, y.face, h);
    children_are_frame_and_controls(x.children, y.children, h);
}

proof fn children_are_frame_and_controls(
    xs: Seq<ChildModel>,
    ys: Seq<ChildModel>,
    h: ControlMap,
)
    requires
        xs.len() == ys.len(),
        forall|i: int|
            0 <= i < xs.len() ==> map_child(#[trigger] xs[i], h) == map_child(ys[i], h),
        children_controls(xs) == children_controls(ys),
    ensures
        xs == ys,
    decreases xs, xs.len(),
{
    if xs.len() > 0 {
        let n = xs.len() - 1;
        assert(map_child(xs[n], h) == map_child(ys[n], h));
        child_controls_of_map(xs.last(), h);
        child_controls_of_map(ys.last(), h);
        assert(map_placed(child_controls(xs.last()), h).len() == child_controls(xs.last()).len());
        assert(map_placed(child_controls(ys.last()), h).len() == child_controls(ys.last()).len());
        split_equal(
            children_controls(xs.drop_last()),
            child_controls(xs.last()),
            children_controls(ys.drop_last()),
            child_controls(ys.last()),
        );
        children_are_frame_and_controls(xs.drop_last(), ys.drop_last(), h);
        child_is_frame_and_controls(xs.last(), ys.last(), h);
        assert(xs =~= xs.drop_last().push(xs.last()));
        assert(ys =~= ys.drop_last().push(ys.last()));
    } else {
        assert(xs =~= ys);
    }
}

/// A card is its frame and its controls: two cards that look alike to some `h`
/// and list the same controls are one.
pub proof fn node_is_frame_and_controls(x: NodeModel, y: NodeModel, h: ControlMap)
    requires
        map_node(x, h) == map_node(y, h),
        node_controls(x) == node_controls(y),
    ensures
        x == y,
{
    let m = map_node(x, h);
    let n = map_node(y, h);
    assert(m.children.len() == n.children.len());
    assert forall|i: int| 0 <= i < x.children.len() implies map_child(x.children[i], h)
        == map_child(y.children[i], h) by {
        assert(m.children[i] == n.children[i]);
    }
    faces_of_one_frame_show_as_many(x.face, y.face, h);
    let a = children_controls(x.children);
    let b = children_controls(y.children);
    assert(a.len() == node_controls(x).len() - face_controls(x.face).len());
    assert(b.len() == node_controls(y).len() - face_controls(y.face).len());
    split_equal(face_controls(x.face), a, face_controls(y.face), b);
    face_is_frame_and_controls(x.face, y.face, h);
    children_are_frame_and_controls(x.children, y.children, h);
}

/// Every control of the first list stands in the second.
pub open spec fn within(some: Seq<Placed>, all: Seq<Placed>) -> bool {
    forall|j: int| 0 <= j < some.len() ==> all.contains(#[trigger] some[j])
}

proof fn parts_within(a: Seq<Placed>, b: Seq<Placed>)
    ensures
        within(a, a + b),
        within(b, a + b),
{
    assert forall|j: int| 0 <= j < a.len() implies (a + b).contains(#[trigger] a[j]) by {
        assert((a + b)[j] == a[j]);
    }
    assert forall|j: int| 0 <= j < b.len() implies (a + b).contains(#[trigger] b[j]) by {
        assert((a + b)[a.len() + j] == b[j]);
    }
}

proof fn group_within(groups: Seq<GroupModel>, k: int)
    requires
        0 <= k < groups.len(),
    ensures
        within(group_controls(groups[k]), groups_controls(groups)),
    decreases groups.len(),
{
    let start = groups_controls(groups.drop_last());
    let end = group_controls(groups.last());
    parts_within(start, end);
    if k < groups.len() - 1 {
        group_within(groups.drop_last(), k);
    }
}

proof fn child_within(children: Seq<ChildModel>, k: int)
    requires
        0 <= k < children.len(),
    ensures
        within(child_controls(children[k]), children_controls(children)),
    decreases children.len(),
{
    let start = children_controls(children.drop_last());
    let end = child_controls(children.last());
    parts_within(start, end);
    if k < children.len() - 1 {
        child_within(children.drop_last(), k);
    }
}

/// Each control of the list stayed, or was changed by a control of the others
/// that lives in its scope.
pub open spec fn stayed_or_changed(
    after: Seq<Placed>,
    before: Seq<Placed>,
    others: Seq<Placed>,
    f: PairMap,
) -> bool {
    &&& after.len() == before.len()
    &&& forall|i: int|
        0 <= i < after.len() ==> (#[trigger] after[i]) == before[i] || exists|o: ControlModel|
            others.contains((before[i].0, o)) && after[i] == (
                before[i].0,
                #[trigger] f(before[i].0, before[i].1, o),
            )
}

proof fn stayed_or_changed_by_more(
    after: Seq<Placed>,
    before: Seq<Placed>,
    others: Seq<Placed>,
    all: Seq<Placed>,
    f: PairMap,
)
    requires
        stayed_or_changed(after, before, others, f),
        within(others, all),
    ensures
        stayed_or_changed(after, before, all, f),
{
    assert forall|i: int| 0 <= i < after.len() implies (#[trigger] after[i]) == before[i] || exists|
        o: ControlModel,
    |
        all.contains((before[i].0, o)) && after[i] == (
            before[i].0,
            #[trigger] f(before[i].0, before[i].1, o),
        ) by {
        if after[i] != before[i] {
            let o = choose|o: ControlModel|
                others.contains((before[i].0, o)) && after[i] == (
                    before[i].0,
                    #[trigger] f(before[i].0, before[i].1, o),
                );
            let j = choose|j: int| 0 <= j < others.len() && others[j] == (before[i].0, o);
            assert(all.contains(others[j]));
        }
    }
}

proof fn stayed_or_changed_together(
    a: Seq<Placed>,
    b: Seq<Placed>,
    before_a: Seq<Placed>,
    before_b: Seq<Placed>,
    others: Seq<Placed>,
    f: PairMap,
)
    requires
        stayed_or_changed(a, before_a, others, f),
        stayed_or_changed(b, before_b, others, f),
    ensures
        stayed_or_changed(a + b, before_a + before_b, others, f),
{
    let after = a + b;
    let before = before_a + before_b;
    assert forall|i: int| 0 <= i < after.len() implies (#[trigger] after[i]) == before[i] || exists|
        o: ControlModel,
    |
        others.contains((before[i].0, o)) && after[i] == (
            before[i].0,
            #[trigger] f(before[i].0, before[i].1, o),
        ) by {
        if i < a.len() {
            assert(after[i] == a[i] && before[i] == before_a[i]);
        } else {
            assert(after[i] == b[i - a.len()] && before[i] == before_b[i - a.len()]);
        }
    }
}

proof fn zip_group_changes(x: GroupModel, other: GroupModel, f: PairMap)
    ensures
        stayed_or_changed(
            group_controls(zip_group(x, other, f)),
            group_controls(x),
            group_controls(other),
            f,
        ),
    decreases x, 0nat,
{
    let z = zip_group(x, other, f);
    let own = own_controls(z);
    let others = own_controls(other);
    assert forall|i: int| 0 <= i < own.len() implies (#[trigger] own[i]) == own_controls(x)[i]
        || exists|o: ControlModel|
        others.contains((own_controls(x)[i].0, o)) && own[i] == (
            own_controls(x)[i].0,
            #[trigger] f(own_controls(x)[i].0, own_controls(x)[i].1, o),
        ) by {
        if i < other.controls.len() && x.scope == other.scope {
            assert(others[i] == (x.scope, other.controls[i]));
            assert(own[i] == (x.scope, f(x.scope, x.controls[i], other.controls[i])));
        }
    }
    assert(stayed_or_changed(own, own_controls(x), others, f));
    zip_groups_change(x.groups, z.groups, other.groups, f);
    parts_within(others, groups_controls(other.groups));
    let all = group_controls(other);
    stayed_or_changed_by_more(own, own_controls(x), others, all, f);
    stayed_or_changed_by_more(
        groups_controls(z.groups),
        groups_controls(x.groups),
        groups_controls(other.groups),
        all,
        f,
    );
    stayed_or_changed_together(
        own,
        groups_controls(z.groups),
        own_controls(x),
        groups_controls(x.groups),
        all,
        f,
    );
}

proof fn zip_groups_change(
    xs: Seq<GroupModel>,
    zs: Seq<GroupModel>,
    others: Seq<GroupModel>,
    f: PairMap,
)
    requires
        xs.len() == zs.len(),
        forall|i: int|
            0 <= i < xs.len() ==> #[trigger] zs[i] == if i < others.len() {
                zip_group(xs[i], others[i], f)
            } else {
                xs[i]
            },
    ensures
        stayed_or_changed(
            groups_controls(zs),
            groups_controls(xs),
            groups_controls(others),
            f,
        ),
    decreases xs, xs.len(),
{
    if xs.len() > 0 {
        let all = groups_controls(others);
        let last = xs.len() - 1;
        zip_groups_change(xs.drop_last(), zs.drop_last(), others, f);
        assert(zs[last] == zs.last());
        if last < others.len() {
            zip_group_changes(xs.last(), others[last], f);
            group_within(others, last);
            stayed_or_changed_by_more(
                group_controls(zs.last()),
                group_controls(xs.last()),
                group_controls(others[last]),
                all,
                f,
            );
        }
        stayed_or_changed_together(
            groups_controls(zs.drop_last()),
            group_controls(zs.last()),
            groups_controls(xs.drop_last()),
            group_controls(xs.last()),
            all,
            f,
        );
    }
}

proof fn zip_face_changes(
    face: Option<NodeFaceModel>,
    other: Option<NodeFaceModel>,
    f: PairMap,
)
    ensures
        stayed_or_changed(
            face_controls(zip_face(face, other, f)),
            face_controls(face),
            face_controls(other),
            f,
        ),
{
    match (face, other) {
        (Some(NodeFaceModel::Module(module)), Some(NodeFaceModel::Module(o))) => {
            zip_group_changes(module.panel, o.panel, f);
        },
        (Some(NodeFaceModel::Controls(group)), Some(NodeFaceModel::Controls(o))) => {
            zip_group_changes(group, o, f);
        },
        _ => {},
    }
}

proof fn zip_child_changes(x: ChildModel, other: ChildModel, f: PairMap)
    ensures
        stayed_or_changed(
            child_controls(zip_child(x, other, f)),
            child_controls(x),
            child_controls(other),
            f,
        ),
    decreases x, 0nat,
{
    let z = zip_child(x, other, f);
    zip_face_changes(x.face, other.face, f);
    zip_children_change(x.children, z.children, other.children, f);
    faces_and_children_change(
        (x.face, x.children),
        (z.face, z.children),
        (other.face, other.children),
        f,
    );
}

proof fn faces_and_children_change(
    x: (Option<NodeFaceModel>, Seq<ChildModel>),
    z: (Option<NodeFaceModel>, Seq<ChildModel>),
    other: (Option<NodeFaceModel>, Seq<ChildModel>),
    f: PairMap,
)
    requires
        stayed_or_changed(face_controls(z.0), face_controls(x.0), face_controls(other.0), f),
        stayed_or_changed(
            children_controls(z.1),
            children_controls(x.1),
            children_controls(other.1),
            f,
        ),
    ensures
        stayed_or_changed(
            face_controls(z.0) + children_controls(z.1),
            face_controls(x.0) + children_controls(x.1),
            face_controls(other.0) + children_controls(other.1),
            f,
        ),
{
    let all = face_controls(other.0) + children_controls(other.1);
    parts_within(face_controls(other.0), children_controls(other.1));
    stayed_or_changed_by_more(
        face_controls(z.0),
        face_controls(x.0),
        face_controls(other.0),
        all,
        f,
    );
    stayed_or_changed_by_more(
        children_controls(z.1),
        children_controls(x.1),
        children_controls(other.1),
        all,
        f,
    );
    stayed_or_changed_together(
        face_controls(z.0),
        children_controls(z.1),
        face_controls(x.0),
        children_controls(x.1),
        all,
        f,
    );
}

proof fn zip_children_change(
    xs: Seq<ChildModel>,
    zs: Seq<ChildModel>,
    others: Seq<ChildModel>,
    f: PairMap,
)
    requires
        xs.len() == zs.len(),
        forall|i: int|
            0 <= i < xs.len() ==> #[trigger] zs[i] == if i < others.len() {
                zip_child(xs[i], others[i], f)
            } else {
                xs[i]
            },
    ensures
        stayed_or_changed(
            children_controls(zs),
            children_controls(xs),
            children_controls(others),
            f,
        ),
    decreases xs, xs.len(),
{
    if xs.len() > 0 {
        let all = children_controls(others);
        let last = xs.len() - 1;
        zip_children_change(xs.drop_last(), zs.drop_last(), others, f);
        assert(zs[last] == zs.last());
        if last < others.len() {
            zip_child_changes(xs.last(), others[last], f);
            child_within(others, last);
            stayed_or_changed_by_more(
                child_controls(zs.last()),
                child_controls(xs.last()),
                child_controls(others[last]),
                all,
                f,
            );
        }
        stayed_or_changed_together(
            children_controls(zs.drop_last()),
            child_controls(zs.last()),
            children_controls(xs.drop_last()),
            child_controls(xs.last()),
            all,
            f,
        );
    }
}

/// On any two cards, each control stays or is changed by one of the other card's
/// that lives in its scope.
pub proof fn zip_node_changes(x: NodeModel, other: NodeModel, f: PairMap)
    ensures
        stayed_or_changed(
            node_controls(zip_node(x, other, f)),
            node_controls(x),
            node_controls(other),
            f,
        ),
{
    let z = zip_node(x, other, f);
    zip_face_changes(x.face, other.face, f);
    zip_children_change(x.children, z.children, other.children, f);
    faces_and_children_change(
        (x.face, x.children),
        (z.face, z.children),
        (other.face, other.children),
        f,
    );
}

/// No control of the list is held.
pub open spec fn nothing_engaged(controls: Seq<Placed>) -> bool {
    forall|i: int| 0 <= i < controls.len() ==> !(#[trigger] controls[i]).1.engaged()
}

proof fn nothing_engaged_parts(a: Seq<Placed>, b: Seq<Placed>)
    ensures
        nothing_engaged(a + b) <==> nothing_engaged(a) && nothing_engaged(b),
{
    if nothing_engaged(a + b) {
        assert forall|i: int| 0 <= i < a.len() implies !(#[trigger] a[i]).1.engaged() by {
            assert((a + b)[i] == a[i]);
        }
        assert forall|i: int| 0 <= i < b.len() implies !(#[trigger] b[i]).1.engaged() by {
            assert((a + b)[a.len() + i] == b[i]);
        }
    }
}

/// A group counts no held control exactly where none in its tree is held.
pub proof fn engaged_total_is_zero_when_nothing_is_held(g: GroupModel)
    ensures
        g.engaged_total() == 0 <==> nothing_engaged(group_controls(g)),
    decreases g, 0nat,
{
    nothing_held_counts_zero(g.controls);
    if g.engaged_here() == 0 {
        assert forall|i: int| 0 <= i < own_controls(g).len() implies !(
        #[trigger] own_controls(g)[i]).1.engaged() by {
            assert(!g.controls[i].engaged());
        }
    }
    if nothing_engaged(own_controls(g)) {
        assert forall|i: int| 0 <= i < g.controls.len() implies !(
        #[trigger] g.controls[i]).engaged() by {
            assert(!own_controls(g)[i].1.engaged());
        }
    }
    engaged_groups_are_zero(g.groups);
    nothing_engaged_parts(own_controls(g), groups_controls(g.groups));
}

proof fn engaged_groups_are_zero(groups: Seq<GroupModel>)
    ensures
        engaged_in_groups(groups) == 0 <==> nothing_engaged(groups_controls(groups)),
    decreases groups, groups.len(),
{
    if groups.len() > 0 {
        engaged_groups_are_zero(groups.drop_last());
        engaged_total_is_zero_when_nothing_is_held(groups.last());
        nothing_engaged_parts(
            groups_controls(groups.drop_last()),
            group_controls(groups.last()),
        );
    }
}

} // verus!
