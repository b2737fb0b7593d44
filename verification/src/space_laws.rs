//! What the dimensionality section and the shape question do, said of the calls
//! that do it: the edits that each choice sends, and what each row draws and says.

use vstd::prelude::*;
use vstd::string::*;

use crate::action::{action_models, UiAction};
use crate::output_laws::puts_in;
use crate::shape_moment::{
    area_edits, shape_preset_actions, shape_tile, skip_shape_action, SHAPE_TILE_CLASS,
    SHAPE_TILE_INERT_CLASS, ShapePreset, ShapeTile, UiShapePresets,
};
use crate::slot::{is_field_name, LpValue, ProjectSlotAddress, SlotAddressView};
use crate::space_section::{
    active_glyph, active_projection, active_variant_label, cell_label, choice_actions,
    choice_hint, face_space_badge, first_of_role, first_selected, glyph_for,
    known_variant_label, ladder_line, mismatch_line, modifier_action, modifier_suffix,
    modifier_tile_projection, preview_space_caption, primary_hint, projection_label,
    segment_actions, serpentine_segments, space_badge, space_section_summary, strip_edit,
    tile_actions, tile_glyph, variant_label, variant_named, visual_space_label,
    wire_direction_action, Modifier, SpaceGlyph, SpaceVariant, UiCellProjection,
    UiProjectionOrigin, UiProjectionShape, UiSpaceBoolRow, UiSpaceCell, UiSpaceCellRole,
    UiSpaceChoice, UiSpaceMismatch, UiSpaceSection, UiSpaceSide, UiVisualProductSpace,
    UiVisualSpace, UiWireDirectionRow, WireBox,
};

verus! {

/// The action switches the slot at `path` of the node on or off.
pub open spec fn switches(
    action: UiAction,
    node: Seq<char>,
    root: Seq<char>,
    path: Seq<char>,
    on: bool,
) -> bool {
    action matches UiAction::SetValue { address, value } && address.node@ == node
        && address.root@ == root && address.path@ == path && value == LpValue::Bool(on)
}

/// There is a word, and it reads so.
pub open spec fn reads(word: Option<&'static str>, text: Seq<char>) -> bool {
    word matches Some(word) && word@ == text
}

/// A name that can be the field of a slot.
pub open spec fn can_be_field(name: Seq<char>) -> bool {
    name.len() > 0 && !name.contains('.') && !name.contains('[') && !name.contains(']')
}

proof fn fields_can_be(name: Seq<char>)
    ensures
        can_be_field(name) == is_field_name(name),
{
    if is_field_name(name) {
        assert forall|c: char| (c == '.' || c == '[' || c == ']') implies !name.contains(c) by {
            if name.contains(c) {
                let i = choose|i: int| 0 <= i < name.len() && name[i] == c;
                assert(name[i] != '.');
            }
        }
    } else if name.len() > 0 {
        let i = choose|i: int|
            0 <= i < name.len() && !((#[trigger] name[i]) != '.' && name[i] != '[' && name[i]
                != ']');
        assert(name.contains(name[i]));
    }
}

proof fn the_variants_by_name()
    ensures
        variant_named("OneD"@) == SpaceVariant::OneD,
        variant_named("TwoD"@) == SpaceVariant::TwoD,
        variant_named("Auto"@) == SpaceVariant::Auto,
        variant_named("AlongWire"@) == SpaceVariant::AlongWire,
        variant_named("Default"@) == SpaceVariant::Default,
        variant_named("ExtrudeX"@) == SpaceVariant::Shape(UiProjectionShape::ExtrudeX),
        variant_named("ExtrudeY"@) == SpaceVariant::Shape(UiProjectionShape::ExtrudeY),
        variant_named("Radial"@) == SpaceVariant::Shape(UiProjectionShape::Radial),
        variant_named("Angular"@) == SpaceVariant::Shape(UiProjectionShape::Angular),
        "AlongWire"@ != "Auto"@,
{
    reveal_strlit("OneD");
    reveal_strlit("TwoD");
    reveal_strlit("Auto");
    reveal_strlit("AlongWire");
    reveal_strlit("Default");
    reveal_strlit("ExtrudeX");
    reveal_strlit("ExtrudeY");
    reveal_strlit("Radial");
    reveal_strlit("Angular");
    assert("OneD"@.len() == 4);
    assert("TwoD"@.len() == 4);
    assert("Auto"@.len() == 4);
    assert("AlongWire"@.len() == 9);
    assert("Default"@.len() == 7);
    assert("ExtrudeX"@.len() == 8);
    assert("ExtrudeY"@.len() == 8);
    assert("Radial"@.len() == 6);
    assert("Angular"@.len() == 7);
    assert("OneD"@[0] == 'O');
    assert("TwoD"@[0] == 'T');
    assert("Auto"@[0] == 'A');
    assert("Default"@[0] == 'D');
    assert("Angular"@[0] == 'A');
    assert("ExtrudeX"@[7] == 'X');
    assert("ExtrudeY"@[7] == 'Y');
}

proof fn policy_paths(address: SlotAddressView, variant: Seq<char>)
    ensures
        address.field("Auto"@).path == address.path + ".Auto"@,
        address.field("Policy"@).path == address.path + ".Policy"@,
        address.field("Policy"@).field("force"@).path == address.path + ".Policy.force"@,
        address.field("Policy"@).field("from_1d"@).field("Project"@).field("shape"@).field(
            variant,
        ).path == address.path + ".Policy.from_1d.Project.shape."@ + variant,
        address.field(variant).path == address.path + "."@ + variant,
{
    reveal_strlit(".");
    reveal_strlit("Auto");
    reveal_strlit(".Auto");
    reveal_strlit("Policy");
    reveal_strlit(".Policy");
    reveal_strlit("force");
    reveal_strlit(".Policy.force");
    reveal_strlit("from_1d");
    reveal_strlit("Project");
    reveal_strlit("shape");
    reveal_strlit(".Policy.from_1d.Project.shape.");
    assert(address.field("Auto"@).path =~= address.path + ".Auto"@);
    assert(address.field("Policy"@).path =~= address.path + ".Policy"@);
    assert(address.field("Policy"@).field("force"@).path =~= address.path + ".Policy.force"@);
    assert(address.field("Policy"@).field("from_1d"@).field("Project"@).field("shape"@).field(
        variant,
    ).path =~= address.path + ".Policy.from_1d.Project.shape."@ + variant);
}

// -- the edits of a choice -----------------------------------------------------------

/// The edits start by turning the wire switch, where there is one; the rest of them
/// come from `from` on.
pub open spec fn turns_the_wire_switch(
    edits: Seq<UiAction>,
    strip: Option<&ProjectSlotAddress>,
    on: bool,
    from: int,
) -> bool {
    match strip {
        Some(strip) => from == 1 && edits.len() >= 1 && switches(
            edits[0],
            strip.node@,
            strip.root@,
            strip.path@,
            on,
        ),
        None => from == 0,
    }
}

/// A fixture's own choice. Along the wire turns the wire switch on and does nothing
/// else. Every other choice turns it off first. Following the sources puts in
/// `Auto`. A shape puts in the policy and the shape in it, and ends by switching
/// the policy's override on, which nothing in between touches.
pub proof fn a_fixtures_choice_takes_effect(
    address: &ProjectSlotAddress,
    strip: Option<&ProjectSlotAddress>,
    variant: &str,
    edits: Vec<UiAction>,
)
    requires
        call_ensures(
            choice_actions,
            (UiSpaceSide::Consumer, UiSpaceCellRole::Primary, address, strip, variant),
            edits,
        ),
    ensures
        ({
            let (node, root, path) = (address.node@, address.root@, address.path@);
            let from: int = if strip is Some {
                1
            } else {
                0
            };
            if variant@ == "AlongWire"@ {
                &&& turns_the_wire_switch(edits@, strip, true, from)
                &&& edits@.len() == from
            } else if variant@ == "Auto"@ {
                &&& turns_the_wire_switch(edits@, strip, false, from)
                &&& edits@.len() == from + 1
                &&& puts_in(edits@[from], node, root, path + ".Auto"@)
            } else if can_be_field(variant@) {
                &&& turns_the_wire_switch(edits@, strip, false, from)
                &&& edits@.len() == from + 3
                &&& puts_in(edits@[from], node, root, path + ".Policy"@)
                &&& puts_in(
                    edits@[from + 1],
                    node,
                    root,
                    path + ".Policy.from_1d.Project.shape."@ + variant@,
                )
                &&& switches(edits@[from + 2], node, root, path + ".Policy.force"@, true)
            } else {
                &&& turns_the_wire_switch(edits@, strip, false, from)
                &&& edits@.len() == from + 2
                &&& puts_in(edits@[from], node, root, path + ".Policy"@)
                &&& switches(edits@[from + 1], node, root, path + ".Policy.force"@, true)
            }
        }),
{
    the_variants_by_name();
    policy_paths(address@, variant@);
    fields_can_be(variant@);
    let models = action_models(edits@);
    assert(models.len() == edits@.len());
    assert forall|i: int| 0 <= i < edits@.len() implies models[i] == (#[trigger] edits@[i])@ by {}
    if edits@.len() > 0 {
        assert(models[0] == edits@[0]@);
    }
    if edits@.len() > 1 {
        assert(models[1] == edits@[1]@);
    }
    if edits@.len() > 2 {
        assert(models[2] == edits@[2]@);
    }
    if edits@.len() > 3 {
        assert(models[3] == edits@[3]@);
    }
    let own = match strip {
        Some(strip) => Some(strip@),
        None => None,
    };
    assert(strip_edit(own, true).len() == if strip is Some {
        1nat
    } else {
        0nat
    });
    assert(strip_edit(own, false).len() == strip_edit(own, true).len());
}

/// A choice of a shader's row, or of any row but a fixture's own, puts the variant
/// in at the row's slot and does nothing else.
pub proof fn a_shaders_choice_puts_its_variant_in(
    side: UiSpaceSide,
    role: UiSpaceCellRole,
    address: &ProjectSlotAddress,
    strip: Option<&ProjectSlotAddress>,
    variant: &str,
    edits: Vec<UiAction>,
)
    requires
        side == UiSpaceSide::Producer || role != UiSpaceCellRole::Primary,
        call_ensures(choice_actions, (side, role, address, strip, variant), edits),
    ensures
        can_be_field(variant@) ==> edits@.len() == 1 && puts_in(
            edits@[0],
            address.node@,
            address.root@,
            address.path@ + "."@ + variant@,
        ),
        !can_be_field(variant@) ==> edits@.len() == 0,
{
    policy_paths(address@, variant@);
    fields_can_be(variant@);
    let models = action_models(edits@);
    assert(models.len() == edits@.len());
    if edits@.len() > 0 {
        assert(models[0] == edits@[0]@);
    }
}

/// Pressing a segment of the declaration puts its variant in, unless it is chosen
/// already or cannot be written.
pub proof fn a_segment_declares_its_variant(
    cell: &UiSpaceCell,
    choice: &UiSpaceChoice,
    edits: Vec<UiAction>,
)
    requires
        call_ensures(segment_actions, (cell, choice), edits),
    ensures
        choice.selected || !cell.editable || cell.address is None ==> edits@.len() == 0,
        cell.address matches Some(address) ==> (!choice.selected && cell.editable && can_be_field(
            choice.variant@,
        ) ==> edits@.len() == 1 && puts_in(
            edits@[0],
            address.node@,
            address.root@,
            address.path@ + "."@ + choice.variant@,
        )),
{
    if let Some(address) = cell.address {
        policy_paths(address@, choice.variant@);
    }
    fields_can_be(choice.variant@);
    let models = action_models(edits@);
    assert(models.len() == edits@.len());
    if edits@.len() > 0 {
        assert(models[0] == edits@[0]@);
    }
}

/// Pressing a tile sends what its choice sends, with the row's own slot and wire
/// switch, and nothing where the tile is chosen already or has nowhere to write.
pub proof fn a_tile_sends_its_choice(
    side: UiSpaceSide,
    cell: &UiSpaceCell,
    choice: &UiSpaceChoice,
    address: &ProjectSlotAddress,
    strip: Option<&ProjectSlotAddress>,
    variant: &str,
    sent: Vec<UiAction>,
    edits: Vec<UiAction>,
)
    requires
        call_ensures(tile_actions, (side, cell, choice), edits),
        call_ensures(choice_actions, (side, cell.role, address, strip, variant), sent),
        variant@ == choice.variant@,
        strip is Some <==> (cell.strip_order matches Some(row) && row.address is Some),
        strip matches Some(own) ==> own@ == cell.strip_order->Some_0.address->Some_0@,
    ensures
        choice.selected || cell.address is None ==> edits@.len() == 0,
        cell.address matches Some(own) ==> (!choice.selected && own@ == address@ ==> edits@.len()
            == sent@.len() && forall|i: int|
            0 <= i < edits@.len() ==> (#[trigger] edits@[i])@ == sent@[i]@),
{
    let models = action_models(edits@);
    let others = action_models(sent@);
    assert(models.len() == edits@.len());
    assert(others.len() == sent@.len());
    if let Some(own) = cell.address {
        if !choice.selected && own@ == address@ {
            assert(models == others);
            assert forall|i: int| 0 <= i < edits@.len() implies (#[trigger] edits@[i])@
                == sent@[i]@ by {
                assert(models[i] == others[i]);
            }
        }
    }
}

/// Pressing a modifier turns it over: on from off and off from on, so that pressing
/// it twice changes nothing. A row that cannot be written sends nothing.
pub proof fn a_modifier_turns_over(row: &UiSpaceBoolRow, r: Option<UiAction>)
    requires
        call_ensures(modifier_action, (row,), r),
    ensures
        r is Some <==> row.editable && row.address is Some,
        r matches Some(action) ==> switches(
            action,
            row.address->Some_0.node@,
            row.address->Some_0.root@,
            row.address->Some_0.path@,
            !row.value,
        ),
{
}

/// Pressing a direction of the wire sets that direction, and the current one sends
/// nothing.
pub proof fn a_direction_is_set_as_pressed(
    wire: &UiWireDirectionRow,
    reversed: bool,
    r: Option<UiAction>,
)
    requires
        call_ensures(wire_direction_action, (wire, reversed), r),
    ensures
        r is Some <==> wire.editable && wire.address is Some && reversed != wire.reversed,
        r matches Some(action) ==> switches(
            action,
            wire.address->Some_0.node@,
            wire.address->Some_0.root@,
            wire.address->Some_0.path@,
            reversed,
        ),
{
}

// -- what is drawn -------------------------------------------------------------------

/// The shape a variant is named after.
pub open spec fn named_shape(variant: Seq<char>) -> Option<UiProjectionShape> {
    if variant == "ExtrudeX"@ {
        Some(UiProjectionShape::ExtrudeX)
    } else if variant == "ExtrudeY"@ {
        Some(UiProjectionShape::ExtrudeY)
    } else if variant == "Radial"@ {
        Some(UiProjectionShape::Radial)
    } else if variant == "Angular"@ {
        Some(UiProjectionShape::Angular)
    } else {
        None
    }
}

/// A tile draws what pressing it would give: a shape with the row's modifiers on it
/// as they are, the wire as wired, the centre row for a texture's default, and the
/// source's own answer otherwise.
pub proof fn a_tile_draws_its_choice(
    role: UiSpaceCellRole,
    variant: &str,
    modifiers: Option<(bool, bool)>,
    plain: SpaceGlyph,
    r: SpaceGlyph,
)
    requires
        call_ensures(glyph_for, (role, variant), plain),
        call_ensures(tile_glyph, (role, variant, modifiers), r),
    ensures
        named_shape(variant@) matches Some(shape) ==> {
            &&& plain == SpaceGlyph::Projection(
                UiCellProjection { shape, mirror: false, flip: false },
            )
            &&& r == SpaceGlyph::Projection(
                UiCellProjection {
                    shape,
                    mirror: modifiers matches Some(on) && on.0,
                    flip: modifiers matches Some(on) && on.1,
                },
            )
        },
        named_shape(variant@) is None ==> r == plain,
        variant@ == "AlongWire"@ ==> plain == SpaceGlyph::AlongWire(false),
        variant@ == "Auto"@ ==> plain == SpaceGlyph::FollowSource,
        variant@ == "Default"@ && role == UiSpaceCellRole::ProducerIn1d ==> plain
            == SpaceGlyph::CentreScanline,
        plain == SpaceGlyph::CentreScanline ==> variant@ == "Default"@ && role
            == UiSpaceCellRole::ProducerIn1d,
        plain is AlongWire ==> variant@ == "AlongWire"@,
        plain is Projection ==> named_shape(variant@) is Some,
{
    the_variants_by_name();
}

/// A row draws what it has chosen, with its own modifiers and the direction of its
/// wire.
pub proof fn a_row_draws_what_it_has_chosen(
    cell: &UiSpaceCell,
    r: SpaceGlyph,
    projection: Option<UiCellProjection>,
)
    requires
        call_ensures(active_glyph, (cell,), r),
        call_ensures(active_projection, (cell,), projection),
    ensures
        cell.active@ == "AlongWire"@ ==> r == SpaceGlyph::AlongWire(
            cell.wire_direction matches Some(wire) && wire.reversed,
        ),
        named_shape(cell.active@) matches Some(shape) ==> r == SpaceGlyph::Projection(
            UiCellProjection {
                shape,
                mirror: cell.modifiers matches Some(rows) && rows.mirror.value,
                flip: cell.modifiers matches Some(rows) && rows.flip.value,
            },
        ),
        cell.active@ == "Auto"@ ==> r == SpaceGlyph::FollowSource,
        r is Projection <==> named_shape(cell.active@) is Some,
        r is AlongWire <==> cell.active@ == "AlongWire"@,
        projection == match r {
            SpaceGlyph::Projection(own) => Some(own),
            _ => None,
        },
{
    the_variants_by_name();
}

/// A modifier's tile draws the projection with that modifier on and all else as it
/// is.
pub proof fn a_modifier_tile_adds_its_modifier(
    base: UiCellProjection,
    which: Modifier,
    r: UiCellProjection,
)
    requires
        call_ensures(modifier_tile_projection, (base, which), r),
    ensures
        r.shape == base.shape,
        which == Modifier::Mirror ==> r.mirror && r.flip == base.flip,
        which == Modifier::Flip ==> r.flip && r.mirror == base.mirror,
{
}

/// Two boxes of the wire meet: side by side in one run, or one above the other
/// where a run turns.
pub open spec fn meet(a: WireBox, b: WireBox) -> bool {
    ||| a.y == b.y && a.height == b.height && (a.x + a.width == b.x || b.x + b.width == a.x)
    ||| a.y + a.height == b.y && a.x < b.x + b.width && b.x < a.x + a.width
}

/// The wire is drawn as one line of boxes inside the picture, each meeting the next.
/// The steps climb along it from zero; read back to front, the same boxes have them
/// the other way round.
pub proof fn the_wire_is_one_line(forward: Vec<WireBox>, backward: Vec<WireBox>)
    requires
        call_ensures(serpentine_segments, (false,), forward),
        call_ensures(serpentine_segments, (true,), backward),
    ensures
        forward@.len() == 14 && backward@.len() == 14,
        forall|i: int|
            0 <= i < 14 ==> {
                let a = #[trigger] forward@[i];
                let b = backward@[i];
                &&& a.step == i
                &&& b.step + a.step == 13
                &&& b == (WireBox { step: b.step, ..a })
                &&& a.x + a.width <= 64 && a.y + a.height <= 40
            },
        forall|i: int| 0 <= i < 13 ==> meet(#[trigger] forward@[i], forward@[i + 1]),
{
    assert forall|i: int| 0 <= i < 14 implies {
        let a = #[trigger] forward@[i];
        let b = backward@[i];
        &&& a.step == i
        &&& b.step + a.step == 13
        &&& b == (WireBox { step: b.step, ..a })
        &&& a.x + a.width <= 64 && a.y + a.height <= 40
    } by {
        let b = backward@[i];
        assert(i == 0 || i == 1 || i == 2 || i == 3 || i == 4 || i == 5 || i == 6 || i == 7 || i
            == 8 || i == 9 || i == 10 || i == 11 || i == 12 || i == 13);
    }
    assert forall|i: int| 0 <= i < 13 implies meet(#[trigger] forward@[i], forward@[i + 1]) by {
        let next = forward@[i + 1];
        assert(i == 0 || i == 1 || i == 2 || i == 3 || i == 4 || i == 5 || i == 6 || i == 7 || i
            == 8 || i == 9 || i == 10 || i == 11 || i == 12);
    }
}

// -- what is said --------------------------------------------------------------------

/// The row that answers a role is the first one of it.
pub proof fn a_role_is_answered_by_its_first_row(
    section: &UiSpaceSection,
    role: UiSpaceCellRole,
    r: Option<&UiSpaceCell>,
)
    requires
        call_ensures(UiSpaceSection::cell, (section, role), r),
    ensures
        r is None <==> forall|i: int|
            0 <= i < section.cells@.len() ==> (#[trigger] section.cells@[i]).role != role,
        r matches Some(cell) ==> exists|i: int|
            0 <= i < section.cells@.len() && *cell == #[trigger] section.cells@[i] && cell.role
                == role && forall|j: int|
                0 <= j < i ==> (#[trigger] section.cells@[j]).role != role,
{
    the_first_of_a_role(section.cells@, role, 0);
    let at = first_of_role(section.cells@, role, 0);
    if let Some(cell) = r {
        assert(*cell == section.cells@[at]);
    } else {
        assert forall|i: int| 0 <= i < section.cells@.len() implies (
        #[trigger] section.cells@[i]).role != role by {}
    }
}

proof fn the_first_of_a_role(cells: Seq<UiSpaceCell>, role: UiSpaceCellRole, from: int)
    requires
        0 <= from <= cells.len(),
    ensures
        from <= first_of_role(cells, role, from) <= cells.len(),
        first_of_role(cells, role, from) < cells.len() ==> cells[first_of_role(
            cells,
            role,
            from,
        )].role == role,
        forall|j: int|
            from <= j < first_of_role(cells, role, from) ==> (#[trigger] cells[j]).role != role,
    decreases cells.len() - from,
{
    if from < cells.len() && cells[from].role != role {
        the_first_of_a_role(cells, role, from + 1);
    }
}

proof fn the_first_that_is_selected(choices: Seq<UiSpaceChoice>, from: int)
    requires
        0 <= from <= choices.len(),
    ensures
        from <= first_selected(choices, from) <= choices.len(),
        first_selected(choices, from) < choices.len() ==> choices[first_selected(
            choices,
            from,
        )].selected,
        forall|j: int|
            from <= j < first_selected(choices, from) ==> !(#[trigger] choices[j]).selected,
    decreases choices.len() - from,
{
    if from < choices.len() && !choices[from].selected {
        the_first_that_is_selected(choices, from + 1);
    }
}

/// A variant's word: the shapes read alike everywhere, the default reads by its row,
/// the spaces are words of a shader's own row and following and the wire of a
/// fixture's own. No other variant has one.
pub proof fn a_variant_reads_by_its_row(
    side: UiSpaceSide,
    role: UiSpaceCellRole,
    variant: &str,
    r: Option<&'static str>,
)
    requires
        call_ensures(known_variant_label, (side, role, variant), r),
    ensures
        variant@ == "ExtrudeX"@ ==> reads(r, "extrude-x"@),
        variant@ == "ExtrudeY"@ ==> reads(r, "extrude-y"@),
        variant@ == "Radial"@ ==> reads(r, "radial"@),
        variant@ == "Angular"@ ==> reads(r, "angular"@),
        variant@ == "Default"@ && role == UiSpaceCellRole::ProducerIn2d ==> reads(r, "extrude \u{00b7} default"@),
        variant@ == "Default"@ && role == UiSpaceCellRole::ProducerIn1d ==> reads(r, "centre scanline"@),
        ({
            let own = role == UiSpaceCellRole::Primary;
            let shader = own && side == UiSpaceSide::Producer;
            let fixture = own && side == UiSpaceSide::Consumer;
            &&& variant@ == "OneD"@ && shader ==> reads(r, "1D"@)
            &&& variant@ == "TwoD"@ && shader ==> reads(r, "2D"@)
            &&& variant@ == "Auto"@ && fixture ==> reads(r, "follow the source"@)
            &&& variant@ == "AlongWire"@ && fixture ==> reads(r, "along the wire"@)
            &&& r is Some ==> {
                ||| named_shape(variant@) is Some
                ||| variant@ == "Default"@ && !own
                ||| shader && (variant@ == "OneD"@ || variant@ == "TwoD"@)
                ||| fixture && (variant@ == "Auto"@ || variant@ == "AlongWire"@)
            }
        }),
{
    the_variants_by_name();
}

/// A choice is called by its variant's word, and by the label it came with where
/// there is no word. A row is called by its first selected choice, and by what it
/// says is active where none is selected.
pub proof fn a_row_is_called_by_its_choice(
    side: UiSpaceSide,
    cell: &UiSpaceCell,
    at: int,
    word: Option<&'static str>,
    variant: &str,
    label: String,
    active_word: Option<&'static str>,
    active: &str,
    r: String,
)
    requires
        call_ensures(active_variant_label, (side, cell), r),
        0 <= at < cell.choices@.len() ==> call_ensures(
            variant_label,
            (side, cell.role, &cell.choices@[at]),
            label,
        ),
        0 <= at < cell.choices@.len() ==> variant@ == cell.choices@[at].variant@,
        call_ensures(known_variant_label, (side, cell.role, variant), word),
        call_ensures(known_variant_label, (side, cell.role, active), active_word),
        active@ == cell.active@,
    ensures
        0 <= at < cell.choices@.len() ==> label@ == match word {
            Some(word) => word@,
            None => cell.choices@[at].label@,
        },
        0 <= at < cell.choices@.len() && cell.choices@[at].selected && (forall|j: int|
            0 <= j < at ==> !(#[trigger] cell.choices@[j]).selected) ==> r@ == label@,
        (forall|j: int| 0 <= j < cell.choices@.len() ==> !(#[trigger] cell.choices@[j]).selected)
            ==> r@ == match active_word {
            Some(word) => word@,
            None => cell.active_label@,
        },
{
    the_first_that_is_selected(cell.choices@, 0);
    let first = first_selected(cell.choices@, 0);
    if 0 <= at < cell.choices@.len() && cell.choices@[at].selected && (forall|j: int|
        0 <= j < at ==> !(#[trigger] cell.choices@[j]).selected) {
        if first > at {
            assert(!cell.choices@[at].selected);
        }
        if first < at {
            assert(cell.choices@[first].selected);
        }
    }
    if forall|j: int| 0 <= j < cell.choices@.len() ==> !(#[trigger] cell.choices@[j]).selected {
        if first < cell.choices@.len() {
            assert(cell.choices@[first].selected);
        }
    }
}

/// A projection is called by its shape, and behind it by the modifiers that are on:
/// mirrored before flipped.
pub proof fn a_projection_is_called_by_shape_and_modifiers(projection: UiCellProjection, r: String)
    requires
        call_ensures(projection_label, (projection,), r),
    ensures
        ({
            let shape = match projection.shape {
                UiProjectionShape::ExtrudeX => "extrude-x"@,
                UiProjectionShape::ExtrudeY => "extrude-y"@,
                UiProjectionShape::Radial => "radial"@,
                UiProjectionShape::Angular => "angular"@,
            };
            r@ == if projection.mirror && projection.flip {
                shape + " · mirrored · flipped"@
            } else if projection.mirror {
                shape + " · mirrored"@
            } else if projection.flip {
                shape + " · flipped"@
            } else {
                shape
            }
        }),
{
    reveal_strlit(" · ");
    reveal_strlit("mirrored");
    reveal_strlit("flipped");
    reveal_strlit(" · mirrored");
    reveal_strlit(" · flipped");
    reveal_strlit(" · mirrored · flipped");
    let words = crate::space_section::modifier_words(projection.mirror, projection.flip);
    let shape = crate::space_section::shape_word(projection.shape);
    assert(" · "@ + "mirrored"@ =~= " · mirrored"@);
    assert(" · "@ + "flipped"@ =~= " · flipped"@);
    if projection.mirror && projection.flip {
        assert(words =~= " · mirrored · flipped"@);
    } else if projection.mirror {
        assert(words =~= " · mirrored"@);
    } else if projection.flip {
        assert(words =~= " · flipped"@);
    } else {
        assert(shape + words =~= shape);
    }
}

/// What a row adds to its choice: an arrow for a wire that is read back to front,
/// and for every other choice its modifiers as a projection spells them.
pub proof fn a_row_adds_its_modifiers(
    cell: &UiSpaceCell,
    plain: UiProjectionShape,
    spelled: String,
    bare: String,
    r: String,
)
    requires
        call_ensures(modifier_suffix, (cell,), r),
        call_ensures(
            projection_label,
            (UiCellProjection { shape: plain, mirror: false, flip: false },),
            bare,
        ),
        call_ensures(
            projection_label,
            (UiCellProjection {
                shape: plain,
                mirror: cell.modifiers matches Some(rows) && rows.mirror.value,
                flip: cell.modifiers matches Some(rows) && rows.flip.value,
            },),
            spelled,
        ),
    ensures
        cell.active@ == "AlongWire"@ ==> r@ == if cell.wire_direction matches Some(wire)
            && wire.reversed {
            " ←"@
        } else {
            Seq::<char>::empty()
        },
        cell.active@ != "AlongWire"@ ==> spelled@ == bare@ + r@,
{
    let none = crate::space_section::modifier_words(false, false);
    assert(none =~= Seq::<char>::empty());
    let shape = crate::space_section::shape_word(plain);
    assert(shape + none =~= shape);
}

/// Only a shader with a declared space has a badge, and it names that space.
pub proof fn a_badge_names_a_declared_space(
    section: &UiSpaceSection,
    r: Option<&'static str>,
    face: Option<&'static str>,
    bare: Option<&'static str>,
)
    requires
        call_ensures(space_badge, (section,), r),
        call_ensures(face_space_badge, (Some(section),), face),
        call_ensures(face_space_badge, (None::<&UiSpaceSection>,), bare),
    ensures
        r is Some <==> section.side == UiSpaceSide::Producer && section.declared_space is Some,
        section.declared_space == Some(UiVisualSpace::OneD) ==> (r matches Some(word) ==> word@
            == "1D"@),
        section.declared_space == Some(UiVisualSpace::TwoD) ==> (r matches Some(word) ==> word@
            == "2D"@),
        face is Some <==> r is Some,
        face matches Some(word) ==> word@ == r->Some_0@,
        bare is None,
{
}

/// A preview in its own space is native; in another one the caption says how it got
/// there, and who decided wherever that is known.
pub proof fn a_caption_says_how_and_by_whom(
    space: UiVisualSpace,
    meta: Option<UiVisualProductSpace>,
    word: &'static str,
    how: String,
    r: String,
)
    requires
        call_ensures(preview_space_caption, (space, meta), r),
        call_ensures(visual_space_label, (space,), word),
        meta matches Some(known) ==> (known.projection matches Some(projection) ==> call_ensures(
            projection_label,
            (projection,),
            how,
        )),
        meta matches Some(known) ==> (known.projection is None ==> how@ == "centre scanline"@),
    ensures
        word@ == if space == UiVisualSpace::OneD {
            "1D"@
        } else {
            "2D"@
        },
        meta is None ==> r@ == word@,
        meta matches Some(known) ==> (known.space == known.primary ==> r@ == "native · "@ + word@),
        meta matches Some(known) ==> (known.space != known.primary ==> r@ == match known.origin {
            Some(UiProjectionOrigin::Declared) => "in "@ + word@ + " · "@ + how@ + " (declared)"@,
            Some(UiProjectionOrigin::Forced) => "in "@ + word@ + " · "@ + how@ + " (forced)"@,
            None => "in "@ + word@ + " · "@ + how@,
        }),
{
    reveal_strlit(" (");
    reveal_strlit(")");
    reveal_strlit("declared");
    reveal_strlit("forced");
    reveal_strlit(" (declared)");
    reveal_strlit(" (forced)");
    assert(" ("@ + "declared"@ + ")"@ =~= " (declared)"@);
    assert(" ("@ + "forced"@ + ")"@ =~= " (forced)"@);
    let head = "in "@ + word@ + " · "@ + how@;
    assert(head + Seq::<char>::empty() =~= head);
}

/// The line on a section says where a shader renders, and of a fixture whether it
/// runs along the wire, follows its sources or overrides them.
pub proof fn the_hint_says_who_decides(section: &UiSpaceSection, r: &'static str)
    requires
        call_ensures(primary_hint, (section,), r),
    ensures
        section.side == UiSpaceSide::Producer ==> r@ == if section.declared_space == Some(
            UiVisualSpace::OneD,
        ) {
            "This shader renders along a strip."@
        } else {
            "This shader renders in texture space."@
        },
        section.side == UiSpaceSide::Consumer ==> r@ == if section.primary.active@
            == "AlongWire"@ {
            "1D patterns run along the wire order — the map doesn't apply."@
        } else if section.primary.active@ == "Auto"@ {
            "1D sources project the way they declare."@
        } else {
            "This fixture overrides what 1D sources declare."@
        },
{
    the_variants_by_name();
}

/// A shader that answers in 2D says that a fixture may win over it; nobody else says
/// that anybody does.
pub proof fn only_a_shaders_answer_can_lose(
    section: &UiSpaceSection,
    answer: Option<&UiSpaceCell>,
    r: Option<&'static str>,
)
    requires
        call_ensures(ladder_line, (section,), r),
        call_ensures(UiSpaceSection::cell, (section, UiSpaceCellRole::ProducerIn2d), answer),
    ensures
        r is Some <==> section.side == UiSpaceSide::Producer && answer is Some,
        r matches Some(line) ==> line@ == "A fixture that overrides its 1D sources wins over this."@,
{
}

/// The summary says a shader's space and how it shows in the other one, and how a
/// fixture shows strips.
pub proof fn the_summary_says_the_choice(
    section: &UiSpaceSection,
    in_2d: Option<&UiSpaceCell>,
    in_1d: Option<&UiSpaceCell>,
    active: String,
    suffix: String,
    r: String,
)
    requires
        call_ensures(space_section_summary, (section,), r),
        call_ensures(UiSpaceSection::cell, (section, UiSpaceCellRole::ProducerIn2d), in_2d),
        call_ensures(UiSpaceSection::cell, (section, UiSpaceCellRole::ProducerIn1d), in_1d),
        section.side == UiSpaceSide::Producer ==> (in_2d matches Some(cell) ==> call_ensures(
            active_variant_label,
            (section.side, cell),
            active,
        ) && call_ensures(modifier_suffix, (cell,), suffix)),
        section.side == UiSpaceSide::Consumer ==> call_ensures(
            active_variant_label,
            (section.side, &section.primary),
            active,
        ) && call_ensures(modifier_suffix, (&section.primary,), suffix),
    ensures
        section.side == UiSpaceSide::Producer ==> ({
            let space = match section.declared_space {
                Some(UiVisualSpace::OneD) => "1D"@,
                Some(UiVisualSpace::TwoD) => "2D"@,
                None => Seq::<char>::empty(),
            };
            r@ == if in_2d is Some {
                space + " · in 2D: "@ + active@ + suffix@
            } else if in_1d is Some {
                space + " · in 1D: centre scanline"@
            } else {
                space
            }
        }),
        section.side == UiSpaceSide::Consumer ==> r@ == if section.primary.active@
            == "AlongWire"@ {
            "along the wire"@ + suffix@
        } else if section.primary.active@ == "Auto"@ {
            "follow the source"@
        } else {
            "1D sources: "@ + active@ + suffix@ + " (override)"@
        },
{
    the_variants_by_name();
    reveal_strlit("");
    assert(""@ =~= Seq::<char>::empty());
    reveal_strlit(" · in 1D: ");
    reveal_strlit("centre scanline");
    reveal_strlit(" · in 1D: centre scanline");
    assert(" · in 1D: "@ + "centre scanline"@ =~= " · in 1D: centre scanline"@);
    let space = match section.declared_space {
        Some(UiVisualSpace::OneD) => "1D"@,
        Some(UiVisualSpace::TwoD) => "2D"@,
        None => Seq::<char>::empty(),
    };
    assert(space + " · in 1D: "@ + "centre scanline"@ =~= space + " · in 1D: centre scanline"@);
}

/// A mismatch names what was declared and what the code has.
pub proof fn a_mismatch_names_both_sides(mismatch: &UiSpaceMismatch, r: String)
    requires
        call_ensures(mismatch_line, (mismatch,), r),
    ensures
        r@ == (if mismatch.declared == UiVisualSpace::OneD {
            "declared 1D · the code defines "@
        } else {
            "declared 2D · the code defines "@
        }) + (if mismatch.entry == UiVisualSpace::OneD {
            "render_1d"@
        } else {
            "render_2d"@
        }),
{
    reveal_strlit("declared ");
    reveal_strlit("1D");
    reveal_strlit("2D");
    reveal_strlit(" · the code defines ");
    reveal_strlit("declared 1D · the code defines ");
    reveal_strlit("declared 2D · the code defines ");
    assert("declared "@ + "1D"@ + " · the code defines "@ =~= "declared 1D · the code defines "@);
    assert("declared "@ + "2D"@ + " · the code defines "@ =~= "declared 2D · the code defines "@);
}

/// A row is labelled by the space it answers for, and a fixture's own by the strips
/// it shows.
pub proof fn a_row_is_labelled_by_what_it_answers(
    side: UiSpaceSide,
    role: UiSpaceCellRole,
    r: &'static str,
)
    requires
        call_ensures(cell_label, (side, role), r),
    ensures
        role == UiSpaceCellRole::ProducerIn2d ==> r@ == "show in 2D by"@,
        role == UiSpaceCellRole::ProducerIn1d ==> r@ == "show in 1D by"@,
        role == UiSpaceCellRole::Primary ==> r@ == "show 1D sources by"@,
{
}

/// Every choice with a picture of its own has a line of its own, and an unknown one
/// has none.
pub proof fn a_choice_is_explained(role: UiSpaceCellRole, variant: &str, r: &'static str)
    requires
        call_ensures(choice_hint, (role, variant), r),
    ensures
        variant@ == "Auto"@ ==> r@ == "each source projects the way it declares"@,
        variant@ == "AlongWire"@ ==> r@ == "run in wire order — the map doesn't apply"@,
        variant@ == "ExtrudeX"@ ==> r@ == "the strip, stretched down"@,
        variant@ == "ExtrudeY"@ ==> r@ == "the strip, stretched across"@,
        variant@ == "Radial"@ ==> r@ == "the strip, out from the centre"@,
        variant@ == "Angular"@ ==> r@ == "the strip, swept around"@,
        variant@ == "Default"@ && role == UiSpaceCellRole::ProducerIn1d ==> r@
            == "the texture's centre row, read as a strip"@,
        r@.len() > 0 ==> named_shape(variant@) is Some || variant@ == "Auto"@ || variant@
            == "AlongWire"@ || variant@ == "Default"@ && role == UiSpaceCellRole::ProducerIn1d,
{
    the_variants_by_name();
    reveal_strlit("");
}

// -- the shape question --------------------------------------------------------------

/// The action writes a size in pixels to the slot.
pub open spec fn writes_size(
    action: UiAction,
    slot: ProjectSlotAddress,
    width: u32,
    height: u32,
) -> bool {
    action matches UiAction::SetValue { address, value } && address@ == slot@ && (value
        matches LpValue::Struct { name, fields } && (name matches Some(name) && name@ == "Dim2u"@)
        && fields@.len() == 2 && fields@[0].0@ == "width"@ && fields@[0].1 == width
        && fields@[1].0@ == "height"@ && fields@[1].1 == height)
}

/// The action puts a card's shape question away.
pub open spec fn puts_the_question_away(action: UiAction, node: Seq<char>) -> bool {
    action matches UiAction::SetShapeGuided { node: own, guided } && own@ == node && !guided
}

/// How many of the slots a plain area fills the fixture has.
pub open spec fn slots_there(presets: UiShapePresets) -> (int, int, int) {
    let strip: int = if presets.strip_order is Some {
        1
    } else {
        0
    };
    let mapping: int = if presets.mapping is Some {
        1
    } else {
        0
    };
    let size: int = if presets.render_size is Some {
        1
    } else {
        0
    };
    (strip, mapping, size)
}

/// The edits make the fixture a plain area: first its strip order means something or
/// not, next it has no map, next its area is this one, each where the fixture has
/// the slot. Last of all the question is put away.
pub open spec fn makes_an_area(
    edits: Seq<UiAction>,
    node: Seq<char>,
    presets: UiShapePresets,
    strip_order: bool,
    width: u32,
    height: u32,
) -> bool {
    let (strip, mapping, size) = slots_there(presets);
    &&& edits.len() == strip + mapping + size + 1
    &&& presets.strip_order matches Some(slot) ==> switches(
        edits[0],
        slot.node@,
        slot.root@,
        slot.path@,
        strip_order,
    )
    &&& presets.mapping matches Some(slot) ==> puts_in(
        edits[strip],
        slot.node@,
        slot.root@,
        slot.path@ + ".Unset"@,
    )
    &&& presets.render_size matches Some(slot) ==> writes_size(
        edits[strip + mapping],
        slot,
        width,
        height,
    )
    &&& puts_the_question_away(edits.last(), node)
}

/// A strip is one row of pixels whose wire order is its layout, and a matrix a
/// square whose wire order is not. A mapped shape writes nothing, since its map is
/// its shape, and all three put the question away. A shape that is not on offer yet
/// sends nothing at all.
pub proof fn a_preset_makes_the_fixture_its_shape(
    preset: ShapePreset,
    node: &str,
    presets: &UiShapePresets,
    strip_pixels: u32,
    edits: Vec<UiAction>,
)
    requires
        call_ensures(shape_preset_actions, (preset, node, presets, strip_pixels), edits),
    ensures
        preset == ShapePreset::Strip ==> makes_an_area(
            edits@,
            node@,
            *presets,
            true,
            strip_pixels,
            1,
        ),
        preset == ShapePreset::Matrix ==> makes_an_area(edits@, node@, *presets, false, 16, 16),
        preset == ShapePreset::MappedShape ==> edits@.len() == 1 && puts_the_question_away(
            edits@[0],
            node@,
        ),
        preset == ShapePreset::ThreeD ==> edits@.len() == 0,
{
    let models = action_models(edits@);
    assert(models.len() == edits@.len());
    if edits@.len() > 0 {
        assert(models[0] == edits@[0]@);
    }
    if edits@.len() > 1 {
        assert(models[1] == edits@[1]@);
    }
    if edits@.len() > 2 {
        assert(models[2] == edits@[2]@);
    }
    if edits@.len() > 3 {
        assert(models[3] == edits@[3]@);
    }
    if let Some(slot) = presets.mapping {
        reveal_strlit(".");
        reveal_strlit("Unset");
        reveal_strlit(".Unset");
        assert(slot@.field("Unset"@).path =~= slot.path@ + ".Unset"@);
    }
    if preset == ShapePreset::Strip || preset == ShapePreset::Matrix {
        let (width, height) = if preset == ShapePreset::Strip {
            (strip_pixels, 1u32)
        } else {
            (16u32, 16u32)
        };
        let (strip, mapping, size) = slots_there(*presets);
        let area = area_edits(*presets, preset == ShapePreset::Strip, width, height);
        assert(area.len() == strip + mapping + size);
        assert(models.last() == edits@.last()@);
        if presets.render_size is Some {
            let action = edits@[strip + mapping];
            assert(models[strip + mapping] == action@);
            let value = action->SetValue_value;
            let fields = value->fields;
            assert(value@->fields == seq![("width"@, width), ("height"@, height)]);
            assert(value@->fields[0] == (fields@[0].0@, fields@[0].1));
            assert(value@->fields[1] == (fields@[1].0@, fields@[1].1));
        }
    }
}

/// Skipping the question puts it away and nothing else.
pub proof fn skipping_only_puts_the_question_away(node: &str, r: UiAction)
    requires
        call_ensures(skip_shape_action, (node,), r),
    ensures
        puts_the_question_away(r, node@),
{
}

/// A plain area can always be answered, a mapped shape where there is a map and an
/// editor for it, which the answer opens, and a volume not yet.
pub proof fn a_tile_can_be_pressed_where_it_answers(
    preset: ShapePreset,
    presets: &UiShapePresets,
    can_open_mapping: bool,
    r: ShapeTile,
)
    requires
        call_ensures(shape_tile, (preset, presets, can_open_mapping), r),
    ensures
        r.preset == preset,
        preset == ShapePreset::Strip || preset == ShapePreset::Matrix ==> r.enabled
            && !r.opens_mapping,
        preset == ShapePreset::MappedShape ==> (r.enabled <==> presets.has_map2d
            && can_open_mapping) && r.opens_mapping == r.enabled,
        preset == ShapePreset::ThreeD ==> !r.enabled && !r.opens_mapping,
        r.class@ == if r.enabled {
            SHAPE_TILE_CLASS@
        } else {
            SHAPE_TILE_INERT_CLASS@
        },
        preset == ShapePreset::Strip ==> r.label@ == "Strip"@ && r.hint@
            == "1D — a line of pixels"@ && r.title@ == r.hint@,
        preset == ShapePreset::Matrix ==> r.label@ == "Matrix"@ && r.hint@
            == "2D — a grid or panel"@ && r.title@ == r.hint@,
        preset == ShapePreset::MappedShape ==> r.label@ == "Mapped shape"@ && r.hint@
            == "a strip placed in space"@ && r.title@ == if r.enabled {
            "open the mapping editor — the map is the shape"@
        } else {
            "needs a map2d mapping document (add one in the advanced drawer)"@
        },
        preset == ShapePreset::ThreeD ==> r.label@ == "3D (soon)"@ && r.hint@
            == "a cube or volume"@ && r.title@ == r.hint@ + " — not yet"@,
{
}

} // verus!
