//! The small answers that the larger ones are made of, said of the calls that give
//! them: names, numbers taken in turn, looks of two states, and the examples' lists.

use vstd::prelude::*;
use vstd::string::*;

use crate::agent_chat::UiAgentHistoryEntry;
use crate::aurora::{
    plasma_one_panel, plasma_read_panel, root_controls, root_panel, three_state_panel,
};
use crate::aurora_cards::{
    held_controls, held_root_face, held_root_view, held_walk, root_module_node_view,
};
use crate::button_face::PressIds;
use crate::clock_face::{starts_anew, sync_traces, TraceCard, UiPhasorReading};
use crate::clock_laws::what_starts_anew_is_painted_at_once;
use crate::control_laws::takes_hold;
use crate::fixture_face::toggle_class;
use crate::module_face::hero_block_class;
use crate::node_view::{
    no_sites, one_site, tracked_preview, two_sites, NodeFaceModel, UiBusChannelPreview,
    UiBusSiteView, UiModuleFace, UiNodeView, UiProductKind,
};
use crate::panel::{SlotValueModel, UiPanelControlState, UiPanelControlView, UiPanelGroup};
use crate::panel_control::{row_gap, ControlIds};
use crate::panel_walk::{HeldControl, PanelWalk};
use crate::pattern_set::{choker_set, twenty_five};
use crate::playlist_face::{UiPlaylistEntry, UiPlaylistFace};
use crate::shape_moment::{dim2u_value, shape_tile_class, ShapePreset};
use crate::sign::{evening_face, history_entries, playlist_entries, playlist_face};
use crate::slot::LpValue;
use crate::space_section::{
    entry_label, origin_label, segment_class, segment_group_class, shape_label,
    space_badge_title, space_variant, tile_class, SpaceVariant, UiCellProjection,
    UiProjectionOrigin, UiProjectionShape, UiSpaceCell, UiVisualSpace,
};
use crate::tape::{tape_px_per_sec, two_digit_text};
use crate::text::{decimal, same_text, white_space};
use crate::text_laws::{blank_is_white_space, is_blank};

verus! {

// -- names ---------------------------------------------------------------------------

/// Every variant is read by its own name, and a name that is none of theirs as no
/// variant that is known.
pub proof fn a_variant_is_read_by_its_name(name: &str, r: SpaceVariant)
    requires
        call_ensures(space_variant, (name,), r),
    ensures
        r == SpaceVariant::OneD <==> name@ == "OneD"@,
        r == SpaceVariant::TwoD <==> name@ == "TwoD"@,
        r == SpaceVariant::Auto <==> name@ == "Auto"@,
        r == SpaceVariant::AlongWire <==> name@ == "AlongWire"@,
        r == SpaceVariant::Default <==> name@ == "Default"@,
        r == SpaceVariant::Shape(UiProjectionShape::ExtrudeX) <==> name@ == "ExtrudeX"@,
        r == SpaceVariant::Shape(UiProjectionShape::ExtrudeY) <==> name@ == "ExtrudeY"@,
        r == SpaceVariant::Shape(UiProjectionShape::Radial) <==> name@ == "Radial"@,
        r == SpaceVariant::Shape(UiProjectionShape::Angular) <==> name@ == "Angular"@,
{
    reveal_strlit("OneD");
    reveal_strlit("TwoD");
    reveal_strlit("Auto");
    reveal_strlit("AlongWire");
    reveal_strlit("Default");
    reveal_strlit("ExtrudeX");
    reveal_strlit("ExtrudeY");
    reveal_strlit("Radial");
    reveal_strlit("Angular");
    assert("OneD"@.len() == 4 && "TwoD"@.len() == 4 && "Auto"@.len() == 4);
    assert("OneD"@[0] == 'O' && "TwoD"@[0] == 'T' && "Auto"@[0] == 'A');
    assert("AlongWire"@.len() == 9 && "Radial"@.len() == 6);
    assert("Default"@.len() == 7 && "Angular"@.len() == 7);
    assert("Default"@[0] == 'D' && "Angular"@[0] == 'A');
    assert("ExtrudeX"@.len() == 8 && "ExtrudeY"@.len() == 8);
    assert("ExtrudeX"@[7] == 'X' && "ExtrudeY"@[7] == 'Y');
}

/// Shapes, entries and deciders each have a word of their own.
pub proof fn each_has_a_word_of_its_own(
    shape: UiProjectionShape,
    shape_word: &'static str,
    space: UiVisualSpace,
    entry: &'static str,
    origin: UiProjectionOrigin,
    decided: &'static str,
    badge: &'static str,
)
    requires
        call_ensures(shape_label, (shape,), shape_word),
        call_ensures(entry_label, (space,), entry),
        call_ensures(origin_label, (origin,), decided),
        call_ensures(space_badge_title, (), badge),
    ensures
        shape == UiProjectionShape::ExtrudeX ==> shape_word@ == "extrude-x"@,
        shape == UiProjectionShape::ExtrudeY ==> shape_word@ == "extrude-y"@,
        shape == UiProjectionShape::Radial ==> shape_word@ == "radial"@,
        shape == UiProjectionShape::Angular ==> shape_word@ == "angular"@,
        space == UiVisualSpace::OneD ==> entry@ == "render_1d"@,
        space == UiVisualSpace::TwoD ==> entry@ == "render_2d"@,
        origin == UiProjectionOrigin::Declared ==> decided@ == "declared"@,
        origin == UiProjectionOrigin::Forced ==> decided@ == "forced"@,
        badge@ == "The space this shader renders in"@,
{
}

/// Every preset has a name and a line of its own.
pub proof fn a_preset_has_a_name_and_a_line(
    preset: ShapePreset,
    label: &'static str,
    hint: &'static str,
)
    requires
        call_ensures(ShapePreset::label, (preset,), label),
        call_ensures(ShapePreset::hint, (preset,), hint),
    ensures
        preset == ShapePreset::Strip ==> label@ == "Strip"@ && hint@ == "1D — a line of pixels"@,
        preset == ShapePreset::Matrix ==> label@ == "Matrix"@ && hint@ == "2D — a grid or panel"@,
        preset == ShapePreset::MappedShape ==> label@ == "Mapped shape"@ && hint@
            == "a strip placed in space"@,
        preset == ShapePreset::ThreeD ==> label@ == "3D (soon)"@ && hint@ == "a cube or volume"@,
{
}

/// A size is a record of its width and its height, in that order.
pub proof fn a_size_is_width_and_height(width: u32, height: u32, r: LpValue)
    requires
        call_ensures(dim2u_value, (width, height), r),
    ensures
        r is Struct,
        r->Struct_name is Some && r->Struct_name->Some_0@ == "Dim2u"@,
        r->Struct_fields@.len() == 2,
        r->Struct_fields@[0].0@ == "width"@ && r->Struct_fields@[0].1 == width,
        r->Struct_fields@[1].0@ == "height"@ && r->Struct_fields@[1].1 == height,
{
    let fields = r->Struct_fields@;
    let models = r@->fields;
    assert(models.len() == fields.len());
    assert(models[0] == (fields[0].0@, fields[0].1));
    assert(models[1] == (fields[1].0@, fields[1].1));
}

/// A plain shape has neither modifier; and a row can be chosen on where it offers more
/// than one choice.
pub proof fn a_plain_shape_has_no_modifier(
    shape: UiProjectionShape,
    r: UiCellProjection,
    cell: &UiSpaceCell,
    choosable: bool,
)
    requires
        call_ensures(UiCellProjection::plain, (shape,), r),
        call_ensures(UiSpaceCell::is_choosable, (cell,), choosable),
    ensures
        r.shape == shape && !r.mirror && !r.flip,
        choosable <==> cell.choices@.len() >= 2,
{
}

/// What is chosen, on, or pressed looks so.
pub proof fn what_is_on_looks_on(
    on: bool,
    group: &'static str,
    segment: &'static str,
    tile: &'static str,
    shape: &'static str,
    toggle: &'static str,
    hero: &'static str,
    gap: &'static str,
)
    requires
        call_ensures(segment_group_class, (on,), group),
        call_ensures(segment_class, (on,), segment),
        call_ensures(tile_class, (on,), tile),
        call_ensures(shape_tile_class, (on,), shape),
        call_ensures(toggle_class, (on,), toggle),
        call_ensures(hero_block_class, (on,), hero),
        call_ensures(row_gap, (on,), gap),
    ensures
        on ==> group@ == crate::space_section::SEGMENTS_MISMATCHED_CLASS@ && segment@
            == crate::space_section::SEGMENT_SELECTED_CLASS@ && tile@
            == crate::space_section::TILE_SELECTED_CLASS@ && shape@
            == crate::shape_moment::SHAPE_TILE_CLASS@ && toggle@
            == "ux-map-toggle ux-map-toggle-on"@ && hero@
            == crate::module_face::HERO_ACTIVE_CLASS@ && gap@ == "tw:gap-6"@,
        !on ==> group@ == crate::space_section::SEGMENTS_CLASS@ && segment@
            == crate::space_section::SEGMENT_CLASS@ && tile@ == crate::space_section::TILE_CLASS@
            && shape@ == crate::shape_moment::SHAPE_TILE_INERT_CLASS@ && toggle@
            == "ux-map-toggle"@ && hero@ == crate::module_face::HERO_IDLE_CLASS@ && gap@
            == "tw:gap-4"@,
{
}

/// Two texts are the same exactly where they are equal, and white space is what the
/// table of blanks lists.
pub proof fn texts_and_blanks_are_told_apart(a: &str, b: &str, same: bool, c: char, white: bool)
    requires
        call_ensures(same_text, (a, b), same),
        call_ensures(white_space, (c,), white),
    ensures
        same <==> a@ == b@,
        white <==> is_blank(c),
{
    blank_is_white_space(c);
}

// -- numbers taken in turn -----------------------------------------------------------

/// Gestures and controls are numbered in turn from one, and over again after the last
/// number there is.
pub proof fn numbers_are_taken_in_turn(
    first: PressIds,
    ids: &mut PressIds,
    id: u32,
    start: ControlIds,
    names: &mut ControlIds,
    name: String,
)
    requires
        call_ensures(PressIds::new, (), first),
        call_ensures(PressIds::next_press_id, (ids,), id),
        call_ensures(ControlIds::new, (), start),
        call_ensures(ControlIds::next_anchor_id, (names,), name),
    ensures
        first.next == 1,
        id == old(ids).next,
        id < u32::MAX ==> final(ids).next == id + 1,
        id == u32::MAX ==> final(ids).next == 0,
        start.next == 1,
        name@ == "ux-module-control-"@ + decimal(old(names).next as nat),
        old(names).next < usize::MAX ==> final(names).next == old(names).next + 1,
        old(names).next == usize::MAX ==> final(names).next == 0,
{
}

/// A number below ten is written with a leading zero, and any other as it is; a second
/// of tape always takes fourteen pixels.
pub proof fn two_digits_lead_with_a_zero(n: u64, r: String, px: u64)
    requires
        call_ensures(two_digit_text, (n,), r),
        call_ensures(tape_px_per_sec, (), px),
    ensures
        n < 10 ==> r@ == "0"@ + decimal(n as nat),
        n >= 10 ==> r@ == decimal(n as nat),
        px == 14 * 1000,
{
}

/// Bringing the traces in step leaves one card for each reading. A trace on the same
/// canvas with nothing new in its reading goes on as it is; every other starts anew
/// from its reading, now, and is listed to be painted.
pub proof fn traces_are_brought_in_step(
    cards: &mut Vec<TraceCard>,
    readings: &Vec<UiPhasorReading>,
    ids: &Vec<String>,
    now: u64,
    r: Vec<usize>,
    i: int,
    same: bool,
)
    requires
        ids@.len() == readings@.len(),
        0 <= i < readings@.len(),
        call_ensures(sync_traces, (cards, readings, ids, now), r),
        i < old(cards)@.len() ==> call_ensures(
            UiPhasorReading::same,
            (&old(cards)@[i].reading, &readings@[i]),
            same,
        ),
    ensures
        final(cards)@.len() == readings@.len(),
        ({
            let goes_on = i < old(cards)@.len() && old(cards)@[i].canvas_id@ == ids@[i]@ && same;
            let after = final(cards)@[i];
            &&& goes_on ==> after == old(cards)@[i] && !r@.contains(i as usize)
            &&& !goes_on ==> after.canvas_id@ == ids@[i]@ && after.reading == readings@[i]
                && after.anchored_at == now && r@.contains(i as usize)
        }),
        forall|a: int, b: int| 0 <= a < b < r@.len() ==> r@[a] < r@[b],
{
    assert(readings.len() == readings@.len());
    what_starts_anew_is_painted_at_once(old(cards)@, ids@, readings@, readings@.len());
    let anew = starts_anew(old(cards)@, ids@, readings@, i);
    assert(anew <==> r@.contains(i as usize));
    assert(final(cards)@[i] == if anew {
        TraceCard { canvas_id: ids@[i], reading: readings@[i], anchored_at: now }
    } else {
        old(cards)@[i]
    });
}

/// Lists of sites hold what they are given, in order, and a channel's picture tracks
/// its product live.
pub proof fn a_list_of_sites_holds_what_it_is_given(
    a: UiBusSiteView,
    b: UiBusSiteView,
    none: Vec<UiBusSiteView>,
    one: Vec<UiBusSiteView>,
    two: Vec<UiBusSiteView>,
    kind: UiProductKind,
    picture: UiBusChannelPreview,
)
    requires
        call_ensures(no_sites, (), none),
        call_ensures(one_site, (a,), one),
        call_ensures(two_sites, (a, b), two),
        call_ensures(tracked_preview, (kind,), picture),
    ensures
        none@.len() == 0,
        crate::node_view::site_models(one@) == seq![a@],
        crate::node_view::site_models(two@) == seq![a@, b@],
        picture.kind == kind && picture.tracking && picture.frame is None,
{
    assert(crate::node_view::site_models(none@).len() == none@.len());
}

// -- the examples' lists -------------------------------------------------------------

/// The root's own controls are its brightness, its speed, its hue, its palette and its
/// mirror, none of them held.
pub proof fn the_root_has_five_controls(r: Vec<UiPanelControlView>)
    requires
        call_ensures(root_controls, (), r),
    ensures
        r@.len() == 5,
        r@[0]@.channel == "brightness"@ && r@[0]@.value == SlotValueModel::F32(0x43480000)
            && r@[0]@.widget is Fader,
        r@[1]@.channel == "speed"@ && r@[1]@.value == SlotValueModel::F32(0x3f1eb852)
            && r@[1]@.live_value == Some("0.62"@),
        r@[2]@.channel == "hue"@ && r@[2]@.value == SlotValueModel::F32(0x3ed1eb85)
            && r@[2]@.live_value == Some("0.41"@),
        r@[3]@.channel == "palette"@ && r@[3]@.value == SlotValueModel::F32(0x40000000),
        r@[4]@.channel == "mirror"@ && r@[4]@.value == SlotValueModel::Bool(false)
            && r@[4]@.widget is Toggle,
        forall|i: int|
            0 <= i < 5 ==> (#[trigger] r@[i])@.state != UiPanelControlState::Engaged
                && r@[i]@.label == r@[i]@.channel,
{
    let models = crate::panel::control_models(r@);
    assert(models.len() == 5);
    assert(models[0] == r@[0]@);
    assert(models[1] == r@[1]@);
    assert(models[2] == r@[2]@);
    assert(models[3] == r@[3]@);
    assert(models[4] == r@[4]@);
}

/// The root's panel is its own controls with each instance's panel below them; the
/// first instance's, turned, holds its speed and nothing else.
pub proof fn the_root_panel_nests_its_instances(
    controls: Vec<UiPanelControlView>,
    one: &str,
    first: UiPanelGroup,
    two: &str,
    second: UiPanelGroup,
    r: UiPanelGroup,
    turned: UiPanelGroup,
)
    requires
        one@ == "/aurora.module/plasma_1.module"@,
        two@ == "/aurora.module/plasma_2.module"@,
        call_ensures(root_controls, (), controls),
        call_ensures(plasma_read_panel, (one,), first),
        call_ensures(plasma_read_panel, (two,), second),
        call_ensures(root_panel, (), r),
        call_ensures(plasma_one_panel, (), turned),
    ensures
        r@.label == "Aurora Sign"@ && r@.scope == "/aurora.module"@,
        r@.controls == crate::panel::control_models(controls@),
        r@.groups == seq![first@, second@],
        turned@.label == first@.label && turned@.scope == first@.scope,
        turned@.controls.len() == 2,
        takes_hold(first@.controls[0], turned@.controls[0]) && turned@.controls[0].value
            == SlotValueModel::F32(0x3f51eb85),
        turned@.controls[1] == first@.controls[1],
{
    reveal_strlit("speed");
    reveal_strlit("hue");
    assert("speed"@.len() != "hue"@.len());
}

/// The panel of states shows each widget in all three states, in turn.
pub proof fn each_widget_stands_in_three_states(r: UiPanelGroup, i: int)
    requires
        call_ensures(three_state_panel, (), r),
        0 <= i < 9,
    ensures
        r@.controls.len() == 9,
        i % 3 == 0 ==> r@.controls[i].state == UiPanelControlState::ReadDefault
            && r@.controls[i].label == "at default"@,
        i % 3 == 1 ==> r@.controls[i].state == UiPanelControlState::ReadFollowing
            && r@.controls[i].label == "following"@ && r@.controls[i].live_value is Some,
        i % 3 == 2 ==> r@.controls[i].state == UiPanelControlState::Engaged
            && r@.controls[i].label == "engaged"@,
        i / 3 == 0 ==> r@.controls[i].widget is Knob,
        i / 3 == 1 ==> r@.controls[i].widget is Toggle,
        i / 3 == 2 ==> r@.controls[i].widget is Fader,
{
}

/// The example at play is the untouched card with its two controls held, seen as a
/// walk, as a card or as a face.
pub proof fn the_example_at_play_is_one(
    held: Vec<HeldControl>,
    card: UiNodeView,
    start: PanelWalk,
    walked: PanelWalk,
    walk: PanelWalk,
    view: UiNodeView,
    face: UiModuleFace,
)
    requires
        call_ensures(held_controls, (), held),
        call_ensures(root_module_node_view, (), card),
        call_ensures(PanelWalk::new, (card,), start),
        call_ensures(PanelWalk::with_held, (start, &held), walked),
        call_ensures(held_walk, (), walk),
        call_ensures(held_root_view, (), view),
        call_ensures(held_root_face, (), face),
    ensures
        held@.len() == 2,
        held@[0].scope@ == "/aurora.module"@ && held@[0].channel@ == "brightness"@
            && held@[0].value == 0x42c00000,
        held@[1].scope@ == "/aurora.module/plasma_1.module"@ && held@[1].channel@ == "speed"@
            && held@[1].value == 0x3f51eb85,
        walk.view@ == walked.view@,
        walk.baseline@ == card@,
        view@ == walk.view@,
        walk.view@.face == Some(NodeFaceModel::Module(face@)),
{
    reveal_with_fuel(crate::panel_walk::with_all_held, 3);
    assert(held@.drop_last().last() == held@[0]);
    assert(held@.drop_last().drop_last().len() == 0);
}

/// The entry reads so.
pub open spec fn reads_as(
    entry: UiPlaylistEntry,
    key: u32,
    name: Seq<char>,
    duration_ms: Option<u64>,
) -> bool {
    &&& entry.key == key
    &&& entry.name@ == name
    &&& entry.duration_ms == duration_ms
    &&& entry.cue == (duration_ms is None)
    &&& entry.has_thumb
}

/// The evening has three timed entries and one that waits for its cue, with the second
/// playing; the module's playlist has two timed ones, with the first.
pub proof fn the_playlists_are_keyed_in_order(
    entries: Vec<UiPlaylistEntry>,
    evening: UiPlaylistFace,
    aurora: UiPlaylistFace,
)
    requires
        call_ensures(playlist_entries, (), entries),
        call_ensures(evening_face, (), evening),
        call_ensures(playlist_face, (), aurora),
    ensures
        entries@.len() == 4,
        reads_as(entries@[0], 0, "Sunrise"@, Some(180_000)),
        reads_as(entries@[1], 1, "Aurora"@, Some(270_000)),
        reads_as(entries@[2], 2, "Embers"@, Some(165_000)),
        reads_as(entries@[3], 3, "Tide"@, None),
        forall|i: int|
            0 <= i < 4 ==> (#[trigger] entries@[i]).selectable && evening.entries@[i].name@
                == entries@[i].name@ && evening.entries@[i].key == entries@[i].key,
        evening.entries@.len() == 4 && evening.active == Some(1u32),
        aurora.entries@.len() == 2 && aurora.active == Some(0u32),
        reads_as(aurora.entries@[0], 0, "Drift"@, Some(180_000)),
        reads_as(aurora.entries@[1], 1, "Whirl"@, Some(240_000)),
        !aurora.entries@[0].selectable && !aurora.entries@[1].selectable,
{
    assert(entries@[0].key == 0 && entries@[1].key == 1 && entries@[2].key == 2 && entries@[3].key
        == 3);
}

/// The session staged three edits in turn; the second broke the shader and has no
/// snapshot.
pub proof fn the_second_edit_broke_the_shader(r: Vec<UiAgentHistoryEntry>, i: int)
    requires
        call_ensures(history_entries, (), r),
        0 <= i < 3,
    ensures
        r@.len() == 3,
        r@[i].turn == i + 1,
        r@[i].engine_ok == Some(i != 1),
        r@[i].thumb is Some <==> i != 1,
        r@[i].note is Some,
        r@[0].note->Some_0@ == "slow the rings down"@,
        r@[1].note->Some_0@ == "add a speed uniform"@,
        r@[2].note->Some_0@ == "warm the palette"@,
{
    assert(r@[0].turn == 1 && r@[1].turn == 2 && r@[2].turn == 3);
    assert(r@[0]@.thumb is Some && r@[2]@.thumb is Some);
    assert(crate::slot::text_opt(r@[0].note) is Some);
    assert(crate::slot::text_opt(r@[1].note) is Some);
    assert(crate::slot::text_opt(r@[2].note) is Some);
}

/// The large set starts with the small one.
pub proof fn the_large_set_starts_with_the_small_one(
    small: Vec<&'static str>,
    large: Vec<&'static str>,
    i: int,
)
    requires
        call_ensures(choker_set, (), small),
        call_ensures(twenty_five, (), large),
        0 <= i < 5,
    ensures
        small@.len() == 5 && large@.len() == 25,
        small@[i]@ == large@[i]@,
        small@[0]@ == "noise_soft"@ && small@[1]@ == "aurora"@ && small@[2]@ == "twinkle"@
            && small@[3]@ == "scanner"@ && small@[4]@ == "fireflies"@,
{
    assert(i == 0 || i == 1 || i == 2 || i == 3 || i == 4);
}

} // verus!
