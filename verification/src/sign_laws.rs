//! What the sign example's card is made of, said of the calls that make it: where its
//! wires start, which pins can drive them, and what its snapshots show.

use vstd::prelude::*;
use vstd::string::*;

use crate::agent_chat::UiProductPreview;
use crate::output_face::{UiOutputBoardFacts, UiOutputChannelRow, UiOutputFace};
use crate::sign::{
    authored_start, claimed_by, gpio_of, history_thumb, output_board_facts, output_channel,
    output_face, output_slot_address, pin_models, resolve_story_slices, usable_pins,
    BoardManifest, BoardPin, PinModel,
};
use crate::slot::ProjectSlotAddress;
use crate::text::decimal;

verus! {

/// The address is of that slot of the sign's output.
pub open spec fn is_output_slot(address: Option<ProjectSlotAddress>, path: Seq<char>) -> bool {
    &&& address matches Some(slot)
    &&& slot@.node == "/fyeah_sign.show/strips.output"@
    &&& slot@.root == "def"@
    &&& slot@.path == path
}

/// A wire on a pin drives that pin, and is written at its own entry of the map: its
/// endpoint always, and its count where it has one.
pub proof fn a_wire_is_written_at_its_own_entry(
    key: u32,
    pin: &str,
    count: Option<u32>,
    r: UiOutputChannelRow,
)
    requires
        call_ensures(output_channel, (key, pin, count), r),
    ensures
        r.key == key,
        r.pin_label@ == pin@,
        r.endpoint_display@ == "ws281x:local:"@ + pin@,
        r.count == count,
        r.resolved_count == count,
        r.gpio is None && r.slice_start is None,
        is_output_slot(
            r.endpoint_address,
            "channels["@ + decimal(key as nat) + "].endpoint"@,
        ),
        r.count_address is Some <==> count is Some,
        count is Some ==> is_output_slot(
            r.count_address,
            "channels["@ + decimal(key as nat) + "].count.some"@,
        ),
{
}

/// The first wire starts the buffer, and every other starts where the one before it
/// ends, as far as that is known; nothing else of a wire changes.
pub proof fn a_wire_starts_where_the_last_one_ends(channels: &mut Vec<UiOutputChannelRow>, i: int)
    requires
        0 <= i < old(channels)@.len(),
        call_ensures(resolve_story_slices, (channels,), ()),
    ensures
        final(channels)@.len() == old(channels)@.len(),
        final(channels)@[0].slice_start == Some(0u32),
        i > 0 ==> {
            let before = final(channels)@[i - 1];
            let here = final(channels)@[i];
            &&& here.slice_start is Some <==> before.slice_start is Some && before.count is Some
            &&& here.slice_start is Some ==> here.slice_start->Some_0 == if
                before.slice_start->Some_0 + before.count->Some_0 > u32::MAX {
                u32::MAX as int
            } else {
                before.slice_start->Some_0 + before.count->Some_0
            }
        },
        final(channels)@[i] == (UiOutputChannelRow {
            slice_start: final(channels)@[i].slice_start,
            ..old(channels)@[i]
        }),
{
    assert(final(channels)@[0].slice_start == authored_start(old(channels)@, 0));
    assert(final(channels)@[i].slice_start == authored_start(old(channels)@, i as nat));
    if i > 0 {
        assert(final(channels)@[i - 1].slice_start == authored_start(
            old(channels)@,
            (i - 1) as nat,
        ));
        assert(final(channels)@[i - 1].count == old(channels)@[i - 1].count);
    }
}

// -- the board's pins ----------------------------------------------------------------

/// The pin can drive a wire: its role lets it, and it has a GPIO.
pub open spec fn can_drive() -> spec_fn(BoardPin) -> bool {
    |pin: BoardPin| pin.output_eligible && pin.gpio is Some
}

proof fn usable_pins_can_drive(pins: Seq<BoardPin>, channels: Seq<UiOutputChannelRow>)
    ensures
        usable_pins(pins, channels).len() == pins.filter(can_drive()).len(),
        forall|i: int|
            0 <= i < pins.filter(can_drive()).len() ==> #[trigger] usable_pins(pins, channels)[i]
                == (PinModel {
                label: pins.filter(can_drive())[i].label@,
                gpio: pins.filter(can_drive())[i].gpio->Some_0,
                assigned_to: claimed_by(channels, pins.filter(can_drive())[i].label@),
            }),
    decreases pins.len(),
{
    reveal(Seq::filter);
    if pins.len() > 0 {
        usable_pins_can_drive(pins.drop_last(), channels);
    }
}

proof fn the_first_claim(channels: Seq<UiOutputChannelRow>, label: Seq<char>, i: int)
    requires
        0 <= i < channels.len(),
        channels[i].pin_label@ == label,
        forall|k: int| 0 <= k < i ==> (#[trigger] channels[k]).pin_label@ != label,
    ensures
        claimed_by(channels, label) == Some(channels[i].key),
    decreases i,
{
    if i > 0 {
        let rest = channels.skip(1);
        assert(rest[i - 1] == channels[i]);
        assert forall|k: int| 0 <= k < i - 1 implies (#[trigger] rest[k]).pin_label@ != label by {
            assert(rest[k] == channels[k + 1]);
        }
        the_first_claim(rest, label, i - 1);
        assert(channels[0].pin_label@ != label);
    }
}

proof fn no_claim(channels: Seq<UiOutputChannelRow>, label: Seq<char>)
    requires
        forall|k: int| 0 <= k < channels.len() ==> (#[trigger] channels[k]).pin_label@ != label,
    ensures
        claimed_by(channels, label) is None,
    decreases channels.len(),
{
    if channels.len() > 0 {
        let rest = channels.skip(1);
        assert forall|k: int| 0 <= k < rest.len() implies (#[trigger] rest[k]).pin_label@
            != label by {
            assert(rest[k] == channels[k + 1]);
        }
        no_claim(rest, label);
        assert(channels[0].pin_label@ != label);
    }
}

/// The card's pins are those of the board that can drive a wire, first those on the
/// rails and behind them the terminals, each in the manifest's order and under its own
/// label and GPIO.
pub proof fn the_cards_pins_are_those_that_can_drive(
    board: &BoardManifest,
    channels: &Vec<UiOutputChannelRow>,
    r: UiOutputBoardFacts,
    i: int,
)
    requires
        call_ensures(output_board_facts, (board, channels), r),
    ensures
        r.board_id@ == board.board_id@,
        r.display_name@ == board.display_name@,
        ({
            let rails = board.pins@.filter(can_drive());
            let terminals = board.terminals@.filter(can_drive());
            &&& r.pins@.len() == rails.len() + terminals.len()
            &&& 0 <= i < rails.len() ==> r.pins@[i].label@ == rails[i].label@ && r.pins@[i].gpio
                == rails[i].gpio->Some_0
            &&& 0 <= i < terminals.len() ==> r.pins@[rails.len() + i].label@
                == terminals[i].label@ && r.pins@[rails.len() + i].gpio
                == terminals[i].gpio->Some_0
        }),
{
    usable_pins_can_drive(board.pins@, channels@);
    usable_pins_can_drive(board.terminals@, channels@);
    let rails = usable_pins(board.pins@, channels@);
    let terminals = usable_pins(board.terminals@, channels@);
    let models = pin_models(r.pins@);
    assert(models.len() == r.pins@.len());
    if 0 <= i < rails.len() {
        assert(models[i] == rails[i]);
    }
    if 0 <= i < terminals.len() {
        assert(models[rails.len() + i] == terminals[i]);
    }
}

/// A pin is marked with the key of the first wire on it, and with none where no wire
/// is.
pub proof fn a_pin_is_marked_with_its_first_wire(
    board: &BoardManifest,
    channels: &Vec<UiOutputChannelRow>,
    r: UiOutputBoardFacts,
    i: int,
    k: int,
)
    requires
        call_ensures(output_board_facts, (board, channels), r),
        0 <= i < r.pins@.len(),
    ensures
        0 <= k < channels@.len() && channels@[k].pin_label@ == r.pins@[i].label@ && (forall|n: int|
            0 <= n < k ==> (#[trigger] channels@[n]).pin_label@ != r.pins@[i].label@)
            ==> r.pins@[i].assigned_to == Some(channels@[k].key),
        (forall|n: int|
            0 <= n < channels@.len() ==> (#[trigger] channels@[n]).pin_label@
                != r.pins@[i].label@) ==> r.pins@[i].assigned_to is None,
{
    usable_pins_can_drive(board.pins@, channels@);
    usable_pins_can_drive(board.terminals@, channels@);
    let rails = usable_pins(board.pins@, channels@);
    let terminals = usable_pins(board.terminals@, channels@);
    let label = r.pins@[i].label@;
    let model = pin_models(r.pins@)[i];
    assert(pin_models(r.pins@).len() == r.pins@.len());
    assert((rails + terminals).len() == r.pins@.len());
    assert((rails + terminals)[i] == model);
    if i < rails.len() {
        assert(rails[i] == model);
    } else {
        assert(terminals[i - rails.len()] == model);
    }
    assert(model.assigned_to == claimed_by(channels@, label));
    if 0 <= k < channels@.len() && channels@[k].pin_label@ == label && (forall|n: int|
        0 <= n < k ==> (#[trigger] channels@[n]).pin_label@ != label) {
        the_first_claim(channels@, label, k);
    }
    if forall|n: int|
        0 <= n < channels@.len() ==> (#[trigger] channels@[n]).pin_label@ != label {
        no_claim(channels@, label);
    }
}

// -- the face ------------------------------------------------------------------------

proof fn the_first_gpio(pins: Seq<PinModel>, label: Seq<char>, i: int)
    requires
        0 <= i < pins.len(),
        pins[i].label == label,
        forall|k: int| 0 <= k < i ==> (#[trigger] pins[k]).label != label,
    ensures
        gpio_of(pins, label) == Some(pins[i].gpio),
    decreases i,
{
    if i > 0 {
        let rest = pins.skip(1);
        assert(rest[i - 1] == pins[i]);
        assert forall|k: int| 0 <= k < i - 1 implies (#[trigger] rest[k]).label != label by {
            assert(rest[k] == pins[k + 1]);
        }
        the_first_gpio(rest, label, i - 1);
        assert(pins[0].label != label);
    }
}

proof fn no_gpio(pins: Seq<PinModel>, label: Seq<char>)
    requires
        forall|k: int| 0 <= k < pins.len() ==> (#[trigger] pins[k]).label != label,
    ensures
        gpio_of(pins, label) is None,
    decreases pins.len(),
{
    if pins.len() > 0 {
        let rest = pins.skip(1);
        assert forall|k: int| 0 <= k < rest.len() implies (#[trigger] rest[k]).label != label by {
            assert(rest[k] == pins[k + 1]);
        }
        no_gpio(rest, label);
        assert(pins[0].label != label);
    }
}

/// A face's wires lie end to end from the start of the buffer. Once the lamps are
/// counted, a wire that takes the rest gets what lies beyond its start; a wire with a
/// count keeps it, and everything else that was authored stays.
pub proof fn a_faces_wires_lie_end_to_end(
    board: Option<&BoardManifest>,
    channels: Vec<UiOutputChannelRow>,
    total_lamps: Option<u32>,
    span_boundaries: Vec<u32>,
    r: UiOutputFace,
    i: int,
)
    requires
        0 <= i < channels@.len(),
        call_ensures(output_face, (board, channels, total_lamps, span_boundaries), r),
    ensures
        r.channels@.len() == channels@.len(),
        r.total_lamps == total_lamps,
        r.span_boundaries == span_boundaries,
        is_output_slot(r.channels_address, "channels"@),
        r.input_binding is Some && r.input_binding->Some_0@ == "bus:show.control"@,
        r.board is Some <==> board is Some,
        r.channels@[0].slice_start == Some(0u32),
        ({
            let here = r.channels@[i];
            &&& i > 0 && r.channels@[i - 1].slice_start is Some && channels@[i - 1].count is Some
                && r.channels@[i - 1].slice_start->Some_0 + channels@[i - 1].count->Some_0
                <= u32::MAX ==> here.slice_start is Some && here.slice_start->Some_0
                == r.channels@[i - 1].slice_start->Some_0 + channels@[i - 1].count->Some_0
            &&& here.count == channels@[i].count
            &&& here.key == channels@[i].key
            &&& here.pin_label == channels@[i].pin_label
            &&& here.endpoint_display == channels@[i].endpoint_display
            &&& here.endpoint_address == channels@[i].endpoint_address
            &&& here.count_address == channels@[i].count_address
            &&& here.count is Some || total_lamps is None ==> here.resolved_count
                == channels@[i].resolved_count
            &&& here.count is None && total_lamps is Some && here.slice_start is Some
                && here.slice_start->Some_0 <= total_lamps->Some_0 ==> here.resolved_count is Some
                && here.slice_start->Some_0 + here.resolved_count->Some_0 == total_lamps->Some_0
            &&& here.count is None && total_lamps is Some && here.slice_start is Some
                && here.slice_start->Some_0 > total_lamps->Some_0 ==> here.resolved_count == Some(
                0u32,
            )
        }),
{
    assert(r.channels@[0].slice_start == authored_start(channels@, 0));
    assert(r.channels@[i].slice_start == authored_start(channels@, i as nat));
    if i > 0 {
        assert(r.channels@[i - 1].slice_start == authored_start(channels@, (i - 1) as nat));
    }
}

/// On a known board a wire has the GPIO of the first pin under its label, and none
/// where no pin has the label; without a board it keeps what it had.
pub proof fn a_wire_has_its_pins_gpio(
    board: Option<&BoardManifest>,
    channels: Vec<UiOutputChannelRow>,
    total_lamps: Option<u32>,
    span_boundaries: Vec<u32>,
    r: UiOutputFace,
    i: int,
    k: int,
)
    requires
        0 <= i < channels@.len(),
        call_ensures(output_face, (board, channels, total_lamps, span_boundaries), r),
    ensures
        board is None ==> r.channels@[i].gpio == channels@[i].gpio,
        r.board matches Some(facts) ==> {
            let label = channels@[i].pin_label@;
            &&& 0 <= k < facts.pins@.len() && facts.pins@[k].label@ == label && (forall|n: int|
                0 <= n < k ==> (#[trigger] facts.pins@[n]).label@ != label)
                ==> r.channels@[i].gpio == Some(facts.pins@[k].gpio)
            &&& (forall|n: int|
                0 <= n < facts.pins@.len() ==> (#[trigger] facts.pins@[n]).label@ != label)
                ==> r.channels@[i].gpio is None
        },
{
    if let Some(facts) = r.board {
        let label = channels@[i].pin_label@;
        let models = pin_models(facts.pins@);
        assert(r.channels@[i].gpio == gpio_of(models, label));
        if 0 <= k < facts.pins@.len() && facts.pins@[k].label@ == label && (forall|n: int|
            0 <= n < k ==> (#[trigger] facts.pins@[n]).label@ != label) {
            assert forall|n: int| 0 <= n < k implies (#[trigger] models[n]).label != label by {
                assert(facts.pins@[n].label@ != label);
            }
            the_first_gpio(models, label, k);
        }
        if forall|n: int|
            0 <= n < facts.pins@.len() ==> (#[trigger] facts.pins@[n]).label@ != label {
            assert forall|n: int| 0 <= n < models.len() implies (#[trigger] models[n]).label
                != label by {
                assert(facts.pins@[n].label@ != label);
            }
            no_gpio(models, label);
        }
    }
}

/// The face's board is the one given, and its pins are marked as the face's own wires
/// claim them.
pub proof fn the_faces_pins_are_marked_by_its_wires(
    board: &BoardManifest,
    channels: Vec<UiOutputChannelRow>,
    total_lamps: Option<u32>,
    span_boundaries: Vec<u32>,
    r: UiOutputFace,
    facts: UiOutputBoardFacts,
    i: int,
)
    requires
        call_ensures(output_face, (Some(board), channels, total_lamps, span_boundaries), r),
        call_ensures(output_board_facts, (board, &r.channels), facts),
        0 <= i < facts.pins@.len(),
    ensures
        r.board is Some,
        r.board->Some_0.board_id@ == facts.board_id@,
        r.board->Some_0.display_name@ == facts.display_name@,
        r.board->Some_0.pins@.len() == facts.pins@.len(),
        r.board->Some_0.pins@[i].label@ == facts.pins@[i].label@,
        r.board->Some_0.pins@[i].gpio == facts.pins@[i].gpio,
        r.board->Some_0.pins@[i].assigned_to == facts.pins@[i].assigned_to,
{
    let known = r.board->Some_0;
    assert(pin_models(known.pins@) == pin_models(facts.pins@));
    assert(pin_models(known.pins@).len() == known.pins@.len());
    assert(pin_models(facts.pins@).len() == facts.pins@.len());
    assert(pin_models(known.pins@)[i] == pin_models(facts.pins@)[i]);
}

/// Counting the lamps gives a wire that takes the rest what lies beyond its start, and
/// changes nothing else of any wire or of the face.
pub proof fn counting_the_lamps_gives_the_rest(face: &mut UiOutputFace, total: u32, i: int)
    requires
        0 <= i < old(face).channels@.len(),
        call_ensures(UiOutputFace::resolve_extent, (face, total), ()),
    ensures
        final(face).total_lamps == Some(total),
        final(face).board == old(face).board,
        final(face).channels_address == old(face).channels_address,
        final(face).span_boundaries == old(face).span_boundaries,
        final(face).input_binding == old(face).input_binding,
        final(face).channels@.len() == old(face).channels@.len(),
        ({
            let before = old(face).channels@[i];
            let after = final(face).channels@[i];
            &&& after == (UiOutputChannelRow { resolved_count: after.resolved_count, ..before })
            &&& before.count is Some || before.slice_start is None ==> after.resolved_count
                == before.resolved_count
            &&& before.count is None && before.slice_start is Some && before.slice_start->Some_0
                <= total ==> after.resolved_count is Some && before.slice_start->Some_0
                + after.resolved_count->Some_0 == total
            &&& before.count is None && before.slice_start is Some && before.slice_start->Some_0
                > total ==> after.resolved_count == Some(0u32)
        }),
{
    assert(final(face).channels@[i].key == old(face).channels@[i].key);
}

// -- the snapshots -------------------------------------------------------------------

/// A snapshot is 32 texels by 32, three bytes each, in bands along the diagonals: a
/// band is eight texels wide, and its red rises, its green falls and its blue rises
/// from one band to the next, all wrapping around at a byte.
pub proof fn a_snapshot_is_banded_along_its_diagonals(
    seed: u8,
    r: UiProductPreview,
    x: int,
    y: int,
    band: int,
)
    requires
        call_ensures(history_thumb, (seed,), r),
        0 <= x < 32,
        0 <= y < 32,
        8 * band <= x + y < 8 * band + 8,
    ensures
        r is VisualSrgb8,
        r->VisualSrgb8_width == 32 && r->VisualSrgb8_height == 32,
        r->VisualSrgb8_revision == seed,
        r->VisualSrgb8_bytes@.len() == 32 * 32 * 3,
        r->VisualSrgb8_bytes@[3 * (32 * y + x)] == (40 + 70 * seed + 18 * band) % 256,
        r->VisualSrgb8_bytes@[3 * (32 * y + x) + 1] == (180 - 50 * seed - 12 * band) % 256,
        r->VisualSrgb8_bytes@[3 * (32 * y + x) + 2] == (90 + 24 * band) % 256,
{
    let texel = 32 * y + x;
    assert(texel / 32 == y && texel % 32 == x);
    assert((3 * texel) / 3 == texel && (3 * texel) % 3 == 0);
    assert((3 * texel + 1) / 3 == texel && (3 * texel + 1) % 3 == 1);
    assert((3 * texel + 2) / 3 == texel && (3 * texel + 2) % 3 == 2);
    assert((x + y) / 8 == band);
}

/// A slot's address is of the output's definition.
pub proof fn an_output_slot_is_of_the_output(path: &str, r: ProjectSlotAddress)
    requires
        call_ensures(output_slot_address, (path,), r),
    ensures
        is_output_slot(Some(r), path@),
{
}

} // verus!
