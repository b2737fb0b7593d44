//! The sign example's output card, its evening playlist, and the edits of an agent
//! session on its shader.

use vstd::prelude::*;
use vstd::string::*;

use crate::agent_chat::{PreviewModel, UiAgentHistoryEntry, UiProductPreview};
use crate::output_face::{
    resolved_row, UiOutputBoardFacts, UiOutputChannelRow, UiOutputFace, UiOutputPin,
};
use crate::panel::address_opt;
use crate::playlist_face::{UiPlaylistEntry, UiPlaylistFace};
use crate::slot::{text_opt, ProjectSlotAddress, SlotAddressView};
use crate::text::{decimal, decimal_text};

verus! {

/// The output card's node.
pub const OUTPUT_NODE_PATH: &'static str = "/fyeah_sign.show/strips.output";

/// A slot of the output card.
pub open spec fn output_slot(path: Seq<char>) -> SlotAddressView {
    SlotAddressView { node: OUTPUT_NODE_PATH@, root: "def"@, path }
}

/// A slot of the output card.
pub fn output_slot_address(path: &str) -> (r: ProjectSlotAddress)
    ensures
        r@ == output_slot(path@),
{
    ProjectSlotAddress::new(OUTPUT_NODE_PATH, "def", path)
}

/// One wire on a pin, of which nothing but its authored form is known.
pub open spec fn is_authored_wire(
    row: UiOutputChannelRow,
    key: u32,
    pin: Seq<char>,
    count: Option<u32>,
) -> bool {
    &&& row.key == key
    &&& row.endpoint_display@ == "ws281x:local:"@ + pin
    &&& row.pin_label@ == pin
    &&& row.gpio is None
    &&& row.count == count
    &&& row.resolved_count == count
    &&& row.slice_start is None
    &&& address_opt(row.endpoint_address) == Some(
        output_slot("channels["@ + decimal(key as nat) + "].endpoint"@),
    )
    &&& address_opt(row.count_address) == if count is Some {
        Some(output_slot("channels["@ + decimal(key as nat) + "].count.some"@))
    } else {
        None
    }
}

/// One wire on a pin. One without a count has no count to write to either.
pub fn output_channel(key: u32, pin: &str, count: Option<u32>) -> (r: UiOutputChannelRow)
    ensures
        is_authored_wire(r, key, pin@, count),
{
    let mut endpoint_display: String = "ws281x:local:".to_string();
    endpoint_display.append(pin);
    let mut endpoint_path: String = "channels[".to_string();
    endpoint_path.append(decimal_text(key as u64).as_str());
    let mut count_path: String = endpoint_path.clone();
    endpoint_path.append("].endpoint");
    count_path.append("].count.some");
    UiOutputChannelRow {
        key,
        endpoint_display,
        pin_label: pin.to_string(),
        count,
        resolved_count: count,
        slice_start: None,
        gpio: None,
        endpoint_address: Some(output_slot_address(endpoint_path.as_str())),
        count_address: match count {
            Some(_) => Some(output_slot_address(count_path.as_str())),
            None => None,
        },
    }
}

/// Where the wire at `at` starts in the buffer: behind the wires before it, as
/// long as each of them has a count.
pub open spec fn authored_start(channels: Seq<UiOutputChannelRow>, at: nat) -> Option<u32>
    decreases at,
{
    if at == 0 {
        Some(0u32)
    } else {
        match (authored_start(channels, (at - 1) as nat), channels[at - 1].count) {
            (Some(start), Some(count)) => Some(
                if start + count > u32::MAX {
                    u32::MAX
                } else {
                    (start + count) as u32
                },
            ),
            _ => None,
        }
    }
}

/// Gives each wire the place where it starts.
pub fn resolve_story_slices(channels: &mut Vec<UiOutputChannelRow>)
    ensures
        final(channels)@.len() == old(channels)@.len(),
        forall|i: int|
            0 <= i < old(channels)@.len() ==> (#[trigger] final(channels)@[i]) == (
            UiOutputChannelRow {
                slice_start: authored_start(old(channels)@, i as nat),
                ..old(channels)@[i]
            }),
{
    let ghost before = channels@;
    let len: usize = channels.len();
    let mut start: Option<u32> = Some(0);
    let mut at: usize = 0;
    while at < len
        invariant
            at <= len,
            len == channels@.len(),
            len == before.len(),
            start == authored_start(before, at as nat),
            forall|i: int|
                0 <= i < at ==> (#[trigger] channels@[i]) == (UiOutputChannelRow {
                    slice_start: authored_start(before, i as nat),
                    ..before[i]
                }),
            forall|i: int| at <= i < len ==> channels@[i] == before[i],
        decreases len - at,
    {
        let row: &mut UiOutputChannelRow = &mut channels[at];
        row.slice_start = start;
        start = match (start, row.count) {
            (Some(from), Some(count)) => Some(from.saturating_add(count)),
            _ => None,
        };
        at += 1;
    }
}

/// The slices lie end to end: where two neighbouring wires both have a place,
/// the second starts where the first ends.
pub proof fn slices_lie_end_to_end(channels: Seq<UiOutputChannelRow>, at: nat)
    requires
        at + 1 < channels.len(),
        authored_start(channels, at + 1) matches Some(end) && end < u32::MAX,
    ensures
        authored_start(channels, at) is Some,
        channels[at as int].count is Some,
        authored_start(channels, at + 1)->0 == authored_start(channels, at)->0
            + channels[at as int].count->0,
{
}

/// A pin or a terminal as a board's manifest lists it.
#[derive(Clone, Debug, PartialEq, Eq)]
pub struct BoardPin {
    pub label: String,
    /// Its role lets it drive an output.
    pub output_eligible: bool,
    pub gpio: Option<u32>,
}

/// What a board's manifest says of its pins: those on its rails and, apart from
/// them, its screw terminals.
#[derive(Clone, Debug, PartialEq, Eq)]
pub struct BoardManifest {
    pub board_id: String,
    pub display_name: String,
    pub pins: Vec<BoardPin>,
    pub terminals: Vec<BoardPin>,
}

/// The key of the first wire on a pin.
pub open spec fn claimed_by(channels: Seq<UiOutputChannelRow>, label: Seq<char>) -> Option<u32>
    decreases channels.len(),
{
    if channels.len() == 0 {
        None
    } else if channels[0].pin_label@ == label {
        Some(channels[0].key)
    } else {
        claimed_by(channels.skip(1), label)
    }
}

fn find_claim(channels: &Vec<UiOutputChannelRow>, label: &String) -> (r: Option<u32>)
    ensures
        r == claimed_by(channels@, label@),
{
    let mut at: usize = 0;
    proof {
        assert(channels@.skip(0) =~= channels@);
    }
    while at < channels.len()
        invariant
            at <= channels@.len(),
            claimed_by(channels@.skip(at as int), label@) == claimed_by(channels@, label@),
        decreases channels.len() - at,
    {
        if channels[at].pin_label == *label {
            return Some(channels[at].key);
        }
        proof {
            assert(channels@.skip(at as int).skip(1) =~= channels@.skip(at + 1));
        }
        at += 1;
    }
    None
}

/// What a pin that can drive a wire says.
pub struct PinModel {
    pub label: Seq<char>,
    pub gpio: u32,
    pub assigned_to: Option<u32>,
}

/// What each pin of a list says.
pub open spec fn pin_models(pins: Seq<UiOutputPin>) -> Seq<PinModel> {
    Seq::new(
        pins.len(),
        |i: int|
            PinModel {
                label: pins[i].label@,
                gpio: pins[i].gpio,
                assigned_to: pins[i].assigned_to,
            },
    )
}

/// The pins of a list that can drive a wire, in order, with the wires that claim
/// them.
pub open spec fn usable_pins(
    pins: Seq<BoardPin>,
    channels: Seq<UiOutputChannelRow>,
) -> Seq<PinModel>
    decreases pins.len(),
{
    if pins.len() == 0 {
        Seq::empty()
    } else {
        let before = usable_pins(pins.drop_last(), channels);
        let pin = pins.last();
        match pin.gpio {
            Some(gpio) => if pin.output_eligible {
                before.push(
                    PinModel {
                        label: pin.label@,
                        gpio,
                        assigned_to: claimed_by(channels, pin.label@),
                    },
                )
            } else {
                before
            },
            None => before,
        }
    }
}

fn add_usable_pins(
    out: &mut Vec<UiOutputPin>,
    pins: &Vec<BoardPin>,
    channels: &Vec<UiOutputChannelRow>,
)
    ensures
        pin_models(final(out)@) == pin_models(old(out)@) + usable_pins(pins@, channels@),
{
    let ghost before = pin_models(out@);
    let mut at: usize = 0;
    proof {
        assert(before + usable_pins(pins@.take(0), channels@) =~= before);
    }
    while at < pins.len()
        invariant
            at <= pins@.len(),
            pin_models(out@) == before + usable_pins(pins@.take(at as int), channels@),
        decreases pins.len() - at,
    {
        proof {
            assert(pins@.take(at + 1).drop_last() =~= pins@.take(at as int));
            assert(pins@.take(at + 1).last() == pins@[at as int]);
        }
        let pin: &BoardPin = &pins[at];
        match pin.gpio {
            Some(gpio) => {
                if pin.output_eligible {
                    let ghost sofar = out@;
                    out.push(
                        UiOutputPin {
                            label: pin.label.clone(),
                            gpio,
                            assigned_to: find_claim(channels, &pin.label),
                        },
                    );
                    proof {
                        assert(pin_models(out@) =~= pin_models(sofar).push(
                            PinModel {
                                label: pin.label@,
                                gpio,
                                assigned_to: claimed_by(channels@, pin.label@),
                            },
                        ));
                        assert(pin_models(out@) =~= before + usable_pins(
                            pins@.take(at + 1),
                            channels@,
                        ));
                    }
                }
            },
            None => {},
        }
        at += 1;
    }
    proof {
        assert(pins@.take(at as int) =~= pins@);
    }
}

/// What the card knows of its board: every pin that can drive a wire, on the
/// rails and among the terminals.
pub fn output_board_facts(board: &BoardManifest, channels: &Vec<UiOutputChannelRow>) -> (r:
    UiOutputBoardFacts)
    ensures
        r.board_id@ == board.board_id@,
        r.display_name@ == board.display_name@,
        pin_models(r.pins@) == usable_pins(board.pins@, channels@) + usable_pins(
            board.terminals@,
            channels@,
        ),
{
    let mut pins: Vec<UiOutputPin> = Vec::new();
    proof {
        assert(pin_models(pins@) =~= Seq::<PinModel>::empty());
    }
    add_usable_pins(&mut pins, &board.pins, channels);
    proof {
        assert(pin_models(pins@) =~= usable_pins(board.pins@, channels@));
    }
    add_usable_pins(&mut pins, &board.terminals, channels);
    UiOutputBoardFacts {
        board_id: board.board_id.clone(),
        display_name: board.display_name.clone(),
        pins,
    }
}

/// The GPIO behind the first pin with a label.
pub open spec fn gpio_of(pins: Seq<PinModel>, label: Seq<char>) -> Option<u32>
    decreases pins.len(),
{
    if pins.len() == 0 {
        None
    } else if pins[0].label == label {
        Some(pins[0].gpio)
    } else {
        gpio_of(pins.skip(1), label)
    }
}

fn find_gpio(pins: &Vec<UiOutputPin>, label: &String) -> (r: Option<u32>)
    ensures
        r == gpio_of(pin_models(pins@), label@),
{
    let ghost all = pin_models(pins@);
    let mut at: usize = 0;
    proof {
        assert(all.skip(0) =~= all);
    }
    while at < pins.len()
        invariant
            at <= pins@.len(),
            all == pin_models(pins@),
            gpio_of(all.skip(at as int), label@) == gpio_of(all, label@),
        decreases pins.len() - at,
    {
        if pins[at].label == *label {
            return Some(pins[at].gpio);
        }
        proof {
            assert(all.skip(at as int).skip(1) =~= all.skip(at + 1));
        }
        at += 1;
    }
    None
}

/// The wire at `at` of a complete face, before the lamps are counted.
pub open spec fn placed_wire(
    channels: Seq<UiOutputChannelRow>,
    board: Option<UiOutputBoardFacts>,
    at: int,
) -> UiOutputChannelRow {
    UiOutputChannelRow {
        slice_start: authored_start(channels, at as nat),
        gpio: match board {
            Some(board) => gpio_of(pin_models(board.pins@), channels[at].pin_label@),
            None => channels[at].gpio,
        },
        ..channels[at]
    }
}

/// A complete face: the wires' slices from their counts, the board's pins and the
/// GPIO of each wire, and the lamps that arrive resolving what takes the rest.
pub fn output_face(
    board: Option<&BoardManifest>,
    channels: Vec<UiOutputChannelRow>,
    total_lamps: Option<u32>,
    span_boundaries: Vec<u32>,
) -> (r: UiOutputFace)
    ensures
        match board {
            Some(board) => {
                &&& r.board matches Some(facts)
                &&& facts.board_id@ == board.board_id@
                &&& facts.display_name@ == board.display_name@
                &&& pin_models(facts.pins@) == usable_pins(board.pins@, r.channels@)
                    + usable_pins(board.terminals@, r.channels@)
            },
            None => r.board is None,
        },
        r.channels@.len() == channels@.len(),
        forall|i: int|
            0 <= i < channels@.len() ==> (#[trigger] r.channels@[i]) == match total_lamps {
                Some(total) => UiOutputChannelRow {
                    resolved_count: resolved_row(placed_wire(channels@, r.board, i), total),
                    ..placed_wire(channels@, r.board, i)
                },
                None => placed_wire(channels@, r.board, i),
            },
        address_opt(r.channels_address) == Some(output_slot("channels"@)),
        r.total_lamps == total_lamps,
        r.span_boundaries == span_boundaries,
        text_opt(r.input_binding) == Some("bus:show.control"@),
{
    let ghost authored = channels@;
    let mut channels = channels;
    resolve_story_slices(&mut channels);
    let facts: Option<UiOutputBoardFacts> = match board {
        Some(board) => Some(output_board_facts(board, &channels)),
        None => None,
    };
    let ghost sliced = channels@;
    let len: usize = channels.len();
    if let Some(known) = &facts {
        let mut at: usize = 0;
        while at < len
            invariant
                at <= len,
                len == channels@.len(),
                len == sliced.len(),
                forall|i: int|
                    0 <= i < at ==> (#[trigger] channels@[i]) == (UiOutputChannelRow {
                        gpio: gpio_of(pin_models(known.pins@), sliced[i].pin_label@),
                        ..sliced[i]
                    }),
                forall|i: int| at <= i < len ==> channels@[i] == sliced[i],
            decreases len - at,
        {
            let gpio: Option<u32> = find_gpio(&known.pins, &channels[at].pin_label);
            let row: &mut UiOutputChannelRow = &mut channels[at];
            row.gpio = gpio;
            at += 1;
        }
    }
    let ghost placed = channels@;
    proof {
        assert forall|i: int| 0 <= i < authored.len() implies #[trigger] placed[i] == placed_wire(
            authored,
            facts,
            i,
        ) by {
            assert(sliced[i] == (UiOutputChannelRow {
                slice_start: authored_start(authored, i as nat),
                ..authored[i]
            }));
        }
    }
    let mut face: UiOutputFace = UiOutputFace {
        board: facts,
        channels,
        channels_address: Some(output_slot_address("channels")),
        total_lamps: None,
        span_boundaries,
        input_binding: Some("bus:show.control".to_string()),
    };
    if let Some(total) = total_lamps {
        face.resolve_extent(total);
    }
    proof {
        assert forall|i: int| 0 <= i < authored.len() implies face.channels@[i].pin_label
            == sliced[i].pin_label && face.channels@[i].key == sliced[i].key by {
            assert(placed[i] == placed_wire(authored, facts, i));
        }
        claims_depend_on_labels(sliced, face.channels@);
        if let Some(board) = board {
            usable_pins_depend_on_labels(board.pins@, sliced, face.channels@);
            usable_pins_depend_on_labels(board.terminals@, sliced, face.channels@);
        }
    }
    face
}

proof fn claims_depend_on_labels(a: Seq<UiOutputChannelRow>, b: Seq<UiOutputChannelRow>)
    requires
        a.len() == b.len(),
        forall|i: int|
            0 <= i < a.len() ==> (#[trigger] a[i]).pin_label == b[i].pin_label && a[i].key
                == b[i].key,
    ensures
        forall|label: Seq<char>| claimed_by(a, label) == claimed_by(b, label),
    decreases a.len(),
{
    if a.len() > 0 {
        let x = a.skip(1);
        let y = b.skip(1);
        assert forall|i: int| 0 <= i < x.len() implies (#[trigger] x[i]).pin_label == y[i].pin_label
            && x[i].key == y[i].key by {
            assert(x[i] == a[i + 1]);
            assert(y[i] == b[i + 1]);
        }
        claims_depend_on_labels(x, y);
        assert forall|label: Seq<char>| claimed_by(a, label) == claimed_by(b, label) by {
            assert(claimed_by(x, label) == claimed_by(y, label));
            assert(a[0].pin_label == b[0].pin_label);
        }
    }
}

proof fn usable_pins_depend_on_labels(
    pins: Seq<BoardPin>,
    a: Seq<UiOutputChannelRow>,
    b: Seq<UiOutputChannelRow>,
)
    requires
        forall|label: Seq<char>| claimed_by(a, label) == claimed_by(b, label),
    ensures
        usable_pins(pins, a) == usable_pins(pins, b),
    decreases pins.len(),
{
    if pins.len() > 0 {
        usable_pins_depend_on_labels(pins.drop_last(), a, b);
        assert(claimed_by(a, pins.last().label@) == claimed_by(b, pins.last().label@));
    }
}

/// An entry that reads so.
pub open spec fn is_entry(
    entry: UiPlaylistEntry,
    key: u32,
    name: Seq<char>,
    duration_ms: Option<u64>,
    cue: bool,
    selectable: bool,
) -> bool {
    &&& entry.key == key
    &&& entry.name@ == name
    &&& entry.duration_ms == duration_ms
    &&& entry.cue == cue
    &&& entry.has_thumb
    &&& entry.selectable == selectable
}

fn playlist_entry(
    key: u32,
    name: &str,
    duration_ms: Option<u64>,
    cue: bool,
    selectable: bool,
) -> (r: UiPlaylistEntry)
    ensures
        is_entry(r, key, name@, duration_ms, cue, selectable),
{
    UiPlaylistEntry {
        key,
        name: name.to_string(),
        duration_ms,
        cue,
        has_thumb: true,
        selectable,
    }
}

/// The evening's entries: three timed ones, and one that waits for its cue.
pub fn playlist_entries() -> (r: Vec<UiPlaylistEntry>)
    ensures
        r@.len() == 4,
        is_entry(r@[0], 0, "Sunrise"@, Some(180_000), false, true),
        is_entry(r@[1], 1, "Aurora"@, Some(270_000), false, true),
        is_entry(r@[2], 2, "Embers"@, Some(165_000), false, true),
        is_entry(r@[3], 3, "Tide"@, None, true, true),
{
    let mut entries: Vec<UiPlaylistEntry> = Vec::new();
    entries.push(playlist_entry(0, "Sunrise", Some(180_000), false, true));
    entries.push(playlist_entry(1, "Aurora", Some(270_000), false, true));
    entries.push(playlist_entry(2, "Embers", Some(165_000), false, true));
    entries.push(playlist_entry(3, "Tide", None, true, true));
    entries
}

/// The evening's playlist with its second entry playing.
pub fn evening_face() -> (r: UiPlaylistFace)
    ensures
        r.active == Some(1u32),
        r.entries@.len() == 4,
        is_entry(r.entries@[0], 0, "Sunrise"@, Some(180_000), false, true),
        is_entry(r.entries@[1], 1, "Aurora"@, Some(270_000), false, true),
        is_entry(r.entries@[2], 2, "Embers"@, Some(165_000), false, true),
        is_entry(r.entries@[3], 3, "Tide"@, None, true, true),
{
    UiPlaylistFace { entries: playlist_entries(), active: Some(1) }
}

/// The aurora module's playlist of two entries, with the first playing.
pub fn playlist_face() -> (r: UiPlaylistFace)
    ensures
        r.active == Some(0u32),
        r.entries@.len() == 2,
        is_entry(r.entries@[0], 0, "Drift"@, Some(180_000), false, false),
        is_entry(r.entries@[1], 1, "Whirl"@, Some(240_000), false, false),
{
    let mut entries: Vec<UiPlaylistEntry> = Vec::new();
    entries.push(playlist_entry(0, "Drift", Some(180_000), false, false));
    entries.push(playlist_entry(1, "Whirl", Some(240_000), false, false));
    UiPlaylistFace { entries, active: Some(0) }
}

/// One channel of one texel of a snapshot: the bands run along the diagonals,
/// and `seed` shifts their colours. Everything wraps at 256.
pub open spec fn thumb_byte(seed: u8, at: nat) -> u8 {
    let band = ((at / 3) % 32 + (at / 3) / 32) / 8;
    if at % 3 == 0 {
        ((40 + seed * 70 + band * 18) % 256) as u8
    } else if at % 3 == 1 {
        ((180 - seed * 50 - band * 12) % 256) as u8
    } else {
        ((90 + band * 24) % 256) as u8
    }
}

/// A snapshot of an edit, 32 texels by 32.
pub fn history_thumb(seed: u8) -> (r: UiProductPreview)
    ensures
        r@ matches PreviewModel::VisualSrgb8 { width, height, revision, bytes } && {
            &&& width == 32
            &&& height == 32
            &&& revision == seed
            &&& bytes.len() == 3072
            &&& forall|i: int| 0 <= i < 3072 ==> bytes[i] == thumb_byte(seed, i as nat)
        },
{
    let mut bytes: Vec<u8> = Vec::new();
    let mut at: u32 = 0;
    while at < 3072
        invariant
            at <= 3072,
            bytes@.len() == at,
            forall|i: int| 0 <= i < at ==> bytes@[i] == thumb_byte(seed, i as nat),
        decreases 3072 - at,
    {
        let texel: u32 = at / 3;
        let band: u32 = (texel % 32 + texel / 32) / 8;
        let part: u32 = at % 3;
        let shade: u32 = if part == 0 {
            40 + seed as u32 * 70 + band * 18
        } else if part == 1 {
            // 13056 is a multiple of 256 that keeps the difference above zero.
            13056 + 180 - seed as u32 * 50 - band * 12
        } else {
            90 + band * 24
        };
        proof {
            assert((180 - seed * 50 - band * 12) % 256 == (13056 + 180 - seed * 50 - band * 12)
                % 256) by (nonlinear_arith);
        }
        bytes.push((shade % 256) as u8);
        at += 1;
    }
    UiProductPreview::VisualSrgb8 { width: 32, height: 32, revision: seed as u64, bytes }
}

/// A staged edit that reads so; its snapshot, if it has one, is drawn from the
/// seed.
pub open spec fn is_edit(
    entry: UiAgentHistoryEntry,
    turn: u32,
    note: Seq<char>,
    seed: Option<u8>,
    ok: bool,
) -> bool {
    &&& entry.turn == turn
    &&& text_opt(entry.note) == Some(note)
    &&& entry.engine_ok == Some(ok)
    &&& match seed {
        Some(seed) => entry@.thumb matches Some(
            PreviewModel::VisualSrgb8 { width, height, revision, bytes },
        ) && width == 32 && height == 32 && revision == seed && bytes.len() == 3072 && forall|i: int|
            0 <= i < 3072 ==> bytes[i] == thumb_byte(seed, i as nat),
        None => entry.thumb is None,
    }
}

/// Three staged edits: the second one broke the shader and has no snapshot.
pub fn history_entries() -> (r: Vec<UiAgentHistoryEntry>)
    ensures
        r@.len() == 3,
        is_edit(r@[0], 1, "slow the rings down"@, Some(0u8), true),
        is_edit(r@[1], 2, "add a speed uniform"@, None, false),
        is_edit(r@[2], 3, "warm the palette"@, Some(2u8), true),
{
    let mut entries: Vec<UiAgentHistoryEntry> = Vec::new();
    entries.push(
        UiAgentHistoryEntry {
            turn: 1,
            note: Some("slow the rings down".to_string()),
            thumb: Some(history_thumb(0)),
            engine_ok: Some(true),
        },
    );
    entries.push(
        UiAgentHistoryEntry {
            turn: 2,
            note: Some("add a speed uniform".to_string()),
            thumb: None,
            engine_ok: Some(false),
        },
    );
    entries.push(
        UiAgentHistoryEntry {
            turn: 3,
            note: Some("warm the palette".to_string()),
            thumb: Some(history_thumb(2)),
            engine_ok: Some(true),
        },
    );
    entries
}

} // verus!
