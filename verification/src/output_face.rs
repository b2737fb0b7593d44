//! The face of an output: one row per wire, and the gestures that move lamps
//! between wires.
//!
//! An output drives several wires, and its one buffer of lamps is sliced across
//! them in key order. Every edit here is an ordinary slot edit; spreading the
//! lamps over the wires is nothing but a list of count writes.

use vstd::prelude::*;
use vstd::string::*;

use crate::action::{ActionModel, UiAction};
use crate::panel::address_opt;
use crate::slot::{text_opt, ProjectSlotAddress};
use crate::text::{
    decimal, decimal_text, find_segment_end, segment_end, segment_end_is_first,
    segment_end_is_unique,
};

verus! {

/// The endpoint that a spec naming no capability and target is rebuilt from.
pub const DEFAULT_ENDPOINT_PREFIX: &'static str = "ws281x:local";

/// A pin of the known board that can drive a wire.
#[derive(Clone, Debug, PartialEq, Eq)]
pub struct UiOutputPin {
    pub label: String,
    pub gpio: u32,
    /// The channel that already claims the pin.
    pub assigned_to: Option<u32>,
}

/// What is known of the board the output runs on.
#[derive(Clone, Debug, PartialEq, Eq)]
pub struct UiOutputBoardFacts {
    pub board_id: String,
    pub display_name: String,
    pub pins: Vec<UiOutputPin>,
}

/// One wire. A wire without a count takes what the others leave.
#[derive(Clone, Debug, PartialEq, Eq)]
pub struct UiOutputChannelRow {
    pub key: u32,
    pub endpoint_display: String,
    pub pin_label: String,
    pub count: Option<u32>,
    pub resolved_count: Option<u32>,
    pub slice_start: Option<u32>,
    pub gpio: Option<u32>,
    pub endpoint_address: Option<ProjectSlotAddress>,
    pub count_address: Option<ProjectSlotAddress>,
}

impl Default for UiOutputChannelRow {
    fn default() -> (r: Self)
        ensures
            r.key == 0,
            r.endpoint_display@ == Seq::<char>::empty(),
            r.pin_label@ == Seq::<char>::empty(),
            r.count is None,
            r.resolved_count is None,
            r.slice_start is None,
            r.gpio is None,
            r.endpoint_address is None,
            r.count_address is None,
    {
        UiOutputChannelRow {
            key: 0,
            endpoint_display: String::new(),
            pin_label: String::new(),
            count: None,
            resolved_count: None,
            slice_start: None,
            gpio: None,
            endpoint_address: None,
            count_address: None,
        }
    }
}

/// The whole face.
#[derive(Clone, Debug, PartialEq, Eq)]
pub struct UiOutputFace {
    pub board: Option<UiOutputBoardFacts>,
    pub channels: Vec<UiOutputChannelRow>,
    pub channels_address: Option<ProjectSlotAddress>,
    /// How many lamps arrive, once that is known.
    pub total_lamps: Option<u32>,
    /// The lamps at which the strips of the mapping upstream start.
    pub span_boundaries: Vec<u32>,
    /// What the output's input is bound to.
    pub input_binding: Option<String>,
}

impl Default for UiOutputFace {
    fn default() -> (r: Self)
        ensures
            r.board is None,
            r.channels@ == Seq::<UiOutputChannelRow>::empty(),
            r.channels_address is None,
            r.total_lamps is None,
            r.span_boundaries@ == Seq::<u32>::empty(),
            r.input_binding is None,
    {
        UiOutputFace {
            board: None,
            channels: Vec::new(),
            channels_address: None,
            total_lamps: None,
            span_boundaries: Vec::new(),
            input_binding: None,
        }
    }
}

/// The sum of the counts, where every wire has one.
pub open spec fn authored_sum(channels: Seq<UiOutputChannelRow>) -> Option<int>
    decreases channels.len(),
{
    if channels.len() == 0 {
        Some(0)
    } else {
        match (authored_sum(channels.drop_last()), channels.last().count) {
            (Some(sum), Some(count)) => Some(sum + count),
            _ => None,
        }
    }
}

/// The row after the buffer's length is known: a wire that takes the rest gets
/// what lies beyond its start.
pub open spec fn resolved_row(row: UiOutputChannelRow, total: u32) -> Option<u32> {
    match (row.count, row.slice_start) {
        (None, Some(start)) => Some(
            if start <= total {
                (total - start) as u32
            } else {
                0
            },
        ),
        _ => row.resolved_count,
    }
}

impl UiOutputFace {
    /// How many lamps the wires ask for, where each of them says, counting no
    /// further than `u32` reaches.
    pub fn authored_lamps(&self) -> (r: Option<u32>)
        ensures
            match authored_sum(self.channels@) {
                Some(sum) => 0 <= sum && r == Some(
                    if sum > u32::MAX {
                        u32::MAX
                    } else {
                        sum as u32
                    },
                ),
                None => r is None,
            },
    {
        let mut sum: u32 = 0;
        let mut at: usize = 0;
        while at < self.channels.len()
            invariant
                at <= self.channels.len(),
                match authored_sum(self.channels@.take(at as int)) {
                    Some(exact) => exact >= 0 && sum == if exact > u32::MAX {
                        u32::MAX
                    } else {
                        exact as u32
                    },
                    None => false,
                },
            decreases self.channels.len() - at,
        {
            proof {
                let next = self.channels@.take(at + 1);
                assert(next.drop_last() =~= self.channels@.take(at as int));
                assert(next.last() == self.channels@[at as int]);
            }
            match self.channels[at].count {
                Some(count) => {
                    sum = sum.saturating_add(count);
                },
                None => {
                    proof {
                        authored_sum_needs_every_count(self.channels@, at + 1);
                    }
                    return None;
                },
            }
            at += 1;
        }
        assert(self.channels@.take(at as int) =~= self.channels@);
        Some(sum)
    }

    /// Takes in how many lamps arrive.
    pub fn resolve_extent(&mut self, total: u32)
        ensures
            final(self).total_lamps == Some(total),
            final(self).board == old(self).board,
            final(self).channels_address == old(self).channels_address,
            final(self).span_boundaries == old(self).span_boundaries,
            final(self).input_binding == old(self).input_binding,
            final(self).channels@.len() == old(self).channels@.len(),
            forall|i: int|
                0 <= i < old(self).channels@.len() ==> (#[trigger] final(self).channels@[i]) == (
                UiOutputChannelRow {
                    resolved_count: resolved_row(old(self).channels@[i], total),
                    ..old(self).channels@[i]
                }),
    {
        self.total_lamps = Some(total);
        let len: usize = self.channels.len();
        let mut at: usize = 0;
        while at < len
            invariant
                at <= len,
                len == self.channels@.len(),
                len == old(self).channels@.len(),
                self.total_lamps == Some(total),
                self.board == old(self).board,
                self.channels_address == old(self).channels_address,
                self.span_boundaries == old(self).span_boundaries,
                self.input_binding == old(self).input_binding,
                forall|i: int|
                    0 <= i < at ==> (#[trigger] self.channels@[i]) == (UiOutputChannelRow {
                        resolved_count: resolved_row(old(self).channels@[i], total),
                        ..old(self).channels@[i]
                    }),
                forall|i: int| at <= i < len ==> self.channels@[i] == old(self).channels@[i],
            decreases len - at,
        {
            let row: &mut UiOutputChannelRow = &mut self.channels[at];
            match (row.count, row.slice_start) {
                (None, Some(start)) => {
                    row.resolved_count = Some(total.saturating_sub(start));
                },
                _ => {},
            }
            at += 1;
        }
    }
}

proof fn authored_sum_needs_every_count(channels: Seq<UiOutputChannelRow>, n: int)
    requires
        0 <= n <= channels.len(),
        authored_sum(channels.take(n)) is None,
    ensures
        authored_sum(channels) is None,
    decreases channels.len() - n,
{
    if n < channels.len() {
        assert(channels.take(n + 1).drop_last() =~= channels.take(n));
        authored_sum_needs_every_count(channels, n + 1);
    } else {
        assert(channels.take(n) =~= channels);
    }
}

// -- pins ----------------------------------------------------------------------

/// How much is known of where a wire lands.
#[derive(Clone, Copy, Debug, PartialEq, Eq, Structural)]
pub enum PinState {
    /// Named, and the known board translates it to this GPIO.
    Wired(u32),
    /// Named, but no board is known to translate it against.
    Named,
    /// Named, and the known board has no such pin.
    NotOnBoard,
    /// The endpoint names no pin.
    Unnamed,
}

/// Where a wire lands. Only a known board can lack a pin.
pub open spec fn pin_state_of(channel: UiOutputChannelRow, board_known: bool) -> PinState {
    match channel.gpio {
        Some(gpio) => PinState::Wired(gpio),
        None => if channel.pin_label@.len() == 0 {
            PinState::Unnamed
        } else if board_known {
            PinState::NotOnBoard
        } else {
            PinState::Named
        },
    }
}

/// Where a wire lands.
pub fn pin_state(channel: &UiOutputChannelRow, board_known: bool) -> (r: PinState)
    ensures
        r == pin_state_of(*channel, board_known),
{
    match channel.gpio {
        Some(gpio) => PinState::Wired(gpio),
        None => if channel.pin_label.as_str().is_empty() {
            PinState::Unnamed
        } else if board_known {
            PinState::NotOnBoard
        } else {
            PinState::Named
        },
    }
}

/// What the pin cell reads: the board's own label, or that there is none.
pub fn pin_display(channel: &UiOutputChannelRow) -> (r: String)
    ensures
        r@ == if channel.pin_label@.len() == 0 {
            "no pin"@
        } else {
            channel.pin_label@
        },
{
    if channel.pin_label.as_str().is_empty() {
        return "no pin".to_string();
    }
    channel.pin_label.clone()
}

/// The chip of a wire that nothing has been checked against.
pub const KEY_PLAIN_CLASS: &'static str = "tw:inline-flex tw:flex-none tw:items-center tw:rounded-xs tw:border tw:px-1.5 tw:py-0.5 tw:font-mono tw:text-[0.68rem] tw:font-bold";

/// The chip of a wire on a real pin of the known board.
pub const KEY_WIRED_CLASS: &'static str = "tw:inline-flex tw:flex-none tw:items-center tw:rounded-xs tw:border tw:border-status-bound-border tw:bg-status-bound-bg tw:px-1.5 tw:py-0.5 tw:font-mono tw:text-[0.68rem] tw:font-bold tw:text-status-bound-foreground";

/// The chip of a wire on a pin the known board lacks.
pub const KEY_MISSING_CLASS: &'static str = "tw:inline-flex tw:flex-none tw:items-center tw:rounded-xs tw:border tw:border-status-attention-border tw:bg-status-attention-bg tw:px-1.5 tw:py-0.5 tw:font-mono tw:text-[0.68rem] tw:font-bold tw:text-status-attention-foreground";

/// The classes of a wire's key chip.
pub fn channel_key_class(channel: &UiOutputChannelRow, board_known: bool) -> (r: &'static str)
    ensures
        r@ == match pin_state_of(*channel, board_known) {
            PinState::Wired(_) => KEY_WIRED_CLASS@,
            PinState::NotOnBoard => KEY_MISSING_CLASS@,
            PinState::Named | PinState::Unnamed => KEY_PLAIN_CLASS@,
        },
{
    match pin_state(channel, board_known) {
        PinState::Wired(_) => KEY_WIRED_CLASS,
        PinState::NotOnBoard => KEY_MISSING_CLASS,
        PinState::Named | PinState::Unnamed => KEY_PLAIN_CLASS,
    }
}

/// The pin cell of a wire on a real pin of the known board.
pub const PIN_WIRED_CLASS: &'static str = "tw:inline-flex tw:min-w-0 tw:cursor-pointer tw:appearance-none tw:items-center tw:rounded-xs tw:border tw:border-status-bound-border tw:bg-transparent tw:px-1.5 tw:py-0.5 tw:font-mono tw:text-xs tw:text-status-bound-foreground tw:transition-colors tw:hover:bg-status-bound-bg";

/// The pin cell of a wire on a pin the known board lacks.
pub const PIN_MISSING_CLASS: &'static str = "tw:inline-flex tw:min-w-0 tw:cursor-pointer tw:appearance-none tw:items-center tw:rounded-xs tw:border tw:border-status-attention-border tw:bg-transparent tw:px-1.5 tw:py-0.5 tw:font-mono tw:text-xs tw:text-status-attention-foreground tw:transition-colors tw:hover:bg-status-attention-bg";

/// The pin cell of a wire whose pin no board is known to translate.
pub const PIN_NAMED_CLASS: &'static str = "tw:inline-flex tw:min-w-0 tw:items-center tw:rounded-xs tw:border tw:border-border-muted tw:bg-transparent tw:px-1.5 tw:py-0.5 tw:font-mono tw:text-xs tw:text-muted-foreground";

/// The pin cell of a wire that names no pin.
pub const PIN_UNNAMED_CLASS: &'static str = "tw:inline-flex tw:min-w-0 tw:cursor-pointer tw:appearance-none tw:items-center tw:rounded-xs tw:border tw:border-dashed tw:border-border-muted tw:bg-transparent tw:px-1.5 tw:py-0.5 tw:font-mono tw:text-xs tw:text-subtle-foreground tw:transition-colors tw:hover:border-border-strong";

/// The classes of a wire's pin cell.
pub fn pin_cell_class(channel: &UiOutputChannelRow, board_known: bool) -> (r: &'static str)
    ensures
        r@ == match pin_state_of(*channel, board_known) {
            PinState::Wired(_) => PIN_WIRED_CLASS@,
            PinState::NotOnBoard => PIN_MISSING_CLASS@,
            PinState::Named => PIN_NAMED_CLASS@,
            PinState::Unnamed => PIN_UNNAMED_CLASS@,
        },
{
    match pin_state(channel, board_known) {
        PinState::Wired(_) => PIN_WIRED_CLASS,
        PinState::NotOnBoard => PIN_MISSING_CLASS,
        PinState::Named => PIN_NAMED_CLASS,
        PinState::Unnamed => PIN_UNNAMED_CLASS,
    }
}

/// What stands beside a pin in a wire's picker.
#[derive(Clone, Copy, Debug, PartialEq, Eq, Structural)]
pub enum PinMark {
    /// The wire is on this pin.
    Current,
    /// Another channel claims it. It can still be picked.
    TakenBy(u32),
    Free,
}

/// What stands beside a pin in the picker of `channel`.
pub fn pin_mark(pin: &UiOutputPin, channel: &UiOutputChannelRow) -> (r: PinMark)
    ensures
        r == if pin.label@ == channel.pin_label@ {
            PinMark::Current
        } else {
            match pin.assigned_to {
                Some(other) => if other != channel.key {
                    PinMark::TakenBy(other)
                } else {
                    PinMark::Free
                },
                None => PinMark::Free,
            }
        },
{
    if pin.label == channel.pin_label {
        return PinMark::Current;
    }
    match pin.assigned_to {
        Some(other) => if other != channel.key {
            PinMark::TakenBy(other)
        } else {
            PinMark::Free
        },
        None => PinMark::Free,
    }
}

/// The endpoint with its pin replaced: what stands before the second colon is
/// kept where both segments there say something and a third follows.
pub open spec fn with_pin(endpoint: Seq<char>, pin: Seq<char>) -> Seq<char> {
    let first = segment_end(endpoint, ':', 0);
    let second = segment_end(endpoint, ':', first + 1);
    if first < endpoint.len() && second < endpoint.len() && 0 < first && first + 1 < second {
        endpoint.take(second) + ":"@ + pin
    } else {
        DEFAULT_ENDPOINT_PREFIX@ + ":"@ + pin
    }
}

/// Rebuilds an endpoint around a new pin, keeping the capability and the target
/// the wire already declares.
pub fn endpoint_with_pin(endpoint: &str, pin_label: &str) -> (r: String)
    ensures
        r@ == with_pin(endpoint@, pin_label@),
{
    let len: usize = endpoint.unicode_len();
    let first: usize = find_segment_end(endpoint, ':', 0);
    if first < len && 0 < first {
        let second: usize = find_segment_end(endpoint, ':', first + 1);
        if second < len && first + 1 < second {
            proof {
                assert(endpoint@.take(second as int) == endpoint@.subrange(0, second as int));
            }
            let mut out: String = endpoint.substring_char(0, second).to_string();
            out.append(":");
            out.append(pin_label);
            return out;
        }
    }
    let mut out: String = DEFAULT_ENDPOINT_PREFIX.to_string();
    out.append(":");
    out.append(pin_label);
    out
}

proof fn rebuilt_endpoint_keeps_its_segments(head: Seq<char>, first: int, pin: Seq<char>)
    requires
        0 < first,
        first + 1 < head.len(),
        head[first] == ':',
        forall|i: int| 0 <= i < head.len() && i != first ==> head[i] != ':',
    ensures
        ({
            let whole = head + ":"@ + pin;
            &&& segment_end(whole, ':', 0) == first
            &&& segment_end(whole, ':', first + 1) == head.len()
            &&& whole.take(head.len() as int) == head
        }),
{
    reveal_strlit(":");
    let whole = head + ":"@ + pin;
    assert(forall|i: int| 0 <= i < head.len() ==> whole[i] == head[i]);
    assert(whole[head.len() as int] == ':');
    segment_end_is_unique(whole, ':', 0, first);
    segment_end_is_unique(whole, ':', first + 1, head.len() as int);
    assert(whole.take(head.len() as int) =~= head);
}

/// Picking one pin and then another is picking the other: a pick keeps what the
/// wire declared before the pin.
pub proof fn the_last_picked_pin_stands(endpoint: Seq<char>, pin: Seq<char>, next: Seq<char>)
    ensures
        with_pin(with_pin(endpoint, pin), next) == with_pin(endpoint, next),
{
    reveal_strlit(":");
    reveal_strlit("ws281x:local");
    let first = segment_end(endpoint, ':', 0);
    segment_end_is_first(endpoint, ':', 0);
    if first < endpoint.len() {
        segment_end_is_first(endpoint, ':', first + 1);
    }
    let second = segment_end(endpoint, ':', first + 1);
    if first < endpoint.len() && second < endpoint.len() && 0 < first && first + 1 < second {
        rebuilt_endpoint_keeps_its_segments(endpoint.take(second), first, pin);
    } else {
        rebuilt_endpoint_keeps_its_segments(DEFAULT_ENDPOINT_PREFIX@, 6, pin);
    }
}

// -- rows ----------------------------------------------------------------------

/// One connection of the board diagram.
#[derive(Clone, Debug, PartialEq, Eq)]
pub struct WiredConnection {
    pub gpio: u8,
    pub title: String,
    pub extra: Option<String>,
}

/// What a [`WiredConnection`] says.
pub struct ConnectionModel {
    pub gpio: u8,
    pub title: Seq<char>,
    pub extra: Option<Seq<char>>,
}

impl View for WiredConnection {
    type V = ConnectionModel;

    open spec fn view(&self) -> ConnectionModel {
        ConnectionModel { gpio: self.gpio, title: self.title@, extra: text_opt(self.extra) }
    }
}

/// What each connection of a list says.
pub open spec fn connection_models(connections: Seq<WiredConnection>) -> Seq<ConnectionModel> {
    Seq::new(connections.len(), |i: int| connections[i]@)
}

/// The connection of one wire, where its pin is a GPIO the diagram can draw.
pub open spec fn connection_of(channel: UiOutputChannelRow) -> Option<ConnectionModel> {
    match channel.gpio {
        Some(gpio) => if gpio <= u8::MAX {
            Some(
                ConnectionModel {
                    gpio: gpio as u8,
                    title: "ch"@ + decimal(channel.key as nat),
                    extra: match channel.resolved_count {
                        Some(count) => Some("×"@ + decimal(count as nat)),
                        None => None,
                    },
                },
            )
        } else {
            None
        },
        None => None,
    }
}

/// The connections of the wires that have one, in order.
pub open spec fn connections_of(channels: Seq<UiOutputChannelRow>) -> Seq<ConnectionModel>
    decreases channels.len(),
{
    if channels.len() == 0 {
        Seq::empty()
    } else {
        match connection_of(channels.last()) {
            Some(connection) => connections_of(channels.drop_last()).push(connection),
            None => connections_of(channels.drop_last()),
        }
    }
}

/// The connections the board diagram draws.
pub fn wired_connections(face: &UiOutputFace) -> (r: Vec<WiredConnection>)
    ensures
        connection_models(r@) == connections_of(face.channels@),
{
    let mut out: Vec<WiredConnection> = Vec::new();
    let mut at: usize = 0;
    assert(connection_models(out@) =~= connections_of(face.channels@.take(0)));
    while at < face.channels.len()
        invariant
            at <= face.channels.len(),
            connection_models(out@) == connections_of(face.channels@.take(at as int)),
        decreases face.channels.len() - at,
    {
        let channel: &UiOutputChannelRow = &face.channels[at];
        proof {
            let next = face.channels@.take(at + 1);
            assert(next.drop_last() =~= face.channels@.take(at as int));
            assert(next.last() == channel);
        }
        let ghost prior = connection_models(out@);
        match channel.gpio {
            Some(gpio) => if gpio <= u8::MAX as u32 {
                let mut title: String = "ch".to_string();
                title.append(decimal_text(channel.key as u64).as_str());
                let extra: Option<String> = match channel.resolved_count {
                    Some(count) => {
                        let mut text: String = "×".to_string();
                        text.append(decimal_text(count as u64).as_str());
                        Some(text)
                    },
                    None => None,
                };
                out.push(WiredConnection { gpio: gpio as u8, title, extra });
                assert(connection_models(out@) =~= prior.push(connection_of(*channel)->Some_0));
            },
            None => {},
        }
        at += 1;
    }
    assert(face.channels@.take(at as int) =~= face.channels@);
    out
}

/// "wire" or "wires".
pub open spec fn wires_noun(wires: nat) -> Seq<char> {
    if wires == 1 {
        "wire"@
    } else {
        "wires"@
    }
}

/// How many wires, over how many lamps. The lamps that arrive count for more
/// than those the wires ask for.
pub fn channels_summary(face: &UiOutputFace) -> (r: String)
    ensures
        r@ == decimal(face.channels@.len()) + " "@ + wires_noun(face.channels@.len()) + " · "@
            + match face.total_lamps {
            Some(total) => decimal(total as nat) + " lamps"@,
            None => match authored_sum(face.channels@) {
                Some(sum) => decimal(
                    if sum > u32::MAX {
                        u32::MAX as nat
                    } else {
                        sum as nat
                    },
                ) + " lamps authored"@,
                None => "lamps unknown"@,
            },
        },
{
    let wires: usize = face.channels.len();
    let mut out: String = decimal_text(wires as u64);
    out.append(" ");
    if wires == 1 {
        out.append("wire");
    } else {
        out.append("wires");
    }
    out.append(" · ");
    let mut lamps: String = String::new();
    match face.total_lamps {
        Some(total) => {
            lamps = decimal_text(total as u64);
            lamps.append(" lamps");
        },
        None => match face.authored_lamps() {
            Some(authored) => {
                lamps = decimal_text(authored as u64);
                lamps.append(" lamps authored");
            },
            None => {
                lamps.append("lamps unknown");
                assert(lamps@ =~= "lamps unknown"@);
            },
        },
    }
    out.append(lamps.as_str());
    out
}

/// The wire's slice of the buffer in words.
pub open spec fn slice_text(channel: UiOutputChannelRow) -> Seq<char> {
    match (channel.slice_start, channel.resolved_count) {
        (Some(start), Some(count)) => if count > 0 {
            "lamps "@ + decimal(start as nat) + "–"@ + decimal((start + count - 1) as nat)
        } else {
            "lamps "@ + decimal(start as nat) + "– (empty)"@
        },
        (Some(start), None) => "lamps "@ + decimal(start as nat) + "–?"@,
        (None, _) => "slice unknown"@,
    }
}

/// The slice's last lamp has an index.
pub open spec fn slice_fits(channel: UiOutputChannelRow) -> bool {
    match (channel.slice_start, channel.resolved_count) {
        (Some(start), Some(count)) => start + count <= u32::MAX,
        _ => true,
    }
}

/// What the caption says of the pin.
pub open spec fn pin_text(channel: UiOutputChannelRow, board_known: bool) -> Seq<char> {
    match pin_state_of(channel, board_known) {
        PinState::Wired(gpio) => "gpio "@ + decimal(gpio as nat),
        PinState::Unnamed => "no pin"@,
        PinState::Named => channel.pin_label@,
        PinState::NotOnBoard => channel.pin_label@ + " unresolved"@,
    }
}

/// The row's caption: the wire's slice, and what its pin resolved to.
pub fn channel_caption(channel: &UiOutputChannelRow, board_known: bool) -> (r: String)
    requires
        slice_fits(*channel),
    ensures
        r@ == slice_text(*channel) + " · "@ + pin_text(*channel, board_known),
{
    let mut out: String = "slice unknown".to_string();
    match channel.slice_start {
        Some(start) => {
            out = "lamps ".to_string();
            out.append(decimal_text(start as u64).as_str());
            match channel.resolved_count {
                Some(count) => if count > 0 {
                    out.append("–");
                    out.append(decimal_text((start + (count - 1)) as u64).as_str());
                } else {
                    out.append("– (empty)");
                },
                None => {
                    out.append("–?");
                },
            }
        },
        None => {},
    }
    out.append(" · ");
    let mut pin: String = "no pin".to_string();
    match pin_state(channel, board_known) {
        PinState::Wired(gpio) => {
            pin = "gpio ".to_string();
            pin.append(decimal_text(gpio as u64).as_str());
        },
        PinState::Unnamed => {},
        PinState::Named => {
            pin = channel.pin_label.clone();
        },
        PinState::NotOnBoard => {
            pin = channel.pin_label.clone();
            pin.append(" unresolved");
        },
    }
    out.append(pin.as_str());
    out
}

/// The greatest key of the wires, if there is one.
pub open spec fn greatest_key(channels: Seq<UiOutputChannelRow>) -> Option<u32>
    decreases channels.len(),
{
    if channels.len() == 0 {
        None
    } else {
        match greatest_key(channels.drop_last()) {
            Some(best) => if best >= channels.last().key {
                Some(best)
            } else {
                Some(channels.last().key)
            },
            None => Some(channels.last().key),
        }
    }
}

/// The key a new wire gets: one past the greatest.
pub fn next_channel_key(face: &UiOutputFace) -> (r: u32)
    ensures
        r == match greatest_key(face.channels@) {
            Some(key) => if key < u32::MAX {
                (key + 1) as u32
            } else {
                u32::MAX
            },
            None => 0,
        },
{
    let mut best: Option<u32> = None;
    let mut at: usize = 0;
    while at < face.channels.len()
        invariant
            at <= face.channels.len(),
            best == greatest_key(face.channels@.take(at as int)),
        decreases face.channels.len() - at,
    {
        let key: u32 = face.channels[at].key;
        proof {
            let next = face.channels@.take(at + 1);
            assert(next.drop_last() =~= face.channels@.take(at as int));
            assert(next.last() == face.channels@[at as int]);
        }
        best = match best {
            Some(other) => if other >= key {
                Some(other)
            } else {
                Some(key)
            },
            None => Some(key),
        };
        at += 1;
    }
    assert(face.channels@.take(at as int) =~= face.channels@);
    match best {
        Some(key) => key.saturating_add(1),
        None => 0,
    }
}

/// No key is greater than the greatest, and a wire has it.
pub proof fn greatest_key_bounds_every_key(channels: Seq<UiOutputChannelRow>)
    ensures
        match greatest_key(channels) {
            Some(best) => {
                &&& forall|i: int| 0 <= i < channels.len() ==> (#[trigger] channels[i]).key <= best
                &&& exists|i: int| 0 <= i < channels.len() && channels[i].key == best
            },
            None => channels.len() == 0,
        },
    decreases channels.len(),
{
    if channels.len() > 0 {
        let head = channels.drop_last();
        greatest_key_bounds_every_key(head);
        assert(forall|i: int| 0 <= i < head.len() ==> head[i] == channels[i]);
        assert(channels[channels.len() - 1] == channels.last());
        match greatest_key(head) {
            Some(best) => {
                let k = choose|i: int| 0 <= i < head.len() && head[i].key == best;
                assert(channels[k].key == best);
            },
            None => {},
        }
    }
}

/// A new wire's key is past every other, so the wire lands at the end of the
/// slice order. (The keys end at the greatest `u32`.)
pub proof fn a_new_key_is_past_every_other(face: UiOutputFace, key: u32)
    requires
        greatest_key(face.channels@) matches Some(best) ==> best < u32::MAX && key == best + 1,
    ensures
        forall|i: int| 0 <= i < face.channels@.len() ==> (#[trigger] face.channels@[i]).key < key,
{
    greatest_key_bounds_every_key(face.channels@);
}

/// The button that adds a wire.
#[derive(Clone, Debug, PartialEq, Eq)]
pub struct AddChannel {
    pub title: String,
    pub action: UiAction,
}

/// The button that adds a wire, where the wires have an address.
pub fn add_channel(face: &UiOutputFace) -> (r: Option<AddChannel>)
    ensures
        r is Some <==> face.channels_address is Some,
        r matches Some(add) ==> ({
            let key = match greatest_key(face.channels@) {
                Some(best) => if best < u32::MAX {
                    (best + 1) as u32
                } else {
                    u32::MAX
                },
                None => 0u32,
            };
            &&& add.title@ == "Add channel "@ + decimal(key as nat)
                + " — a new wire at the end of the slice order"@
            &&& add.action@ == (ActionModel::EnsurePresent {
                address: address_opt(face.channels_address)->Some_0.map_entry(key),
            })
        }),
{
    match &face.channels_address {
        Some(map) => {
            let key: u32 = next_channel_key(face);
            let mut title: String = "Add channel ".to_string();
            title.append(decimal_text(key as u64).as_str());
            title.append(" — a new wire at the end of the slice order");
            Some(
                AddChannel {
                    title,
                    action: UiAction::EnsurePresent { address: map.child_map_entry(key) },
                },
            )
        },
        None => None,
    }
}

/// Whether the wire with this key may take the rest of the buffer: only the
/// last one may.
pub fn remainder_allowed(face: &UiOutputFace, key: u32) -> (r: bool)
    ensures
        r == (face.channels@.len() > 0 && face.channels@.last().key == key),
{
    if face.channels.len() == 0 {
        return false;
    }
    face.channels[face.channels.len() - 1].key == key
}

/// The wires stand in the order of their keys.
pub open spec fn in_key_order(channels: Seq<UiOutputChannelRow>) -> bool {
    forall|i: int, j: int|
        0 <= i < j < channels.len() ==> (#[trigger] channels[i]).key < (#[trigger] channels[j]).key
}

/// Among wires in key order, the one that may take the rest is the one with the
/// highest key, and no other.
pub proof fn the_highest_key_may_take_the_rest(channels: Seq<UiOutputChannelRow>, key: u32)
    requires
        in_key_order(channels),
    ensures
        (channels.len() > 0 && channels.last().key == key) <==> {
            &&& exists|i: int| 0 <= i < channels.len() && (#[trigger] channels[i]).key == key
            &&& forall|i: int| 0 <= i < channels.len() ==> (#[trigger] channels[i]).key <= key
        },
{
    if channels.len() > 0 {
        let end = channels.len() - 1;
        assert(channels[end] == channels.last());
        assert(forall|i: int| 0 <= i < end ==> (#[trigger] channels[i]).key < channels[end].key);
    }
}

} // verus!
