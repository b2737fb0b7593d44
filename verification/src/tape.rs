//! The clock's tape transport: its digits, its ruler, and what its gestures
//! send.

use vstd::prelude::*;
use vstd::string::*;

use crate::action::{ActionModel, UiAction};
use crate::float_bits::{is_nan, less, less_f32, same_f32, same_number};
use crate::panel::{address_opt, clone_address_opt, UiPanelTarget};
use crate::slot::{LpValue, ProjectSlotAddress};
use crate::text::{decimal, decimal_text};

verus! {

// -- digits ------------------------------------------------------------------------

/// A time on the tape: its sign, its whole seconds, and the tenths where they
/// are shown.
#[derive(Clone, Copy, Debug, PartialEq, Eq, Structural)]
pub struct ClockTime {
    pub negative: bool,
    pub seconds: u64,
    pub tenths: Option<u64>,
}

/// A number below a hundred in two digits.
pub open spec fn two_digits(n: nat) -> Seq<char> {
    if n < 10 {
        "0"@ + decimal(n)
    } else {
        decimal(n)
    }
}

/// Writes a number below a hundred in two digits.
pub fn two_digit_text(n: u64) -> (r: String)
    ensures
        r@ == two_digits(n as nat),
{
    if n < 10 {
        let mut out: String = "0".to_string();
        out.append(decimal_text(n).as_str());
        out
    } else {
        decimal_text(n)
    }
}

/// `m:ss`, and `h:mm:ss` where there are hours.
pub open spec fn clock_face_text(seconds: nat) -> Seq<char> {
    let hours = seconds / 3600;
    let minutes = (seconds % 3600) / 60;
    let rest = seconds % 60;
    if hours > 0 {
        decimal(hours) + ":"@ + two_digits(minutes) + ":"@ + two_digits(rest)
    } else {
        decimal(minutes) + ":"@ + two_digits(rest)
    }
}

/// The digits: a real minus sign, the time, and the tenths where they are shown.
pub open spec fn clock_text(time: ClockTime) -> Seq<char> {
    (if time.negative {
        "\u{2212}"@
    } else {
        ""@
    }) + clock_face_text(time.seconds as nat) + (match time.tenths {
        Some(tenths) => "."@ + decimal(tenths as nat),
        None => ""@,
    })
}

/// Writes a time as the clock's digits.
pub fn format_clock(time: ClockTime) -> (r: String)
    ensures
        r@ == clock_text(time),
{
    let hours: u64 = time.seconds / 3600;
    let minutes: u64 = (time.seconds % 3600) / 60;
    let rest: u64 = time.seconds % 60;
    let mut face: String = String::new();
    if hours > 0 {
        face = decimal_text(hours);
        face.append(":");
        face.append(two_digit_text(minutes).as_str());
    } else {
        face = decimal_text(minutes);
    }
    face.append(":");
    face.append(two_digit_text(rest).as_str());
    let sign: &'static str = if time.negative {
        "\u{2212}"
    } else {
        ""
    };
    let mut out: String = sign.to_string();
    out.append(face.as_str());
    let mut tail: String = "".to_string();
    if let Some(tenths) = time.tenths {
        tail = ".".to_string();
        tail.append(decimal_text(tenths).as_str());
    }
    out.append(tail.as_str());
    out
}

/// The line under the digits while the tape is off live: how far, in seconds
/// and tenths.
pub fn offlive_line(negative: bool, tenths: u64) -> (r: String)
    ensures
        r@ == (if negative {
            "\u{2212}"@
        } else {
            "+"@
        }) + decimal((tenths / 10) as nat) + "."@ + decimal((tenths % 10) as nat)
            + " s \u{00b7} live"@,
{
    let sign: &'static str = if negative {
        "\u{2212}"
    } else {
        "+"
    };
    let mut out: String = sign.to_string();
    out.append(decimal_text(tenths / 10).as_str());
    out.append(".");
    out.append(decimal_text(tenths % 10).as_str());
    out.append(" s \u{00b7} live");
    out
}

// -- the ruler ---------------------------------------------------------------------

/// How many css pixels a second of tape takes, in thousandths.
pub const TAPE_MILLIPX_PER_SEC: u64 = 14000;

/// A second of tape always takes the same room, so a faster clock streams
/// faster.
pub fn tape_px_per_sec() -> (r: u64)
    ensures
        r == TAPE_MILLIPX_PER_SEC,
{
    TAPE_MILLIPX_PER_SEC
}

/// The steps of the ruler in tenths of a second: every so often a mark, and
/// every so often a tall one with a label.
pub open spec fn tick_ladder() -> Seq<(u64, u64)> {
    seq![
        (2u64, 10u64),
        (10u64, 50u64),
        (50u64, 300u64),
        (150u64, 600u64),
        (600u64, 3000u64),
        (3000u64, 18000u64),
        (9000u64, 36000u64),
    ]
}

/// At this scale marks lie at least 8 css pixels apart and labels at least 44.
pub open spec fn tick_fits(pair: (u64, u64), millipx_per_sec: u64) -> bool {
    pair.0 * millipx_per_sec >= 80_000 && pair.1 * millipx_per_sec >= 440_000
}

/// The first step that fits from `from` on, or else the coarsest.
pub open spec fn first_fitting(millipx_per_sec: u64, from: int) -> (u64, u64)
    decreases tick_ladder().len() - from,
{
    if from >= tick_ladder().len() - 1 || tick_fits(tick_ladder()[from], millipx_per_sec) {
        tick_ladder()[if from >= tick_ladder().len() {
            tick_ladder().len() - 1
        } else {
            from
        }]
    } else {
        first_fitting(millipx_per_sec, from + 1)
    }
}

/// The step of the ruler at a scale given in thousandths of a css pixel per
/// second: marks and labels in tenths of a second.
pub fn tape_tick_pair(millipx_per_sec: u64) -> (r: (u64, u64))
    ensures
        r == first_fitting(millipx_per_sec, 0),
{
    let ladder: Vec<(u64, u64)> = vec![
        (2, 10),
        (10, 50),
        (50, 300),
        (150, 600),
        (600, 3000),
        (3000, 18000),
        (9000, 36000),
    ];
    assert(ladder@ =~= tick_ladder());
    let scale: u128 = millipx_per_sec as u128;
    let mut at: usize = 0;
    while at < 6
        invariant
            at <= 6,
            ladder@ == tick_ladder(),
            scale == millipx_per_sec,
            first_fitting(millipx_per_sec, 0) == first_fitting(millipx_per_sec, at as int),
        decreases 6 - at,
    {
        let (minor, major) = ladder[at];
        proof {
            assert(minor * millipx_per_sec <= 36000 * u64::MAX) by (nonlinear_arith)
                requires
                    minor <= 36000,
                    millipx_per_sec <= u64::MAX,
            ;
            assert(major * millipx_per_sec <= 36000 * u64::MAX) by (nonlinear_arith)
                requires
                    major <= 36000,
                    millipx_per_sec <= u64::MAX,
            ;
        }
        if minor as u128 * scale >= 80_000 && major as u128 * scale >= 440_000 {
            return ladder[at];
        }
        at += 1;
    }
    ladder[6]
}

/// At the tape's own scale there is a mark every second and a label every five.
pub proof fn the_tape_marks_every_second()
    ensures
        first_fitting(TAPE_MILLIPX_PER_SEC, 0) == (10u64, 50u64),
{
    reveal_with_fuel(first_fitting, 3);
}

/// On every step of the ruler labels stand on marks, at whole seconds.
pub proof fn labels_stand_on_marks(i: int)
    requires
        0 <= i < tick_ladder().len(),
    ensures
        tick_ladder()[i].0 > 0,
        tick_ladder()[i].1 % tick_ladder()[i].0 == 0,
        tick_ladder()[i].1 % 10 == 0,
{
    let s = tick_ladder();
    assert(i == 0 || i == 1 || i == 2 || i == 3 || i == 4 || i == 5 || i == 6);
}

/// One mark of the ruler.
#[derive(Clone, Debug, PartialEq, Eq)]
pub struct TapeTick {
    pub index: u64,
    pub label: Option<String>,
}

/// How many marks it is from one label to the next: the ratio of the two steps,
/// rounded to the nearest whole number.
pub open spec fn label_every(minor: nat, major: nat) -> nat {
    (2 * major + minor) / (2 * minor)
}

/// What the mark with this number shows: a label on every so manieth.
pub open spec fn tick_label(index: nat, minor: nat, major: nat) -> Option<Seq<char>> {
    if index % label_every(minor, major) == 0 {
        Some(clock_face_text(index * minor / 10))
    } else {
        None
    }
}

/// The marks from `first` to `last`. Marks are whole multiples of the step, so
/// they do not drift over a long run.
pub fn tape_ticks(first: u64, last: u64, minor: u64, major: u64) -> (r: Vec<TapeTick>)
    requires
        0 < minor <= 2 * major,
        last < u64::MAX,
        last * minor <= u64::MAX,
    ensures
        r@.len() == if first <= last {
            (last - first + 1) as nat
        } else {
            0
        },
        forall|i: int|
            0 <= i < r@.len() ==> (#[trigger] r@[i]).index == first + i
                && crate::slot::text_opt(r@[i].label) == tick_label(
                (first + i) as nat,
                minor as nat,
                major as nat,
            ),
{
    let mut out: Vec<TapeTick> = Vec::new();
    if first > last {
        return out;
    }
    let every: u128 = (2 * major as u128 + minor as u128) / (2 * minor as u128);
    assert(every >= 1) by (nonlinear_arith)
        requires
            0 < minor <= 2 * major,
            every == (2 * major + minor) / (2 * minor),
    ;
    let mut index: u64 = first;
    while index <= last
        invariant
            first <= last,
            first <= index <= last + 1,
            last < u64::MAX,
            last * minor <= u64::MAX,
            every == label_every(minor as nat, major as nat),
            every >= 1,
            out@.len() == index - first,
            forall|i: int|
                0 <= i < out@.len() ==> (#[trigger] out@[i]).index == first + i
                    && crate::slot::text_opt(out@[i].label) == tick_label(
                    (first + i) as nat,
                    minor as nat,
                    major as nat,
                ),
        decreases last + 1 - index,
    {
        assert(index * minor <= last * minor) by (nonlinear_arith)
            requires
                index <= last,
                0 <= minor,
        ;
        let label: Option<String> = if index as u128 % every == 0 {
            Some(
                format_clock(
                    ClockTime { negative: false, seconds: index * minor / 10, tenths: None },
                ),
            )
        } else {
            None
        };
        proof {
            reveal_strlit("");
            let seconds = index as nat * minor as nat / 10;
            assert(clock_text(
                ClockTime { negative: false, seconds: seconds as u64, tenths: None },
            ) =~= clock_face_text(seconds));
        }
        out.push(TapeTick { index, label });
        index += 1;
    }
    out
}

// -- the speed fader's stops ---------------------------------------------------------

/// The stops of the speed fader, from a quarter to eight times, as bit patterns
/// of single-precision numbers.
pub open spec fn rate_detents() -> Seq<u32> {
    seq![
        0x3e80_0000u32,
        0x3f00_0000u32,
        0x3f80_0000u32,
        0x4000_0000u32,
        0x4080_0000u32,
        0x4100_0000u32,
    ]
}

fn detents() -> (r: Vec<u32>)
    ensures
        r@ == rate_detents(),
{
    let r: Vec<u32> = vec![
        0x3e80_0000,
        0x3f00_0000,
        0x3f80_0000,
        0x4000_0000,
        0x4080_0000,
        0x4100_0000,
    ];
    assert(r@ =~= rate_detents());
    r
}

/// The rate sits on a stop.
pub open spec fn seated(rate: u32) -> bool {
    exists|i: int| 0 <= i < rate_detents().len() && same_number(rate_detents()[i], rate)
}

/// Whether the rate sits on a stop.
pub fn on_detent(rate: u32) -> (r: bool)
    ensures
        r == seated(rate),
{
    let stops: Vec<u32> = detents();
    let mut at: usize = 0;
    while at < stops.len()
        invariant
            at <= stops.len(),
            stops@ == rate_detents(),
            forall|i: int| 0 <= i < at ==> !same_number(#[trigger] rate_detents()[i], rate),
        decreases stops.len() - at,
    {
        if same_f32(stops[at], rate) {
            assert(same_number(rate_detents()[at as int], rate));
            return true;
        }
        at += 1;
    }
    false
}

/// The next stop above the rate from the lowest on, or the highest.
pub open spec fn stop_above(rate: u32, from: int) -> u32
    decreases rate_detents().len() - from,
{
    if from >= rate_detents().len() {
        0x4100_0000
    } else if less(rate, rate_detents()[from]) {
        rate_detents()[from]
    } else {
        stop_above(rate, from + 1)
    }
}

/// The next stop below the rate from the one before `end` on, or the lowest.
pub open spec fn stop_below(rate: u32, end: int) -> u32
    decreases end,
{
    if end <= 0 {
        0x3e80_0000
    } else if less(rate_detents()[end - 1], rate) {
        rate_detents()[end - 1]
    } else {
        stop_below(rate, end - 1)
    }
}

/// The stop an arrow key steps to: the adjacent one in its direction, and no
/// further than the ends. From a rate that is no number it is the end itself.
pub fn adjacent_detent(rate: u32, up: bool) -> (r: u32)
    ensures
        r == if up {
            stop_above(rate, 0)
        } else {
            stop_below(rate, 6)
        },
{
    let stops: Vec<u32> = detents();
    if up {
        let mut at: usize = 0;
        while at < stops.len()
            invariant
                up,
                at <= stops.len(),
                stops@ == rate_detents(),
                stop_above(rate, 0) == stop_above(rate, at as int),
            decreases stops.len() - at,
        {
            if less_f32(rate, stops[at]) {
                return stops[at];
            }
            at += 1;
        }
        0x4100_0000
    } else {
        let mut end: usize = 6;
        while end > 0
            invariant
                !up,
                end <= 6,
                stops@ == rate_detents(),
                stop_below(rate, 6) == stop_below(rate, end as int),
            decreases end,
        {
            if less_f32(stops[end - 1], rate) {
                return stops[end - 1];
            }
            end -= 1;
        }
        0x3e80_0000
    }
}

/// An arrow key lands on a stop, strictly beyond the rate unless the end is
/// reached, with no stop in between. A rate below the lowest stop steps to it
/// either way, and so does one above the highest to the highest; one that is no
/// number steps to the end of its direction.
pub proof fn arrows_step_from_stop_to_stop(rate: u32)
    ensures
        seated(stop_above(rate, 0)),
        seated(stop_below(rate, 6)),
        less(rate, 0x4100_0000) ==> less(rate, stop_above(rate, 0)),
        less(0x3e80_0000, rate) ==> less(stop_below(rate, 6), rate),
        forall|i: int|
            0 <= i < rate_detents().len() && less(rate, #[trigger] rate_detents()[i]) ==> !less(
                rate_detents()[i],
                stop_above(rate, 0),
            ),
        forall|i: int|
            0 <= i < rate_detents().len() && less(#[trigger] rate_detents()[i], rate) ==> !less(
                stop_below(rate, 6),
                rate_detents()[i],
            ),
        less(rate, 0x3e80_0000) ==> stop_above(rate, 0) == 0x3e80_0000 && stop_below(rate, 6)
            == 0x3e80_0000,
        less(0x4100_0000, rate) ==> stop_above(rate, 0) == 0x4100_0000 && stop_below(rate, 6)
            == 0x4100_0000,
        is_nan(rate) ==> stop_above(rate, 0) == 0x4100_0000 && stop_below(rate, 6) == 0x3e80_0000,
{
    reveal_with_fuel(stop_above, 8);
    reveal_with_fuel(stop_below, 8);
    assert(same_number(rate_detents()[0], 0x3e80_0000));
    assert(same_number(rate_detents()[1], 0x3f00_0000));
    assert(same_number(rate_detents()[2], 0x3f80_0000));
    assert(same_number(rate_detents()[3], 0x4000_0000));
    assert(same_number(rate_detents()[4], 0x4080_0000));
    assert(same_number(rate_detents()[5], 0x4100_0000));
}

/// Stepping up from a stop below the highest and down again returns to it.
pub proof fn a_step_up_and_down_returns(i: int)
    requires
        0 <= i < 5,
    ensures
        stop_below(stop_above(rate_detents()[i], 0), 6) == rate_detents()[i],
{
    reveal_with_fuel(stop_above, 8);
    reveal_with_fuel(stop_below, 8);
    assert(i == 0 || i == 1 || i == 2 || i == 3 || i == 4);
}

// -- where a gesture lands -----------------------------------------------------------

/// The dimensions of the transport that can be wired to a panel.
#[derive(Clone, Copy, Debug, PartialEq, Eq, Structural)]
pub enum UiPanelWireRole {
    PlayState,
    Rate,
    Scrub,
}

/// The wiring of one dimension.
#[derive(Clone, Debug, PartialEq, Eq)]
pub struct UiPanelWire {
    pub role: UiPanelWireRole,
    pub panel_target: Option<UiPanelTarget>,
}

/// Where a dimension's gestures land: on its panel channel, or on its own slot.
#[derive(Clone, Debug, PartialEq, Eq)]
pub struct TransportGesture {
    pub panel_target: Option<UiPanelTarget>,
    pub address: Option<ProjectSlotAddress>,
}

/// The first wire of a role, or the number of wires.
pub open spec fn first_wire(wires: Seq<UiPanelWire>, role: UiPanelWireRole, from: int) -> int
    decreases wires.len() - from,
{
    if from >= wires.len() || wires[from].role == role {
        from
    } else {
        first_wire(wires, role, from + 1)
    }
}

/// The panel channel a role is wired to.
pub open spec fn wired_target(wires: Seq<UiPanelWire>, role: UiPanelWireRole) -> Option<
    UiPanelTarget,
> {
    let at = first_wire(wires, role, 0);
    if at < wires.len() {
        wires[at].panel_target
    } else {
        None
    }
}

/// The panel channel a role is wired to.
pub fn wire_target(wires: &Vec<UiPanelWire>, role: UiPanelWireRole) -> (r: Option<UiPanelTarget>)
    ensures
        r == wired_target(wires@, role),
{
    let mut at: usize = 0;
    while at < wires.len()
        invariant
            at <= wires.len(),
            first_wire(wires@, role, 0) == first_wire(wires@, role, at as int),
        decreases wires.len() - at,
    {
        if wires[at].role == role {
            return crate::panel::clone_target_opt(&wires[at].panel_target);
        }
        at += 1;
    }
    None
}

/// Where a dimension's gestures land, if anywhere.
pub fn transport_gesture(
    role: UiPanelWireRole,
    address: &Option<ProjectSlotAddress>,
    wires: &Vec<UiPanelWire>,
) -> (r: Option<TransportGesture>)
    ensures
        r == if wired_target(wires@, role) is None && *address is None {
            None
        } else {
            Some(
                TransportGesture {
                    panel_target: wired_target(wires@, role),
                    address: *address,
                },
            )
        },
{
    let panel_target: Option<UiPanelTarget> = wire_target(wires, role);
    if panel_target.is_none() && address.is_none() {
        return None;
    }
    Some(TransportGesture { panel_target, address: clone_address_opt(address) })
}

impl TransportGesture {
    /// What sending a value comes to: the panel channel goes before the slot.
    pub fn send(&self, value: LpValue) -> (r: Option<UiAction>)
        ensures
            match self.panel_target {
                Some(target) => r matches Some(action) && action@ == (ActionModel::PanelWrite {
                    scope: target.scope,
                    channel: target.channel@,
                    value: value@,
                }),
                None => match self.address {
                    Some(address) => r matches Some(action) && action@ == (ActionModel::SetValue {
                        address: address@,
                        value: value@,
                    }),
                    None => r is None,
                },
            },
    {
        match &self.panel_target {
            Some(target) => Some(
                UiAction::PanelWrite {
                    scope: target.scope,
                    channel: target.channel.clone(),
                    value,
                },
            ),
            None => match &self.address {
                Some(address) => Some(UiAction::SetValue { address: address.clone(), value }),
                None => None,
            },
        }
    }
}

/// What clearing an override sends, where there is one.
pub fn override_clear_action(target: &Option<ProjectSlotAddress>) -> (r: Option<UiAction>)
    ensures
        match address_opt(*target) {
            Some(address) => r matches Some(action) && action@ == (ActionModel::ClearEdit {
                address,
            }),
            None => r is None,
        },
{
    match target {
        Some(address) => Some(UiAction::ClearEdit { address: address.clone() }),
        None => None,
    }
}

// -- dragging the tape ---------------------------------------------------------------

/// How often a drag is sent at most, in milliseconds.
pub const TAPE_DISPATCH_INTERVAL_MS: u64 = 50;

/// A drag of the tape: whether it is under way, the value under the finger (a
/// bit pattern), and when a value was last sent.
#[derive(Clone, Copy, Debug, PartialEq, Eq, Structural)]
pub struct ScrubState {
    pub dragging: bool,
    pub preview: Option<u32>,
    pub last_sent_ms: u64,
}

/// What happens to the tape.
#[derive(Clone, Copy, Debug, PartialEq, Eq, Structural)]
pub enum ScrubEvent {
    Down,
    /// The pointer moved to where the tape reads `next`.
    Move { buttons_held: bool, next: u32, now_ms: u64 },
    Up,
    Cancel,
}

/// What one event comes to: the new state, the value to send, and whether the
/// value under the finger is to be shown anew.
#[derive(Clone, Copy, Debug, PartialEq, Eq, Structural)]
pub struct ScrubStep {
    pub state: ScrubState,
    pub send: Option<u32>,
    pub repaint: bool,
}

/// A value may be sent now.
pub open spec fn send_is_due(state: ScrubState, now_ms: u64) -> bool {
    now_ms >= state.last_sent_ms + TAPE_DISPATCH_INTERVAL_MS
}

/// The drag is over.
pub open spec fn let_go(state: ScrubState) -> ScrubState {
    ScrubState { dragging: false, preview: None, ..state }
}

/// What an event comes to. `wired` says whether a value would land anywhere.
pub open spec fn scrub_step_of(state: ScrubState, event: ScrubEvent, wired: bool) -> ScrubStep {
    match event {
        ScrubEvent::Down => ScrubStep {
            state: if wired {
                ScrubState { dragging: true, ..state }
            } else {
                state
            },
            send: None,
            repaint: false,
        },
        ScrubEvent::Move { buttons_held, next, now_ms } => if !state.dragging {
            ScrubStep { state, send: None, repaint: false }
        } else if !buttons_held {
            ScrubStep { state: let_go(state), send: None, repaint: true }
        } else if !wired {
            ScrubStep { state, send: None, repaint: false }
        } else if send_is_due(state, now_ms) {
            ScrubStep {
                state: ScrubState { dragging: true, preview: Some(next), last_sent_ms: now_ms },
                send: Some(next),
                repaint: true,
            }
        } else {
            ScrubStep {
                state: ScrubState { preview: Some(next), ..state },
                send: None,
                repaint: true,
            }
        },
        ScrubEvent::Up => ScrubStep {
            state: let_go(state),
            send: if wired {
                state.preview
            } else {
                None
            },
            repaint: true,
        },
        ScrubEvent::Cancel => ScrubStep { state: let_go(state), send: None, repaint: true },
    }
}

/// What an event comes to.
pub fn scrub_step(state: ScrubState, event: ScrubEvent, wired: bool) -> (r: ScrubStep)
    ensures
        r == scrub_step_of(state, event, wired),
{
    let over: ScrubState = ScrubState {
        dragging: false,
        preview: None,
        last_sent_ms: state.last_sent_ms,
    };
    match event {
        ScrubEvent::Down => ScrubStep {
            state: if wired {
                ScrubState {
                    dragging: true,
                    preview: state.preview,
                    last_sent_ms: state.last_sent_ms,
                }
            } else {
                state
            },
            send: None,
            repaint: false,
        },
        ScrubEvent::Move { buttons_held, next, now_ms } => {
            if !state.dragging {
                return ScrubStep { state, send: None, repaint: false };
            }
            if !buttons_held {
                return ScrubStep { state: over, send: None, repaint: true };
            }
            if !wired {
                return ScrubStep { state, send: None, repaint: false };
            }
            let due: bool = now_ms >= state.last_sent_ms && now_ms - state.last_sent_ms
                >= TAPE_DISPATCH_INTERVAL_MS;
            if due {
                ScrubStep {
                    state: ScrubState {
                        dragging: true,
                        preview: Some(next),
                        last_sent_ms: now_ms,
                    },
                    send: Some(next),
                    repaint: true,
                }
            } else {
                ScrubStep {
                    state: ScrubState {
                        dragging: true,
                        preview: Some(next),
                        last_sent_ms: state.last_sent_ms,
                    },
                    send: None,
                    repaint: true,
                }
            }
        },
        ScrubEvent::Up => ScrubStep {
            state: over,
            send: if wired {
                state.preview
            } else {
                None
            },
            repaint: true,
        },
        ScrubEvent::Cancel => ScrubStep { state: over, send: None, repaint: true },
    }
}

/// Whatever the throttle held back, letting go sends exactly the value that was
/// last under the finger.
pub proof fn letting_go_lands_exactly(state: ScrubState, next: u32, now_ms: u64)
    requires
        state.dragging,
    ensures
        ({
            let moved = scrub_step_of(
                state,
                ScrubEvent::Move { buttons_held: true, next, now_ms },
                true,
            ).state;
            scrub_step_of(moved, ScrubEvent::Up, true).send == Some(next)
        }),
{
}

/// Moves are sent no more often than the interval allows.
pub proof fn moves_are_throttled(state: ScrubState, next: u32, now_ms: u64)
    ensures
        ({
            let step = scrub_step_of(
                state,
                ScrubEvent::Move { buttons_held: true, next, now_ms },
                true,
            );
            step.send is Some ==> now_ms - state.last_sent_ms >= TAPE_DISPATCH_INTERVAL_MS
                && step.state.last_sent_ms == now_ms
        }),
{
}

// -- keeping the picture in step -----------------------------------------------------

/// What a new reading of the transport asks of the picture.
#[derive(Clone, Copy, Debug, PartialEq, Eq, Structural)]
pub struct TapeSync {
    /// Count from this reading on.
    pub reanchor: bool,
    pub paint: bool,
}

/// A reading that comes in mid-drag is older than the finger and changes
/// nothing; one that says nothing new changes nothing; any other is counted from
/// and painted at once. `same` compares it with the reading counted from.
pub fn tape_sync(dragging: bool, same: Option<bool>) -> (r: TapeSync)
    ensures
        ({
            let fresh = !dragging && same != Some(true);
            r == (TapeSync { reanchor: fresh, paint: fresh })
        }),
{
    let known: bool = match same {
        Some(equal) => equal,
        None => false,
    };
    let fresh: bool = !dragging && !known;
    TapeSync { reanchor: fresh, paint: fresh }
}

/// Whether to ask for the next frame: there is something to show, no frame is
/// asked for yet, and the page is not one whose pictures stand still.
pub fn wants_frame(pending: bool, anything_to_show: bool, frozen: Option<bool>) -> (r: bool)
    ensures
        r == (!pending && anything_to_show && frozen != Some(true)),
{
    let still: bool = match frozen {
        Some(flag) => flag,
        None => false,
    };
    !pending && anything_to_show && !still
}

// -- how it looks ----------------------------------------------------------------------

pub const BOX_OFFLIVE_CLASS: &'static str = "tw:overflow-hidden tw:rounded-md tw:border tw:border-status-attention-border tw:bg-terminal";

pub const BOX_CLASS: &'static str = "tw:overflow-hidden tw:rounded-md tw:border tw:border-border-muted tw:bg-terminal";

pub const CANVAS_INERT_CLASS: &'static str = "tw:block tw:h-[62px] tw:w-full tw:text-strong-foreground";

pub const CANVAS_GRABBING_CLASS: &'static str = "tw:block tw:h-[62px] tw:w-full tw:cursor-grabbing tw:touch-none tw:text-strong-foreground";

pub const CANVAS_GRAB_CLASS: &'static str = "tw:block tw:h-[62px] tw:w-full tw:cursor-grab tw:touch-none tw:text-strong-foreground";

pub const RUN_OVERRIDDEN_CLASS: &'static str = "tw:inline-flex tw:h-7 tw:min-w-[34px] tw:flex-none tw:cursor-pointer tw:items-center tw:justify-center tw:rounded-[7px] tw:border tw:border-status-attention-border tw:bg-card-raised tw:px-2.5 tw:font-sans tw:text-xs tw:font-semibold tw:text-status-attention-foreground tw:disabled:cursor-default";

pub const RUN_PLAYING_CLASS: &'static str = "tw:inline-flex tw:h-7 tw:min-w-[34px] tw:flex-none tw:cursor-pointer tw:items-center tw:justify-center tw:rounded-[7px] tw:border tw:border-border-strong tw:bg-card-raised tw:px-2.5 tw:font-sans tw:text-xs tw:font-semibold tw:text-accent tw:disabled:cursor-default";

pub const RUN_PAUSED_CLASS: &'static str = "tw:inline-flex tw:h-7 tw:min-w-[34px] tw:flex-none tw:cursor-pointer tw:items-center tw:justify-center tw:rounded-[7px] tw:border tw:border-border-strong tw:bg-card-raised tw:px-2.5 tw:font-sans tw:text-xs tw:font-semibold tw:text-muted-foreground tw:hover:text-strong-foreground tw:disabled:cursor-default";

pub const READOUT_OVERRIDDEN_CLASS: &'static str = "tw:font-semibold tw:text-status-attention-foreground";

pub const READOUT_DETENT_CLASS: &'static str = "tw:font-semibold tw:text-accent";

pub const READOUT_CLASS: &'static str = "tw:font-semibold tw:text-strong-foreground";

pub const TIME_RETURN_CLASS: &'static str = "tw:relative tw:inline-flex tw:cursor-pointer tw:border-none tw:bg-transparent tw:p-0 tw:text-left";

pub const TIME_CLASS: &'static str = "tw:relative tw:inline-flex tw:cursor-default tw:border-none tw:bg-transparent tw:p-0 tw:text-left";

/// What the transport's looks depend on.
#[derive(Clone, Copy, Debug, PartialEq, Eq, Structural)]
pub struct TransportFacts {
    /// The clock runs.
    pub playing: bool,
    /// The tape is off live at all.
    pub offlive: bool,
    /// The tape is off live far enough to return from.
    pub return_live: bool,
    pub dragging: bool,
    pub scrub_wired: bool,
    pub play_state_wired: bool,
    pub rate_editable: bool,
    pub play_state_overridden: bool,
    pub rate_overridden: bool,
    /// The speed, as a bit pattern.
    pub rate: u32,
}

/// How the transport looks.
#[derive(Clone, Debug, PartialEq, Eq)]
pub struct TransportChrome {
    pub box_class: &'static str,
    pub canvas_class: &'static str,
    pub run_class: &'static str,
    pub run_title: &'static str,
    pub run_glyph: &'static str,
    pub run_disabled: bool,
    pub readout_class: &'static str,
    pub time_class: &'static str,
    pub time_title: &'static str,
    pub time_disabled: bool,
    pub rate_editable: bool,
}

/// How the transport looks. An override announces itself before the state it
/// overrides.
pub fn transport_chrome(facts: TransportFacts) -> (r: TransportChrome)
    ensures
        r.box_class@ == if facts.offlive {
            BOX_OFFLIVE_CLASS@
        } else {
            BOX_CLASS@
        },
        r.canvas_class@ == if !facts.scrub_wired {
            CANVAS_INERT_CLASS@
        } else if facts.dragging {
            CANVAS_GRABBING_CLASS@
        } else {
            CANVAS_GRAB_CLASS@
        },
        r.run_class@ == if facts.play_state_overridden {
            RUN_OVERRIDDEN_CLASS@
        } else if facts.playing {
            RUN_PLAYING_CLASS@
        } else {
            RUN_PAUSED_CLASS@
        },
        r.run_title@ == if facts.playing {
            "Pause the clock"@
        } else {
            "Run the clock"@
        },
        r.run_glyph@ == if facts.playing {
            "\u{275a}\u{275a}"@
        } else {
            "\u{25b6}"@
        },
        r.run_disabled == !facts.play_state_wired,
        r.readout_class@ == if facts.rate_overridden {
            READOUT_OVERRIDDEN_CLASS@
        } else if seated(facts.rate) {
            READOUT_DETENT_CLASS@
        } else {
            READOUT_CLASS@
        },
        r.time_class@ == if facts.return_live && facts.scrub_wired {
            TIME_RETURN_CLASS@
        } else {
            TIME_CLASS@
        },
        r.time_title@ == if facts.return_live {
            "scrubbed off-live \u{2014} tap to return"@
        } else {
            ""@
        },
        r.time_disabled == !(facts.return_live && facts.scrub_wired),
        r.rate_editable == facts.rate_editable,
{
    let can_return: bool = facts.return_live && facts.scrub_wired;
    TransportChrome {
        box_class: if facts.offlive {
            BOX_OFFLIVE_CLASS
        } else {
            BOX_CLASS
        },
        canvas_class: if !facts.scrub_wired {
            CANVAS_INERT_CLASS
        } else if facts.dragging {
            CANVAS_GRABBING_CLASS
        } else {
            CANVAS_GRAB_CLASS
        },
        run_class: if facts.play_state_overridden {
            RUN_OVERRIDDEN_CLASS
        } else if facts.playing {
            RUN_PLAYING_CLASS
        } else {
            RUN_PAUSED_CLASS
        },
        run_title: if facts.playing {
            "Pause the clock"
        } else {
            "Run the clock"
        },
        run_glyph: if facts.playing {
            "\u{275a}\u{275a}"
        } else {
            "\u{25b6}"
        },
        run_disabled: !facts.play_state_wired,
        readout_class: if facts.rate_overridden {
            READOUT_OVERRIDDEN_CLASS
        } else if on_detent(facts.rate) {
            READOUT_DETENT_CLASS
        } else {
            READOUT_CLASS
        },
        time_class: if can_return {
            TIME_RETURN_CLASS
        } else {
            TIME_CLASS
        },
        time_title: if facts.return_live {
            "scrubbed off-live \u{2014} tap to return"
        } else {
            ""
        },
        time_disabled: !can_return,
        rate_editable: facts.rate_editable,
    }
}

} // verus!
