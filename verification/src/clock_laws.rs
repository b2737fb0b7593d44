//! What the clock's tape and traces and the button's press control do, said of the
//! calls that do it.

use vstd::prelude::*;
use vstd::string::*;

use crate::action::UiAction;
use crate::button_face::{
    button_identity, press_button_class, press_drawing, press_ring_stroke, press_step,
    PRESS_BUTTON_BASE_CLASS, PRESS_LABEL_CLASS, PRESS_LABEL_HELD_CLASS, PressDrawing,
    PressEvent, PressOp, PressState, PressStep, PressTimer, RING_HELD_STROKE, RING_STROKE,
    UiButtonFace,
};
use crate::clock_face::{
    clock_body, clock_note, live_traces, repaints, same_reading, starts_anew, trace_canvas_ids,
    trace_labels, ClockBody, TRACE_CLASS, TRACE_ID_CLASS, TRACE_ID_SHARED_CLASS,
    TRACE_SHARED_CLASS, TraceCard, TraceLabels, UiPhasorReading, UiTimebaseState,
};
use crate::float_bits::{less_f32, same_f32};
use crate::panel::UiPanelTarget;
use crate::slot::{LpValue, ProjectSlotAddress};
use crate::tape::{
    adjacent_detent, clock_face_text, first_fitting, first_wire, format_clock, offlive_line,
    on_detent, override_clear_action, rate_detents, scrub_step, stop_above, stop_below,
    tape_sync, tape_tick_pair, tape_ticks, tick_ladder, transport_chrome, transport_gesture,
    two_digits, wants_frame, wire_target, BOX_CLASS, BOX_OFFLIVE_CLASS, CANVAS_GRABBING_CLASS,
    CANVAS_GRAB_CLASS, CANVAS_INERT_CLASS, ClockTime, READOUT_CLASS, READOUT_DETENT_CLASS,
    READOUT_OVERRIDDEN_CLASS, RUN_OVERRIDDEN_CLASS, RUN_PAUSED_CLASS, RUN_PLAYING_CLASS,
    ScrubEvent, ScrubState, ScrubStep, TIME_CLASS, TIME_RETURN_CLASS, TapeSync, TapeTick,
    TransportChrome, TransportFacts, TransportGesture, UiPanelWire, UiPanelWireRole,
};
use crate::text::{decimal, decimal_is_injective};

verus! {

// -- digits --------------------------------------------------------------------------

proof fn two_digits_are_tens_and_ones(n: nat)
    requires
        n < 100,
    ensures
        two_digits(n) == decimal(n / 10) + decimal(n % 10),
{
    reveal_strlit("0");
    if n < 10 {
        assert(decimal(0) == "0"@);
    } else {
        assert(n / 10 < 10);
    }
}

/// The digits read hours, minutes and seconds, the last two in two digits each, and
/// leave the hours out where there are none. A negative time has a minus sign, and
/// tenths stand behind a point where they are asked for.
pub proof fn the_digits_read_the_time(
    time: ClockTime,
    hours: nat,
    minutes: nat,
    seconds: nat,
    r: String,
)
    requires
        call_ensures(format_clock, (time,), r),
        minutes < 60,
        seconds < 60,
        time.seconds == 3600 * hours + 60 * minutes + seconds,
    ensures
        ({
            let sign = if time.negative {
                "\u{2212}"@
            } else {
                Seq::<char>::empty()
            };
            let tail = match time.tenths {
                Some(tenths) => "."@ + decimal(tenths as nat),
                None => Seq::<char>::empty(),
            };
            let late = ":"@ + decimal(seconds / 10) + decimal(seconds % 10);
            let middle = if hours > 0 {
                decimal(hours) + ":"@ + decimal(minutes / 10) + decimal(minutes % 10)
            } else {
                decimal(minutes)
            };
            r@ == sign + middle + late + tail
        }),
{
    let all = time.seconds as nat;
    assert(all / 3600 == hours && (all % 3600) / 60 == minutes && all % 60 == seconds)
        by (nonlinear_arith)
        requires
            all == 3600 * hours + 60 * minutes + seconds,
            minutes < 60,
            seconds < 60,
    ;
    two_digits_are_tens_and_ones(minutes);
    two_digits_are_tens_and_ones(seconds);
    reveal_strlit("");
    assert(""@ =~= Seq::<char>::empty());
    let late = ":"@ + decimal(seconds / 10) + decimal(seconds % 10);
    let middle = if hours > 0 {
        decimal(hours) + ":"@ + decimal(minutes / 10) + decimal(minutes % 10)
    } else {
        decimal(minutes)
    };
    assert(clock_face_text(all) =~= middle + late);
    let sign = if time.negative {
        "\u{2212}"@
    } else {
        Seq::<char>::empty()
    };
    let tail = match time.tenths {
        Some(tenths) => "."@ + decimal(tenths as nat),
        None => Seq::<char>::empty(),
    };
    assert(sign + (middle + late) + tail =~= sign + middle + late + tail);
}

/// The line under the digits says how far off live the tape is, in seconds with one
/// decimal, and in which direction.
pub proof fn the_line_says_how_far_off_live(negative: bool, seconds: u64, tenth: u64, r: String)
    requires
        tenth < 10,
        seconds * 10 + tenth <= u64::MAX,
        call_ensures(offlive_line, (negative, (seconds * 10 + tenth) as u64), r),
    ensures
        r@ == (if negative {
            "\u{2212}"@
        } else {
            "+"@
        }) + decimal(seconds as nat) + "."@ + decimal(tenth as nat) + " s \u{00b7} live"@,
{
    let all = (seconds * 10 + tenth) as u64;
    assert(all / 10 == seconds && all % 10 == tenth);
}

// -- the ruler -----------------------------------------------------------------------

/// The steps of the ruler, in tenths of a second, from the finest.
pub open spec fn rungs() -> Seq<(u64, u64)> {
    seq![
        (2u64, 10u64),
        (10u64, 50u64),
        (50u64, 300u64),
        (150u64, 600u64),
        (600u64, 3000u64),
        (3000u64, 18000u64),
        (9000u64, 36000u64),
    ]
}

/// Marks and labels lie far enough apart: eight and forty-four pixels.
pub open spec fn far_enough(pair: (u64, u64), millipx_per_sec: u64) -> bool {
    pair.0 * millipx_per_sec >= 8 * 10_000 && pair.1 * millipx_per_sec >= 44 * 10_000
}

proof fn the_first_that_fits(millipx_per_sec: u64, from: int) -> (at: int)
    requires
        0 <= from < 7,
    ensures
        from <= at < 7,
        first_fitting(millipx_per_sec, from) == rungs()[at],
        at < 6 ==> far_enough(rungs()[at], millipx_per_sec),
        forall|j: int| from <= j < at ==> !far_enough(#[trigger] rungs()[j], millipx_per_sec),
    decreases 7 - from,
{
    assert(tick_ladder() =~= rungs());
    if from == 6 || far_enough(rungs()[from], millipx_per_sec) {
        from
    } else {
        the_first_that_fits(millipx_per_sec, from + 1)
    }
}

/// The ruler takes the finest step whose marks and labels lie far enough apart, and
/// the coarsest where none does.
pub proof fn the_ruler_takes_the_finest_step_that_fits(millipx_per_sec: u64, r: (u64, u64))
    requires
        call_ensures(tape_tick_pair, (millipx_per_sec,), r),
    ensures
        exists|at: int|
            {
                &&& 0 <= at < 7
                &&& r == #[trigger] rungs()[at]
                &&& at < 6 ==> far_enough(r, millipx_per_sec)
                &&& forall|j: int|
                    0 <= j < at ==> !far_enough(#[trigger] rungs()[j], millipx_per_sec)
            },
{
    let at = the_first_that_fits(millipx_per_sec, 0);
    assert(r == rungs()[at]);
}

/// The marks run from the first to the last, every one of them. Labels stand on
/// every so manieth mark, the whole number of marks nearest to the wanted distance,
/// and read the time of their mark.
pub proof fn labels_read_the_time_of_their_mark(
    first: u64,
    last: u64,
    minor: u64,
    major: u64,
    every: nat,
    i: int,
    text: String,
    r: Vec<TapeTick>,
)
    requires
        0 < minor <= 2 * major,
        last < u64::MAX,
        last * minor <= u64::MAX,
        call_ensures(tape_ticks, (first, last, minor, major), r),
        every * (2 * minor) <= 2 * major + minor < (every + 1) * (2 * minor),
        0 <= i < r@.len(),
        call_ensures(
            format_clock,
            (ClockTime {
                negative: false,
                seconds: ((first + i) * minor / 10) as u64,
                tenths: None,
            },),
            text,
        ),
    ensures
        first <= last,
        r@.len() == last - first + 1,
        r@[i].index == first + i,
        r@[i].label is Some <==> (first + i) % every as int == 0,
        r@[i].label matches Some(label) ==> label@ == text@,
{
    let (a, b) = (2 * major as int + minor, 2 * minor as int);
    assert(every as int == a / b) by (nonlinear_arith)
        requires
            every * b <= a < (every + 1) * b,
            b > 0,
    ;
    let index = first + i;
    assert(r@[i].index == index);
    assert(0 <= index * minor <= last * minor) by (nonlinear_arith)
        requires
            0 <= index <= last,
            0 <= minor,
    ;
    reveal_strlit("");
    let seconds = (index * minor / 10) as nat;
    assert(""@ + clock_face_text(seconds) + ""@ =~= clock_face_text(seconds));
    assert(index as nat * minor as nat / 10 == seconds);
}

/// Where nothing lies between the two ends there is no mark.
pub proof fn an_empty_stretch_has_no_marks(
    first: u64,
    last: u64,
    minor: u64,
    major: u64,
    r: Vec<TapeTick>,
)
    requires
        0 < minor <= 2 * major,
        last < u64::MAX,
        last * minor <= u64::MAX,
        call_ensures(tape_ticks, (first, last, minor, major), r),
    ensures
        first > last ==> r@.len() == 0,
        first <= last ==> r@.len() == last - first + 1,
{
}

// -- numbers as patterns -------------------------------------------------------------

/// The pattern stands for a number.
pub open spec fn is_number(bits: u32) -> bool {
    bits <= 0x7f80_0000 || 0x8000_0000 <= bits <= 0xff80_0000
}

/// Numbers are compared by their patterns: upwards where neither has a sign, and
/// downwards where both have; one with a sign is less than one without, but for the
/// two zeros, which are the same. What is no number compares with nothing.
pub proof fn patterns_compare_as_numbers(a: u32, b: u32, equal: bool, below: bool)
    requires
        call_ensures(same_f32, (a, b), equal),
        call_ensures(less_f32, (a, b), below),
    ensures
        !is_number(a) || !is_number(b) ==> !equal && !below,
        is_number(a) && is_number(b) ==> {
            &&& equal <==> a == b || (a == 0 && b == 0x8000_0000) || (a == 0x8000_0000 && b == 0)
            &&& a < 0x8000_0000 && b < 0x8000_0000 ==> (below <==> a < b)
            &&& a >= 0x8000_0000 && b >= 0x8000_0000 ==> (below <==> b < a)
            &&& a >= 0x8000_0000 && b < 0x8000_0000 ==> (below <==> !(a == 0x8000_0000 && b == 0))
            &&& a < 0x8000_0000 && b >= 0x8000_0000 ==> !below
        },
{
}

/// The stops of the speed fader: a quarter, a half, one, two, four and eight.
pub open spec fn stops() -> Seq<u32> {
    seq![
        0x3e80_0000u32,
        0x3f00_0000u32,
        0x3f80_0000u32,
        0x4000_0000u32,
        0x4080_0000u32,
        0x4100_0000u32,
    ]
}

/// A rate is on a stop where it is one of them.
pub proof fn a_rate_sits_on_a_stop(rate: u32, r: bool)
    requires
        call_ensures(on_detent, (rate,), r),
    ensures
        r <==> stops().contains(rate),
{
    assert(rate_detents() =~= stops());
    if r {
        let i = choose|i: int|
            0 <= i < rate_detents().len() && crate::float_bits::same_number(
                rate_detents()[i],
                rate,
            );
        assert(i == 0 || i == 1 || i == 2 || i == 3 || i == 4 || i == 5);
        assert(stops()[i] == rate);
    }
    if stops().contains(rate) {
        let i = choose|i: int| 0 <= i < stops().len() && stops()[i] == rate;
        assert(i == 0 || i == 1 || i == 2 || i == 3 || i == 4 || i == 5);
        assert(crate::float_bits::same_number(rate_detents()[i], rate));
    }
}

/// An arrow key steps from a rate to the nearest stop strictly above or below it,
/// and to the end of the fader where there is none. A rate below zero lies below
/// every stop. From what is no number it is the end of its direction.
pub proof fn an_arrow_steps_to_the_adjacent_stop(rate: u32, up: u32, down: u32)
    requires
        call_ensures(adjacent_detent, (rate, true), up),
        call_ensures(adjacent_detent, (rate, false), down),
    ensures
        stops().contains(up) && stops().contains(down),
        rate <= 0x7f80_0000 ==> {
            &&& rate < stops()[5] ==> rate < up && forall|i: int|
                0 <= i < 6 && rate < #[trigger] stops()[i] ==> up <= stops()[i]
            &&& rate >= stops()[5] ==> up == stops()[5]
            &&& rate > stops()[0] ==> down < rate && forall|i: int|
                0 <= i < 6 && #[trigger] stops()[i] < rate ==> stops()[i] <= down
            &&& rate <= stops()[0] ==> down == stops()[0]
        },
        0x8000_0000 <= rate <= 0xff80_0000 ==> up == stops()[0] && down == stops()[0],
        !is_number(rate) ==> up == stops()[5] && down == stops()[0],
{
    reveal_with_fuel(stop_above, 8);
    reveal_with_fuel(stop_below, 8);
    assert(rate_detents() =~= stops());
    assert(stops().contains(stops()[0]));
    assert(stops().contains(stops()[1]));
    assert(stops().contains(stops()[2]));
    assert(stops().contains(stops()[3]));
    assert(stops().contains(stops()[4]));
    assert(stops().contains(stops()[5]));
}

// -- where a gesture lands -----------------------------------------------------------

proof fn the_first_wire_of_a_role(wires: Seq<UiPanelWire>, role: UiPanelWireRole, from: int)
    requires
        0 <= from <= wires.len(),
    ensures
        from <= first_wire(wires, role, from) <= wires.len(),
        first_wire(wires, role, from) < wires.len() ==> wires[first_wire(wires, role, from)].role
            == role,
        forall|j: int|
            from <= j < first_wire(wires, role, from) ==> (#[trigger] wires[j]).role != role,
    decreases wires.len() - from,
{
    if from < wires.len() && wires[from].role != role {
        the_first_wire_of_a_role(wires, role, from + 1);
    }
}

/// Nothing before `at` is a wire of the role, and `at` is one or the end.
pub open spec fn is_first_wire(wires: Seq<UiPanelWire>, role: UiPanelWireRole, at: int) -> bool {
    &&& 0 <= at <= wires.len()
    &&& at < wires.len() ==> wires[at].role == role
    &&& forall|j: int| 0 <= j < at ==> (#[trigger] wires[j]).role != role
}

/// A dimension's gestures land on the panel channel of its first wire, and on its
/// own slot where there is no such channel. With neither there is no gesture.
pub proof fn a_gesture_lands_on_its_own_dimension(
    role: UiPanelWireRole,
    address: &Option<ProjectSlotAddress>,
    wires: &Vec<UiPanelWire>,
    at: int,
    target: Option<UiPanelTarget>,
    r: Option<TransportGesture>,
)
    requires
        is_first_wire(wires@, role, at),
        call_ensures(wire_target, (wires, role), target),
        call_ensures(transport_gesture, (role, address, wires), r),
    ensures
        at < wires@.len() ==> target == wires@[at].panel_target,
        at == wires@.len() ==> target is None,
        r is Some <==> target is Some || address is Some,
        r matches Some(gesture) ==> gesture.panel_target == target && gesture.address == *address,
{
    the_first_wire_of_a_role(wires@, role, 0);
    let first = first_wire(wires@, role, 0);
    if first < at {
        assert(wires@[first].role != role);
    } else if at < first {
        assert(wires@[at].role != role);
    }
    assert(target == crate::tape::wired_target(wires@, role));
}

/// Sending writes the very value: to the panel channel where there is one, by its
/// scope and name, and to the slot otherwise.
pub proof fn sending_writes_the_value(
    gesture: &TransportGesture,
    value: LpValue,
    r: Option<UiAction>,
)
    requires
        call_ensures(TransportGesture::send, (gesture, value), r),
    ensures
        gesture.panel_target matches Some(target) ==> (r matches Some(
            UiAction::PanelWrite { scope, channel, value: sent },
        ) && scope == target.scope && channel@ == target.channel@ && sent@ == value@),
        gesture.panel_target is None ==> (gesture.address matches Some(slot) ==> (r matches Some(
            UiAction::SetValue { address, value: sent },
        ) && address@ == slot@ && sent@ == value@)),
        gesture.panel_target is None && gesture.address is None ==> r is None,
{
}

/// Clearing an override drops the pending edits of its slot, and there is nothing to
/// clear without one.
pub proof fn clearing_an_override_drops_its_edits(
    target: &Option<ProjectSlotAddress>,
    r: Option<UiAction>,
)
    requires
        call_ensures(override_clear_action, (target,), r),
    ensures
        r is Some <==> target is Some,
        r matches Some(action) ==> (action matches UiAction::ClearEdit { address } && address@
            == target->Some_0@),
{
}

// -- dragging the tape ---------------------------------------------------------------

/// A value is sent only while it is under the finger: on a move the one it moved to,
/// and on letting go the one that was shown last. Going down and giving up send
/// nothing, and nothing is sent where it would not land.
pub proof fn only_what_is_under_the_finger_is_sent(
    state: ScrubState,
    event: ScrubEvent,
    wired: bool,
    r: ScrubStep,
)
    requires
        call_ensures(scrub_step, (state, event, wired), r),
    ensures
        !wired ==> r.send is None,
        event == ScrubEvent::Down ==> r.send is None,
        event == ScrubEvent::Cancel ==> r.send is None,
        event == ScrubEvent::Up && wired ==> r.send == state.preview,
        event matches ScrubEvent::Move { buttons_held, next, now_ms } ==> {
            &&& r.send is Some ==> r.send == Some(next)
            &&& r.send is Some <==> wired && state.dragging && buttons_held && now_ms
                >= state.last_sent_ms && now_ms - state.last_sent_ms >= 50
        },
{
}

/// What is shown under the finger is where it was last moved to. It is shown from
/// the first move of a drag on, and from its end on no more.
pub proof fn the_tape_shows_where_the_finger_is(
    state: ScrubState,
    event: ScrubEvent,
    wired: bool,
    r: ScrubStep,
)
    requires
        call_ensures(scrub_step, (state, event, wired), r),
    ensures
        event == ScrubEvent::Down ==> r.state == (ScrubState {
            dragging: wired || state.dragging,
            ..state
        }) && !r.repaint,
        event == ScrubEvent::Up || event == ScrubEvent::Cancel ==> !r.state.dragging
            && r.state.preview is None && r.state.last_sent_ms == state.last_sent_ms && r.repaint,
        event matches ScrubEvent::Move { buttons_held, next, now_ms } ==> {
            &&& !state.dragging ==> r.state == state && !r.repaint
            &&& state.dragging && !buttons_held ==> !r.state.dragging && r.state.preview is None
                && r.repaint && r.state.last_sent_ms == state.last_sent_ms
            &&& state.dragging && buttons_held && wired ==> r.state.dragging && r.state.preview
                == Some(next) && r.repaint && r.state.last_sent_ms == if r.send is Some {
                now_ms
            } else {
                state.last_sent_ms
            }
            &&& state.dragging && buttons_held && !wired ==> r.state == state && !r.repaint
        },
{
}

/// A press of the tape that is let go without a move sends nothing, so what was
/// scrubbed before stays.
pub proof fn a_mere_click_keeps_the_offset(
    state: ScrubState,
    wired: bool,
    down: ScrubStep,
    up: ScrubStep,
)
    requires
        state.preview is None,
        call_ensures(scrub_step, (state, ScrubEvent::Down, wired), down),
        call_ensures(scrub_step, (down.state, ScrubEvent::Up, wired), up),
    ensures
        down.send is None,
        up.send is None,
        !up.state.dragging,
        up.state.preview is None,
        up.state.last_sent_ms == state.last_sent_ms,
{
}

/// However fast the moves come, letting go leaves the value that the finger was moved
/// to last.
pub proof fn letting_go_sends_the_last_move(
    state: ScrubState,
    next: u32,
    now_ms: u64,
    moved: ScrubStep,
    up: ScrubStep,
)
    requires
        state.dragging,
        call_ensures(
            scrub_step,
            (state, ScrubEvent::Move { buttons_held: true, next, now_ms }, true),
            moved,
        ),
        call_ensures(scrub_step, (moved.state, ScrubEvent::Up, true), up),
    ensures
        up.send == Some(next),
{
}

/// A reading is counted from and painted where it is new and no finger is on the
/// tape. A frame is asked for once at a time, while there is something to show on a
/// page that moves.
pub proof fn the_picture_keeps_in_step(
    dragging: bool,
    same: Option<bool>,
    sync: TapeSync,
    pending: bool,
    anything: bool,
    frozen: Option<bool>,
    frame: bool,
)
    requires
        call_ensures(tape_sync, (dragging, same), sync),
        call_ensures(wants_frame, (pending, anything, frozen), frame),
    ensures
        dragging ==> !sync.reanchor && !sync.paint,
        same == Some(true) ==> !sync.reanchor && !sync.paint,
        !dragging && same != Some(true) ==> sync.reanchor && sync.paint,
        pending || !anything || frozen == Some(true) ==> !frame,
        !pending && anything && frozen != Some(true) ==> frame,
{
}

/// The transport wears its states: an override before what it overrides, amber off
/// live, and a button that does something only where it would land.
pub proof fn the_transport_shows_its_states(facts: TransportFacts, r: TransportChrome, on_stop: bool)
    requires
        call_ensures(transport_chrome, (facts,), r),
        call_ensures(on_detent, (facts.rate,), on_stop),
    ensures
        r.run_disabled <==> !facts.play_state_wired,
        r.time_disabled <==> !facts.return_live || !facts.scrub_wired,
        r.rate_editable == facts.rate_editable,
        facts.playing ==> r.run_title@ == "Pause the clock"@ && r.run_glyph@
            == "\u{275a}\u{275a}"@,
        !facts.playing ==> r.run_title@ == "Run the clock"@ && r.run_glyph@ == "\u{25b6}"@,
        facts.return_live ==> r.time_title@ == "scrubbed off-live \u{2014} tap to return"@,
        !facts.return_live ==> r.time_title@.len() == 0,
        r.time_class@ == if r.time_disabled {
            TIME_CLASS@
        } else {
            TIME_RETURN_CLASS@
        },
        facts.offlive ==> r.box_class@ == BOX_OFFLIVE_CLASS@,
        !facts.offlive ==> r.box_class@ == BOX_CLASS@,
        facts.play_state_overridden ==> r.run_class@ == RUN_OVERRIDDEN_CLASS@,
        !facts.play_state_overridden && facts.playing ==> r.run_class@ == RUN_PLAYING_CLASS@,
        !facts.play_state_overridden && !facts.playing ==> r.run_class@ == RUN_PAUSED_CLASS@,
        facts.rate_overridden ==> r.readout_class@ == READOUT_OVERRIDDEN_CLASS@,
        !facts.rate_overridden && on_stop ==> r.readout_class@ == READOUT_DETENT_CLASS@,
        !facts.rate_overridden && !on_stop ==> r.readout_class@ == READOUT_CLASS@,
        !facts.scrub_wired ==> r.canvas_class@ == CANVAS_INERT_CLASS@,
        facts.scrub_wired && facts.dragging ==> r.canvas_class@ == CANVAS_GRABBING_CLASS@,
        facts.scrub_wired && !facts.dragging ==> r.canvas_class@ == CANVAS_GRAB_CLASS@,
{
    reveal_strlit("");
}

// -- the press control ---------------------------------------------------------------

/// Going down starts the window of a new gesture and sends nothing.
pub proof fn going_down_starts_the_window(state: PressState, id: u32, r: PressStep)
    requires
        call_ensures(press_step, (state, PressEvent::PointerDown { id }, true), r),
    ensures
        r.state.gesture == Some(id) && !r.state.held,
        r.send is None,
        r.start == Some(PressTimer::Window { id, after_ms: 300 }),
{
}

/// A timer of the gesture under way presses the button under the gesture's own
/// number, for five seconds, and is due again after one. The window makes the
/// gesture a hold; a renewal leaves it what it is. A timer of any other gesture does
/// nothing.
pub proof fn a_hold_is_pressed_again_and_again(
    state: PressState,
    id: u32,
    window: PressStep,
    renewal: PressStep,
)
    requires
        call_ensures(press_step, (state, PressEvent::WindowElapsed { id }, true), window),
        call_ensures(press_step, (state, PressEvent::RenewalElapsed { id }, true), renewal),
    ensures
        state.gesture == Some(id) ==> {
            &&& window.state.gesture == Some(id) && window.state.held
            &&& renewal.state == state
            &&& window.send == Some(PressOp::Press { id, ttl_ms: 5000 })
            &&& renewal.send == Some(PressOp::Press { id, ttl_ms: 5000 })
            &&& window.start == Some(PressTimer::Renewal { id, after_ms: 1000 })
            &&& renewal.start == Some(PressTimer::Renewal { id, after_ms: 1000 })
        },
        state.gesture != Some(id) ==> {
            &&& window.state == state && window.send is None && window.start is None
            &&& renewal.state == state && renewal.send is None && renewal.start is None
        },
{
}

/// Letting go ends the gesture: a hold is released under its own number, and what is
/// no hold is a click. Giving up releases a hold too but never clicks. With no
/// gesture under way neither does anything, and no timer is started.
pub proof fn letting_go_ends_the_gesture(state: PressState, up: PressStep, cancel: PressStep)
    requires
        call_ensures(press_step, (state, PressEvent::PointerUp, true), up),
        call_ensures(press_step, (state, PressEvent::PointerCancel, true), cancel),
    ensures
        up.start is None && cancel.start is None,
        state.gesture matches Some(id) ==> {
            &&& up.state.gesture is None && !up.state.held
            &&& cancel.state.gesture is None && !cancel.state.held
            &&& state.held ==> up.send == Some(PressOp::Release { id }) && cancel.send == Some(
                PressOp::Release { id },
            )
            &&& !state.held ==> up.send == Some(PressOp::Click) && cancel.send is None
        },
        state.gesture is None ==> up.state == state && up.send is None && cancel.state == state
            && cancel.send is None,
{
}

/// A control that nothing listens to does nothing whatever happens to it.
pub proof fn a_control_without_a_listener_does_nothing(
    state: PressState,
    event: PressEvent,
    r: PressStep,
)
    requires
        call_ensures(press_step, (state, event, false), r),
    ensures
        r.state == state && r.send is None && r.start is None,
{
}

/// The control looks pressed while the finger is on it or it is held, and lit only
/// while it is held.
pub proof fn the_control_looks_as_it_is(
    state: PressState,
    wired: bool,
    r: PressDrawing,
    stroke: &'static str,
    class: String,
)
    requires
        call_ensures(press_drawing, (state,), r),
        call_ensures(press_ring_stroke, (state.held,), stroke),
        call_ensures(press_button_class, (wired,), class),
    ensures
        r.stroke@ == stroke@,
        state.held ==> stroke@ == RING_HELD_STROKE@ && r.ring_width@ == "2"@ && r.label_class@
            == PRESS_LABEL_HELD_CLASS@,
        !state.held ==> stroke@ == RING_STROKE@ && r.ring_width@ == "1.5"@ && r.label_class@
            == PRESS_LABEL_CLASS@,
        state.gesture is Some || state.held ==> r.cap_y@ == "24.8"@ && r.cap_radius@ == "11.75"@
            && !r.highlight,
        state.gesture is None && !state.held ==> r.cap_y@ == "24"@ && r.cap_radius@ == "12.5"@
            && r.highlight,
        wired ==> class@ == PRESS_BUTTON_BASE_CLASS@ + " tw:cursor-pointer"@,
        !wired ==> class@ == PRESS_BUTTON_BASE_CLASS@ + " tw:opacity-60"@,
{
}

/// The button is named by what is known of it.
pub proof fn a_button_is_named_by_what_is_known(face: &UiButtonFace, r: Option<String>)
    requires
        call_ensures(button_identity, (face,), r),
    ensures
        r is Some <==> face.endpoint is Some || face.id is Some,
        face.id is None ==> (face.endpoint matches Some(endpoint) ==> r->Some_0@ == endpoint@),
        face.endpoint is None ==> (face.id matches Some(id) ==> r->Some_0@ == "id "@ + decimal(
            id as nat,
        )),
        face.endpoint matches Some(endpoint) ==> (face.id matches Some(id) ==> r->Some_0@
            == endpoint@ + " · id "@ + decimal(id as nat)),
{
}

// -- the traces ----------------------------------------------------------------------

/// Two numbers compare equal.
pub open spec fn equal_numbers(a: u32, b: u32) -> bool {
    is_number(a) && is_number(b) && (a == b || (a == 0 && b == 0x8000_0000) || (a == 0x8000_0000
        && b == 0))
}

/// Two readings say the same where nothing in them differs: their words, their
/// sharing, their cycle and waveform, and each of their numbers.
pub proof fn readings_are_the_same_where_nothing_differs(
    a: &UiPhasorReading,
    b: &UiPhasorReading,
    r: bool,
)
    requires
        call_ensures(UiPhasorReading::same, (a, b), r),
    ensures
        r <==> {
            &&& a.label@ == b.label@
            &&& a.detail is Some <==> b.detail is Some
            &&& a.detail matches Some(detail) ==> detail@ == b.detail->Some_0@
            &&& a.shared == b.shared
            &&& equal_numbers(a.phase, b.phase)
            &&& a.cycle == b.cycle
            &&& equal_numbers(a.period_seconds, b.period_seconds)
            &&& a.rate_display@ == b.rate_display@
            &&& a.waveform == b.waveform
            &&& equal_numbers(a.phase_offset, b.phase_offset)
        },
        same_reading(*a, *b) == r,
{
}

/// A trace goes on only on its own canvas and with a reading that says nothing new;
/// a trace that was not there before starts anew.
pub proof fn a_trace_goes_on_where_nothing_is_new(
    cards: Seq<TraceCard>,
    ids: Seq<String>,
    readings: Seq<UiPhasorReading>,
    i: int,
    same: bool,
)
    requires
        0 <= i < readings.len() == ids.len(),
        i < cards.len() ==> call_ensures(
            UiPhasorReading::same,
            (&cards[i].reading, &readings[i]),
            same,
        ),
    ensures
        i >= cards.len() ==> starts_anew(cards, ids, readings, i),
        i < cards.len() ==> (starts_anew(cards, ids, readings, i) <==> cards[i].canvas_id@
            != ids[i]@ || !same),
{
}

/// The traces painted at once are exactly those that start anew, in order.
pub proof fn what_starts_anew_is_painted_at_once(
    cards: Seq<TraceCard>,
    ids: Seq<String>,
    readings: Seq<UiPhasorReading>,
    n: nat,
)
    requires
        n <= readings.len() <= usize::MAX,
    ensures
        forall|i: int|
            0 <= i < n ==> (starts_anew(cards, ids, readings, i) <==> #[trigger] repaints(
                cards,
                ids,
                readings,
                n,
            ).contains(i as usize)),
        forall|a: int, b: int|
            0 <= a < b < repaints(cards, ids, readings, n).len() ==> #[trigger] repaints(
                cards,
                ids,
                readings,
                n,
            )[a] < #[trigger] repaints(cards, ids, readings, n)[b],
        forall|a: int|
            0 <= a < repaints(cards, ids, readings, n).len() ==> #[trigger] repaints(
                cards,
                ids,
                readings,
                n,
            )[a] < n,
    decreases n,
{
    if n > 0 {
        let before = repaints(cards, ids, readings, (n - 1) as nat);
        let all = repaints(cards, ids, readings, n);
        what_starts_anew_is_painted_at_once(cards, ids, readings, (n - 1) as nat);
        assert forall|i: int| 0 <= i < n implies (starts_anew(cards, ids, readings, i)
            <==> #[trigger] all.contains(i as usize)) by {
            if starts_anew(cards, ids, readings, n - 1) {
                assert(all == before.push((n - 1) as usize));
                if i == n - 1 {
                    assert(all[before.len() as int] == i as usize);
                } else {
                    if before.contains(i as usize) {
                        let a = choose|a: int| 0 <= a < before.len() && before[a] == i as usize;
                        assert(all[a] == i as usize);
                    }
                    if all.contains(i as usize) {
                        let a = choose|a: int| 0 <= a < all.len() && all[a] == i as usize;
                        assert(before[a] == i as usize);
                    }
                }
            } else if i == n - 1 {
                if all.contains(i as usize) {
                    let a = choose|a: int| 0 <= a < all.len() && all[a] == i as usize;
                    assert(before[a] < n - 1);
                }
            }
        }
    }
}

/// The face tells its three states apart, and a live timebase that nothing rides is
/// no fault. Only a live one is animated, and with every reading.
pub proof fn a_clock_says_which_state_it_is_in(
    timebase: UiTimebaseState,
    readings: usize,
    body: ClockBody,
    note: Option<&'static str>,
    traces: usize,
)
    requires
        call_ensures(clock_body, (timebase, readings), body),
        call_ensures(clock_note, (body,), note),
        call_ensures(live_traces, (timebase, readings), traces),
    ensures
        timebase == UiTimebaseState::Unread ==> (note matches Some(words) && words@
            == "Reading the timebase\u{2026}"@) && traces == 0,
        timebase == UiTimebaseState::Unknown ==> (note matches Some(words) && words@
            == "This clock is not producing a timebase."@) && traces == 0,
        timebase == UiTimebaseState::Live && readings == 0 ==> (note matches Some(words) && words@
            == "Nothing is riding this timebase."@),
        timebase == UiTimebaseState::Live && readings > 0 ==> note is None && body
            == ClockBody::Traces(readings),
        timebase == UiTimebaseState::Live ==> traces == readings,
{
}

/// Every trace has a canvas of its own, named after the face and its place.
pub proof fn every_trace_has_a_canvas_of_its_own(base: &str, count: usize, ids: Vec<String>)
    requires
        call_ensures(trace_canvas_ids, (base, count), ids),
    ensures
        ids@.len() == count,
        forall|i: int|
            0 <= i < count ==> (#[trigger] ids@[i])@ == base@ + "-"@ + decimal(i as nat),
        forall|i: int, j: int|
            0 <= i < j < count ==> (#[trigger] ids@[i])@ != (#[trigger] ids@[j])@,
{
    assert forall|i: int, j: int| 0 <= i < j < count implies (#[trigger] ids@[i])@ != (
    #[trigger] ids@[j])@ by {
        if ids@[i]@ == ids@[j]@ {
            let head = base@ + "-"@;
            assert(ids@[i]@.skip(head.len() as int) =~= decimal(i as nat));
            assert(ids@[j]@.skip(head.len() as int) =~= decimal(j as nat));
            decimal_is_injective(i as nat, j as nat);
        }
    }
}

/// A trace card says who reads it and how many cycles it has run; sharing is in its
/// border and in the colour of its name.
pub proof fn a_trace_card_says_who_reads(reading: &UiPhasorReading, r: TraceLabels)
    requires
        call_ensures(trace_labels, (reading,), r),
    ensures
        reading.shared ==> r.card_class@ == TRACE_SHARED_CLASS@ && r.id_class@
            == TRACE_ID_SHARED_CLASS@,
        !reading.shared ==> r.card_class@ == TRACE_CLASS@ && r.id_class@ == TRACE_ID_CLASS@,
        reading.detail matches Some(detail) ==> r.id_title@ == detail@,
        reading.detail is None ==> r.id_title@ == reading.label@,
        r.cycles@ == "\u{00d7}"@ + decimal(reading.cycle as nat),
{
}

} // verus!
