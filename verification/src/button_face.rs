//! The press control of a button's card.
//!
//! One control covers both things a finger can do. Letting go soon is a click;
//! staying down past a short window is a hold, which is sent again and again
//! until the finger lifts. The device lets a hold go by itself when it is no
//! longer renewed, so nothing has to be sent when a card goes away.

use vstd::prelude::*;
use vstd::string::*;

use crate::text::{decimal, decimal_text};

verus! {

/// How long the pointer stays down before the gesture is a hold.
pub const PRESS_WINDOW_MS: u32 = 300;

/// How often a hold is sent again.
pub const RENEWAL_MS: u32 = 1000;

/// After how long the device lets go of a hold that is not renewed.
pub const HOLD_TTL_MS: u32 = 5000;

/// The numbers that tell one gesture from another.
#[derive(Clone, Copy, Debug, PartialEq, Eq, Structural)]
pub struct PressIds {
    pub next: u32,
}

impl PressIds {
    /// The first gesture is number one.
    pub fn new() -> (r: Self)
        ensures
            r.next == 1,
    {
        PressIds { next: 1 }
    }

    /// Takes the next number; after the last one they start over.
    pub fn next_press_id(&mut self) -> (r: u32)
        ensures
            r == old(self).next,
            final(self).next == if old(self).next == u32::MAX {
                0u32
            } else {
                (old(self).next + 1) as u32
            },
    {
        let id: u32 = self.next;
        self.next = if id == u32::MAX {
            0
        } else {
            id + 1
        };
        id
    }
}

/// The gesture under way, and whether it has become a hold.
#[derive(Clone, Copy, Debug, PartialEq, Eq, Structural)]
pub struct PressState {
    pub gesture: Option<u32>,
    pub held: bool,
}

/// What happens to the control.
#[derive(Clone, Copy, Debug, PartialEq, Eq, Structural)]
pub enum PressEvent {
    /// The pointer goes down, under a new number.
    PointerDown { id: u32 },
    /// The window that started with a gesture is over.
    WindowElapsed { id: u32 },
    /// A hold is due to be sent again.
    RenewalElapsed { id: u32 },
    PointerUp,
    PointerCancel,
}

/// What is sent to the device.
#[derive(Clone, Copy, Debug, PartialEq, Eq, Structural)]
pub enum PressOp {
    Press { id: u32, ttl_ms: u32 },
    Release { id: u32 },
    Click,
}

/// A timer to start.
#[derive(Clone, Copy, Debug, PartialEq, Eq, Structural)]
pub enum PressTimer {
    Window { id: u32, after_ms: u32 },
    Renewal { id: u32, after_ms: u32 },
}

/// What one event comes to.
#[derive(Clone, Copy, Debug, PartialEq, Eq, Structural)]
pub struct PressStep {
    pub state: PressState,
    pub send: Option<PressOp>,
    pub start: Option<PressTimer>,
}

/// Nothing happens.
pub open spec fn idle(state: PressState) -> PressStep {
    PressStep { state, send: None, start: None }
}

/// The hold of gesture `id`, sent and due again.
pub open spec fn renewed(id: u32) -> PressStep {
    PressStep {
        state: PressState { gesture: Some(id), held: true },
        send: Some(PressOp::Press { id, ttl_ms: HOLD_TTL_MS }),
        start: Some(PressTimer::Renewal { id, after_ms: RENEWAL_MS }),
    }
}

/// What an event comes to. A control that nothing listens to does nothing.
pub open spec fn press_step_of(state: PressState, event: PressEvent, wired: bool) -> PressStep {
    if !wired {
        idle(state)
    } else {
        match event {
            PressEvent::PointerDown { id } => PressStep {
                state: PressState { gesture: Some(id), held: false },
                send: None,
                start: Some(PressTimer::Window { id, after_ms: PRESS_WINDOW_MS }),
            },
            PressEvent::WindowElapsed { id } => if state.gesture == Some(id) {
                renewed(id)
            } else {
                idle(state)
            },
            PressEvent::RenewalElapsed { id } => if state.gesture == Some(id) {
                PressStep { state, ..renewed(id) }
            } else {
                idle(state)
            },
            PressEvent::PointerUp => match state.gesture {
                Some(id) => PressStep {
                    state: PressState { gesture: None, held: false },
                    send: Some(
                        if state.held {
                            PressOp::Release { id }
                        } else {
                            PressOp::Click
                        },
                    ),
                    start: None,
                },
                None => idle(state),
            },
            PressEvent::PointerCancel => match state.gesture {
                Some(id) => PressStep {
                    state: PressState { gesture: None, held: false },
                    send: if state.held {
                        Some(PressOp::Release { id })
                    } else {
                        None
                    },
                    start: None,
                },
                None => idle(state),
            },
        }
    }
}

/// What an event comes to.
pub fn press_step(state: PressState, event: PressEvent, wired: bool) -> (r: PressStep)
    ensures
        r == press_step_of(state, event, wired),
{
    let nothing: PressStep = PressStep { state, send: None, start: None };
    if !wired {
        return nothing;
    }
    let at_rest: PressState = PressState { gesture: None, held: false };
    match event {
        PressEvent::PointerDown { id } => PressStep {
            state: PressState { gesture: Some(id), held: false },
            send: None,
            start: Some(PressTimer::Window { id, after_ms: PRESS_WINDOW_MS }),
        },
        PressEvent::WindowElapsed { id } => match state.gesture {
            Some(current) if current == id => PressStep {
                state: PressState { gesture: Some(id), held: true },
                send: Some(PressOp::Press { id, ttl_ms: HOLD_TTL_MS }),
                start: Some(PressTimer::Renewal { id, after_ms: RENEWAL_MS }),
            },
            _ => nothing,
        },
        PressEvent::RenewalElapsed { id } => match state.gesture {
            Some(current) if current == id => PressStep {
                state,
                send: Some(PressOp::Press { id, ttl_ms: HOLD_TTL_MS }),
                start: Some(PressTimer::Renewal { id, after_ms: RENEWAL_MS }),
            },
            _ => nothing,
        },
        PressEvent::PointerUp => match state.gesture {
            Some(id) => PressStep {
                state: at_rest,
                send: Some(
                    if state.held {
                        PressOp::Release { id }
                    } else {
                        PressOp::Click
                    },
                ),
                start: None,
            },
            None => nothing,
        },
        PressEvent::PointerCancel => match state.gesture {
            Some(id) => PressStep {
                state: at_rest,
                send: if state.held {
                    Some(PressOp::Release { id })
                } else {
                    None
                },
                start: None,
            },
            None => nothing,
        },
    }
}

// -- what holds of every gesture ---------------------------------------------------

/// A timer ran out.
pub open spec fn is_timer(event: PressEvent) -> bool {
    event is WindowElapsed || event is RenewalElapsed
}

/// The state after a list of events.
pub open spec fn press_run(state: PressState, events: Seq<PressEvent>) -> PressState
    decreases events.len(),
{
    if events.len() == 0 {
        state
    } else {
        press_step_of(press_run(state, events.drop_last()), events.last(), true).state
    }
}

/// The window of gesture `id` ran out among these events.
pub open spec fn window_passed(events: Seq<PressEvent>, id: u32) -> bool {
    exists|i: int| 0 <= i < events.len() && events[i] == (PressEvent::WindowElapsed { id })
}

proof fn timers_keep_the_gesture(id: u32, events: Seq<PressEvent>)
    requires
        forall|i: int| 0 <= i < events.len() ==> is_timer(#[trigger] events[i]),
    ensures
        press_run(PressState { gesture: Some(id), held: false }, events) == (PressState {
            gesture: Some(id),
            held: window_passed(events, id),
        }),
    decreases events.len(),
{
    if events.len() > 0 {
        let head = events.drop_last();
        assert forall|i: int| 0 <= i < head.len() implies is_timer(#[trigger] head[i]) by {
            assert(head[i] == events[i]);
        }
        timers_keep_the_gesture(id, head);
        assert(is_timer(events[events.len() - 1]));
        if window_passed(head, id) {
            let k = choose|i: int|
                0 <= i < head.len() && head[i] == (PressEvent::WindowElapsed { id });
            assert(events[k] == head[k]);
        }
        if events.last() == (PressEvent::WindowElapsed { id }) {
            assert(events[events.len() - 1] == (PressEvent::WindowElapsed { id }));
        } else if window_passed(events, id) {
            let k = choose|i: int|
                0 <= i < events.len() && events[i] == (PressEvent::WindowElapsed { id });
            assert(head[k] == events[k]);
        }
    }
}

/// A gesture ends in exactly one of two ways. Let go before its window is over,
/// it is a click. Let go after, it is the release of the very hold it sent.
/// Timers of other gestures do not matter.
pub proof fn a_gesture_is_a_click_or_a_hold(
    before: PressState,
    id: u32,
    timers: Seq<PressEvent>,
)
    requires
        forall|i: int| 0 <= i < timers.len() ==> is_timer(#[trigger] timers[i]),
    ensures
        ({
            let down = press_step_of(before, PressEvent::PointerDown { id }, true).state;
            let up = press_step_of(press_run(down, timers), PressEvent::PointerUp, true);
            &&& up.state == (PressState { gesture: None, held: false })
            &&& up.send == Some(
                if window_passed(timers, id) {
                    PressOp::Release { id }
                } else {
                    PressOp::Click
                },
            )
        }),
{
    timers_keep_the_gesture(id, timers);
}

/// A cancelled gesture never clicks, but a hold is let go.
pub proof fn a_cancelled_gesture_never_clicks(state: PressState)
    ensures
        press_step_of(state, PressEvent::PointerCancel, true).send != Some(PressOp::Click),
        state.held ==> (state.gesture matches Some(id) ==> press_step_of(
            state,
            PressEvent::PointerCancel,
            true,
        ).send == Some(PressOp::Release { id })),
{
}

/// A timer of a gesture that is over does nothing: it sends nothing and starts
/// no other timer, so a hold is not renewed past its end.
pub proof fn a_stale_timer_does_nothing(state: PressState, event: PressEvent)
    requires
        match event {
            PressEvent::WindowElapsed { id } => state.gesture != Some(id),
            PressEvent::RenewalElapsed { id } => state.gesture != Some(id),
            _ => false,
        },
    ensures
        press_step_of(state, event, true) == idle(state),
{
}

/// A hold outlives a missed renewal, and is established before the first one is
/// due.
pub proof fn renewals_stay_well_inside_the_hold()
    ensures
        RENEWAL_MS * 2 < HOLD_TTL_MS,
        PRESS_WINDOW_MS < RENEWAL_MS,
{
}

// -- the readout -------------------------------------------------------------------

/// What the card knows of the button.
#[derive(Clone, Debug, PartialEq, Eq)]
pub struct UiButtonFace {
    pub node: String,
    pub endpoint: Option<String>,
    pub id: Option<u32>,
}

/// The button's identity beside the control: the endpoint, the message id, or
/// both.
pub fn button_identity(face: &UiButtonFace) -> (r: Option<String>)
    ensures
        match (face.endpoint, face.id) {
            (Some(endpoint), Some(id)) => r matches Some(text) && text@ == endpoint@ + " · id "@
                + decimal(id as nat),
            (Some(endpoint), None) => r matches Some(text) && text@ == endpoint@,
            (None, Some(id)) => r matches Some(text) && text@ == "id "@ + decimal(id as nat),
            (None, None) => r is None,
        },
{
    match (&face.endpoint, face.id) {
        (Some(endpoint), Some(id)) => {
            let mut out: String = endpoint.clone();
            out.append(" · id ");
            out.append(decimal_text(id as u64).as_str());
            Some(out)
        },
        (Some(endpoint), None) => Some(endpoint.clone()),
        (None, Some(id)) => {
            let mut out: String = "id ".to_string();
            out.append(decimal_text(id as u64).as_str());
            Some(out)
        },
        (None, None) => None,
    }
}

pub const RING_HELD_STROKE: &'static str = "var(--studio-status-live-border)";

pub const RING_STROKE: &'static str = "var(--studio-color-border-strong)";

/// The stroke of the ring and the cap.
pub fn press_ring_stroke(held: bool) -> (r: &'static str)
    ensures
        r@ == if held {
            RING_HELD_STROKE@
        } else {
            RING_STROKE@
        },
{
    if held {
        RING_HELD_STROKE
    } else {
        RING_STROKE
    }
}

pub const PRESS_BUTTON_BASE_CLASS: &'static str = "tw:inline-flex tw:flex-none tw:touch-none tw:select-none tw:appearance-none tw:items-center tw:rounded-full tw:border-none tw:bg-transparent tw:p-0 tw:outline-none tw:focus-visible:outline tw:focus-visible:outline-1 tw:focus-visible:outline-border-strong";

/// The classes of the control.
pub fn press_button_class(wired: bool) -> (r: String)
    ensures
        r@ == PRESS_BUTTON_BASE_CLASS@ + (if wired {
            " tw:cursor-pointer"@
        } else {
            " tw:opacity-60"@
        }),
{
    let mut out: String = PRESS_BUTTON_BASE_CLASS.to_string();
    if wired {
        out.append(" tw:cursor-pointer");
    } else {
        out.append(" tw:opacity-60");
    }
    out
}

pub const PRESS_LABEL_HELD_CLASS: &'static str = "tw:text-[0.75rem] tw:font-medium tw:text-status-live-foreground";

pub const PRESS_LABEL_CLASS: &'static str = "tw:text-[0.75rem] tw:font-medium tw:text-strong-foreground";

/// How the control is drawn. Down is where the finger is; held is what the
/// device knows. Lengths are in SVG units, written out.
#[derive(Clone, Debug, PartialEq, Eq)]
pub struct PressDrawing {
    pub stroke: &'static str,
    pub ring_width: &'static str,
    pub cap_y: &'static str,
    pub cap_radius: &'static str,
    pub highlight: bool,
    pub label_class: &'static str,
}

/// How the control is drawn.
pub fn press_drawing(state: PressState) -> (r: PressDrawing)
    ensures
        ({
            let down = state.gesture is Some || state.held;
            &&& r.stroke@ == if state.held {
                RING_HELD_STROKE@
            } else {
                RING_STROKE@
            }
            &&& r.ring_width@ == if state.held {
                "2"@
            } else {
                "1.5"@
            }
            &&& r.cap_y@ == if down {
                "24.8"@
            } else {
                "24"@
            }
            &&& r.cap_radius@ == if down {
                "11.75"@
            } else {
                "12.5"@
            }
            &&& r.highlight == !down
            &&& r.label_class@ == if state.held {
                PRESS_LABEL_HELD_CLASS@
            } else {
                PRESS_LABEL_CLASS@
            }
        }),
{
    let down: bool = state.gesture.is_some() || state.held;
    PressDrawing {
        stroke: press_ring_stroke(state.held),
        ring_width: if state.held {
            "2"
        } else {
            "1.5"
        },
        cap_y: if down {
            "24.8"
        } else {
            "24"
        },
        cap_radius: if down {
            "11.75"
        } else {
            "12.5"
        },
        highlight: !down,
        label_class: if state.held {
            PRESS_LABEL_HELD_CLASS
        } else {
            PRESS_LABEL_CLASS
        },
    }
}

} // verus!
