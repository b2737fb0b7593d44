//! The clock's face: one small trace per reading that rides its timebase.
//!
//! The traces are animated between readings. A reading that says nothing new
//! leaves its trace running; any other is counted from anew.

use vstd::prelude::*;
use vstd::string::*;

use crate::float_bits::{is_nan, same_f32, same_number};
use crate::slot::{clone_text_opt, text_opt};
use crate::text::{decimal, decimal_text};

verus! {

/// The waveforms a reading can be shaped by.
#[derive(Clone, Copy, Debug, PartialEq, Eq, Structural)]
pub enum Waveform {
    Ramp,
    Sine,
    Triangle,
    Square,
}

/// What is known of the clock's timebase.
#[derive(Clone, Copy, Debug, PartialEq, Eq, Structural)]
pub enum UiTimebaseState {
    /// No answer has come yet.
    Unread,
    /// The clock has none.
    Unknown,
    Live,
}

/// One reading of a phasor. Numbers are bit patterns.
#[derive(Debug)]
pub struct UiPhasorReading {
    pub label: String,
    pub detail: Option<String>,
    pub shared: bool,
    pub phase: u32,
    pub cycle: u32,
    pub period_seconds: u32,
    pub rate_display: String,
    pub waveform: Waveform,
    pub phase_offset: u32,
}

impl Clone for UiPhasorReading {
    fn clone(&self) -> (r: Self)
        ensures
            r == *self,
    {
        UiPhasorReading {
            label: self.label.clone(),
            detail: clone_text_opt(&self.detail),
            shared: self.shared,
            phase: self.phase,
            cycle: self.cycle,
            period_seconds: self.period_seconds,
            rate_display: self.rate_display.clone(),
            waveform: self.waveform,
            phase_offset: self.phase_offset,
        }
    }
}

/// The two readings say the same.
pub open spec fn same_reading(a: UiPhasorReading, b: UiPhasorReading) -> bool {
    &&& a.label@ == b.label@
    &&& text_opt(a.detail) == text_opt(b.detail)
    &&& a.shared == b.shared
    &&& same_number(a.phase, b.phase)
    &&& a.cycle == b.cycle
    &&& same_number(a.period_seconds, b.period_seconds)
    &&& a.rate_display@ == b.rate_display@
    &&& a.waveform == b.waveform
    &&& same_number(a.phase_offset, b.phase_offset)
}

impl UiPhasorReading {
    /// Whether two readings say the same.
    pub fn same(&self, other: &UiPhasorReading) -> (r: bool)
        ensures
            r == same_reading(*self, *other),
    {
        let same_detail: bool = match (&self.detail, &other.detail) {
            (Some(a), Some(b)) => *a == *b,
            (None, None) => true,
            _ => false,
        };
        self.label == other.label && same_detail && self.shared == other.shared && same_f32(
            self.phase,
            other.phase,
        ) && self.cycle == other.cycle && same_f32(self.period_seconds, other.period_seconds)
            && self.rate_display == other.rate_display && self.waveform == other.waveform
            && same_f32(self.phase_offset, other.phase_offset)
    }
}

/// One trace being animated: the canvas it is painted on, the reading it counts
/// from, and when that came in (a bit pattern of a time in milliseconds).
#[derive(Clone, Debug)]
pub struct TraceCard {
    pub canvas_id: String,
    pub reading: UiPhasorReading,
    pub anchored_at: u64,
}

/// A trace that goes on as it is: the same canvas, and nothing new in the
/// reading.
pub open spec fn goes_on(card: TraceCard, id: Seq<char>, reading: UiPhasorReading) -> bool {
    card.canvas_id@ == id && same_reading(card.reading, reading)
}

/// The trace at `index` has to start anew.
pub open spec fn starts_anew(
    cards: Seq<TraceCard>,
    ids: Seq<String>,
    readings: Seq<UiPhasorReading>,
    index: int,
) -> bool {
    index >= cards.len() || !goes_on(cards[index], ids[index]@, readings[index])
}

/// The traces among the first `n` that have to be painted at once.
pub open spec fn repaints(
    cards: Seq<TraceCard>,
    ids: Seq<String>,
    readings: Seq<UiPhasorReading>,
    n: nat,
) -> Seq<usize>
    decreases n,
{
    if n == 0 {
        Seq::empty()
    } else if starts_anew(cards, ids, readings, n - 1) {
        repaints(cards, ids, readings, (n - 1) as nat).push((n - 1) as usize)
    } else {
        repaints(cards, ids, readings, (n - 1) as nat)
    }
}

/// Brings the traces in step with the readings, one canvas each, and lists those
/// to paint at once. Traces beyond the readings end.
pub fn sync_traces(
    cards: &mut Vec<TraceCard>,
    readings: &Vec<UiPhasorReading>,
    ids: &Vec<String>,
    now: u64,
) -> (r: Vec<usize>)
    requires
        ids@.len() == readings@.len(),
    ensures
        final(cards)@.len() == readings@.len(),
        forall|i: int|
            0 <= i < readings@.len() ==> if starts_anew(old(cards)@, ids@, readings@, i) {
                (#[trigger] final(cards)@[i]) == (TraceCard {
                    canvas_id: ids@[i],
                    reading: readings@[i],
                    anchored_at: now,
                })
            } else {
                final(cards)@[i] == old(cards)@[i]
            },
        r@ == repaints(old(cards)@, ids@, readings@, readings@.len()),
{
    let ghost before = cards@;
    if cards.len() > readings.len() {
        cards.truncate(readings.len());
    }
    let mut paint: Vec<usize> = Vec::new();
    let mut at: usize = 0;
    while at < readings.len()
        invariant
            at <= readings@.len(),
            ids@.len() == readings@.len(),
            cards@.len() <= readings@.len(),
            cards@.len() >= at,
            cards@.len() == if before.len() > readings@.len() {
                readings@.len()
            } else if before.len() > at {
                before.len()
            } else {
                at as nat
            },
            forall|i: int|
                0 <= i < at ==> if starts_anew(before, ids@, readings@, i) {
                    (#[trigger] cards@[i]) == (TraceCard {
                        canvas_id: ids@[i],
                        reading: readings@[i],
                        anchored_at: now,
                    })
                } else {
                    cards@[i] == before[i]
                },
            forall|i: int| at <= i < cards@.len() ==> cards@[i] == before[i],
            paint@ == repaints(before, ids@, readings@, at as nat),
        decreases readings.len() - at,
    {
        let keep: bool = if at < cards.len() {
            cards[at].canvas_id == ids[at] && cards[at].reading.same(&readings[at])
        } else {
            false
        };
        assert(keep == !starts_anew(before, ids@, readings@, at as int));
        if !keep {
            let card: TraceCard = TraceCard {
                canvas_id: ids[at].clone(),
                reading: readings[at].clone(),
                anchored_at: now,
            };
            if at < cards.len() {
                cards.set(at, card);
            } else {
                cards.push(card);
            }
            paint.push(at);
        }
        at += 1;
    }
    paint
}

/// The reading holds numbers throughout.
pub open spec fn is_numeric(reading: UiPhasorReading) -> bool {
    !is_nan(reading.phase) && !is_nan(reading.period_seconds) && !is_nan(reading.phase_offset)
}

proof fn nothing_repaints(
    cards: Seq<TraceCard>,
    ids: Seq<String>,
    readings: Seq<UiPhasorReading>,
    n: nat,
)
    requires
        n <= readings.len(),
        forall|i: int| 0 <= i < n ==> !starts_anew(cards, ids, readings, i),
    ensures
        repaints(cards, ids, readings, n) == Seq::<usize>::empty(),
    decreases n,
{
    if n > 0 {
        nothing_repaints(cards, ids, readings, (n - 1) as nat);
    }
}

/// Readings that come in again unchanged leave every trace running: after the
/// traces were brought in step, doing so again paints nothing.
pub proof fn unchanged_readings_leave_the_traces_running(
    cards: Seq<TraceCard>,
    ids: Seq<String>,
    readings: Seq<UiPhasorReading>,
    after: Seq<TraceCard>,
    now: u64,
)
    requires
        ids.len() == readings.len(),
        after.len() == readings.len(),
        forall|i: int| 0 <= i < readings.len() ==> is_numeric(#[trigger] readings[i]),
        forall|i: int|
            0 <= i < readings.len() ==> if starts_anew(cards, ids, readings, i) {
                (#[trigger] after[i]) == (TraceCard {
                    canvas_id: ids[i],
                    reading: readings[i],
                    anchored_at: now,
                })
            } else {
                after[i] == cards[i]
            },
    ensures
        repaints(after, ids, readings, readings.len()) == Seq::<usize>::empty(),
        forall|i: int| 0 <= i < readings.len() ==> !starts_anew(after, ids, readings, i),
{
    assert forall|i: int| 0 <= i < readings.len() implies !starts_anew(
        after,
        ids,
        readings,
        i,
    ) by {
        assert(is_numeric(readings[i]));
        let card = after[i];
    }
    nothing_repaints(after, ids, readings, readings.len());
}

/// What the face's second section shows.
#[derive(Clone, Copy, Debug, PartialEq, Eq, Structural)]
pub enum ClockBody {
    /// No answer yet.
    Reading,
    /// No timebase.
    NotProducing,
    /// A timebase that nothing rides, which is a normal state.
    Empty,
    /// So many traces.
    Traces(usize),
}

/// What the face's second section shows.
pub fn clock_body(timebase: UiTimebaseState, readings: usize) -> (r: ClockBody)
    ensures
        r == match timebase {
            UiTimebaseState::Unread => ClockBody::Reading,
            UiTimebaseState::Unknown => ClockBody::NotProducing,
            UiTimebaseState::Live => if readings == 0 {
                ClockBody::Empty
            } else {
                ClockBody::Traces(readings)
            },
        },
{
    match timebase {
        UiTimebaseState::Unread => ClockBody::Reading,
        UiTimebaseState::Unknown => ClockBody::NotProducing,
        UiTimebaseState::Live => if readings == 0 {
            ClockBody::Empty
        } else {
            ClockBody::Traces(readings)
        },
    }
}

/// The words for a section without traces.
pub fn clock_note(body: ClockBody) -> (r: Option<&'static str>)
    ensures
        match body {
            ClockBody::Reading => r matches Some(note) && note@ == "Reading the timebase\u{2026}"@,
            ClockBody::NotProducing => r matches Some(note) && note@
                == "This clock is not producing a timebase."@,
            ClockBody::Empty => r matches Some(note) && note@
                == "Nothing is riding this timebase."@,
            ClockBody::Traces(_) => r is None,
        },
{
    match body {
        ClockBody::Reading => Some("Reading the timebase\u{2026}"),
        ClockBody::NotProducing => Some("This clock is not producing a timebase."),
        ClockBody::Empty => Some("Nothing is riding this timebase."),
        ClockBody::Traces(_) => None,
    }
}

/// How many traces are animated: none unless the timebase is live.
pub fn live_traces(timebase: UiTimebaseState, readings: usize) -> (r: usize)
    ensures
        r == if timebase == UiTimebaseState::Live {
            readings
        } else {
            0
        },
{
    if timebase == UiTimebaseState::Live {
        readings
    } else {
        0
    }
}

/// The canvas of one trace.
pub open spec fn canvas_name(base: Seq<char>, index: nat) -> Seq<char> {
    base + "-"@ + decimal(index)
}

/// The canvases of the first `count` traces of a face.
pub fn trace_canvas_ids(base: &str, count: usize) -> (r: Vec<String>)
    ensures
        r@.len() == count,
        forall|i: int| 0 <= i < count ==> (#[trigger] r@[i])@ == canvas_name(base@, i as nat),
{
    let mut out: Vec<String> = Vec::new();
    let mut at: usize = 0;
    while at < count
        invariant
            at <= count,
            out@.len() == at,
            forall|i: int| 0 <= i < at ==> (#[trigger] out@[i])@ == canvas_name(base@, i as nat),
        decreases count - at,
    {
        let mut id: String = base.to_string();
        id.append("-");
        id.append(decimal_text(at as u64).as_str());
        out.push(id);
        at += 1;
    }
    out
}

pub const TRACE_SHARED_CLASS: &'static str = "tw:flex tw:min-w-0 tw:flex-col tw:overflow-hidden tw:rounded-md tw:border tw:border-status-bound-border tw:bg-terminal";

pub const TRACE_CLASS: &'static str = "tw:flex tw:min-w-0 tw:flex-col tw:overflow-hidden tw:rounded-md tw:border tw:border-border-muted tw:bg-terminal";

pub const TRACE_ID_SHARED_CLASS: &'static str = "tw:min-w-0 tw:truncate tw:font-mono tw:text-[10px] tw:font-semibold tw:text-status-bound-foreground";

pub const TRACE_ID_CLASS: &'static str = "tw:min-w-0 tw:truncate tw:font-mono tw:text-[10px] tw:font-semibold tw:text-muted-foreground";

/// What one trace card says.
#[derive(Clone, Debug, PartialEq, Eq)]
pub struct TraceLabels {
    pub card_class: &'static str,
    pub id_class: &'static str,
    pub id_title: String,
    pub cycles: String,
}

/// What one trace card says. Sharing is in the border and the name, never in
/// the trace.
pub fn trace_labels(reading: &UiPhasorReading) -> (r: TraceLabels)
    ensures
        r.card_class@ == if reading.shared {
            TRACE_SHARED_CLASS@
        } else {
            TRACE_CLASS@
        },
        r.id_class@ == if reading.shared {
            TRACE_ID_SHARED_CLASS@
        } else {
            TRACE_ID_CLASS@
        },
        r.id_title@ == match reading.detail {
            Some(detail) => detail@,
            None => reading.label@,
        },
        r.cycles@ == "\u{00d7}"@ + decimal(reading.cycle as nat),
{
    let mut cycles: String = "\u{00d7}".to_string();
    cycles.append(decimal_text(reading.cycle as u64).as_str());
    TraceLabels {
        card_class: if reading.shared {
            TRACE_SHARED_CLASS
        } else {
            TRACE_CLASS
        },
        id_class: if reading.shared {
            TRACE_ID_SHARED_CLASS
        } else {
            TRACE_ID_CLASS
        },
        id_title: match &reading.detail {
            Some(detail) => detail.clone(),
            None => reading.label.clone(),
        },
        cycles,
    }
}

} // verus!
