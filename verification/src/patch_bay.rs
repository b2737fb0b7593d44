//! The two-sided patch bay: which lamps of a fixture landed where on the wire.
//!
//! A cell is one run of lamps. The output card lays its cells along the wire and
//! labels them with the fixture; the fixture card lays the same cells along its
//! own lamps and labels them with the wire.

use vstd::prelude::*;
use vstd::string::*;

use crate::text::{decimal, decimal_text, same_text};

verus! {

/// One run of lamps, from a fixture's own order onto the wire.
#[derive(Clone, Debug, PartialEq, Eq)]
pub struct UiPatchCell {
    pub id: String,
    pub producer: String,
    pub source_start: u32,
    pub lamps: u32,
    pub wire_start: u32,
    /// The run is laid onto the wire end-first.
    pub reversed: bool,
    /// Another run claims some of the same lamps of the wire.
    pub contested: bool,
    pub output_label: String,
    pub port_label: String,
    pub port_key: Option<u32>,
}

impl Default for UiPatchCell {
    fn default() -> (r: Self)
        ensures
            r.id@ == Seq::<char>::empty(),
            r.producer@ == Seq::<char>::empty(),
            r.source_start == 0,
            r.lamps == 0,
            r.wire_start == 0,
            !r.reversed,
            !r.contested,
            r.output_label@ == Seq::<char>::empty(),
            r.port_label@ == Seq::<char>::empty(),
            r.port_key is None,
    {
        UiPatchCell {
            id: String::new(),
            producer: String::new(),
            source_start: 0,
            lamps: 0,
            wire_start: 0,
            reversed: false,
            contested: false,
            output_label: String::new(),
            port_label: String::new(),
            port_key: None,
        }
    }
}

/// One port of an output: a stretch of wire and the cells on it.
#[derive(Clone, Debug, PartialEq, Eq)]
pub struct UiPatchPort {
    pub key: u32,
    pub pin_label: String,
    pub start: u32,
    pub lamps: u32,
    pub cells: Vec<UiPatchCell>,
}

impl Default for UiPatchPort {
    fn default() -> (r: Self)
        ensures
            r.key == 0,
            r.pin_label@ == Seq::<char>::empty(),
            r.start == 0,
            r.lamps == 0,
            r.cells@ == Seq::<UiPatchCell>::empty(),
    {
        UiPatchPort { key: 0, pin_label: String::new(), start: 0, lamps: 0, cells: Vec::new() }
    }
}

/// The bay of an output.
#[derive(Clone, Debug, PartialEq, Eq)]
pub struct UiPatchBay {
    pub ports: Vec<UiPatchPort>,
    pub contested_lamps: u32,
    pub gap_lamps: u32,
}

impl Default for UiPatchBay {
    fn default() -> (r: Self)
        ensures
            r.ports@ == Seq::<UiPatchPort>::empty(),
            r.contested_lamps == 0,
            r.gap_lamps == 0,
    {
        UiPatchBay { ports: Vec::new(), contested_lamps: 0, gap_lamps: 0 }
    }
}

/// How a fixture's own lamps arrive on the wire.
#[derive(Clone, Debug, PartialEq, Eq)]
pub struct UiFixturePatch {
    pub lamps: u32,
    pub cells: Vec<UiPatchCell>,
    pub single_output: bool,
}

impl UiFixturePatch {
    /// Whether all lamps arrive in one run.
    pub fn is_single_run(&self) -> (r: bool)
        ensures
            r == (self.cells@.len() == 1),
    {
        self.cells.len() == 1
    }
}

/// `a + b`, but no further than `u32` reaches.
pub open spec fn capped(n: int) -> u32 {
    if n > u32::MAX {
        u32::MAX
    } else {
        n as u32
    }
}

/// The fixture's last lamp of the run, where the run has lamps.
pub open spec fn source_end_of(cell: UiPatchCell) -> Option<u32> {
    if cell.lamps == 0 {
        None
    } else {
        Some(capped(cell.source_start + cell.lamps - 1))
    }
}

impl UiPatchCell {
    /// The fixture's last lamp of the run, where the run has lamps.
    pub fn source_end(&self) -> (r: Option<u32>)
        ensures
            r == source_end_of(*self),
    {
        if self.lamps == 0 {
            None
        } else {
            Some(self.source_start.saturating_add(self.lamps - 1))
        }
    }
}

/// Which way the run is laid down.
pub fn direction_mark(cell: &UiPatchCell) -> (r: &'static str)
    ensures
        r@ == if cell.reversed {
            " ◀"@
        } else {
            " ▶"@
        },
{
    if cell.reversed {
        " ◀"
    } else {
        " ▶"
    }
}

/// Which way the run is laid down, in the labels.
pub open spec fn mark_text(cell: UiPatchCell) -> Seq<char> {
    if cell.reversed {
        " ◀"@
    } else {
        " ▶"@
    }
}

/// The fixture's lamps of the run: a span, one lamp, or none.
pub open spec fn source_text(cell: UiPatchCell) -> Seq<char> {
    match source_end_of(cell) {
        Some(end) => if end > cell.source_start {
            decimal(cell.source_start as nat) + "–"@ + decimal(end as nat)
        } else {
            decimal(end as nat)
        },
        None => "empty"@,
    }
}

/// The output side's label: which fixture, and which of its lamps.
pub open spec fn wire_side_text(cell: UiPatchCell) -> Seq<char> {
    cell.producer@ + " "@ + source_text(cell) + mark_text(cell)
}

/// The output side's label.
pub fn wire_side_label(cell: &UiPatchCell) -> (r: String)
    ensures
        r@ == wire_side_text(*cell),
{
    let mut out: String = cell.producer.clone();
    out.append(" ");
    let mut span: String = "empty".to_string();
    match cell.source_end() {
        Some(end) => if end > cell.source_start {
            span = decimal_text(cell.source_start as u64);
            span.append("–");
            span.append(decimal_text(end as u64).as_str());
        } else {
            span = decimal_text(end as u64);
        },
        None => {},
    }
    out.append(span.as_str());
    out.append(direction_mark(cell));
    out
}

/// The fixture side's label: where on the wire the run landed. The pin joins
/// once there is one to tell apart.
pub open spec fn fixture_side_text(cell: UiPatchCell) -> Seq<char> {
    if cell.port_label@.len() == 0 {
        "→ ch"@ + decimal(cell.wire_start as nat) + mark_text(cell)
    } else {
        "→ "@ + cell.port_label@ + " ch"@ + decimal(cell.wire_start as nat) + mark_text(cell)
    }
}

/// The fixture side's label.
pub fn fixture_side_label(cell: &UiPatchCell) -> (r: String)
    ensures
        r@ == fixture_side_text(*cell),
{
    let mut out: String = "→ ch".to_string();
    if !cell.port_label.as_str().is_empty() {
        out = "→ ".to_string();
        out.append(cell.port_label.as_str());
        out.append(" ch");
    }
    out.append(decimal_text(cell.wire_start as u64).as_str());
    out.append(direction_mark(cell));
    out
}

/// The wire's last lamp of the run; an empty run still has a place.
pub open spec fn wire_end_of(cell: UiPatchCell) -> int {
    capped(
        cell.wire_start + if cell.lamps == 0 {
            1
        } else {
            cell.lamps as int
        },
    ) - 1
}

/// The text where `holds`, and nothing otherwise.
pub open spec fn when(holds: bool, text: Seq<char>) -> Seq<char> {
    if holds {
        text
    } else {
        Seq::empty()
    }
}

/// The hover title: both sides of the run in words.
pub open spec fn title_text(cell: UiPatchCell) -> Seq<char> {
    cell.producer@ + " lamps "@ + decimal(cell.source_start as nat) + "–"@ + decimal(
        (match source_end_of(cell) {
            Some(end) => end,
            None => cell.source_start,
        }) as nat,
    ) + " → "@ + cell.output_label@ + " channels "@ + decimal(cell.wire_start as nat) + "–"@
        + decimal(wire_end_of(cell) as nat) + (match cell.port_key {
        Some(port) => " (port ch"@ + decimal(port as nat) + ")"@,
        None => Seq::empty(),
    }) + when(cell.reversed, "\nlaid onto the wire end-first"@) + when(
        cell.contested,
        "\nsome of these channels are claimed by another strand too — the engine darkens them"@,
    )
}

/// The hover title.
pub fn cell_title(cell: &UiPatchCell) -> (r: String)
    ensures
        r@ == title_text(*cell),
{
    let lamps: u32 = if cell.lamps == 0 {
        1
    } else {
        cell.lamps
    };
    let wire_end: u32 = cell.wire_start.saturating_add(lamps) - 1;
    let source_end: u32 = match cell.source_end() {
        Some(end) => end,
        None => cell.source_start,
    };
    let mut out: String = cell.producer.clone();
    out.append(" lamps ");
    out.append(decimal_text(cell.source_start as u64).as_str());
    out.append("–");
    out.append(decimal_text(source_end as u64).as_str());
    out.append(" → ");
    out.append(cell.output_label.as_str());
    out.append(" channels ");
    out.append(decimal_text(cell.wire_start as u64).as_str());
    out.append("–");
    out.append(decimal_text(wire_end as u64).as_str());
    let mut port_part: String = String::new();
    if let Some(port) = cell.port_key {
        port_part = " (port ch".to_string();
        port_part.append(decimal_text(port as u64).as_str());
        port_part.append(")");
    }
    out.append(port_part.as_str());
    let mut laid: String = String::new();
    if cell.reversed {
        laid = "\nlaid onto the wire end-first".to_string();
    }
    out.append(laid.as_str());
    let mut claimed: String = String::new();
    if cell.contested {
        claimed =
        "\nsome of these channels are claimed by another strand too — the engine darkens them".to_string();
    }
    out.append(claimed.as_str());
    out
}

/// The port's caption: its name, its pin, and the stretch of wire it drives.
pub fn port_caption(port: &UiPatchPort) -> (r: String)
    requires
        port.start + port.lamps <= u32::MAX,
    ensures
        r@ == "ch"@ + decimal(port.key as nat) + (if port.pin_label@.len() == 0 {
            Seq::empty()
        } else {
            " · "@ + port.pin_label@
        }) + (if port.lamps == 0 {
            " · no lamps"@
        } else {
            " · channels "@ + decimal(port.start as nat) + "–"@ + decimal(
                (port.start + port.lamps - 1) as nat,
            )
        }),
{
    let mut out: String = "ch".to_string();
    out.append(decimal_text(port.key as u64).as_str());
    let mut pin: String = String::new();
    if !port.pin_label.as_str().is_empty() {
        pin = " · ".to_string();
        pin.append(port.pin_label.as_str());
    }
    out.append(pin.as_str());
    let mut span: String = " · no lamps".to_string();
    if port.lamps != 0 {
        span = " · channels ".to_string();
        span.append(decimal_text(port.start as u64).as_str());
        span.append("–");
        span.append(decimal_text((port.start + (port.lamps - 1)) as u64).as_str());
    }
    out.append(span.as_str());
    out
}

/// The fixture row's caption: in how many runs its lamps arrive.
pub fn fixture_caption(patch: &UiFixturePatch) -> (r: String)
    ensures
        r@ == decimal(patch.lamps as nat) + (if patch.cells@.len() == 1 {
            " lamps · one run"@
        } else {
            " lamps · "@ + decimal(patch.cells@.len()) + " runs"@
        }),
{
    let mut out: String = decimal_text(patch.lamps as u64);
    let mut runs: String = " lamps · one run".to_string();
    if !patch.is_single_run() {
        runs = " lamps · ".to_string();
        runs.append(decimal_text(patch.cells.len() as u64).as_str());
        runs.append(" runs");
    }
    out.append(runs.as_str());
    out
}

/// How many cells the ports hold.
pub open spec fn cell_count(ports: Seq<UiPatchPort>) -> nat
    decreases ports.len(),
{
    if ports.len() == 0 {
        0
    } else {
        cell_count(ports.drop_last()) + ports.last().cells@.len()
    }
}

proof fn cell_count_grows(ports: Seq<UiPatchPort>, n: int)
    requires
        0 <= n <= ports.len(),
    ensures
        cell_count(ports.take(n)) <= cell_count(ports),
    decreases ports.len() - n,
{
    if n < ports.len() {
        assert(ports.take(n + 1).drop_last() =~= ports.take(n));
        cell_count_grows(ports, n + 1);
    } else {
        assert(ports.take(n) =~= ports);
    }
}

/// What the wire adds up to, and what it does not.
pub fn bay_summary(bay: &UiPatchBay) -> (r: String)
    requires
        cell_count(bay.ports@) <= usize::MAX,
    ensures
        r@ == decimal(cell_count(bay.ports@)) + (if cell_count(bay.ports@) == 1 {
            " cell"@
        } else {
            " cells"@
        }) + (if bay.contested_lamps > 0 {
            " · "@ + decimal(bay.contested_lamps as nat) + " contested"@
        } else {
            Seq::empty()
        }) + (if bay.gap_lamps > 0 {
            " · "@ + decimal(bay.gap_lamps as nat) + " unclaimed"@
        } else {
            Seq::empty()
        }),
{
    let mut cells: usize = 0;
    let mut at: usize = 0;
    while at < bay.ports.len()
        invariant
            at <= bay.ports.len(),
            cells == cell_count(bay.ports@.take(at as int)),
            cell_count(bay.ports@) <= usize::MAX,
        decreases bay.ports.len() - at,
    {
        proof {
            let next = bay.ports@.take(at + 1);
            assert(next.drop_last() =~= bay.ports@.take(at as int));
            assert(next.last() == bay.ports@[at as int]);
            cell_count_grows(bay.ports@, at + 1);
        }
        cells += bay.ports[at].cells.len();
        at += 1;
    }
    assert(bay.ports@.take(at as int) =~= bay.ports@);
    let mut out: String = decimal_text(cells as u64);
    if cells == 1 {
        out.append(" cell");
    } else {
        out.append(" cells");
    }
    let mut contested: String = String::new();
    if bay.contested_lamps > 0 {
        contested = " · ".to_string();
        contested.append(decimal_text(bay.contested_lamps as u64).as_str());
        contested.append(" contested");
    }
    out.append(contested.as_str());
    let mut gap: String = String::new();
    if bay.gap_lamps > 0 {
        gap = " · ".to_string();
        gap.append(decimal_text(bay.gap_lamps as u64).as_str());
        gap.append(" unclaimed");
    }
    out.append(gap.as_str());
    out
}

/// The summary where lamps are contested.
pub const SUMMARY_ERROR_CLASS: &'static str = "tw:min-w-0 tw:truncate tw:font-mono tw:text-[0.68rem] tw:text-status-error-foreground";

/// The summary where lamps are unclaimed.
pub const SUMMARY_ATTENTION_CLASS: &'static str = "tw:min-w-0 tw:truncate tw:font-mono tw:text-[0.68rem] tw:text-status-attention-foreground";

/// The summary of a wire that adds up.
pub const SUMMARY_PLAIN_CLASS: &'static str = "tw:min-w-0 tw:truncate tw:font-mono tw:text-[0.68rem] tw:text-subtle-foreground";

/// The classes of the summary: contested lamps are an error, unclaimed ones
/// only call for attention.
pub fn bay_summary_class(bay: &UiPatchBay) -> (r: &'static str)
    ensures
        r@ == if bay.contested_lamps > 0 {
            SUMMARY_ERROR_CLASS@
        } else if bay.gap_lamps > 0 {
            SUMMARY_ATTENTION_CLASS@
        } else {
            SUMMARY_PLAIN_CLASS@
        },
{
    if bay.contested_lamps > 0 {
        SUMMARY_ERROR_CLASS
    } else if bay.gap_lamps > 0 {
        SUMMARY_ATTENTION_CLASS
    } else {
        SUMMARY_PLAIN_CLASS
    }
}

/// A contested cell that is pointed at.
pub const CELL_CONTESTED_LIT_CLASS: &'static str = "tw:absolute tw:top-0.5 tw:bottom-0.5 tw:overflow-hidden tw:rounded-xs tw:border tw:border-status-error-border tw:bg-status-error-bg tw:ring-1 tw:ring-border-strong";

/// A contested cell.
pub const CELL_CONTESTED_CLASS: &'static str = "tw:absolute tw:top-0.5 tw:bottom-0.5 tw:overflow-hidden tw:rounded-xs tw:border tw:border-status-error-border tw:bg-card-muted";

/// A cell that is pointed at.
pub const CELL_LIT_CLASS: &'static str = "tw:absolute tw:top-0.5 tw:bottom-0.5 tw:overflow-hidden tw:rounded-xs tw:border tw:border-border-strong tw:bg-card-raised tw:ring-1 tw:ring-border-strong";

/// A cell at rest.
pub const CELL_CLASS: &'static str = "tw:absolute tw:top-0.5 tw:bottom-0.5 tw:overflow-hidden tw:rounded-xs tw:border tw:border-border-strong tw:bg-card-muted";

/// The classes of a cell's box. A cell is lit with its twin on the other card.
pub open spec fn cell_chrome(contested: bool, lit: bool) -> Seq<char> {
    if contested {
        if lit {
            CELL_CONTESTED_LIT_CLASS@
        } else {
            CELL_CONTESTED_CLASS@
        }
    } else if lit {
        CELL_LIT_CLASS@
    } else {
        CELL_CLASS@
    }
}

/// The classes of a cell's box.
pub fn cell_class(contested: bool, lit: bool) -> (r: &'static str)
    ensures
        r@ == cell_chrome(contested, lit),
{
    if contested {
        if lit {
            CELL_CONTESTED_LIT_CLASS
        } else {
            CELL_CONTESTED_CLASS
        }
    } else if lit {
        CELL_LIT_CLASS
    } else {
        CELL_CLASS
    }
}

/// The label of a contested cell.
pub const CELL_LABEL_CONTESTED_CLASS: &'static str = "tw:block tw:truncate tw:px-1 tw:font-mono tw:text-[0.6rem] tw:leading-[1.25] tw:text-status-error-foreground";

/// The label of a cell.
pub const CELL_LABEL_CLASS: &'static str = "tw:block tw:truncate tw:px-1 tw:font-mono tw:text-[0.6rem] tw:leading-[1.25] tw:text-dim-foreground";

/// What one cell of a row shows.
#[derive(Clone, Debug, PartialEq, Eq)]
pub struct CellBox {
    /// How many lamps into the row the cell starts.
    pub offset: u32,
    pub label: String,
    pub title: String,
    pub class: &'static str,
    pub label_class: &'static str,
}

/// Where a cell starts in its row: along the wire from the row's own start, or
/// along the fixture's lamps.
pub open spec fn cell_offset(cell: UiPatchCell, row_start: u32, along_wire: bool) -> u32 {
    if along_wire {
        if cell.wire_start >= row_start {
            (cell.wire_start - row_start) as u32
        } else {
            0
        }
    } else {
        cell.source_start
    }
}

/// What one cell of a row shows, given the id of the cell that is pointed at on
/// any card.
pub fn cell_box(
    cell: &UiPatchCell,
    row_start: u32,
    along_wire: bool,
    hovered: Option<&str>,
) -> (r: CellBox)
    ensures
        r.offset == cell_offset(*cell, row_start, along_wire),
        r.label@ == if along_wire {
            wire_side_text(*cell)
        } else {
            fixture_side_text(*cell)
        },
        r.title@ == title_text(*cell),
        r.class@ == cell_chrome(
            cell.contested,
            hovered matches Some(id) && id@ == cell.id@,
        ),
        r.label_class@ == if cell.contested {
            CELL_LABEL_CONTESTED_CLASS@
        } else {
            CELL_LABEL_CLASS@
        },
{
    let lit: bool = match hovered {
        Some(id) => same_text(id, cell.id.as_str()),
        None => false,
    };
    let label: String = if along_wire {
        wire_side_label(cell)
    } else {
        fixture_side_label(cell)
    };
    let offset: u32 = if along_wire {
        cell.wire_start.saturating_sub(row_start)
    } else {
        cell.source_start
    };
    CellBox {
        offset,
        label,
        title: cell_title(cell),
        class: cell_class(cell.contested, lit),
        label_class: if cell.contested {
            CELL_LABEL_CONTESTED_CLASS
        } else {
            CELL_LABEL_CLASS
        },
    }
}

// -- the strip of lamps ----------------------------------------------------------

/// How many texels a cell's strip has: one per lamp, and one for an empty run.
pub open spec fn texels_of(cell: UiPatchCell) -> nat {
    if cell.lamps == 0 {
        1
    } else {
        cell.lamps as nat
    }
}

/// The lamp of the wire that a texel shows. Along the wire, texels and lamps run
/// the same way; along the fixture, a reversed run is read from its far end.
pub open spec fn wire_lamp(cell: UiPatchCell, along_wire: bool, texel: int) -> u32 {
    if along_wire || !cell.reversed {
        capped(cell.wire_start + texel)
    } else {
        capped(
            cell.wire_start + if cell.lamps - 1 >= texel {
                cell.lamps - 1 - texel
            } else {
                0
            },
        )
    }
}

/// The sample of the frame at which each texel's colour starts: three samples
/// make a lamp.
pub open spec fn samples_of(cell: UiPatchCell, along_wire: bool) -> Seq<u32> {
    Seq::new(texels_of(cell), |i: int| capped(wire_lamp(cell, along_wire, i) * 3))
}

/// Lists the sample of the frame at which each texel's colour starts, in the
/// row's own reading order.
pub fn cell_strip_samples(cell: &UiPatchCell, along_wire: bool) -> (r: Vec<u32>)
    ensures
        r@ == samples_of(*cell, along_wire),
{
    let texels: u32 = if cell.lamps == 0 {
        1
    } else {
        cell.lamps
    };
    let mut out: Vec<u32> = Vec::new();
    let mut index: u32 = 0;
    while index < texels
        invariant
            index <= texels,
            texels == texels_of(*cell),
            out@ =~= samples_of(*cell, along_wire).take(index as int),
        decreases texels - index,
    {
        let lamp: u32 = if along_wire || !cell.reversed {
            cell.wire_start.saturating_add(index)
        } else {
            cell.wire_start.saturating_add(cell.lamps.saturating_sub(1).saturating_sub(index))
        };
        assert(lamp == wire_lamp(*cell, along_wire, index as int));
        let sample: u32 = if lamp <= u32::MAX / 3 {
            lamp * 3
        } else {
            u32::MAX
        };
        assert(sample == samples_of(*cell, along_wire)[index as int]);
        out.push(sample);
        index += 1;
    }
    out
}

/// A lamp's colour.
#[derive(Clone, Copy, Debug, PartialEq, Eq, Structural)]
pub struct Rgb {
    pub r: u8,
    pub g: u8,
    pub b: u8,
}

/// The four bytes of a texel; a lamp without a colour is unlit.
pub open spec fn texel_bytes(color: Option<Rgb>, unlit: Rgb) -> Seq<u8> {
    let rgb = match color {
        Some(rgb) => rgb,
        None => unlit,
    };
    seq![rgb.r, rgb.g, rgb.b, 255u8]
}

/// The bytes of a strip, texel after texel.
pub open spec fn strip_bytes(colors: Seq<Option<Rgb>>, unlit: Rgb) -> Seq<u8>
    decreases colors.len(),
{
    if colors.len() == 0 {
        Seq::empty()
    } else {
        strip_bytes(colors.drop_last(), unlit) + texel_bytes(colors.last(), unlit)
    }
}

/// Packs the colours that the frame gave for a strip's samples into pixels.
pub fn cell_strip_rgba(colors: &Vec<Option<Rgb>>, unlit: Rgb) -> (r: Vec<u8>)
    ensures
        r@ == strip_bytes(colors@, unlit),
{
    let mut out: Vec<u8> = Vec::new();
    let mut at: usize = 0;
    assert(out@ =~= strip_bytes(colors@.take(0), unlit));
    while at < colors.len()
        invariant
            at <= colors.len(),
            out@ == strip_bytes(colors@.take(at as int), unlit),
        decreases colors.len() - at,
    {
        proof {
            let next = colors@.take(at + 1);
            assert(next.drop_last() =~= colors@.take(at as int));
            assert(next.last() == colors@[at as int]);
        }
        let rgb: Rgb = match colors[at] {
            Some(rgb) => rgb,
            None => unlit,
        };
        let ghost before = out@;
        out.push(rgb.r);
        out.push(rgb.g);
        out.push(rgb.b);
        out.push(255);
        assert(out@ =~= before + texel_bytes(colors@[at as int], unlit));
        at += 1;
    }
    assert(colors@.take(at as int) =~= colors@);
    out
}

/// A reversed run reads continuously on its fixture's card: the fixture side
/// shows the lamps of the wire side back to front. A forward run reads the same
/// on both.
pub proof fn the_two_sides_show_the_same_lamps(cell: UiPatchCell)
    requires
        cell.lamps > 0,
        cell.wire_start + cell.lamps <= u32::MAX,
    ensures
        cell.reversed ==> samples_of(cell, false) =~= samples_of(cell, true).reverse(),
        !cell.reversed ==> samples_of(cell, false) =~= samples_of(cell, true),
{
}

/// Every texel takes four bytes, and is opaque.
pub proof fn a_strip_is_four_bytes_a_texel(colors: Seq<Option<Rgb>>, unlit: Rgb)
    ensures
        strip_bytes(colors, unlit).len() == 4 * colors.len(),
        forall|i: int|
            0 <= i < colors.len() ==> strip_bytes(colors, unlit).subrange(4 * i, 4 * i + 4)
                == texel_bytes(#[trigger] colors[i], unlit),
    decreases colors.len(),
{
    if colors.len() > 0 {
        let head = colors.drop_last();
        a_strip_is_four_bytes_a_texel(head, unlit);
        let all = strip_bytes(colors, unlit);
        let before = strip_bytes(head, unlit);
        assert forall|i: int| 0 <= i < colors.len() implies all.subrange(4 * i, 4 * i + 4)
            == texel_bytes(#[trigger] colors[i], unlit) by {
            if i < head.len() {
                assert(head[i] == colors[i]);
                assert(all.subrange(4 * i, 4 * i + 4) =~= before.subrange(4 * i, 4 * i + 4));
            } else {
                assert(all.subrange(4 * i, 4 * i + 4) =~= texel_bytes(colors[i], unlit));
            }
        }
    }
}

/// Everything a strip's picture depends on. A new frame has a new buffer.
#[derive(Clone, Copy, Debug, PartialEq, Eq, Structural)]
pub struct CellPaintKey {
    pub revision: i64,
    pub bytes: usize,
    pub wire_start: u32,
    pub lamps: u32,
    pub reversed: bool,
    pub contested: bool,
    pub along_wire: bool,
}

/// What a strip's picture depends on, given the frame's revision and buffer.
pub fn cell_paint_key(
    cell: &UiPatchCell,
    frame: Option<(i64, usize)>,
    along_wire: bool,
) -> (r: CellPaintKey)
    ensures
        r == (CellPaintKey {
            revision: match frame {
                Some((revision, _)) => revision,
                None => -1i64,
            },
            bytes: match frame {
                Some((_, bytes)) => bytes,
                None => 0usize,
            },
            wire_start: cell.wire_start,
            lamps: cell.lamps,
            reversed: cell.reversed,
            contested: cell.contested,
            along_wire,
        }),
{
    let (revision, bytes): (i64, usize) = match frame {
        Some((revision, bytes)) => (revision, bytes),
        None => (-1, 0),
    };
    CellPaintKey {
        revision,
        bytes,
        wire_start: cell.wire_start,
        lamps: cell.lamps,
        reversed: cell.reversed,
        contested: cell.contested,
        along_wire,
    }
}

/// Whether a strip has to be painted again.
pub fn needs_paint(painted: Option<CellPaintKey>, key: CellPaintKey) -> (r: bool)
    ensures
        r == (painted != Some(key)),
{
    match painted {
        Some(last) => last != key,
        None => true,
    }
}

} // verus!
