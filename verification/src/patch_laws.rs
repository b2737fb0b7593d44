//! What the patch bay shows, said of the calls that make it: which lamps a run takes
//! on either side, in words and in colours.

use vstd::prelude::*;
use vstd::string::*;

use crate::patch_bay::{
    bay_summary, bay_summary_class, cell_box, cell_class, cell_count, cell_paint_key,
    cell_strip_rgba, cell_strip_samples, cell_title, direction_mark, fixture_caption,
    fixture_side_label, needs_paint, port_caption, strip_bytes, wire_side_label, CellBox,
    CellPaintKey, Rgb, UiFixturePatch, UiPatchBay, UiPatchCell, UiPatchPort,
};
use crate::text::decimal;

verus! {

/// A run's last lamp is its first and as many more as it has lamps beside that one;
/// an empty run has none.
pub proof fn a_run_ends_at_its_last_lamp(cell: &UiPatchCell, r: Option<u32>)
    requires
        call_ensures(UiPatchCell::source_end, (cell,), r),
    ensures
        r is None <==> cell.lamps == 0,
        cell.lamps > 0 && cell.source_start + cell.lamps - 1 <= u32::MAX ==> r == Some(
            (cell.source_start + cell.lamps - 1) as u32,
        ),
        cell.lamps > 0 && cell.source_start + cell.lamps - 1 > u32::MAX ==> r == Some(u32::MAX),
{
}

/// The output side names the fixture and its lamps of the run, from the first to the
/// last where there is more than one; the mark points the way the run is laid.
pub proof fn the_wire_side_names_the_fixtures_lamps(
    cell: &UiPatchCell,
    end: Option<u32>,
    mark: &'static str,
    r: String,
)
    requires
        call_ensures(UiPatchCell::source_end, (cell,), end),
        call_ensures(direction_mark, (cell,), mark),
        call_ensures(wire_side_label, (cell,), r),
    ensures
        cell.reversed ==> mark@ == " ◀"@,
        !cell.reversed ==> mark@ == " ▶"@,
        cell.lamps == 0 ==> r@ == cell.producer@ + " "@ + "empty"@ + mark@,
        cell.lamps == 1 ==> r@ == cell.producer@ + " "@ + decimal(cell.source_start as nat) + mark@,
        cell.lamps > 1 && cell.source_start < u32::MAX ==> r@ == cell.producer@ + " "@ + (decimal(
            cell.source_start as nat,
        ) + "–"@ + decimal(end->Some_0 as nat)) + mark@,
        cell.lamps > 1 && cell.source_start == u32::MAX ==> r@ == cell.producer@ + " "@ + decimal(
            cell.source_start as nat,
        ) + mark@,
{
}

/// The fixture side names where on the wire the run lands, with the pin where there
/// is one to tell apart.
pub proof fn the_fixture_side_names_the_place_on_the_wire(
    cell: &UiPatchCell,
    mark: &'static str,
    r: String,
)
    requires
        call_ensures(direction_mark, (cell,), mark),
        call_ensures(fixture_side_label, (cell,), r),
    ensures
        cell.port_label@.len() == 0 ==> r@ == "→ ch"@ + decimal(cell.wire_start as nat) + mark@,
        cell.port_label@.len() > 0 ==> r@ == "→ "@ + cell.port_label@ + " ch"@ + decimal(
            cell.wire_start as nat,
        ) + mark@,
{
}

/// The number, but no further than the largest there is.
pub open spec fn at_most_largest(n: int) -> int {
    if n > u32::MAX {
        u32::MAX as int
    } else {
        n
    }
}

/// The hover title gives both stretches of a run from first to last, an empty run's as
/// the one place it would take; it says which port the run is on where that is known,
/// and adds a line for each thing that is out of the ordinary.
pub proof fn the_title_gives_both_stretches(cell: &UiPatchCell, end: Option<u32>, r: String)
    requires
        call_ensures(UiPatchCell::source_end, (cell,), end),
        call_ensures(cell_title, (cell,), r),
    ensures
        ({
            let last = if cell.lamps == 0 {
                cell.source_start
            } else {
                end->Some_0
            };
            let places = if cell.lamps == 0 {
                1
            } else {
                cell.lamps as int
            };
            let stretches = cell.producer@ + " lamps "@ + decimal(cell.source_start as nat) + "–"@
                + decimal(last as nat) + " → "@ + cell.output_label@ + " channels "@ + decimal(
                cell.wire_start as nat,
            ) + "–"@ + decimal((at_most_largest(cell.wire_start + places) - 1) as nat);
            let port = match cell.port_key {
                Some(port) => " (port ch"@ + decimal(port as nat) + ")"@,
                None => Seq::<char>::empty(),
            };
            &&& !cell.reversed && !cell.contested ==> r@ == stretches + port
            &&& cell.reversed && !cell.contested ==> r@ == stretches + port
                + "\nlaid onto the wire end-first"@
            &&& !cell.reversed && cell.contested ==> r@ == stretches + port
                + "\nsome of these channels are claimed by another strand too — the engine darkens them"@
            &&& cell.reversed && cell.contested ==> r@ == stretches + port
                + "\nlaid onto the wire end-first"@
                + "\nsome of these channels are claimed by another strand too — the engine darkens them"@
        }),
{
    let last = if cell.lamps == 0 {
        cell.source_start
    } else {
        end->Some_0
    };
    let places = if cell.lamps == 0 {
        1
    } else {
        cell.lamps as int
    };
    let stretches = cell.producer@ + " lamps "@ + decimal(cell.source_start as nat) + "–"@
        + decimal(last as nat) + " → "@ + cell.output_label@ + " channels "@ + decimal(
        cell.wire_start as nat,
    ) + "–"@ + decimal((at_most_largest(cell.wire_start + places) - 1) as nat);
    let port = match cell.port_key {
        Some(port) => " (port ch"@ + decimal(port as nat) + ")"@,
        None => Seq::<char>::empty(),
    };
    let laid = stretches + port + "\nlaid onto the wire end-first"@;
    assert(stretches + port + Seq::<char>::empty() =~= stretches + port);
    assert(laid + Seq::<char>::empty() =~= laid);
}

/// A port's caption names the port, its pin where it has one, and its stretch of wire
/// from the first lamp to the last.
pub proof fn a_port_names_its_stretch(port: &UiPatchPort, r: String)
    requires
        port.start + port.lamps <= u32::MAX,
        call_ensures(port_caption, (port,), r),
    ensures
        ({
            let name = "ch"@ + decimal(port.key as nat);
            let pinned = if port.pin_label@.len() > 0 {
                name + (" · "@ + port.pin_label@)
            } else {
                name
            };
            &&& port.lamps == 0 ==> r@ == pinned + " · no lamps"@
            &&& port.lamps > 0 ==> r@ == pinned + (" · channels "@ + decimal(port.start as nat)
                + "–"@ + decimal((port.start + port.lamps - 1) as nat))
        }),
{
    let name = "ch"@ + decimal(port.key as nat);
    assert(name + Seq::<char>::empty() =~= name);
}

/// A fixture's row counts its lamps and the runs they arrive in.
pub proof fn a_fixture_counts_its_runs(patch: &UiFixturePatch, single: bool, r: String)
    requires
        call_ensures(UiFixturePatch::is_single_run, (patch,), single),
        call_ensures(fixture_caption, (patch,), r),
    ensures
        single <==> patch.cells@.len() == 1,
        single ==> r@ == decimal(patch.lamps as nat) + " lamps · one run"@,
        !single ==> r@ == decimal(patch.lamps as nat) + (" lamps · "@ + decimal(patch.cells@.len())
            + " runs"@),
{
}

/// The number of cells of all ports together.
pub open spec fn all_cells(ports: Seq<UiPatchPort>) -> nat {
    ports.fold_left(0nat, |n: nat, port: UiPatchPort| n + port.cells@.len())
}

proof fn cells_add_up(ports: Seq<UiPatchPort>)
    ensures
        cell_count(ports) == all_cells(ports),
    decreases ports.len(),
{
    if ports.len() > 0 {
        cells_add_up(ports.drop_last());
    }
}

/// The bay's summary counts the cells of all ports, and speaks of contested and of
/// unclaimed lamps exactly where there are any; contested lamps are an error, before
/// unclaimed ones call for attention.
pub proof fn the_summary_speaks_of_what_is_amiss(bay: &UiPatchBay, r: String, class: &'static str)
    requires
        all_cells(bay.ports@) <= usize::MAX,
        call_ensures(bay_summary, (bay,), r),
        call_ensures(bay_summary_class, (bay,), class),
    ensures
        ({
            let cells = all_cells(bay.ports@);
            let counted = decimal(cells) + if cells == 1 {
                " cell"@
            } else {
                " cells"@
            };
            let contested = " · "@ + decimal(bay.contested_lamps as nat) + " contested"@;
            let unclaimed = " · "@ + decimal(bay.gap_lamps as nat) + " unclaimed"@;
            &&& bay.contested_lamps == 0 && bay.gap_lamps == 0 ==> r@ == counted
            &&& bay.contested_lamps > 0 && bay.gap_lamps == 0 ==> r@ == counted + contested
            &&& bay.contested_lamps == 0 && bay.gap_lamps > 0 ==> r@ == counted + unclaimed
            &&& bay.contested_lamps > 0 && bay.gap_lamps > 0 ==> r@ == counted + contested
                + unclaimed
        }),
        bay.contested_lamps > 0 ==> class@ == crate::patch_bay::SUMMARY_ERROR_CLASS@,
        bay.contested_lamps == 0 && bay.gap_lamps > 0 ==> class@
            == crate::patch_bay::SUMMARY_ATTENTION_CLASS@,
        bay.contested_lamps == 0 && bay.gap_lamps == 0 ==> class@
            == crate::patch_bay::SUMMARY_PLAIN_CLASS@,
{
    cells_add_up(bay.ports@);
    let cells = all_cells(bay.ports@);
    let counted = decimal(cells) + if cells == 1 {
        " cell"@
    } else {
        " cells"@
    };
    let contested = " · "@ + decimal(bay.contested_lamps as nat) + " contested"@;
    assert(counted + Seq::<char>::empty() =~= counted);
    assert(counted + contested + Seq::<char>::empty() =~= counted + contested);
}

/// A cell's box stands where its run starts: on the wire, as far into the row as the
/// run starts behind the row's start; on the fixture, at the run's first lamp. It has
/// that side's label, and is lit exactly while it, or its twin, is pointed at.
pub proof fn a_box_stands_where_its_run_starts(
    cell: &UiPatchCell,
    row_start: u32,
    along_wire: bool,
    hovered: Option<&str>,
    r: CellBox,
    wire: String,
    fixture: String,
    title: String,
    lit: &'static str,
    plain: &'static str,
)
    requires
        call_ensures(cell_box, (cell, row_start, along_wire, hovered), r),
        call_ensures(wire_side_label, (cell,), wire),
        call_ensures(fixture_side_label, (cell,), fixture),
        call_ensures(cell_title, (cell,), title),
        call_ensures(cell_class, (cell.contested, true), lit),
        call_ensures(cell_class, (cell.contested, false), plain),
    ensures
        along_wire && cell.wire_start >= row_start ==> row_start + r.offset == cell.wire_start,
        along_wire && cell.wire_start < row_start ==> r.offset == 0,
        !along_wire ==> r.offset == cell.source_start,
        along_wire ==> r.label@ == wire@,
        !along_wire ==> r.label@ == fixture@,
        r.title@ == title@,
        hovered matches Some(id) && id@ == cell.id@ ==> r.class@ == lit@,
        !(hovered matches Some(id) && id@ == cell.id@) ==> r.class@ == plain@,
        cell.contested ==> lit@ == crate::patch_bay::CELL_CONTESTED_LIT_CLASS@ && plain@
            == crate::patch_bay::CELL_CONTESTED_CLASS@ && r.label_class@
            == crate::patch_bay::CELL_LABEL_CONTESTED_CLASS@,
        !cell.contested ==> lit@ == crate::patch_bay::CELL_LIT_CLASS@ && plain@
            == crate::patch_bay::CELL_CLASS@ && r.label_class@
            == crate::patch_bay::CELL_LABEL_CLASS@,
{
}

/// A strip has a texel for each lamp of the run, and one for an empty run. Each shows a
/// lamp of the run's stretch of wire, three samples to a lamp, as far as samples are
/// numbered: on the wire in the wire's order, and on the fixture in the fixture's,
/// where the last lamp of a reversed run lies first on the wire.
pub proof fn a_strip_shows_its_own_lamps(
    cell: &UiPatchCell,
    along_wire: bool,
    r: Vec<u32>,
    i: int,
)
    requires
        call_ensures(cell_strip_samples, (cell, along_wire), r),
    ensures
        cell.lamps > 0 ==> r@.len() == cell.lamps,
        cell.lamps == 0 ==> r@.len() == 1 && r@[0] == at_most_largest(3 * cell.wire_start),
        0 <= i < cell.lamps && (along_wire || !cell.reversed) ==> r@[i] == at_most_largest(
            3 * (cell.wire_start + i),
        ),
        0 <= i < cell.lamps && !along_wire && cell.reversed ==> r@[cell.lamps - 1 - i]
            == at_most_largest(3 * (cell.wire_start + i)),
{
}

proof fn a_texel_of_a_strip(colors: Seq<Option<Rgb>>, unlit: Rgb, i: int)
    requires
        0 <= i < colors.len(),
    ensures
        strip_bytes(colors, unlit).len() == 4 * colors.len(),
        ({
            let rgb = if colors[i] is Some {
                colors[i]->Some_0
            } else {
                unlit
            };
            &&& strip_bytes(colors, unlit)[4 * i] == rgb.r
            &&& strip_bytes(colors, unlit)[4 * i + 1] == rgb.g
            &&& strip_bytes(colors, unlit)[4 * i + 2] == rgb.b
            &&& strip_bytes(colors, unlit)[4 * i + 3] == 255
        }),
    decreases colors.len(),
{
    reveal_with_fuel(strip_bytes, 2);
    let head = colors.drop_last();
    if i < head.len() {
        a_texel_of_a_strip(head, unlit, i);
        assert(head[i] == colors[i]);
    } else if head.len() > 0 {
        a_texel_of_a_strip(head, unlit, 0);
    }
}

/// A texel has the colour its lamp has, or that of an unlit lamp, and is opaque: four
/// bytes a texel.
pub proof fn a_texel_has_its_lamps_colour(
    colors: &Vec<Option<Rgb>>,
    unlit: Rgb,
    r: Vec<u8>,
    i: int,
)
    requires
        call_ensures(cell_strip_rgba, (colors, unlit), r),
        0 <= i < colors@.len(),
    ensures
        r@.len() == 4 * colors@.len(),
        ({
            let rgb = if colors@[i] is Some {
                colors@[i]->Some_0
            } else {
                unlit
            };
            &&& r@[4 * i] == rgb.r
            &&& r@[4 * i + 1] == rgb.g
            &&& r@[4 * i + 2] == rgb.b
            &&& r@[4 * i + 3] == 255
        }),
{
    a_texel_of_a_strip(colors@, unlit, i);
}

/// A strip is painted again exactly where the frame, or anything of the run that its
/// picture depends on, is not what it was painted from.
pub proof fn a_strip_is_painted_again_where_it_would_differ(
    cell: &UiPatchCell,
    frame: Option<(i64, usize)>,
    along_wire: bool,
    key: CellPaintKey,
    was: &UiPatchCell,
    was_frame: Option<(i64, usize)>,
    was_along_wire: bool,
    painted: CellPaintKey,
    first: bool,
    r: bool,
)
    requires
        frame matches Some((revision, _)) ==> revision >= 0,
        was_frame matches Some((revision, _)) ==> revision >= 0,
        call_ensures(cell_paint_key, (cell, frame, along_wire), key),
        call_ensures(cell_paint_key, (was, was_frame, was_along_wire), painted),
        call_ensures(needs_paint, (None, key), first),
        call_ensures(needs_paint, (Some(painted), key), r),
    ensures
        first,
        !r <==> frame == was_frame && cell.wire_start == was.wire_start && cell.lamps == was.lamps
            && cell.reversed == was.reversed && cell.contested == was.contested && along_wire
            == was_along_wire,
{
}

} // verus!
