//! What the examples' buses carry and what their cards show, said of the calls that
//! build them.

use vstd::prelude::*;
use vstd::string::*;

use crate::aurora::{plasma_read_panel, root_panel};
use crate::aurora_cards::{
    control_root_face, control_wiring, plasma_children, plasma_face, plasma_wiring,
    root_children, root_face, root_module_node_view, root_wiring,
};
use crate::node_view::{
    ChannelModel, NodeFaceModel, SiteModel, UiBusSiteOrigin, UiBusView, UiModuleFace,
    UiNodeChild, UiNodeView, UiProductKind,
};
use crate::panel::{SlotValueModel, UiPanelControlState, UiPanelGroup};
use crate::wiring_views::{fyeah_bus_view, output_bus_view, states_bus_view};

verus! {

/// The sites are these slots of these nodes, in order.
pub open spec fn are_sites(sites: Seq<SiteModel>, named: Seq<(Seq<char>, Seq<char>)>) -> bool {
    &&& sites.len() == named.len()
    &&& forall|i: int|
        0 <= i < named.len() ==> (#[trigger] sites[i]).node_label == named[i].0 && sites[i].slot
            == Some(named[i].1)
}

/// The channel has this name and this value, and runs from these writers to these
/// readers.
pub open spec fn runs(
    channel: ChannelModel,
    name: Seq<char>,
    value: Option<Seq<char>>,
    writers: Seq<(Seq<char>, Seq<char>)>,
    readers: Seq<(Seq<char>, Seq<char>)>,
) -> bool {
    &&& channel.name == name
    &&& channel.value == value
    &&& are_sites(channel.writers, writers)
    &&& are_sites(channel.readers, readers)
}

/// The aurora example's scopes: an instance reads the host's time and speed and writes
/// its visual, the root runs every channel from a writer to its readers, and a rig
/// without a visual runs its lamps.
pub proof fn the_scopes_run_from_writers_to_readers(
    plasma: UiBusView,
    control: UiBusView,
    root: UiBusView,
)
    requires
        call_ensures(plasma_wiring, (), plasma),
        call_ensures(control_wiring, (), control),
        call_ensures(root_wiring, (), root),
    ensures
        plasma@.len() == 3,
        runs(plasma@[0], "time"@, Some("12.44"@), seq![], seq![("sim"@, "time"@)]),
        runs(plasma@[1], "speed"@, Some("0.62"@), seq![], seq![("sim"@, "speed"@)]),
        runs(
            plasma@[2],
            "visual.out"@,
            Some("visual product #7:0"@),
            seq![("sim"@, "visual"@)],
            seq![("plasma"@, "output"@)],
        ),
        control@.len() == 2,
        runs(
            control@[0],
            "time"@,
            Some("12.44"@),
            seq![("clock"@, "seconds"@)],
            seq![("scanner"@, "time"@)],
        ),
        runs(
            control@[1],
            "control.out"@,
            Some("control product #7:0"@),
            seq![("Fixture"@, "output"@)],
            seq![("Output"@, "input"@)],
        ),
        control@[1].preview is Some && control@[1].preview->Some_0.kind == UiProductKind::Control,
        root@.len() == 5,
        runs(
            root@[0],
            "time"@,
            Some("12.44"@),
            seq![("clock"@, "seconds"@)],
            seq![("plasma_1"@, "time"@), ("plasma_2"@, "time"@)],
        ),
        runs(
            root@[1],
            "speed"@,
            Some("0.62"@),
            seq![("Master speed"@, "value"@)],
            seq![("plasma_2"@, "speed"@)],
        ),
        runs(
            root@[2],
            "hue"@,
            Some("0.41"@),
            seq![("hue lfo"@, "out"@)],
            seq![("plasma_1"@, "hue"@)],
        ),
        runs(
            root@[3],
            "brightness"@,
            Some("96"@),
            seq![("panel"@, "held"@)],
            seq![("halo"@, "brightness"@)],
        ),
        runs(
            root@[4],
            "visual.out"@,
            Some("visual product #5:0"@),
            seq![("plasma_1"@, "publish"@)],
            seq![("halo"@, "input"@)],
        ),
        plasma@[2].primary_visual && root@[4].primary_visual && !control@[1].primary_visual,
        !plasma@[0].primary_visual && !plasma@[1].primary_visual,
        !root@[0].primary_visual && !root@[1].primary_visual && !root@[2].primary_visual
            && !root@[3].primary_visual,
{
}

/// The sign's bus: the clock drives it by default, its trigger has two writers, its
/// visual is the primary one, and what came to nothing says so.
pub proof fn the_signs_bus_says_what_came_to_nothing(r: UiBusView, products: UiBusView)
    requires
        call_ensures(fyeah_bus_view, (), r),
        call_ensures(output_bus_view, (), products),
    ensures
        r@.len() == 4,
        runs(
            r@[0],
            "time"@,
            Some("3.333"@),
            seq![("Clock"@, "seconds"@)],
            seq![("Playlist"@, "time"@)],
        ),
        r@[0].writers[0].origin == UiBusSiteOrigin::Default && r@[0].readers[0].origin
            == UiBusSiteOrigin::Authored,
        runs(
            r@[1],
            "trigger"@,
            None,
            seq![("Button"@, "down"@), ("Radio"@, "output"@)],
            seq![("Playlist"@, "trigger"@), ("Radio"@, "input"@)],
        ),
        runs(
            r@[2],
            "visual.out"@,
            Some("visual product #5:0"@),
            seq![("Playlist"@, "output"@)],
            seq![("Fixture"@, "input"@)],
        ),
        r@[2].primary_visual && r@[2].preview is Some && r@[2].preview->Some_0.kind
            == UiProductKind::Visual,
        runs(
            r@[3],
            "control.out"@,
            None,
            seq![("Fixture"@, "output"@)],
            seq![("Output"@, "input"@)],
        ),
        r@[3].value_error == Some("no provider produced a value"@),
        products@.len() == 2,
        products@[0] == r@[2],
        runs(
            products@[1],
            "control.out"@,
            Some("control product #7:0"@),
            seq![("Fixture"@, "output"@)],
            seq![("Output"@, "input"@)],
        ),
        products@[1].preview is Some && products@[1].preview->Some_0.kind
            == UiProductKind::Control,
        products@[1].writers[0].origin == UiBusSiteOrigin::Default,
{
}

/// Every flavour of binding: the panel overrules a writer, which is shadowed; a channel
/// that nothing writes has a reader all the same; and two publishers contend.
pub proof fn each_flavour_of_binding_is_shown(r: UiBusView)
    requires
        call_ensures(states_bus_view, (), r),
    ensures
        r@.len() == 3,
        r@[0].name == "hue"@ && r@[0].value == Some("0.735"@),
        r@[0].writers.len() == 2,
        r@[0].writers[0].origin == UiBusSiteOrigin::Panel && !r@[0].writers[0].shadowed
            && r@[0].writers[0].slot is None,
        r@[0].writers[1].node_label == "Master hue"@ && r@[0].writers[1].shadowed,
        r@[0].readers.len() == 2,
        r@[0].readers[0].child_scope == Some("plasma_1"@),
        r@[0].readers[1].child_scope == Some("plasma_2"@),
        runs(r@[1], "brightness"@, None, seq![], seq![("halo"@, "brightness"@)]),
        runs(
            r@[2],
            "visual.out"@,
            Some("visual product #9:0"@),
            seq![("plasma_1"@, "visual.out"@), ("plasma_2"@, "visual.out"@)],
            seq![("halo"@, "input"@)],
        ),
        r@[2].contended && !r@[0].contended && !r@[1].contended,
        r@[2].writers[0].publish && r@[2].writers[1].publish && !r@[0].writers[0].publish,
{
}

/// The root's card shows the root's face above its children's cards: the clock, the
/// master speed, the two instances with their own panels and shaders below them, and
/// the fixture that shares the root's brightness.
pub proof fn the_roots_card_stands_above_its_children(
    panel: UiPanelGroup,
    wiring: UiBusView,
    face: UiModuleFace,
    children: Vec<UiNodeChild>,
    card: UiNodeView,
    one: &str,
    first: UiPanelGroup,
    first_face: UiModuleFace,
    shaders: Vec<UiNodeChild>,
)
    requires
        call_ensures(root_panel, (), panel),
        call_ensures(root_wiring, (), wiring),
        call_ensures(root_face, (), face),
        call_ensures(root_children, (), children),
        call_ensures(root_module_node_view, (), card),
        one@ == "/aurora.module/plasma_1.module"@,
        call_ensures(plasma_read_panel, (one,), first),
        call_ensures(plasma_face, (first,), first_face),
        call_ensures(plasma_children, (), shaders),
    ensures
        face@.panel == panel@ && face@.wiring == Some(wiring@) && !face@.wiring_open
            && face@.auto_save == Some(true) && face@.hero_choice is None,
        face@.preview is Some && face@.preview->Some_0.kind == UiProductKind::Visual,
        card@.face == Some(NodeFaceModel::Module(face@)),
        card@.header.name == "Aurora Sign"@ && card@.header.path == "/aurora.module"@,
        card@.children == crate::node_view::child_models(children@),
        children@.len() == 5,
        children@[0]@.label == "clock"@ && children@[0]@.face is None,
        children@[1]@.label == "Master speed"@ && children@[1]@.face is Some
            && children@[1]@.face->Some_0 is Controls,
        children@[2]@.label == "plasma_1"@ && children@[2]@.face == Some(
            NodeFaceModel::Module(first_face@),
        ) && children@[2]@.children == crate::node_view::child_models(shaders@),
        children@[3]@.label == "plasma_2"@ && children@[3]@.detail
            == "/aurora.module/plasma_2.module"@ && children@[3]@.children
            == children@[2]@.children,
        children@[4]@.label == "halo"@ && children@[4]@.face is Some
            && children@[4]@.face->Some_0 is Controls,
        children@[4]@.face->Some_0->Controls_0.controls.len() == 1
            && children@[4]@.face->Some_0->Controls_0.controls[0] == panel@.controls[0],
        shaders@.len() == 1 && shaders@[0]@.label == "sim"@ && shaders@[0]@.kind == "Shader"@
            && shaders@[0]@.sections.len() == 1,
        shaders@[0]@.sections[0] is ProducedProducts
            && shaders@[0]@.sections[0]->ProducedProducts_0.len() == 1
            && shaders@[0]@.sections[0]->ProducedProducts_0[0].kind == UiProductKind::Visual,
{
    let models = crate::node_view::child_models(children@);
    assert(models.len() == children@.len());
    assert(models[0] == children@[0]@);
    assert(models[1] == children@[1]@);
    assert(models[2] == children@[2]@);
    assert(models[3] == children@[3]@);
    assert(models[4] == children@[4]@);
    let below = crate::node_view::child_models(shaders@);
    assert(below.len() == shaders@.len());
    assert(below[0] == shaders@[0]@);
}

/// A rig without a visual has its lamps for a hero, and one fader at its default.
pub proof fn the_rig_shows_its_lamps(face: UiModuleFace, wiring: UiBusView)
    requires
        call_ensures(control_root_face, (), face),
        call_ensures(control_wiring, (), wiring),
    ensures
        face@.preview is Some && face@.preview->Some_0.kind == UiProductKind::Control,
        face@.wiring == Some(wiring@) && face@.auto_save == Some(true) && face@.provenance is None,
        face@.panel.label == "Scanner Rig"@ && face@.panel.groups.len() == 0,
        face@.panel.controls.len() == 1,
        face@.panel.controls[0].channel == "brightness"@ && face@.panel.controls[0].value
            == SlotValueModel::F32(0x43480000) && face@.panel.controls[0].state
            == UiPanelControlState::ReadDefault,
{
}

} // verus!
