//! Wiring drawers on their own: buses that show each flavour of binding, and the
//! face that is nothing but its open drawer.

use vstd::prelude::*;
use vstd::string::*;

use crate::module_scopes::{scope_target, target_of, ROOT_SCOPE};
use crate::node_view::{
    no_sites, one_site, site_models, tracked_preview, two_sites, ChannelModel, FaceModel,
    SiteModel, UiBusChannelPreview, UiBusChannelView, UiBusSiteOrigin, UiBusSiteView, UiBusView,
    UiModuleFace, UiProductKind,
};
use crate::panel::{GroupModel, SlotValueModel, UiPanelGroup, UiSlotValue};

verus! {

/// Who is asked to focus the node of a site.
pub const FOCUS_CONTROLLER: &'static str = "story.module";

/// A site of a given origin, which a click focuses.
pub open spec fn bound_site(
    label: Seq<char>,
    slot: Option<Seq<char>>,
    origin: UiBusSiteOrigin,
) -> SiteModel {
    SiteModel {
        node_label: label,
        slot,
        origin,
        publish: false,
        shadowed: false,
        child_scope: None,
        focus: Some(FOCUS_CONTROLLER@),
    }
}

/// A site of a given origin, which a click focuses.
pub fn flow_site(label: &str, slot: Option<&str>, origin: UiBusSiteOrigin) -> (r: UiBusSiteView)
    ensures
        r@ == bound_site(
            label@,
            match slot {
                Some(slot) => Some(slot@),
                None => None,
            },
            origin,
        ),
{
    UiBusSiteView {
        node_label: label.to_string(),
        slot: match slot {
            Some(slot) => Some(slot.to_string()),
            None => None,
        },
        origin,
        publish: false,
        shadowed: false,
        child_scope: None,
        focus: Some(FOCUS_CONTROLLER.to_string()),
    }
}

/// A channel of the root scope that nothing is known of yet.
pub open spec fn bare_channel(name: Seq<char>, kind: Seq<char>) -> ChannelModel {
    ChannelModel {
        scope: target_of(ROOT_SCOPE@),
        scope_label: None,
        name,
        kind: Some(kind),
        value: None,
        value_error: None,
        primary_visual: false,
        contended: false,
        preview: None,
        gradient: None,
        writers: Seq::empty(),
        readers: Seq::empty(),
    }
}

/// A channel of the root scope, with its writers and readers.
pub fn flow_channel(
    name: &str,
    kind: &str,
    writers: Vec<UiBusSiteView>,
    readers: Vec<UiBusSiteView>,
) -> (r: UiBusChannelView)
    ensures
        r@ == (ChannelModel {
            writers: site_models(writers@),
            readers: site_models(readers@),
            ..bare_channel(name@, kind@)
        }),
{
    UiBusChannelView {
        scope: Some(scope_target(ROOT_SCOPE)),
        scope_label: None,
        name: name.to_string(),
        kind: Some(kind.to_string()),
        value: None,
        value_error: None,
        primary_visual: false,
        contended: false,
        preview: None,
        gradient: None,
        writers,
        readers,
    }
}

/// The live picture of a product on a channel.
pub open spec fn picture_of(kind: UiProductKind) -> UiBusChannelPreview {
    UiBusChannelPreview { kind, tracking: true, frame: None }
}

/// A reader in the scope of a child.
fn child_reader(scope: &str, slot: &str) -> (r: UiBusSiteView)
    ensures
        r@ == (SiteModel {
            child_scope: Some(scope@),
            ..bound_site("sim"@, Some(slot@), UiBusSiteOrigin::Authored)
        }),
{
    let mut reader: UiBusSiteView = flow_site("sim", Some(slot), UiBusSiteOrigin::Authored);
    reader.child_scope = Some(scope.to_string());
    reader
}

/// A writer that another one overrules.
fn shadowed_writer(label: &str, slot: &str) -> (r: UiBusSiteView)
    ensures
        r@ == (SiteModel {
            shadowed: true,
            ..bound_site(label@, Some(slot@), UiBusSiteOrigin::Authored)
        }),
{
    let mut writer: UiBusSiteView = flow_site(label, Some(slot), UiBusSiteOrigin::Authored);
    writer.shadowed = true;
    writer
}

/// A module that publishes its visual.
fn publisher(label: &str) -> (r: UiBusSiteView)
    ensures
        r@ == (SiteModel {
            publish: true,
            ..bound_site(label@, Some("visual.out"@), UiBusSiteOrigin::Default)
        }),
{
    let mut writer: UiBusSiteView = flow_site(
        label,
        Some("visual.out"),
        UiBusSiteOrigin::Default,
    );
    writer.publish = true;
    writer
}

/// The visual a playlist writes and a fixture samples.
pub open spec fn playlist_visual_channel() -> ChannelModel {
    ChannelModel {
        value: Some("visual product #5:0"@),
        primary_visual: true,
        preview: Some(picture_of(UiProductKind::Visual)),
        writers: seq![bound_site("Playlist"@, Some("output"@), UiBusSiteOrigin::Default)],
        readers: seq![bound_site("Fixture"@, Some("input"@), UiBusSiteOrigin::Authored)],
        ..bare_channel("visual.out"@, "Color"@)
    }
}

fn playlist_visual() -> (r: UiBusChannelView)
    ensures
        r@ == playlist_visual_channel(),
{
    let mut visual: UiBusChannelView = flow_channel(
        "visual.out",
        "Color",
        one_site(flow_site("Playlist", Some("output"), UiBusSiteOrigin::Default)),
        one_site(flow_site("Fixture", Some("input"), UiBusSiteOrigin::Authored)),
    );
    visual.value = Some("visual product #5:0".to_string());
    visual.primary_visual = true;
    visual.preview = Some(tracked_preview(UiProductKind::Visual));
    visual
}

/// The bus of a sign: a clock's default writer, a trigger with two writers, the
/// visual, and a channel that came to nothing.
pub open spec fn fyeah_bus() -> Seq<ChannelModel> {
    seq![
        ChannelModel {
            value: Some("3.333"@),
            writers: seq![bound_site("Clock"@, Some("seconds"@), UiBusSiteOrigin::Default)],
            readers: seq![bound_site("Playlist"@, Some("time"@), UiBusSiteOrigin::Authored)],
            ..bare_channel("time"@, "Instant"@)
        },
        ChannelModel {
            writers: seq![bound_site("Button"@, Some("down"@), UiBusSiteOrigin::Authored), bound_site("Radio"@, Some("output"@), UiBusSiteOrigin::Authored)],
            readers: seq![bound_site("Playlist"@, Some("trigger"@), UiBusSiteOrigin::Authored), bound_site("Radio"@, Some("input"@), UiBusSiteOrigin::Authored)],
            ..bare_channel("trigger"@, "Instant"@)
        },
        playlist_visual_channel(),
        ChannelModel {
            value_error: Some("no provider produced a value"@),
            writers: seq![bound_site("Fixture"@, Some("output"@), UiBusSiteOrigin::Authored)],
            readers: seq![bound_site("Output"@, Some("input"@), UiBusSiteOrigin::Authored)],
            ..bare_channel("control.out"@, "Color"@)
        },
    ]
}

/// The bus of a sign: a clock's default writer, a trigger with two writers, the
/// visual, and a channel that came to nothing.
pub fn fyeah_bus_view() -> (r: UiBusView)
    ensures
        r@ == fyeah_bus(),
{
    let mut time: UiBusChannelView = flow_channel(
        "time",
        "Instant",
        one_site(flow_site("Clock", Some("seconds"), UiBusSiteOrigin::Default)),
        one_site(flow_site("Playlist", Some("time"), UiBusSiteOrigin::Authored)),
    );
    time.value = Some("3.333".to_string());
    let trigger: UiBusChannelView = flow_channel(
        "trigger",
        "Instant",
        two_sites(
            flow_site("Button", Some("down"), UiBusSiteOrigin::Authored),
            flow_site("Radio", Some("output"), UiBusSiteOrigin::Authored),
        ),
        two_sites(
            flow_site("Playlist", Some("trigger"), UiBusSiteOrigin::Authored),
            flow_site("Radio", Some("input"), UiBusSiteOrigin::Authored),
        ),
    );
    let mut lamps: UiBusChannelView = flow_channel(
        "control.out",
        "Color",
        one_site(flow_site("Fixture", Some("output"), UiBusSiteOrigin::Authored)),
        one_site(flow_site("Output", Some("input"), UiBusSiteOrigin::Authored)),
    );
    lamps.value_error = Some("no provider produced a value".to_string());
    let channels: Vec<UiBusChannelView> = vec![time, trigger, playlist_visual(), lamps];
    let r = UiBusView { channels };
    assert(r@ =~= fyeah_bus());
    r
}

/// Every flavour of binding in one scope: a held channel over a shadowed writer,
/// a channel nothing writes, and one two modules publish on.
pub open spec fn states_bus() -> Seq<ChannelModel> {
    seq![
        ChannelModel {
            value: Some("0.735"@),
            writers: seq![bound_site("panel"@, None, UiBusSiteOrigin::Panel), SiteModel { shadowed: true, ..bound_site("Master hue"@, Some("value"@), UiBusSiteOrigin::Authored) }],
            readers: seq![SiteModel { child_scope: Some("plasma_1"@), ..bound_site("sim"@, Some("hue"@), UiBusSiteOrigin::Authored) }, SiteModel { child_scope: Some("plasma_2"@), ..bound_site("sim"@, Some("hue"@), UiBusSiteOrigin::Authored) }],
            ..bare_channel("hue"@, "Float"@)
        },
        ChannelModel {
            writers: Seq::empty(),
            readers: seq![bound_site("halo"@, Some("brightness"@), UiBusSiteOrigin::Authored)],
            ..bare_channel("brightness"@, "Float"@)
        },
        ChannelModel {
            value: Some("visual product #9:0"@),
            primary_visual: true,
            contended: true,
            preview: Some(picture_of(UiProductKind::Visual)),
            writers: seq![SiteModel { publish: true, ..bound_site("plasma_1"@, Some("visual.out"@), UiBusSiteOrigin::Default) }, SiteModel { publish: true, ..bound_site("plasma_2"@, Some("visual.out"@), UiBusSiteOrigin::Default) }],
            readers: seq![bound_site("halo"@, Some("input"@), UiBusSiteOrigin::Authored)],
            ..bare_channel("visual.out"@, "Color"@)
        },
    ]
}

/// Every flavour of binding in one scope: a held channel over a shadowed writer,
/// a channel nothing writes, and one two modules publish on.
pub fn states_bus_view() -> (r: UiBusView)
    ensures
        r@ == states_bus(),
{
    let mut hue: UiBusChannelView = flow_channel(
        "hue",
        "Float",
        two_sites(
            flow_site("panel", None, UiBusSiteOrigin::Panel),
            shadowed_writer("Master hue", "value"),
        ),
        two_sites(child_reader("plasma_1", "hue"), child_reader("plasma_2", "hue")),
    );
    hue.value = Some("0.735".to_string());
    let mut visual: UiBusChannelView = flow_channel(
        "visual.out",
        "Color",
        two_sites(publisher("plasma_1"), publisher("plasma_2")),
        one_site(flow_site("halo", Some("input"), UiBusSiteOrigin::Authored)),
    );
    visual.value = Some("visual product #9:0".to_string());
    visual.primary_visual = true;
    visual.contended = true;
    visual.preview = Some(tracked_preview(UiProductKind::Visual));
    let brightness: UiBusChannelView = flow_channel(
        "brightness",
        "Float",
        no_sites(),
        one_site(flow_site("halo", Some("brightness"), UiBusSiteOrigin::Authored)),
    );
    let channels: Vec<UiBusChannelView> = vec![hue, brightness, visual];
    let r = UiBusView { channels };
    assert(r@[0] == states_bus()[0]);
    assert(r@[1] == states_bus()[1]);
    assert(r@[2] == states_bus()[2]);
    assert(r@ =~= states_bus());
    r
}

/// The two product channels of a sign.
pub open spec fn output_bus() -> Seq<ChannelModel> {
    seq![
        playlist_visual_channel(),
        ChannelModel {
            value: Some("control product #7:0"@),
            preview: Some(picture_of(UiProductKind::Control)),
            writers: seq![bound_site("Fixture"@, Some("output"@), UiBusSiteOrigin::Default)],
            readers: seq![bound_site("Output"@, Some("input"@), UiBusSiteOrigin::Default)],
            ..bare_channel("control.out"@, "Color"@)
        },
    ]
}

/// The two product channels of a sign.
pub fn output_bus_view() -> (r: UiBusView)
    ensures
        r@ == output_bus(),
{
    let mut lamps: UiBusChannelView = flow_channel(
        "control.out",
        "Color",
        one_site(flow_site("Fixture", Some("output"), UiBusSiteOrigin::Default)),
        one_site(flow_site("Output", Some("input"), UiBusSiteOrigin::Default)),
    );
    lamps.value = Some("control product #7:0".to_string());
    lamps.preview = Some(tracked_preview(UiProductKind::Control));
    let channels: Vec<UiBusChannelView> = vec![playlist_visual(), lamps];
    let r = UiBusView { channels };
    assert(r@ =~= output_bus());
    r
}

/// A channel that carries a gradient, and says so in words.
pub open spec fn palette_channel(
    name: Seq<char>,
    gradient: SlotValueModel,
    words: Seq<char>,
) -> ChannelModel {
    ChannelModel {
        value: Some(words),
        gradient: Some(gradient),
        writers: seq![bound_site("Palette"@, Some("output"@), UiBusSiteOrigin::Authored)],
        readers: seq![bound_site("Plasma"@, Some("palette"@), UiBusSiteOrigin::Authored)],
        ..bare_channel(name, "Color"@)
    }
}

fn palette_flow(name: &str, gradient: &UiSlotValue, words: &str) -> (r: UiBusChannelView)
    ensures
        r@ == palette_channel(name@, gradient@, words@),
{
    let mut row: UiBusChannelView = flow_channel(
        name,
        "Color",
        one_site(flow_site("Palette", Some("output"), UiBusSiteOrigin::Authored)),
        one_site(flow_site("Plasma", Some("palette"), UiBusSiteOrigin::Authored)),
    );
    row.value = Some(words.to_string());
    row.gradient = Some(gradient.clone());
    row
}

/// A scope that carries palettes: a plain gradient and a cycle, each with the
/// words for it.
pub fn gradient_bus_view(
    plain: &UiSlotValue,
    plain_words: &str,
    cycle: &UiSlotValue,
    cycle_words: &str,
) -> (r: UiBusView)
    ensures
        r@ == seq![
            palette_channel("palette"@, plain@, plain_words@),
            palette_channel("palette.cycle"@, cycle@, cycle_words@),
        ],
{
    let channels: Vec<UiBusChannelView> = vec![
        palette_flow("palette", plain, plain_words),
        palette_flow("palette.cycle", cycle, cycle_words),
    ];
    let r = UiBusView { channels };
    assert(r@ =~= seq![
        palette_channel("palette"@, plain@, plain_words@),
        palette_channel("palette.cycle"@, cycle@, cycle_words@),
    ]);
    r
}

/// A face that is nothing but its open wiring drawer.
pub fn drawer_only_face(wiring: UiBusView) -> (r: UiModuleFace)
    ensures
        r@ == (FaceModel {
            preview: None,
            hero_choice: None,
            panel: GroupModel {
                label: "Aurora Sign"@,
                scope: ROOT_SCOPE@,
                target: target_of(ROOT_SCOPE@),
                controls: Seq::empty(),
                groups: Seq::empty(),
            },
            wiring: Some(wiring@),
            wiring_open: true,
            provenance: None,
            auto_save: None,
        }),
{
    UiModuleFace {
        preview: None,
        hero_choice: None,
        panel: UiPanelGroup::new("Aurora Sign", ROOT_SCOPE).with_target(
            scope_target(ROOT_SCOPE),
        ),
        wiring: Some(wiring),
        wiring_open: true,
        provenance: None,
        auto_save: None,
    }
}

} // verus!
