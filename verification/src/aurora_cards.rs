//! The cards of the aurora example: the root module's card, the cards of its
//! children below it, and the wiring of their scopes.

use vstd::prelude::*;
use vstd::string::*;

use crate::aurora::{
    at_default, fader, fader_at, following, group_at, knob, knob_at, plasma_read_group,
    plasma_read_panel, root_group, root_panel, walk_slot, BRIGHT, DIM, FULL, ONE, SPEED_HELD,
    SPEED_LIVE, ZERO,
};
use crate::module_scopes::{scope_target, PLASMA_1_SCOPE, PLASMA_2_SCOPE, ROOT_SCOPE};
use crate::node_view::{
    child_models, no_sites, one_site, product_models, site_models, tracked_preview, two_sites,
    ChannelModel, ChildModel, FaceModel, HeaderModel, NodeFaceModel, NodeModel, ProductModel,
    SectionModel, SiteModel, UiBusChannelPreview, UiBusChannelView, UiBusSiteOrigin, UiBusSiteView,
    UiBusView, UiModuleFace, UiNodeChild, UiNodeFace, UiNodeHeader, UiNodeSection, UiNodeView,
    UiProducedProduct, UiProductKind,
};
use crate::panel::{ControlModel, GroupModel, UiPanelControlView, UiPanelGroup};
use crate::panel_laws::{
    clearing_everything_gives_back_the_card, clearing_everything_returns_to_the_untouched_card,
    holding_is_touching,
};
use crate::panel_tree::{
    child_controls, children_controls, face_controls, group_controls, groups_controls, map_node,
    node_controls, node_controls_of_map, own_controls, Placed,
};
use crate::panel_walk::{
    cleared, edits_keep_the_frame, same_frame, with_all_held, with_auto_save, ClearModel,
    EditModel, HeldControl, PanelWalk,
};
use crate::slot::LpValueView;
use crate::text::has_prefix;

verus! {

/// A writer or reader as its author bound it.
pub open spec fn site_at(node_label: Seq<char>, slot: Seq<char>) -> SiteModel {
    SiteModel {
        node_label,
        slot: Some(slot),
        origin: UiBusSiteOrigin::Authored,
        publish: false,
        shadowed: false,
        child_scope: None,
        focus: None,
    }
}

/// A writer or reader as its author bound it.
pub fn site(node_label: &str, slot: &str) -> (r: UiBusSiteView)
    ensures
        r@ == site_at(node_label@, slot@),
{
    UiBusSiteView {
        node_label: node_label.to_string(),
        slot: Some(slot.to_string()),
        origin: UiBusSiteOrigin::Authored,
        publish: false,
        shadowed: false,
        child_scope: None,
        focus: None,
    }
}

/// What a channel without a value says.
pub const NO_WRITER: &'static str = "no writer in any enclosing scope";

/// One channel of a wiring drawer. Without a value it says why.
pub open spec fn channel_at(
    name: Seq<char>,
    kind: Seq<char>,
    value: Option<Seq<char>>,
    writers: Seq<SiteModel>,
    readers: Seq<SiteModel>,
) -> ChannelModel {
    ChannelModel {
        scope: None,
        scope_label: None,
        name,
        kind: Some(kind),
        value,
        value_error: if value is None {
            Some(NO_WRITER@)
        } else {
            None
        },
        primary_visual: false,
        contended: false,
        preview: None,
        gradient: None,
        writers,
        readers,
    }
}

/// One channel of a wiring drawer.
pub fn channel(
    name: &str,
    kind: &str,
    value: Option<&str>,
    writers: Vec<UiBusSiteView>,
    readers: Vec<UiBusSiteView>,
) -> (r: UiBusChannelView)
    ensures
        r@ == channel_at(
            name@,
            kind@,
            match value {
                Some(value) => Some(value@),
                None => None,
            },
            site_models(writers@),
            site_models(readers@),
        ),
{
    UiBusChannelView {
        scope: None,
        scope_label: None,
        name: name.to_string(),
        kind: Some(kind.to_string()),
        value: match value {
            Some(value) => Some(value.to_string()),
            None => None,
        },
        value_error: match value {
            Some(_) => None,
            None => Some(NO_WRITER.to_string()),
        },
        primary_visual: false,
        contended: false,
        preview: None,
        gradient: None,
        writers,
        readers,
    }
}

/// The plasma scope's wiring: nothing in it writes `time` or `speed`, so both are
/// what the host's scope has, and `visual.out` is written in the scope itself.
pub open spec fn plasma_bus() -> Seq<ChannelModel> {
    seq![
        channel_at("time"@, "Instant"@, Some("12.44"@), Seq::empty(), seq![site_at("sim"@, "time"@)]),
        channel_at("speed"@, "Float"@, Some("0.62"@), Seq::empty(), seq![site_at("sim"@, "speed"@)]),
        ChannelModel { primary_visual: true, ..channel_at("visual.out"@, "Color"@, Some("visual product #7:0"@), seq![site_at("sim"@, "visual"@)], seq![site_at("plasma"@, "output"@)]) },
    ]
}

/// The plasma scope's wiring.
pub fn plasma_wiring() -> (r: UiBusView)
    ensures
        r@ == plasma_bus(),
{
    let mut visual: UiBusChannelView = channel(
        "visual.out",
        "Color",
        Some("visual product #7:0"),
        one_site(site("sim", "visual")),
        one_site(site("plasma", "output")),
    );
    visual.primary_visual = true;
    let channels: Vec<UiBusChannelView> = vec![
        channel("time", "Instant", Some("12.44"), no_sites(), one_site(site("sim", "time"))),
        channel("speed", "Float", Some("0.62"), no_sites(), one_site(site("sim", "speed"))),
        visual,
    ];
    let r = UiBusView { channels };
    assert(r@ =~= plasma_bus());
    r
}

/// The wiring of a scope without a visual.
pub open spec fn control_bus() -> Seq<ChannelModel> {
    seq![
        channel_at("time"@, "Instant"@, Some("12.44"@), seq![site_at("clock"@, "seconds"@)], seq![site_at("scanner"@, "time"@)]),
        ChannelModel { preview: Some(UiBusChannelPreview { kind: UiProductKind::Control, tracking: true, frame: None }), ..channel_at("control.out"@, "Color"@, Some("control product #7:0"@), seq![site_at("Fixture"@, "output"@)], seq![site_at("Output"@, "input"@)]) },
    ]
}

/// The wiring of a scope without a visual.
pub fn control_wiring() -> (r: UiBusView)
    ensures
        r@ == control_bus(),
{
    let mut lamps: UiBusChannelView = channel(
        "control.out",
        "Color",
        Some("control product #7:0"),
        one_site(site("Fixture", "output")),
        one_site(site("Output", "input")),
    );
    lamps.preview = Some(tracked_preview(UiProductKind::Control));
    let channels: Vec<UiBusChannelView> = vec![
        channel(
            "time",
            "Instant",
            Some("12.44"),
            one_site(site("clock", "seconds")),
            one_site(site("scanner", "time")),
        ),
        lamps,
    ];
    let r = UiBusView { channels };
    assert(r@ =~= control_bus());
    r
}

/// The root scope's wiring.
pub open spec fn root_bus() -> Seq<ChannelModel> {
    seq![
        channel_at("time"@, "Instant"@, Some("12.44"@), seq![site_at("clock"@, "seconds"@)], seq![site_at("plasma_1"@, "time"@), site_at("plasma_2"@, "time"@)]),
        channel_at("speed"@, "Float"@, Some("0.62"@), seq![site_at("Master speed"@, "value"@)], seq![site_at("plasma_2"@, "speed"@)]),
        channel_at("hue"@, "Float"@, Some("0.41"@), seq![site_at("hue lfo"@, "out"@)], seq![site_at("plasma_1"@, "hue"@)]),
        channel_at("brightness"@, "Float"@, Some("96"@), seq![site_at("panel"@, "held"@)], seq![site_at("halo"@, "brightness"@)]),
        ChannelModel { primary_visual: true, ..channel_at("visual.out"@, "Color"@, Some("visual product #5:0"@), seq![site_at("plasma_1"@, "publish"@)], seq![site_at("halo"@, "input"@)]) },
    ]
}

/// The root scope's wiring.
pub fn root_wiring() -> (r: UiBusView)
    ensures
        r@ == root_bus(),
{
    let mut visual: UiBusChannelView = channel(
        "visual.out",
        "Color",
        Some("visual product #5:0"),
        one_site(site("plasma_1", "publish")),
        one_site(site("halo", "input")),
    );
    visual.primary_visual = true;
    let channels: Vec<UiBusChannelView> = vec![
        channel(
            "time",
            "Instant",
            Some("12.44"),
            one_site(site("clock", "seconds")),
            two_sites(site("plasma_1", "time"), site("plasma_2", "time")),
        ),
        channel(
            "speed",
            "Float",
            Some("0.62"),
            one_site(site("Master speed", "value")),
            one_site(site("plasma_2", "speed")),
        ),
        channel(
            "hue",
            "Float",
            Some("0.41"),
            one_site(site("hue lfo", "out")),
            one_site(site("plasma_1", "hue")),
        ),
        channel(
            "brightness",
            "Float",
            Some("96"),
            one_site(site("panel", "held")),
            one_site(site("halo", "brightness")),
        ),
        visual,
    ];
    let r = UiBusView { channels };
    assert(r@ =~= root_bus());
    r
}

/// A tracked product of a module.
pub open spec fn hero(
    kind: UiProductKind,
    detail: Seq<char>,
    frame: Option<(u32, u32)>,
) -> ProductModel {
    ProductModel { kind, name: "output"@, detail: Some(detail), tracking: true, frame }
}

fn hero_product(kind: UiProductKind, detail: &str, frame: Option<(u32, u32)>) -> (r:
    UiProducedProduct)
    ensures
        r@ == hero(kind, detail@, frame),
{
    UiProducedProduct {
        kind,
        name: "output".to_string(),
        detail: Some(detail.to_string()),
        tracking: true,
        frame,
    }
}

/// A plasma module's face around a panel. It has no auto-save switch: panel
/// state is kept by the project, so only the root offers one.
pub open spec fn plasma_face_of(panel: GroupModel) -> FaceModel {
    FaceModel {
        preview: Some(hero(UiProductKind::Visual, "mirrors visual.out"@, Some((16, 5)))),
        hero_choice: None,
        panel,
        wiring: Some(plasma_bus()),
        wiring_open: false,
        provenance: Some("PhotomancerArt \u{00b7} v1.2 \u{00b7} CC0-1.0"@),
        auto_save: None,
    }
}

/// A plasma module's face around a panel.
pub fn plasma_face(panel: UiPanelGroup) -> (r: UiModuleFace)
    ensures
        r@ == plasma_face_of(panel@),
{
    UiModuleFace {
        preview: Some(hero_product(UiProductKind::Visual, "mirrors visual.out", Some((16, 5)))),
        hero_choice: None,
        panel,
        wiring: Some(plasma_wiring()),
        wiring_open: false,
        provenance: Some("PhotomancerArt \u{00b7} v1.2 \u{00b7} CC0-1.0".to_string()),
        auto_save: None,
    }
}

/// The root module's face, with nothing held.
pub open spec fn root_face_model() -> FaceModel {
    FaceModel {
        preview: Some(
            hero(
                UiProductKind::Visual,
                "256 x 256 \u{00b7} mirrors visual.out"@,
                Some((16, 7)),
            ),
        ),
        hero_choice: None,
        panel: root_group(),
        wiring: Some(root_bus()),
        wiring_open: false,
        provenance: Some("Yona \u{00b7} v0.4 \u{00b7} created 2026-07-31"@),
        auto_save: Some(true),
    }
}

/// The root module's face, with nothing held.
pub fn root_face() -> (r: UiModuleFace)
    ensures
        r@ == root_face_model(),
{
    UiModuleFace {
        preview: Some(
            hero_product(
                UiProductKind::Visual,
                "256 x 256 \u{00b7} mirrors visual.out",
                Some((16, 7)),
            ),
        ),
        hero_choice: None,
        panel: root_panel(),
        wiring: Some(root_wiring()),
        wiring_open: false,
        provenance: Some("Yona \u{00b7} v0.4 \u{00b7} created 2026-07-31".to_string()),
        auto_save: Some(true),
    }
}

/// The brightness fader the root panel and the fixture share.
pub open spec fn brightness_at_default() -> ControlModel {
    fader_at(ROOT_SCOPE@, "brightness"@, "brightness"@, BRIGHT, FULL).at_default("authored 200"@)
}

fn one_control_group(label: &str, control: UiPanelControlView) -> (r: UiPanelGroup)
    ensures
        r@ == group_at(label@, ROOT_SCOPE@, seq![control@], Seq::empty()),
{
    let mut controls: Vec<UiPanelControlView> = Vec::new();
    controls.push(control);
    let r = UiPanelGroup::new(label, ROOT_SCOPE).with_target(
        scope_target(ROOT_SCOPE),
    ).with_controls(controls);
    proof {
        assert(r@.controls =~= seq![control@]);
        assert(r@.groups =~= Seq::<GroupModel>::empty());
    }
    r
}

/// The face of a module whose scope has lamps and no visual.
pub open spec fn control_face_model() -> FaceModel {
    FaceModel {
        preview: Some(
            hero(
                UiProductKind::Control,
                "16 RGB lamps \u{00b7} mirrors control.out"@,
                None,
            ),
        ),
        hero_choice: None,
        panel: group_at(
            "Scanner Rig"@,
            ROOT_SCOPE@,
            seq![brightness_at_default()],
            Seq::empty(),
        ),
        wiring: Some(control_bus()),
        wiring_open: false,
        provenance: None,
        auto_save: Some(true),
    }
}

/// The face of a module whose scope has lamps and no visual: the lamps are its
/// hero.
pub fn control_root_face() -> (r: UiModuleFace)
    ensures
        r@ == control_face_model(),
{
    UiModuleFace {
        preview: Some(
            hero_product(
                UiProductKind::Control,
                "16 RGB lamps \u{00b7} mirrors control.out",
                None,
            ),
        ),
        hero_choice: None,
        panel: one_control_group(
            "Scanner Rig",
            at_default(
                fader(ROOT_SCOPE, "brightness", "brightness", BRIGHT, FULL),
                "authored 200",
            ),
        ),
        wiring: Some(control_wiring()),
        wiring_open: false,
        provenance: None,
        auto_save: Some(true),
    }
}

/// A running child with the given face and the given children of its own.
pub open spec fn child_at(
    name: Seq<char>,
    kind: Seq<char>,
    detail: Seq<char>,
    summary: Seq<char>,
    face: Option<NodeFaceModel>,
    children: Seq<ChildModel>,
) -> ChildModel {
    ChildModel {
        label: name,
        kind,
        detail,
        summary: Some(summary),
        status: Some("Running"@),
        sections: Seq::empty(),
        face,
        children,
    }
}

/// A child without a face of its own.
pub fn plain_child(name: &str, kind: &str, detail: &str, summary: &str) -> (r: UiNodeChild)
    ensures
        r@ == child_at(name@, kind@, detail@, summary@, None, Seq::empty()),
        r.face is None,
        r.children@.len() == 0,
{
    let r = UiNodeChild {
        label: name.to_string(),
        kind: kind.to_string(),
        detail: detail.to_string(),
        summary: Some(summary.to_string()),
        status: Some("Running".to_string()),
        sections: Vec::new(),
        face: None,
        children: Vec::new(),
    };
    proof {
        assert(r@.sections =~= Seq::<SectionModel>::empty());
        assert(r@.children =~= Seq::<ChildModel>::empty());
    }
    r
}

/// A leaf whose face is its bound controls.
pub fn controls_child(
    name: &str,
    kind: &str,
    detail: &str,
    summary: &str,
    controls: UiPanelGroup,
) -> (r: UiNodeChild)
    ensures
        r@ == child_at(
            name@,
            kind@,
            detail@,
            summary@,
            Some(NodeFaceModel::Controls(controls@)),
            Seq::empty(),
        ),
{
    let mut child: UiNodeChild = plain_child(name, kind, detail, summary);
    child.face = Some(UiNodeFace::Controls(controls));
    proof {
        assert(child@.children =~= Seq::<ChildModel>::empty());
    }
    child
}

/// A child that is a module, with its own children below it.
pub fn module_child(
    name: &str,
    scope: &str,
    summary: &str,
    face: UiModuleFace,
    children: Vec<UiNodeChild>,
) -> (r: UiNodeChild)
    ensures
        r@ == child_at(
            name@,
            "Module"@,
            scope@,
            summary@,
            Some(NodeFaceModel::Module(face@)),
            child_models(children@),
        ),
{
    let mut child: UiNodeChild = plain_child(name, "Module", scope, summary);
    child.face = Some(UiNodeFace::Module(face));
    child.children = children;
    proof {
        assert(child@.children =~= child_models(children@));
    }
    child
}

/// The visual a shader makes, as its own card shows it.
pub open spec fn shader_output() -> ProductModel {
    ProductModel {
        kind: UiProductKind::Visual,
        name: "output"@,
        detail: None,
        tracking: true,
        frame: Some((16, 5)),
    }
}

/// The one child of a plasma module: its shader, with what it makes.
pub open spec fn plasma_child_list() -> Seq<ChildModel> {
    seq![
        ChildModel {
            sections: seq![SectionModel::ProducedProducts(seq![shader_output()])],
            ..child_at(
                "sim"@,
                "Shader"@,
                "shader.json"@,
                "visual \u{2192} bus:visual.out"@,
                None,
                Seq::empty(),
            )
        },
    ]
}

/// The one child of a plasma module: its shader, with what it makes.
pub fn plasma_children() -> (r: Vec<UiNodeChild>)
    ensures
        child_models(r@) == plasma_child_list(),
{
    let product: UiProducedProduct = UiProducedProduct {
        kind: UiProductKind::Visual,
        name: "output".to_string(),
        detail: None,
        tracking: true,
        frame: Some((16, 5)),
    };
    let products: Vec<UiProducedProduct> = vec![product];
    assert(product_models(products@) =~= seq![shader_output()]);
    let mut sim: UiNodeChild = plain_child(
        "sim",
        "Shader",
        "shader.json",
        "visual \u{2192} bus:visual.out",
    );
    sim.sections = vec![UiNodeSection::ProducedProducts(products)];
    proof {
        assert(sim@.sections =~= plasma_child_list()[0].sections);
        assert(sim@.children =~= Seq::<ChildModel>::empty());
    }
    let children: Vec<UiNodeChild> = vec![sim];
    assert(child_models(children@) =~= plasma_child_list());
    children
}

/// A plasma instance's card.
pub open spec fn plasma_card(name: Seq<char>, scope: Seq<char>) -> ChildModel {
    child_at(
        name,
        "Module"@,
        scope,
        "effect"@,
        Some(NodeFaceModel::Module(plasma_face_of(plasma_read_group(scope)))),
        plasma_child_list(),
    )
}

/// The root module's children: every one has its card, below the root's.
pub open spec fn root_child_list() -> Seq<ChildModel> {
    seq![
        child_at(
            "clock"@,
            "Clock"@,
            "clock.json"@,
            "seconds \u{2192} bus:time"@,
            None,
            Seq::empty(),
        ),
        child_at(
            "Master speed"@,
            "Button"@,
            "button.json"@,
            "value \u{2192} bus:speed"@,
            Some(
                NodeFaceModel::Controls(
                    group_at(
                        "Master speed"@,
                        ROOT_SCOPE@,
                        seq![
                            knob_at(
                                ROOT_SCOPE@,
                                "speed"@,
                                "value"@,
                                SPEED_LIVE,
                                ZERO,
                                ONE,
                                None,
                            ).following("0.62"@, "this node writes it"@),
                        ],
                        Seq::empty(),
                    ),
                ),
            ),
            Seq::empty(),
        ),
        plasma_card("plasma_1"@, PLASMA_1_SCOPE@),
        plasma_card("plasma_2"@, PLASMA_2_SCOPE@),
        child_at(
            "halo"@,
            "Fixture"@,
            "fixture.json"@,
            "241 LEDs \u{00b7} input \u{2190} bus:visual.out"@,
            Some(
                NodeFaceModel::Controls(
                    group_at(
                        "halo"@,
                        ROOT_SCOPE@,
                        seq![brightness_at_default()],
                        Seq::empty(),
                    ),
                ),
            ),
            Seq::empty(),
        ),
    ]
}

/// The root module's children.
pub fn root_children() -> (r: Vec<UiNodeChild>)
    ensures
        child_models(r@) == root_child_list(),
{
    let mut children: Vec<UiNodeChild> = Vec::new();
    children.push(plain_child("clock", "Clock", "clock.json", "seconds \u{2192} bus:time"));
    children.push(
        controls_child(
            "Master speed",
            "Button",
            "button.json",
            "value \u{2192} bus:speed",
            one_control_group(
                "Master speed",
                following(
                    knob(ROOT_SCOPE, "speed", "value", SPEED_LIVE, ZERO, ONE, None),
                    "0.62",
                    "this node writes it",
                ),
            ),
        ),
    );
    children.push(
        module_child(
            "plasma_1",
            PLASMA_1_SCOPE,
            "effect",
            plasma_face(plasma_read_panel(PLASMA_1_SCOPE)),
            plasma_children(),
        ),
    );
    children.push(
        module_child(
            "plasma_2",
            PLASMA_2_SCOPE,
            "effect",
            plasma_face(plasma_read_panel(PLASMA_2_SCOPE)),
            plasma_children(),
        ),
    );
    children.push(
        controls_child(
            "halo",
            "Fixture",
            "fixture.json",
            "241 LEDs \u{00b7} input \u{2190} bus:visual.out",
            one_control_group(
                "halo",
                at_default(
                    fader(ROOT_SCOPE, "brightness", "brightness", BRIGHT, FULL),
                    "authored 200",
                ),
            ),
        ),
    );
    proof {
        assert(child_models(children@) =~= root_child_list());
    }
    children
}

/// A running module's card.
pub open spec fn module_card(
    name: Seq<char>,
    path: Seq<char>,
    summary: Seq<char>,
    face: FaceModel,
    children: Seq<ChildModel>,
) -> NodeModel {
    NodeModel {
        header: HeaderModel {
            name,
            kind: "Module"@,
            path,
            source: Some("module.json"@),
            status: Some("Running"@),
            summary: Some(summary),
        },
        node_id: Some(path),
        face: Some(NodeFaceModel::Module(face)),
        children,
    }
}

/// A running module's card, with nothing below it.
pub fn module_node_view(name: &str, path: &str, summary: &str, face: UiModuleFace) -> (r:
    UiNodeView)
    ensures
        r@ == module_card(name@, path@, summary@, face@, Seq::empty()),
{
    let r = UiNodeView {
        header: UiNodeHeader {
            name: name.to_string(),
            kind: "Module".to_string(),
            path: path.to_string(),
            source: Some("module.json".to_string()),
            status: Some("Running".to_string()),
            summary: Some(summary.to_string()),
        },
        node_id: Some(path.to_string()),
        face: Some(UiNodeFace::Module(face)),
        children: Vec::new(),
    };
    proof {
        assert(r@.children =~= Seq::<ChildModel>::empty());
    }
    r
}

/// The root module's card with its children below it, nothing held.
pub open spec fn root_card() -> NodeModel {
    module_card(
        "Aurora Sign"@,
        ROOT_SCOPE@,
        "5 nodes \u{00b7} 2 effects"@,
        root_face_model(),
        root_child_list(),
    )
}

/// The root module's card with its children below it, nothing held.
pub fn root_module_node_view() -> (r: UiNodeView)
    ensures
        r@ == root_card(),
{
    module_node_view(
        "Aurora Sign",
        ROOT_SCOPE,
        "5 nodes \u{00b7} 2 effects",
        root_face(),
    ).with_children(root_children())
}

/// The two controls that start out held: the root's brightness, dimmed, and the
/// first plasma instance's speed, turned away from the host's.
pub fn held_controls() -> (r: Vec<HeldControl>)
    ensures
        r@.len() == 2,
        r@[0].scope@ == ROOT_SCOPE@,
        r@[0].channel@ == "brightness"@,
        r@[0].value == DIM,
        r@[1].scope@ == PLASMA_1_SCOPE@,
        r@[1].channel@ == "speed"@,
        r@[1].value == SPEED_HELD,
{
    let mut held: Vec<HeldControl> = Vec::new();
    held.push(
        HeldControl {
            scope: ROOT_SCOPE.to_string(),
            channel: "brightness".to_string(),
            value: DIM,
        },
    );
    held.push(
        HeldControl {
            scope: PLASMA_1_SCOPE.to_string(),
            channel: "speed".to_string(),
            value: SPEED_HELD,
        },
    );
    held
}

/// The root module's card with the two controls held.
pub open spec fn held_card() -> NodeModel {
    map_node(
        map_node(
            root_card(),
            (EditModel::Hold {
                scope: ROOT_SCOPE@,
                channel: "brightness"@,
                level: DIM,
            }).as_map(),
        ),
        (EditModel::Hold {
            scope: PLASMA_1_SCOPE@,
            channel: "speed"@,
            level: SPEED_HELD,
        }).as_map(),
    )
}

/// The example at play: the root module's card with the two controls held, and
/// the untouched card to go back to.
pub fn held_walk() -> (r: PanelWalk)
    ensures
        r.view@ == held_card(),
        r.baseline@ == root_card(),
        r.well_formed(),
        r.view@.face matches Some(NodeFaceModel::Module(_)),
{
    let held: Vec<HeldControl> = held_controls();
    let walk: PanelWalk = PanelWalk::new(root_module_node_view()).with_held(&held);
    proof {
        reveal_with_fuel(with_all_held, 3);
        assert(held@.drop_last().last() == held@[0]);
        assert(held@.drop_last().drop_last().len() == 0);
    }
    walk
}

/// The root module's card with the two controls held.
pub fn held_root_view() -> (r: UiNodeView)
    ensures
        r@ == held_card(),
{
    held_walk().view
}

/// The root module's face with the two controls held.
pub fn held_root_face() -> (r: UiModuleFace)
    ensures
        held_card().face == Some(NodeFaceModel::Module(r@)),
{
    held_walk().face()
}

/// Every control of the list lies under the root scope, is not held, and writes
/// to the address that its scope and its channel make.
pub open spec fn at_rest(controls: Seq<Placed>) -> bool {
    forall|i: int|
        0 <= i < controls.len() ==> has_prefix((#[trigger] controls[i]).0, ROOT_SCOPE@)
            && !controls[i].1.engaged() && controls[i].1.address == Some(
            walk_slot(controls[i].0, controls[i].1.channel),
        )
}

proof fn at_rest_together(a: Seq<Placed>, b: Seq<Placed>)
    requires
        at_rest(a),
        at_rest(b),
    ensures
        at_rest(a + b),
{
}

proof fn leaf_group_at_rest(g: GroupModel)
    requires
        g.groups.len() == 0,
        at_rest(own_controls(g)),
    ensures
        at_rest(group_controls(g)),
{
    assert(groups_controls(g.groups) =~= Seq::<Placed>::empty());
    assert(group_controls(g) =~= own_controls(g));
}

proof fn scopes_lie_under_the_root()
    ensures
        has_prefix(ROOT_SCOPE@, ROOT_SCOPE@),
        has_prefix(PLASMA_1_SCOPE@, ROOT_SCOPE@),
        has_prefix(PLASMA_2_SCOPE@, ROOT_SCOPE@),
{
    reveal_strlit("/aurora.module");
    reveal_strlit("/aurora.module/plasma_1.module");
    reveal_strlit("/aurora.module/plasma_2.module");
    assert(ROOT_SCOPE@.take(14) =~= ROOT_SCOPE@);
    assert(PLASMA_1_SCOPE@.take(14) =~= ROOT_SCOPE@);
    assert(PLASMA_2_SCOPE@.take(14) =~= ROOT_SCOPE@);
}

proof fn plasma_panel_at_rest(scope: Seq<char>)
    requires
        has_prefix(scope, ROOT_SCOPE@),
    ensures
        at_rest(group_controls(plasma_read_group(scope))),
{
    leaf_group_at_rest(plasma_read_group(scope));
}

proof fn plasma_card_at_rest(name: Seq<char>, scope: Seq<char>)
    requires
        has_prefix(scope, ROOT_SCOPE@),
    ensures
        at_rest(child_controls(plasma_card(name, scope))),
{
    let card = plasma_card(name, scope);
    plasma_panel_at_rest(scope);
    let below = card.children;
    assert(below.len() == 1);
    let none = Seq::<ChildModel>::empty();
    assert(below.drop_last() =~= none);
    assert(children_controls(none) =~= Seq::<Placed>::empty());
    assert(child_controls(below.last()) =~= Seq::<Placed>::empty());
    assert(children_controls(below) =~= Seq::<Placed>::empty());
    at_rest_together(face_controls(card.face), children_controls(below));
}

/// The example's card starts out with nothing held, and all of it lies under the
/// root scope.
pub proof fn the_example_starts_at_rest()
    ensures
        at_rest(node_controls(root_card())),
{
    scopes_lie_under_the_root();
    // The root's own panel.
    let panel = root_group();
    plasma_panel_at_rest(PLASMA_1_SCOPE@);
    plasma_panel_at_rest(PLASMA_2_SCOPE@);
    let groups = panel.groups;
    assert(groups.drop_last() =~= seq![plasma_read_group(PLASMA_1_SCOPE@)]);
    let one = groups.drop_last();
    assert(one.drop_last() =~= Seq::<GroupModel>::empty());
    assert(groups_controls(one.drop_last()) =~= Seq::<Placed>::empty());
    assert(groups_controls(one) =~= group_controls(one.last()));
    at_rest_together(groups_controls(one), group_controls(groups.last()));
    assert(own_controls(panel).len() == 5);
    assert(at_rest(own_controls(panel)));
    at_rest_together(own_controls(panel), groups_controls(groups));
    // The cards below.
    let below = root_child_list();
    let no_child = Seq::<ChildModel>::empty();
    assert(children_controls(no_child) =~= Seq::<Placed>::empty());
    assert forall|k: int| 0 <= k < 5 implies at_rest(
        child_controls(#[trigger] below[k]),
    ) by {
        if k == 0 {
            assert(child_controls(below[0]) =~= Seq::<Placed>::empty());
        } else if k == 1 || k == 4 {
            let g = below[k].face->Some_0->Controls_0;
            leaf_group_at_rest(g);
            at_rest_together(group_controls(g), children_controls(no_child));
        } else if k == 2 {
            plasma_card_at_rest("plasma_1"@, PLASMA_1_SCOPE@);
        } else {
            plasma_card_at_rest("plasma_2"@, PLASMA_2_SCOPE@);
        }
    }
    children_at_rest(below);
    at_rest_together(face_controls(root_card().face), children_controls(below));
}

proof fn children_at_rest(children: Seq<ChildModel>)
    requires
        forall|k: int|
            0 <= k < children.len() ==> at_rest(child_controls(#[trigger] children[k])),
    ensures
        at_rest(children_controls(children)),
    decreases children.len(),
{
    if children.len() > 0 {
        let rest = children.drop_last();
        assert forall|k: int| 0 <= k < rest.len() implies at_rest(
            child_controls(#[trigger] rest[k]),
        ) by {
            assert(rest[k] == children[k]);
        }
        children_at_rest(rest);
        assert(at_rest(child_controls(children[children.len() - 1])));
        at_rest_together(children_controls(rest), child_controls(children.last()));
    }
}

/// However the example was played with, clearing its root scope returns to the
/// untouched card, the fixture's and the control's cards below it too. Only the
/// auto-save switch stays where it was put.
pub proof fn resetting_the_example_returns_to_it(walk: PanelWalk)
    requires
        walk.well_formed(),
        walk.baseline@ == root_card(),
    ensures
        ({
            let after = cleared(
                walk.view@,
                walk.baseline@,
                ClearModel::Scope { scope: ROOT_SCOPE@ },
            );
            &&& with_auto_save(after, false) == with_auto_save(root_card(), false)
            &&& same_frame(walk.view@, root_card()) ==> after == root_card()
        }),
{
    the_example_starts_at_rest();
    clearing_everything_returns_to_the_untouched_card(walk, ROOT_SCOPE@);
}

proof fn holds_keep_the_frame(node: NodeModel, controls: Seq<HeldControl>)
    ensures
        same_frame(with_all_held(node, controls), node),
    decreases controls.len(),
{
    if controls.len() > 0 {
        let last = controls.last();
        holds_keep_the_frame(node, controls.drop_last());
        edits_keep_the_frame(
            with_all_held(node, controls.drop_last()),
            EditModel::Hold { scope: last.scope@, channel: last.channel@, level: last.value },
        );
    }
}

/// Whichever controls of the example start out held, clearing its root scope
/// lands on exactly the untouched card.
pub proof fn what_starts_out_held_lets_go_to_the_example(controls: Seq<HeldControl>)
    ensures
        cleared(
            with_all_held(root_card(), controls),
            root_card(),
            ClearModel::Scope { scope: ROOT_SCOPE@ },
        ) == root_card(),
{
    the_example_starts_at_rest();
    holds_keep_the_frame(root_card(), controls);
    clearing_everything_gives_back_the_card(
        with_all_held(root_card(), controls),
        root_card(),
        ROOT_SCOPE@,
    );
}

proof fn holds_keep_the_addresses(controls: Seq<HeldControl>)
    ensures
        ({
            let all = node_controls(with_all_held(root_card(), controls));
            forall|i: int|
                0 <= i < all.len() ==> (#[trigger] all[i]).1.address == Some(
                    walk_slot(all[i].0, all[i].1.channel),
                )
        }),
    decreases controls.len(),
{
    if controls.len() == 0 {
        the_example_starts_at_rest();
    } else {
        let last = controls.last();
        let before = with_all_held(root_card(), controls.drop_last());
        let f = (EditModel::Hold {
            scope: last.scope@,
            channel: last.channel@,
            level: last.value,
        }).as_map();
        holds_keep_the_addresses(controls.drop_last());
        node_controls_of_map(before, f);
        let was = node_controls(before);
        let all = node_controls(with_all_held(root_card(), controls));
        assert forall|i: int| 0 <= i < all.len() implies (#[trigger] all[i]).1.address == Some(
            walk_slot(all[i].0, all[i].1.channel),
        ) by {
            assert(was[i].1.address == Some(walk_slot(was[i].0, was[i].1.channel)));
        }
    }
}

/// A control of the example that starts out held is held exactly as if its widget
/// had been turned, whatever else is held already.
pub proof fn holding_in_the_example_is_touching(
    controls: Seq<HeldControl>,
    scope: Seq<char>,
    channel: Seq<char>,
    level: u32,
)
    ensures
        map_node(
            with_all_held(root_card(), controls),
            (EditModel::Hold { scope, channel, level }).as_map(),
        ) == map_node(
            with_all_held(root_card(), controls),
            (EditModel::Touch {
                address: walk_slot(scope, channel),
                value: LpValueView::F32(level),
            }).as_map(),
        ),
{
    let node = with_all_held(root_card(), controls);
    let all = node_controls(node);
    holds_keep_the_addresses(controls);
    assert forall|i: int| 0 <= i < all.len() implies ((#[trigger] all[i]).0 == scope
        && all[i].1.channel == channel) == (all[i].1.address == Some(walk_slot(scope, channel))) by {
        let own = walk_slot(all[i].0, all[i].1.channel);
        let wanted = walk_slot(scope, channel);
        assert(own.node == all[i].0 && own.path == all[i].1.channel);
        assert(wanted.node == scope && wanted.path == channel);
    }
    holding_is_touching(node, scope, channel, level, walk_slot(scope, channel));
}

} // verus!
