//! The aurora example: a root module with two plasma instances in it, a control
//! that drives both, a fixture that shares the root's brightness, and a playlist
//! of two entries that bind one channel differently.

use vstd::prelude::*;
use vstd::string::*;

use crate::module_scopes::{
    scope_target, target_of, DRIFT_SCOPE, PLASMA_1_SCOPE, PLASMA_2_SCOPE, ROOT_SCOPE, WHIRL_SCOPE,
};
use crate::panel::{
    control_models, group_models, ControlModel, GroupModel, SlotValueModel, TargetModel,
    UiPanelControl, UiPanelControlState, UiPanelControlView, UiPanelEmit, UiPanelGroup,
    UiPanelTarget, UiPanelWidget, UiSlotValue, WireScopeRef,
};
use crate::panel_tree::map_group;
use crate::panel_walk::{visit_group_controls, ControlEdit, EditModel};
use crate::slot::{ProjectSlotAddress, SlotAddressView};
use crate::text::{
    find_last_segment, find_segment_end, last_segment, segment_end, space_out, spaced,
};

verus! {

/// The address a control of the example writes to.
pub open spec fn walk_slot(node: Seq<char>, slot: Seq<char>) -> SlotAddressView {
    SlotAddressView { node, root: "def"@, path: slot }
}

/// The address a control of the example writes to.
pub fn walk_address(node: &str, slot: &str) -> (r: ProjectSlotAddress)
    ensures
        r@ == walk_slot(node@, slot@),
{
    ProjectSlotAddress::new(node, "def", slot)
}

/// A control at rest, in a scope with a given target.
pub open spec fn resting_in(
    scope: Seq<char>,
    target: WireScopeRef,
    channel: Seq<char>,
    label: Seq<char>,
    emit: UiPanelEmit,
    widget: UiPanelWidget,
    value: SlotValueModel,
) -> ControlModel {
    ControlModel {
        channel,
        emit,
        label,
        address: Some(walk_slot(scope, channel)),
        widget,
        value,
        live_value: None,
        panel_target: Some(TargetModel { scope: target, channel, engaged: false }),
        state: UiPanelControlState::ReadDefault,
        source: None,
    }
}

/// A control at rest, in a scope with a given target.
pub fn control_in(
    scope: &str,
    target: WireScopeRef,
    channel: &str,
    label: &str,
    emit: UiPanelEmit,
    widget: UiPanelWidget,
    value: UiSlotValue,
) -> (r: UiPanelControlView)
    ensures
        r@ == resting_in(scope@, target, channel@, label@, emit, widget, value@),
{
    UiPanelControlView::new(
        channel,
        UiPanelControl {
            emit,
            label: label.to_string(),
            address: Some(walk_address(scope, channel)),
            widget,
            value,
            live_value: None,
            panel_target: Some(
                UiPanelTarget { scope: target, channel: channel.to_string(), engaged: false },
            ),
        },
    )
}

/// A control of the example, at rest.
pub open spec fn resting(
    scope: Seq<char>,
    channel: Seq<char>,
    label: Seq<char>,
    emit: UiPanelEmit,
    widget: UiPanelWidget,
    value: SlotValueModel,
) -> ControlModel {
    resting_in(scope, target_of(scope)->0, channel, label, emit, widget, value)
}

fn control(
    scope: &str,
    channel: &str,
    label: &str,
    emit: UiPanelEmit,
    widget: UiPanelWidget,
    value: UiSlotValue,
) -> (r: UiPanelControlView)
    requires
        target_of(scope@) is Some,
    ensures
        r@ == resting(scope@, channel@, label@, emit, widget, value@),
{
    control_in(scope, scope_target(scope), channel, label, emit, widget, value)
}

/// One knob.
pub open spec fn knob_at(
    scope: Seq<char>,
    channel: Seq<char>,
    label: Seq<char>,
    value: u32,
    min: u32,
    max: u32,
    step: Option<u32>,
) -> ControlModel {
    resting(
        scope,
        channel,
        label,
        UiPanelEmit::Value,
        UiPanelWidget::Knob { min, max, step },
        SlotValueModel::F32(value),
    )
}

/// One knob. Numbers are bit patterns.
pub fn knob(
    scope: &str,
    channel: &str,
    label: &str,
    value: u32,
    min: u32,
    max: u32,
    step: Option<u32>,
) -> (r: UiPanelControlView)
    requires
        target_of(scope@) is Some,
    ensures
        r@ == knob_at(scope@, channel@, label@, value, min, max, step),
{
    control(
        scope,
        channel,
        label,
        UiPanelEmit::Value,
        UiPanelWidget::Knob { min, max, step },
        UiSlotValue::F32(value),
    )
}

/// The bits of zero, of one, and of the other numbers of the example.
pub const ZERO: u32 = 0;

pub const ONE: u32 = 0x3f800000;

pub const TWO: u32 = 0x40000000;

pub const FOUR: u32 = 0x40800000;

pub const TEN: u32 = 0x41200000;

/// 0.32
pub const HUE_REST: u32 = 0x3ea3d70a;

/// 0.35
pub const DRIFT_HELD: u32 = 0x3eb33333;

/// 0.41
pub const HUE_LIVE: u32 = 0x3ed1eb85;

/// 0.5
pub const DRIFT_REST: u32 = 0x3f000000;

/// 0.62
pub const SPEED_LIVE: u32 = 0x3f1eb852;

/// 0.82
pub const SPEED_HELD: u32 = 0x3f51eb85;

/// 6.5
pub const WHIRL_REST: u32 = 0x40d00000;

/// 96
pub const DIM: u32 = 0x42c00000;

/// 180
pub const MASTER_LIVE: u32 = 0x43340000;

/// 200
pub const BRIGHT: u32 = 0x43480000;

/// 255
pub const FULL: u32 = 0x437f0000;

/// One fader, from zero in whole steps.
pub open spec fn fader_at(
    scope: Seq<char>,
    channel: Seq<char>,
    label: Seq<char>,
    value: u32,
    max: u32,
) -> ControlModel {
    resting(
        scope,
        channel,
        label,
        UiPanelEmit::Value,
        UiPanelWidget::Fader { min: ZERO, max, step: Some(ONE) },
        SlotValueModel::F32(value),
    )
}

/// One fader, from zero in whole steps. Numbers are bit patterns.
pub fn fader(scope: &str, channel: &str, label: &str, value: u32, max: u32) -> (r:
    UiPanelControlView)
    requires
        target_of(scope@) is Some,
    ensures
        r@ == fader_at(scope@, channel@, label@, value, max),
{
    control(
        scope,
        channel,
        label,
        UiPanelEmit::Value,
        UiPanelWidget::Fader { min: ZERO, max, step: Some(ONE) },
        UiSlotValue::F32(value),
    )
}

/// One toggle.
pub open spec fn toggle_at(
    scope: Seq<char>,
    channel: Seq<char>,
    label: Seq<char>,
    value: bool,
) -> ControlModel {
    resting(
        scope,
        channel,
        label,
        UiPanelEmit::Value,
        UiPanelWidget::Toggle,
        SlotValueModel::Bool(value),
    )
}

/// One toggle.
pub fn toggle(scope: &str, channel: &str, label: &str, value: bool) -> (r: UiPanelControlView)
    requires
        target_of(scope@) is Some,
    ensures
        r@ == toggle_at(scope@, channel@, label@, value),
{
    control(
        scope,
        channel,
        label,
        UiPanelEmit::Value,
        UiPanelWidget::Toggle,
        UiSlotValue::Bool(value),
    )
}

/// One palette swatch.
pub open spec fn swatch_at(
    scope: Seq<char>,
    channel: Seq<char>,
    label: Seq<char>,
    gradient: SlotValueModel,
) -> ControlModel {
    resting(
        scope,
        channel,
        label,
        UiPanelEmit::Gradient,
        UiPanelWidget::PaletteSwatch,
        gradient,
    )
}

/// One palette swatch that shows a whole gradient.
pub fn swatch(scope: &str, channel: &str, label: &str, gradient: &UiSlotValue) -> (r:
    UiPanelControlView)
    requires
        target_of(scope@) is Some,
    ensures
        r@ == swatch_at(scope@, channel@, label@, gradient@),
{
    control(
        scope,
        channel,
        label,
        UiPanelEmit::Gradient,
        UiPanelWidget::PaletteSwatch,
        gradient.clone(),
    )
}

impl ControlModel {
    /// The control while it follows `source` and shows `live`.
    pub open spec fn following(self, live: Seq<char>, source: Seq<char>) -> ControlModel {
        ControlModel {
            live_value: Some(live),
            state: UiPanelControlState::ReadFollowing,
            source: Some(source),
            ..self
        }
    }

    /// The control while it is held, and what it displaced.
    pub open spec fn holding(self, displaced: Seq<char>) -> ControlModel {
        ControlModel { state: UiPanelControlState::Engaged, source: Some(displaced), ..self }
    }

    /// The control at its default, and where that comes from.
    pub open spec fn at_default(self, source: Seq<char>) -> ControlModel {
        ControlModel { state: UiPanelControlState::ReadDefault, source: Some(source), ..self }
    }
}

/// Lets a control follow `source` and show `live`.
pub fn following(view: UiPanelControlView, live: &str, source: &str) -> (r: UiPanelControlView)
    ensures
        r@ == view@.following(live@, source@),
{
    let mut view = view;
    view.control.live_value = Some(live.to_string());
    view.with_state(UiPanelControlState::ReadFollowing, Some(source))
}

/// Marks a control as held, and what it displaced.
pub fn engaged(view: UiPanelControlView, displaced: &str) -> (r: UiPanelControlView)
    ensures
        r@ == view@.holding(displaced@),
{
    view.with_state(UiPanelControlState::Engaged, Some(displaced))
}

/// Puts a control at its default, and says where that comes from.
pub fn at_default(view: UiPanelControlView, source: &str) -> (r: UiPanelControlView)
    ensures
        r@ == view@.at_default(source@),
{
    view.with_state(UiPanelControlState::ReadDefault, Some(source))
}

/// The name of an instance: its path's last part, up to the kind, with spaces.
pub open spec fn instance_name(scope: Seq<char>) -> Seq<char> {
    let leaf = last_segment(scope, '/');
    spaced(leaf.take(segment_end(leaf, '.', 0)), '_')
}

/// The name of an instance, which tells two copies of one effect apart:
/// `plasma 1` for `/aurora.module/plasma_1.module`.
pub fn instance_label(scope: &str) -> (r: String)
    ensures
        r@ == instance_name(scope@),
{
    let leaf: String = find_last_segment(scope, '/');
    let end: usize = find_segment_end(leaf.as_str(), '.', 0);
    proof {
        assert(leaf@.take(end as int) =~= leaf@.subrange(0, end as int));
    }
    space_out(leaf.as_str().substring_char(0, end), '_')
}

/// A group with a scope of the example.
pub open spec fn group_at(
    label: Seq<char>,
    scope: Seq<char>,
    controls: Seq<ControlModel>,
    groups: Seq<GroupModel>,
) -> GroupModel {
    GroupModel { label, scope, target: target_of(scope), controls, groups }
}

fn group(
    label: &str,
    scope: &str,
    controls: Vec<UiPanelControlView>,
    groups: Vec<UiPanelGroup>,
) -> (r: UiPanelGroup)
    requires
        target_of(scope@) is Some,
    ensures
        r@ == group_at(label@, scope@, control_models(controls@), group_models(groups@)),
{
    UiPanelGroup::new(label, scope).with_target(scope_target(scope)).with_controls(
        controls,
    ).with_groups(groups)
}

/// One plasma instance's panel with a given speed control.
pub open spec fn plasma_group(scope: Seq<char>, speed: ControlModel) -> GroupModel {
    group_at(
        instance_name(scope),
        scope,
        seq![
            speed,
            knob_at(scope, "hue"@, "hue"@, HUE_REST, ZERO, ONE, None).at_default(
                "authored default"@,
            ),
        ],
        Seq::empty(),
    )
}

/// One plasma instance's panel. Two instances bind the same channel names, and
/// stay apart because their scopes differ.
pub fn plasma_panel(scope: &str, speed: UiPanelControlView) -> (r: UiPanelGroup)
    requires
        target_of(scope@) is Some,
    ensures
        r@ == plasma_group(scope@, speed@),
{
    let mut controls: Vec<UiPanelControlView> = Vec::new();
    controls.push(speed);
    controls.push(
        at_default(knob(scope, "hue", "hue", HUE_REST, ZERO, ONE, None), "authored default"),
    );
    let label: String = instance_label(scope);
    let r = group(label.as_str(), scope, controls, Vec::new());
    proof {
        assert(r@.controls =~= plasma_group(scope@, speed@).controls);
        assert(r@.groups =~= Seq::<GroupModel>::empty());
    }
    r
}

/// A plasma instance's panel with nothing touched: it follows the host's speed.
pub open spec fn plasma_read_group(scope: Seq<char>) -> GroupModel {
    plasma_group(
        scope,
        knob_at(scope, "speed"@, "speed"@, SPEED_LIVE, ZERO, ONE, None).following(
            "0.62"@,
            "inherited \u{00b7} Aurora Sign"@,
        ),
    )
}

/// A plasma instance's panel with nothing touched.
pub fn plasma_read_panel(scope: &str) -> (r: UiPanelGroup)
    requires
        target_of(scope@) is Some,
    ensures
        r@ == plasma_read_group(scope@),
{
    plasma_panel(
        scope,
        following(
            knob(scope, "speed", "speed", SPEED_LIVE, ZERO, ONE, None),
            "0.62",
            "inherited \u{00b7} Aurora Sign",
        ),
    )
}

/// The group with one control held wherever it stands.
pub open spec fn with_engaged(
    group: GroupModel,
    scope: Seq<char>,
    channel: Seq<char>,
    value: u32,
) -> GroupModel {
    map_group(group, EditModel::Hold { scope, channel, level: value }.as_map())
}

/// Holds one control of a group wherever it stands in it.
pub fn engage_group(group: &mut UiPanelGroup, scope: &str, channel: &str, value: u32)
    ensures
        final(group)@ == with_engaged(old(group)@, scope@, channel@, value),
{
    let edit: ControlEdit = ControlEdit::Hold {
        scope: scope.to_string(),
        channel: channel.to_string(),
        level: value,
    };
    visit_group_controls(group, &edit);
}

/// The first plasma instance's panel with its speed turned.
pub fn plasma_one_panel() -> (r: UiPanelGroup)
    ensures
        r@ == with_engaged(
            plasma_read_group(PLASMA_1_SCOPE@),
            PLASMA_1_SCOPE@,
            "speed"@,
            SPEED_HELD,
        ),
{
    let mut panel: UiPanelGroup = plasma_read_panel(PLASMA_1_SCOPE);
    engage_group(&mut panel, PLASMA_1_SCOPE, "speed", SPEED_HELD);
    panel
}

/// The root scope's own controls, none of them held.
pub open spec fn root_control_list() -> Seq<ControlModel> {
    seq![
        fader_at(ROOT_SCOPE@, "brightness"@, "brightness"@, BRIGHT, FULL).at_default(
            "authored 200"@,
        ),
        knob_at(ROOT_SCOPE@, "speed"@, "speed"@, SPEED_LIVE, ZERO, ONE, None).following(
            "0.62"@,
            "control \u{00b7} Master speed"@,
        ),
        knob_at(ROOT_SCOPE@, "hue"@, "hue"@, HUE_LIVE, ZERO, ONE, None).following(
            "0.41"@,
            "lfo \u{00b7} hue"@,
        ),
        knob_at(ROOT_SCOPE@, "palette"@, "palette"@, TWO, ONE, FOUR, Some(ONE)).at_default(
            "authored default"@,
        ),
        toggle_at(ROOT_SCOPE@, "mirror"@, "mirror"@, false).at_default("no writer yet"@),
    ]
}

/// The root scope's own controls, none of them held.
pub fn root_controls() -> (r: Vec<UiPanelControlView>)
    ensures
        control_models(r@) == root_control_list(),
{
    let mut controls: Vec<UiPanelControlView> = Vec::new();
    controls.push(
        at_default(
            fader(ROOT_SCOPE, "brightness", "brightness", BRIGHT, FULL),
            "authored 200",
        ),
    );
    controls.push(
        following(
            knob(ROOT_SCOPE, "speed", "speed", SPEED_LIVE, ZERO, ONE, None),
            "0.62",
            "control \u{00b7} Master speed",
        ),
    );
    controls.push(
        following(
            knob(ROOT_SCOPE, "hue", "hue", HUE_LIVE, ZERO, ONE, None),
            "0.41",
            "lfo \u{00b7} hue",
        ),
    );
    controls.push(
        at_default(
            knob(ROOT_SCOPE, "palette", "palette", TWO, ONE, FOUR, Some(ONE)),
            "authored default",
        ),
    );
    controls.push(at_default(toggle(ROOT_SCOPE, "mirror", "mirror", false), "no writer yet"));
    proof {
        assert(control_models(controls@) =~= root_control_list());
    }
    controls
}

/// The root module's panel, with nothing held: its own controls, and each
/// plasma instance's as a group of its own.
pub open spec fn root_group() -> GroupModel {
    group_at(
        "Aurora Sign"@,
        ROOT_SCOPE@,
        root_control_list(),
        seq![plasma_read_group(PLASMA_1_SCOPE@), plasma_read_group(PLASMA_2_SCOPE@)],
    )
}

/// The root module's panel, with nothing held.
pub fn root_panel() -> (r: UiPanelGroup)
    ensures
        r@ == root_group(),
{
    let mut groups: Vec<UiPanelGroup> = Vec::new();
    groups.push(plasma_read_panel(PLASMA_1_SCOPE));
    groups.push(plasma_read_panel(PLASMA_2_SCOPE));
    let r = group("Aurora Sign", ROOT_SCOPE, root_controls(), groups);
    proof {
        assert(r@.groups =~= root_group().groups);
    }
    r
}

/// The three swatches of the palette panel.
pub open spec fn palette_controls(
    plain: SlotValueModel,
    cycle: SlotValueModel,
    cycle_words: Seq<char>,
) -> Seq<ControlModel> {
    seq![
        swatch_at(ROOT_SCOPE@, "palette"@, "at default"@, plain).at_default(
            "authored palette"@,
        ),
        swatch_at(ROOT_SCOPE@, "cycle"@, "following"@, cycle).following(
            cycle_words,
            "show \u{00b7} palette"@,
        ),
        swatch_at(ROOT_SCOPE@, "held"@, "engaged"@, cycle).holding("show \u{00b7} palette"@),
    ]
}

/// A panel of swatches in the three states, of a plain gradient and a cycle with
/// the words for it.
pub fn palette_panel(plain: &UiSlotValue, cycle: &UiSlotValue, cycle_words: &str) -> (r:
    UiPanelGroup)
    ensures
        r@ == group_at(
            "Palettes"@,
            ROOT_SCOPE@,
            palette_controls(plain@, cycle@, cycle_words@),
            Seq::empty(),
        ),
{
    let mut controls: Vec<UiPanelControlView> = Vec::new();
    controls.push(
        at_default(swatch(ROOT_SCOPE, "palette", "at default", plain), "authored palette"),
    );
    controls.push(
        following(
            swatch(ROOT_SCOPE, "cycle", "following", cycle),
            cycle_words,
            "show \u{00b7} palette",
        ),
    );
    controls.push(
        engaged(swatch(ROOT_SCOPE, "held", "engaged", cycle), "show \u{00b7} palette"),
    );
    let r = group("Palettes", ROOT_SCOPE, controls, Vec::new());
    proof {
        assert(r@.controls =~= palette_controls(plain@, cycle@, cycle_words@));
        assert(r@.groups =~= Seq::<GroupModel>::empty());
    }
    r
}

/// The three states side by side, on a knob, a toggle and a fader.
pub open spec fn three_state_controls() -> Seq<ControlModel> {
    seq![
        knob_at(ROOT_SCOPE@, "palette"@, "at default"@, TWO, ONE, FOUR, Some(ONE)).at_default(
            "nothing writes it"@,
        ),
        knob_at(ROOT_SCOPE@, "hue"@, "following"@, HUE_LIVE, ZERO, ONE, None).following(
            "0.41"@,
            "lfo \u{00b7} hue"@,
        ),
        knob_at(ROOT_SCOPE@, "speed"@, "engaged"@, SPEED_HELD, ZERO, ONE, None).holding(
            "lfo \u{00b7} speed"@,
        ),
        toggle_at(ROOT_SCOPE@, "mirror"@, "at default"@, false).at_default(
            "nothing writes it"@,
        ),
        toggle_at(ROOT_SCOPE@, "beat"@, "following"@, false).following(
            "true"@,
            "audio \u{00b7} beat"@,
        ),
        toggle_at(ROOT_SCOPE@, "strobe"@, "engaged"@, true).holding("audio \u{00b7} beat"@),
        fader_at(ROOT_SCOPE@, "brightness"@, "at default"@, BRIGHT, FULL).at_default(
            "nothing writes it"@,
        ),
        fader_at(ROOT_SCOPE@, "master"@, "following"@, MASTER_LIVE, FULL).following(
            "180"@,
            "dimmer \u{00b7} out"@,
        ),
        fader_at(ROOT_SCOPE@, "held"@, "engaged"@, DIM, FULL).holding("authored 200"@),
    ]
}

/// A panel of the three states side by side.
pub fn three_state_panel() -> (r: UiPanelGroup)
    ensures
        r@ == group_at("Panel states"@, ROOT_SCOPE@, three_state_controls(), Seq::empty()),
{
    let mut controls: Vec<UiPanelControlView> = Vec::new();
    controls.push(
        at_default(
            knob(ROOT_SCOPE, "palette", "at default", TWO, ONE, FOUR, Some(ONE)),
            "nothing writes it",
        ),
    );
    controls.push(
        following(
            knob(ROOT_SCOPE, "hue", "following", HUE_LIVE, ZERO, ONE, None),
            "0.41",
            "lfo \u{00b7} hue",
        ),
    );
    controls.push(
        engaged(
            knob(ROOT_SCOPE, "speed", "engaged", SPEED_HELD, ZERO, ONE, None),
            "lfo \u{00b7} speed",
        ),
    );
    controls.push(
        at_default(toggle(ROOT_SCOPE, "mirror", "at default", false), "nothing writes it"),
    );
    controls.push(
        following(
            toggle(ROOT_SCOPE, "beat", "following", false),
            "true",
            "audio \u{00b7} beat",
        ),
    );
    controls.push(engaged(toggle(ROOT_SCOPE, "strobe", "engaged", true), "audio \u{00b7} beat"));
    controls.push(
        at_default(
            fader(ROOT_SCOPE, "brightness", "at default", BRIGHT, FULL),
            "nothing writes it",
        ),
    );
    controls.push(
        following(
            fader(ROOT_SCOPE, "master", "following", MASTER_LIVE, FULL),
            "180",
            "dimmer \u{00b7} out",
        ),
    );
    controls.push(engaged(fader(ROOT_SCOPE, "held", "engaged", DIM, FULL), "authored 200"));
    let r = group("Panel states", ROOT_SCOPE, controls, Vec::new());
    proof {
        assert(r@.controls =~= three_state_controls());
        assert(r@.groups =~= Seq::<GroupModel>::empty());
    }
    r
}

/// The scope path of a playlist entry.
pub open spec fn entry_path(entry: u32) -> Seq<char> {
    if entry == 0 {
        DRIFT_SCOPE@
    } else {
        WHIRL_SCOPE@
    }
}

/// The scope path of a playlist entry: each entry has one of its own.
pub fn entry_scope(entry: u32) -> (r: String)
    ensures
        r@ == entry_path(entry),
{
    if entry == 0 {
        DRIFT_SCOPE.to_string()
    } else {
        WHIRL_SCOPE.to_string()
    }
}

/// A playlist entry's panel: both bind the channel `speed`, each with a label
/// and a range of its own.
pub open spec fn entry_group(entry: u32) -> GroupModel {
    let scope = entry_path(entry);
    let control = if entry == 0 {
        knob_at(scope, "speed"@, "Drift"@, DRIFT_REST, ZERO, ONE, None)
    } else {
        knob_at(scope, "speed"@, "Whirl"@, WHIRL_REST, ZERO, TEN, None)
    };
    group_at(
        if entry == 0 {
            "Drift"@
        } else {
            "Whirl"@
        },
        scope,
        seq![control.at_default("authored default"@)],
        Seq::empty(),
    )
}

/// A playlist entry's panel.
pub fn entry_panel(entry: u32) -> (r: UiPanelGroup)
    ensures
        r@ == entry_group(entry),
{
    let scope: String = entry_scope(entry);
    let mut controls: Vec<UiPanelControlView> = Vec::new();
    let label: &'static str = if entry == 0 {
        "Drift"
    } else {
        "Whirl"
    };
    let value: u32 = if entry == 0 {
        DRIFT_REST
    } else {
        WHIRL_REST
    };
    let max: u32 = if entry == 0 {
        ONE
    } else {
        TEN
    };
    controls.push(
        at_default(
            knob(scope.as_str(), "speed", label, value, ZERO, max, None),
            "authored default",
        ),
    );
    let r = group(label, scope.as_str(), controls, Vec::new());
    proof {
        assert(r@.controls =~= entry_group(entry).controls);
        assert(r@.groups =~= Seq::<GroupModel>::empty());
    }
    r
}

/// A playlist entry's panel, with the first entry's speed turned.
pub fn entry_held_panel(entry: u32) -> (r: UiPanelGroup)
    ensures
        r@ == if entry == 0 {
            with_engaged(entry_group(0), DRIFT_SCOPE@, "speed"@, DRIFT_HELD)
        } else {
            entry_group(entry)
        },
{
    let mut panel: UiPanelGroup = entry_panel(entry);
    if entry == 0 {
        engage_group(&mut panel, DRIFT_SCOPE, "speed", DRIFT_HELD);
    }
    panel
}

} // verus!
