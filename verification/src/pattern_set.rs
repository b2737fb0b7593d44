//! The choker example: a piece whose playlist tours a set of patterns. The panel
//! shows the shared controls, the pattern instrument and the playing pattern's
//! own knobs.

use vstd::prelude::*;
use vstd::string::*;

use crate::aurora::{at_default, control_in, resting_in, FOUR, ONE, ZERO};
use crate::panel::{
    clone_target_opt, control_models, target_opt, ControlModel, GroupModel, SlotValueModel,
    TargetModel, UiPanelControl, UiPanelControlState, UiPanelControlView, UiPanelEmit,
    UiPanelGroup, UiPanelTarget, UiPanelWidget, UiSlotValue, WireScopeRef,
};
use crate::pattern_picker::{held, is_held, PlaylistTour};
use crate::text::{same_text, space_out, spaced};

verus! {

/// The capital of a lower case Latin letter, which stands 32 places before it.
pub open spec fn capital(c: char) -> char {
    ((c as u32) - 32) as u8 as char
}

/// The upper case of one character.
pub uninterp spec fn upper(c: char) -> Seq<char>;

/// `char::to_uppercase`: the upper case of one character, as one or more
/// characters. Lower case Latin letters have the capital of the same letter, and
/// the other characters of the ASCII range are their own upper case. What the
/// rest of Unicode maps to is left unsaid.
#[verifier::external_body]
fn uppercase(c: char) -> (r: String)
    ensures
        r@ == upper(c),
        r@.len() >= 1,
        'a' as nat <= c as nat <= 'z' as nat ==> r@ == seq![capital(c)],
        c as nat <= 127 && !('a' as nat <= c as nat <= 'z' as nat) ==> r@ == seq![c],
{
    c.to_uppercase().to_string()
}

/// A node's name with spaces for its joints.
pub open spec fn words(raw: Seq<char>) -> Seq<char> {
    spaced(spaced(raw, '_'), '-')
}

/// `name` with `initial` in place of its first character.
pub open spec fn with_first(name: Seq<char>, initial: Seq<char>) -> Seq<char> {
    if name.len() == 0 {
        Seq::empty()
    } else {
        initial + name.skip(1)
    }
}

/// Puts `initial` in place of the first character of `name`.
pub fn with_initial(name: &str, initial: &str) -> (r: String)
    ensures
        r@ == with_first(name@, initial@),
{
    let len: usize = name.unicode_len();
    if len == 0 {
        return String::new();
    }
    let mut out: String = initial.to_string();
    proof {
        assert(name@.skip(1) =~= name@.subrange(1, len as int));
    }
    out.append(name.substring_char(1, len));
    out
}

/// A node's name as its card reads.
pub open spec fn human_name(raw: Seq<char>) -> Seq<char> {
    with_first(words(raw), upper(words(raw)[0]))
}

/// A node's name as its card reads: `Noise soft` for `noise_soft`.
pub fn human(raw: &str) -> (r: String)
    ensures
        r@ == human_name(raw@),
        raw@.len() > 0 && 'a' as nat <= raw@[0] as nat <= 'z' as nat ==> {
            &&& r@.len() == raw@.len()
            &&& r@[0] == capital(raw@[0])
            &&& r@.skip(1) == words(raw@).skip(1)
        },
        words(raw@).len() > 0 && words(raw@)[0] as nat <= 127 && !('a' as nat <= words(raw@)[0] as nat
            <= 'z' as nat) ==> r@ == words(raw@),
{
    let first: String = space_out(raw, '_');
    let name: String = space_out(first.as_str(), '-');
    if name.as_str().unicode_len() == 0 {
        return String::new();
    }
    let initial: String = uppercase(name.as_str().get_char(0));
    let r: String = with_initial(name.as_str(), initial.as_str());
    proof {
        if 'a' as nat <= raw@[0] as nat <= 'z' as nat {
            assert(words(raw@)[0] == raw@[0]);
            assert(r@.skip(1) =~= words(raw@).skip(1));
        } else if words(raw@)[0] as nat <= 127 && !('a' as nat <= words(raw@)[0] as nat
            <= 'z' as nat) {
            assert(r@ =~= words(raw@));
        }
    }
    r
}

/// The five patterns of the choker, by their names.
pub fn choker_set() -> (r: Vec<&'static str>)
    ensures
        r@.len() == 5,
        r@[0]@ == "noise_soft"@,
        r@[1]@ == "aurora"@,
        r@[2]@ == "twinkle"@,
        r@[3]@ == "scanner"@,
        r@[4]@ == "fireflies"@,
{
    let mut names: Vec<&'static str> = Vec::new();
    names.push("noise_soft");
    names.push("aurora");
    names.push("twinkle");
    names.push("scanner");
    names.push("fireflies");
    names
}

/// A set of the size the instrument is meant for.
pub fn twenty_five() -> (r: Vec<&'static str>)
    ensures
        r@.len() == 25,
        r@[0]@ == "noise_soft"@,
        r@[1]@ == "aurora"@,
        r@[2]@ == "twinkle"@,
        r@[3]@ == "scanner"@,
        r@[4]@ == "fireflies"@,
        r@[5]@ == "comet"@,
        r@[6]@ == "fire2012"@,
        r@[7]@ == "meteor"@,
        r@[8]@ == "plasma"@,
        r@[9]@ == "ripple"@,
        r@[10]@ == "sinelon"@,
        r@[11]@ == "juggle"@,
        r@[12]@ == "bpm_pulse"@,
        r@[13]@ == "confetti"@,
        r@[14]@ == "rainbow_march"@,
        r@[15]@ == "lava_lamp"@,
        r@[16]@ == "ocean_swell"@,
        r@[17]@ == "candle_flicker"@,
        r@[18]@ == "starfield"@,
        r@[19]@ == "heartbeat"@,
        r@[20]@ == "breathing"@,
        r@[21]@ == "color_waves"@,
        r@[22]@ == "sparkle_rain"@,
        r@[23]@ == "pacifica"@,
        r@[24]@ == "twinkle_fox"@,
{
    let mut names: Vec<&'static str> = Vec::new();
    names.push("noise_soft");
    names.push("aurora");
    names.push("twinkle");
    names.push("scanner");
    names.push("fireflies");
    names.push("comet");
    names.push("fire2012");
    names.push("meteor");
    names.push("plasma");
    names.push("ripple");
    names.push("sinelon");
    names.push("juggle");
    names.push("bpm_pulse");
    names.push("confetti");
    names.push("rainbow_march");
    names.push("lava_lamp");
    names.push("ocean_swell");
    names.push("candle_flicker");
    names.push("starfield");
    names.push("heartbeat");
    names.push("breathing");
    names.push("color_waves");
    names.push("sparkle_rain");
    names.push("pacifica");
    names.push("twinkle_fox");
    names
}

/// One pattern of the playlist: its key and the name its card reads.
#[derive(Clone, Debug, PartialEq, Eq)]
pub struct PatternPickerEntryFacts {
    pub key: u32,
    pub name: String,
}

/// What is known of the playlist.
#[derive(Clone, Debug, PartialEq, Eq)]
pub struct PatternPickerFacts {
    pub playlist: String,
    pub entries: Vec<PatternPickerEntryFacts>,
    pub active: Option<u32>,
    pub tour: PlaylistTour,
    pub authored_tour: Option<PlaylistTour>,
    /// The bits of the fade's length.
    pub default_fade: Option<u32>,
    pub skip: Vec<u32>,
    pub failed: Vec<u32>,
    pub tour_target: Option<UiPanelTarget>,
    pub skip_target: Option<UiPanelTarget>,
}

/// The playlist's path.
pub const PLAYLIST_PATH: &'static str = "/playful.module/playlist.playlist";

/// The bits of 1.5.
pub const FADE: u32 = 0x3fc00000;

/// The channels a playlist is driven by.
#[derive(Clone, Debug, PartialEq, Eq)]
pub struct PlaylistChannels {
    pub tour: String,
    pub skip: String,
}

/// A set of patterns under the keys from one, with `active` playing and nothing
/// held, skipped or failed.
pub fn set_facts(
    names: &Vec<&'static str>,
    active: u32,
    scope: WireScopeRef,
    channels: &PlaylistChannels,
) -> (r: PatternPickerFacts)
    requires
        names@.len() < u32::MAX,
    ensures
        r.playlist@ == PLAYLIST_PATH@,
        r.entries@.len() == names@.len(),
        forall|i: int|
            0 <= i < names@.len() ==> (#[trigger] r.entries@[i]).key == i + 1
                && r.entries@[i].name@ == human_name(names@[i]@),
        r.active == Some(active),
        r.tour == PlaylistTour::Hold,
        r.authored_tour is None,
        r.default_fade == Some(FADE),
        r.skip@.len() == 0,
        r.failed@.len() == 0,
        target_opt(r.tour_target) == Some(
            TargetModel { scope, channel: channels.tour@, engaged: false },
        ),
        target_opt(r.skip_target) == Some(
            TargetModel { scope, channel: channels.skip@, engaged: false },
        ),
{
    let mut entries: Vec<PatternPickerEntryFacts> = Vec::new();
    let mut at: usize = 0;
    while at < names.len()
        invariant
            at <= names@.len(),
            names@.len() < u32::MAX,
            entries@.len() == at,
            forall|i: int|
                0 <= i < at ==> (#[trigger] entries@[i]).key == i + 1 && entries@[i].name@
                    == human_name(names@[i]@),
        decreases names.len() - at,
    {
        let name: &'static str = names[at];
        entries.push(PatternPickerEntryFacts { key: at as u32 + 1, name: human(name) });
        at += 1;
    }
    PatternPickerFacts {
        playlist: PLAYLIST_PATH.to_string(),
        entries,
        active: Some(active),
        tour: PlaylistTour::Hold,
        authored_tour: None,
        default_fade: Some(FADE),
        skip: Vec::new(),
        failed: Vec::new(),
        tour_target: Some(
            UiPanelTarget { scope, channel: channels.tour.clone(), engaged: false },
        ),
        skip_target: Some(
            UiPanelTarget { scope, channel: channels.skip.clone(), engaged: false },
        ),
    }
}

/// A tour that moves on after each step, as its author set it.
pub fn authored_tour(step_seconds: u32) -> (r: PlaylistTour)
    ensures
        r == (PlaylistTour::Cycle { step_seconds, fade_seconds: FADE }),
{
    PlaylistTour::Cycle { step_seconds, fade_seconds: FADE }
}

/// The target, held.
pub open spec fn engaged_target(target: Option<TargetModel>) -> Option<TargetModel> {
    match target {
        Some(target) => Some(TargetModel { engaged: true, ..target }),
        None => None,
    }
}

/// The facts agree on everything but which of the two channels is held.
pub open spec fn same_but_targets(a: PatternPickerFacts, b: PatternPickerFacts) -> bool {
    &&& a.playlist == b.playlist
    &&& a.entries == b.entries
    &&& a.active == b.active
    &&& a.tour == b.tour
    &&& a.authored_tour == b.authored_tour
    &&& a.default_fade == b.default_fade
    &&& a.skip == b.skip
    &&& a.failed == b.failed
}

/// The playlist with its tour held by the panel.
pub fn tour_held(facts: PatternPickerFacts) -> (r: PatternPickerFacts)
    ensures
        same_but_targets(r, facts),
        target_opt(r.tour_target) == engaged_target(target_opt(facts.tour_target)),
        r.skip_target == facts.skip_target,
{
    let mut facts = facts;
    match &mut facts.tour_target {
        Some(target) => {
            target.engaged = true;
        },
        None => {},
    }
    facts
}

/// The playlist with its switches held by the panel.
pub fn skip_held(facts: PatternPickerFacts) -> (r: PatternPickerFacts)
    ensures
        same_but_targets(r, facts),
        target_opt(r.skip_target) == engaged_target(target_opt(facts.skip_target)),
        r.tour_target == facts.tour_target,
{
    let mut facts = facts;
    match &mut facts.skip_target {
        Some(target) => {
            target.engaged = true;
        },
        None => {},
    }
    facts
}

/// An action of the instrument. A write comes with what its value reads as, if
/// it reads as that.
#[derive(Clone, Debug, PartialEq, Eq)]
pub enum PickerAction {
    Activate { entry: u32 },
    Write { channel: String, as_tour: Option<PlaylistTour>, as_skip: Option<Vec<u32>> },
    Other,
}

/// Answers one of the instrument's actions as a device would: an activated
/// pattern plays, and a write of the tour or the switches replaces them and
/// leaves them held. Anything else changes nothing.
pub fn apply_picker_action(
    facts: PatternPickerFacts,
    action: PickerAction,
    channels: &PlaylistChannels,
) -> (r: PatternPickerFacts)
    ensures
        match action {
            PickerAction::Activate { entry } => r == (PatternPickerFacts {
                active: Some(entry),
                ..facts
            }),
            PickerAction::Write { channel, as_tour, as_skip } => {
                if channel@ == channels.tour@ {
                    match as_tour {
                        Some(tour) => {
                            &&& same_but_targets(r, PatternPickerFacts { tour, ..facts })
                            &&& target_opt(r.tour_target) == engaged_target(
                                target_opt(facts.tour_target),
                            )
                            &&& r.skip_target == facts.skip_target
                        },
                        None => r == facts,
                    }
                } else if channel@ == channels.skip@ {
                    match as_skip {
                        Some(skip) => {
                            &&& same_but_targets(r, PatternPickerFacts { skip, ..facts })
                            &&& target_opt(r.skip_target) == engaged_target(
                                target_opt(facts.skip_target),
                            )
                            &&& r.tour_target == facts.tour_target
                        },
                        None => r == facts,
                    }
                } else {
                    r == facts
                }
            },
            PickerAction::Other => r == facts,
        },
{
    match action {
        PickerAction::Activate { entry } => PatternPickerFacts { active: Some(entry), ..facts },
        PickerAction::Write { channel, as_tour, as_skip } => {
            if same_text(channel.as_str(), channels.tour.as_str()) {
                match as_tour {
                    Some(tour) => tour_held(PatternPickerFacts { tour, ..facts }),
                    None => facts,
                }
            } else if same_text(channel.as_str(), channels.skip.as_str()) {
                match as_skip {
                    Some(skip) => skip_held(PatternPickerFacts { skip, ..facts }),
                    None => facts,
                }
            } else {
                facts
            }
        },
        PickerAction::Other => facts,
    }
}

/// The bits of 0.05, 0.25, 0.45, 0.5, 2.5, 12, 160 and 255.
pub const TAIL_MIN: u32 = 0x3d4ccccd;

pub const QUARTER: u32 = 0x3e800000;

pub const TAIL_REST: u32 = 0x3ee66666;

pub const HALF: u32 = 0x3f000000;

pub const WIDTH_REST: u32 = 0x40200000;

pub const WIDTH_MAX: u32 = 0x41400000;

pub const PIECE_BRIGHT: u32 = 0x43200000;

pub const PIECE_FULL: u32 = 0x437f0000;

/// The path of a scope and the scope itself.
#[derive(Clone, Debug, PartialEq, Eq)]
pub struct NamedScope {
    pub path: String,
    pub target: WireScopeRef,
}

/// A knob in a scope.
pub open spec fn knob_in(
    scope: NamedScope,
    channel: Seq<char>,
    value: u32,
    min: u32,
    max: u32,
) -> ControlModel {
    resting_in(
        scope.path@,
        scope.target,
        channel,
        channel,
        UiPanelEmit::Value,
        UiPanelWidget::Knob { min, max, step: None },
        SlotValueModel::F32(value),
    ).at_default("authored default"@)
}

fn scope_knob(scope: &NamedScope, channel: &str, value: u32, min: u32, max: u32) -> (r:
    UiPanelControlView)
    ensures
        r@ == knob_in(*scope, channel@, value, min, max),
{
    at_default(
        control_in(
            scope.path.as_str(),
            scope.target,
            channel,
            channel,
            UiPanelEmit::Value,
            UiPanelWidget::Knob { min, max, step: None },
            UiSlotValue::F32(value),
        ),
        "authored default",
    )
}

/// The controls that stay put whichever pattern plays.
pub open spec fn shared_control_list(
    scope: NamedScope,
    palette: SlotValueModel,
) -> Seq<ControlModel> {
    seq![
        resting_in(
            scope.path@,
            scope.target,
            "brightness"@,
            "brightness"@,
            UiPanelEmit::Value,
            UiPanelWidget::Fader { min: ZERO, max: PIECE_FULL, step: Some(ONE) },
            SlotValueModel::F32(PIECE_BRIGHT),
        ).at_default("authored 160"@),
        knob_in(scope, "speed"@, ONE, QUARTER, FOUR),
        knob_in(scope, "detail"@, ONE, QUARTER, FOUR),
        resting_in(
            scope.path@,
            scope.target,
            "palette"@,
            "palette"@,
            UiPanelEmit::Gradient,
            UiPanelWidget::PaletteSwatch,
            palette,
        ).at_default("authored palette"@),
    ]
}

/// The controls that stay put whichever pattern plays.
pub fn shared_controls(scope: &NamedScope, palette: &UiSlotValue) -> (r: Vec<UiPanelControlView>)
    ensures
        control_models(r@) == shared_control_list(*scope, palette@),
{
    let mut controls: Vec<UiPanelControlView> = Vec::new();
    controls.push(
        at_default(
            control_in(
                scope.path.as_str(),
                scope.target,
                "brightness",
                "brightness",
                UiPanelEmit::Value,
                UiPanelWidget::Fader { min: ZERO, max: PIECE_FULL, step: Some(ONE) },
                UiSlotValue::F32(PIECE_BRIGHT),
            ),
            "authored 160",
        ),
    );
    controls.push(scope_knob(scope, "speed", ONE, QUARTER, FOUR));
    controls.push(scope_knob(scope, "detail", ONE, QUARTER, FOUR));
    controls.push(
        at_default(
            control_in(
                scope.path.as_str(),
                scope.target,
                "palette",
                "palette",
                UiPanelEmit::Gradient,
                UiPanelWidget::PaletteSwatch,
                palette.clone(),
            ),
            "authored palette",
        ),
    );
    proof {
        assert(control_models(controls@) =~= shared_control_list(*scope, palette@));
    }
    controls
}

/// The playing pattern's own knobs.
pub open spec fn pattern_knob_group(label: Seq<char>, scope: NamedScope) -> GroupModel {
    GroupModel {
        label,
        scope: scope.path@,
        target: Some(scope.target),
        controls: seq![
            knob_in(scope, "width"@, WIDTH_REST, HALF, WIDTH_MAX),
            knob_in(scope, "tail"@, TAIL_REST, TAIL_MIN, ONE),
        ],
        groups: Seq::empty(),
    }
}

/// The playing pattern's own knobs, in its module's scope.
pub fn pattern_knobs(label: &str, scope: &NamedScope) -> (r: UiPanelGroup)
    ensures
        r@ == pattern_knob_group(label@, *scope),
{
    let mut controls: Vec<UiPanelControlView> = Vec::new();
    controls.push(scope_knob(scope, "width", WIDTH_REST, HALF, WIDTH_MAX));
    controls.push(scope_knob(scope, "tail", TAIL_REST, TAIL_MIN, ONE));
    let r = UiPanelGroup::new(label, scope.path.as_str()).with_target(
        scope.target,
    ).with_controls(controls);
    proof {
        assert(r@.controls =~= pattern_knob_group(label@, *scope).controls);
    }
    r
}

/// The pattern instrument as a group. It is held while the panel holds the tour
/// or the switches.
pub open spec fn instrument_group(
    facts: PatternPickerFacts,
    playing: Seq<char>,
    tour_channel: Seq<char>,
) -> GroupModel {
    GroupModel {
        label: "Pattern"@,
        scope: PLAYLIST_PATH@,
        target: None,
        controls: seq![
            ControlModel {
                channel: tour_channel,
                emit: UiPanelEmit::Value,
                label: "Pattern"@,
                address: None,
                widget: UiPanelWidget::PatternPicker,
                value: SlotValueModel::Text(playing),
                live_value: None,
                panel_target: target_opt(facts.tour_target),
                state: if is_held(facts.tour_target) || is_held(facts.skip_target) {
                    UiPanelControlState::Engaged
                } else {
                    UiPanelControlState::ReadDefault
                },
                source: None,
            },
        ],
        groups: Seq::empty(),
    }
}

/// The pattern instrument as a group. `playing` is the name it shows as playing.
pub fn pattern_group(facts: &PatternPickerFacts, playing: &str, channels: &PlaylistChannels) -> (r:
    UiPanelGroup)
    ensures
        r@ == instrument_group(*facts, playing@, channels.tour@),
{
    let state: UiPanelControlState = if held(&facts.tour_target) || held(&facts.skip_target) {
        UiPanelControlState::Engaged
    } else {
        UiPanelControlState::ReadDefault
    };
    let mut controls: Vec<UiPanelControlView> = Vec::new();
    controls.push(
        UiPanelControlView::new(
            channels.tour.as_str(),
            UiPanelControl {
                emit: UiPanelEmit::Value,
                label: "Pattern".to_string(),
                address: None,
                widget: UiPanelWidget::PatternPicker,
                value: UiSlotValue::Text(playing.to_string()),
                live_value: None,
                panel_target: clone_target_opt(&facts.tour_target),
            },
        ).with_state(state, None),
    );
    let r = UiPanelGroup::new("Pattern", PLAYLIST_PATH).with_controls(controls);
    proof {
        assert(r@.controls =~= instrument_group(*facts, playing@, channels.tour@).controls);
    }
    r
}

/// The name of the first entry with a key, or nothing.
pub open spec fn name_of(entries: Seq<PatternPickerEntryFacts>, key: Option<u32>) -> Seq<char>
    decreases entries.len(),
{
    if entries.len() == 0 {
        Seq::empty()
    } else if key == Some(entries[0].key) {
        entries[0].name@
    } else {
        name_of(entries.skip(1), key)
    }
}

/// The name of the pattern that plays, or nothing.
pub fn playing_pattern(facts: &PatternPickerFacts) -> (r: String)
    ensures
        r@ == name_of(facts.entries@, facts.active),
{
    let mut at: usize = 0;
    proof {
        assert(facts.entries@.skip(0) =~= facts.entries@);
    }
    while at < facts.entries.len()
        invariant
            at <= facts.entries@.len(),
            name_of(facts.entries@.skip(at as int), facts.active) == name_of(
                facts.entries@,
                facts.active,
            ),
        decreases facts.entries.len() - at,
    {
        let hit: bool = match facts.active {
            Some(key) => key == facts.entries[at].key,
            None => false,
        };
        if hit {
            return facts.entries[at].name.clone();
        }
        proof {
            assert(facts.entries@.skip(at as int).skip(1) =~= facts.entries@.skip(at + 1));
        }
        at += 1;
    }
    String::new()
}

/// The whole panel of the piece: the shared controls, the instrument, and the
/// playing pattern's knobs.
pub fn piece_panel(
    facts: &PatternPickerFacts,
    playing: &str,
    channels: &PlaylistChannels,
    piece: &NamedScope,
    pattern: &NamedScope,
    palette: &UiSlotValue,
) -> (r: UiPanelGroup)
    ensures
        r@ == (GroupModel {
            label: "Playful Choker"@,
            scope: piece.path@,
            target: Some(piece.target),
            controls: shared_control_list(*piece, palette@),
            groups: seq![
                instrument_group(*facts, playing@, channels.tour@),
                pattern_knob_group(name_of(facts.entries@, facts.active), *pattern),
            ],
        }),
{
    let name: String = playing_pattern(facts);
    let mut groups: Vec<UiPanelGroup> = Vec::new();
    groups.push(pattern_group(facts, playing, channels));
    groups.push(pattern_knobs(name.as_str(), pattern));
    let r = UiPanelGroup::new("Playful Choker", piece.path.as_str()).with_target(
        piece.target,
    ).with_controls(shared_controls(piece, palette)).with_groups(groups);
    proof {
        assert(r@.groups =~= seq![
            instrument_group(*facts, playing@, channels.tour@),
            pattern_knob_group(name_of(facts.entries@, facts.active), *pattern),
        ]);
    }
    r
}

} // verus!
