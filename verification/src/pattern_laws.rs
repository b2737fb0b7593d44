//! What the pattern instrument does, said of the calls that do it: what plays, what
//! the tour's row says, and how an action changes the playlist.

use vstd::prelude::*;
use vstd::string::*;

use crate::action::PanelGesture;
use crate::aurora::{FOUR, ONE, ZERO};
use crate::panel::{
    ControlModel, SlotValueModel, UiPanelControlState, UiPanelControlView, UiPanelEmit,
    UiPanelGroup, UiPanelTarget, UiPanelWidget, UiSlotValue, WireScopeRef,
};
use crate::pattern_picker::{
    action_block_class, held, now_playing, pattern_row, playing_name, release, set_count,
    tour_row, PatternRow, PlaylistTour, TourRow, UiPatternEntryState, UiPatternPickerEntry,
};
use crate::pattern_set::{
    apply_picker_action, authored_tour, human, name_of, pattern_group, pattern_knobs,
    piece_panel, playing_pattern, set_facts, shared_controls, skip_held, tour_held,
    with_initial, NamedScope, PatternPickerEntryFacts, PatternPickerFacts, PickerAction,
    PlaylistChannels,
};
use crate::text::decimal;

verus! {

// -- the instrument ------------------------------------------------------------------

proof fn the_first_playing(entries: Seq<UiPatternPickerEntry>, i: int)
    requires
        0 <= i < entries.len(),
        entries[i].state == UiPatternEntryState::Playing,
        forall|k: int|
            0 <= k < i ==> (#[trigger] entries[k]).state != UiPatternEntryState::Playing,
    ensures
        playing_name(entries) == Some(entries[i].name@),
    decreases i,
{
    if i > 0 {
        let rest = entries.skip(1);
        assert(rest[i - 1] == entries[i]);
        assert forall|k: int| 0 <= k < i - 1 implies (#[trigger] rest[k]).state
            != UiPatternEntryState::Playing by {
            assert(rest[k] == entries[k + 1]);
        }
        the_first_playing(rest, i - 1);
        assert(entries[0].state != UiPatternEntryState::Playing);
    }
}

proof fn none_playing(entries: Seq<UiPatternPickerEntry>)
    requires
        forall|k: int|
            0 <= k < entries.len() ==> (#[trigger] entries[k]).state
                != UiPatternEntryState::Playing,
    ensures
        playing_name(entries) is None,
    decreases entries.len(),
{
    if entries.len() > 0 {
        let rest = entries.skip(1);
        assert forall|k: int| 0 <= k < rest.len() implies (#[trigger] rest[k]).state
            != UiPatternEntryState::Playing by {
            assert(rest[k] == entries[k + 1]);
        }
        none_playing(rest);
        assert(entries[0].state != UiPatternEntryState::Playing);
    }
}

/// The name shown as playing is the first playing pattern's.
pub proof fn the_playing_pattern_is_named(
    entries: &Vec<UiPatternPickerEntry>,
    i: int,
    r: String,
)
    requires
        0 <= i < entries@.len(),
        entries@[i].state == UiPatternEntryState::Playing,
        forall|k: int|
            0 <= k < i ==> (#[trigger] entries@[k]).state != UiPatternEntryState::Playing,
        call_ensures(now_playing, (entries,), r),
    ensures
        r@ == entries@[i].name@,
{
    the_first_playing(entries@, i);
}

/// Where no pattern plays, a dash stands for its name.
pub proof fn a_dash_stands_for_nothing(entries: &Vec<UiPatternPickerEntry>, r: String)
    requires
        forall|k: int|
            0 <= k < entries@.len() ==> (#[trigger] entries@[k]).state
                != UiPatternEntryState::Playing,
        call_ensures(now_playing, (entries,), r),
    ensures
        r@ == "\u{2014}"@,
{
    none_playing(entries@);
}

/// A channel is held where the panel is known to hold it, and only what is held can be
/// released; the release is of that very channel.
pub proof fn only_what_is_held_is_released(
    target: &Option<UiPanelTarget>,
    taken: bool,
    r: Option<PanelGesture>,
)
    requires
        call_ensures(held, (target,), taken),
        call_ensures(release, (target,), r),
    ensures
        *target is None ==> !taken,
        *target matches Some(target) ==> taken == target.engaged,
        r is Some <==> taken,
        r matches Some(gesture) ==> gesture == (PanelGesture::ClearControl {
            target: target->Some_0,
        }),
{
}

/// The set is counted over its list; a block without an action is inert; a tour moves
/// on where it has a step.
pub proof fn the_instrument_says_what_it_has(
    entries: usize,
    count: String,
    live: &'static str,
    inert: &'static str,
    tour: PlaylistTour,
    touring: bool,
    step: Option<u32>,
    seconds: u32,
    authored: PlaylistTour,
)
    requires
        call_ensures(set_count, (entries,), count),
        call_ensures(action_block_class, (true,), live),
        call_ensures(action_block_class, (false,), inert),
        call_ensures(PlaylistTour::touring, (tour,), touring),
        call_ensures(PlaylistTour::step_seconds, (tour,), step),
        call_ensures(authored_tour, (seconds,), authored),
    ensures
        count@ == decimal(entries as nat) + " patterns"@,
        live@ == crate::pattern_picker::BLOCK_CLASS@,
        inert@ == crate::pattern_picker::BLOCK_INERT_CLASS@,
        touring <==> step is Some,
        tour == PlaylistTour::Hold ==> !touring,
        tour matches PlaylistTour::Cycle { step_seconds, .. } ==> touring && step == Some(
            step_seconds,
        ),
        authored == (PlaylistTour::Cycle { step_seconds: seconds, fade_seconds: 0x3fc00000 }),
{
}

/// The tour's row says whether the tour moves on and offers the other; its steps can
/// be changed only while it does; and it can be released where it is held.
pub proof fn the_tours_row_offers_the_other(
    tour: PlaylistTour,
    step_words: &str,
    target: &Option<UiPanelTarget>,
    can_toggle: bool,
    touring: bool,
    is_held: bool,
    released: Option<PanelGesture>,
    r: TourRow,
)
    requires
        call_ensures(tour_row, (tour, step_words, target, can_toggle), r),
        call_ensures(PlaylistTour::touring, (tour,), touring),
        call_ensures(held, (target,), is_held),
        call_ensures(release, (target,), released),
    ensures
        touring ==> r.title@ == "Touring \u{2014} tap to stay on the playing pattern"@ && r.line@
            == "every "@ + step_words@ && r.pip_class@ == crate::pattern_picker::PIP_ON@,
        !touring ==> r.title@ == "Holding \u{2014} tap to tour the patterns"@ && r.line@
            == "staying on the playing pattern"@ && r.pip_class@ == crate::pattern_picker::PIP_OFF@,
        r.step_blocks == touring,
        r.disabled == !can_toggle,
        r.release is Some <==> is_held,
        r.release == released,
        touring && is_held ==> r.switch_class@ == crate::pattern_picker::SWITCH_TOURING_HELD@,
        touring && !is_held ==> r.switch_class@ == crate::pattern_picker::SWITCH_TOURING@,
        !touring && is_held ==> r.switch_class@ == crate::pattern_picker::SWITCH_RESTING_HELD@,
        !touring && !is_held ==> r.switch_class@ == crate::pattern_picker::SWITCH_RESTING@,
{
}

/// A pattern's row looks and speaks by how the pattern stands, and its switch by
/// whether the tour stops at it; only the playing and the failed one are tagged.
pub proof fn a_row_speaks_by_how_its_pattern_stands(
    entry: &UiPatternPickerEntry,
    held: bool,
    r: PatternRow,
)
    requires
        call_ensures(pattern_row, (entry, held), r),
    ensures
        r.current <==> entry.state == UiPatternEntryState::Playing,
        entry.state == UiPatternEntryState::Playing ==> r.title@ == entry.name@ + " is playing"@
            && r.row_class@ == crate::pattern_picker::ROW_PLAYING@ && r.name_class@
            == crate::pattern_picker::NAME_PLAYING@ && r.tag is Some && r.tag->Some_0.0@
            == "playing"@ && r.tag->Some_0.1@ == crate::pattern_picker::TAG_PLAYING@,
        entry.state == UiPatternEntryState::Failed ==> r.title@ == entry.name@
            + " failed to load on the device \u{2014} tap to try it again"@ && r.row_class@
            == crate::pattern_picker::ROW_FAILED@ && r.name_class@
            == crate::pattern_picker::NAME_FAILED@ && r.tag is Some && r.tag->Some_0.0@
            == "failed"@ && r.tag->Some_0.1@ == crate::pattern_picker::TAG_FAILED@,
        entry.state == UiPatternEntryState::Skipped ==> r.title@ == "Play "@ + entry.name@
            + " (it is off in the tour)"@ && r.row_class@ == crate::pattern_picker::ROW_SKIPPED@
            && r.name_class@ == crate::pattern_picker::NAME_SKIPPED@ && r.tag is None,
        entry.state == UiPatternEntryState::Available ==> r.title@ == "Play "@ + entry.name@
            && r.row_class@ == crate::pattern_picker::ROW_AVAILABLE@ && r.name_class@
            == crate::pattern_picker::NAME_AVAILABLE@ && r.tag is None,
        entry.enabled ==> r.switch_label@ == entry.name@
            + " is on in the tour \u{2014} tap to skip it"@,
        !entry.enabled ==> r.switch_label@ == entry.name@
            + " is off in the tour \u{2014} tap to include it"@,
        r.switch_disabled == !entry.can_toggle,
        entry.enabled && held ==> r.square_class@ == crate::pattern_picker::SQUARE_ON_HELD@,
        entry.enabled && !held ==> r.square_class@ == crate::pattern_picker::SQUARE_ON@,
        !entry.enabled && held ==> r.square_class@ == crate::pattern_picker::SQUARE_OFF_HELD@,
        !entry.enabled && !held ==> r.square_class@ == crate::pattern_picker::SQUARE_OFF@,
{
}

// -- the playlist --------------------------------------------------------------------

/// A name is given its initial, and keeps the rest.
pub proof fn an_initial_takes_the_first_place(name: &str, initial: &str, r: String)
    requires
        call_ensures(with_initial, (name, initial), r),
    ensures
        name@.len() == 0 ==> r@.len() == 0,
        name@.len() > 0 ==> r@ == initial@ + name@.subrange(1, name@.len() as int),
{
    if name@.len() > 0 {
        assert(name@.skip(1) =~= name@.subrange(1, name@.len() as int));
    }
}

proof fn a_capital_stands_before_its_letter(c: char)
    requires
        'a' as nat <= c as nat <= 'z' as nat,
    ensures
        crate::pattern_set::capital(c) as nat + 32 == c as nat,
{
}

/// A name that starts with a small Latin letter reads with that letter's capital, and
/// with a space for every underscore and hyphen behind it; the other characters stay.
pub proof fn a_name_reads_as_words(raw: &str, r: String, i: int)
    requires
        raw@.len() > 0,
        'a' as nat <= raw@[0] as nat <= 'z' as nat,
        call_ensures(human, (raw,), r),
        0 < i < raw@.len(),
    ensures
        r@.len() == raw@.len(),
        r@[0] as nat + 32 == raw@[0] as nat,
        raw@[i] == '_' || raw@[i] == '-' ==> r@[i] == ' ',
        raw@[i] != '_' && raw@[i] != '-' ==> r@[i] == raw@[i],
{
    a_capital_stands_before_its_letter(raw@[0]);
    assert(r@.skip(1)[i - 1] == r@[i]);
    let words = crate::pattern_set::words(raw@);
    assert(words.skip(1)[i - 1] == words[i]);
}

/// A name that starts with any other character of the ASCII range keeps it, but for an
/// underscore or a hyphen, which is a space there too.
pub proof fn only_a_small_letter_is_raised(raw: &str, r: String, i: int)
    requires
        0 <= i < raw@.len(),
        raw@[0] as nat <= 127,
        !('a' as nat <= raw@[0] as nat <= 'z' as nat),
        call_ensures(human, (raw,), r),
    ensures
        r@.len() == raw@.len(),
        raw@[i] == '_' || raw@[i] == '-' ==> r@[i] == ' ',
        raw@[i] != '_' && raw@[i] != '-' ==> r@[i] == raw@[i],
{
    let words = crate::pattern_set::words(raw@);
    assert(words.len() == raw@.len());
    assert(words[0] == if raw@[0] == '_' || raw@[0] == '-' {
        ' '
    } else {
        raw@[0]
    });
    assert(r@ == words);
}

/// The set stands under the keys from one, in the order of its names; the given key
/// plays; the tour holds; nothing is skipped, failed or held.
pub proof fn a_set_is_keyed_from_one(
    names: &Vec<&'static str>,
    active: u32,
    scope: WireScopeRef,
    channels: &PlaylistChannels,
    r: PatternPickerFacts,
    i: int,
    name: String,
)
    requires
        names@.len() < u32::MAX,
        0 <= i < names@.len(),
        call_ensures(set_facts, (names, active, scope, channels), r),
        call_ensures(human, (names@[i],), name),
    ensures
        r.entries@.len() == names@.len(),
        r.entries@[i].key == i + 1,
        r.entries@[i].name@ == name@,
        r.active == Some(active),
        r.tour == PlaylistTour::Hold,
        r.authored_tour is None,
        r.default_fade == Some(0x3fc00000u32),
        r.skip@.len() == 0,
        r.failed@.len() == 0,
        r.playlist@ == "/playful.module/playlist.playlist"@,
        r.tour_target matches Some(target) && target.scope == scope && target.channel@
            == channels.tour@ && !target.engaged,
        r.skip_target matches Some(target) && target.scope == scope && target.channel@
            == channels.skip@ && !target.engaged,
{
    assert(r.entries@[i].key == i + 1);
}

/// The target is the one that was there, and held.
pub open spec fn is_taken(before: Option<UiPanelTarget>, after: Option<UiPanelTarget>) -> bool {
    match before {
        Some(was) => after matches Some(now) && now.engaged && now.scope == was.scope && now.channel@
            == was.channel@,
        None => after is None,
    }
}

/// The two agree on the patterns, on their failures, and on what was authored.
pub open spec fn same_set(a: PatternPickerFacts, b: PatternPickerFacts) -> bool {
    &&& a.playlist == b.playlist
    &&& a.entries == b.entries
    &&& a.failed == b.failed
    &&& a.authored_tour == b.authored_tour
    &&& a.default_fade == b.default_fade
}

/// Holding the tour or the switches takes that channel and changes nothing else.
pub proof fn holding_takes_one_channel(
    facts: PatternPickerFacts,
    tour: PatternPickerFacts,
    skip: PatternPickerFacts,
)
    requires
        call_ensures(tour_held, (facts,), tour),
        call_ensures(skip_held, (facts,), skip),
    ensures
        same_set(facts, tour) && tour.active == facts.active && tour.tour == facts.tour
            && tour.skip == facts.skip,
        is_taken(facts.tour_target, tour.tour_target),
        tour.skip_target == facts.skip_target,
        same_set(facts, skip) && skip.active == facts.active && skip.tour == facts.tour
            && skip.skip == facts.skip,
        is_taken(facts.skip_target, skip.skip_target),
        skip.tour_target == facts.tour_target,
{
}

/// An activated pattern plays, and nothing else changes.
pub proof fn an_activated_pattern_plays(
    facts: PatternPickerFacts,
    entry: u32,
    channels: &PlaylistChannels,
    r: PatternPickerFacts,
)
    requires
        call_ensures(
            apply_picker_action,
            (facts, PickerAction::Activate { entry }, channels),
            r,
        ),
    ensures
        r.active == Some(entry),
        same_set(facts, r),
        r.tour == facts.tour,
        r.skip == facts.skip,
        r.tour_target == facts.tour_target,
        r.skip_target == facts.skip_target,
{
}

/// A write of the tour replaces the tour and leaves it held; the switches and what
/// plays stay.
pub proof fn a_written_tour_is_held(
    facts: PatternPickerFacts,
    channel: String,
    tour: PlaylistTour,
    as_skip: Option<Vec<u32>>,
    channels: &PlaylistChannels,
    r: PatternPickerFacts,
)
    requires
        channel@ == channels.tour@,
        call_ensures(
            apply_picker_action,
            (facts, PickerAction::Write { channel, as_tour: Some(tour), as_skip }, channels),
            r,
        ),
    ensures
        r.tour == tour,
        is_taken(facts.tour_target, r.tour_target),
        same_set(facts, r),
        r.active == facts.active,
        r.skip == facts.skip,
        r.skip_target == facts.skip_target,
{
}

/// A write of the switches replaces the switches and leaves them held; the tour and
/// what plays stay.
pub proof fn written_switches_are_held(
    facts: PatternPickerFacts,
    channel: String,
    as_tour: Option<PlaylistTour>,
    skip: Vec<u32>,
    channels: &PlaylistChannels,
    r: PatternPickerFacts,
)
    requires
        channel@ == channels.skip@,
        channels.skip@ != channels.tour@,
        call_ensures(
            apply_picker_action,
            (facts, PickerAction::Write { channel, as_tour, as_skip: Some(skip) }, channels),
            r,
        ),
    ensures
        r.skip == skip,
        is_taken(facts.skip_target, r.skip_target),
        same_set(facts, r),
        r.active == facts.active,
        r.tour == facts.tour,
        r.tour_target == facts.tour_target,
{
}

/// A write to a channel that is not the playlist's, or of a value that does not read
/// as what the channel takes, changes nothing; nor does any other action.
pub proof fn a_stray_action_changes_nothing(
    facts: PatternPickerFacts,
    channel: String,
    as_tour: Option<PlaylistTour>,
    as_skip: Option<Vec<u32>>,
    channels: &PlaylistChannels,
    write: PatternPickerFacts,
    other: PatternPickerFacts,
)
    requires
        channel@ == channels.tour@ ==> as_tour is None,
        channel@ == channels.skip@ && channel@ != channels.tour@ ==> as_skip is None,
        call_ensures(
            apply_picker_action,
            (facts, PickerAction::Write { channel, as_tour, as_skip }, channels),
            write,
        ),
        call_ensures(apply_picker_action, (facts, PickerAction::Other, channels), other),
    ensures
        write == facts,
        other == facts,
{
}

proof fn the_first_of_a_key(entries: Seq<PatternPickerEntryFacts>, key: u32, i: int)
    requires
        0 <= i < entries.len(),
        entries[i].key == key,
        forall|k: int| 0 <= k < i ==> (#[trigger] entries[k]).key != key,
    ensures
        name_of(entries, Some(key)) == entries[i].name@,
    decreases i,
{
    if i > 0 {
        let rest = entries.skip(1);
        assert(rest[i - 1] == entries[i]);
        assert forall|k: int| 0 <= k < i - 1 implies (#[trigger] rest[k]).key != key by {
            assert(rest[k] == entries[k + 1]);
        }
        the_first_of_a_key(rest, key, i - 1);
        assert(entries[0].key != key);
    }
}

proof fn none_of_a_key(entries: Seq<PatternPickerEntryFacts>, key: Option<u32>)
    requires
        forall|k: int| 0 <= k < entries.len() ==> key != Some((#[trigger] entries[k]).key),
    ensures
        name_of(entries, key).len() == 0,
    decreases entries.len(),
{
    if entries.len() > 0 {
        let rest = entries.skip(1);
        assert forall|k: int| 0 <= k < rest.len() implies key != Some(
            (#[trigger] rest[k]).key,
        ) by {
            assert(rest[k] == entries[k + 1]);
        }
        none_of_a_key(rest, key);
        assert(key != Some(entries[0].key));
    }
}

/// The playing pattern is the first one under the active key.
pub proof fn the_active_key_says_what_plays(facts: &PatternPickerFacts, i: int, r: String)
    requires
        0 <= i < facts.entries@.len(),
        facts.active == Some(facts.entries@[i].key),
        forall|k: int|
            0 <= k < i ==> (#[trigger] facts.entries@[k]).key != facts.entries@[i].key,
        call_ensures(playing_pattern, (facts,), r),
    ensures
        r@ == facts.entries@[i].name@,
{
    the_first_of_a_key(facts.entries@, facts.entries@[i].key, i);
}

/// Where no pattern has the active key, none is named.
pub proof fn an_unknown_key_names_nothing(facts: &PatternPickerFacts, r: String)
    requires
        forall|k: int|
            0 <= k < facts.entries@.len() ==> facts.active != Some(
                (#[trigger] facts.entries@[k]).key,
            ),
        call_ensures(playing_pattern, (facts,), r),
    ensures
        r@.len() == 0,
{
    none_of_a_key(facts.entries@, facts.active);
}

// -- the piece's panel ---------------------------------------------------------------

/// The instrument is one control that shows the name of what plays, and is engaged
/// while the panel holds the tour or the switches.
pub proof fn the_instrument_is_held_with_its_channels(
    facts: &PatternPickerFacts,
    playing: &str,
    channels: &PlaylistChannels,
    tour: bool,
    skip: bool,
    r: UiPanelGroup,
)
    requires
        call_ensures(pattern_group, (facts, playing, channels), r),
        call_ensures(held, (&facts.tour_target,), tour),
        call_ensures(held, (&facts.skip_target,), skip),
    ensures
        r@.controls.len() == 1,
        r@.groups.len() == 0,
        r@.label == "Pattern"@,
        r@.scope == "/playful.module/playlist.playlist"@,
        r@.controls[0].state == UiPanelControlState::Engaged <==> tour || skip,
        r@.controls[0].state == UiPanelControlState::ReadDefault <==> !tour && !skip,
        r@.controls[0].value == SlotValueModel::Text(playing@),
        r@.controls[0].channel == channels.tour@,
        r@.controls[0].widget is PatternPicker,
        r@.controls[0].address is None,
        r@.controls[0].source is None,
{
}

/// A control at its authored default, sent as it is named.
pub open spec fn rests(c: ControlModel, channel: Seq<char>, scope: NamedScope) -> bool {
    &&& c.channel == channel
    &&& c.label == channel
    &&& c.state == UiPanelControlState::ReadDefault
    &&& c.panel_target matches Some(target)
    &&& target.scope == scope.target
    &&& target.channel == channel
    &&& !target.engaged
}

/// The shared controls are the brightness, the speed, the detail and the palette, in
/// that order, each at its authored default in the piece's scope.
pub proof fn the_shared_controls_stay_put(
    scope: &NamedScope,
    palette: &UiSlotValue,
    r: Vec<UiPanelControlView>,
)
    requires
        call_ensures(shared_controls, (scope, palette), r),
    ensures
        r@.len() == 4,
        rests(r@[0]@, "brightness"@, *scope),
        rests(r@[1]@, "speed"@, *scope),
        rests(r@[2]@, "detail"@, *scope),
        rests(r@[3]@, "palette"@, *scope),
        r@[0]@.widget == (UiPanelWidget::Fader { min: ZERO, max: 0x437f0000, step: Some(ONE) }),
        r@[0]@.value == SlotValueModel::F32(0x43200000),
        r@[0]@.source == Some("authored 160"@),
        r@[1]@.widget == (UiPanelWidget::Knob { min: 0x3e800000, max: FOUR, step: None }),
        r@[1]@.value == SlotValueModel::F32(ONE),
        r@[2]@.widget == r@[1]@.widget,
        r@[2]@.value == SlotValueModel::F32(ONE),
        r@[3]@.widget is PaletteSwatch,
        r@[3]@.value == palette@,
        r@[3]@.emit == UiPanelEmit::Gradient,
        r@[3]@.source == Some("authored palette"@),
{
    let models = crate::panel::control_models(r@);
    assert(models.len() == 4);
    assert(models[0] == r@[0]@);
    assert(models[1] == r@[1]@);
    assert(models[2] == r@[2]@);
    assert(models[3] == r@[3]@);
}

/// The pattern's knobs are its width and its tail, at their authored defaults in the
/// pattern's own scope, under the pattern's name.
pub proof fn the_knobs_belong_to_the_pattern(label: &str, scope: &NamedScope, r: UiPanelGroup)
    requires
        call_ensures(pattern_knobs, (label, scope), r),
    ensures
        r@.label == label@,
        r@.scope == scope.path@,
        r@.target == Some(scope.target),
        r@.groups.len() == 0,
        r@.controls.len() == 2,
        rests(r@.controls[0], "width"@, *scope),
        rests(r@.controls[1], "tail"@, *scope),
        r@.controls[0].widget == (UiPanelWidget::Knob {
            min: 0x3f000000,
            max: 0x41400000,
            step: None,
        }),
        r@.controls[0].value == SlotValueModel::F32(0x40200000),
        r@.controls[1].widget == (UiPanelWidget::Knob { min: 0x3d4ccccd, max: ONE, step: None }),
        r@.controls[1].value == SlotValueModel::F32(0x3ee66666),
{
}

/// The piece's panel is the shared controls, and under them the instrument and the
/// knobs of the pattern that plays.
pub proof fn the_panel_is_made_of_its_parts(
    facts: &PatternPickerFacts,
    playing: &str,
    channels: &PlaylistChannels,
    piece: &NamedScope,
    pattern: &NamedScope,
    palette: &UiSlotValue,
    r: UiPanelGroup,
    shared: Vec<UiPanelControlView>,
    instrument: UiPanelGroup,
    name: String,
    label: &str,
    knobs: UiPanelGroup,
)
    requires
        call_ensures(piece_panel, (facts, playing, channels, piece, pattern, palette), r),
        call_ensures(shared_controls, (piece, palette), shared),
        call_ensures(pattern_group, (facts, playing, channels), instrument),
        call_ensures(playing_pattern, (facts,), name),
        label@ == name@,
        call_ensures(pattern_knobs, (label, pattern), knobs),
    ensures
        r@.label == "Playful Choker"@,
        r@.scope == piece.path@,
        r@.target == Some(piece.target),
        r@.controls == crate::panel::control_models(shared@),
        r@.groups == seq![instrument@, knobs@],
{
}

} // verus!
