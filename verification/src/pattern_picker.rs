//! The pattern instrument: what plays, the tour through the set, and each
//! pattern's place in it.

use vstd::prelude::*;
use vstd::string::*;

use crate::action::PanelGesture;
use crate::panel::UiPanelTarget;
use crate::text::{decimal, decimal_text};

verus! {

/// How a pattern of the set stands.
#[derive(Clone, Copy, Debug, PartialEq, Eq, Structural)]
pub enum UiPatternEntryState {
    Playing,
    Failed,
    Skipped,
    Available,
}

/// One pattern of the set.
#[derive(Clone, Debug, PartialEq, Eq)]
pub struct UiPatternPickerEntry {
    pub key: u32,
    pub name: String,
    pub state: UiPatternEntryState,
    /// The tour stops at it.
    pub enabled: bool,
    /// Its place in the tour can be changed.
    pub can_toggle: bool,
}

pub const BLOCK_CLASS: &'static str = "tw:inline-flex tw:h-8 tw:min-w-8 tw:flex-none tw:cursor-pointer tw:appearance-none tw:items-center tw:justify-center tw:rounded-xs tw:border tw:border-border-strong tw:bg-card-raised tw:px-2 tw:font-mono tw:text-xs tw:text-strong-foreground tw:hover:border-muted-foreground";

pub const BLOCK_INERT_CLASS: &'static str = "tw:inline-flex tw:h-8 tw:min-w-8 tw:flex-none tw:cursor-default tw:appearance-none tw:items-center tw:justify-center tw:rounded-xs tw:border tw:border-border-muted tw:bg-transparent tw:px-2 tw:font-mono tw:text-xs tw:text-dim-foreground";

pub const SWITCH_TOURING_HELD: &'static str = "tw:inline-flex tw:h-8 tw:flex-none tw:cursor-pointer tw:appearance-none tw:items-center tw:gap-1.5 tw:rounded-xs tw:border tw:border-status-engaged-border tw:bg-status-engaged-bg tw:px-2.5 tw:text-xs tw:font-bold tw:text-status-engaged-foreground";

pub const SWITCH_TOURING: &'static str = "tw:inline-flex tw:h-8 tw:flex-none tw:cursor-pointer tw:appearance-none tw:items-center tw:gap-1.5 tw:rounded-xs tw:border tw:border-border-strong tw:bg-card-raised tw:px-2.5 tw:text-xs tw:font-bold tw:text-strong-foreground";

pub const SWITCH_RESTING_HELD: &'static str = "tw:inline-flex tw:h-8 tw:flex-none tw:cursor-pointer tw:appearance-none tw:items-center tw:gap-1.5 tw:rounded-xs tw:border tw:border-status-engaged-border tw:bg-transparent tw:px-2.5 tw:text-xs tw:text-status-engaged-foreground";

pub const SWITCH_RESTING: &'static str = "tw:inline-flex tw:h-8 tw:flex-none tw:cursor-pointer tw:appearance-none tw:items-center tw:gap-1.5 tw:rounded-xs tw:border tw:border-border tw:bg-transparent tw:px-2.5 tw:text-xs tw:text-muted-foreground";

pub const PIP_ON: &'static str = "tw:h-2.5 tw:w-2.5 tw:flex-none tw:rounded-[1px] tw:bg-muted-foreground";

pub const PIP_OFF: &'static str = "tw:h-2.5 tw:w-2.5 tw:flex-none tw:rounded-[1px] tw:border tw:border-dim-foreground";

pub const ROW_PLAYING: &'static str = "tw:flex tw:min-w-0 tw:items-stretch tw:gap-1 tw:rounded-xs tw:border tw:border-status-live-border tw:bg-status-live-bg";

pub const ROW_FAILED: &'static str = "tw:flex tw:min-w-0 tw:items-stretch tw:gap-1 tw:rounded-xs tw:border tw:border-status-error-border tw:bg-transparent";

pub const ROW_SKIPPED: &'static str = "tw:flex tw:min-w-0 tw:items-stretch tw:gap-1 tw:rounded-xs tw:border tw:border-dashed tw:border-border tw:bg-transparent";

pub const ROW_AVAILABLE: &'static str = "tw:flex tw:min-w-0 tw:items-stretch tw:gap-1 tw:rounded-xs tw:border tw:border-border tw:bg-card";

pub const NAME_PLAYING: &'static str = "tw:min-w-0 tw:truncate tw:text-sm tw:font-bold tw:text-status-live-foreground";

pub const NAME_FAILED: &'static str = "tw:min-w-0 tw:truncate tw:text-sm tw:text-muted-foreground";

pub const NAME_SKIPPED: &'static str = "tw:min-w-0 tw:truncate tw:text-sm tw:text-dim-foreground";

pub const NAME_AVAILABLE: &'static str = "tw:min-w-0 tw:truncate tw:text-sm tw:text-strong-foreground";

pub const TAG_PLAYING: &'static str = "tw:flex-none tw:text-[0.55rem] tw:font-bold tw:uppercase tw:tracking-[0.12em] tw:text-status-live-foreground";

pub const TAG_FAILED: &'static str = "tw:flex-none tw:text-[0.55rem] tw:font-bold tw:uppercase tw:tracking-[0.12em] tw:text-status-error-foreground";

pub const SQUARE_ON_HELD: &'static str = "tw:h-3.5 tw:w-3.5 tw:rounded-[1px] tw:bg-status-engaged-foreground";

pub const SQUARE_ON: &'static str = "tw:h-3.5 tw:w-3.5 tw:rounded-[1px] tw:bg-muted-foreground";

pub const SQUARE_OFF_HELD: &'static str = "tw:h-3.5 tw:w-3.5 tw:rounded-[1px] tw:border tw:border-status-engaged-foreground";

pub const SQUARE_OFF: &'static str = "tw:h-3.5 tw:w-3.5 tw:rounded-[1px] tw:border tw:border-dim-foreground";

/// What an instrument without a playing pattern shows in its place.
pub const NOTHING_PLAYS: &'static str = "\u{2014}";

/// The name shown as playing: the first pattern's that is.
pub open spec fn playing_name(entries: Seq<UiPatternPickerEntry>) -> Option<Seq<char>>
    decreases entries.len(),
{
    if entries.len() == 0 {
        None
    } else if entries[0].state == UiPatternEntryState::Playing {
        Some(entries[0].name@)
    } else {
        playing_name(entries.skip(1))
    }
}

/// The name shown as playing.
pub fn now_playing(entries: &Vec<UiPatternPickerEntry>) -> (r: String)
    ensures
        r@ == match playing_name(entries@) {
            Some(name) => name,
            None => NOTHING_PLAYS@,
        },
{
    let mut at: usize = 0;
    proof {
        assert(entries@.skip(0) =~= entries@);
    }
    while at < entries.len()
        invariant
            at <= entries@.len(),
            playing_name(entries@.skip(at as int)) == playing_name(entries@),
        decreases entries.len() - at,
    {
        if entries[at].state == UiPatternEntryState::Playing {
            return entries[at].name.clone();
        }
        proof {
            assert(entries@.skip(at as int).skip(1) =~= entries@.skip(at + 1));
        }
        at += 1;
    }
    NOTHING_PLAYS.to_string()
}

/// The panel holds the channel behind the target.
pub open spec fn is_held(target: Option<UiPanelTarget>) -> bool {
    target matches Some(target) && target.engaged
}

/// Whether the panel holds the channel behind the target.
pub fn held(target: &Option<UiPanelTarget>) -> (r: bool)
    ensures
        r == is_held(*target),
{
    match target {
        Some(target) => target.engaged,
        None => false,
    }
}

/// What releasing a held channel means: there is nothing to release in one that
/// is not held.
pub fn release(target: &Option<UiPanelTarget>) -> (r: Option<PanelGesture>)
    ensures
        match r {
            Some(gesture) => is_held(*target) && gesture == (PanelGesture::ClearControl {
                target: target->0,
            }),
            None => !is_held(*target),
        },
{
    match target {
        Some(target) => if target.engaged {
            Some(PanelGesture::ClearControl { target: target.clone() })
        } else {
            None
        },
        None => None,
    }
}

/// The count over the list.
pub fn set_count(entries: usize) -> (r: String)
    ensures
        r@ == decimal(entries as nat) + " patterns"@,
{
    let mut line: String = decimal_text(entries as u64);
    line.append(" patterns");
    line
}

/// The class of a block that sends one action, or none.
pub fn action_block_class(has_action: bool) -> (r: &'static str)
    ensures
        r@ == if has_action {
            BLOCK_CLASS@
        } else {
            BLOCK_INERT_CLASS@
        },
{
    if has_action {
        BLOCK_CLASS
    } else {
        BLOCK_INERT_CLASS
    }
}

/// What the tour does.
#[derive(Clone, Copy, Debug, PartialEq, Eq, Structural)]
pub enum PlaylistTour {
    /// Stay on the playing pattern.
    Hold,
    /// Move on after each step. Times are bit patterns.
    Cycle { step_seconds: u32, fade_seconds: u32 },
}

impl PlaylistTour {
    /// Whether the tour moves on.
    pub fn touring(self) -> (r: bool)
        ensures
            r == self is Cycle,
    {
        matches!(self, PlaylistTour::Cycle { .. })
    }

    /// How long each step is, on a tour that moves on.
    pub fn step_seconds(self) -> (r: Option<u32>)
        ensures
            r == match self {
                PlaylistTour::Cycle { step_seconds, .. } => Some(step_seconds),
                PlaylistTour::Hold => None,
            },
    {
        match self {
            PlaylistTour::Cycle { step_seconds, .. } => Some(step_seconds),
            PlaylistTour::Hold => None,
        }
    }
}

/// How the tour's row is drawn.
#[derive(Clone, Debug, PartialEq, Eq)]
pub struct TourRow {
    pub switch_class: &'static str,
    pub pip_class: &'static str,
    pub title: &'static str,
    /// The switch does nothing.
    pub disabled: bool,
    /// The words beside the switch.
    pub line: String,
    /// The blocks for a shorter and a longer step are there.
    pub step_blocks: bool,
    /// The tour can be released to its authored setting.
    pub release: Option<PanelGesture>,
}

/// How the tour's row is drawn. `step_words` are the words for the step's
/// length.
pub fn tour_row(
    tour: PlaylistTour,
    step_words: &str,
    target: &Option<UiPanelTarget>,
    can_toggle: bool,
) -> (r: TourRow)
    ensures
        r.switch_class@ == if tour is Cycle {
            if is_held(*target) {
                SWITCH_TOURING_HELD@
            } else {
                SWITCH_TOURING@
            }
        } else {
            if is_held(*target) {
                SWITCH_RESTING_HELD@
            } else {
                SWITCH_RESTING@
            }
        },
        r.pip_class@ == if tour is Cycle {
            PIP_ON@
        } else {
            PIP_OFF@
        },
        r.title@ == if tour is Cycle {
            "Touring \u{2014} tap to stay on the playing pattern"@
        } else {
            "Holding \u{2014} tap to tour the patterns"@
        },
        r.disabled == !can_toggle,
        r.line@ == if tour is Cycle {
            "every "@ + step_words@
        } else {
            "staying on the playing pattern"@
        },
        r.step_blocks == tour is Cycle,
        match r.release {
            Some(gesture) => is_held(*target) && gesture == (PanelGesture::ClearControl {
                target: target->0,
            }),
            None => !is_held(*target),
        },
{
    let touring: bool = tour.touring();
    let is_engaged: bool = held(target);
    let line: String = if touring {
        let mut line: String = "every ".to_string();
        line.append(step_words);
        line
    } else {
        "staying on the playing pattern".to_string()
    };
    TourRow {
        switch_class: if touring {
            if is_engaged {
                SWITCH_TOURING_HELD
            } else {
                SWITCH_TOURING
            }
        } else {
            if is_engaged {
                SWITCH_RESTING_HELD
            } else {
                SWITCH_RESTING
            }
        },
        pip_class: if touring {
            PIP_ON
        } else {
            PIP_OFF
        },
        title: if touring {
            "Touring \u{2014} tap to stay on the playing pattern"
        } else {
            "Holding \u{2014} tap to tour the patterns"
        },
        disabled: !can_toggle,
        line,
        step_blocks: touring,
        release: release(target),
    }
}

/// How a pattern's row is drawn.
#[derive(Clone, Debug, PartialEq, Eq)]
pub struct PatternRow {
    pub row_class: &'static str,
    pub name_class: &'static str,
    /// The word beside the name, and its class.
    pub tag: Option<(&'static str, &'static str)>,
    pub title: String,
    pub current: bool,
    pub square_class: &'static str,
    pub switch_label: String,
    pub switch_disabled: bool,
}

/// What tapping a pattern's name does, in words.
pub open spec fn row_title(entry: UiPatternPickerEntry) -> Seq<char> {
    match entry.state {
        UiPatternEntryState::Playing => entry.name@ + " is playing"@,
        UiPatternEntryState::Failed => entry.name@
            + " failed to load on the device \u{2014} tap to try it again"@,
        UiPatternEntryState::Skipped => "Play "@ + entry.name@ + " (it is off in the tour)"@,
        UiPatternEntryState::Available => "Play "@ + entry.name@,
    }
}

fn row_title_text(entry: &UiPatternPickerEntry) -> (r: String)
    ensures
        r@ == row_title(*entry),
{
    match entry.state {
        UiPatternEntryState::Playing => {
            let mut title: String = entry.name.clone();
            title.append(" is playing");
            title
        },
        UiPatternEntryState::Failed => {
            let mut title: String = entry.name.clone();
            title.append(" failed to load on the device \u{2014} tap to try it again");
            title
        },
        UiPatternEntryState::Skipped => {
            let mut title: String = "Play ".to_string();
            title.append(entry.name.as_str());
            title.append(" (it is off in the tour)");
            title
        },
        UiPatternEntryState::Available => {
            let mut title: String = "Play ".to_string();
            title.append(entry.name.as_str());
            title
        },
    }
}

/// How a pattern's row is drawn. `held` says that the panel holds the switches.
pub fn pattern_row(entry: &UiPatternPickerEntry, held: bool) -> (r: PatternRow)
    ensures
        r.row_class@ == match entry.state {
            UiPatternEntryState::Playing => ROW_PLAYING@,
            UiPatternEntryState::Failed => ROW_FAILED@,
            UiPatternEntryState::Skipped => ROW_SKIPPED@,
            UiPatternEntryState::Available => ROW_AVAILABLE@,
        },
        r.name_class@ == match entry.state {
            UiPatternEntryState::Playing => NAME_PLAYING@,
            UiPatternEntryState::Failed => NAME_FAILED@,
            UiPatternEntryState::Skipped => NAME_SKIPPED@,
            UiPatternEntryState::Available => NAME_AVAILABLE@,
        },
        match entry.state {
            UiPatternEntryState::Playing => r.tag matches Some(tag) && tag.0@ == "playing"@
                && tag.1@ == TAG_PLAYING@,
            UiPatternEntryState::Failed => r.tag matches Some(tag) && tag.0@ == "failed"@
                && tag.1@ == TAG_FAILED@,
            _ => r.tag is None,
        },
        r.title@ == row_title(*entry),
        r.current == (entry.state == UiPatternEntryState::Playing),
        r.square_class@ == if entry.enabled {
            if held {
                SQUARE_ON_HELD@
            } else {
                SQUARE_ON@
            }
        } else {
            if held {
                SQUARE_OFF_HELD@
            } else {
                SQUARE_OFF@
            }
        },
        r.switch_label@ == if entry.enabled {
            entry.name@ + " is on in the tour \u{2014} tap to skip it"@
        } else {
            entry.name@ + " is off in the tour \u{2014} tap to include it"@
        },
        r.switch_disabled == !entry.can_toggle,
{
    let mut switch_label: String = entry.name.clone();
    if entry.enabled {
        switch_label.append(" is on in the tour \u{2014} tap to skip it");
    } else {
        switch_label.append(" is off in the tour \u{2014} tap to include it");
    }
    PatternRow {
        row_class: match entry.state {
            UiPatternEntryState::Playing => ROW_PLAYING,
            UiPatternEntryState::Failed => ROW_FAILED,
            UiPatternEntryState::Skipped => ROW_SKIPPED,
            UiPatternEntryState::Available => ROW_AVAILABLE,
        },
        name_class: match entry.state {
            UiPatternEntryState::Playing => NAME_PLAYING,
            UiPatternEntryState::Failed => NAME_FAILED,
            UiPatternEntryState::Skipped => NAME_SKIPPED,
            UiPatternEntryState::Available => NAME_AVAILABLE,
        },
        tag: match entry.state {
            UiPatternEntryState::Playing => Some(("playing", TAG_PLAYING)),
            UiPatternEntryState::Failed => Some(("failed", TAG_FAILED)),
            UiPatternEntryState::Skipped => None,
            UiPatternEntryState::Available => None,
        },
        title: row_title_text(entry),
        current: matches!(entry.state, UiPatternEntryState::Playing),
        square_class: if entry.enabled {
            if held {
                SQUARE_ON_HELD
            } else {
                SQUARE_ON
            }
        } else {
            if held {
                SQUARE_OFF_HELD
            } else {
                SQUARE_OFF
            }
        },
        switch_label,
        switch_disabled: !entry.can_toggle,
    }
}

} // verus!
