//! The playlist's face: a strip of its entries, the playing one marked.

use vstd::prelude::*;
use vstd::string::*;

use crate::tape::{two_digit_text, two_digits};
use crate::text::{decimal, decimal_text};

verus! {

/// One entry of a playlist.
#[derive(Clone, Debug, PartialEq, Eq)]
pub struct UiPlaylistEntry {
    pub key: u32,
    pub name: String,
    pub duration_ms: Option<u64>,
    /// It waits for a trigger.
    pub cue: bool,
    /// A snapshot of it has come in.
    pub has_thumb: bool,
    /// It can be selected.
    pub selectable: bool,
}

/// The entries of a playlist and the key of the one that plays.
#[derive(Clone, Debug, PartialEq, Eq)]
pub struct UiPlaylistFace {
    pub entries: Vec<UiPlaylistEntry>,
    pub active: Option<u32>,
}

/// Minutes and seconds of a time in milliseconds, the seconds in two digits.
pub open spec fn minutes_and_seconds(duration_ms: nat) -> Seq<char> {
    decimal(duration_ms / 1000 / 60) + ":"@ + two_digits(duration_ms / 1000 % 60)
}

/// Minutes and seconds of a time in milliseconds: `4:30` for 270000.
pub fn format_playlist_duration(duration_ms: u64) -> (r: String)
    ensures
        r@ == minutes_and_seconds(duration_ms as nat),
{
    let total_seconds: u64 = duration_ms / 1000;
    let mut out: String = decimal_text(total_seconds / 60);
    out.append(":");
    out.append(two_digit_text(total_seconds % 60).as_str());
    out
}

/// What an entry's duration column reads: its duration where it has one, `hold`
/// where it waits for a trigger, and nothing otherwise.
pub fn playlist_duration_label(entry: &UiPlaylistEntry) -> (r: String)
    ensures
        r@ == match entry.duration_ms {
            Some(duration_ms) => minutes_and_seconds(duration_ms as nat),
            None => if entry.cue {
                "hold"@
            } else {
                Seq::empty()
            },
        },
{
    match entry.duration_ms {
        Some(duration_ms) => format_playlist_duration(duration_ms),
        None => if entry.cue {
            "hold".to_string()
        } else {
            String::new()
        },
    }
}

pub const CHIP_ACTIVE: &'static str = "tw:w-28 tw:flex-none tw:overflow-hidden tw:rounded-sm tw:border tw:border-status-live-border tw:bg-card-subtle tw:ring-1 tw:ring-status-live-border";

pub const CHIP_PLAIN: &'static str = "tw:w-28 tw:flex-none tw:overflow-hidden tw:rounded-sm tw:border tw:border-border-muted tw:bg-card-subtle";

pub const CHIP_LABEL_ACTIVE: &'static str = "tw:flex tw:items-center tw:gap-1 tw:px-1.5 tw:py-1 tw:text-[11px] tw:text-status-live-foreground";

pub const CHIP_LABEL_PLAIN: &'static str = "tw:flex tw:items-center tw:gap-1 tw:px-1.5 tw:py-1 tw:text-[11px] tw:text-muted-foreground";

pub const CHIP_BUTTON: &'static str = " tw:cursor-pointer tw:p-0 tw:text-left tw:hover:border-border";

/// What stands in an entry's picture.
#[derive(Clone, Copy, Debug, PartialEq, Eq, Structural)]
pub enum ChipPicture {
    /// The snapshot, badged where the entry plays.
    Snapshot { badged: bool },
    /// A placard that says the entry plays.
    Placard,
    Blank,
}

/// How an entry's chip is drawn.
#[derive(Clone, Debug, PartialEq, Eq)]
pub struct EntryChip {
    pub active: bool,
    pub class: String,
    pub label_class: &'static str,
    pub picture: ChipPicture,
    pub duration: String,
    /// The chip's title, where pressing it selects the entry.
    pub select_title: Option<String>,
}

/// How an entry's chip is drawn. `sends` says that there is somebody to send its
/// selection to.
pub fn entry_chip(face: &UiPlaylistFace, entry: &UiPlaylistEntry, sends: bool) -> (r: EntryChip)
    ensures
        r.active == (face.active == Some(entry.key)),
        r.class@ == (if r.active {
            CHIP_ACTIVE@
        } else {
            CHIP_PLAIN@
        }) + (if entry.selectable && sends {
            CHIP_BUTTON@
        } else {
            Seq::empty()
        }),
        r.label_class@ == if r.active {
            CHIP_LABEL_ACTIVE@
        } else {
            CHIP_LABEL_PLAIN@
        },
        r.picture == if entry.has_thumb {
            ChipPicture::Snapshot { badged: r.active }
        } else if r.active {
            ChipPicture::Placard
        } else {
            ChipPicture::Blank
        },
        r.duration@ == match entry.duration_ms {
            Some(duration_ms) => minutes_and_seconds(duration_ms as nat),
            None => if entry.cue {
                "hold"@
            } else {
                Seq::empty()
            },
        },
        match r.select_title {
            Some(title) => entry.selectable && sends && title@ == "Select "@ + entry.name@,
            None => !(entry.selectable && sends),
        },
{
    let active: bool = match face.active {
        Some(key) => key == entry.key,
        None => false,
    };
    let mut class: String = if active {
        CHIP_ACTIVE.to_string()
    } else {
        CHIP_PLAIN.to_string()
    };
    let mut select_title: Option<String> = None;
    if entry.selectable && sends {
        class.append(CHIP_BUTTON);
        let mut title: String = "Select ".to_string();
        title.append(entry.name.as_str());
        select_title = Some(title);
    }
    EntryChip {
        active,
        class,
        label_class: if active {
            CHIP_LABEL_ACTIVE
        } else {
            CHIP_LABEL_PLAIN
        },
        picture: if entry.has_thumb {
            ChipPicture::Snapshot { badged: active }
        } else if active {
            ChipPicture::Placard
        } else {
            ChipPicture::Blank
        },
        duration: playlist_duration_label(entry),
        select_title,
    }
}

pub const ADD_CHIP: &'static str = "tw:grid tw:w-14 tw:flex-none tw:cursor-pointer tw:appearance-none tw:content-center tw:justify-items-center tw:gap-1 tw:rounded-sm tw:border tw:border-dashed tw:border-border tw:bg-transparent tw:px-1 tw:py-2 tw:text-subtle-foreground tw:transition-colors tw:hover:border-border-strong tw:hover:text-strong-foreground";

pub const ADD_CHIP_OPEN: &'static str = " tw:border-solid tw:border-border-strong tw:text-strong-foreground";

/// The class of the chip that adds an entry, at rest or with the menu open.
pub fn add_chip_class(open: bool) -> (r: String)
    ensures
        r@ == if open {
            ADD_CHIP@ + ADD_CHIP_OPEN@
        } else {
            ADD_CHIP@
        },
{
    let mut class: String = ADD_CHIP.to_string();
    if open {
        class.append(ADD_CHIP_OPEN);
    }
    class
}

/// Whether the strip ends with the chip that adds an entry: it takes a menu and
/// somebody to send the choice to.
pub fn offers_add(has_menu: bool, sends: bool) -> (r: bool)
    ensures
        r == (has_menu && sends),
{
    has_menu && sends
}

} // verus!
