//! A module's face: its hero product, its panel and its wiring drawer.

use vstd::prelude::*;
use vstd::string::*;

use crate::action::{ActionModel, NodeCardDrawer, UiAction};
use crate::node_view::{ModuleHeroProduct, UiModuleFace};
use crate::text::{decimal, decimal_text};

verus! {

/// The wiring drawer's one-line summary.
pub open spec fn wiring_words(channels: nat) -> Seq<char> {
    decimal(channels) + " "@ + if channels == 1 {
        "channel"@
    } else {
        "channels"@
    } + " \u{00b7} writers \u{2192} readers"@
}

/// The wiring drawer's one-line summary.
pub fn wiring_summary(channels: usize) -> (r: String)
    ensures
        r@ == wiring_words(channels as nat),
{
    let mut line: String = decimal_text(channels as u64);
    line.append(" ");
    if channels == 1 {
        line.append("channel");
    } else {
        line.append("channels");
    }
    line.append(" \u{00b7} writers \u{2192} readers");
    line
}

/// Which sections a module's face has.
#[derive(Clone, Debug, PartialEq, Eq)]
pub struct FaceSections {
    pub output: bool,
    /// The hero can be switched between the module's two products.
    pub hero_switch: Option<ModuleHeroProduct>,
    /// The panel is the first section.
    pub panel_first: bool,
    /// The wiring drawer's summary, where there is a drawer.
    pub wiring: Option<String>,
    pub wiring_open: bool,
    pub provenance: bool,
}

/// Which sections a module's face has: the panel always, the others where there
/// is something to show.
pub fn face_sections(face: &UiModuleFace) -> (r: FaceSections)
    ensures
        r.output == face.preview is Some,
        r.hero_switch == if face.preview is Some {
            face.hero_choice
        } else {
            None
        },
        r.panel_first == face.preview is None,
        match r.wiring {
            Some(summary) => face.wiring matches Some(wiring) && summary@ == wiring_words(
                wiring.channels@.len(),
            ),
            None => face.wiring is None,
        },
        r.wiring_open == face.wiring_open,
        r.provenance == face.provenance is Some,
{
    FaceSections {
        output: face.preview.is_some(),
        hero_switch: if face.preview.is_some() {
            face.hero_choice
        } else {
            None
        },
        panel_first: face.preview.is_none(),
        wiring: match &face.wiring {
            Some(wiring) => Some(wiring_summary(wiring.channels.len())),
            None => None,
        },
        wiring_open: face.wiring_open,
        provenance: face.provenance.is_some(),
    }
}

/// What pressing the wiring drawer's bar does: turn it over, on a face that
/// stands on a card.
pub fn toggle_wiring(node: &Option<String>, open: bool) -> (r: Option<UiAction>)
    ensures
        match r {
            Some(action) => node matches Some(node) && action@ == (ActionModel::SetDrawer {
                node: node@,
                drawer: NodeCardDrawer::Wiring,
                open: !open,
            }),
            None => node is None,
        },
{
    match node {
        Some(node) => Some(
            UiAction::SetDrawer {
                node: node.clone(),
                drawer: NodeCardDrawer::Wiring,
                open: !open,
            },
        ),
        None => None,
    }
}

pub const HERO_ACTIVE_CLASS: &'static str = "tw:flex tw:cursor-default tw:items-center tw:gap-1 tw:border-0 tw:bg-card-subtle tw:px-1.5 tw:py-1 tw:text-[0.6rem] tw:font-bold tw:uppercase tw:tracking-[0.08em] tw:text-strong-foreground";

pub const HERO_IDLE_CLASS: &'static str = "tw:flex tw:cursor-pointer tw:items-center tw:gap-1 tw:border-0 tw:bg-transparent tw:px-1.5 tw:py-1 tw:text-[0.6rem] tw:font-bold tw:uppercase tw:tracking-[0.08em] tw:text-muted-foreground tw:transition-colors tw:hover:bg-card-muted tw:hover:text-strong-foreground tw:motion-reduce:transition-none";

/// The class of a block of the hero's switch: one geometry, two weights.
pub fn hero_block_class(active: bool) -> (r: &'static str)
    ensures
        r@ == if active {
            HERO_ACTIVE_CLASS@
        } else {
            HERO_IDLE_CLASS@
        },
{
    if active {
        HERO_ACTIVE_CLASS
    } else {
        HERO_IDLE_CLASS
    }
}

/// What a product is called on its block.
pub open spec fn hero_label(product: ModuleHeroProduct) -> Seq<char> {
    match product {
        ModuleHeroProduct::Control => "lamps"@,
        ModuleHeroProduct::Visual => "raster"@,
    }
}

/// One block of the hero's switch.
#[derive(Clone, Debug, PartialEq, Eq)]
pub struct HeroBlock {
    pub label: &'static str,
    pub title: String,
    pub class: &'static str,
    pub pressed: bool,
    /// What pressing it does.
    pub press: Option<UiAction>,
}

/// One block of the hero's switch. A block names its own product, so the active
/// one does nothing when pressed.
pub fn hero_block(
    node: &Option<String>,
    current: ModuleHeroProduct,
    product: ModuleHeroProduct,
) -> (r: HeroBlock)
    ensures
        r.label@ == hero_label(product),
        r.title@ == "Show the "@ + hero_label(product),
        r.class@ == if current == product {
            HERO_ACTIVE_CLASS@
        } else {
            HERO_IDLE_CLASS@
        },
        r.pressed == (current == product),
        match r.press {
            Some(action) => {
                &&& current != product
                &&& node matches Some(node)
                &&& action@ == (ActionModel::SetHeroProduct { node: node@, product })
            },
            None => current == product || node is None,
        },
{
    let active: bool = current == product;
    let label: &'static str = match product {
        ModuleHeroProduct::Control => "lamps",
        ModuleHeroProduct::Visual => "raster",
    };
    let mut title: String = "Show the ".to_string();
    title.append(label);
    let press: Option<UiAction> = match node {
        Some(node) => if active {
            None
        } else {
            Some(UiAction::SetHeroProduct { node: node.clone(), product })
        },
        None => None,
    };
    HeroBlock { label, title, class: hero_block_class(active), pressed: active, press }
}

} // verus!
