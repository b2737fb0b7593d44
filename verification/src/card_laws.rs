//! What the parts of a card do, said of the calls that do it: its drawers, the
//! mapping editor, a module's switch, the menu that adds a node, and a playlist's
//! strip.

use vstd::prelude::*;
use vstd::string::*;

use crate::action::{NodeCardDrawer, UiAction};
use crate::add_node::{
    add_node_row, empty_source_class, paste_outcome, shows_imports, workspace_add_class,
    AddNodeRow, PasteOutcome, PeekedHeader, UiAddNodeMenu, UiAddNodeMenuEntry,
};
use crate::card_sections::{
    card_drawers, drawer_action, every_section_has_one_place, face_body, hero_sections,
    section_container_class, section_form, section_title, CardDrawers, DrawerStates, FaceBody,
    HeroSections, SectionForm, UiSectionKind,
};
use crate::fixture_face::{
    output_section, power_readout, EditorPress, EditorState, OutputSection, PowerReadout,
    UiFixturePower,
};
use crate::module_face::{
    face_sections, hero_block, toggle_wiring, wiring_summary, FaceSections, HeroBlock,
};
use crate::node_view::{ModuleHeroProduct, UiModuleFace, UiNodeFace, UiPlainFaceKind, UiProductKind};
use crate::playlist_face::{
    add_chip_class, entry_chip, format_playlist_duration, offers_add, playlist_duration_label,
    ChipPicture, EntryChip, UiPlaylistEntry, UiPlaylistFace,
};
use crate::space_section::UiSpaceSection;
use crate::text::decimal;

verus! {

// -- sections and drawers ------------------------------------------------------------

/// A section that is not permanent folds away when its open bar is pressed and comes
/// back when its closed one is, and the words on the bar say which. A closed section
/// shows its row even where nothing can open it.
pub proof fn a_section_folds_by_its_bar(
    open: Option<bool>,
    can_toggle: bool,
    form: SectionForm,
    label: &str,
    title: Option<String>,
)
    requires
        call_ensures(section_form, (open, can_toggle), form),
        call_ensures(section_title, (form, label), title),
    ensures
        form == SectionForm::Collapsed <==> open == Some(false),
        form == SectionForm::Drawer <==> open == Some(true) && can_toggle,
        form == SectionForm::Permanent <==> open is None || (open == Some(true) && !can_toggle),
        title is Some <==> form != SectionForm::Permanent,
        open == Some(false) ==> title->Some_0@ == "Expand "@ + label@,
        open == Some(true) && can_toggle ==> title->Some_0@ == "Collapse "@ + label@,
{
}

/// Every section but the first has a line above it, and the panel's tint is added to
/// either look.
pub proof fn the_first_section_has_no_line(
    first: bool,
    plain: String,
    tinted: String,
    top: String,
    below: String,
)
    requires
        call_ensures(section_container_class, (first, false), plain),
        call_ensures(section_container_class, (first, true), tinted),
        call_ensures(section_container_class, (true, false), top),
        call_ensures(section_container_class, (false, false), below),
    ensures
        top@ == "tw:grid tw:min-w-0"@,
        below@ == "tw:grid tw:min-w-0 tw:border-t tw:border-border-strong"@,
        first ==> plain@ == top@,
        !first ==> plain@ == below@,
        tinted@.len() > plain@.len(),
        tinted@.take(plain@.len() as int) == plain@,
{
    reveal_strlit(
        " tw:bg-[linear-gradient(90deg,rgba(24,32,29,0.85),rgba(24,32,29,0.25)_60%,transparent)]",
    );
    assert(plain@ + Seq::<char>::empty() =~= plain@);
    assert(top@ =~= "tw:grid tw:min-w-0"@);
    assert(below@ =~= "tw:grid tw:min-w-0 tw:border-t tw:border-border-strong"@);
    assert(tinted@.take(plain@.len() as int) =~= plain@);
}

/// Pressing a drawer asks for that drawer of that card to be as pressed.
pub proof fn a_drawer_is_set_as_pressed(
    node: &str,
    drawer: NodeCardDrawer,
    open: bool,
    r: UiAction,
)
    requires
        call_ensures(drawer_action, (node, drawer, open), r),
    ensures
        r is SetDrawer,
        r->SetDrawer_node@ == node@,
        r->SetDrawer_drawer == drawer,
        r->SetDrawer_open == open,
{
}

/// Every generic section stands in exactly one place under a face, in the order of
/// the list: the debug sections above the drawers, the others in the advanced drawer,
/// which is there exactly where it holds one.
pub proof fn every_section_stands_once(
    has_code: bool,
    space: &Option<UiSpaceSection>,
    picker_open: bool,
    sections: &Vec<UiSectionKind>,
    states: DrawerStates,
    r: CardDrawers,
    i: int,
)
    requires
        call_ensures(card_drawers, (has_code, space, picker_open, sections, states), r),
        0 <= i < sections@.len(),
    ensures
        r.debug@.contains(i as usize) <==> sections@[i] == UiSectionKind::DebugSlots,
        r.advanced_sections@.contains(i as usize) <==> sections@[i] == UiSectionKind::Ordinary,
        forall|a: int, b: int| 0 <= a < b < r.debug@.len() ==> r.debug@[a] < r.debug@[b],
        forall|a: int, b: int|
            0 <= a < b < r.advanced_sections@.len() ==> r.advanced_sections@[a]
                < r.advanced_sections@[b],
        sections@[i] == UiSectionKind::Ordinary ==> r.advanced == Some(states.advanced_open),
{
    assert(sections.len() == sections@.len());
    every_section_has_one_place(sections@, UiSectionKind::DebugSlots, sections@.len());
    every_section_has_one_place(sections@, UiSectionKind::Ordinary, sections@.len());
    if sections@[i] == UiSectionKind::Ordinary {
        assert(r.advanced_sections@.contains(i as usize));
    }
}

/// A drawer is there where the card has something for it, and is as it was left; but
/// a mismatch or an open picker keeps the dimensionality drawer open. The advanced
/// drawer holds places of ordinary sections and nothing else.
pub proof fn a_drawer_is_as_it_was_left(
    has_code: bool,
    space: &Option<UiSpaceSection>,
    picker_open: bool,
    sections: &Vec<UiSectionKind>,
    states: DrawerStates,
    r: CardDrawers,
)
    requires
        call_ensures(card_drawers, (has_code, space, picker_open, sections, states), r),
    ensures
        has_code ==> r.code == Some(states.code_open),
        !has_code ==> r.code is None,
        r.space is Some <==> *space is Some,
        r.space == Some(false) <==> (*space matches Some(section) && section.mismatch is None)
            && !picker_open && !states.space_open,
        r.advanced is Some <==> exists|i: int|
            0 <= i < sections@.len() && #[trigger] sections@[i] == UiSectionKind::Ordinary,
        r.advanced matches Some(open) ==> open == states.advanced_open,
        forall|a: int|
            0 <= a < r.advanced_sections@.len() ==> r.advanced_sections@[a] < sections@.len(),
        forall|a: int| 0 <= a < r.debug@.len() ==> r.debug@[a] < sections@.len(),
{
    assert(sections.len() == sections@.len());
    every_section_has_one_place(sections@, UiSectionKind::DebugSlots, sections@.len());
    every_section_has_one_place(sections@, UiSectionKind::Ordinary, sections@.len());
    if r.advanced is Some {
        let place = r.advanced_sections@[0];
        assert(r.advanced_sections@.contains(place));
        assert(r.advanced_sections@.contains((place as int) as usize));
        assert(sections@[place as int] == UiSectionKind::Ordinary);
    }
    if exists|i: int|
        0 <= i < sections@.len() && #[trigger] sections@[i] == UiSectionKind::Ordinary {
        let i = choose|i: int|
            0 <= i < sections@.len() && #[trigger] sections@[i] == UiSectionKind::Ordinary;
        assert(r.advanced_sections@.contains(i as usize));
    }
}

/// Only a plain face has drawers under it, and only a shader's has code among them;
/// below a hero stands what there is something to show of.
pub proof fn only_a_shader_has_code(
    face: &UiNodeFace,
    r: FaceBody,
    controls: usize,
    has_agent: bool,
    has_provenance: bool,
    hero: HeroSections,
)
    requires
        call_ensures(face_body, (face,), r),
        call_ensures(hero_sections, (controls, has_agent, has_provenance), hero),
    ensures
        *face is Module || *face is Controls ==> !r.drawers && !r.code_drawer,
        *face is Plain ==> r.drawers,
        *face == UiNodeFace::Plain(UiPlainFaceKind::Shader) <==> r.code_drawer,
        hero.controls <==> controls != 0,
        hero.agent == has_agent,
        hero.provenance == has_provenance,
{
}

// -- the mapping editor --------------------------------------------------------------

/// The pencil turns the editor on and off, and putting it away takes it off the full
/// page; it changes nothing else.
pub proof fn the_pencil_takes_the_editor_out_and_away(state: &mut EditorState)
    requires
        call_ensures(EditorState::press, (state, EditorPress::Pencil), ()),
    ensures
        final(state).editing == !old(state).editing,
        old(state).editing ==> !final(state).expanded,
        !old(state).editing ==> final(state).expanded == old(state).expanded,
        final(state).refit == old(state).refit,
        final(state).fit_preview == old(state).fit_preview,
{
}

/// The frame toggle shows and hides the texture frame and changes nothing else.
pub proof fn the_frame_toggle_only_turns_the_frame(state: &mut EditorState)
    requires
        call_ensures(EditorState::press, (state, EditorPress::Frame), ()),
    ensures
        final(state).fit_preview == !old(state).fit_preview,
        final(state).editing == old(state).editing,
        final(state).expanded == old(state).expanded,
        final(state).refit == old(state).refit,
{
}

/// The expand toggle moves the editor between card and page, and has it fit itself
/// anew each time.
pub proof fn expanding_fits_the_editor_anew(state: &mut EditorState)
    requires
        old(state).refit < u64::MAX,
        call_ensures(EditorState::press, (state, EditorPress::Expand), ()),
    ensures
        final(state).expanded == !old(state).expanded,
        final(state).refit == old(state).refit + 1,
        final(state).editing == old(state).editing,
        final(state).fit_preview == old(state).fit_preview,
{
}

/// A card starts with its editor where asked, on the card and not yet refitted.
pub proof fn an_editor_starts_on_the_card(edit: bool, frame: bool, r: EditorState)
    requires
        call_ensures(EditorState::new, (edit, frame), r),
    ensures
        r.editing == edit,
        r.fit_preview == frame,
        !r.expanded,
        r.refit == 0,
{
}

/// The editor stands in place of the preview where the mapping can be edited and the
/// pencil is down; it fills the page only while it stands there; and it is fed live
/// colours only where there are some to be had.
pub proof fn the_editor_needs_a_mapping_to_edit(
    state: &EditorState,
    kind: UiProductKind,
    editable: bool,
    live: bool,
    native: bool,
    r: OutputSection,
)
    requires
        call_ensures(output_section, (state, kind, editable, live, native), r),
    ensures
        r.edit_open <==> editable && state.editing,
        r.full <==> r.edit_open && state.expanded,
        r.pencil <==> editable,
        r.toggle_bar <==> editable || kind == UiProductKind::Control,
        r.view_toggles <==> kind == UiProductKind::Control,
        r.feeds_live <==> r.edit_open && live && native,
        r.edit_open ==> r.pencil_title@ == "close the mapping editor"@ && r.pencil_class@
            == "ux-map-toggle ux-map-toggle-on"@,
        !r.edit_open ==> r.pencil_title@ == "edit the mapping here"@ && r.pencil_class@
            == "ux-map-toggle"@,
        state.fit_preview ==> r.frame_class@ == "ux-map-toggle ux-map-toggle-on"@,
        !state.fit_preview ==> r.frame_class@ == "ux-map-toggle"@,
        r.full ==> r.expand_title@ == "back to the card"@ && r.home_class@
            == "ux-map-home ux-map-home-full"@,
        !r.full ==> r.expand_title@ == "expand the editor to the full page"@ && r.home_class@
            == "ux-map-home"@,
{
}

/// The power readout gives the draw, the budget and the percentage as numerals, and
/// speaks of a limit exactly where there is one.
pub proof fn the_readout_gives_the_numbers(power: &UiFixturePower, r: PowerReadout)
    requires
        call_ensures(power_readout, (power,), r),
    ensures
        r.estimate@ == "\u{2248}"@ + decimal(power.estimated_draw_ma as nat),
        r.budget@ == "/"@ + decimal(power.budget_ma as nat) + " mA ("@ + decimal(
            power.percent as nat,
        ) + "%)"@,
        r.title@ == "estimated draw from the lamp type's power model \u{2014} not measured\n"@
            + decimal(power.estimated_draw_ma as nat) + " mA of "@ + decimal(
            power.budget_ma as nat,
        ) + " mA budget"@,
        r.limiting is Some <==> power.limited_to is Some,
        power.limited_to matches Some(percent) ==> r.limiting->Some_0@ == "limiting to "@ + decimal(
            percent as nat,
        ) + "%"@,
{
}

// -- a module's face -----------------------------------------------------------------

/// The wiring line counts the channels, and only one channel is in the singular.
pub proof fn the_wiring_line_counts_the_channels(channels: usize, r: String)
    requires
        call_ensures(wiring_summary, (channels,), r),
    ensures
        channels == 1 ==> r@ == "1 channel \u{00b7} writers \u{2192} readers"@,
        channels != 1 ==> r@ == decimal(channels as nat)
            + " channels \u{00b7} writers \u{2192} readers"@,
{
    reveal_strlit("1 channel \u{00b7} writers \u{2192} readers");
    reveal_strlit(" channels \u{00b7} writers \u{2192} readers");
    reveal_strlit(" \u{00b7} writers \u{2192} readers");
    reveal_strlit("channel");
    reveal_strlit("channels");
    reveal_strlit(" ");
    reveal_strlit("1");
    if channels == 1 {
        assert(decimal(1) == "1"@);
        assert(r@ =~= "1 channel \u{00b7} writers \u{2192} readers"@);
    } else {
        assert(r@ =~= decimal(channels as nat)
            + " channels \u{00b7} writers \u{2192} readers"@);
    }
}

/// A module's face has a section for each thing it has: the output where there is a
/// preview, above the panel, with the switch where there is a choice; the wiring
/// drawer, open or not, with its channels counted; and the provenance.
pub proof fn a_module_shows_what_it_has(
    face: &UiModuleFace,
    r: FaceSections,
    channels: usize,
    line: String,
)
    requires
        call_ensures(face_sections, (face,), r),
        face.wiring matches Some(wiring) ==> channels == wiring.channels@.len(),
        call_ensures(wiring_summary, (channels,), line),
    ensures
        r.output <==> face.preview is Some,
        r.panel_first <==> face.preview is None,
        face.preview is Some ==> r.hero_switch == face.hero_choice,
        face.preview is None ==> r.hero_switch is None,
        r.wiring is Some <==> face.wiring is Some,
        r.wiring matches Some(summary) ==> summary@ == line@,
        r.wiring_open == face.wiring_open,
        r.provenance <==> face.provenance is Some,
{
}

/// Pressing the wiring bar turns the drawer over, on a card; and a block of the hero's
/// switch asks for its own product, unless that is the one shown.
pub proof fn a_press_asks_for_what_is_not_shown(
    node: &Option<String>,
    open: bool,
    wiring: Option<UiAction>,
    current: ModuleHeroProduct,
    product: ModuleHeroProduct,
    block: HeroBlock,
)
    requires
        call_ensures(toggle_wiring, (node, open), wiring),
        call_ensures(hero_block, (node, current, product), block),
    ensures
        wiring is Some <==> *node is Some,
        wiring matches Some(action) ==> action is SetDrawer && action->SetDrawer_node@
            == node->Some_0@ && action->SetDrawer_drawer == NodeCardDrawer::Wiring
            && action->SetDrawer_open == !open,
        block.pressed <==> current == product,
        block.press is Some <==> *node is Some && current != product,
        block.press matches Some(action) ==> action is SetHeroProduct
            && action->SetHeroProduct_node@ == node->Some_0@ && action->SetHeroProduct_product
            == product,
        product == ModuleHeroProduct::Control ==> block.label@ == "lamps"@,
        product == ModuleHeroProduct::Visual ==> block.label@ == "raster"@,
        block.title@ == "Show the "@ + block.label@,
        current == product ==> block.class@ == crate::module_face::HERO_ACTIVE_CLASS@,
        current != product ==> block.class@ == crate::module_face::HERO_IDLE_CLASS@,
{
}

// -- the menu that adds a node -------------------------------------------------------

/// A row can be pressed exactly where nothing speaks against its kind; where
/// something does, the row stays, faded, and its title opens with the reason.
pub proof fn a_row_says_why_it_cannot_be_added(
    entry: &UiAddNodeMenuEntry,
    row_class: &str,
    faded: String,
    r: AddNodeRow,
)
    requires
        call_ensures(add_node_row, (entry, row_class), r),
        call_ensures(empty_source_class, (row_class,), faded),
    ensures
        r.disabled <==> entry.unavailable is Some,
        entry.unavailable is None ==> r.title@ == entry.summary@ && r.class@ == row_class@
            && r.annotation is None,
        entry.unavailable matches Some(reason) ==> r.title@ == reason@ + " \u{2014} "@
            + entry.summary@ && r.class@ == row_class@ + " tw:opacity-55"@ && r.annotation is Some
            && r.annotation->Some_0@ == reason@,
        faded@ == row_class@ + " tw:opacity-55"@,
{
}

/// The imports have a section where there is a pattern to import or a reason why
/// there is none.
pub proof fn imports_are_shown_or_explained(menu: &UiAddNodeMenu, r: bool)
    requires
        call_ensures(shows_imports, (menu,), r),
    ensures
        !r <==> menu.imports@ =~= Seq::<UiAddNodeMenuEntry>::empty() && menu.imports_empty is None,
{
}

/// The text is pasted as it is, and only where its header says that it holds a node;
/// a refusal names what was found instead.
pub proof fn only_a_node_is_pasted(
    text: &str,
    header: &PeekedHeader,
    node_kind: &str,
    r: PasteOutcome,
)
    requires
        call_ensures(paste_outcome, (text, header, node_kind), r),
    ensures
        r is Paste <==> (header matches PeekedHeader::Envelope { kind } && kind@ == node_kind@),
        r matches PasteOutcome::Paste { envelope } ==> envelope@ == text@,
        r matches PasteOutcome::Refuse { warning } ==> (match *header {
            PeekedHeader::Envelope { kind } => warning@ == "paste node: the clipboard holds a "@
                + kind@ + " envelope, not a node"@,
            PeekedHeader::Unreadable { error } => warning@ == "paste node: "@ + error@,
        }),
{
}

/// An open menu shows on its button: the resting look with something added.
pub proof fn an_open_menu_shows_on_its_button(
    rest: String,
    open: String,
    chip: String,
    chip_open: String,
)
    requires
        call_ensures(workspace_add_class, (false,), rest),
        call_ensures(workspace_add_class, (true,), open),
        call_ensures(add_chip_class, (false,), chip),
        call_ensures(add_chip_class, (true,), chip_open),
    ensures
        rest@ == crate::add_node::ADD_NODE_CLASS@,
        open@ == rest@ + " tw:bg-card-muted tw:text-soft-foreground"@,
        chip@ == crate::playlist_face::ADD_CHIP@,
        chip_open@ == chip@
            + " tw:border-solid tw:border-border-strong tw:text-strong-foreground"@,
{
}

// -- a playlist's strip --------------------------------------------------------------

/// A duration reads as minutes, a colon and two digits of seconds, which together are
/// the whole seconds of the time.
pub proof fn a_duration_reads_as_its_seconds(duration_ms: u64, r: String, minutes: nat, seconds: nat)
    requires
        call_ensures(format_playlist_duration, (duration_ms,), r),
        seconds < 60,
        (minutes * 60 + seconds) * 1000 <= duration_ms < (minutes * 60 + seconds + 1) * 1000,
    ensures
        seconds >= 10 ==> r@ == decimal(minutes) + ":"@ + decimal(seconds),
        seconds < 10 ==> r@ == decimal(minutes) + ":0"@ + decimal(seconds),
{
    let total = (duration_ms / 1000) as nat;
    assert(total == minutes * 60 + seconds);
    assert(total / 60 == minutes);
    assert(total % 60 == seconds);
    reveal_strlit(":");
    reveal_strlit(":0");
    reveal_strlit("0");
    if seconds < 10 {
        assert(":"@ + "0"@ =~= ":0"@);
        assert(r@ =~= decimal(minutes) + ":0"@ + decimal(seconds));
    } else {
        assert(r@ =~= decimal(minutes) + ":"@ + decimal(seconds));
    }
}

/// An entry's column gives its duration; one without waits, and says so where it is a
/// trigger that it waits for.
pub proof fn an_entry_says_how_long_it_plays(
    entry: &UiPlaylistEntry,
    r: String,
    duration_ms: u64,
    duration: String,
)
    requires
        call_ensures(playlist_duration_label, (entry,), r),
        call_ensures(format_playlist_duration, (duration_ms,), duration),
        entry.duration_ms matches Some(ms) ==> ms == duration_ms,
    ensures
        entry.duration_ms is Some ==> r@ == duration@,
        entry.duration_ms is None && entry.cue ==> r@ == "hold"@,
        entry.duration_ms is None && !entry.cue ==> r@.len() == 0,
{
}

/// An entry is marked exactly where its key is the playing one's, can be pressed
/// exactly where it can be selected and somebody listens, and shows its snapshot where
/// there is one.
pub proof fn only_the_playing_entry_is_marked(
    face: &UiPlaylistFace,
    entry: &UiPlaylistEntry,
    sends: bool,
    r: EntryChip,
    duration: String,
)
    requires
        call_ensures(entry_chip, (face, entry, sends), r),
        call_ensures(playlist_duration_label, (entry,), duration),
    ensures
        r.active <==> (face.active matches Some(key) && key == entry.key),
        r.select_title is Some <==> entry.selectable && sends,
        r.select_title matches Some(title) ==> title@ == "Select "@ + entry.name@,
        entry.has_thumb ==> r.picture == (ChipPicture::Snapshot { badged: r.active }),
        !entry.has_thumb && r.active ==> r.picture == ChipPicture::Placard,
        !entry.has_thumb && !r.active ==> r.picture == ChipPicture::Blank,
        r.duration@ == duration@,
        r.active ==> r.label_class@ == crate::playlist_face::CHIP_LABEL_ACTIVE@,
        !r.active ==> r.label_class@ == crate::playlist_face::CHIP_LABEL_PLAIN@,
        !(entry.selectable && sends) && r.active ==> r.class@ == crate::playlist_face::CHIP_ACTIVE@,
        !(entry.selectable && sends) && !r.active ==> r.class@
            == crate::playlist_face::CHIP_PLAIN@,
        entry.selectable && sends && r.active ==> r.class@ == crate::playlist_face::CHIP_ACTIVE@
            + crate::playlist_face::CHIP_BUTTON@,
        entry.selectable && sends && !r.active ==> r.class@ == crate::playlist_face::CHIP_PLAIN@
            + crate::playlist_face::CHIP_BUTTON@,
{
    assert(crate::playlist_face::CHIP_ACTIVE@ + Seq::<char>::empty()
        =~= crate::playlist_face::CHIP_ACTIVE@);
    assert(crate::playlist_face::CHIP_PLAIN@ + Seq::<char>::empty()
        =~= crate::playlist_face::CHIP_PLAIN@);
}

/// The strip offers to add an entry only with a menu to choose from and somebody to
/// send the choice to.
pub proof fn adding_takes_a_menu_and_a_listener(has_menu: bool, sends: bool, r: bool)
    requires
        call_ensures(offers_add, (has_menu, sends), r),
    ensures
        r <==> has_menu && sends,
{
}

} // verus!
