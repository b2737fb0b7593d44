//! The dimensionality section: in which space a shader renders, and how a
//! fixture shows sources of another.
//!
//! One section, two sides. A shader declares its space and how it is shown in
//! the other one; a fixture chooses how to show strips. Every gesture here is an
//! edit that the generic rows could have sent.

use vstd::prelude::*;
use vstd::string::*;

use crate::action::{action_models, ActionModel, UiAction};
use crate::panel::address_opt;
use crate::slot::{is_field_name, LpValue, LpValueView, ProjectSlotAddress, SlotAddressView};
use crate::text::same_text;

verus! {

// -- wording -----------------------------------------------------------------------

pub const SPACE_SECTION_LABEL: &'static str = "dimensionality";

pub const PRODUCER_IN_2D_LABEL: &'static str = "show in 2D by";

pub const PRODUCER_IN_1D_LABEL: &'static str = "show in 1D by";

pub const CONSUMER_PRIMARY_LABEL: &'static str = "show 1D sources by";

pub const SPACE_ONE_D: &'static str = "1D";

pub const SPACE_TWO_D: &'static str = "2D";

pub const SHAPE_EXTRUDE_X: &'static str = "extrude-x";

pub const SHAPE_EXTRUDE_Y: &'static str = "extrude-y";

pub const SHAPE_RADIAL: &'static str = "radial";

pub const SHAPE_ANGULAR: &'static str = "angular";

pub const MODIFIER_MIRROR: &'static str = "mirror";

pub const MODIFIER_FLIP: &'static str = "flip";

pub const MODIFIER_MIRRORED: &'static str = "mirrored";

pub const MODIFIER_FLIPPED: &'static str = "flipped";

pub const PROJECTION_CENTRE_SCANLINE: &'static str = "centre scanline";

pub const PROJECTION_EXTRUDE_DEFAULT: &'static str = "extrude \u{00b7} default";

pub const CONSUMER_FOLLOW: &'static str = "follow the source";

pub const CONSUMER_ALONG_WIRE: &'static str = "along the wire";

/// The name of the choice that is a switch of its own and no variant of the
/// policy.
pub const ALONG_WIRE_VARIANT: &'static str = "AlongWire";

pub const MIRROR_TITLE: &'static str = "fold at the middle — out and back";

pub const FLIP_TITLE: &'static str = "reverse the strip";

pub const WIRE_FORWARD: &'static str = "forward";

pub const WIRE_REVERSED: &'static str = "reversed";

pub const HINT_WIRE_FORWARD: &'static str = "wire order, as wired";

pub const HINT_WIRE_REVERSED: &'static str = "wire order, read back to front";

pub const HINT_FOLLOW: &'static str = "each source projects the way it declares";

pub const HINT_ALONG_WIRE: &'static str = "run in wire order — the map doesn't apply";

pub const HINT_EXTRUDE_X: &'static str = "the strip, stretched down";

pub const HINT_EXTRUDE_Y: &'static str = "the strip, stretched across";

pub const HINT_RADIAL: &'static str = "the strip, out from the centre";

pub const HINT_ANGULAR: &'static str = "the strip, swept around";

pub const HINT_CENTRE_SCANLINE: &'static str = "the texture's centre row, read as a strip";

pub const PRODUCER_HINT_ONE_D: &'static str = "This shader renders along a strip.";

pub const PRODUCER_HINT_TWO_D: &'static str = "This shader renders in texture space.";

pub const CONSUMER_HINT_FOLLOW: &'static str = "1D sources project the way they declare.";

pub const CONSUMER_HINT_OVERRIDE: &'static str = "This fixture overrides what 1D sources declare.";

pub const CONSUMER_HINT_ALONG_WIRE: &'static str = "1D patterns run along the wire order — the map doesn't apply.";

pub const LADDER_PRODUCER: &'static str = "A fixture that overrides its 1D sources wins over this.";

pub const MISMATCH_TITLE: &'static str = "This declaration doesn't match the code.";

pub const MISMATCH_FIX: &'static str = "Change the declaration here, or rename the entry in the code drawer.";

pub const ENTRY_ONE_D: &'static str = "render_1d";

pub const ENTRY_TWO_D: &'static str = "render_2d";

pub const BADGE_TITLE: &'static str = "The space this shader renders in";

pub const PREVIEW_SPACES_TITLE_ONE_D: &'static str = "preview along a 1D strip";

pub const PREVIEW_SPACES_TITLE_TWO_D: &'static str = "preview in 2D texture space";

pub const PREVIEW_SPACES_LAST_ON: &'static str = "one preview space has to stay on";

pub const ORIGIN_DECLARED: &'static str = "declared";

pub const ORIGIN_FORCED: &'static str = "forced";

pub const ROW_LABEL_CLASS: &'static str = "tw:w-28 tw:flex-none tw:text-[0.66rem] tw:font-bold tw:uppercase tw:leading-none tw:tracking-[0.08em] tw:text-subtle-foreground";

pub const HINT_CLASS: &'static str = "tw:m-0 tw:text-[11px] tw:leading-snug tw:text-dim-foreground";

pub const LADDER_CLASS: &'static str = "tw:m-0 tw:text-[11px] tw:leading-snug tw:text-subtle-foreground";

pub const TILE_GRID_CLASS: &'static str = "tw:grid tw:min-w-0 tw:grid-cols-[repeat(auto-fill,minmax(7.5rem,1fr))] tw:gap-1.5";

pub const TILE_CHECK_CLASS: &'static str = "tw:absolute tw:right-1 tw:top-1 tw:inline-flex tw:h-4 tw:w-4 tw:items-center tw:justify-center tw:rounded-pill tw:bg-accent tw:text-accent-foreground";

// -- data --------------------------------------------------------------------------

/// The spaces a picture can be rendered in.
#[derive(Clone, Copy, Debug, PartialEq, Eq, Structural)]
pub enum UiVisualSpace {
    OneD,
    TwoD,
}

/// The shapes that lay a strip out in texture space.
#[derive(Clone, Copy, Debug, PartialEq, Eq, Structural)]
pub enum UiProjectionShape {
    ExtrudeX,
    ExtrudeY,
    Radial,
    Angular,
}

/// A shape with its two modifiers: mirror folds the strip at its middle, flip
/// reverses it.
#[derive(Clone, Copy, Debug, PartialEq, Eq, Structural)]
pub struct UiCellProjection {
    pub shape: UiProjectionShape,
    pub mirror: bool,
    pub flip: bool,
}

impl UiCellProjection {
    /// The shape without modifiers.
    pub fn plain(shape: UiProjectionShape) -> (r: Self)
        ensures
            r == plain_projection(shape),
    {
        UiCellProjection { shape, mirror: false, flip: false }
    }
}

/// The shape without modifiers.
pub open spec fn plain_projection(shape: UiProjectionShape) -> UiCellProjection {
    UiCellProjection { shape, mirror: false, flip: false }
}

/// Who decided on a projection.
#[derive(Clone, Copy, Debug, PartialEq, Eq, Structural)]
pub enum UiProjectionOrigin {
    Declared,
    Forced,
}

/// Whose section it is: the one that renders, or the one that shows.
#[derive(Clone, Copy, Debug, PartialEq, Eq, Structural)]
pub enum UiSpaceSide {
    Producer,
    Consumer,
}

/// What a row of the section answers.
#[derive(Clone, Copy, Debug, PartialEq, Eq, Structural)]
pub enum UiSpaceCellRole {
    Primary,
    ProducerIn2d,
    ProducerIn1d,
}

/// One choice of a row.
#[derive(Clone, Debug, PartialEq, Eq)]
pub struct UiSpaceChoice {
    pub variant: String,
    pub label: String,
    pub projection: Option<UiCellProjection>,
    pub selected: bool,
}

/// A switch of a row.
#[derive(Clone, Debug, PartialEq, Eq)]
pub struct UiSpaceBoolRow {
    pub value: bool,
    pub address: Option<ProjectSlotAddress>,
    pub editable: bool,
}

/// The two modifier switches of a row.
#[derive(Clone, Debug, PartialEq, Eq)]
pub struct UiSpaceModifiers {
    pub mirror: UiSpaceBoolRow,
    pub flip: UiSpaceBoolRow,
}

/// Which way the wire is read.
#[derive(Clone, Debug, PartialEq, Eq)]
pub struct UiWireDirectionRow {
    pub reversed: bool,
    pub address: Option<ProjectSlotAddress>,
    pub editable: bool,
}

/// One row: what it answers, what is chosen, and what could be.
#[derive(Clone, Debug, PartialEq, Eq)]
pub struct UiSpaceCell {
    pub role: UiSpaceCellRole,
    pub label: String,
    pub active: String,
    pub active_label: String,
    pub choices: Vec<UiSpaceChoice>,
    pub address: Option<ProjectSlotAddress>,
    pub editable: bool,
    pub modifiers: Option<UiSpaceModifiers>,
    pub wire_direction: Option<UiWireDirectionRow>,
    pub strip_order: Option<UiSpaceBoolRow>,
}

/// The declaration and the code disagree.
#[derive(Clone, Debug, PartialEq, Eq)]
pub struct UiSpaceMismatch {
    pub declared: UiVisualSpace,
    pub entry: UiVisualSpace,
    pub message: String,
}

/// The whole section.
#[derive(Clone, Debug, PartialEq, Eq)]
pub struct UiSpaceSection {
    pub side: UiSpaceSide,
    pub primary: UiSpaceCell,
    pub declared_space: Option<UiVisualSpace>,
    pub cells: Vec<UiSpaceCell>,
    pub mismatch: Option<UiSpaceMismatch>,
}

/// In which space a preview was rendered and how it got there.
#[derive(Clone, Copy, Debug, PartialEq, Eq, Structural)]
pub struct UiVisualProductSpace {
    pub space: UiVisualSpace,
    pub projection: Option<UiCellProjection>,
    pub origin: Option<UiProjectionOrigin>,
    pub primary: UiVisualSpace,
}

/// The first row of a role, or the number of rows.
pub open spec fn first_of_role(cells: Seq<UiSpaceCell>, role: UiSpaceCellRole, from: int) -> int
    decreases cells.len() - from,
{
    if from >= cells.len() || cells[from].role == role {
        from
    } else {
        first_of_role(cells, role, from + 1)
    }
}

impl UiSpaceCell {
    /// Whether there is anything to choose between.
    pub fn is_choosable(&self) -> (r: bool)
        ensures
            r == (self.choices@.len() > 1),
    {
        self.choices.len() > 1
    }
}

impl UiSpaceSection {
    /// The row that answers `role`.
    pub open spec fn row_of(self, role: UiSpaceCellRole) -> Option<UiSpaceCell> {
        let at = first_of_role(self.cells@, role, 0);
        if at < self.cells@.len() {
            Some(self.cells@[at])
        } else {
            None
        }
    }

    /// The row that answers `role`, if there is one.
    pub fn cell(&self, role: UiSpaceCellRole) -> (r: Option<&UiSpaceCell>)
        ensures
            match self.row_of(role) {
                Some(cell) => r == Some(&cell),
                None => r is None,
            },
    {
        let mut at: usize = 0;
        while at < self.cells.len()
            invariant
                at <= self.cells.len(),
                first_of_role(self.cells@, role, 0) == first_of_role(self.cells@, role, at as int),
            decreases self.cells.len() - at,
        {
            if self.cells[at].role == role {
                return Some(&self.cells[at]);
            }
            at += 1;
        }
        None
    }
}

// -- variants ------------------------------------------------------------------------

/// The variants that have words of their own.
#[derive(Clone, Copy, Debug, PartialEq, Eq, Structural)]
pub enum SpaceVariant {
    OneD,
    TwoD,
    Auto,
    AlongWire,
    Default,
    Shape(UiProjectionShape),
    Other,
}

/// The variant that a name stands for.
pub open spec fn variant_named(name: Seq<char>) -> SpaceVariant {
    if name == "OneD"@ {
        SpaceVariant::OneD
    } else if name == "TwoD"@ {
        SpaceVariant::TwoD
    } else if name == "Auto"@ {
        SpaceVariant::Auto
    } else if name == ALONG_WIRE_VARIANT@ {
        SpaceVariant::AlongWire
    } else if name == "Default"@ {
        SpaceVariant::Default
    } else if name == "ExtrudeX"@ {
        SpaceVariant::Shape(UiProjectionShape::ExtrudeX)
    } else if name == "ExtrudeY"@ {
        SpaceVariant::Shape(UiProjectionShape::ExtrudeY)
    } else if name == "Radial"@ {
        SpaceVariant::Shape(UiProjectionShape::Radial)
    } else if name == "Angular"@ {
        SpaceVariant::Shape(UiProjectionShape::Angular)
    } else {
        SpaceVariant::Other
    }
}

/// The variant that a name stands for.
pub fn space_variant(name: &str) -> (r: SpaceVariant)
    ensures
        r == variant_named(name@),
{
    if same_text(name, "OneD") {
        SpaceVariant::OneD
    } else if same_text(name, "TwoD") {
        SpaceVariant::TwoD
    } else if same_text(name, "Auto") {
        SpaceVariant::Auto
    } else if same_text(name, ALONG_WIRE_VARIANT) {
        SpaceVariant::AlongWire
    } else if same_text(name, "Default") {
        SpaceVariant::Default
    } else if same_text(name, "ExtrudeX") {
        SpaceVariant::Shape(UiProjectionShape::ExtrudeX)
    } else if same_text(name, "ExtrudeY") {
        SpaceVariant::Shape(UiProjectionShape::ExtrudeY)
    } else if same_text(name, "Radial") {
        SpaceVariant::Shape(UiProjectionShape::Radial)
    } else if same_text(name, "Angular") {
        SpaceVariant::Shape(UiProjectionShape::Angular)
    } else {
        SpaceVariant::Other
    }
}

// -- edits ---------------------------------------------------------------------------

/// The switch that makes strips run along the wire, set to `on`, where there is
/// one.
pub open spec fn strip_edit(strip: Option<SlotAddressView>, on: bool) -> Seq<ActionModel> {
    match strip {
        Some(address) => seq![ActionModel::SetValue { address, value: LpValueView::Bool(on) }],
        None => Seq::empty(),
    }
}

/// Putting in the variant called `name`, where it can be one.
pub open spec fn ensure_variant(address: SlotAddressView, name: Seq<char>) -> Seq<ActionModel> {
    if is_field_name(name) {
        seq![ActionModel::EnsurePresent { address: address.field(name) }]
    } else {
        Seq::empty()
    }
}

/// The edits of one choice. A fixture's own choice settles the wire switch
/// first: a policy behind a switch that is on would have no effect.
pub open spec fn choice_edits(
    side: UiSpaceSide,
    role: UiSpaceCellRole,
    address: SlotAddressView,
    strip: Option<SlotAddressView>,
    variant: Seq<char>,
) -> Seq<ActionModel> {
    if side == UiSpaceSide::Consumer && role == UiSpaceCellRole::Primary {
        if variant_named(variant) == SpaceVariant::AlongWire {
            strip_edit(strip, true)
        } else if variant_named(variant) == SpaceVariant::Auto {
            strip_edit(strip, false) + seq![
                ActionModel::EnsurePresent { address: address.field("Auto"@) },
            ]
        } else {
            let policy = address.field("Policy"@);
            strip_edit(strip, false) + seq![
                ActionModel::EnsurePresent { address: policy },
            ] + ensure_variant(
                policy.field("from_1d"@).field("Project"@).field("shape"@),
                variant,
            ) + seq![
                ActionModel::SetValue {
                    address: policy.field("force"@),
                    value: LpValueView::Bool(true),
                },
            ]
        }
    } else {
        ensure_variant(address, variant)
    }
}

fn push_strip_edit(actions: &mut Vec<UiAction>, strip: Option<&ProjectSlotAddress>, on: bool)
    ensures
        action_models(final(actions)@) == action_models(old(actions)@) + strip_edit(
            match strip {
                Some(address) => Some(address@),
                None => None,
            },
            on,
        ),
{
    let ghost before = action_models(actions@);
    if let Some(address) = strip {
        actions.push(UiAction::SetValue { address: address.clone(), value: LpValue::Bool(on) });
    }
    assert(action_models(actions@) =~= before + strip_edit(
        match strip {
            Some(address) => Some(address@),
            None => None,
        },
        on,
    ));
}

fn push_variant(actions: &mut Vec<UiAction>, address: &ProjectSlotAddress, name: &str)
    ensures
        action_models(final(actions)@) == action_models(old(actions)@) + ensure_variant(
            address@,
            name@,
        ),
{
    let ghost before = action_models(actions@);
    if let Some(target) = address.child_field(name) {
        actions.push(UiAction::EnsurePresent { address: target });
    }
    assert(action_models(actions@) =~= before + ensure_variant(address@, name@));
}

proof fn policy_names_are_field_names()
    ensures
        is_field_name("Auto"@),
        is_field_name("Policy"@),
        is_field_name("from_1d"@),
        is_field_name("Project"@),
        is_field_name("shape"@),
        is_field_name("force"@),
{
    reveal_strlit("Auto");
    reveal_strlit("Policy");
    reveal_strlit("from_1d");
    reveal_strlit("Project");
    reveal_strlit("shape");
    reveal_strlit("force");
}

/// The shape row of a fixture's policy.
fn policy_shape(policy: &ProjectSlotAddress) -> (r: Option<ProjectSlotAddress>)
    ensures
        r matches Some(address) && address@ == policy@.field("from_1d"@).field("Project"@).field(
            "shape"@,
        ),
{
    proof {
        policy_names_are_field_names();
    }
    match policy.child_field("from_1d") {
        Some(from) => match from.child_field("Project") {
            Some(project) => project.child_field("shape"),
            None => None,
        },
        None => None,
    }
}

/// The edits that one choice sends, in order.
pub fn choice_actions(
    side: UiSpaceSide,
    role: UiSpaceCellRole,
    address: &ProjectSlotAddress,
    strip_order: Option<&ProjectSlotAddress>,
    variant: &str,
) -> (r: Vec<UiAction>)
    ensures
        action_models(r@) == choice_edits(
            side,
            role,
            address@,
            match strip_order {
                Some(strip) => Some(strip@),
                None => None,
            },
            variant@,
        ),
{
    proof {
        policy_names_are_field_names();
    }
    let ghost strip = match strip_order {
        Some(strip) => Some(strip@),
        None => None,
    };
    let mut actions: Vec<UiAction> = Vec::new();
    assert(action_models(actions@) =~= Seq::<ActionModel>::empty());
    if side == UiSpaceSide::Consumer && role == UiSpaceCellRole::Primary {
        let named: SpaceVariant = space_variant(variant);
        if named == SpaceVariant::AlongWire {
            push_strip_edit(&mut actions, strip_order, true);
            assert(action_models(actions@) =~= strip_edit(strip, true));
            return actions;
        }
        push_strip_edit(&mut actions, strip_order, false);
        assert(action_models(actions@) =~= strip_edit(strip, false));
        if named == SpaceVariant::Auto {
            push_variant(&mut actions, address, "Auto");
            return actions;
        }
        if let Some(policy) = address.child_field("Policy") {
            let ghost cleared = action_models(actions@);
            actions.push(UiAction::EnsurePresent { address: policy.clone() });
            assert(action_models(actions@) =~= cleared + seq![
                ActionModel::EnsurePresent { address: policy@ },
            ]);
            if let Some(shape) = policy_shape(&policy) {
                push_variant(&mut actions, &shape, variant);
            }
            let ghost shaped = action_models(actions@);
            if let Some(force) = policy.child_field("force") {
                actions.push(
                    UiAction::SetValue { address: force, value: LpValue::Bool(true) },
                );
            }
            assert(action_models(actions@) =~= shaped + seq![
                ActionModel::SetValue {
                    address: policy@.field("force"@),
                    value: LpValueView::Bool(true),
                },
            ]);
        }
        return actions;
    }
    push_variant(&mut actions, address, variant);
    assert(action_models(actions@) =~= ensure_variant(address@, variant@));
    actions
}

/// A fixture's choice always settles the wire switch, and first: on where the
/// strip is to run along the wire, off for every other choice.
pub proof fn a_fixtures_choice_settles_the_wire_switch(
    address: SlotAddressView,
    strip: SlotAddressView,
    variant: Seq<char>,
)
    ensures
        ({
            let edits = choice_edits(
                UiSpaceSide::Consumer,
                UiSpaceCellRole::Primary,
                address,
                Some(strip),
                variant,
            );
            let along = variant_named(variant) == SpaceVariant::AlongWire;
            &&& edits.len() >= 1
            &&& edits[0] == (ActionModel::SetValue {
                address: strip,
                value: LpValueView::Bool(along),
            })
            &&& along ==> edits.len() == 1
        }),
{
}

/// What pressing a segment of the declaration sends: nothing for the one that
/// is chosen already.
pub fn segment_actions(cell: &UiSpaceCell, choice: &UiSpaceChoice) -> (r: Vec<UiAction>)
    ensures
        action_models(r@) == match address_opt(cell.address) {
            Some(address) if cell.editable && !choice.selected => ensure_variant(
                address,
                choice.variant@,
            ),
            _ => Seq::empty(),
        },
{
    let mut actions: Vec<UiAction> = Vec::new();
    let ghost none = action_models(actions@);
    assert(none =~= Seq::<ActionModel>::empty());
    if cell.editable && !choice.selected {
        if let Some(address) = &cell.address {
            push_variant(&mut actions, address, choice.variant.as_str());
            assert(action_models(actions@) =~= ensure_variant(address@, choice.variant@));
        }
    }
    actions
}

/// What pressing a choice tile sends: nothing for the one that is chosen
/// already.
pub fn tile_actions(
    side: UiSpaceSide,
    cell: &UiSpaceCell,
    choice: &UiSpaceChoice,
) -> (r: Vec<UiAction>)
    ensures
        action_models(r@) == match address_opt(cell.address) {
            Some(address) if !choice.selected => choice_edits(
                side,
                cell.role,
                address,
                match cell.strip_order {
                    Some(strip) => address_opt(strip.address),
                    None => None,
                },
                choice.variant@,
            ),
            _ => Seq::empty(),
        },
{
    let none: Vec<UiAction> = Vec::new();
    assert(action_models(none@) =~= Seq::<ActionModel>::empty());
    if choice.selected {
        return none;
    }
    match &cell.address {
        Some(address) => {
            let strip: Option<&ProjectSlotAddress> = match &cell.strip_order {
                Some(row) => match &row.address {
                    Some(own) => Some(own),
                    None => None,
                },
                None => None,
            };
            choice_actions(side, cell.role, address, strip, choice.variant.as_str())
        },
        None => none,
    }
}

/// What pressing a modifier tile sends: the switch the other way.
pub fn modifier_action(row: &UiSpaceBoolRow) -> (r: Option<UiAction>)
    ensures
        match address_opt(row.address) {
            Some(address) if row.editable => r matches Some(action) && action@ == (
            ActionModel::SetValue { address, value: LpValueView::Bool(!row.value) }),
            _ => r is None,
        },
{
    if !row.editable {
        return None;
    }
    match &row.address {
        Some(address) => Some(
            UiAction::SetValue { address: address.clone(), value: LpValue::Bool(!row.value) },
        ),
        None => None,
    }
}

/// What pressing a direction tile of the wire sends: nothing for the current
/// direction.
pub fn wire_direction_action(wire: &UiWireDirectionRow, candidate: bool) -> (r: Option<UiAction>)
    ensures
        match address_opt(wire.address) {
            Some(address) if wire.editable && candidate != wire.reversed => r matches Some(action)
                && action@ == (ActionModel::SetValue {
                address,
                value: LpValueView::Bool(candidate),
            }),
            _ => r is None,
        },
{
    if !wire.editable || candidate == wire.reversed {
        return None;
    }
    match &wire.address {
        Some(address) => Some(
            UiAction::SetValue { address: address.clone(), value: LpValue::Bool(candidate) },
        ),
        None => None,
    }
}

// -- drawings ------------------------------------------------------------------------

/// What a tile or a row draws.
#[derive(Clone, Copy, Debug, PartialEq, Eq, Structural)]
pub enum SpaceGlyph {
    /// A strip laid out in texture space.
    Projection(UiCellProjection),
    /// The texture's centre row, read as a strip.
    CentreScanline,
    /// The answer lives on the source.
    FollowSource,
    /// The strip in wire order; reversed where true.
    AlongWire(bool),
}

/// The drawing of a variant, without modifiers.
pub open spec fn plain_glyph(role: UiSpaceCellRole, variant: SpaceVariant) -> SpaceGlyph {
    match variant {
        SpaceVariant::Shape(shape) => SpaceGlyph::Projection(plain_projection(shape)),
        SpaceVariant::AlongWire => SpaceGlyph::AlongWire(false),
        SpaceVariant::Default => if role == UiSpaceCellRole::ProducerIn1d {
            SpaceGlyph::CentreScanline
        } else {
            SpaceGlyph::FollowSource
        },
        _ => SpaceGlyph::FollowSource,
    }
}

/// A drawing with these modifiers; only projections wear any.
pub open spec fn modified(glyph: SpaceGlyph, modifiers: Option<(bool, bool)>) -> SpaceGlyph {
    match (glyph, modifiers) {
        (SpaceGlyph::Projection(projection), Some((mirror, flip))) => SpaceGlyph::Projection(
            UiCellProjection { mirror, flip, ..projection },
        ),
        _ => glyph,
    }
}

/// The modifiers a row has on.
pub open spec fn live_modifiers(cell: UiSpaceCell) -> Option<(bool, bool)> {
    match cell.modifiers {
        Some(rows) => Some((rows.mirror.value, rows.flip.value)),
        None => None,
    }
}

/// The wire is read back to front.
pub open spec fn wire_reversed(cell: UiSpaceCell) -> bool {
    cell.wire_direction matches Some(wire) && wire.reversed
}

/// The drawing of what a row has chosen.
pub open spec fn glyph_of(cell: UiSpaceCell) -> SpaceGlyph {
    if cell.active@ == ALONG_WIRE_VARIANT@ {
        SpaceGlyph::AlongWire(wire_reversed(cell))
    } else {
        modified(plain_glyph(cell.role, variant_named(cell.active@)), live_modifiers(cell))
    }
}

/// The drawing of one choice, without modifiers.
pub fn glyph_for(role: UiSpaceCellRole, variant: &str) -> (r: SpaceGlyph)
    ensures
        r == plain_glyph(role, variant_named(variant@)),
{
    match space_variant(variant) {
        SpaceVariant::Shape(shape) => SpaceGlyph::Projection(UiCellProjection::plain(shape)),
        SpaceVariant::AlongWire => SpaceGlyph::AlongWire(false),
        SpaceVariant::Default => if role == UiSpaceCellRole::ProducerIn1d {
            SpaceGlyph::CentreScanline
        } else {
            SpaceGlyph::FollowSource
        },
        _ => SpaceGlyph::FollowSource,
    }
}

/// A choice tile's drawing: the shape with the row's modifiers on it.
pub fn tile_glyph(
    role: UiSpaceCellRole,
    variant: &str,
    current_modifiers: Option<(bool, bool)>,
) -> (r: SpaceGlyph)
    ensures
        r == modified(plain_glyph(role, variant_named(variant@)), current_modifiers),
{
    match (glyph_for(role, variant), current_modifiers) {
        (SpaceGlyph::Projection(projection), Some((mirror, flip))) => SpaceGlyph::Projection(
            UiCellProjection { shape: projection.shape, mirror, flip },
        ),
        (glyph, _) => glyph,
    }
}

/// The drawing of what a row has chosen.
pub fn active_glyph(cell: &UiSpaceCell) -> (r: SpaceGlyph)
    ensures
        r == glyph_of(*cell),
{
    if same_text(cell.active.as_str(), ALONG_WIRE_VARIANT) {
        let reversed: bool = match &cell.wire_direction {
            Some(wire) => wire.reversed,
            None => false,
        };
        return SpaceGlyph::AlongWire(reversed);
    }
    let live: Option<(bool, bool)> = match &cell.modifiers {
        Some(rows) => Some((rows.mirror.value, rows.flip.value)),
        None => None,
    };
    tile_glyph(cell.role, cell.active.as_str(), live)
}

/// The projection a row has chosen, if it has chosen one.
pub fn active_projection(cell: &UiSpaceCell) -> (r: Option<UiCellProjection>)
    ensures
        r == match glyph_of(*cell) {
            SpaceGlyph::Projection(projection) => Some(projection),
            _ => None,
        },
{
    match active_glyph(cell) {
        SpaceGlyph::Projection(projection) => Some(projection),
        _ => None,
    }
}

/// The two modifiers.
#[derive(Clone, Copy, Debug, PartialEq, Eq, Structural)]
pub enum Modifier {
    Mirror,
    Flip,
}

/// The projection with this modifier on.
pub open spec fn with_modifier(base: UiCellProjection, which: Modifier) -> UiCellProjection {
    match which {
        Modifier::Mirror => UiCellProjection { mirror: true, ..base },
        Modifier::Flip => UiCellProjection { flip: true, ..base },
    }
}

/// What a modifier tile draws: the current projection with its modifier on.
pub fn modifier_tile_projection(base: UiCellProjection, which: Modifier) -> (r: UiCellProjection)
    ensures
        r == with_modifier(base, which),
{
    match which {
        Modifier::Mirror => UiCellProjection { shape: base.shape, mirror: true, flip: base.flip },
        Modifier::Flip => UiCellProjection { shape: base.shape, mirror: base.mirror, flip: true },
    }
}

/// A shape tile draws what pressing it makes of the row.
pub proof fn a_shape_tile_draws_what_pressing_it_gives(
    before: UiSpaceCell,
    after: UiSpaceCell,
    shape: UiProjectionShape,
)
    requires
        variant_named(after.active@) == SpaceVariant::Shape(shape),
        after.role == before.role,
        after.modifiers == before.modifiers,
    ensures
        glyph_of(after) == modified(
            plain_glyph(before.role, variant_named(after.active@)),
            live_modifiers(before),
        ),
{
}

/// A modifier tile draws what the row shows once its modifier is on, and drawing
/// it again changes nothing. The two modifiers do not depend on their order.
pub proof fn modifier_tiles_draw_what_pressing_them_gives(base: UiCellProjection, which: Modifier)
    ensures
        with_modifier(with_modifier(base, which), which) == with_modifier(base, which),
        with_modifier(with_modifier(base, Modifier::Mirror), Modifier::Flip) == with_modifier(
            with_modifier(base, Modifier::Flip),
            Modifier::Mirror,
        ),
        with_modifier(base, which).shape == base.shape,
{
}

/// One box of the serpentine wire, and how far along the wire it lies.
#[derive(Clone, Copy, Debug, PartialEq, Eq, Structural)]
pub struct WireBox {
    pub x: u32,
    pub y: u32,
    pub width: u32,
    pub height: u32,
    pub step: u32,
}

/// The wire as wired: three runs joined at alternating ends.
pub open spec fn wire_boxes() -> Seq<(u32, u32, u32, u32)> {
    seq![
        (2u32, 2u32, 14u32, 8u32),
        (16u32, 2u32, 14u32, 8u32),
        (30u32, 2u32, 14u32, 8u32),
        (44u32, 2u32, 14u32, 8u32),
        (54u32, 10u32, 8u32, 6u32),
        (48u32, 16u32, 14u32, 8u32),
        (34u32, 16u32, 14u32, 8u32),
        (20u32, 16u32, 14u32, 8u32),
        (6u32, 16u32, 14u32, 8u32),
        (2u32, 24u32, 8u32, 6u32),
        (2u32, 30u32, 14u32, 8u32),
        (16u32, 30u32, 14u32, 8u32),
        (30u32, 30u32, 14u32, 8u32),
        (44u32, 30u32, 14u32, 8u32),
    ]
}

/// The boxes of the serpentine drawing. The ramp climbs along the wire, from its
/// far end where it is reversed.
pub fn serpentine_segments(reversed: bool) -> (r: Vec<WireBox>)
    ensures
        r@.len() == wire_boxes().len(),
        forall|i: int|
            0 <= i < r@.len() ==> (#[trigger] r@[i]) == (WireBox {
                x: wire_boxes()[i].0,
                y: wire_boxes()[i].1,
                width: wire_boxes()[i].2,
                height: wire_boxes()[i].3,
                step: (if reversed {
                    13 - i
                } else {
                    i
                }) as u32,
            }),
{
    let boxes: Vec<(u32, u32, u32, u32)> = vec![
        (2, 2, 14, 8),
        (16, 2, 14, 8),
        (30, 2, 14, 8),
        (44, 2, 14, 8),
        (54, 10, 8, 6),
        (48, 16, 14, 8),
        (34, 16, 14, 8),
        (20, 16, 14, 8),
        (6, 16, 14, 8),
        (2, 24, 8, 6),
        (2, 30, 14, 8),
        (16, 30, 14, 8),
        (30, 30, 14, 8),
        (44, 30, 14, 8),
    ];
    assert(boxes@ =~= wire_boxes());
    let mut out: Vec<WireBox> = Vec::new();
    let mut at: usize = 0;
    while at < boxes.len()
        invariant
            at <= boxes.len(),
            boxes@ == wire_boxes(),
            boxes@.len() == 14,
            out@.len() == at,
            forall|i: int|
                0 <= i < at ==> (#[trigger] out@[i]) == (WireBox {
                    x: wire_boxes()[i].0,
                    y: wire_boxes()[i].1,
                    width: wire_boxes()[i].2,
                    height: wire_boxes()[i].3,
                    step: (if reversed {
                        13 - i
                    } else {
                        i
                    }) as u32,
                }),
        decreases boxes.len() - at,
    {
        let (x, y, width, height) = boxes[at];
        let step: u32 = if reversed {
            (13 - at) as u32
        } else {
            at as u32
        };
        out.push(WireBox { x, y, width, height, step });
        at += 1;
    }
    out
}

// -- words ---------------------------------------------------------------------------

/// The word for a space.
pub open spec fn space_word(space: UiVisualSpace) -> Seq<char> {
    match space {
        UiVisualSpace::OneD => SPACE_ONE_D@,
        UiVisualSpace::TwoD => SPACE_TWO_D@,
    }
}

/// The word for a space.
pub fn visual_space_label(space: UiVisualSpace) -> (r: &'static str)
    ensures
        r@ == space_word(space),
{
    match space {
        UiVisualSpace::OneD => SPACE_ONE_D,
        UiVisualSpace::TwoD => SPACE_TWO_D,
    }
}

/// The badge of a card's header: the space a producer declares. A consumer states
/// a policy and no space, so it has none.
pub open spec fn badge_of(section: UiSpaceSection) -> Option<Seq<char>> {
    match (section.side, section.declared_space) {
        (UiSpaceSide::Producer, Some(space)) => Some(space_word(space)),
        _ => None,
    }
}

/// The badge of a card's header, where the card declares a space.
pub fn space_badge(section: &UiSpaceSection) -> (r: Option<&'static str>)
    ensures
        match badge_of(*section) {
            Some(badge) => r matches Some(word) && word@ == badge,
            None => r is None,
        },
{
    match (section.side, section.declared_space) {
        (UiSpaceSide::Producer, Some(space)) => Some(visual_space_label(space)),
        _ => None,
    }
}

/// The badge of a face, where its kind has a section and the section a space.
pub fn face_space_badge(section: Option<&UiSpaceSection>) -> (r: Option<&'static str>)
    ensures
        match section {
            Some(own) => match badge_of(*own) {
                Some(badge) => r matches Some(word) && word@ == badge,
                None => r is None,
            },
            None => r is None,
        },
{
    match section {
        Some(own) => space_badge(own),
        None => None,
    }
}

/// The badge's tooltip.
pub fn space_badge_title() -> (r: &'static str)
    ensures
        r@ == BADGE_TITLE@,
{
    BADGE_TITLE
}

/// The word for a shape.
pub open spec fn shape_word(shape: UiProjectionShape) -> Seq<char> {
    match shape {
        UiProjectionShape::ExtrudeX => SHAPE_EXTRUDE_X@,
        UiProjectionShape::ExtrudeY => SHAPE_EXTRUDE_Y@,
        UiProjectionShape::Radial => SHAPE_RADIAL@,
        UiProjectionShape::Angular => SHAPE_ANGULAR@,
    }
}

/// The word for a shape.
pub fn shape_label(shape: UiProjectionShape) -> (r: &'static str)
    ensures
        r@ == shape_word(shape),
{
    match shape {
        UiProjectionShape::ExtrudeX => SHAPE_EXTRUDE_X,
        UiProjectionShape::ExtrudeY => SHAPE_EXTRUDE_Y,
        UiProjectionShape::Radial => SHAPE_RADIAL,
        UiProjectionShape::Angular => SHAPE_ANGULAR,
    }
}

/// The words for the modifiers that are on.
pub open spec fn modifier_words(mirror: bool, flip: bool) -> Seq<char> {
    (if mirror {
        " · "@ + MODIFIER_MIRRORED@
    } else {
        Seq::empty()
    }) + (if flip {
        " · "@ + MODIFIER_FLIPPED@
    } else {
        Seq::empty()
    })
}

fn modifier_text(mirror: bool, flip: bool) -> (r: String)
    ensures
        r@ == modifier_words(mirror, flip),
{
    let mut folded: String = String::new();
    if mirror {
        folded = " · ".to_string();
        folded.append(MODIFIER_MIRRORED);
    }
    let mut turned: String = String::new();
    if flip {
        turned = " · ".to_string();
        turned.append(MODIFIER_FLIPPED);
    }
    folded.append(turned.as_str());
    folded
}

/// A projection's caption: the shape, then its modifiers.
pub open spec fn projection_words(projection: UiCellProjection) -> Seq<char> {
    shape_word(projection.shape) + modifier_words(projection.mirror, projection.flip)
}

/// A projection's caption.
pub fn projection_label(projection: UiCellProjection) -> (r: String)
    ensures
        r@ == projection_words(projection),
{
    let mut out: String = shape_label(projection.shape).to_string();
    out.append(modifier_text(projection.mirror, projection.flip).as_str());
    out
}

/// Every projection can be spelled, and no two are spelled alike.
pub proof fn a_caption_names_one_projection(a: UiCellProjection, b: UiCellProjection)
    requires
        projection_words(a) == projection_words(b),
    ensures
        a == b,
{
    reveal_strlit("extrude-x");
    reveal_strlit("extrude-y");
    reveal_strlit("radial");
    reveal_strlit("angular");
    reveal_strlit("mirrored");
    reveal_strlit("flipped");
    reveal_strlit(" · ");
    let x = projection_words(a);
    let y = projection_words(b);
    assert(x[0] == shape_word(a.shape)[0]);
    assert(y[0] == shape_word(b.shape)[0]);
    assert(x[8] == y[8]);
    assert(x.len() == y.len());
    assert(a.shape is ExtrudeX ==> x[8] == 'x');
    assert(a.shape is ExtrudeY ==> x[8] == 'y');
    assert(b.shape is ExtrudeX ==> y[8] == 'x');
    assert(b.shape is ExtrudeY ==> y[8] == 'y');
    assert(a.shape == b.shape);
}

/// The words a row adds for its modifiers, or the arrow of a reversed wire.
pub open spec fn suffix_words(cell: UiSpaceCell) -> Seq<char> {
    if cell.active@ == ALONG_WIRE_VARIANT@ {
        if wire_reversed(cell) {
            " ←"@
        } else {
            Seq::empty()
        }
    } else {
        match live_modifiers(cell) {
            Some((mirror, flip)) => modifier_words(mirror, flip),
            None => Seq::empty(),
        }
    }
}

/// The words a row adds for its modifiers.
pub fn modifier_suffix(cell: &UiSpaceCell) -> (r: String)
    ensures
        r@ == suffix_words(*cell),
{
    if same_text(cell.active.as_str(), ALONG_WIRE_VARIANT) {
        let reversed: bool = match &cell.wire_direction {
            Some(wire) => wire.reversed,
            None => false,
        };
        return if reversed {
            " ←".to_string()
        } else {
            String::new()
        };
    }
    match &cell.modifiers {
        Some(rows) => modifier_text(rows.mirror.value, rows.flip.value),
        None => String::new(),
    }
}

/// The word for who decided.
pub open spec fn origin_word(origin: UiProjectionOrigin) -> Seq<char> {
    match origin {
        UiProjectionOrigin::Declared => ORIGIN_DECLARED@,
        UiProjectionOrigin::Forced => ORIGIN_FORCED@,
    }
}

/// The word for who decided.
pub fn origin_label(origin: UiProjectionOrigin) -> (r: &'static str)
    ensures
        r@ == origin_word(origin),
{
    match origin {
        UiProjectionOrigin::Declared => ORIGIN_DECLARED,
        UiProjectionOrigin::Forced => ORIGIN_FORCED,
    }
}

/// How a preview got into a space that is not its own.
pub open spec fn projected_words(projection: Option<UiCellProjection>) -> Seq<char> {
    match projection {
        Some(own) => projection_words(own),
        None => PROJECTION_CENTRE_SCANLINE@,
    }
}

/// The caption under a preview. Who decided is never left out where it is known.
pub open spec fn preview_words(
    space: UiVisualSpace,
    meta: Option<UiVisualProductSpace>,
) -> Seq<char> {
    match meta {
        None => space_word(space),
        Some(known) => if known.space == known.primary {
            "native · "@ + space_word(space)
        } else {
            "in "@ + space_word(space) + " · "@ + projected_words(known.projection) + (
            match known.origin {
                Some(origin) => " ("@ + origin_word(origin) + ")"@,
                None => Seq::empty(),
            })
        },
    }
}

/// The caption under a preview.
pub fn preview_space_caption(
    space: UiVisualSpace,
    meta: Option<UiVisualProductSpace>,
) -> (r: String)
    ensures
        r@ == preview_words(space, meta),
{
    match meta {
        None => visual_space_label(space).to_string(),
        Some(known) => {
            if known.space == known.primary {
                let mut out: String = "native · ".to_string();
                out.append(visual_space_label(space));
                return out;
            }
            let mut out: String = "in ".to_string();
            out.append(visual_space_label(space));
            out.append(" · ");
            let how: String = match known.projection {
                Some(projection) => projection_label(projection),
                None => PROJECTION_CENTRE_SCANLINE.to_string(),
            };
            out.append(how.as_str());
            let mut who: String = String::new();
            if let Some(origin) = known.origin {
                who = " (".to_string();
                who.append(origin_label(origin));
                who.append(")");
            }
            out.append(who.as_str());
            out
        },
    }
}

/// The label of a row.
pub fn cell_label(side: UiSpaceSide, role: UiSpaceCellRole) -> (r: &'static str)
    ensures
        r@ == match role {
            UiSpaceCellRole::ProducerIn2d => PRODUCER_IN_2D_LABEL@,
            UiSpaceCellRole::ProducerIn1d => PRODUCER_IN_1D_LABEL@,
            UiSpaceCellRole::Primary => CONSUMER_PRIMARY_LABEL@,
        },
{
    match role {
        UiSpaceCellRole::ProducerIn2d => PRODUCER_IN_2D_LABEL,
        UiSpaceCellRole::ProducerIn1d => PRODUCER_IN_1D_LABEL,
        UiSpaceCellRole::Primary => CONSUMER_PRIMARY_LABEL,
    }
}

/// The word for a variant in its row, where there is one. The same variant may
/// read differently in different rows: `Default` is the projection that silence
/// resolves to on a strip's answer in 2D, and the centre scanline on a texture's
/// answer in 1D.
pub open spec fn variant_word(
    side: UiSpaceSide,
    role: UiSpaceCellRole,
    variant: SpaceVariant,
) -> Option<Seq<char>> {
    let primary = role == UiSpaceCellRole::Primary;
    match variant {
        SpaceVariant::OneD => if side == UiSpaceSide::Producer && primary {
            Some(SPACE_ONE_D@)
        } else {
            None
        },
        SpaceVariant::TwoD => if side == UiSpaceSide::Producer && primary {
            Some(SPACE_TWO_D@)
        } else {
            None
        },
        SpaceVariant::Auto => if side == UiSpaceSide::Consumer && primary {
            Some(CONSUMER_FOLLOW@)
        } else {
            None
        },
        SpaceVariant::AlongWire => if side == UiSpaceSide::Consumer && primary {
            Some(CONSUMER_ALONG_WIRE@)
        } else {
            None
        },
        SpaceVariant::Default => match role {
            UiSpaceCellRole::ProducerIn2d => Some(PROJECTION_EXTRUDE_DEFAULT@),
            UiSpaceCellRole::ProducerIn1d => Some(PROJECTION_CENTRE_SCANLINE@),
            UiSpaceCellRole::Primary => None,
        },
        SpaceVariant::Shape(shape) => Some(shape_word(shape)),
        SpaceVariant::Other => None,
    }
}

/// The word for a variant in its row, where there is one.
pub fn known_variant_label(
    side: UiSpaceSide,
    role: UiSpaceCellRole,
    variant: &str,
) -> (r: Option<&'static str>)
    ensures
        match variant_word(side, role, variant_named(variant@)) {
            Some(word) => r matches Some(label) && label@ == word,
            None => r is None,
        },
{
    let primary: bool = role == UiSpaceCellRole::Primary;
    match space_variant(variant) {
        SpaceVariant::OneD => if side == UiSpaceSide::Producer && primary {
            Some(SPACE_ONE_D)
        } else {
            None
        },
        SpaceVariant::TwoD => if side == UiSpaceSide::Producer && primary {
            Some(SPACE_TWO_D)
        } else {
            None
        },
        SpaceVariant::Auto => if side == UiSpaceSide::Consumer && primary {
            Some(CONSUMER_FOLLOW)
        } else {
            None
        },
        SpaceVariant::AlongWire => if side == UiSpaceSide::Consumer && primary {
            Some(CONSUMER_ALONG_WIRE)
        } else {
            None
        },
        SpaceVariant::Default => match role {
            UiSpaceCellRole::ProducerIn2d => Some(PROJECTION_EXTRUDE_DEFAULT),
            UiSpaceCellRole::ProducerIn1d => Some(PROJECTION_CENTRE_SCANLINE),
            UiSpaceCellRole::Primary => None,
        },
        SpaceVariant::Shape(shape) => Some(shape_label(shape)),
        SpaceVariant::Other => None,
    }
}

/// What a choice is called: its word, or else the label it came with.
pub open spec fn choice_word(
    side: UiSpaceSide,
    role: UiSpaceCellRole,
    choice: UiSpaceChoice,
) -> Seq<char> {
    match variant_word(side, role, variant_named(choice.variant@)) {
        Some(word) => word,
        None => choice.label@,
    }
}

/// What a choice is called.
pub fn variant_label(
    side: UiSpaceSide,
    role: UiSpaceCellRole,
    choice: &UiSpaceChoice,
) -> (r: String)
    ensures
        r@ == choice_word(side, role, *choice),
{
    match known_variant_label(side, role, choice.variant.as_str()) {
        Some(label) => label.to_string(),
        None => choice.label.clone(),
    }
}

/// The first choice that is selected, or the number of choices.
pub open spec fn first_selected(choices: Seq<UiSpaceChoice>, from: int) -> int
    decreases choices.len() - from,
{
    if from >= choices.len() || choices[from].selected {
        from
    } else {
        first_selected(choices, from + 1)
    }
}

/// What the row's choice is called.
pub open spec fn active_word(side: UiSpaceSide, cell: UiSpaceCell) -> Seq<char> {
    let at = first_selected(cell.choices@, 0);
    if at < cell.choices@.len() {
        choice_word(side, cell.role, cell.choices@[at])
    } else {
        match variant_word(side, cell.role, variant_named(cell.active@)) {
            Some(word) => word,
            None => cell.active_label@,
        }
    }
}

/// What the row's choice is called.
pub fn active_variant_label(side: UiSpaceSide, cell: &UiSpaceCell) -> (r: String)
    ensures
        r@ == active_word(side, *cell),
{
    let mut at: usize = 0;
    while at < cell.choices.len()
        invariant
            at <= cell.choices.len(),
            first_selected(cell.choices@, 0) == first_selected(cell.choices@, at as int),
        decreases cell.choices.len() - at,
    {
        if cell.choices[at].selected {
            return variant_label(side, cell.role, &cell.choices[at]);
        }
        at += 1;
    }
    match known_variant_label(side, cell.role, cell.active.as_str()) {
        Some(label) => label.to_string(),
        None => cell.active_label.clone(),
    }
}

/// One line on a choice.
pub fn choice_hint(role: UiSpaceCellRole, variant: &str) -> (r: &'static str)
    ensures
        r@ == match variant_named(variant@) {
            SpaceVariant::Auto => HINT_FOLLOW@,
            SpaceVariant::AlongWire => HINT_ALONG_WIRE@,
            SpaceVariant::Default => if role == UiSpaceCellRole::ProducerIn1d {
                HINT_CENTRE_SCANLINE@
            } else {
                ""@
            },
            SpaceVariant::Shape(UiProjectionShape::ExtrudeX) => HINT_EXTRUDE_X@,
            SpaceVariant::Shape(UiProjectionShape::ExtrudeY) => HINT_EXTRUDE_Y@,
            SpaceVariant::Shape(UiProjectionShape::Radial) => HINT_RADIAL@,
            SpaceVariant::Shape(UiProjectionShape::Angular) => HINT_ANGULAR@,
            _ => ""@,
        },
{
    match space_variant(variant) {
        SpaceVariant::Auto => HINT_FOLLOW,
        SpaceVariant::AlongWire => HINT_ALONG_WIRE,
        SpaceVariant::Default => if role == UiSpaceCellRole::ProducerIn1d {
            HINT_CENTRE_SCANLINE
        } else {
            ""
        },
        SpaceVariant::Shape(UiProjectionShape::ExtrudeX) => HINT_EXTRUDE_X,
        SpaceVariant::Shape(UiProjectionShape::ExtrudeY) => HINT_EXTRUDE_Y,
        SpaceVariant::Shape(UiProjectionShape::Radial) => HINT_RADIAL,
        SpaceVariant::Shape(UiProjectionShape::Angular) => HINT_ANGULAR,
        _ => "",
    }
}

/// What a side says, in one line.
pub fn primary_hint(section: &UiSpaceSection) -> (r: &'static str)
    ensures
        r@ == match section.side {
            UiSpaceSide::Producer => if section.declared_space == Some(UiVisualSpace::OneD) {
                PRODUCER_HINT_ONE_D@
            } else {
                PRODUCER_HINT_TWO_D@
            },
            UiSpaceSide::Consumer => match variant_named(section.primary.active@) {
                SpaceVariant::AlongWire => CONSUMER_HINT_ALONG_WIRE@,
                SpaceVariant::Auto => CONSUMER_HINT_FOLLOW@,
                _ => CONSUMER_HINT_OVERRIDE@,
            },
        },
{
    match section.side {
        UiSpaceSide::Producer => match section.declared_space {
            Some(UiVisualSpace::OneD) => PRODUCER_HINT_ONE_D,
            _ => PRODUCER_HINT_TWO_D,
        },
        UiSpaceSide::Consumer => match space_variant(section.primary.active.as_str()) {
            SpaceVariant::AlongWire => CONSUMER_HINT_ALONG_WIRE,
            SpaceVariant::Auto => CONSUMER_HINT_FOLLOW,
            _ => CONSUMER_HINT_OVERRIDE,
        },
    }
}

/// Who wins over this side, where somebody can.
pub fn ladder_line(section: &UiSpaceSection) -> (r: Option<&'static str>)
    ensures
        if section.side == UiSpaceSide::Producer && section.row_of(UiSpaceCellRole::ProducerIn2d)
            is Some {
            r matches Some(line) && line@ == LADDER_PRODUCER@
        } else {
            r is None
        },
{
    match section.side {
        UiSpaceSide::Producer => match section.cell(UiSpaceCellRole::ProducerIn2d) {
            Some(_) => Some(LADDER_PRODUCER),
            None => None,
        },
        UiSpaceSide::Consumer => None,
    }
}

/// The section at a glance.
pub open spec fn summary_words(section: UiSpaceSection) -> Seq<char> {
    match section.side {
        UiSpaceSide::Producer => {
            let space = match section.declared_space {
                Some(own) => space_word(own),
                None => ""@,
            };
            match section.row_of(UiSpaceCellRole::ProducerIn2d) {
                Some(cell) => space + " · in 2D: "@ + active_word(section.side, cell)
                    + suffix_words(cell),
                None => match section.row_of(UiSpaceCellRole::ProducerIn1d) {
                    Some(_) => space + " · in 1D: "@ + PROJECTION_CENTRE_SCANLINE@,
                    None => space,
                },
            }
        },
        UiSpaceSide::Consumer => match variant_named(section.primary.active@) {
            SpaceVariant::AlongWire => CONSUMER_ALONG_WIRE@ + suffix_words(section.primary),
            SpaceVariant::Auto => CONSUMER_FOLLOW@,
            _ => "1D sources: "@ + active_word(section.side, section.primary) + suffix_words(
                section.primary,
            ) + " (override)"@,
        },
    }
}

/// The section at a glance.
pub fn space_section_summary(section: &UiSpaceSection) -> (r: String)
    ensures
        r@ == summary_words(*section),
{
    match section.side {
        UiSpaceSide::Producer => {
            let space: &'static str = match section.declared_space {
                Some(own) => visual_space_label(own),
                None => "",
            };
            let mut out: String = space.to_string();
            if let Some(cell) = section.cell(UiSpaceCellRole::ProducerIn2d) {
                out.append(" · in 2D: ");
                out.append(active_variant_label(section.side, cell).as_str());
                out.append(modifier_suffix(cell).as_str());
                return out;
            }
            if let Some(_) = section.cell(UiSpaceCellRole::ProducerIn1d) {
                out.append(" · in 1D: ");
                out.append(PROJECTION_CENTRE_SCANLINE);
            }
            out
        },
        UiSpaceSide::Consumer => match space_variant(section.primary.active.as_str()) {
            SpaceVariant::AlongWire => {
                let mut out: String = CONSUMER_ALONG_WIRE.to_string();
                out.append(modifier_suffix(&section.primary).as_str());
                out
            },
            SpaceVariant::Auto => CONSUMER_FOLLOW.to_string(),
            _ => {
                let mut out: String = "1D sources: ".to_string();
                out.append(active_variant_label(section.side, &section.primary).as_str());
                out.append(modifier_suffix(&section.primary).as_str());
                out.append(" (override)");
                out
            },
        },
    }
}

/// The entry point that renders in a space.
pub open spec fn entry_word(space: UiVisualSpace) -> Seq<char> {
    match space {
        UiVisualSpace::OneD => ENTRY_ONE_D@,
        UiVisualSpace::TwoD => ENTRY_TWO_D@,
    }
}

/// The entry point that renders in a space.
pub fn entry_label(space: UiVisualSpace) -> (r: &'static str)
    ensures
        r@ == entry_word(space),
{
    match space {
        UiVisualSpace::OneD => ENTRY_ONE_D,
        UiVisualSpace::TwoD => ENTRY_TWO_D,
    }
}

/// What is declared, and what the code defines.
pub fn mismatch_line(mismatch: &UiSpaceMismatch) -> (r: String)
    ensures
        r@ == "declared "@ + space_word(mismatch.declared) + " · the code defines "@ + entry_word(
            mismatch.entry,
        ),
{
    let mut out: String = "declared ".to_string();
    out.append(visual_space_label(mismatch.declared));
    out.append(" · the code defines ");
    out.append(entry_label(mismatch.entry));
    out
}

// -- classes -------------------------------------------------------------------------

pub const SEGMENTS_MISMATCHED_CLASS: &'static str = "tw:flex tw:w-full tw:overflow-hidden tw:rounded-xs tw:border tw:border-status-error-border";

pub const SEGMENTS_CLASS: &'static str = "tw:flex tw:w-full tw:overflow-hidden tw:rounded-xs tw:border tw:border-border-subtle";

/// The frame of the declaration's segments.
pub fn segment_group_class(mismatched: bool) -> (r: &'static str)
    ensures
        r@ == if mismatched {
            SEGMENTS_MISMATCHED_CLASS@
        } else {
            SEGMENTS_CLASS@
        },
{
    if mismatched {
        SEGMENTS_MISMATCHED_CLASS
    } else {
        SEGMENTS_CLASS
    }
}

pub const SEGMENT_SELECTED_CLASS: &'static str = "tw:flex-1 tw:cursor-pointer tw:appearance-none tw:border-0 tw:bg-card-muted tw:px-2.5 tw:py-1.5 tw:text-center tw:text-xs tw:font-bold tw:text-strong-foreground";

pub const SEGMENT_CLASS: &'static str = "tw:flex-1 tw:cursor-pointer tw:appearance-none tw:border-0 tw:bg-transparent tw:px-2.5 tw:py-1.5 tw:text-center tw:text-xs tw:font-bold tw:text-subtle-foreground tw:hover:text-soft-foreground";

/// One segment of the declaration.
pub fn segment_class(selected: bool) -> (r: &'static str)
    ensures
        r@ == if selected {
            SEGMENT_SELECTED_CLASS@
        } else {
            SEGMENT_CLASS@
        },
{
    if selected {
        SEGMENT_SELECTED_CLASS
    } else {
        SEGMENT_CLASS
    }
}

pub const TILE_SELECTED_CLASS: &'static str = "tw:grid tw:min-w-0 tw:cursor-pointer tw:appearance-none tw:gap-0.5 tw:rounded-xs tw:border tw:border-accent tw:bg-accent-wash tw:p-1.5 tw:text-left tw:text-strong-foreground";

pub const TILE_CLASS: &'static str = "tw:grid tw:min-w-0 tw:cursor-pointer tw:appearance-none tw:gap-0.5 tw:rounded-xs tw:border tw:border-border-subtle tw:bg-transparent tw:p-1.5 tw:text-left tw:text-muted-foreground tw:hover:border-border-strong tw:hover:text-strong-foreground";

/// One tile of a choice grid.
pub fn tile_class(selected: bool) -> (r: &'static str)
    ensures
        r@ == if selected {
            TILE_SELECTED_CLASS@
        } else {
            TILE_CLASS@
        },
{
    if selected {
        TILE_SELECTED_CLASS
    } else {
        TILE_CLASS
    }
}

} // verus!
