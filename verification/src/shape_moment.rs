//! The question a new fixture asks once: what shape is it?
//!
//! A preset is nothing but a batch of ordinary edits, ending with the one that
//! puts the question away.

use vstd::prelude::*;
use vstd::string::*;

use crate::action::{action_models, ActionModel, UiAction};
use crate::panel::address_opt;
use crate::slot::{is_field_name, LpValue, LpValueView, ProjectSlotAddress};

verus! {

pub const SHAPE_PROMPT: &'static str = "What shape is this fixture?";

pub const SHAPE_PROMPT_SUB: &'static str = "This is the fixture's identity — effects are matched to it.";

pub const SHAPE_SKIP: &'static str = "skip — keep it as it is";

/// The shapes on offer.
#[derive(Clone, Copy, Debug, PartialEq, Eq, Structural)]
pub enum ShapePreset {
    /// A line of pixels: wire order is the layout.
    Strip,
    /// A grid or panel.
    Matrix,
    /// A strip placed in space: the map is the shape.
    MappedShape,
    /// A cube or volume. Not on offer yet.
    ThreeD,
}

/// A preset's name.
pub open spec fn preset_name(preset: ShapePreset) -> Seq<char> {
    match preset {
        ShapePreset::Strip => "Strip"@,
        ShapePreset::Matrix => "Matrix"@,
        ShapePreset::MappedShape => "Mapped shape"@,
        ShapePreset::ThreeD => "3D (soon)"@,
    }
}

/// One line on a preset.
pub open spec fn preset_hint(preset: ShapePreset) -> Seq<char> {
    match preset {
        ShapePreset::Strip => "1D — a line of pixels"@,
        ShapePreset::Matrix => "2D — a grid or panel"@,
        ShapePreset::MappedShape => "a strip placed in space"@,
        ShapePreset::ThreeD => "a cube or volume"@,
    }
}

impl ShapePreset {
    /// The preset's name.
    pub fn label(self) -> (r: &'static str)
        ensures
            r@ == preset_name(self),
    {
        match self {
            ShapePreset::Strip => "Strip",
            ShapePreset::Matrix => "Matrix",
            ShapePreset::MappedShape => "Mapped shape",
            ShapePreset::ThreeD => "3D (soon)",
        }
    }

    /// One line on the preset.
    pub fn hint(self) -> (r: &'static str)
        ensures
            r@ == preset_hint(self),
    {
        match self {
            ShapePreset::Strip => "1D — a line of pixels",
            ShapePreset::Matrix => "2D — a grid or panel",
            ShapePreset::MappedShape => "a strip placed in space",
            ShapePreset::ThreeD => "a cube or volume",
        }
    }
}

/// How many rows of pixels a strip renders.
pub const STRIP_RENDER_HEIGHT: u32 = 1;

/// How many columns of pixels a matrix renders.
pub const MATRIX_RENDER_WIDTH: u32 = 16;

/// How many rows of pixels a matrix renders.
pub const MATRIX_RENDER_HEIGHT: u32 = 16;

/// The slots a preset fills, where the fixture has them.
#[derive(Clone, Debug, PartialEq, Eq)]
pub struct UiShapePresets {
    pub mapping: Option<ProjectSlotAddress>,
    pub render_size: Option<ProjectSlotAddress>,
    pub strip_order: Option<ProjectSlotAddress>,
    pub has_map2d: bool,
}

/// The value of a size in pixels.
pub open spec fn dim2u(width: u32, height: u32) -> LpValueView {
    LpValueView::Struct {
        name: Some("Dim2u"@),
        fields: seq![("width"@, width), ("height"@, height)],
    }
}

/// The value of a size in pixels.
pub fn dim2u_value(width: u32, height: u32) -> (r: LpValue)
    ensures
        r@ == dim2u(width, height),
{
    let mut fields: Vec<(String, u32)> = Vec::new();
    fields.push(("width".to_string(), width));
    fields.push(("height".to_string(), height));
    let r = LpValue::Struct { name: Some("Dim2u".to_string()), fields };
    assert(r@->fields =~= seq![("width"@, width), ("height"@, height)]);
    r
}

/// The edits that make a fixture a plain area of pixels: whether strip order
/// means anything, no map, and the area itself.
pub open spec fn area_edits(
    presets: UiShapePresets,
    strip_order: bool,
    width: u32,
    height: u32,
) -> Seq<ActionModel> {
    (match address_opt(presets.strip_order) {
        Some(address) => seq![
            ActionModel::SetValue { address, value: LpValueView::Bool(strip_order) },
        ],
        None => Seq::empty(),
    }) + (match address_opt(presets.mapping) {
        Some(address) => seq![ActionModel::EnsurePresent { address: address.field("Unset"@) }],
        None => Seq::empty(),
    }) + (match address_opt(presets.render_size) {
        Some(address) => seq![ActionModel::SetValue { address, value: dim2u(width, height) }],
        None => Seq::empty(),
    })
}

/// The edit that puts the question away.
pub open spec fn answered(node: Seq<char>) -> ActionModel {
    ActionModel::SetShapeGuided { node, guided: false }
}

/// The edits of a preset. A strip is as wide as the board's own strips.
pub open spec fn preset_edits(
    preset: ShapePreset,
    node: Seq<char>,
    presets: UiShapePresets,
    strip_pixels: u32,
) -> Seq<ActionModel> {
    match preset {
        ShapePreset::Strip => area_edits(presets, true, strip_pixels, STRIP_RENDER_HEIGHT).push(
            answered(node),
        ),
        ShapePreset::Matrix => area_edits(
            presets,
            false,
            MATRIX_RENDER_WIDTH,
            MATRIX_RENDER_HEIGHT,
        ).push(answered(node)),
        ShapePreset::MappedShape => seq![answered(node)],
        ShapePreset::ThreeD => Seq::empty(),
    }
}

/// The edits that a preset sends, in order.
pub fn shape_preset_actions(
    preset: ShapePreset,
    node: &str,
    presets: &UiShapePresets,
    strip_pixels: u32,
) -> (r: Vec<UiAction>)
    ensures
        action_models(r@) == preset_edits(preset, node@, *presets, strip_pixels),
{
    let mut actions: Vec<UiAction> = Vec::new();
    let (width, height, strip_order): (u32, u32, bool) = match preset {
        ShapePreset::Strip => (strip_pixels, STRIP_RENDER_HEIGHT, true),
        ShapePreset::Matrix => (MATRIX_RENDER_WIDTH, MATRIX_RENDER_HEIGHT, false),
        ShapePreset::MappedShape => {
            actions.push(UiAction::SetShapeGuided { node: node.to_string(), guided: false });
            assert(action_models(actions@) =~= seq![answered(node@)]);
            return actions;
        },
        ShapePreset::ThreeD => {
            assert(action_models(actions@) =~= Seq::<ActionModel>::empty());
            return actions;
        },
    };
    if let Some(address) = &presets.strip_order {
        actions.push(
            UiAction::SetValue { address: address.clone(), value: LpValue::Bool(strip_order) },
        );
    }
    if let Some(mapping) = &presets.mapping {
        proof {
            reveal_strlit("Unset");
            assert(is_field_name("Unset"@));
        }
        if let Some(target) = mapping.child_field("Unset") {
            actions.push(UiAction::EnsurePresent { address: target });
        }
    }
    if let Some(address) = &presets.render_size {
        actions.push(
            UiAction::SetValue { address: address.clone(), value: dim2u_value(width, height) },
        );
    }
    assert(action_models(actions@) =~= area_edits(*presets, strip_order, width, height));
    let ghost filled = action_models(actions@);
    actions.push(UiAction::SetShapeGuided { node: node.to_string(), guided: false });
    assert(action_models(actions@) =~= filled.push(answered(node@)));
    actions
}

/// The edit that puts the question away without an answer.
pub fn skip_shape_action(node: &str) -> (r: UiAction)
    ensures
        r@ == answered(node@),
{
    UiAction::SetShapeGuided { node: node.to_string(), guided: false }
}

/// Every preset that can be pressed puts the question away, as its last edit and
/// whatever slots the fixture lacks.
pub proof fn every_answer_puts_the_question_away(
    preset: ShapePreset,
    node: Seq<char>,
    presets: UiShapePresets,
    strip_pixels: u32,
)
    requires
        preset != ShapePreset::ThreeD,
    ensures
        preset_edits(preset, node, presets, strip_pixels).len() >= 1,
        preset_edits(preset, node, presets, strip_pixels).last() == answered(node),
{
}

/// The area says the dimension: a strip is one row, a matrix is more.
pub proof fn the_area_says_the_dimension()
    ensures
        STRIP_RENDER_HEIGHT == 1,
        MATRIX_RENDER_HEIGHT > 1,
{
}

pub const SHAPE_TILE_CLASS: &'static str = "tw:grid tw:min-w-0 tw:cursor-pointer tw:appearance-none tw:gap-0.5 tw:rounded-xs tw:border tw:border-border-subtle tw:bg-transparent tw:p-1.5 tw:text-left tw:text-muted-foreground tw:hover:border-accent-border tw:hover:text-strong-foreground";

pub const SHAPE_TILE_INERT_CLASS: &'static str = "tw:grid tw:min-w-0 tw:appearance-none tw:gap-0.5 tw:rounded-xs tw:border tw:border-border-subtle tw:bg-transparent tw:p-1.5 tw:text-left tw:text-dim-foreground tw:opacity-60";

/// The frame of a preset tile.
pub fn shape_tile_class(enabled: bool) -> (r: &'static str)
    ensures
        r@ == if enabled {
            SHAPE_TILE_CLASS@
        } else {
            SHAPE_TILE_INERT_CLASS@
        },
{
    if enabled {
        SHAPE_TILE_CLASS
    } else {
        SHAPE_TILE_INERT_CLASS
    }
}

/// One tile of the question.
#[derive(Clone, Debug, PartialEq, Eq)]
pub struct ShapeTile {
    pub preset: ShapePreset,
    pub enabled: bool,
    /// Pressing the tile opens the mapping editor besides.
    pub opens_mapping: bool,
    pub class: &'static str,
    pub label: &'static str,
    pub hint: &'static str,
    pub title: String,
}

/// A tile can be pressed: the plain areas always, the mapped shape where there
/// is a map to edit and an editor to open.
pub open spec fn tile_enabled(preset: ShapePreset, mappable: bool) -> bool {
    match preset {
        ShapePreset::Strip | ShapePreset::Matrix => true,
        ShapePreset::MappedShape => mappable,
        ShapePreset::ThreeD => false,
    }
}

/// A tile's tooltip.
pub open spec fn tile_title(preset: ShapePreset, mappable: bool) -> Seq<char> {
    match preset {
        ShapePreset::Strip | ShapePreset::Matrix => preset_hint(preset),
        ShapePreset::MappedShape => if mappable {
            "open the mapping editor — the map is the shape"@
        } else {
            "needs a map2d mapping document (add one in the advanced drawer)"@
        },
        ShapePreset::ThreeD => preset_hint(preset) + " — not yet"@,
    }
}

/// One tile of the question, given whether a mapping editor can be opened.
pub fn shape_tile(preset: ShapePreset, presets: &UiShapePresets, can_open_mapping: bool) -> (r:
    ShapeTile)
    ensures
        ({
            let mappable = presets.has_map2d && can_open_mapping;
            let enabled = tile_enabled(preset, mappable);
            &&& r.preset == preset
            &&& r.enabled == enabled
            &&& r.opens_mapping == (enabled && preset == ShapePreset::MappedShape)
            &&& r.class@ == if enabled {
                SHAPE_TILE_CLASS@
            } else {
                SHAPE_TILE_INERT_CLASS@
            }
            &&& r.label@ == preset_name(preset)
            &&& r.hint@ == preset_hint(preset)
            &&& r.title@ == tile_title(preset, mappable)
        }),
{
    let mappable: bool = presets.has_map2d && can_open_mapping;
    let enabled: bool = match preset {
        ShapePreset::Strip | ShapePreset::Matrix => true,
        ShapePreset::MappedShape => mappable,
        ShapePreset::ThreeD => false,
    };
    let title: String = match preset {
        ShapePreset::Strip | ShapePreset::Matrix => preset.hint().to_string(),
        ShapePreset::MappedShape => if mappable {
            "open the mapping editor — the map is the shape".to_string()
        } else {
            "needs a map2d mapping document (add one in the advanced drawer)".to_string()
        },
        ShapePreset::ThreeD => {
            let mut text: String = preset.hint().to_string();
            text.append(" — not yet");
            text
        },
    };
    ShapeTile {
        preset,
        enabled,
        opens_mapping: enabled && preset == ShapePreset::MappedShape,
        class: shape_tile_class(enabled),
        label: preset.label(),
        hint: preset.hint(),
        title,
    }
}

} // verus!
