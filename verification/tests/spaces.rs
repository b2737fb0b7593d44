use studio_faces::action::UiAction;
use studio_faces::shape_moment::{
    shape_preset_actions, shape_tile, skip_shape_action, ShapePreset, UiShapePresets,
    MATRIX_RENDER_HEIGHT, STRIP_RENDER_HEIGHT,
};
use studio_faces::slot::ProjectSlotAddress;
use studio_faces::space_section::{
    active_glyph, active_variant_label, cell_label, choice_actions, face_space_badge, glyph_for, ladder_line,
    mismatch_line, modifier_action, modifier_tile_projection, preview_space_caption, primary_hint,
    projection_label, segment_group_class, serpentine_segments, space_badge,
    space_section_summary, tile_glyph, variant_label, wire_direction_action, Modifier, SpaceGlyph,
    UiCellProjection, UiProjectionOrigin, UiProjectionShape, UiSpaceBoolRow, UiSpaceCell,
    UiSpaceCellRole, UiSpaceChoice, UiSpaceMismatch, UiSpaceModifiers, UiSpaceSection,
    UiSpaceSide, UiVisualProductSpace, UiVisualSpace, UiWireDirectionRow, ALONG_WIRE_VARIANT,
    CONSUMER_ALONG_WIRE, CONSUMER_FOLLOW, CONSUMER_HINT_ALONG_WIRE, CONSUMER_HINT_FOLLOW,
    CONSUMER_HINT_OVERRIDE, CONSUMER_PRIMARY_LABEL, LADDER_PRODUCER, SPACE_ONE_D,
};

fn choice(variant: &str, selected: bool) -> UiSpaceChoice {
    UiSpaceChoice {
        variant: variant.to_string(),
        label: format!("dto:{variant}"),
        projection: None,
        selected,
    }
}

fn cell(role: UiSpaceCellRole, active: &str, variants: &[&str]) -> UiSpaceCell {
    UiSpaceCell {
        role,
        label: "row".to_string(),
        active: active.to_string(),
        active_label: format!("dto:{active}"),
        choices: variants
            .iter()
            .map(|variant| choice(variant, *variant == active))
            .collect(),
        address: None,
        editable: true,
        modifiers: None,
        wire_direction: None,
        strip_order: None,
    }
}

fn bool_row(value: bool) -> UiSpaceBoolRow {
    UiSpaceBoolRow { value, address: None, editable: true }
}

fn modifiers(mirror: bool, flip: bool) -> UiSpaceModifiers {
    UiSpaceModifiers { mirror: bool_row(mirror), flip: bool_row(flip) }
}

fn producer(active: &str, cells: Vec<UiSpaceCell>) -> UiSpaceSection {
    UiSpaceSection {
        side: UiSpaceSide::Producer,
        primary: cell(UiSpaceCellRole::Primary, active, &["TwoD", "OneD"]),
        declared_space: Some(if active == "OneD" {
            UiVisualSpace::OneD
        } else {
            UiVisualSpace::TwoD
        }),
        cells,
        mismatch: None,
    }
}

fn consumer(active: &str) -> UiSpaceSection {
    UiSpaceSection {
        side: UiSpaceSide::Consumer,
        primary: cell(
            UiSpaceCellRole::Primary,
            active,
            &[ALONG_WIRE_VARIANT, "Auto", "ExtrudeX", "ExtrudeY", "Radial", "Angular"],
        ),
        declared_space: None,
        cells: Vec::new(),
        mismatch: None,
    }
}

fn shape_cell(active: &str) -> UiSpaceCell {
    cell(
        UiSpaceCellRole::ProducerIn2d,
        active,
        &["ExtrudeX", "ExtrudeY", "Radial", "Angular"],
    )
}

#[test]
fn captions_spell_the_shape_and_its_modifiers() {
    assert_eq!(
        projection_label(UiCellProjection::plain(UiProjectionShape::ExtrudeX)),
        "extrude-x"
    );
    assert_eq!(
        projection_label(UiCellProjection {
            shape: UiProjectionShape::ExtrudeX,
            mirror: true,
            flip: true,
        }),
        "extrude-x · mirrored · flipped"
    );
    assert_eq!(
        projection_label(UiCellProjection {
            shape: UiProjectionShape::Angular,
            mirror: true,
            flip: false,
        }),
        "angular · mirrored",
        "the up-and-back sweep — a state the old vocabulary could not spell"
    );
    assert_eq!(
        projection_label(UiCellProjection {
            shape: UiProjectionShape::Radial,
            mirror: false,
            flip: true,
        }),
        "radial · flipped"
    );
}

#[test]
fn summaries_wear_the_live_modifiers() {
    let mut answer = shape_cell("Radial");
    answer.modifiers = Some(modifiers(false, true));
    let shader = producer("OneD", vec![answer]);
    assert_eq!(
        space_section_summary(&shader),
        "1D · in 2D: radial · flipped"
    );

    let mut fixture = consumer("Angular");
    fixture.primary.modifiers = Some(modifiers(true, false));
    assert_eq!(
        space_section_summary(&fixture),
        "1D sources: angular · mirrored (override)"
    );

    let mut wire = consumer(ALONG_WIRE_VARIANT);
    wire.primary.wire_direction = Some(UiWireDirectionRow {
        reversed: true,
        address: None,
        editable: true,
    });
    assert_eq!(space_section_summary(&wire), "along the wire ←");
}

#[test]
fn tiles_reflect_each_other() {
    assert_eq!(
        tile_glyph(UiSpaceCellRole::ProducerIn2d, "Radial", Some((true, false))),
        SpaceGlyph::Projection(UiCellProjection {
            shape: UiProjectionShape::Radial,
            mirror: true,
            flip: false,
        })
    );
    assert_eq!(
        tile_glyph(UiSpaceCellRole::Primary, "Auto", Some((true, true))),
        SpaceGlyph::FollowSource
    );
    let base = UiCellProjection {
        shape: UiProjectionShape::Angular,
        mirror: false,
        flip: true,
    };
    assert_eq!(
        modifier_tile_projection(base, Modifier::Mirror),
        UiCellProjection {
            shape: UiProjectionShape::Angular,
            mirror: true,
            flip: true,
        }
    );
    assert_eq!(
        modifier_tile_projection(base, Modifier::Flip),
        base,
        "flip already on: the tile shows the current state itself"
    );
}

#[test]
fn the_active_glyph_composes_shape_and_modifiers() {
    let mut answer = shape_cell("Angular");
    answer.modifiers = Some(modifiers(true, false));
    assert_eq!(
        active_glyph(&answer),
        SpaceGlyph::Projection(UiCellProjection {
            shape: UiProjectionShape::Angular,
            mirror: true,
            flip: false,
        })
    );
    assert_eq!(
        glyph_for(UiSpaceCellRole::ProducerIn2d, "ExtrudeY"),
        SpaceGlyph::Projection(UiCellProjection::plain(UiProjectionShape::ExtrudeY))
    );
    assert_eq!(
        glyph_for(UiSpaceCellRole::Primary, "Auto"),
        SpaceGlyph::FollowSource
    );
    assert_eq!(
        glyph_for(UiSpaceCellRole::ProducerIn1d, "Default"),
        SpaceGlyph::CentreScanline
    );
}

#[test]
fn consumer_choices_dispatch_the_op_sequence() {
    let address = ProjectSlotAddress::new("/demo.module/panel.fixture", "def", "consume");
    let strip =
        ProjectSlotAddress::new("/demo.module/panel.fixture", "def", "strip_order_meaningful");

    let along = choice_actions(
        UiSpaceSide::Consumer,
        UiSpaceCellRole::Primary,
        &address,
        Some(&strip),
        ALONG_WIRE_VARIANT,
    );
    assert_eq!(along.len(), 1, "one SetValue — consume is untouched");

    let auto = choice_actions(
        UiSpaceSide::Consumer,
        UiSpaceCellRole::Primary,
        &address,
        Some(&strip),
        "Auto",
    );
    assert_eq!(auto.len(), 2, "clear the bit, ensure consume.Auto");

    let shape = choice_actions(
        UiSpaceSide::Consumer,
        UiSpaceCellRole::Primary,
        &address,
        Some(&strip),
        "ExtrudeY",
    );
    assert_eq!(
        shape.len(),
        4,
        "clear the bit, ensure Policy, ensure from_1d.Project.shape.ExtrudeY, set force"
    );

    let producer = choice_actions(
        UiSpaceSide::Producer,
        UiSpaceCellRole::ProducerIn2d,
        &address,
        None,
        "Radial",
    );
    assert_eq!(producer.len(), 1);
}

#[test]
fn summaries_state_the_declaration_at_a_glance() {
    let shader = producer("OneD", vec![shape_cell("Radial")]);
    assert_eq!(space_section_summary(&shader), "1D · in 2D: radial");
    assert_eq!(space_section_summary(&producer("TwoD", Vec::new())), "2D");
    assert_eq!(space_section_summary(&consumer("Auto")), CONSUMER_FOLLOW);
    assert_eq!(
        space_section_summary(&consumer("ExtrudeY")),
        "1D sources: extrude-y (override)"
    );
    assert_eq!(
        space_section_summary(&consumer(ALONG_WIRE_VARIANT)),
        CONSUMER_ALONG_WIRE
    );
}

#[test]
fn an_unknown_variant_falls_back_to_the_dto_label() {
    let unknown = choice("Cylindrical", true);
    assert_eq!(
        variant_label(
            UiSpaceSide::Producer,
            UiSpaceCellRole::ProducerIn2d,
            &unknown
        ),
        "dto:Cylindrical"
    );
}

#[test]
fn the_two_sides_share_one_shape_and_two_vocabularies() {
    let shader = producer("OneD", Vec::new());
    let fixture = consumer("Auto");
    assert_eq!(
        active_variant_label(shader.side, &shader.primary),
        SPACE_ONE_D
    );
    assert_eq!(
        active_variant_label(fixture.side, &fixture.primary),
        CONSUMER_FOLLOW
    );
    assert_eq!(
        cell_label(UiSpaceSide::Consumer, UiSpaceCellRole::Primary),
        CONSUMER_PRIMARY_LABEL
    );
    assert_eq!(primary_hint(&fixture), CONSUMER_HINT_FOLLOW);
    assert_eq!(primary_hint(&consumer("Radial")), CONSUMER_HINT_OVERRIDE);
    assert_eq!(
        primary_hint(&consumer(ALONG_WIRE_VARIANT)),
        CONSUMER_HINT_ALONG_WIRE
    );
}

#[test]
fn the_ladder_names_the_rung_that_can_surprise() {
    assert_eq!(ladder_line(&producer("TwoD", Vec::new())), None);
    assert_eq!(
        ladder_line(&producer("OneD", vec![shape_cell("Radial")])),
        Some(LADDER_PRODUCER)
    );
    assert_eq!(ladder_line(&consumer("Auto")), None);
    assert_eq!(ladder_line(&consumer("Radial")), None);
}

#[test]
fn captions_name_the_space_the_projection_and_its_origin() {
    let native = UiVisualProductSpace {
        space: UiVisualSpace::OneD,
        projection: None,
        origin: None,
        primary: UiVisualSpace::OneD,
    };
    assert_eq!(
        preview_space_caption(UiVisualSpace::OneD, Some(native)),
        "native · 1D"
    );

    let declared = UiVisualProductSpace {
        space: UiVisualSpace::TwoD,
        projection: Some(UiCellProjection::plain(UiProjectionShape::Radial)),
        origin: Some(UiProjectionOrigin::Declared),
        primary: UiVisualSpace::OneD,
    };
    assert_eq!(
        preview_space_caption(UiVisualSpace::TwoD, Some(declared)),
        "in 2D · radial (declared)"
    );

    let forced = UiVisualProductSpace {
        origin: Some(UiProjectionOrigin::Forced),
        projection: Some(UiCellProjection {
            shape: UiProjectionShape::ExtrudeX,
            mirror: true,
            flip: false,
        }),
        ..declared
    };
    assert_eq!(
        preview_space_caption(UiVisualSpace::TwoD, Some(forced)),
        "in 2D · extrude-x · mirrored (forced)"
    );

    let scanline = UiVisualProductSpace {
        space: UiVisualSpace::OneD,
        projection: None,
        origin: None,
        primary: UiVisualSpace::TwoD,
    };
    assert_eq!(
        preview_space_caption(UiVisualSpace::OneD, Some(scanline)),
        "in 1D · centre scanline"
    );

    assert_eq!(preview_space_caption(UiVisualSpace::TwoD, None), "2D");
}

#[test]
fn the_mismatch_names_both_sides() {
    let mismatch = UiSpaceMismatch {
        declared: UiVisualSpace::OneD,
        entry: UiVisualSpace::TwoD,
        message: "shader compile: declared 1D but defines `render_2d`".to_string(),
    };
    assert_eq!(
        mismatch_line(&mismatch),
        "declared 1D · the code defines render_2d"
    );
    assert!(segment_group_class(true).contains("status-error-border"));
}

#[test]
fn the_default_projection_reads_differently_in_each_row() {
    let default = choice("Default", true);
    let label = |role| variant_label(UiSpaceSide::Producer, role, &default);
    assert_eq!(label(UiSpaceCellRole::ProducerIn2d), "extrude \u{b7} default");
    assert_eq!(label(UiSpaceCellRole::ProducerIn1d), "centre scanline");
    assert_eq!(label(UiSpaceCellRole::Primary), "dto:Default");
    let silent = cell(UiSpaceCellRole::ProducerIn2d, "Default", &["Default", "Radial"]);
    assert_eq!(
        space_section_summary(&producer("OneD", vec![silent])),
        "1D \u{b7} in 2D: extrude \u{b7} default"
    );
}

#[test]
fn a_consumer_wears_no_badge() {
    let mut fixture = consumer("Auto");
    fixture.declared_space = Some(UiVisualSpace::OneD);
    assert_eq!(space_badge(&fixture), None);
    let shader = producer("OneD", Vec::new());
    assert_eq!(face_space_badge(Some(&shader)), Some("1D"));
    assert_eq!(face_space_badge(None), None);
}

#[test]
fn only_a_declared_space_earns_a_header_badge() {
    assert_eq!(space_badge(&producer("OneD", Vec::new())), Some("1D"));
    assert_eq!(space_badge(&producer("TwoD", Vec::new())), Some("2D"));
    assert_eq!(space_badge(&consumer("Auto")), None);
}

#[test]
fn switches_write_the_other_setting() {
    let address = ProjectSlotAddress::new("/demo.module/panel.fixture", "def", "flip");
    let mut row = bool_row(false);
    assert_eq!(modifier_action(&row), None);
    row.address = Some(address.clone());
    assert!(matches!(
        modifier_action(&row),
        Some(UiAction::SetValue { value: studio_faces::slot::LpValue::Bool(true), .. })
    ));
    row.editable = false;
    assert_eq!(modifier_action(&row), None);
    let wire = UiWireDirectionRow { reversed: true, address: Some(address), editable: true };
    assert_eq!(wire_direction_action(&wire, true), None);
    assert!(wire_direction_action(&wire, false).is_some());
    let there = serpentine_segments(false);
    let back = serpentine_segments(true);
    assert_eq!(there.len(), 14);
    assert_eq!(there[0].step, back[13].step);
}

fn presets() -> UiShapePresets {
    let address = |path: &str| {
        Some(ProjectSlotAddress::new("/demo.module/halo.fixture", "def", path))
    };
    UiShapePresets {
        mapping: address("mapping"),
        render_size: address("render_size"),
        strip_order: address("strip_order_meaningful"),
        has_map2d: true,
    }
}

#[test]
fn presets_fill_real_slots_and_clear_the_guided_bit() {
    let node = "/demo.module/halo.fixture";
    assert_eq!(
        shape_preset_actions(ShapePreset::Strip, node, &presets(), 60).len(),
        4,
        "strip order, mapping ensure, render size, clear"
    );
    assert_eq!(
        shape_preset_actions(ShapePreset::Matrix, node, &presets(), 60).len(),
        4
    );
    assert_eq!(
        shape_preset_actions(ShapePreset::MappedShape, node, &presets(), 60).len(),
        1,
        "no slot writes — the mapping editor is the landing"
    );
    assert!(shape_preset_actions(ShapePreset::ThreeD, node, &presets(), 60).is_empty());
}

#[test]
fn missing_rows_drop_their_writes_but_the_moment_still_resolves() {
    let bare = UiShapePresets {
        mapping: None,
        render_size: None,
        strip_order: None,
        has_map2d: false,
    };
    let actions =
        shape_preset_actions(ShapePreset::Strip, "/demo.module/halo.fixture", &bare, 60);
    assert_eq!(actions.len(), 1, "only the guided-bit clear remains");
}

#[test]
fn the_preset_areas_encode_the_dimensionality() {
    assert_eq!(STRIP_RENDER_HEIGHT, 1);
    assert!(MATRIX_RENDER_HEIGHT > 1);
}

#[test]
fn every_answer_to_the_shape_question_puts_it_away() {
    let node = "/demo.module/halo.fixture";
    let skipped = skip_shape_action(node);
    assert_eq!(
        skipped,
        UiAction::SetShapeGuided { node: node.to_string(), guided: false }
    );
    for preset in [ShapePreset::Strip, ShapePreset::Matrix, ShapePreset::MappedShape] {
        let actions = shape_preset_actions(preset, node, &presets(), 60);
        assert_eq!(actions.last(), Some(&skipped));
    }
    assert!(!shape_tile(ShapePreset::ThreeD, &presets(), true).enabled);
    assert!(shape_tile(ShapePreset::Strip, &presets(), true).enabled);
}
