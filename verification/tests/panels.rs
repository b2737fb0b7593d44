use studio_faces::action::{panel_gesture_action, PanelGesture, UiAction};
use studio_faces::aurora::{
    entry_held_panel, entry_panel, entry_scope, instance_label, palette_panel, plasma_one_panel,
    root_panel, three_state_panel, walk_address, BRIGHT, DIM, DRIFT_HELD, SPEED_HELD,
};
use studio_faces::aurora_cards::{
    channel, control_root_face, held_root_face, held_walk, plasma_wiring, root_module_node_view,
    root_wiring, NO_WRITER,
};
use studio_faces::module_face::{face_sections, hero_block, hero_block_class, toggle_wiring};
use studio_faces::module_scopes::{
    scope_display, scope_target, PLASMA_1_SCOPE, PLASMA_2_SCOPE, ROOT_SCOPE,
};
use studio_faces::node_view::{
    ModuleHeroProduct, UiModuleFace, UiNodeFace, UiNodeSection, UiProductKind,
};
use studio_faces::panel::{
    UiPanelControl, UiPanelControlState, UiPanelControlView, UiPanelEmit, UiPanelGroup,
    UiPanelTarget, UiPanelWidget, UiSlotValue, WireScopeRef,
};
use studio_faces::panel_control::{
    auto_save_switch, control_drawing, control_reset, fits, group_box, live_bool, panel_parts,
    panel_state_label_class, panel_state_readout_class, row_gap, scope_reset, shown_display,
    ControlIds, UiSlotAspectKind,
};
use studio_faces::panel_walk::{hold, touch, HeldControl, PanelWalk};
use studio_faces::slot::LpValue;
use studio_faces::wiring_views::{
    drawer_only_face, fyeah_bus_view, gradient_bus_view, output_bus_view, states_bus_view,
};

fn view(state: UiPanelControlState, source: Option<&str>) -> UiPanelControlView {
    UiPanelControlView::new(
        "speed",
        UiPanelControl {
            emit: UiPanelEmit::Value,
            label: "speed".to_string(),
            address: None,
            widget: UiPanelWidget::Knob {
                min: 0.0f32.to_bits(),
                max: 1.0f32.to_bits(),
                step: None,
            },
            value: UiSlotValue::F32(0.5f32.to_bits()),
            live_value: None,
            panel_target: None,
        },
    )
    .with_state(state, source)
}

#[test]
fn the_two_plasma_instances_are_independent_groups() {
    let panel = held_root_face().panel;
    assert_eq!(panel.groups.len(), 2);
    assert_eq!(panel.groups[0].scope, PLASMA_1_SCOPE);
    assert_eq!(panel.groups[1].scope, PLASMA_2_SCOPE);
    assert_eq!(panel.groups[0].engaged_total(), 1);
    assert_eq!(panel.groups[1].engaged_total(), 0);
    assert_eq!(
        panel.groups[1].controls[0].state,
        UiPanelControlState::ReadFollowing
    );
}

#[test]
fn clearing_a_scope_descends_into_its_nested_groups() {
    let mut walk = held_walk();
    assert_eq!(walk.face().panel.engaged_total(), 2);

    walk.apply_gesture(&PanelGesture::ClearScope {
        scope: scope_target(ROOT_SCOPE),
    });

    assert_eq!(walk.face().panel.engaged_total(), 0);
}

#[test]
fn clearing_one_control_leaves_its_siblings_alone() {
    let mut walk = held_walk();
    walk.apply_gesture(&PanelGesture::ClearControl {
        target: UiPanelTarget {
            scope: scope_target(PLASMA_1_SCOPE),
            channel: "speed".to_string(),
            engaged: true,
        },
    });

    assert_eq!(walk.face().panel.groups[0].engaged_total(), 0);
    assert_eq!(walk.face().panel.engaged_here(), 1);
    assert_eq!(
        walk.face().panel.groups[0].controls[0].state,
        UiPanelControlState::ReadFollowing
    );
}

#[test]
fn auto_save_is_a_view_gesture() {
    let mut walk = held_walk();
    assert_eq!(walk.face().auto_save, Some(true));
    walk.apply_gesture(&PanelGesture::SetAutoSave(false));
    assert_eq!(walk.face().auto_save, Some(false));
}

#[test]
fn side_by_side_groups_are_told_apart_by_their_labels() {
    let panel = held_root_face().panel;
    assert_eq!(panel.groups[0].label, "plasma 1");
    assert_eq!(panel.groups[1].label, "plasma 2");
    assert_ne!(panel.groups[0].label, panel.groups[1].label);
    let aspects = panel.groups[0].detail_aspects();
    assert!(aspects
        .iter()
        .any(|aspect| aspect.rows.iter().any(|row| row == PLASMA_1_SCOPE)));
}

#[test]
fn children_hang_below_the_card_not_inside_the_face() {
    let view = root_module_node_view();
    assert_eq!(view.children.len(), 5);
    let plasma = &view.children[2];
    assert_eq!(plasma.label, "plasma_1");
    assert!(matches!(plasma.face, Some(UiNodeFace::Module(_))));
    assert_eq!(plasma.children.len(), 1);
}

#[test]
fn one_control_two_cards_move_together() {
    let walk = held_walk();
    let Some(UiNodeFace::Controls(halo)) = &walk.view.children[4].face else {
        panic!("the fixture child wears a controls face");
    };
    assert_eq!(halo.controls[0].channel, "brightness");
    assert_eq!(halo.controls[0].state, UiPanelControlState::Engaged);
    assert_eq!(
        halo.controls[0].control.value,
        walk.face().panel.controls[0].control.value
    );
    assert_eq!(halo.controls[0].control.value, UiSlotValue::F32(DIM));
}

#[test]
fn the_three_panel_states_wear_three_different_families() {
    let states = [
        UiPanelControlState::ReadDefault,
        UiPanelControlState::ReadFollowing,
        UiPanelControlState::Engaged,
    ];
    let families: Vec<&str> = states.into_iter().map(panel_state_label_class).collect();
    assert_eq!(families.len(), 3);
    assert_ne!(families[0], families[1]);
    assert_ne!(families[1], families[2]);
    assert_ne!(families[0], families[2]);
    assert!(families[1].contains("bound"));
    assert!(!families[2].contains("bound"));
    assert!(families[2].contains("attention"));
    for family in families.iter().copied().chain(states.into_iter().map(panel_state_readout_class)) {
        assert!(!family.contains("good"), "green is valid-only: {family}");
    }
}

#[test]
fn a_following_control_reads_out_the_live_value_not_its_default() {
    assert_eq!(
        shown_display("1.60", Some("2.72"), UiPanelControlState::ReadFollowing),
        "2.72"
    );
    assert_eq!(
        shown_display("1.60", Some("2.72"), UiPanelControlState::Engaged),
        "1.60"
    );
    assert_eq!(
        shown_display("1.60", None, UiPanelControlState::ReadDefault),
        "1.60"
    );
}

#[test]
fn provenance_moved_into_the_detail_popup() {
    let held = view(UiPanelControlState::Engaged, Some("lfo · speed"));
    let aspects = held.detail_aspects("/aurora.module");
    assert_eq!(aspects[0].kind, UiSlotAspectKind::PanelState);
    assert_eq!(aspects[0].title, "Held");
    assert!(aspects[0].rows.iter().any(|row| row.contains("lfo · speed")));
    assert!(aspects[1].rows.iter().any(|row| row == "/aurora.module"));

    let following = view(UiPanelControlState::ReadFollowing, Some("lfo · hue"));
    assert_eq!(following.detail_aspects("/x")[0].title, "Following");
    let quiet = view(UiPanelControlState::ReadDefault, None);
    assert_eq!(quiet.detail_aspects("/x")[0].title, "At default");
}

#[test]
fn the_two_hero_blocks_share_one_geometry() {
    for geometry in ["tw:px-1.5", "tw:py-1", "tw:text-[0.6rem]", "tw:gap-1"] {
        assert!(hero_block_class(true).contains(geometry));
        assert!(hero_block_class(false).contains(geometry));
    }
    assert!(!hero_block_class(true).contains("rounded-full"));
    assert!(!hero_block_class(false).contains("rounded-full"));
    assert!(hero_block_class(false).contains("cursor-pointer"));
    assert!(hero_block_class(true).contains("cursor-default"));
}

#[test]
fn clearing_a_nested_scope_leaves_the_root_alone() {
    let mut walk = held_walk();
    walk.apply_gesture(&PanelGesture::ClearScope {
        scope: scope_target(PLASMA_1_SCOPE),
    });
    assert_eq!(walk.face().panel.engaged_total(), 1);
    assert_eq!(walk.face().panel.engaged_here(), 1);
    let once = walk.view.clone();
    walk.apply_gesture(&PanelGesture::ClearScope {
        scope: scope_target(PLASMA_1_SCOPE),
    });
    assert_eq!(walk.view, once);
}

#[test]
fn a_touch_takes_hold_and_later_ones_only_move_it() {
    let mut walk = PanelWalk::new(root_module_node_view());
    let address = walk.face().panel.controls[2].control.address.clone().unwrap();
    walk.apply_action(&UiAction::SetValue {
        address: address.clone(),
        value: LpValue::F32(0.1f32.to_bits()),
    });
    let first = walk.face().panel.controls[2].clone();
    assert_eq!(first.state, UiPanelControlState::Engaged);
    assert_eq!(first.source.as_deref(), Some("lfo · hue"));
    walk.apply_action(&UiAction::SetValue {
        address,
        value: LpValue::F32(0.2f32.to_bits()),
    });
    let second = walk.face().panel.controls[2].clone();
    assert_eq!(second.control.value, UiSlotValue::F32(0.2f32.to_bits()));
    assert_eq!(second.source, first.source);
    walk.apply_action(&UiAction::PanelAutoSave { enabled: false });
    assert_eq!(walk.face().panel.controls[2], second);
}

#[test]
fn clearing_the_root_scope_gives_back_the_untouched_card() {
    let mut walk = held_walk();
    assert_ne!(walk.view, root_module_node_view());
    walk.apply_action(&UiAction::SetValue {
        address: walk_address(ROOT_SCOPE, "speed"),
        value: LpValue::F32(0.1f32.to_bits()),
    });
    // The panel and the control's own card hold it, each under its own label.
    assert_eq!(walk.face().panel.controls[1].state, UiPanelControlState::Engaged);
    let Some(UiNodeFace::Controls(master)) = &walk.view.children[1].face else {
        panic!("the control's card wears a controls face");
    };
    assert_eq!(master.controls[0].state, UiPanelControlState::Engaged);
    walk.apply_gesture(&PanelGesture::ClearScope {
        scope: scope_target(ROOT_SCOPE),
    });
    assert_eq!(walk.face().panel.engaged_total(), 0);
    assert_eq!(walk.view, root_module_node_view());
    let Some(UiNodeFace::Controls(master)) = &walk.view.children[1].face else {
        panic!("the control's card wears a controls face");
    };
    assert_eq!(master.controls[0].control.label, "value");
    assert_eq!(master.controls[0].source.as_deref(), Some("this node writes it"));
}

#[test]
fn clearing_one_control_gives_each_card_its_own_back() {
    let mut walk = PanelWalk::new(root_module_node_view());
    walk.apply_action(&UiAction::SetValue {
        address: walk_address(ROOT_SCOPE, "speed"),
        value: LpValue::F32(0.9f32.to_bits()),
    });
    walk.apply_gesture(&PanelGesture::SetAutoSave(false));
    walk.apply_gesture(&PanelGesture::ClearControl {
        target: UiPanelTarget {
            scope: scope_target(ROOT_SCOPE),
            channel: "speed".to_string(),
            engaged: true,
        },
    });
    assert_eq!(walk.view.children, root_module_node_view().children);
    assert_eq!(walk.face().panel, root_panel());
    assert_eq!(walk.face().auto_save, Some(false));
}

#[test]
fn a_control_that_was_moved_is_given_back_by_its_identity() {
    let speed = || PanelGesture::ClearControl {
        target: UiPanelTarget {
            scope: scope_target(ROOT_SCOPE),
            channel: "speed".to_string(),
            engaged: true,
        },
    };
    let mut walk = PanelWalk::new(root_module_node_view());
    walk.apply_action(&UiAction::SetValue {
        address: walk_address(ROOT_SCOPE, "speed"),
        value: LpValue::F32(0.9f32.to_bits()),
    });
    // The panel's controls change places, and the control's card gets a face of
    // another kind.
    let Some(UiNodeFace::Module(face)) = &mut walk.view.face else {
        panic!("the root wears a module face");
    };
    face.panel.controls.swap(0, 1);
    let Some(UiNodeFace::Controls(group)) = walk.view.children[1].face.take() else {
        panic!("the control's card wears a controls face");
    };
    walk.view.children[1].face = Some(UiNodeFace::Module(UiModuleFace::new(group)));
    walk.apply_gesture(&speed());
    let untouched = root_panel();
    assert_eq!(walk.face().panel.controls[0], untouched.controls[1]);
    assert_eq!(walk.face().panel.controls[1], untouched.controls[0]);
    let Some(UiNodeFace::Module(master)) = &walk.view.children[1].face else {
        panic!("the face is a module's now");
    };
    assert_eq!(master.panel.controls[0], untouched.controls[1]);
    // A control that the untouched card does not know stays as it is.
    let Some(UiNodeFace::Module(face)) = &mut walk.view.face else {
        panic!("the root wears a module face");
    };
    face.panel.controls[3].channel = "unheard".to_string();
    let strange = walk.face().panel.controls[3].clone();
    walk.apply_gesture(&PanelGesture::ClearScope { scope: scope_target(ROOT_SCOPE) });
    assert_eq!(walk.face().panel.controls[3], strange);
}

#[test]
fn the_shader_of_a_plasma_shows_what_it_makes() {
    let view = root_module_node_view();
    let [UiNodeSection::ProducedProducts(products)] =
        view.children[2].children[0].sections.as_slice()
    else {
        panic!("the shader has one section");
    };
    assert_eq!(products.len(), 1);
    assert_eq!(products[0].kind, UiProductKind::Visual);
    assert_eq!(products[0].name, "output");
    assert_eq!(products[0].detail, None);
    assert!(products[0].tracking);
    assert_eq!(products[0].frame, Some((16, 5)));
    assert!(view.children[0].sections.is_empty());
}

#[test]
fn palettes_stand_on_channels() {
    let plain = UiSlotValue::Text("sunset".to_string());
    let cycle = UiSlotValue::Text("cycle".to_string());
    let bus = gradient_bus_view(&plain, "3 stops", &cycle, "2 palettes");
    assert_eq!(bus.channels.len(), 2);
    assert_eq!(bus.channels[0].name, "palette");
    assert_eq!(bus.channels[0].value.as_deref(), Some("3 stops"));
    assert_eq!(bus.channels[0].gradient, Some(plain));
    assert_eq!(bus.channels[1].name, "palette.cycle");
    assert_eq!(bus.channels[1].gradient, Some(cycle));
    assert_eq!(bus.channels[1].writers[0].node_label, "Palette");
    assert_eq!(bus.channels[1].writers[0].focus.as_deref(), Some("story.module"));
    assert_eq!(root_wiring().channels[0].writers[0].focus, None);
    let products = output_bus_view();
    let preview = products.channels[1].preview.unwrap();
    assert_eq!(preview.kind, UiProductKind::Control);
    assert!(preview.tracking);
}

#[test]
fn a_control_that_starts_out_held_was_touched() {
    let untouched = || PanelWalk::new(root_module_node_view());
    let held = untouched().with_held(&vec![HeldControl {
        scope: ROOT_SCOPE.to_string(),
        channel: "brightness".to_string(),
        value: DIM,
    }]);
    let mut touched = untouched();
    touched.apply_action(&UiAction::SetValue {
        address: walk_address(ROOT_SCOPE, "brightness"),
        value: LpValue::F32(DIM),
    });
    assert_eq!(held.view, touched.view);
    let control = &touched.face().panel.controls[0];
    assert!(control.control.panel_target.as_ref().is_some_and(|target| target.engaged));
    assert_eq!(control.source.as_deref(), Some("authored 200"));
}

#[test]
fn a_hold_of_nothing_known_displaces_the_project() {
    let mut quiet = view(UiPanelControlState::ReadDefault, None);
    hold(&mut quiet, 0.7f32.to_bits());
    assert_eq!(quiet.source.as_deref(), Some("project"));
    assert_eq!(quiet.state, UiPanelControlState::Engaged);
    assert_eq!(quiet.control.value, UiSlotValue::F32(0.7f32.to_bits()));
    touch(&mut quiet, &LpValue::Bool(true));
    assert_eq!(quiet.control.value, UiSlotValue::Bool(true));
}

#[test]
fn an_embedded_scope_reads_what_its_host_writes() {
    let host = root_wiring();
    let own = plasma_wiring();
    for name in ["time", "speed"] {
        let row = own.channels.iter().find(|row| row.name == name).unwrap();
        let source = host.channels.iter().find(|row| row.name == name).unwrap();
        assert!(row.writers.is_empty());
        assert!(!source.writers.is_empty());
        assert_eq!(row.value, source.value);
    }
    assert_eq!(own.channels[2].writers.len(), 1);
}

#[test]
fn the_entries_of_a_playlist_keep_their_own_state() {
    assert_eq!(entry_scope(0), "/aurora.module/set.playlist/drift.shader");
    assert_eq!(entry_scope(1), "/aurora.module/set.playlist/whirl.shader");
    assert_eq!(entry_scope(7), entry_scope(1));
    let drift = entry_held_panel(0);
    assert_eq!(drift.controls[0].control.value, UiSlotValue::F32(DRIFT_HELD));
    assert_eq!(DRIFT_HELD, 0.35f32.to_bits());
    assert_eq!(drift.engaged_total(), 1);
    assert_eq!(entry_held_panel(1), entry_panel(1));
    assert_eq!(entry_panel(1).controls[0].control.label, "Whirl");
    assert_eq!(
        entry_panel(1).controls[0].control.widget,
        UiPanelWidget::Knob { min: 0, max: 10.0f32.to_bits(), step: None }
    );
}

#[test]
fn numbers_of_the_example_are_what_they_read() {
    assert_eq!(BRIGHT, 200.0f32.to_bits());
    assert_eq!(DIM, 96.0f32.to_bits());
    assert_eq!(SPEED_HELD, 0.82f32.to_bits());
    let one = plasma_one_panel();
    assert_eq!(one.controls[0].control.value, UiSlotValue::F32(0.82f32.to_bits()));
    assert_eq!(one.controls[1].control.value, UiSlotValue::F32(0.32f32.to_bits()));
    let states = three_state_panel();
    assert_eq!(states.controls.len(), 9);
    assert_eq!(states.engaged_total(), 3);
    assert_eq!(states.controls[7].control.value, UiSlotValue::F32(180.0f32.to_bits()));
}

#[test]
fn instances_are_named_by_their_own_node() {
    assert_eq!(instance_label("/aurora.module/plasma_1.module"), "plasma 1");
    assert_eq!(instance_label("plain"), "plain");
    assert_eq!(instance_label("/a/b_c_d.x.y"), "b c d");
    assert_eq!(instance_label("/a/"), "");
}

#[test]
fn scopes_are_shown_by_their_paths() {
    for path in [ROOT_SCOPE, PLASMA_1_SCOPE, PLASMA_2_SCOPE] {
        assert_eq!(scope_display(&scope_target(path)), path);
    }
    assert_eq!(
        scope_target("/aurora.module/set.playlist/whirl.shader"),
        WireScopeRef::Sink { owner: 4, entry: 1 }
    );
}

#[test]
fn gestures_become_actions() {
    assert_eq!(
        panel_gesture_action(&PanelGesture::SetAutoSave(true)),
        UiAction::PanelAutoSave { enabled: true }
    );
    assert_eq!(
        panel_gesture_action(&PanelGesture::ClearScope { scope: scope_target(ROOT_SCOPE) }),
        UiAction::PanelClearScope { scope: WireScopeRef::Module { owner: 1 } }
    );
    let held = view(UiPanelControlState::Engaged, None);
    let reset = control_reset(&held, scope_target(PLASMA_2_SCOPE)).unwrap();
    assert_eq!(
        panel_gesture_action(&reset.gesture),
        UiAction::PanelClear {
            scope: WireScopeRef::Module { owner: 3 },
            channel: "speed".to_string(),
        }
    );
    assert_eq!(reset.label, "Reset speed");
    assert_eq!(
        reset.title,
        "Reset speed — drop the held value and follow the project again"
    );
    assert_eq!(
        control_reset(&view(UiPanelControlState::ReadFollowing, None), scope_target(ROOT_SCOPE)),
        None
    );
}

#[test]
fn a_scope_is_reset_only_where_something_is_held() {
    let panel = held_root_face().panel;
    let reset = scope_reset(&panel).unwrap();
    assert_eq!(reset.held, 2);
    assert_eq!(
        reset.label,
        "Reset 2 held controls in /aurora.module — panel writers are dropped and the project drives again"
    );
    assert_eq!(
        scope_reset(&panel.groups[0]).unwrap().label,
        "Reset 1 held control in /aurora.module/plasma_1.module — panel writers are dropped and the project drives again"
    );
    assert_eq!(scope_reset(&panel.groups[1]), None);
    let mut unknown = panel.clone();
    unknown.target = None;
    assert_eq!(scope_reset(&unknown), None);
    assert!(group_box(&panel.groups[0], false).heading_class.contains("engaged"));
    assert!(!group_box(&panel.groups[1], false).heading_class.contains("engaged"));
    assert_eq!(group_box(&panel, true).control_gap, "tw:gap-5");
    assert_eq!(row_gap(true), "tw:gap-6");
    assert_eq!(row_gap(false), "tw:gap-4");
}

#[test]
fn panels_show_what_they_have() {
    let empty = UiPanelGroup::new("Aurora Sign", ROOT_SCOPE);
    let parts = panel_parts(&empty, Some(true));
    assert!(parts.empty_note && !parts.affordances && !parts.controls && !parts.groups);
    let panel = held_root_face().panel;
    let parts = panel_parts(&panel, None);
    assert!(!parts.empty_note && parts.affordances && parts.controls && parts.groups);
    assert!(!panel_parts(&panel.groups[1], None).affordances);
    assert!(panel_parts(&panel.groups[1], Some(false)).affordances);
    let on = auto_save_switch(true);
    assert!(on.title.starts_with("Auto-save on"));
    assert_eq!(on.press, PanelGesture::SetAutoSave(false));
    assert_eq!(auto_save_switch(false).press, PanelGesture::SetAutoSave(true));
}

#[test]
fn controls_are_drawn_by_widget_and_state() {
    let following = control_drawing(&view(UiPanelControlState::ReadFollowing, None), false);
    assert!(following.bound && !following.engaged && following.shows_widget);
    assert!(following.readout_class.ends_with(" tw:text-status-bound-foreground"));
    assert!(following.column_class.contains("64px"));
    let play = control_drawing(&view(UiPanelControlState::Engaged, None), true);
    assert!(play.engaged && play.column_class.contains("76px"));
    let panel = held_root_face().panel;
    assert!(control_drawing(&panel.controls[0], true).column_class.contains("184px"));

    let knob = UiPanelWidget::Knob { min: 0, max: 0, step: None };
    assert!(fits(&knob, &UiSlotValue::F32(0)));
    assert!(!fits(&knob, &UiSlotValue::Bool(true)));
    assert!(fits(&UiPanelWidget::Toggle, &UiSlotValue::Bool(true)));
    assert!(!fits(&UiPanelWidget::Toggle, &UiSlotValue::Text("on".into())));

    assert_eq!(live_bool(&Some("true".into()), true), Some(true));
    assert_eq!(live_bool(&Some("false".into()), true), Some(false));
    assert_eq!(live_bool(&Some("1".into()), true), None);
    assert_eq!(live_bool(&Some("true".into()), false), None);
    assert_eq!(live_bool(&None, true), None);

    let mut ids = ControlIds::new();
    assert_eq!(ids.next_anchor_id(), "ux-module-control-1");
    assert_eq!(ids.next_anchor_id(), "ux-module-control-2");
}

#[test]
fn module_faces_show_what_they_have() {
    let face = held_root_face();
    let sections = face_sections(&face);
    assert!(sections.output && !sections.panel_first && sections.provenance);
    assert_eq!(sections.wiring.as_deref(), Some("5 channels · writers → readers"));
    assert_eq!(sections.hero_switch, None);
    let lamps = control_root_face();
    assert_eq!(lamps.wiring.as_ref().unwrap().channels.len(), 2);
    assert!(!face_sections(&lamps).provenance);
    let bare = drawer_only_face(fyeah_bus_view());
    assert!(face_sections(&bare).panel_first && face_sections(&bare).wiring_open);

    let node = Some("/aurora.module".to_string());
    assert_eq!(
        toggle_wiring(&node, true),
        Some(UiAction::SetDrawer {
            node: "/aurora.module".to_string(),
            drawer: studio_faces::action::NodeCardDrawer::Wiring,
            open: false,
        })
    );
    assert_eq!(toggle_wiring(&None, true), None);
    let lit = hero_block(&node, ModuleHeroProduct::Control, ModuleHeroProduct::Control);
    assert!(lit.pressed && lit.press.is_none());
    let other = hero_block(&node, ModuleHeroProduct::Control, ModuleHeroProduct::Visual);
    assert_eq!(other.title, "Show the raster");
    assert_eq!(
        other.press,
        Some(UiAction::SetHeroProduct {
            node: "/aurora.module".to_string(),
            product: ModuleHeroProduct::Visual,
        })
    );
}

#[test]
fn wiring_rows_say_where_they_stand() {
    let quiet = channel("speed", "Float", None, vec![], vec![]);
    assert_eq!(quiet.value_error.as_deref(), Some(NO_WRITER));
    let states = states_bus_view();
    assert_eq!(states.channels[0].readers[1].child_scope.as_deref(), Some("plasma_2"));
    assert!(states.channels[0].writers[1].shadowed);
    assert!(states.channels[2].contended);
    assert_eq!(output_bus_view().channels.len(), 2);
    assert_eq!(
        fyeah_bus_view().channels[3].value_error.as_deref(),
        Some("no provider produced a value")
    );
}

#[test]
fn palettes_stand_in_the_three_states() {
    let plain = UiSlotValue::Text("sunset".into());
    let cycle = UiSlotValue::Text("cycle".into());
    let panel = palette_panel(&plain, &cycle, "3 palettes");
    assert_eq!(panel.controls[0].state, UiPanelControlState::ReadDefault);
    assert_eq!(panel.controls[1].control.live_value.as_deref(), Some("3 palettes"));
    assert_eq!(panel.controls[2].state, UiPanelControlState::Engaged);
    assert_eq!(panel.controls[2].control.value, cycle);
}
