//! Verified decision logic of the node and module faces of the studio.

pub mod action;
pub mod add_node;
pub mod agent_chat;
pub mod aurora;
pub mod aurora_cards;
pub mod bus_laws;
pub mod button_face;
pub mod card_laws;
pub mod card_sections;
pub mod chat_laws;
pub mod clock_face;
pub mod clock_laws;
pub mod control_laws;
pub mod detail_laws;
pub mod example_laws;
pub mod fixture_face;
pub mod float_bits;
pub mod module_face;
pub mod module_scopes;
pub mod node_view;
pub mod output_face;
pub mod output_laws;
pub mod output_spread;
pub mod panel;
pub mod panel_control;
pub mod panel_laws;
pub mod panel_tree;
pub mod panel_walk;
pub mod patch_bay;
pub mod patch_laws;
pub mod pattern_laws;
pub mod pattern_picker;
pub mod pattern_set;
pub mod playlist_face;
pub mod shape_moment;
pub mod sign;
pub mod sign_laws;
pub mod slot;
pub mod space_laws;
pub mod space_section;
pub mod spread;
pub mod tape;
pub mod text;
pub mod text_laws;
pub mod walk_laws;
pub mod wiring_views;
