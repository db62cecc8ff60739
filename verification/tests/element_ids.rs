use jellyflow_open_gpui::element_ids::{
    id_segment,
    open_gpui_action_button_element_id, open_gpui_action_menu_element_id,
    open_gpui_action_summary_element_id, open_gpui_blackboard_item_element_id,
    open_gpui_blackboard_status_element_id, open_gpui_chrome_fallback_button_element_id,
    open_gpui_control_element_id, open_gpui_custom_action_missing_element_id,
    open_gpui_custom_renderer_badge_element_id, open_gpui_custom_repeatables_badge_element_id,
    open_gpui_custom_slots_badge_element_id, open_gpui_node_element_scope,
    open_gpui_repeatable_add_action_element_id, open_gpui_repeatable_collection_element_id,
    open_gpui_repeatable_item_element_id, open_gpui_repeatable_remove_action_element_id,
    open_gpui_repeatable_reorder_action_element_id, open_gpui_slot_action_button_element_id,
    open_gpui_slot_action_label_element_id, open_gpui_slot_badge_element_id,
    open_gpui_slot_preview_progress_element_id, open_gpui_slot_status_label_element_id,
    open_gpui_slot_value_element_id,
};
use jellyflow_open_gpui::node_id::NodeId;

const NODE_ONE: &str = "00000000-0000-0000-0000-000000000001";

#[test]
fn node_scoped_element_ids_do_not_collide_for_same_keys() {
    let first = NodeId::from_u128(1);
    let second = NodeId::from_u128(2);

    assert_ne!(
        open_gpui_control_element_id(first, "field.prompt", "control.prompt", 0),
        open_gpui_control_element_id(second, "field.prompt", "control.prompt", 0)
    );
    assert_ne!(
        open_gpui_action_button_element_id(Some(first), "synthetic.Node", "action.llm.run", 0),
        open_gpui_action_button_element_id(Some(second), "synthetic.Node", "action.llm.run", 0)
    );
    assert_ne!(
        open_gpui_action_menu_element_id(Some(first), "synthetic.Node", "toolbar"),
        open_gpui_action_menu_element_id(Some(second), "synthetic.Node", "toolbar")
    );
    assert_ne!(
        open_gpui_chrome_fallback_button_element_id(first, "demo.llm"),
        open_gpui_chrome_fallback_button_element_id(second, "demo.llm")
    );
}

#[test]
fn graph_level_action_ids_use_graph_scope() {
    assert!(open_gpui_action_button_element_id(None, "synthetic.Graph", "action.graph", 0).contains(":graph:"));
    assert!(open_gpui_action_menu_element_id(None, "synthetic.Graph", "canvas").contains(":graph:"));
}

#[test]
fn repeatable_and_blackboard_ids_are_node_scoped() {
    let first = NodeId::from_u128(1);
    let second = NodeId::from_u128(2);

    assert_ne!(
        open_gpui_repeatable_item_element_id(first, "shader.inputs", "factor"),
        open_gpui_repeatable_item_element_id(second, "shader.inputs", "factor")
    );
    assert_ne!(
        open_gpui_repeatable_remove_action_element_id(first, "shader.inputs", "factor"),
        open_gpui_repeatable_remove_action_element_id(second, "shader.inputs", "factor")
    );
    assert_ne!(
        open_gpui_blackboard_item_element_id(first, "blackboard.shader.properties", "color"),
        open_gpui_blackboard_item_element_id(second, "blackboard.shader.properties", "color")
    );
    assert_ne!(
        open_gpui_slot_value_element_id(first, "field.prompt"),
        open_gpui_slot_value_element_id(second, "field.prompt")
    );
}

#[test]
fn id_segments_escape_separator_collisions() {
    let node = NodeId::from_u128(1);

    assert_ne!(
        open_gpui_action_button_element_id(Some(node), "menu:a", "b", 0),
        open_gpui_action_button_element_id(Some(node), "menu", "a:b", 0)
    );
    assert_ne!(
        open_gpui_control_element_id(node, "scope:a", "b", 0),
        open_gpui_control_element_id(node, "scope", "a:b", 0)
    );
    assert_ne!(
        open_gpui_repeatable_item_element_id(node, "items:a", "b"),
        open_gpui_repeatable_item_element_id(node, "items", "a:b")
    );
}

#[test]
fn custom_renderer_badges_are_node_scoped() {
    assert_ne!(
        open_gpui_custom_renderer_badge_element_id(NodeId::from_u128(1), "decision-card"),
        open_gpui_custom_renderer_badge_element_id(NodeId::from_u128(2), "decision-card")
    );
}

#[test]
fn element_ids_have_their_exact_text() {
    let node = NodeId::from_u128(1);
    assert_eq!(open_gpui_node_element_scope(Some(node)), NODE_ONE);
    assert_eq!(open_gpui_node_element_scope(None), "graph");
    assert_eq!(
        open_gpui_action_button_element_id(None, "menu:a", "50%", 12),
        "jellyflow-action-button:graph:menu%3Aa:50%25:12"
    );
    assert_eq!(
        open_gpui_action_menu_element_id(Some(node), "synthetic.Node", "toolbar"),
        format!("jellyflow-action-menu:{NODE_ONE}:synthetic.Node:toolbar")
    );
    assert_eq!(
        open_gpui_action_summary_element_id(node, "action.run"),
        format!("jellyflow-action-summary:{NODE_ONE}:action.run")
    );
    assert_eq!(
        open_gpui_slot_action_button_element_id(node, "field.prompt", 3),
        format!("jellyflow-action:{NODE_ONE}:field.prompt:3")
    );
    assert_eq!(
        open_gpui_control_element_id(node, "field.prompt", "control:prompt", 0),
        format!("jellyflow-control:{NODE_ONE}:field.prompt:control%3Aprompt:0")
    );
    assert_eq!(open_gpui_slot_badge_element_id(node, "s"), format!("jellyflow-slot-badge:{NODE_ONE}:s"));
    assert_eq!(open_gpui_slot_status_label_element_id(node, "s"), format!("jellyflow-status-label:{NODE_ONE}:s"));
    assert_eq!(open_gpui_slot_action_label_element_id(node, "s"), format!("jellyflow-action-label:{NODE_ONE}:s"));
    assert_eq!(
        open_gpui_slot_preview_progress_element_id(node, "s"),
        format!("jellyflow-preview-progress:{NODE_ONE}:s")
    );
    assert_eq!(
        open_gpui_blackboard_status_element_id(node, "bb"),
        format!("jellyflow-blackboard-status:{NODE_ONE}:bb")
    );
    assert_eq!(
        open_gpui_repeatable_collection_element_id(node, "items"),
        format!("jellyflow-repeatable:{NODE_ONE}:items")
    );
    assert_eq!(
        open_gpui_repeatable_add_action_element_id(node, "items"),
        format!("jellyflow-repeatable-add:{NODE_ONE}:items")
    );
    assert_eq!(
        open_gpui_repeatable_reorder_action_element_id(node, "items", "a"),
        format!("jellyflow-repeatable-up:{NODE_ONE}:items:a")
    );
    assert_eq!(
        open_gpui_custom_action_missing_element_id(node),
        format!("jellyflow-custom-action-missing:{NODE_ONE}")
    );
    assert_eq!(open_gpui_custom_slots_badge_element_id(node), format!("jellyflow-custom-slots:{NODE_ONE}"));
    assert_eq!(
        open_gpui_custom_repeatables_badge_element_id(node),
        format!("jellyflow-custom-repeatables:{NODE_ONE}")
    );
}

#[test]
fn node_ids_print_as_hyphenated_uuids() {
    assert_eq!(
        NodeId::from_u128(0x0123_4567_89ab_cdef_0011_2233_4455_6677).to_text(),
        "01234567-89ab-cdef-0011-223344556677"
    );
    assert_eq!(NodeId::from_u128(u128::MAX).to_text(), "ffffffff-ffff-ffff-ffff-ffffffffffff");
    assert_eq!(NodeId::from_u128(0).to_text(), "00000000-0000-0000-0000-000000000000");
}

#[test]
fn id_segment_escapes_percent_before_colon() {
    assert_eq!(id_segment("a:b"), "a%3Ab");
    assert_eq!(id_segment("%3A"), "%253A");
    assert_eq!(id_segment("plain.key"), "plain.key");
    assert_eq!(id_segment(""), "");
    assert_ne!(id_segment("a:b"), id_segment("a%3Ab"));
}
