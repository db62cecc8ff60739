use jellyflow_open_gpui::adapter::OpenGpuiMeasurementMode;
use jellyflow_open_gpui::projection::{
    NodeSurfaceSlotKind, NodeSurfaceSlotProjection, NodeSurfaceSlotVisibility,
    OpenGpuiNodeSurfaceLayout, OpenGpuiRepeatableSurfaceProjection, compare_slots,
    ordered_visible_slot_projections, slot_projection_visibility,
};

fn slot(key: &str, kind: NodeSurfaceSlotKind, visible: bool) -> NodeSurfaceSlotProjection {
    NodeSurfaceSlotProjection { key: key.to_string(), kind, visible }
}

fn keys(slots: &[NodeSurfaceSlotProjection]) -> Vec<String> {
    slots.iter().map(|slot| slot.key.clone()).collect()
}

fn llm_slots() -> Vec<NodeSurfaceSlotProjection> {
    vec![
        slot("header.title", NodeSurfaceSlotKind::Header, true),
        slot("field.prompt", NodeSurfaceSlotKind::FieldRow, true),
        slot("badge.model", NodeSurfaceSlotKind::Badge, false),
        slot("field.completion", NodeSurfaceSlotKind::FieldRow, true),
        slot("rail.ports", NodeSurfaceSlotKind::PortRail, true),
        slot("icon.kind", NodeSurfaceSlotKind::Icon, true),
    ]
}

#[test]
fn projection_layout_orders_visible_slots_and_repeatables() {
    let repeatables = vec![OpenGpuiRepeatableSurfaceProjection {
        key: "tools".to_string(),
        label: "Tools".to_string(),
        item_count: 2,
        controls: 3,
    }];
    let layout = OpenGpuiNodeSurfaceLayout::new(llm_slots(), repeatables, usize::MAX);

    assert_eq!(layout.measurement_mode, OpenGpuiMeasurementMode::ProjectionFallback);
    let laid: Vec<NodeSurfaceSlotProjection> = layout.slots.iter().map(|row| row.slot.clone()).collect();
    assert_eq!(
        keys(&laid),
        vec!["field.completion", "field.prompt", "rail.ports", "header.title", "icon.kind"]
    );
    let rows: Vec<usize> = layout.slots.iter().map(|row| row.row).collect();
    assert_eq!(rows, vec![0, 1, 2, 3, 4]);
    assert_eq!(layout.repeatables.len(), 1);
    assert_eq!(layout.repeatables[0].row, 5);
    assert_eq!(layout.repeatables[0].projection.key, "tools");
    assert_eq!(layout.slot_row("field.prompt"), Some(1));
    assert_eq!(layout.slot_row("field.completion"), Some(0));
    assert_eq!(layout.slot_row("badge.model"), None);
}

#[test]
fn layout_keeps_at_most_the_slot_limit_and_puts_repeatables_below() {
    let repeatables = vec![
        OpenGpuiRepeatableSurfaceProjection { key: "a".to_string(), label: "A".to_string(), item_count: 0, controls: 0 },
        OpenGpuiRepeatableSurfaceProjection { key: "b".to_string(), label: "B".to_string(), item_count: 1, controls: 2 },
    ];
    let layout = OpenGpuiNodeSurfaceLayout::new(llm_slots(), repeatables, 2);

    let laid: Vec<NodeSurfaceSlotProjection> = layout.slots.iter().map(|row| row.slot.clone()).collect();
    assert_eq!(keys(&laid), vec!["field.completion", "field.prompt"]);
    assert_eq!(layout.repeatables[0].row, 2);
    assert_eq!(layout.repeatables[1].row, 3);
    assert_eq!(layout.repeatables[1].projection.key, "b");
    assert_eq!(layout.slot_row("rail.ports"), None);
}

#[test]
fn layout_with_no_slot_room_starts_repeatables_at_the_top() {
    let repeatables = vec![OpenGpuiRepeatableSurfaceProjection {
        key: "rows".to_string(),
        label: "Rows".to_string(),
        item_count: 4,
        controls: 1,
    }];
    let layout = OpenGpuiNodeSurfaceLayout::new(llm_slots(), repeatables, 0);
    assert!(layout.slots.is_empty());
    assert_eq!(layout.repeatables[0].row, 0);
}

#[test]
fn ordered_visible_slots_drop_hidden_and_sort_by_priority_then_key() {
    let ordered = ordered_visible_slot_projections(llm_slots());
    assert_eq!(
        keys(&ordered),
        vec!["field.completion", "field.prompt", "rail.ports", "header.title", "icon.kind"]
    );
    assert!(ordered.iter().all(|slot| slot.visible));
    assert!(ordered_visible_slot_projections(Vec::new()).is_empty());
    assert!(ordered_visible_slot_projections(vec![slot("x", NodeSurfaceSlotKind::Body, false)]).is_empty());
}

#[test]
fn slot_order_compares_priority_before_key() {
    let field = slot("z", NodeSurfaceSlotKind::FieldRow, true);
    let header = slot("a", NodeSurfaceSlotKind::Header, true);
    assert_eq!(compare_slots(&field, &header), -1);
    assert_eq!(compare_slots(&header, &field), 1);
    assert_eq!(compare_slots(&field, &field), 0);
    let other = slot("y", NodeSurfaceSlotKind::FieldRow, true);
    assert_eq!(compare_slots(&other, &field), -1);
}

#[test]
fn slot_visibility_follows_the_projection_flag() {
    assert_eq!(
        slot_projection_visibility(&slot("a", NodeSurfaceSlotKind::Body, true)),
        NodeSurfaceSlotVisibility::Visible
    );
    assert_eq!(
        slot_projection_visibility(&slot("a", NodeSurfaceSlotKind::Body, false)),
        NodeSurfaceSlotVisibility::Hidden
    );
}
