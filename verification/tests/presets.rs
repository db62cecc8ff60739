use jellyflow_open_gpui::controls::OpenGpuiControlPrimitive;
use jellyflow_open_gpui::presets::{
    NodeKitContentDensity, OpenGpuiComponentFitBudget, OpenGpuiConnectionPreviewPolicyEvidence,
    OpenGpuiGraphAffordanceEvidence, OpenGpuiSizeEvidence, OpenGpuiSurfaceStyleBudget,
    OpenGpuiWireRouteEvidence, density_priority_labels,
};

#[test]
fn style_budget_evidence_exposes_clickable_affordance_numbers() {
    let style = OpenGpuiSurfaceStyleBudget::for_renderer_key("shader-card").evidence();

    assert!(style.handle_radius >= 5);
    assert!(style.handle_hit_width >= 24);
    assert!(style.edge_hit_width >= style.edge_stroke_width);
}

#[test]
fn graph_affordance_evidence_serializes_route_hit_and_layout_budgets() {
    let evidence = OpenGpuiGraphAffordanceEvidence::for_renderer_key(
        "shader-card",
        OpenGpuiSurfaceStyleBudget::for_renderer_key("shader-card"),
    );

    assert_eq!(evidence.committed_wire_route, OpenGpuiWireRouteEvidence::Bezier);
    assert_eq!(
        evidence.connection_preview_policy,
        OpenGpuiConnectionPreviewPolicyEvidence::MirrorsCommittedRoute
    );
    assert!(evidence.has_product_route_policy());
    assert!(evidence.has_product_hit_budgets());
    assert!(evidence.has_layout_region_evidence());
}

#[test]
fn default_budget_applies_to_unknown_renderers() {
    let unknown = OpenGpuiSurfaceStyleBudget::for_renderer_key("unknown-card");
    assert_eq!(unknown, OpenGpuiSurfaceStyleBudget::default_budget());
    let table = OpenGpuiSurfaceStyleBudget::for_renderer_key("table-card");
    assert_eq!(table.row_height, 30);
    assert_eq!(table.handle_hit_width, 24);
}

#[test]
fn component_fit_budget_clamps_line_budgets() {
    let style = OpenGpuiSurfaceStyleBudget::for_renderer_key("shader-card");
    let fit = OpenGpuiComponentFitBudget::for_renderer_key("shader-card", style, Some(0), Some(5));
    assert_eq!(fit.content_horizontal_padding, 20);
    assert_eq!(fit.full_text_line_budget, 1);
    assert_eq!(fit.compact_text_line_budget, 1);
    assert!(fit.control_region_height >= 34);
    let unset = OpenGpuiComponentFitBudget::for_renderer_key("topic-card", style, None, None);
    assert_eq!(unset.full_text_line_budget, 2);
    assert_eq!(unset.compact_text_line_budget, 1);
}

#[test]
fn size_evidence_contains_a_smaller_minimum() {
    let actual = OpenGpuiSizeEvidence { width: 220, height: 160 };
    assert!(!actual.contains(OpenGpuiSizeEvidence { width: 420, height: 330 }));
    assert!(actual.contains(OpenGpuiSizeEvidence { width: 220, height: 100 }));
}

#[test]
fn density_labels_follow_priority_order() {
    assert_eq!(
        density_priority_labels(&vec![
            NodeKitContentDensity::Full,
            NodeKitContentDensity::Regular,
            NodeKitContentDensity::Compact
        ]),
        vec!["full", "regular", "compact"]
    );
    assert!(OpenGpuiControlPrimitive::VariablePickerStub.is_stub());
    assert!(!OpenGpuiControlPrimitive::Select.is_stub());
}
