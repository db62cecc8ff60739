use jellyflow_open_gpui::presets::{
    OpenGpuiConnectionPreviewPolicyEvidence, OpenGpuiGraphAffordanceEvidence, OpenGpuiSizeEvidence,
    OpenGpuiSurfaceStyleBudget,
};
use jellyflow_open_gpui::testing::host_surface::{
    OpenGpuiHostCapabilityGap, OpenGpuiHostRendererSource, OpenGpuiHostSurfaceReport,
    OpenGpuiHostSurfaceReportRow, assert_host_surface_report_contract,
    assert_product_gallery_host_report_gates,
};
use jellyflow_open_gpui::testing::interaction::{
    OpenGpuiHostProductInteractionGap, OpenGpuiHostProductInteractionReport,
    assert_product_interaction_report_gates,
};
use jellyflow_open_gpui::testing::lifecycle::{
    OpenGpuiNativeLifecycleEvidence, OpenGpuiNativeLifecycleGap, assert_native_lifecycle_evidence_gates,
};
use jellyflow_open_gpui::testing::screenshot::{
    OpenGpuiScreenshotFixtureEvidence, OpenGpuiScreenshotRegionEvidence, OpenGpuiScreenshotRegionGap,
    OpenGpuiScreenshotRegionKind, OpenGpuiScreenshotRegionRect, OpenGpuiScreenshotRegionReport,
    assert_screenshot_region_report_gates,
};
use jellyflow_open_gpui::testing::visual::{
    OpenGpuiHostVisualInteractionReport, OpenGpuiHostVisualSurfaceRow,
    assert_host_visual_interaction_report_gates,
};
use jellyflow_open_gpui::testing::{
    OpenGpuiProductFixtureFamily, OpenGpuiProductFixtureKind, product_fixture_catalog,
};

fn productized_graph_affordance_evidence() -> OpenGpuiGraphAffordanceEvidence {
    OpenGpuiGraphAffordanceEvidence::for_renderer_key(
        "shader-card",
        OpenGpuiSurfaceStyleBudget::for_renderer_key("shader-card"),
    )
}

fn has(set: &[String], text: &str) -> bool {
    set.iter().any(|s| s == text)
}

#[test]
fn product_fixture_catalog_lists_stable_gallery_cases() {
    let catalog = product_fixture_catalog();
    assert_eq!(catalog.len(), 4);
    assert!(catalog.iter().any(|fixture| {
        fixture.id == "workflow.review"
            && fixture.kind == OpenGpuiProductFixtureKind::DifyWorkflow
            && fixture.family == OpenGpuiProductFixtureFamily::Workflow
            && fixture.kit_key == "workflow.automation"
            && has(&fixture.expected_renderer_keys, "decision-card")
    }));
    assert!(catalog.iter().any(|fixture| {
        fixture.id == "shader.material_mix"
            && fixture.family == OpenGpuiProductFixtureFamily::ShaderGraph
            && has(&fixture.expected_renderer_keys, "shader-card")
            && has(&fixture.expected_capabilities, "dynamic-ports")
    }));
    assert!(catalog.iter().any(|fixture| {
        fixture.id == "erd.customer_orders"
            && fixture.family == OpenGpuiProductFixtureFamily::Erd
            && has(&fixture.expected_renderer_keys, "table-card")
    }));
    assert!(catalog.iter().any(|fixture| {
        fixture.id == "mind-map.strategy"
            && fixture.family == OpenGpuiProductFixtureFamily::MindMap
            && has(&fixture.expected_renderer_keys, "topic-card")
            && has(&fixture.expected_renderer_keys, "source-card")
    }));
}

#[test]
fn host_surface_report_contract_marks_fallback_and_gaps() {
    let fixtures = product_fixture_catalog();
    let mut report = OpenGpuiHostSurfaceReport::default();
    for fixture in &fixtures {
        let renderer_key = fixture.expected_renderer_keys.first().expect("expected renderer").clone();
        let mut row = OpenGpuiHostSurfaceReportRow::new(
            fixture,
            format!("node.{}", fixture.id),
            renderer_key.clone(),
            OpenGpuiHostRendererSource::ProductRenderer,
        )
        .with_measurement(2, 1)
        .with_style_budget(OpenGpuiSurfaceStyleBudget::for_renderer_key(&renderer_key).evidence());
        if fixture.kind == OpenGpuiProductFixtureKind::ShaderBlueprint {
            row = OpenGpuiHostSurfaceReportRow::new(
                fixture,
                "demo.shader.mix".to_owned(),
                "shader-card".to_owned(),
                OpenGpuiHostRendererSource::MissingHostRenderer,
            )
            .with_measurement(0, 0)
            .with_unsupported_control("control.color".to_owned());
        }
        report.push(row);
    }

    assert!(assert_host_surface_report_contract(&report).is_ok());
    let shader = *report
        .rows_for_fixture("shader.material_mix")
        .first()
        .expect("shader report row");
    assert!(shader.uses_renderer_fallback());
    assert!(shader.capability_gaps.contains(&OpenGpuiHostCapabilityGap::RendererFallback));
    assert!(shader.capability_gaps.contains(&OpenGpuiHostCapabilityGap::UnsupportedControl));
    assert!(shader.capability_gaps.contains(&OpenGpuiHostCapabilityGap::MissingMeasuredRegion));
}

#[test]
fn strict_gallery_gate_rejects_product_renderer_fallbacks() {
    let fixtures = product_fixture_catalog();
    let rows = fixtures
        .iter()
        .map(|fixture| {
            let source = if fixture.kind == OpenGpuiProductFixtureKind::DifyWorkflow {
                OpenGpuiHostRendererSource::ProductRenderer
            } else {
                OpenGpuiHostRendererSource::DescriptorFallback
            };
            let mut row = OpenGpuiHostSurfaceReportRow::new(
                fixture,
                format!("node.{}", fixture.id),
                fixture.expected_renderer_keys.first().expect("expected renderer").clone(),
                source,
            )
            .with_measurement(1, 1);
            if source == OpenGpuiHostRendererSource::ProductRenderer {
                let renderer_key = row.renderer_key.clone();
                row = row.with_style_budget(
                    OpenGpuiSurfaceStyleBudget::for_renderer_key(&renderer_key).evidence(),
                );
            }
            row
        })
        .collect();
    let report = OpenGpuiHostSurfaceReport::new(rows);

    assert!(
        assert_product_gallery_host_report_gates(&report).is_err(),
        "strict gallery gate must fail while product renderers are missing"
    );
}

#[test]
fn product_interaction_gate_accepts_productized_report() {
    let mut report = OpenGpuiHostProductInteractionReport::default();
    report.mark_drag_surface_coverage(product_fixture_catalog().len(), true);
    report.mark_control_event_shielding_checked(true);
    report.mark_port_hotspot_path_checked(true);
    report.mark_tool_switcher_visible(true);
    report.mark_connect_flow_store_synced(true);
    report.mark_reconnect_affordance_visible(true);
    report.mark_dropped_wire_gesture_connected(true);
    report.mark_graph_affordance_evidence(productized_graph_affordance_evidence());
    report.mark_repeatable_overflow(3, 1);

    assert!(assert_product_interaction_report_gates(&report).is_ok());
}

#[test]
fn product_interaction_gate_rejects_unresolved_product_gaps() {
    let mut report = OpenGpuiHostProductInteractionReport::default();
    report.mark_drag_surface_coverage(product_fixture_catalog().len(), true);
    report.mark_control_event_shielding_checked(true);
    report.mark_port_hotspot_path_checked(true);
    report.mark_tool_switcher_visible(true);
    report.mark_connect_flow_store_synced(false);
    report.mark_reconnect_affordance_visible(true);
    report.mark_dropped_wire_gesture_connected(true);
    report.mark_graph_affordance_evidence(productized_graph_affordance_evidence());
    report.mark_repeatable_overflow(3, 0);

    assert!(
        assert_product_interaction_report_gates(&report).is_err(),
        "product interaction hard gate must fail while connect sync or overflow indicators are missing"
    );
}

#[test]
fn product_interaction_gate_rejects_missing_graph_affordance_evidence() {
    let mut report = OpenGpuiHostProductInteractionReport::default();
    report.mark_drag_surface_coverage(product_fixture_catalog().len(), true);
    report.mark_control_event_shielding_checked(true);
    report.mark_port_hotspot_path_checked(true);
    report.mark_tool_switcher_visible(true);
    report.mark_connect_flow_store_synced(true);
    report.mark_reconnect_affordance_visible(true);
    report.mark_dropped_wire_gesture_connected(true);
    report.mark_repeatable_overflow(0, 0);

    assert!(
        assert_product_interaction_report_gates(&report).is_err(),
        "product interaction hard gate must fail until route, preview, port-hit, drag, and measurement affordance evidence is reported"
    );
}

#[test]
fn product_interaction_gate_rejects_direct_line_preview_fallback() {
    let mut report = OpenGpuiHostProductInteractionReport::default();
    report.mark_drag_surface_coverage(product_fixture_catalog().len(), true);
    report.mark_control_event_shielding_checked(true);
    report.mark_port_hotspot_path_checked(true);
    report.mark_tool_switcher_visible(true);
    report.mark_connect_flow_store_synced(true);
    report.mark_reconnect_affordance_visible(true);
    report.mark_dropped_wire_gesture_connected(true);

    let mut evidence = productized_graph_affordance_evidence();
    evidence.connection_preview_policy = OpenGpuiConnectionPreviewPolicyEvidence::DirectLineFallback;
    report.mark_graph_affordance_evidence(evidence);
    report.mark_repeatable_overflow(0, 0);

    assert!(report.gaps.contains(&OpenGpuiHostProductInteractionGap::GraphAffordanceRoutePolicyMissing));
    assert!(
        assert_product_interaction_report_gates(&report).is_err(),
        "product interaction hard gate must fail when previews fall back to direct lines"
    );
}

#[test]
fn native_lifecycle_gate_accepts_product_gallery_close_evidence() {
    let mut evidence = OpenGpuiNativeLifecycleEvidence::default();
    evidence.mark_product_gallery_rendered("workflow.review".to_owned(), 4);
    evidence.mark_product_drag_checked(true);
    evidence.mark_last_window_close(1, true, 0, true);

    assert!(assert_native_lifecycle_evidence_gates(&evidence).is_ok());
}

#[test]
fn native_lifecycle_gate_rejects_blank_window_evidence() {
    let mut evidence = OpenGpuiNativeLifecycleEvidence::default();
    evidence.mark_last_window_close(1, true, 0, true);

    assert!(
        assert_native_lifecycle_evidence_gates(&evidence).is_err(),
        "native lifecycle gate must reject evidence that never rendered product gallery content"
    );
}

#[test]
fn native_lifecycle_gate_rejects_close_automation_skip() {
    let mut evidence = OpenGpuiNativeLifecycleEvidence::default();
    evidence.mark_product_gallery_rendered("workflow.review".to_owned(), 4);
    evidence.mark_product_drag_checked(true);
    evidence.mark_close_automation_skipped("test platform does not support close".to_owned());

    assert!(
        assert_native_lifecycle_evidence_gates(&evidence).is_err(),
        "native lifecycle gate must reject skipped close automation"
    );
}

fn full_region(kind: OpenGpuiScreenshotRegionKind) -> OpenGpuiScreenshotRegionEvidence {
    OpenGpuiScreenshotRegionEvidence::new(
        kind,
        OpenGpuiScreenshotRegionRect { x: 8, y: 8, width: 64, height: 48 },
        1024,
        8,
    )
}

#[test]
fn screenshot_region_gate_accepts_every_product_region() {
    let mut report = OpenGpuiScreenshotRegionReport::default();
    for fixture in product_fixture_catalog() {
        let mut evidence = OpenGpuiScreenshotFixtureEvidence::captured(fixture.id, 1140, 650, 4096, 8);
        for kind in [
            OpenGpuiScreenshotRegionKind::NodeBody,
            OpenGpuiScreenshotRegionKind::NodeInternalUi,
            OpenGpuiScreenshotRegionKind::WirePath,
            OpenGpuiScreenshotRegionKind::PortArea,
        ] {
            evidence.push_region(full_region(kind));
        }
        report.push_fixture(evidence);
    }

    assert!(assert_screenshot_region_report_gates(&report).is_ok());
}

#[test]
fn screenshot_region_gate_rejects_missing_or_single_color_regions() {
    let mut report = OpenGpuiScreenshotRegionReport::default();
    let fixture = product_fixture_catalog().into_iter().next().expect("product fixture");
    let mut evidence = OpenGpuiScreenshotFixtureEvidence::captured(fixture.id, 1140, 650, 4096, 8);
    evidence.push_region(OpenGpuiScreenshotRegionEvidence::new(
        OpenGpuiScreenshotRegionKind::NodeBody,
        OpenGpuiScreenshotRegionRect { x: 8, y: 8, width: 64, height: 48 },
        1024,
        1,
    ));
    report.push_fixture(evidence);

    assert!(
        assert_screenshot_region_report_gates(&report).is_err(),
        "screenshot region gate must reject single-color or incomplete ROI evidence"
    );
}

#[test]
fn screenshot_region_gate_rejects_skipped_capture() {
    let report = OpenGpuiScreenshotRegionReport::skipped("headless renderer unavailable".to_owned());
    assert!(
        assert_screenshot_region_report_gates(&report).is_err(),
        "screenshot region gate must reject skipped capture as hard evidence"
    );
}

#[test]
fn visual_gate_rejects_unreadable_product_content() {
    let fixture = product_fixture_catalog()
        .into_iter()
        .find(|fixture| fixture.kind == OpenGpuiProductFixtureKind::ErdTable)
        .expect("ERD fixture");
    let mut report = OpenGpuiHostVisualInteractionReport::default();
    report.push(
        OpenGpuiHostVisualSurfaceRow::new(
            &fixture,
            "demo.table".to_owned(),
            "table-card".to_owned(),
            OpenGpuiHostRendererSource::ProductRenderer,
        )
        .with_content_bounds(true, false, true)
        .with_readability_budget(
            OpenGpuiSizeEvidence { width: 220, height: 160 },
            Some(OpenGpuiSizeEvidence { width: 420, height: 330 }),
        )
        .with_text_overflow_count(2)
        .with_handle_overlap_count(0)
        .with_stale_measured_regions(0)
        .with_repeatable_anchor_coverage(3, 3),
    );
    report.mark_invalid_hover_bounds_checked(true);
    report.mark_dropped_wire_menu_bounds_checked(true);
    report.mark_repeatable_edit_updates_anchors(true);
    report.mark_edge_endpoints_follow_measured_handles(true);

    assert!(
        assert_host_visual_interaction_report_gates(&report).is_err(),
        "visual gate must fail when product content is present but below readable budget"
    );
}

// Further scenarios of the lifecycle and screenshot evidence.

#[test]
fn native_lifecycle_gaps_follow_marks_in_declaration_order() {
    let mut evidence = OpenGpuiNativeLifecycleEvidence::default();
    evidence.mark_last_window_close(0, false, 2, false);
    assert_eq!(
        evidence.gaps,
        vec![
            OpenGpuiNativeLifecycleGap::ProductGalleryNotRendered,
            OpenGpuiNativeLifecycleGap::ProductDragUnchecked,
            OpenGpuiNativeLifecycleGap::LastWindowCloseRejected,
            OpenGpuiNativeLifecycleGap::NoWindowBeforeClose,
            OpenGpuiNativeLifecycleGap::WindowsRemainAfterClose,
            OpenGpuiNativeLifecycleGap::QuitNotObserved,
        ]
    );
    assert_eq!(evidence.gaps, evidence.computed_gaps());
}

#[test]
fn native_lifecycle_blank_skip_reason_is_its_own_gap() {
    let evidence = OpenGpuiNativeLifecycleEvidence::skipped("   ".to_owned());
    assert!(evidence.gaps.contains(&OpenGpuiNativeLifecycleGap::CloseAutomationSkipReasonMissing));
    assert!(!evidence.gaps.contains(&OpenGpuiNativeLifecycleGap::CloseAutomationSkipped));

    let mut blank_fixture = OpenGpuiNativeLifecycleEvidence::default();
    blank_fixture.mark_product_gallery_rendered(" \t".to_owned(), 3);
    assert!(blank_fixture.gaps.contains(&OpenGpuiNativeLifecycleGap::ProductGalleryNotRendered));
    assert!(blank_fixture.gaps.contains(&OpenGpuiNativeLifecycleGap::LastWindowCloseUnchecked));
}

#[test]
fn native_lifecycle_gate_rejects_stale_stored_gaps() {
    let mut evidence = OpenGpuiNativeLifecycleEvidence::default();
    evidence.mark_product_gallery_rendered("workflow.review".to_owned(), 4);
    evidence.mark_product_drag_checked(true);
    evidence.mark_last_window_close(1, true, 0, true);
    evidence.gaps.push(OpenGpuiNativeLifecycleGap::QuitNotObserved);
    assert!(assert_native_lifecycle_evidence_gates(&evidence).is_err());
}

#[test]
fn screenshot_fixture_judges_the_first_region_of_each_kind() {
    let mut evidence = OpenGpuiScreenshotFixtureEvidence::captured("workflow.review".to_owned(), 0, 650, 4096, 8);
    evidence.push_region(OpenGpuiScreenshotRegionEvidence::new(
        OpenGpuiScreenshotRegionKind::NodeBody,
        OpenGpuiScreenshotRegionRect { x: 0, y: 0, width: 0, height: 48 },
        1024,
        8,
    ));
    evidence.push_region(full_region(OpenGpuiScreenshotRegionKind::NodeBody));
    evidence.push_region(full_region(OpenGpuiScreenshotRegionKind::WirePath));
    assert_eq!(
        evidence.gaps,
        vec![
            OpenGpuiScreenshotRegionGap::ScreenshotBlankOrSingleColor,
            OpenGpuiScreenshotRegionGap::RequiredRegionMissing(OpenGpuiScreenshotRegionKind::NodeInternalUi),
            OpenGpuiScreenshotRegionGap::RequiredRegionMissing(OpenGpuiScreenshotRegionKind::PortArea),
            OpenGpuiScreenshotRegionGap::RequiredRegionBlank(OpenGpuiScreenshotRegionKind::NodeBody),
        ]
    );
    assert!(evidence.has_region(OpenGpuiScreenshotRegionKind::NodeBody));
    assert!(!evidence.has_region(OpenGpuiScreenshotRegionKind::PortArea));
}

#[test]
fn screenshot_report_lists_missing_fixtures_and_finds_first_evidence() {
    let mut report = OpenGpuiScreenshotRegionReport::default();
    report.push_fixture(OpenGpuiScreenshotFixtureEvidence::skipped(
        "erd.customer_orders".to_owned(),
        "headless".to_owned(),
    ));
    report.push_fixture(OpenGpuiScreenshotFixtureEvidence::captured(
        "erd.customer_orders".to_owned(),
        10,
        10,
        10,
        10,
    ));
    let first = report.fixture("erd.customer_orders").expect("erd evidence");
    assert_eq!(first.skipped_reason.as_deref(), Some("headless"));
    assert!(report.fixture("workflow.review").is_none());
    assert_eq!(
        report.gaps,
        vec![OpenGpuiScreenshotRegionGap::ScreenshotSkipped, OpenGpuiScreenshotRegionGap::MissingFixture]
    );
}
