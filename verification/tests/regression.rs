use jellyflow_open_gpui::adapter::OpenGpuiMeasurementMode;
use jellyflow_open_gpui::measurement::OpenGpuiMeasurementCoverage;
use jellyflow_open_gpui::repeatable::{OpenGpuiDynamicPortPolicy, OpenGpuiRepeatablePortDiagnostic};
use jellyflow_open_gpui::testing::OpenGpuiProductFixtureKind;
use jellyflow_open_gpui::testing::regression::{
    OpenGpuiAuthoringInteractionReport, OpenGpuiDynamicRepeatableLifecycleGap,
    OpenGpuiDynamicRepeatableLifecycleReport, OpenGpuiProductFixtureRegressionReports,
    OpenGpuiProductFixtureReport, assert_authoring_interaction_regression_gates,
    assert_dynamic_repeatable_lifecycle_report_gates, assert_product_fixture_regression_gates,
    dynamic_repeatable_lifecycle_report, sync_region_sources,
};

fn strings(items: &[&str]) -> Vec<String> {
    items.iter().map(|item| (*item).to_owned()).collect()
}

fn projection_coverage(fallback_regions: usize) -> OpenGpuiMeasurementCoverage {
    OpenGpuiMeasurementCoverage {
        projection_fallback_regions: fallback_regions,
        measured_slots: fallback_regions,
        ..OpenGpuiMeasurementCoverage::default()
    }
}

fn layout_coverage(layout_regions: usize) -> OpenGpuiMeasurementCoverage {
    OpenGpuiMeasurementCoverage {
        layout_pass_regions: layout_regions,
        measured_slots: layout_regions,
        ..OpenGpuiMeasurementCoverage::default()
    }
}

/// Evidence shaped like what one builtin product fixture reports.
fn fixture_report(
    kind: OpenGpuiProductFixtureKind,
    mode: OpenGpuiMeasurementMode,
    nodes: usize,
    slots: usize,
    anchors: usize,
    repeatable_items: usize,
) -> OpenGpuiProductFixtureReport {
    let coverage = match mode {
        OpenGpuiMeasurementMode::ProjectionFallback => projection_coverage(slots + anchors),
        OpenGpuiMeasurementMode::LayoutPass => layout_coverage(slots + anchors),
    };
    let mut report = OpenGpuiProductFixtureReport {
        kind,
        kit_key: "kit".to_owned(),
        fixture_key: "fixture".to_owned(),
        density_modes: strings(&["compact", "regular", "full"]),
        region_sources: Vec::new(),
        resize_probe_count: nodes,
        node_count: nodes,
        measured_nodes: nodes,
        slot_count: slots,
        anchor_count: anchors,
        repeatable_item_count: repeatable_items,
        missing_dynamic_ports: Vec::new(),
        actions: Vec::new(),
        inspectors: Vec::new(),
        blackboards: Vec::new(),
        control_primitives: Vec::new(),
        measured_control_regions: 3,
        measurement_mode: mode,
        measurement_coverage: coverage,
    };
    sync_region_sources(&mut report);
    report
}

fn product_fixture_reports() -> OpenGpuiProductFixtureRegressionReports {
    let (projection, layout) = (OpenGpuiMeasurementMode::ProjectionFallback, OpenGpuiMeasurementMode::LayoutPass);
    let (dify, shader_kind) = (OpenGpuiProductFixtureKind::DifyWorkflow, OpenGpuiProductFixtureKind::ShaderBlueprint);
    let (erd_kind, mind_kind) = (OpenGpuiProductFixtureKind::ErdTable, OpenGpuiProductFixtureKind::MindMap);

    let mut dify_node = fixture_report(dify, projection, 1, 9, 2, 2);
    dify_node.actions = strings(&["action.insert.llm", "action.llm.run"]);
    dify_node.inspectors = strings(&["inspector.llm"]);
    dify_node.control_primitives = strings(&["textarea", "select", "variable_picker_stub"]);

    let mut shader_node = fixture_report(shader_kind, projection, 1, 6, 3, 3);
    shader_node.actions = strings(&["action.shader_input.add", "action.shader_input.remove"]);
    shader_node.blackboards = strings(&["blackboard.shader.properties"]);
    shader_node.control_primitives = strings(&["slider", "select"]);

    let mut erd = fixture_report(erd_kind, projection, 2, 6, 3, 3);
    erd.actions = strings(&["action.column.add"]);
    erd.inspectors = strings(&["inspector.column.email"]);
    erd.control_primitives = strings(&["text_input"]);

    let mut mind = fixture_report(mind_kind, projection, 3, 3, 3, 0);
    mind.control_primitives = strings(&["text_input"]);

    OpenGpuiProductFixtureRegressionReports {
        workflow: fixture_report(dify, projection, 4, 12, 6, 2),
        dify_node,
        dify_layout: fixture_report(dify, layout, 4, 12, 6, 2),
        dify_node_layout: fixture_report(dify, layout, 1, 9, 2, 2),
        shader: fixture_report(shader_kind, projection, 2, 8, 4, 3),
        shader_node,
        shader_layout: fixture_report(shader_kind, layout, 2, 8, 4, 3),
        shader_node_layout: fixture_report(shader_kind, layout, 1, 6, 3, 3),
        erd,
        erd_layout: fixture_report(erd_kind, layout, 2, 6, 3, 3),
        mind,
        mind_layout: fixture_report(mind_kind, layout, 3, 3, 3, 0),
    }
}

fn collected_lifecycle() -> OpenGpuiDynamicRepeatableLifecycleReport {
    OpenGpuiDynamicRepeatableLifecycleReport {
        exercised_collections: strings(&["shader.inputs", "table.columns", "llm.params"]),
        mutations: strings(&["add", "remove", "reorder", "edit"]),
        add_missing_port_diagnostics: 1,
        add_created_graph_ports: 0,
        add_fake_handle_count: 0,
        remove_removed_graph_ports: 1,
        remove_removed_incident_edges: 1,
        remove_cleared_repeatable_anchor: true,
        reorder_preserved_item_identity: true,
        reorder_preserved_anchor_identity: true,
        reorder_preserved_slot_identity: true,
        reorder_preserved_port_binding: true,
        reorder_has_row_bounds: true,
        edit_refreshed_row_label: true,
        edit_preserved_item_identity: true,
        edit_missing_port_downgrade: true,
        display_only_rows_without_handles: 1,
        display_only_fake_handle_count: 0,
        gaps: Vec::new(),
    }
}

fn authoring_report() -> OpenGpuiAuthoringInteractionReport {
    OpenGpuiAuthoringInteractionReport {
        dropped_wire_actions: strings(&["action.insert.llm"]),
        node_actions: strings(&["action.llm.run"]),
        inspector_target_sources: strings(&["measured", "fallback", "missing"]),
        inspector_actions: strings(&["action.column.remove"]),
        blackboard_actions: strings(&["action.shader_property.add"]),
        repeatable_mutations: strings(&["add", "remove", "reorder", "edit", "missing_dynamic_port", "removed_port"]),
        dynamic_repeatable_lifecycle: dynamic_repeatable_lifecycle_report(Ok(collected_lifecycle()))
            .expect("lifecycle report"),
        invalid_hover_rejections: 1,
        editable_control_regions: 3,
    }
}

#[test]
fn product_fixtures_cover_gpui_authoring_regressions() {
    assert!(assert_product_fixture_regression_gates(&product_fixture_reports()).is_ok());
}

#[test]
fn interaction_fixtures_cover_gpui_authoring_states() {
    assert!(assert_authoring_interaction_regression_gates(&authoring_report()).is_ok());
}

#[test]
fn product_fixture_gates_reject_layout_pass_claims_of_fallback_fixtures() {
    let mut reports = product_fixture_reports();
    reports.workflow.measurement_coverage.layout_pass_regions = 1;
    assert!(assert_product_fixture_regression_gates(&reports).is_err());

    let mut reports = product_fixture_reports();
    reports.shader_layout.measurement_coverage.missing_regions = 1;
    assert!(assert_product_fixture_regression_gates(&reports).is_err());

    let mut reports = product_fixture_reports();
    reports.mind.density_modes = strings(&["compact", "full"]);
    assert!(assert_product_fixture_regression_gates(&reports).is_err());

    let mut reports = product_fixture_reports();
    reports.shader_node.missing_dynamic_ports.push(OpenGpuiRepeatablePortDiagnostic::missing_graph_port(
        "shader.inputs".to_owned(),
        "normal".to_owned(),
        "normal".to_owned(),
    ));
    assert!(assert_product_fixture_regression_gates(&reports).is_err());
}

#[test]
fn region_sources_follow_coverage_counters() {
    let mut report = fixture_report(
        OpenGpuiProductFixtureKind::ErdTable,
        OpenGpuiMeasurementMode::LayoutPass,
        1,
        1,
        1,
        0,
    );
    assert_eq!(report.region_sources, strings(&["layout_pass"]));
    report.measurement_coverage.duplicate_regions = 2;
    report.measurement_coverage.missing_regions = 1;
    sync_region_sources(&mut report);
    assert_eq!(report.region_sources, strings(&["layout_pass", "missing", "duplicate"]));
}

#[test]
fn lifecycle_report_records_every_unmet_fact_as_a_gap() {
    let mut collected = collected_lifecycle();
    collected.add_missing_port_diagnostics = 0;
    collected.reorder_has_row_bounds = false;
    collected.display_only_fake_handle_count = 2;
    let report = dynamic_repeatable_lifecycle_report(Ok(collected)).expect("lifecycle report");
    assert_eq!(
        report.gaps,
        vec![
            OpenGpuiDynamicRepeatableLifecycleGap::AddMissingPortPolicyAbsent,
            OpenGpuiDynamicRepeatableLifecycleGap::ReorderMissingRowBounds,
            OpenGpuiDynamicRepeatableLifecycleGap::DisplayOnlyPublishedHandle,
        ]
    );
    assert!(assert_dynamic_repeatable_lifecycle_report_gates(&report).is_err());

    let failed = dynamic_repeatable_lifecycle_report(Err("shader fixture missing".to_owned()));
    assert_eq!(failed, Err("shader fixture missing".to_owned()));
}

#[test]
fn authoring_gate_requires_every_inspector_target_source() {
    let mut report = authoring_report();
    report.inspector_target_sources = strings(&["measured", "fallback"]);
    assert!(assert_authoring_interaction_regression_gates(&report).is_err());

    let mut report = authoring_report();
    report.dynamic_repeatable_lifecycle.gaps.push(OpenGpuiDynamicRepeatableLifecycleGap::EditKeptStaleLabel);
    assert!(assert_authoring_interaction_regression_gates(&report).is_err());
}

#[test]
fn missing_port_diagnostic_names_the_item_and_port() {
    let diagnostic = OpenGpuiRepeatablePortDiagnostic::missing_graph_port(
        "shader.inputs".to_owned(),
        "normal".to_owned(),
        "input_4".to_owned(),
    );
    assert_eq!(diagnostic.policy, OpenGpuiDynamicPortPolicy::MissingGraphPort);
    assert_eq!(
        diagnostic.message,
        "repeatable item `normal` declares port `input_4` but the graph has no matching port"
    );
}
