use jellyflow_open_gpui::actions::{
    ActionIntent, ActionShortcut, ActionTarget, MenuSurface, OpenGpuiActionDispatchPlan, OpenGpuiActionPlan, OpenGpuiActionSurface,
    OpenGpuiMenuPlan, action_matches_surface, plan_action_dispatch, shortcut_label, synthetic_menu_label,
};
use jellyflow_open_gpui::adapter::{
    ConformanceCapabilityKind, OpenGpuiAdapter, OpenGpuiLayoutPassSupport, OpenGpuiMeasurementMode,
    assert_layout_pass_capability_requires_real_bounds,
};
use jellyflow_open_gpui::authoring::{
    OpenGpuiAuthoringController, OpenGpuiAuthoringOutcome, OpenGpuiAuthoringSkipReason,
    resolve_select_option, select_option_by_key, skip_control_before_value,
};
use jellyflow_open_gpui::controls::{
    NodeControlKind, OpenGpuiControlOptionPlan, OpenGpuiControlPlan, OpenGpuiControlPrimitive,
    OpenGpuiControlSupport, control_primitive_name, primitive_for_kind, support_for_primitive,
};
use jellyflow_open_gpui::json_binding::{JsonValue, NodeControlBinding};
use jellyflow_open_gpui::inspector::{InspectorTarget, OpenGpuiInspectorSurface, inspector_matches_surface, inspector_read_only_reason};
use jellyflow_open_gpui::measurement::{
    OpenGpuiFallbackAnchorFacts, OpenGpuiMeasuredRegionFacts, OpenGpuiMeasuredRegionKind,
    OpenGpuiMeasurementCoverage, OpenGpuiMeasurementId, OpenGpuiMeasurementRevisionDecision,
    OpenGpuiMeasurementSource, assign_layout_pass_measurement_revision, layout_pass_coverage,
};
use jellyflow_open_gpui::node_id::NodeId;
use jellyflow_open_gpui::projection::{NodeSurfaceSlotKind, semantic_component_priority};
use jellyflow_open_gpui::renderer::{
    OpenGpuiNodeRendererFallback, OpenGpuiNodeRendererFallbackReason, OpenGpuiNodeRendererOutputSource,
    OpenGpuiNodeRendererRegistry, OpenGpuiNodeRendererResolution,
};
use jellyflow_open_gpui::repeatable::{OpenGpuiDynamicPortPolicy, OpenGpuiRepeatableEditError, dynamic_port_policy};

const NODE_42: &str = "00000000-0000-0000-0000-00000000002a";

#[test]
fn helper_rejects_full_claim_without_layout_pass_mode() {
    let adapter = OpenGpuiAdapter::projection_fallback();
    assert!(assert_layout_pass_capability_requires_real_bounds(&adapter).is_ok());
    assert_eq!(adapter.measurement_mode(), OpenGpuiMeasurementMode::ProjectionFallback);
}

#[test]
fn maps_first_gpui_control_set_to_component_primitives() {
    let cases = [
        (NodeControlKind::TextInput, OpenGpuiControlPrimitive::TextInput, OpenGpuiControlSupport::Native),
        (NodeControlKind::TextArea, OpenGpuiControlPrimitive::TextArea, OpenGpuiControlSupport::Native),
        (NodeControlKind::Select, OpenGpuiControlPrimitive::Select, OpenGpuiControlSupport::Native),
        (NodeControlKind::NumberInput, OpenGpuiControlPrimitive::NumberInput, OpenGpuiControlSupport::Native),
        (NodeControlKind::Slider, OpenGpuiControlPrimitive::Slider, OpenGpuiControlSupport::Native),
        (NodeControlKind::Toggle, OpenGpuiControlPrimitive::Switch, OpenGpuiControlSupport::Native),
        (NodeControlKind::Code, OpenGpuiControlPrimitive::CodeEditor, OpenGpuiControlSupport::Fallback),
        (NodeControlKind::Expression, OpenGpuiControlPrimitive::CodeEditor, OpenGpuiControlSupport::Fallback),
        (NodeControlKind::Color, OpenGpuiControlPrimitive::ColorSwatch, OpenGpuiControlSupport::Fallback),
        (NodeControlKind::Asset, OpenGpuiControlPrimitive::AssetPickerStub, OpenGpuiControlSupport::Stub),
        (NodeControlKind::VariablePicker, OpenGpuiControlPrimitive::VariablePickerStub, OpenGpuiControlSupport::Stub),
        (NodeControlKind::PortBinding, OpenGpuiControlPrimitive::PortBindingDisplay, OpenGpuiControlSupport::Stub),
    ];

    for (kind, primitive, support) in cases {
        assert_eq!(primitive_for_kind(kind), primitive);
        assert_eq!(support_for_primitive(primitive), support);
    }
}

#[test]
fn semantic_measurement_ids_are_stable_and_descriptor_backed() {
    let node = NodeId::from_u128(42);
    let slot = OpenGpuiMeasurementId::slot(node, "field.prompt".to_owned());
    let control = OpenGpuiMeasurementId::control(node, "control.model".to_owned());
    let scoped_control = OpenGpuiMeasurementId::control_in_slot(node, "field.prompt", "control.model".to_owned());
    let item = OpenGpuiMeasurementId::repeatable_item(node, "shader.inputs".to_owned(), "factor".to_owned());
    let anchor = OpenGpuiMeasurementId::anchor(node, "field.completion".to_owned());

    assert_eq!(slot.node(), node);
    assert_eq!(slot.element_id(), format!("jellyflow-node:{NODE_42}:slot:field.prompt"));
    assert_eq!(control.element_id(), format!("jellyflow-node:{NODE_42}:control:control.model"));
    assert_eq!(
        scoped_control.element_id(),
        format!("jellyflow-node:{NODE_42}:control:field.prompt:control.model")
    );
    assert!(matches!(
        scoped_control.kind(),
        OpenGpuiMeasuredRegionKind::Control { key, scope }
            if key == "control.model" && scope.as_deref() == Some("field.prompt")
    ));
    assert_eq!(item.element_id(), format!("jellyflow-node:{NODE_42}:repeatable:shader.inputs:item:factor"));
    assert_eq!(anchor.element_id(), format!("jellyflow-node:{NODE_42}:anchor:field.completion"));
    assert!(matches!(
        item.kind(),
        OpenGpuiMeasuredRegionKind::RepeatableItem { key, item_id }
            if key == "shader.inputs" && item_id == "factor"
    ));
    assert_eq!(item.kind().key(), "shader.inputs");
}

fn region(kind: OpenGpuiMeasuredRegionKind, element_id: &str, positive: bool) -> OpenGpuiMeasuredRegionFacts {
    OpenGpuiMeasuredRegionFacts {
        kind,
        element_id: element_id.to_owned(),
        positive_finite: positive,
        source: OpenGpuiMeasurementSource::LayoutPass,
    }
}

#[test]
fn layout_pass_coverage_counts_unmeasured_fallback_anchors() {
    let node = NodeId::from_u128(12);
    let id = OpenGpuiMeasurementId::slot(node, "prompt".to_owned());
    let regions = vec![region(id.kind().clone(), &id.element_id(), true)];
    let anchors = vec![OpenGpuiFallbackAnchorFacts { anchor: "prompt.anchor".to_owned(), port_key: None }];
    let coverage = layout_pass_coverage(&regions, &anchors);

    assert_eq!(coverage.layout_pass_regions, 1);
    assert_eq!(coverage.projection_fallback_regions, 1);
    assert!(!coverage.is_full_layout_pass());
}

#[test]
fn layout_pass_coverage_skips_zero_size_and_duplicate_regions() {
    let regions = vec![
        region(OpenGpuiMeasuredRegionKind::Slot { key: "field.visible".to_owned() }, "slot.visible", true),
        region(OpenGpuiMeasuredRegionKind::Slot { key: "field.zero".to_owned() }, "slot.zero", false),
        region(
            OpenGpuiMeasuredRegionKind::Control { key: "control.duplicate".to_owned(), scope: None },
            "slot.visible",
            true,
        ),
    ];
    let coverage = layout_pass_coverage(&regions, &Vec::new());

    assert_eq!(coverage.measured_slots, 1);
    assert_eq!(coverage.layout_pass_regions, 1);
    assert_eq!(coverage.missing_regions, 1);
    assert_eq!(coverage.duplicate_regions, 1);
    assert!(!coverage.is_full_layout_pass());

    let from_regions = OpenGpuiMeasurementCoverage::from_regions(&regions, 7, 8);
    assert_eq!(
        from_regions,
        OpenGpuiMeasurementCoverage {
            layout_pass_regions: 1,
            projection_fallback_regions: 0,
            missing_regions: 1,
            stale_regions: 0,
            partial_regions: 0,
            duplicate_regions: 1,
            measured_slots: 7,
            measured_anchors: 8,
        }
    );
}

#[test]
fn layout_pass_anchor_regions_replace_fallback_anchors_by_key_or_port() {
    let regions = vec![
        region(OpenGpuiMeasuredRegionKind::Anchor { key: "completion".to_owned() }, "anchor.completion", true),
        region(OpenGpuiMeasuredRegionKind::Slot { key: "field.prompt".to_owned() }, "slot.prompt", true),
    ];
    let anchors = vec![
        OpenGpuiFallbackAnchorFacts { anchor: "field.completion".to_owned(), port_key: Some("completion".to_owned()) },
        OpenGpuiFallbackAnchorFacts { anchor: "completion".to_owned(), port_key: None },
    ];
    let coverage = layout_pass_coverage(&regions, &anchors);
    assert_eq!(coverage.layout_pass_regions, 2);
    assert_eq!(coverage.projection_fallback_regions, 0);
    assert_eq!(coverage.measured_slots, 1);
    assert_eq!(coverage.measured_anchors, 2);
    assert!(coverage.is_full_layout_pass());
}

#[test]
fn identical_fresh_layout_pass_measurement_reuses_revision() {
    let mut next_revision = 12;
    let mut measurement_revision = 0;
    let decision =
        assign_layout_pass_measurement_revision(true, Some(12), true, &mut measurement_revision, &mut next_revision);

    assert_eq!(decision, OpenGpuiMeasurementRevisionDecision::Reused { revision: 12 });
    assert_eq!(measurement_revision, 12);
    assert_eq!(next_revision, 12);
}

#[test]
fn dirty_layout_pass_measurement_advances_revision_even_when_regions_match() {
    let mut next_revision = 12;
    let mut measurement_revision = 0;
    let decision =
        assign_layout_pass_measurement_revision(false, Some(12), true, &mut measurement_revision, &mut next_revision);

    assert_eq!(decision, OpenGpuiMeasurementRevisionDecision::Advanced { revision: 13 });
    assert_eq!(measurement_revision, 13);
    assert_eq!(next_revision, 13);
}

#[test]
fn revision_advances_past_a_newer_existing_measurement_and_saturates() {
    let mut next_revision = 3;
    let mut measurement_revision = 0;
    let decision =
        assign_layout_pass_measurement_revision(true, Some(9), false, &mut measurement_revision, &mut next_revision);
    assert_eq!(decision, OpenGpuiMeasurementRevisionDecision::Advanced { revision: 10 });

    let mut next_revision = u64::MAX;
    let decision = assign_layout_pass_measurement_revision(true, None, true, &mut measurement_revision, &mut next_revision);
    assert_eq!(decision, OpenGpuiMeasurementRevisionDecision::Advanced { revision: u64::MAX });
}

fn coverage(layout: usize, fallback: usize) -> OpenGpuiMeasurementCoverage {
    OpenGpuiMeasurementCoverage {
        layout_pass_regions: layout,
        projection_fallback_regions: fallback,
        measured_slots: 2,
        measured_anchors: 1,
        ..OpenGpuiMeasurementCoverage::default()
    }
}

#[test]
fn layout_pass_support_level_follows_coverage() {
    let fallback = OpenGpuiAdapter::projection_fallback();
    assert_eq!(fallback.layout_pass_support_level(), OpenGpuiLayoutPassSupport::Projection);
    assert_eq!(
        fallback.layout_pass_notes(),
        "fallback projection; not a mature layout-pass measurement claim"
    );
    assert!(fallback.measurement_coverage().is_none());

    let full = OpenGpuiAdapter::layout_pass(coverage(4, 0));
    assert_eq!(full.layout_pass_support_level(), OpenGpuiLayoutPassSupport::Full);
    assert!(assert_layout_pass_capability_requires_real_bounds(&full).is_ok());

    let partial = OpenGpuiAdapter::layout_pass(coverage(3, 1));
    assert_eq!(partial.layout_pass_support_level(), OpenGpuiLayoutPassSupport::Partial);
    assert_eq!(
        partial.layout_pass_notes(),
        "bounds reported by open-gpui measured elements; layout_pass=3, projection_fallback=1, missing=0, stale=0, partial=0, duplicate=0"
    );

    let empty = OpenGpuiAdapter::layout_pass(coverage(0, 2));
    assert_eq!(empty.layout_pass_support_level(), OpenGpuiLayoutPassSupport::Projection);
    assert_eq!(OpenGpuiAdapter::default().measurement_mode(), OpenGpuiMeasurementMode::ProjectionFallback);
}

#[test]
fn renderer_registry_routes_known_keys_and_unknown_fallback() {
    let registry = OpenGpuiNodeRendererRegistry::new()
        .with_renderer("decision-card".to_owned(), "Decision".to_owned())
        .with_renderer("shader-card".to_owned(), "Shader".to_owned());

    assert!(registry.resolve("decision-card").is_custom());
    assert!(registry.resolve("shader-card").is_custom());
    assert_eq!(
        registry.resolve("unregistered-card"),
        OpenGpuiNodeRendererResolution::Fallback(OpenGpuiNodeRendererFallback {
            renderer_key: "unregistered-card".to_owned(),
            reason: OpenGpuiNodeRendererFallbackReason::UnregisteredRenderer,
        })
    );
}

#[test]
fn renderer_registry_replaces_labels_and_plans_render_sources() {
    let mut registry = OpenGpuiNodeRendererRegistry::new();
    registry
        .register("decision-card".to_owned(), "Decision".to_owned())
        .register_many(vec![
            ("shader-card".to_owned(), "Shader".to_owned()),
            ("decision-card".to_owned(), "Decision v2".to_owned()),
        ])
        .register("topic-card".to_owned(), "Topic".to_owned());
    assert!(registry.contains("topic-card"));
    let mut empty = OpenGpuiNodeRendererRegistry::default();
    assert!(!empty.register("x".to_owned(), "X".to_owned()).register("y".to_owned(), "Y".to_owned()).contains("z"));
    assert!(empty.contains("x") && empty.contains("y"));
    let copy = empty.clone();
    assert!(copy.contains("x"));
    assert!(registry.contains("shader-card"));
    assert!(!registry.contains("other-card"));
    assert_eq!(registry.registration("decision-card").map(|r| r.label.as_str()), Some("Decision v2"));

    let host = vec!["decision-card".to_owned()];
    assert!(matches!(
        registry.render_source("decision-card", &host),
        OpenGpuiNodeRendererOutputSource::Custom(r) if r.label == "Decision v2"
    ));
    assert_eq!(
        registry.render_source("shader-card", &host),
        OpenGpuiNodeRendererOutputSource::Fallback(OpenGpuiNodeRendererFallback {
            renderer_key: "shader-card".to_owned(),
            reason: OpenGpuiNodeRendererFallbackReason::MissingHostRenderer,
        })
    );
    assert_eq!(
        registry.clone().render_source("unknown-card", &host),
        OpenGpuiNodeRendererOutputSource::Fallback(OpenGpuiNodeRendererFallback {
            renderer_key: "unknown-card".to_owned(),
            reason: OpenGpuiNodeRendererFallbackReason::UnregisteredRenderer,
        })
    );
}

fn control(key: &str) -> OpenGpuiControlPlan {
    OpenGpuiControlPlan {
        key: key.to_owned(),
        label: key.to_owned(),
        kind: NodeControlKind::TextInput,
        primitive: OpenGpuiControlPrimitive::TextInput,
        support: OpenGpuiControlSupport::Native,
        value: None,
        binding: Some(NodeControlBinding::data_path("value".to_owned())),
        options: Vec::new(),
        placeholder: None,
        help_text: None,
        disabled_reason: None,
        read_only: false,
        secret: false,
    }
}

#[test]
fn unavailable_controls_are_skipped_with_their_reason() {
    assert_eq!(skip_control_before_value(&control("control.value")), None);

    let mut disabled = control("control.disabled");
    disabled.disabled_reason = Some("locked".to_owned());
    disabled.read_only = true;
    assert_eq!(
        skip_control_before_value(&disabled),
        Some(OpenGpuiAuthoringSkipReason::DisabledControl {
            control_key: "control.disabled".to_owned(),
            reason: "locked".to_owned(),
        })
    );

    let mut readonly = control("control.readonly");
    readonly.read_only = true;
    assert_eq!(
        skip_control_before_value(&readonly),
        Some(OpenGpuiAuthoringSkipReason::ReadOnlyControl { control_key: "control.readonly".to_owned() })
    );

    let mut asset = control("control.asset");
    asset.primitive = OpenGpuiControlPrimitive::AssetPickerStub;
    assert_eq!(
        skip_control_before_value(&asset),
        Some(OpenGpuiAuthoringSkipReason::StubControl {
            control_key: "control.asset".to_owned(),
            primitive: OpenGpuiControlPrimitive::AssetPickerStub,
        })
    );

    let mut unsupported = control("control.unsupported");
    unsupported.support = OpenGpuiControlSupport::Unsupported;
    assert_eq!(
        skip_control_before_value(&unsupported),
        Some(OpenGpuiAuthoringSkipReason::UnsupportedControl {
            control_key: "control.unsupported".to_owned(),
            support: OpenGpuiControlSupport::Unsupported,
        })
    );

    let mut unbound = control("control.unbound");
    unbound.binding = None;
    assert_eq!(
        skip_control_before_value(&unbound),
        Some(OpenGpuiAuthoringSkipReason::NoWritableBinding { control_key: "control.unbound".to_owned() })
    );
}

fn text(s: &str) -> JsonValue {
    JsonValue::String(s.to_owned())
}

#[test]
fn select_events_resolve_the_first_enabled_option() {
    let mut select = control("control.model");
    select.options = vec![
        OpenGpuiControlOptionPlan { value: text("gpt-4.1-mini"), label: "GPT 4.1 Mini".to_owned(), disabled: false },
        OpenGpuiControlOptionPlan { value: text("gpt-4.1"), label: "GPT 4.1".to_owned(), disabled: true },
        OpenGpuiControlOptionPlan { value: text("other"), label: "Other".to_owned(), disabled: false },
    ];
    select.options[2].value = text("gpt-4.1-mini");
    assert_eq!(
        resolve_select_option(&select, "\"gpt-4.1-mini\""),
        OpenGpuiAuthoringOutcome::Planned(text("gpt-4.1-mini"))
    );
    let disabled = resolve_select_option(&select, "\"gpt-4.1\"");
    assert!(!disabled.is_planned());
    assert_eq!(
        disabled.skip_reason(),
        Some(&OpenGpuiAuthoringSkipReason::DisabledSelectOption {
            control_key: "control.model".to_owned(),
            option_key: "\"gpt-4.1\"".to_owned(),
        })
    );
    let missing = resolve_select_option(&select, "\"missing\"");
    assert_eq!(
        missing.skip_reason(),
        Some(&OpenGpuiAuthoringSkipReason::MissingSelectOption {
            control_key: "control.model".to_owned(),
            option_key: "\"missing\"".to_owned(),
        })
    );
    assert_eq!(missing.into_plan(), None);
}

#[test]
fn menu_action_events_report_dispatch_or_skip_reasons() {
    let controller = OpenGpuiAuthoringController;
    let action = |key: &str, label: &str, enabled: bool, disabled_reason: Option<&str>| OpenGpuiActionPlan {
        key: key.to_owned(),
        label: label.to_owned(),
        target: ActionTarget::Node { node_kind: "demo.llm".to_owned() },
        intent: ActionIntent::RunNode,
        enabled,
        disabled_reason: disabled_reason.map(ToOwned::to_owned),
        group: None,
        order: None,
        danger: false,
        icon_key: None,
        shortcut: None,
    };
    let menu = OpenGpuiMenuPlan {
        key: "menu.node".to_owned(),
        label: "Node".to_owned(),
        surface: MenuSurface::Node,
        actions: vec![action("action.run", "Run", true, None), action("action.disabled", "Disabled", false, Some("locked"))],
    };

    let dispatch = controller.plan_menu_action_dispatch(&menu, "action.run");
    assert!(dispatch.is_planned());
    assert_eq!(
        dispatch.into_plan().expect("dispatch"),
        OpenGpuiActionDispatchPlan {
            action_key: "action.run".to_owned(),
            intent: ActionIntent::RunNode,
            target: ActionTarget::Node { node_kind: "demo.llm".to_owned() },
        }
    );
    assert_eq!(
        controller.plan_menu_action_dispatch(&menu, "action.disabled"),
        OpenGpuiAuthoringOutcome::Skipped(OpenGpuiAuthoringSkipReason::DisabledAction {
            action_key: "action.disabled".to_owned(),
            reason: Some("locked".to_owned()),
        })
    );
    assert_eq!(
        controller.plan_menu_action_dispatch(&menu, "action.missing"),
        OpenGpuiAuthoringOutcome::Skipped(OpenGpuiAuthoringSkipReason::MissingAction {
            menu_key: "menu.node".to_owned(),
            action_key: "action.missing".to_owned(),
        })
    );
    assert_eq!(plan_action_dispatch(&menu, "action.disabled"), None);
    assert_eq!(plan_action_dispatch(&menu, "action.run").map(|plan| plan.action_key), Some("action.run".to_owned()));
    assert_eq!(menu.enabled_actions(), vec![0]);
}

#[test]
fn distinct_surfaces_match_distinct_targets() {
    let node = OpenGpuiActionSurface::Node { node_kind: "demo.surfaces".to_owned() };
    let toolbar = OpenGpuiActionSurface::Toolbar { node_kind: Some("demo.surfaces".to_owned()) };
    let port = OpenGpuiActionSurface::Port { port_key: "out".to_owned() };
    let node_target = ActionTarget::Node { node_kind: "demo.surfaces".to_owned() };

    assert!(action_matches_surface(&ActionTarget::Graph, &OpenGpuiActionSurface::Graph));
    assert!(action_matches_surface(&ActionTarget::Graph, &toolbar));
    assert!(action_matches_surface(&node_target, &node));
    assert!(action_matches_surface(&node_target, &toolbar));
    assert!(!action_matches_surface(&node_target, &OpenGpuiActionSurface::Toolbar { node_kind: None }));
    assert!(action_matches_surface(&ActionTarget::Port { port_key: "out".to_owned() }, &port));
    assert!(!action_matches_surface(&ActionTarget::Port { port_key: "in".to_owned() }, &port));
    assert!(!action_matches_surface(&ActionTarget::Edge, &port));

    let wire_any = ActionTarget::DroppedWire { source_port_key: None };
    let wire_completion = ActionTarget::DroppedWire { source_port_key: Some("completion".to_owned()) };
    let dropped = OpenGpuiActionSurface::DroppedWire { source_port_key: Some("completion".to_owned()) };
    let dropped_other = OpenGpuiActionSurface::DroppedWire { source_port_key: Some("other".to_owned()) };
    assert!(action_matches_surface(&wire_any, &dropped_other));
    assert!(action_matches_surface(&wire_completion, &dropped));
    assert!(!action_matches_surface(&wire_completion, &dropped_other));
    assert!(!action_matches_surface(&wire_completion, &OpenGpuiActionSurface::DroppedWire { source_port_key: None }));

    let item = OpenGpuiActionSurface::RepeatableItem { collection_key: "items".to_owned(), item_id: "a".to_owned() };
    assert_eq!(item.menu_surface(), MenuSurface::Node);
    assert_eq!(synthetic_menu_label(&item), "Item actions");
    assert_eq!(synthetic_menu_label(&dropped), "Insert compatible node");
}

#[test]
fn shortcut_labels_join_modifiers_before_the_key() {
    let shortcut = ActionShortcut { key: "K".to_owned(), ctrl: true, shift: false, alt: true, meta: false };
    assert_eq!(shortcut_label(&shortcut), "Ctrl+Alt+K");
    let plain = ActionShortcut { key: "Delete".to_owned(), ctrl: false, shift: false, alt: false, meta: false };
    assert_eq!(shortcut_label(&plain), "Delete");
}

#[test]
fn inspectors_match_their_surface_and_report_read_only_reasons() {
    let target = InspectorTarget::RepeatableItem { collection_key: "table.columns".to_owned(), item_id: "email".to_owned() };
    let surface = OpenGpuiInspectorSurface::RepeatableItem {
        collection_key: "table.columns".to_owned(),
        item_id: "email".to_owned(),
    };
    assert!(inspector_matches_surface(&target, &surface));
    assert!(!inspector_matches_surface(&InspectorTarget::Graph, &surface));

    let diagnostic = InspectorTarget::Diagnostic { diagnostic_key: "missing_port".to_owned() };
    assert_eq!(
        inspector_read_only_reason(&diagnostic, &vec![true]).as_deref(),
        Some("diagnostic inspector is read-only until a writable descriptor is provided")
    );
    assert_eq!(inspector_read_only_reason(&target, &vec![]), None);
    assert_eq!(inspector_read_only_reason(&target, &vec![false, true]), None);
    assert_eq!(
        inspector_read_only_reason(&target, &vec![false, false]).as_deref(),
        Some("no editable inspector controls")
    );
}

#[test]
fn repeatable_policies_and_error_messages() {
    assert_eq!(dynamic_port_policy(false, true), OpenGpuiDynamicPortPolicy::DisplayOnly);
    assert_eq!(dynamic_port_policy(true, true), OpenGpuiDynamicPortPolicy::BoundToGraphPort);
    assert_eq!(dynamic_port_policy(true, false), OpenGpuiDynamicPortPolicy::MissingGraphPort);

    assert_eq!(
        OpenGpuiRepeatableEditError::MaxItemsReached { collection_key: "shader.inputs".to_owned(), max_items: 8 }
            .message(),
        "repeatable collection `shader.inputs` reached its maximum of 8 items"
    );
    assert_eq!(
        OpenGpuiRepeatableEditError::ReorderIndexOutOfBounds { collection_key: "items".to_owned(), to_index: 120 }
            .message(),
        "repeatable target index 120 is out of bounds for `items`"
    );
    assert_eq!(
        OpenGpuiRepeatableEditError::InvalidEdit("bad".to_owned()).message(),
        "repeatable edit failed: bad"
    );
    assert_eq!(
        OpenGpuiRepeatableEditError::MissingItem { collection_key: "items".to_owned(), item_id: "a".to_owned() }
            .message(),
        "repeatable item not found in `items`: a"
    );
}

#[test]
fn component_priorities_put_field_rows_first() {
    assert_eq!(semantic_component_priority(NodeSurfaceSlotKind::FieldRow), 0);
    assert_eq!(semantic_component_priority(NodeSurfaceSlotKind::Header), 9);
    assert_eq!(semantic_component_priority(NodeSurfaceSlotKind::Icon), 12);
}

#[test]
fn control_primitives_are_listed_under_distinct_names() {
    let all = [
        (OpenGpuiControlPrimitive::TextInput, "text_input"),
        (OpenGpuiControlPrimitive::TextArea, "textarea"),
        (OpenGpuiControlPrimitive::NumberInput, "number_input"),
        (OpenGpuiControlPrimitive::Select, "select"),
        (OpenGpuiControlPrimitive::MultiSelect, "multi_select"),
        (OpenGpuiControlPrimitive::Switch, "switch"),
        (OpenGpuiControlPrimitive::Slider, "slider"),
        (OpenGpuiControlPrimitive::CodeEditor, "code_editor"),
        (OpenGpuiControlPrimitive::ColorSwatch, "color_swatch"),
        (OpenGpuiControlPrimitive::AssetPickerStub, "asset_picker_stub"),
        (OpenGpuiControlPrimitive::VariablePickerStub, "variable_picker_stub"),
        (OpenGpuiControlPrimitive::PortBindingDisplay, "port_binding_display"),
    ];
    let mut names: Vec<&str> = Vec::new();
    for (primitive, name) in all {
        assert_eq!(control_primitive_name(primitive), name);
        assert!(!names.contains(&name));
        names.push(name);
    }
}

#[test]
fn options_are_chosen_by_the_given_keys() {
    let mut select = control("control.mode");
    select.options = vec![
        OpenGpuiControlOptionPlan { value: text("a"), label: "A".to_owned(), disabled: false },
        OpenGpuiControlOptionPlan { value: text("b"), label: "B".to_owned(), disabled: true },
        OpenGpuiControlOptionPlan { value: text("c"), label: "C".to_owned(), disabled: false },
    ];
    let keys = vec!["k1".to_owned(), "k2".to_owned(), "k1".to_owned()];
    assert_eq!(select_option_by_key(&select, &keys, "k1"), OpenGpuiAuthoringOutcome::Planned(text("a")));
    assert_eq!(
        select_option_by_key(&select, &keys, "k2").skip_reason(),
        Some(&OpenGpuiAuthoringSkipReason::DisabledSelectOption {
            control_key: "control.mode".to_owned(),
            option_key: "k2".to_owned(),
        })
    );
    assert_eq!(
        select_option_by_key(&select, &keys, "\"a\"").skip_reason(),
        Some(&OpenGpuiAuthoringSkipReason::MissingSelectOption {
            control_key: "control.mode".to_owned(),
            option_key: "\"a\"".to_owned(),
        })
    );
}

#[test]
fn capability_matrix_keeps_projection_fallback_honest() {
    let matrix = OpenGpuiAdapter::projection_fallback().capability_matrix();

    assert_eq!(matrix.level(ConformanceCapabilityKind::LayoutPassMeasurement), Some(OpenGpuiLayoutPassSupport::Projection));
    assert_eq!(matrix.level(ConformanceCapabilityKind::ControlProjection), Some(OpenGpuiLayoutPassSupport::Partial));
    assert_ne!(matrix.level(ConformanceCapabilityKind::LayoutPassMeasurement), Some(OpenGpuiLayoutPassSupport::Full));
    assert_eq!(matrix.adapter_id, "open-gpui");
    assert_eq!(matrix.claims.len(), 6);
    assert_eq!(
        matrix.claims[0].notes.as_deref(),
        Some("fallback projection; not a mature layout-pass measurement claim")
    );
    for kind in [
        ConformanceCapabilityKind::RepeatableCollections,
        ConformanceCapabilityKind::Actions,
        ConformanceCapabilityKind::Menus,
        ConformanceCapabilityKind::Inspector,
    ] {
        assert_eq!(matrix.level(kind), Some(OpenGpuiLayoutPassSupport::Partial));
    }
}

#[test]
fn capability_matrix_can_claim_full_layout_pass_after_real_bounds() {
    let matrix = OpenGpuiAdapter::layout_pass(OpenGpuiMeasurementCoverage {
        layout_pass_regions: 4,
        projection_fallback_regions: 0,
        missing_regions: 0,
        stale_regions: 0,
        partial_regions: 0,
        duplicate_regions: 0,
        measured_slots: 2,
        measured_anchors: 2,
    })
    .capability_matrix();

    assert_eq!(matrix.level(ConformanceCapabilityKind::LayoutPassMeasurement), Some(OpenGpuiLayoutPassSupport::Full));
}

#[test]
fn capability_matrix_downgrades_partial_layout_pass_coverage() {
    let matrix = OpenGpuiAdapter::layout_pass(OpenGpuiMeasurementCoverage {
        layout_pass_regions: 3,
        projection_fallback_regions: 1,
        missing_regions: 0,
        stale_regions: 0,
        partial_regions: 0,
        duplicate_regions: 0,
        measured_slots: 2,
        measured_anchors: 1,
    })
    .capability_matrix();

    assert_eq!(matrix.level(ConformanceCapabilityKind::LayoutPassMeasurement), Some(OpenGpuiLayoutPassSupport::Partial));
    assert_ne!(matrix.level(ConformanceCapabilityKind::LayoutPassMeasurement), Some(OpenGpuiLayoutPassSupport::Full));
}
