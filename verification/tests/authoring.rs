use jellyflow_open_gpui::actions::{ActionIntent, ActionTarget, MenuSurface, NodeActionDescriptor, OpenGpuiMenuPlan};
use jellyflow_open_gpui::authoring::{
    control_option_keys, control_option_value_key, control_selected_option_key,
    OpenGpuiAuthoringController, OpenGpuiAuthoringOutcome, OpenGpuiAuthoringSkipReason,
    OpenGpuiControlEventValue,
};
use jellyflow_open_gpui::controls::{
    NodeControlDescriptor, NodeControlKind, NodeControlOption, NodeInternalsInvalidationReason,
    NodeSurfaceSlotFacts, OpenGpuiControlEditPlan, OpenGpuiControlPlan, OpenGpuiControlPrimitive,
    OpenGpuiControlProjectionContext, OpenGpuiControlSupport, control_current_value,
    control_write_binding, plan_control_edit, project_control,
};
use jellyflow_open_gpui::inspector::{
    InspectorDescriptor, InspectorTarget, OpenGpuiInspectorPlan, OpenGpuiInspectorSurface,
    plan_inspector_control_edit, project_inspector, project_inspectors_for_surface, repeatable_item_action_parts,
    repeatable_item_path,
};
use jellyflow_open_gpui::json_binding::{
    JsonMember, JsonValue, NodeControlBinding, NodeControlBindingSource, semantic_json_lookup,
};
use jellyflow_open_gpui::json_compare::{copy_json, json_equal};
use jellyflow_open_gpui::node_id::NodeId;
use jellyflow_open_gpui::projection::NodeSurfaceSlotKind;
use jellyflow_open_gpui::repeatable::NodeRepeatableCollectionDescriptor;

fn text(s: &str) -> JsonValue {
    JsonValue::String(s.to_owned())
}

fn number(s: &str) -> JsonValue {
    JsonValue::Number(s.to_owned())
}

fn obj(members: Vec<(&str, JsonValue)>) -> JsonValue {
    JsonValue::Object(
        members
            .into_iter()
            .map(|(key, value)| JsonMember { key: key.to_owned(), value })
            .collect(),
    )
}

fn collection(key: &str, item_source: &str, item_id_path: &str) -> NodeRepeatableCollectionDescriptor {
    NodeRepeatableCollectionDescriptor {
        key: key.to_owned(),
        item_source: item_source.to_owned(),
        item_id_path: item_id_path.to_owned(),
        min_items: None,
        max_items: None,
        reorderable: true,
        port_key_path: None,
        item_controls: Vec::new(),
        add_action: None,
        remove_action: None,
        reorder_action: None,
    }
}

fn descriptor(kind: NodeControlKind, key: &str) -> NodeControlDescriptor {
    NodeControlDescriptor {
        key: key.to_owned(),
        display_label: None,
        kind,
        binding: None,
        slot: None,
        options: Vec::new(),
        placeholder: None,
        help_text: None,
        disabled_reason: None,
        read_only: false,
        secret: false,
    }
}

fn bound(kind: NodeControlKind, key: &str, binding: NodeControlBinding) -> NodeControlDescriptor {
    let mut d = descriptor(kind, key);
    d.binding = Some(binding);
    d
}

fn data_path(path: &str) -> NodeControlBinding {
    NodeControlBinding::data_path(path.to_owned())
}

fn project(data: &JsonValue, d: &NodeControlDescriptor) -> OpenGpuiControlPlan {
    project_control(data, d, OpenGpuiControlProjectionContext::default())
}

fn assert_node_data_value(plan: &OpenGpuiControlEditPlan, path: &str, expected: JsonValue) {
    assert_eq!(plan.invalidation.nodes.len(), 1);
    assert_eq!(semantic_json_lookup(&plan.transaction.to, path), Some(&expected));
}

fn assert_skip_reason<T>(outcome: OpenGpuiAuthoringOutcome<T>, expected: OpenGpuiAuthoringSkipReason) {
    assert_eq!(outcome.skip_reason(), Some(&expected));
}


#[test]
fn text_input_and_textarea_events_plan_node_data_edits() {
    let controller = OpenGpuiAuthoringController;
    let node_id = NodeId::from_u128(1);
    let data = obj(vec![("fields", obj(vec![("title", text("Old")), ("prompt", text("Summarize"))]))]);
    let title = project(&data, &bound(NodeControlKind::TextInput, "control.title", data_path("fields.title")));
    let prompt = project(&data, &bound(NodeControlKind::TextArea, "control.prompt", data_path("fields.prompt")));

    let title_plan = controller
        .plan_control_text_edit(node_id, copy_json(&data), &title, "New".to_owned())
        .expect("title edit")
        .into_plan()
        .expect("title plan");
    assert_node_data_value(&title_plan, "fields.title", text("New"));

    let prompt_plan = controller
        .plan_control_text_edit(node_id, copy_json(&data), &prompt, "Explain {{ input }}".to_owned())
        .expect("prompt edit")
        .into_plan()
        .expect("prompt plan");
    assert_node_data_value(&prompt_plan, "fields.prompt", text("Explain {{ input }}"));
    assert_eq!(prompt_plan.invalidation.reason, NodeInternalsInvalidationReason::DataChanged);
}

#[test]
fn number_slider_and_switch_events_preserve_json_types() {
    let controller = OpenGpuiAuthoringController;
    let node_id = NodeId::from_u128(2);
    let data = obj(vec![
        ("temperature", number("0.2")),
        ("threshold", number("0.4")),
        ("stream", JsonValue::Bool(false)),
    ]);
    let number_control = project(&data, &bound(NodeControlKind::NumberInput, "control.temperature", data_path("temperature")));
    let slider = project(&data, &bound(NodeControlKind::Slider, "control.threshold", data_path("threshold")));
    let switch = project(&data, &bound(NodeControlKind::Toggle, "control.stream", data_path("stream")));

    let number_plan = controller
        .plan_control_value_edit(node_id, copy_json(&data), &number_control, number("0.75"))
        .expect("number edit")
        .into_plan()
        .expect("number plan");
    assert_node_data_value(&number_plan, "temperature", number("0.75"));

    let slider_plan = controller
        .plan_control_value_edit(node_id, copy_json(&data), &slider, number("0.9"))
        .expect("slider edit")
        .into_plan()
        .expect("slider plan");
    assert_node_data_value(&slider_plan, "threshold", number("0.9"));

    let switch_plan = controller
        .plan_control_bool_edit(node_id, copy_json(&data), &switch, true)
        .expect("switch edit")
        .into_plan()
        .expect("switch plan");
    assert_node_data_value(&switch_plan, "stream", JsonValue::Bool(true));
}

#[test]
fn select_event_resolves_original_option_value_not_label() {
    let controller = OpenGpuiAuthoringController;
    let node_id = NodeId::from_u128(3);
    let data = obj(vec![("meta", obj(vec![("model", text("old"))]))]);
    let mut d = bound(NodeControlKind::Select, "control.model", data_path("meta.model"));
    d.options = vec![
        NodeControlOption { value: text("gpt-4.1-mini"), label: "GPT 4.1 Mini".to_owned(), disabled: false },
        NodeControlOption {
            value: obj(vec![("model", text("gpt-4.1")), ("provider", text("openai"))]),
            label: "GPT 4.1".to_owned(),
            disabled: false,
        },
    ];
    let control = project(&data, &d);
    let key = control_option_value_key(&obj(vec![("provider", text("openai")), ("model", text("gpt-4.1"))]));
    assert_eq!(key, r#"{"model":"gpt-4.1","provider":"openai"}"#);
    assert_eq!(control_option_keys(&control), vec![r#""gpt-4.1-mini""#.to_owned(), key.clone()]);

    let plan = controller
        .plan_control_select_edit(node_id, copy_json(&data), &control, &key)
        .expect("select edit")
        .into_plan()
        .expect("select plan");

    assert_node_data_value(
        &plan,
        "meta.model",
        obj(vec![("model", text("gpt-4.1")), ("provider", text("openai"))]),
    );
}

#[test]
fn unavailable_controls_report_skip_reasons_without_mutation() {
    let controller = OpenGpuiAuthoringController;
    let node_id = NodeId::from_u128(4);
    let data = obj(vec![("value", text("old"))]);
    let mut disabled = bound(NodeControlKind::TextInput, "control.disabled", data_path("value"));
    disabled.disabled_reason = Some("locked".to_owned());
    let mut readonly = bound(NodeControlKind::TextInput, "control.readonly", data_path("value"));
    readonly.read_only = true;
    let asset = bound(NodeControlKind::Asset, "control.asset", data_path("value"));
    let unbound = descriptor(NodeControlKind::TextInput, "control.unbound");
    let cases = vec![
        (
            disabled,
            OpenGpuiAuthoringSkipReason::DisabledControl {
                control_key: "control.disabled".to_owned(),
                reason: "locked".to_owned(),
            },
        ),
        (readonly, OpenGpuiAuthoringSkipReason::ReadOnlyControl { control_key: "control.readonly".to_owned() }),
        (
            asset,
            OpenGpuiAuthoringSkipReason::StubControl {
                control_key: "control.asset".to_owned(),
                primitive: OpenGpuiControlPrimitive::AssetPickerStub,
            },
        ),
        (unbound, OpenGpuiAuthoringSkipReason::NoWritableBinding { control_key: "control.unbound".to_owned() }),
    ];

    for (d, expected) in cases {
        let control = project(&data, &d);
        let outcome = controller
            .plan_control_text_edit(node_id, copy_json(&data), &control, "new".to_owned())
            .expect("skipped edit");
        assert_skip_reason(outcome, expected);
    }

    let unchanged = project(&data, &bound(NodeControlKind::TextInput, "control.value", data_path("value")));
    assert_skip_reason(
        controller
            .plan_control_text_edit(node_id, copy_json(&data), &unchanged, "old".to_owned())
            .expect("unchanged edit"),
        OpenGpuiAuthoringSkipReason::UnchangedControl { control_key: "control.value".to_owned() },
    );
}

#[test]
fn select_event_reports_missing_and_disabled_options() {
    let controller = OpenGpuiAuthoringController;
    let node_id = NodeId::from_u128(5);
    let data = obj(vec![("mode", text("a"))]);
    let mut d = bound(NodeControlKind::Select, "control.mode", data_path("mode"));
    d.options = vec![
        NodeControlOption { value: text("a"), label: "A".to_owned(), disabled: false },
        NodeControlOption { value: text("b"), label: "B".to_owned(), disabled: true },
    ];
    let control = project(&data, &d);
    let disabled_key = control_option_value_key(&text("b"));
    assert_eq!(disabled_key, "\"b\"");
    assert_skip_reason(
        controller
            .plan_control_select_edit(node_id, copy_json(&data), &control, &disabled_key)
            .expect("disabled option"),
        OpenGpuiAuthoringSkipReason::DisabledSelectOption {
            control_key: "control.mode".to_owned(),
            option_key: disabled_key.clone(),
        },
    );
    assert_skip_reason(
        controller
            .plan_control_select_edit(node_id, copy_json(&data), &control, "\"missing\"")
            .expect("missing option"),
        OpenGpuiAuthoringSkipReason::MissingSelectOption {
            control_key: "control.mode".to_owned(),
            option_key: "\"missing\"".to_owned(),
        },
    );
}

#[test]
fn invalid_json_pointer_fails_without_mutating_input_node_data() {
    let controller = OpenGpuiAuthoringController;
    let node_id = NodeId::from_u128(6);
    let data = obj(vec![("meta", obj(vec![("model", text("old"))]))]);
    let control = project(
        &data,
        &bound(NodeControlKind::TextInput, "control.model", NodeControlBinding::json_pointer("meta/model".to_owned())),
    );

    let error = controller
        .plan_control_text_edit(node_id, copy_json(&data), &control, "new".to_owned())
        .expect_err("invalid pointer");

    assert!(error.contains("must start with `/`"));
    assert_eq!(semantic_json_lookup(&data, "meta.model"), Some(&text("old")));
}

#[test]
fn inspector_control_events_reuse_control_edit_path() {
    let controller = OpenGpuiAuthoringController;
    let node_id = NodeId::from_u128(7);
    let data = obj(vec![("meta", obj(vec![("model", text("old"))]))]);
    let control = project(&data, &bound(NodeControlKind::TextInput, "inspector.model", data_path("meta.model")));
    let inspector = OpenGpuiInspectorPlan {
        key: "inspector.llm".to_owned(),
        label: "LLM".to_owned(),
        target: InspectorTarget::Node { node_kind: "demo.llm".to_owned() },
        controls: vec![control],
        action_menu: OpenGpuiMenuPlan {
            key: "inspector.menu.inspector.llm".to_owned(),
            label: "LLM".to_owned(),
            surface: MenuSurface::Inspector,
            actions: Vec::new(),
        },
        editable: true,
        read_only_reason: None,
    };

    let plan = controller
        .plan_inspector_control_event(
            node_id,
            copy_json(&data),
            &inspector,
            "inspector.model",
            OpenGpuiControlEventValue::Text("gpt-4.1".to_owned()),
        )
        .expect("inspector edit")
        .into_plan()
        .expect("inspector plan");

    assert_node_data_value(&plan, "meta.model", text("gpt-4.1"));
    assert_skip_reason(
        controller
            .plan_inspector_control_value_edit(node_id, copy_json(&data), &inspector, "missing", text("new"))
            .expect("missing control"),
        OpenGpuiAuthoringSkipReason::MissingInspectorControl {
            inspector_key: "inspector.llm".to_owned(),
            control_key: "missing".to_owned(),
        },
    );
}

#[test]
fn edit_plan_updates_node_data_and_marks_internals_dirty() {
    let node_id = NodeId::from_u128(7);
    let data = obj(vec![("fields", obj(vec![("prompt", text("old"))]))]);
    let control = project(&data, &bound(NodeControlKind::TextArea, "control.prompt", data_path("fields.prompt")));

    let plan = plan_control_edit(node_id, copy_json(&data), &control, text("new"))
        .expect("edit plan")
        .expect("changed edit plan");

    assert_eq!(plan.invalidation.nodes, vec![node_id]);
    assert_eq!(plan.invalidation.reason, NodeInternalsInvalidationReason::DataChanged);
    assert_eq!(plan.transaction.id, node_id);
    assert_eq!(plan.transaction.label, "Set GPUI node control value");
    assert_eq!(plan.transaction.from, data);
    assert_eq!(semantic_json_lookup(&plan.transaction.to, "fields.prompt"), Some(&text("new")));
}

#[test]
fn readonly_and_disabled_controls_do_not_dispatch_edits() {
    let node_id = NodeId::from_u128(7);
    let data = obj(vec![("prompt", text("old"))]);
    let mut readonly = bound(NodeControlKind::TextInput, "control.prompt", data_path("prompt"));
    readonly.read_only = true;
    let readonly_plan = project(&data, &readonly);
    assert!(!readonly_plan.is_editable());
    assert!(plan_control_edit(node_id, copy_json(&data), &readonly_plan, text("new")).expect("readonly edit").is_none());

    let mut disabled = bound(NodeControlKind::TextInput, "control.prompt", data_path("prompt"));
    disabled.disabled_reason = Some("locked".to_owned());
    let disabled_plan = project(&data, &disabled);
    assert!(!disabled_plan.is_editable());
    assert!(plan_control_edit(node_id, copy_json(&data), &disabled_plan, text("new")).expect("disabled edit").is_none());
}

#[test]
fn diagnostic_inspector_projects_readonly_plan() {
    let diagnostic = InspectorDescriptor {
        key: "inspector.diagnostic.missing_port".to_owned(),
        label: Some("Missing port".to_owned()),
        target: InspectorTarget::Diagnostic { diagnostic_key: "missing_port".to_owned() },
        controls: Vec::new(),
        action_keys: Vec::new(),
    };
    let data = obj(vec![("meta", obj(vec![("model", text("gpt-4.1-mini"))]))]);

    let plan = project_inspector(&Vec::new(), &Vec::new(), &data, &diagnostic);

    assert!(!plan.editable);
    assert_eq!(
        plan.read_only_reason.as_deref(),
        Some("diagnostic inspector is read-only until a writable descriptor is provided")
    );
    assert_eq!(plan.label, "Missing port");
}

#[test]
fn projected_control_reads_value_binding_options_and_presentation() {
    let data = obj(vec![("fields", obj(vec![("prompt", text("Summarize"))]))]);
    let slot = NodeSurfaceSlotFacts { kind: NodeSurfaceSlotKind::FieldRow, data_key: Some("prompt".to_owned()) };
    let context = OpenGpuiControlProjectionContext { slot: Some(&slot), item_data: None, item_path: None };
    let mut d = bound(NodeControlKind::TextArea, "control.prompt", NodeControlBinding::slot("prompt".to_owned()));
    d.display_label = Some("Prompt".to_owned());
    d.placeholder = Some("Ask".to_owned());
    d.options = vec![NodeControlOption { value: text("x"), label: "X".to_owned(), disabled: true }];

    let plan = project_control(&data, &d, context);

    assert_eq!(plan.label, "Prompt");
    assert_eq!(plan.primitive, OpenGpuiControlPrimitive::TextArea);
    assert_eq!(plan.support, OpenGpuiControlSupport::Native);
    assert_eq!(plan.value, Some(text("Summarize")));
    assert_eq!(plan.binding, Some(data_path("fields.prompt")));
    assert_eq!(plan.options.len(), 1);
    assert_eq!(plan.options[0].value, text("x"));
    assert!(plan.options[0].disabled);
    assert_eq!(plan.placeholder.as_deref(), Some("Ask"));
    assert!(plan.is_editable());
    assert!(!plan.is_partial_stub());

    let variable = project_control(&data, &descriptor(NodeControlKind::VariablePicker, "control.variable"), context);
    assert_eq!(variable.label, "control.variable");
    assert!(variable.is_partial_stub());
    assert_eq!(variable.binding, Some(data_path("fields.prompt")));
}

#[test]
fn write_bindings_follow_the_declared_source_and_context() {
    let row = NodeSurfaceSlotFacts { kind: NodeSurfaceSlotKind::FieldRow, data_key: Some("title".to_owned()) };
    let body = NodeSurfaceSlotFacts { kind: NodeSurfaceSlotKind::Body, data_key: Some("title".to_owned()) };
    let plain = descriptor(NodeControlKind::TextInput, "control.title");
    let in_row = OpenGpuiControlProjectionContext { slot: Some(&row), item_data: None, item_path: None };
    let in_body = OpenGpuiControlProjectionContext { slot: Some(&body), item_data: None, item_path: None };
    let in_item = OpenGpuiControlProjectionContext { slot: Some(&row), item_data: None, item_path: Some("columns.1") };

    assert_eq!(control_write_binding(&plain, in_row), Some(data_path("fields.title")));
    assert_eq!(control_write_binding(&plain, in_body), Some(data_path("title")));
    assert_eq!(control_write_binding(&plain, in_item), Some(data_path("columns.1.title")));
    assert_eq!(control_write_binding(&plain, OpenGpuiControlProjectionContext::default()), None);

    let mut with_slot = descriptor(NodeControlKind::TextInput, "control.name");
    with_slot.slot = Some("meta.name".to_owned());
    assert_eq!(control_write_binding(&with_slot, in_row), Some(data_path("meta.name")));

    let pointer = bound(NodeControlKind::TextInput, "control.p", NodeControlBinding::json_pointer("/a/b".to_owned()));
    assert_eq!(control_write_binding(&pointer, in_body), Some(NodeControlBinding::json_pointer("/a/b".to_owned())));
    assert_eq!(control_write_binding(&pointer, in_item), None);

    let symbol = bound(
        NodeControlKind::VariablePicker,
        "control.s",
        NodeControlBinding { source: NodeControlBindingSource::GraphSymbol, path: "x".to_owned() },
    );
    assert_eq!(control_write_binding(&symbol, in_body), None);
}

#[test]
fn current_values_fall_back_from_binding_to_slot_paths() {
    let data = obj(vec![("title", text("Top")), ("fields", obj(vec![("title", text("Row"))]))]);
    let item = obj(vec![("name", text("email"))]);
    let row = NodeSurfaceSlotFacts { kind: NodeSurfaceSlotKind::FieldRow, data_key: Some("title".to_owned()) };
    let in_row = OpenGpuiControlProjectionContext { slot: Some(&row), item_data: None, item_path: None };
    let in_item = OpenGpuiControlProjectionContext { slot: None, item_data: Some(&item), item_path: Some("columns.1") };

    let slot_bound = bound(NodeControlKind::TextInput, "c", NodeControlBinding::slot("title".to_owned()));
    assert_eq!(control_current_value(&data, &slot_bound, in_row), Some(&text("Row")));
    assert_eq!(
        control_current_value(&data, &slot_bound, OpenGpuiControlProjectionContext::default()),
        Some(&text("Top"))
    );

    let plain = descriptor(NodeControlKind::TextInput, "c");
    assert_eq!(control_current_value(&data, &plain, in_row), Some(&text("Top")));

    let mut named = descriptor(NodeControlKind::TextInput, "c");
    named.slot = Some("name".to_owned());
    assert_eq!(control_current_value(&data, &named, in_item), Some(&text("email")));
    assert_eq!(control_current_value(&data, &plain, in_item), None);
}

#[test]
fn repeatable_items_are_found_by_id_or_member_key() {
    let data = obj(vec![
        (
            "columns",
            JsonValue::Array(vec![
                obj(vec![("id", text("name")), ("name", text("name"))]),
                obj(vec![("id", text("email")), ("name", text("email"))]),
            ]),
        ),
        (
            "rows",
            obj(vec![
                ("first", obj(vec![("label", text("One"))])),
                ("second", obj(vec![("id", number("7")), ("label", text("Two"))])),
            ]),
        ),
    ]);
    let columns = collection("table.columns", "columns", "id");
    let rows = collection("table.rows", "rows", "id");

    let (path, item) = repeatable_item_path(&columns, &data, "email").expect("email column");
    assert_eq!(path, "columns.1");
    assert_eq!(semantic_json_lookup(item, "name"), Some(&text("email")));
    assert!(repeatable_item_path(&columns, &data, "missing").is_none());

    let (path, _) = repeatable_item_path(&rows, &data, "first").expect("row by key");
    assert_eq!(path, "rows.first");
    let (path, _) = repeatable_item_path(&rows, &data, "7").expect("row by id");
    assert_eq!(path, "rows.second");
    assert!(repeatable_item_path(&rows, &data, "second").is_none());
}

#[test]
fn repeatable_item_inspector_edits_the_item_through_its_path() {
    let data = obj(vec![(
        "columns",
        JsonValue::Array(vec![
            obj(vec![("id", text("name")), ("name", text("name"))]),
            obj(vec![("id", text("email")), ("name", text("email"))]),
        ]),
    )]);
    let columns = vec![collection("table.columns", "columns", "id")];
    let mut name = descriptor(NodeControlKind::TextInput, "inspector.column.name");
    name.slot = Some("name".to_owned());
    let inspector = InspectorDescriptor {
        key: "inspector.column.email".to_owned(),
        label: None,
        target: InspectorTarget::RepeatableItem {
            collection_key: "table.columns".to_owned(),
            item_id: "email".to_owned(),
        },
        controls: vec![name],
        action_keys: Vec::new(),
    };

    let plan = project_inspector(&Vec::new(), &columns, &data, &inspector);
    assert_eq!(plan.label, "inspector.column.email");
    assert!(plan.editable);
    assert_eq!(plan.read_only_reason, None);
    assert_eq!(plan.controls[0].value, Some(text("email")));
    assert_eq!(plan.controls[0].binding, Some(data_path("columns.1.name")));
    assert_eq!(plan.editable_controls(), vec![0]);

    let edit = plan_inspector_control_edit(
        NodeId::from_u128(9),
        copy_json(&data),
        &plan,
        "inspector.column.name",
        text("email_address"),
    )
    .expect("edit plan")
    .expect("changed edit");
    assert_eq!(semantic_json_lookup(&edit.transaction.to, "columns.1.name"), Some(&text("email_address")));

    let same = plan_inspector_control_edit(NodeId::from_u128(9), copy_json(&data), &plan, "inspector.column.name", text("email"))
        .expect("same edit");
    assert!(same.is_none());

    let missing = plan_inspector_control_edit(NodeId::from_u128(9), copy_json(&data), &plan, "missing", text("x"))
        .expect_err("missing control");
    assert_eq!(missing, "inspector `inspector.column.email` has no control `missing`");
}

#[test]
fn inspectors_without_editable_controls_are_read_only() {
    let data = obj(vec![("value", text("v"))]);
    let mut locked = bound(NodeControlKind::TextInput, "control.locked", data_path("value"));
    locked.read_only = true;
    let inspector = InspectorDescriptor {
        key: "inspector.node".to_owned(),
        label: Some("Node".to_owned()),
        target: InspectorTarget::Node { node_kind: "demo.node".to_owned() },
        controls: vec![locked],
        action_keys: Vec::new(),
    };
    let plan = project_inspector(&Vec::new(), &Vec::new(), &data, &inspector);
    assert!(!plan.editable);
    assert_eq!(plan.read_only_reason.as_deref(), Some("no editable inspector controls"));
    assert!(plan.editable_controls().is_empty());
}

#[test]
fn missing_bindings_and_failed_writes_are_errors() {
    let node_id = NodeId::from_u128(1);
    let data = obj(vec![("value", text("v"))]);
    let unbound = project(&data, &descriptor(NodeControlKind::TextInput, "control.unbound"));
    assert_eq!(
        plan_control_edit(node_id, copy_json(&data), &unbound, text("x")).expect_err("unbound"),
        "control `control.unbound` has no writable binding"
    );
    let through_scalar = project(&data, &bound(NodeControlKind::TextInput, "control.deep", data_path("value.inner")));
    assert_eq!(
        plan_control_edit(node_id, copy_json(&data), &through_scalar, text("x")).expect_err("scalar"),
        "cannot set path segment `inner` on scalar value"
    );
}

#[test]
fn content_equality_compares_objects_as_maps() {
    let a = obj(vec![("a", number("1")), ("b", JsonValue::Array(vec![JsonValue::Null, text("x")]))]);
    let b = copy_json(&a);
    assert!(json_equal(&a, &b));
    assert_eq!(a, b);
    let c = obj(vec![("a", number("1")), ("b", JsonValue::Array(vec![JsonValue::Null, text("y")]))]);
    assert!(!json_equal(&a, &c));
    let d = obj(vec![("b", JsonValue::Array(vec![JsonValue::Null, text("x")])), ("a", number("1"))]);
    assert!(json_equal(&a, &d));
    assert!(json_equal(&d, &a));
    let extra = obj(vec![("a", number("1")), ("b", JsonValue::Array(vec![JsonValue::Null, text("x")])), ("c", JsonValue::Null)]);
    assert!(!json_equal(&a, &extra));
    assert!(!json_equal(&extra, &a));
    assert!(!json_equal(&number("1"), &text("1")));
    assert!(!json_equal(&JsonValue::Array(vec![number("1"), number("2")]), &JsonValue::Array(vec![number("2"), number("1")])));
}

#[test]
fn reordered_object_values_are_unchanged_edits() {
    let node_id = NodeId::from_u128(2);
    let data = obj(vec![("meta", obj(vec![("model", text("m")), ("provider", text("p"))]))]);
    let control = project(&data, &bound(NodeControlKind::Code, "control.meta", data_path("meta")));
    let same = obj(vec![("provider", text("p")), ("model", text("m"))]);
    assert!(plan_control_edit(node_id, copy_json(&data), &control, same).expect("edit").is_none());
    let changed = obj(vec![("provider", text("q")), ("model", text("m"))]);
    assert!(plan_control_edit(node_id, copy_json(&data), &control, changed).expect("edit").is_some());
}

#[test]
fn only_inspectors_for_the_surface_are_projected() {
    let data = obj(vec![("meta", obj(vec![("model", text("gpt"))]))]);
    let node = InspectorDescriptor {
        key: "inspector.llm".to_owned(),
        label: Some("LLM".to_owned()),
        target: InspectorTarget::Node { node_kind: "demo.llm".to_owned() },
        controls: vec![bound(NodeControlKind::TextInput, "inspector.model", data_path("meta.model"))],
        action_keys: Vec::new(),
    };
    let other = InspectorDescriptor {
        key: "inspector.other".to_owned(),
        label: None,
        target: InspectorTarget::Node { node_kind: "demo.other".to_owned() },
        controls: Vec::new(),
        action_keys: Vec::new(),
    };
    let edge = InspectorDescriptor { key: "inspector.edge".to_owned(), label: None, target: InspectorTarget::Edge, controls: Vec::new(), action_keys: Vec::new() };
    let inspectors = vec![other, node, edge];

    let plans = project_inspectors_for_surface(
        &Vec::new(),
        &Vec::new(),
        &inspectors,
        &data,
        &OpenGpuiInspectorSurface::Node { node_kind: "demo.llm".to_owned() },
    );
    assert_eq!(plans.len(), 1);
    assert_eq!(plans[0].key, "inspector.llm");
    assert_eq!(plans[0].label, "LLM");
    assert!(plans[0].editable);
    assert_eq!(plans[0].controls[0].value, Some(text("gpt")));

    let edges = project_inspectors_for_surface(&Vec::new(), &Vec::new(), &inspectors, &data, &OpenGpuiInspectorSurface::Edge);
    assert_eq!(edges.len(), 1);
    assert_eq!(edges[0].label, "inspector.edge");
    assert_eq!(edges[0].read_only_reason, None);
}

fn node_action(key: &str, label: &str, node_kind: &str, intent: ActionIntent) -> NodeActionDescriptor {
    NodeActionDescriptor {
        key: key.to_owned(),
        label: label.to_owned(),
        target: ActionTarget::Node { node_kind: node_kind.to_owned() },
        intent,
        enabled: true,
        disabled_reason: None,
        group: None,
        order: None,
        danger: false,
        icon_key: None,
        shortcut: None,
    }
}

#[test]
fn node_inspector_projects_controls_actions_and_dispatchable_edit() {
    let actions = vec![node_action("action.llm.run", "Run", "demo.llm", ActionIntent::RunNode)];
    let data = obj(vec![("meta", obj(vec![("model", text("gpt-4.1-mini"))]))]);
    let inspectors = vec![InspectorDescriptor {
        key: "inspector.llm".to_owned(),
        label: Some("LLM".to_owned()),
        target: InspectorTarget::Node { node_kind: "demo.llm".to_owned() },
        controls: vec![bound(NodeControlKind::TextInput, "inspector.model", data_path("meta.model"))],
        action_keys: vec!["action.llm.run".to_owned(), "action.llm.missing".to_owned()],
    }];
    let plans = project_inspectors_for_surface(
        &actions,
        &Vec::new(),
        &inspectors,
        &data,
        &OpenGpuiInspectorSurface::Node { node_kind: "demo.llm".to_owned() },
    );

    let inspector = plans.iter().find(|inspector| inspector.key == "inspector.llm").expect("llm inspector");
    assert_eq!(inspector.label, "LLM");
    assert!(inspector.editable);
    assert!(inspector.controls.iter().any(|control| control.key == "inspector.model" && control.is_editable()));
    assert!(inspector.action_menu.actions.iter().any(|action| action.key == "action.llm.run"));
    assert_eq!(inspector.action_menu.actions.len(), 1);
    assert_eq!(inspector.action_menu.key, "inspector.menu.inspector.llm");
    assert_eq!(inspector.action_menu.label, "LLM");
    assert_eq!(inspector.action_menu.surface, MenuSurface::Inspector);

    let plan = plan_inspector_control_edit(NodeId::from_u128(1), copy_json(&data), inspector, "inspector.model", text("gpt-4.1"))
        .expect("edit plan")
        .expect("changed edit");
    assert_eq!(semantic_json_lookup(&plan.transaction.to, "meta.model"), Some(&text("gpt-4.1")));

    let edited = copy_json(&plan.transaction.to);
    assert!(plan_inspector_control_edit(NodeId::from_u128(1), edited, inspector, "inspector.model", text("gpt-4.1"))
        .expect("same edit")
        .is_none());
}

#[test]
fn repeatable_item_inspector_reuses_item_binding_and_specializes_actions() {
    let data = obj(vec![(
        "columns",
        JsonValue::Array(vec![
            obj(vec![("id", text("name")), ("name", text("name"))]),
            obj(vec![("id", text("email")), ("name", text("email"))]),
        ]),
    )]);
    let mut columns = collection("table.columns", "columns", "id");
    columns.add_action = Some("action.table.add_column".to_owned());
    columns.remove_action = Some("action.table.remove_column".to_owned());
    let actions = vec![
        node_action(
            "action.table.add_column",
            "Add column",
            "demo.table",
            ActionIntent::AddRepeatableItem { collection_key: "table.columns".to_owned() },
        ),
        node_action(
            "action.table.remove_column",
            "Remove column",
            "demo.table",
            ActionIntent::RemoveRepeatableItem { collection_key: "table.columns".to_owned(), item_id: String::new() },
        ),
    ];
    let mut name = descriptor(NodeControlKind::TextInput, "inspector.column.name");
    name.slot = Some("name".to_owned());
    let inspectors = vec![InspectorDescriptor {
        key: "inspector.column.email".to_owned(),
        label: None,
        target: InspectorTarget::RepeatableItem {
            collection_key: "table.columns".to_owned(),
            item_id: "email".to_owned(),
        },
        controls: vec![name],
        action_keys: Vec::new(),
    }];
    let plans = project_inspectors_for_surface(
        &actions,
        &vec![columns],
        &inspectors,
        &data,
        &OpenGpuiInspectorSurface::RepeatableItem {
            collection_key: "table.columns".to_owned(),
            item_id: "email".to_owned(),
        },
    );

    let inspector = plans.iter().find(|inspector| inspector.key == "inspector.column.email").expect("column inspector");
    let name = inspector.controls.iter().find(|control| control.key == "inspector.column.name").expect("name control");
    assert_eq!(name.value, Some(text("email")));
    assert!(inspector.action_menu.actions.iter().any(|action| matches!(
        &action.intent,
        ActionIntent::RemoveRepeatableItem { collection_key, item_id }
            if collection_key == "table.columns" && item_id == "email"
    )));
    assert!(inspector.action_menu.actions.iter().any(|action| matches!(
        (&action.target, &action.intent),
        (ActionTarget::Node { node_kind }, ActionIntent::AddRepeatableItem { collection_key })
            if node_kind == "demo.table" && collection_key == "table.columns"
    )));
    assert_eq!(
        inspector.action_menu.actions[1].target,
        ActionTarget::RepeatableItem { collection_key: "table.columns".to_owned(), item_id: "email".to_owned() }
    );

    let plan = plan_inspector_control_edit(
        NodeId::from_u128(1),
        copy_json(&data),
        inspector,
        "inspector.column.name",
        text("email_address"),
    )
    .expect("edit plan")
    .expect("changed edit");
    assert_eq!(semantic_json_lookup(&plan.transaction.to, "columns.1.name"), Some(&text("email_address")));
}

#[test]
fn item_action_parts_retarget_only_remove_and_reorder() {
    let collection_key = "table.columns".to_owned();
    let item_id = "email".to_owned();
    let node = ActionTarget::Node { node_kind: "demo.table".to_owned() };
    let item = ActionTarget::RepeatableItem { collection_key: collection_key.clone(), item_id: item_id.clone() };

    let (target, intent) = repeatable_item_action_parts(
        node.clone(),
        ActionIntent::ReorderRepeatableItem { collection_key: "declared".to_owned(), item_id: String::new() },
        &collection_key,
        &item_id,
    );
    assert_eq!(target, item);
    assert_eq!(intent, ActionIntent::ReorderRepeatableItem { collection_key: "declared".to_owned(), item_id: "email".to_owned() });

    let (target, intent) = repeatable_item_action_parts(node.clone(), ActionIntent::RunNode, &collection_key, &item_id);
    assert_eq!(target, node);
    assert_eq!(intent, ActionIntent::RunNode);
}

#[test]
fn option_keys_are_the_json_text_of_option_values() {
    assert_eq!(control_option_value_key(&text("a")), "\"a\"");
    assert_eq!(control_option_value_key(&JsonValue::Null), "null");
    assert_eq!(control_option_value_key(&JsonValue::Bool(true)), "true");
    assert_eq!(control_option_value_key(&number("1.5")), "1.5");
    assert_eq!(
        control_option_value_key(&JsonValue::Array(vec![number("1"), text("x"), obj(vec![("b", JsonValue::Null), ("a", number("2"))])])),
        r#"[1,"x",{"a":2,"b":null}]"#
    );
    let data = obj(vec![("mode", text("a"))]);
    let mut d = bound(NodeControlKind::Select, "control.mode", data_path("mode"));
    d.options = vec![NodeControlOption { value: text("a"), label: "A".to_owned(), disabled: false }];
    let control = project(&data, &d);
    assert_eq!(control_selected_option_key(&control), Some("\"a\"".to_owned()));
    let unbound = project(&data, &descriptor(NodeControlKind::Select, "control.none"));
    assert_eq!(control_selected_option_key(&unbound), None);
}

#[test]
fn select_key_events_plan_through_the_event_path() {
    let controller = OpenGpuiAuthoringController;
    let node_id = NodeId::from_u128(8);
    let data = obj(vec![("mode", text("a"))]);
    let mut d = bound(NodeControlKind::Select, "control.mode", data_path("mode"));
    d.options = vec![
        NodeControlOption { value: text("a"), label: "A".to_owned(), disabled: false },
        NodeControlOption { value: text("c"), label: "C".to_owned(), disabled: false },
    ];
    let control = project(&data, &d);
    let plan = controller
        .plan_control_event(node_id, copy_json(&data), &control, OpenGpuiControlEventValue::SelectOptionKey("\"c\"".to_owned()))
        .expect("select event")
        .into_plan()
        .expect("planned");
    assert_node_data_value(&plan, "mode", text("c"));
    assert_skip_reason(
        controller
            .plan_control_event(node_id, copy_json(&data), &control, OpenGpuiControlEventValue::SelectOptionKey("\"a\"".to_owned()))
            .expect("same option"),
        OpenGpuiAuthoringSkipReason::UnchangedControl { control_key: "control.mode".to_owned() },
    );
}
