use jellyflow_open_gpui::controls::{NodeControlDescriptor, NodeControlKind, NodeInternalsInvalidationReason};
use jellyflow_open_gpui::json_binding::{JsonMember, JsonValue, NodeControlBinding, semantic_json_lookup};
use jellyflow_open_gpui::json_compare::copy_json;
use jellyflow_open_gpui::node_id::NodeId;
use jellyflow_open_gpui::repeatable::{
    GraphPortFacts, NodeRepeatableCollectionDescriptor, NodeRepeatableItemProjection, OpenGpuiDynamicPortPolicy,
    OpenGpuiRepeatableEditError, OpenGpuiRepeatableItemProjection, PortDirection, PortId, graph_port_by_key,
    project_repeatable_item, repeatable_item_control_count, repeatable_item_label, repeatable_port_diagnostics,
};
use jellyflow_open_gpui::repeatable_edit::{
    OpenGpuiRepeatableActionPlan, id_prefix, next_repeatable_item_id, plan_repeatable_action,
    plan_repeatable_add, plan_repeatable_item_control_edit, plan_repeatable_remove, plan_repeatable_reorder,
    repeatable_item_port_key,
};

fn text(s: &str) -> JsonValue {
    JsonValue::String(s.to_owned())
}

fn obj(members: Vec<(&str, JsonValue)>) -> JsonValue {
    JsonValue::Object(
        members
            .into_iter()
            .map(|(key, value)| JsonMember { key: key.to_owned(), value })
            .collect(),
    )
}

fn input(id: &str, name: &str, ty: &str) -> JsonValue {
    obj(vec![("id", text(id)), ("name", text(name)), ("ty", text(ty)), ("port", text(id))])
}

fn shader_inputs() -> NodeRepeatableCollectionDescriptor {
    NodeRepeatableCollectionDescriptor {
        key: "shader.inputs".to_owned(),
        item_source: "dynamic_inputs".to_owned(),
        item_id_path: "id".to_owned(),
        min_items: Some(1),
        max_items: Some(8),
        reorderable: true,
        port_key_path: Some("port".to_owned()),
        item_controls: Vec::new(),
        add_action: None,
        remove_action: None,
        reorder_action: None,
    }
}

fn shader_data() -> JsonValue {
    obj(vec![(
        "dynamic_inputs",
        JsonValue::Array(vec![input("a", "A", "vec4"), input("b", "B", "vec4"), input("factor", "Factor", "float")]),
    )])
}

fn ids(data: &JsonValue, source: &str) -> Vec<String> {
    match semantic_json_lookup(data, source) {
        Some(JsonValue::Array(items)) => items
            .iter()
            .map(|item| match semantic_json_lookup(item, "id") {
                Some(JsonValue::String(id)) => id.clone(),
                _ => String::new(),
            })
            .collect(),
        _ => Vec::new(),
    }
}

#[test]
fn repeatable_add_plans_node_data_and_reports_missing_dynamic_port() {
    let collections = vec![shader_inputs()];
    let node_id = NodeId::from_u128(4);
    let item = obj(vec![("name", text("Normal")), ("ty", text("vec4")), ("port", text("normal"))]);

    let plan = plan_repeatable_add(&collections, node_id, shader_data(), "shader.inputs", item)
        .expect("add plan")
        .expect("changed add plan");

    assert_eq!(plan.collection_key, "shader.inputs");
    assert_eq!(plan.item_id, None);
    assert_eq!(plan.invalidation.nodes, vec![node_id]);
    assert_eq!(plan.invalidation.reason, NodeInternalsInvalidationReason::DataChanged);
    assert_eq!(plan.transaction.label, "Edit repeatable item");
    assert_eq!(plan.transaction.from, shader_data());
    assert_eq!(semantic_json_lookup(&plan.transaction.to, "dynamic_inputs.3.id"), Some(&text("input_4")));
    assert_eq!(semantic_json_lookup(&plan.transaction.to, "dynamic_inputs.3.port"), Some(&text("normal")));
    assert_eq!(ids(&plan.transaction.to, "dynamic_inputs"), vec!["a", "b", "factor", "input_4"]);
}

#[test]
fn repeatable_add_reports_duplicates_bounds_and_missing_collections() {
    let collections = vec![shader_inputs()];
    let node_id = NodeId::from_u128(4);
    assert_eq!(
        plan_repeatable_add(&collections, node_id, shader_data(), "shader.inputs", input("b", "B", "vec4")),
        Err(OpenGpuiRepeatableEditError::DuplicateItem {
            collection_key: "shader.inputs".to_owned(),
            item_id: "b".to_owned(),
        })
    );
    assert_eq!(
        plan_repeatable_add(&collections, node_id, shader_data(), "shader.outputs", input("c", "C", "vec4")),
        Err(OpenGpuiRepeatableEditError::MissingCollection { collection_key: "shader.outputs".to_owned() })
    );
    let mut small = shader_inputs();
    small.max_items = Some(3);
    assert_eq!(
        plan_repeatable_add(&vec![small], node_id, shader_data(), "shader.inputs", input("c", "C", "vec4")),
        Err(OpenGpuiRepeatableEditError::MaxItemsReached { collection_key: "shader.inputs".to_owned(), max_items: 3 })
    );
    let scalar = obj(vec![("dynamic_inputs", text("none"))]);
    assert_eq!(
        plan_repeatable_add(&collections, node_id, scalar, "shader.inputs", input("c", "C", "vec4")),
        Err(OpenGpuiRepeatableEditError::UnsupportedCollectionShape { collection_key: "shader.inputs".to_owned() })
    );
    let replaced = plan_repeatable_add(&collections, node_id, shader_data(), "shader.inputs", obj(vec![("id", text("not valid"))]))
        .expect("invalid id replaced")
        .expect("changed");
    assert_eq!(ids(&replaced.transaction.to, "dynamic_inputs"), vec!["a", "b", "factor", "input_4"]);
    let mut spaced = shader_inputs();
    spaced.key = "shader.my inputs".to_owned();
    assert_eq!(
        plan_repeatable_add(&vec![spaced], node_id, shader_data(), "shader.my inputs", obj(Vec::new())),
        Err(OpenGpuiRepeatableEditError::InvalidItemId { collection_key: "shader.my inputs".to_owned() })
    );
    let empty = obj(Vec::new());
    let plan = plan_repeatable_add(&collections, node_id, empty, "shader.inputs", input("a", "A", "vec4"))
        .expect("first item")
        .expect("changed");
    assert_eq!(ids(&plan.transaction.to, "dynamic_inputs"), vec!["a"]);
}

#[test]
fn repeatable_reorder_preserves_item_identity() {
    let collections = vec![shader_inputs()];
    let node_id = NodeId::from_u128(5);
    let plan = plan_repeatable_action(
        &collections,
        node_id,
        shader_data(),
        OpenGpuiRepeatableActionPlan::Reorder {
            collection_key: "shader.inputs".to_owned(),
            item_id: "factor".to_owned(),
            to_index: 0,
        },
    )
    .expect("reorder plan")
    .expect("changed reorder plan");
    assert_eq!(plan.item_id.as_deref(), Some("factor"));
    assert_eq!(ids(&plan.transaction.to, "dynamic_inputs"), vec!["factor", "a", "b"]);
    assert_eq!(semantic_json_lookup(&plan.transaction.to, "dynamic_inputs.0.port"), Some(&text("factor")));

    assert_eq!(plan_repeatable_reorder(&collections, node_id, shader_data(), "shader.inputs", "a", 0), Ok(None));
    assert_eq!(
        plan_repeatable_reorder(&collections, node_id, shader_data(), "shader.inputs", "a", 3),
        Err(OpenGpuiRepeatableEditError::ReorderIndexOutOfBounds {
            collection_key: "shader.inputs".to_owned(),
            to_index: 3,
        })
    );
    assert_eq!(
        plan_repeatable_reorder(&collections, node_id, shader_data(), "shader.inputs", "missing", 1),
        Err(OpenGpuiRepeatableEditError::MissingItem {
            collection_key: "shader.inputs".to_owned(),
            item_id: "missing".to_owned(),
        })
    );
    let mut fixed = shader_inputs();
    fixed.reorderable = false;
    assert_eq!(
        plan_repeatable_reorder(&vec![fixed], node_id, shader_data(), "shader.inputs", "a", 1),
        Err(OpenGpuiRepeatableEditError::NotReorderable { collection_key: "shader.inputs".to_owned() })
    );
}

#[test]
fn repeatable_remove_drops_bound_port_and_incident_edges() {
    let collections = vec![shader_inputs()];
    let node_id = NodeId::from_u128(6);
    let plan = plan_repeatable_remove(&collections, node_id, shader_data(), "shader.inputs", "factor")
        .expect("remove plan")
        .expect("changed remove plan");
    assert_eq!(ids(&plan.transaction.to, "dynamic_inputs"), vec!["a", "b"]);
    assert_eq!(plan.removed_port_key.as_deref(), Some("factor"));
    assert_eq!(plan.item_id.as_deref(), Some("factor"));

    let mut strict = shader_inputs();
    strict.min_items = Some(3);
    assert_eq!(
        plan_repeatable_remove(&vec![strict], node_id, shader_data(), "shader.inputs", "factor"),
        Err(OpenGpuiRepeatableEditError::MinItemsReached { collection_key: "shader.inputs".to_owned(), min_items: 3 })
    );
    assert_eq!(
        plan_repeatable_remove(&collections, node_id, shader_data(), "shader.inputs", "normal"),
        Err(OpenGpuiRepeatableEditError::MissingItem {
            collection_key: "shader.inputs".to_owned(),
            item_id: "normal".to_owned(),
        })
    );
}

fn table_columns() -> NodeRepeatableCollectionDescriptor {
    let mut name = NodeControlDescriptor {
        key: "control.column.name".to_owned(),
        display_label: None,
        kind: NodeControlKind::TextInput,
        binding: Some(NodeControlBinding::data_path("name".to_owned())),
        slot: None,
        options: Vec::new(),
        placeholder: None,
        help_text: None,
        disabled_reason: None,
        read_only: false,
        secret: false,
    };
    let mut kind = NodeControlDescriptor {
        key: "column.kind".to_owned(),
        display_label: None,
        kind: NodeControlKind::Select,
        binding: Some(NodeControlBinding::data_path("kind".to_owned())),
        slot: None,
        options: Vec::new(),
        placeholder: None,
        help_text: None,
        disabled_reason: None,
        read_only: true,
        secret: false,
    };
    name.display_label = Some("Name".to_owned());
    kind.display_label = Some("Kind".to_owned());
    NodeRepeatableCollectionDescriptor {
        key: "table.columns".to_owned(),
        item_source: "columns".to_owned(),
        item_id_path: "id".to_owned(),
        min_items: None,
        max_items: None,
        reorderable: true,
        port_key_path: None,
        item_controls: vec![name, kind],
        add_action: None,
        remove_action: None,
        reorder_action: None,
    }
}

#[test]
fn repeatable_item_control_edit_updates_erd_field_row() {
    let collections = vec![table_columns()];
    let node_id = NodeId::from_u128(7);
    let data = obj(vec![(
        "columns",
        JsonValue::Array(vec![
            obj(vec![("id", text("id")), ("name", text("id")), ("kind", text("int"))]),
            obj(vec![("id", text("email")), ("name", text("email")), ("kind", text("text"))]),
        ]),
    )]);

    let plan = plan_repeatable_item_control_edit(
        &collections,
        node_id,
        copy_json(&data),
        "table.columns",
        "email",
        "control.column.name",
        text("email_address"),
    )
    .expect("edit plan")
    .expect("changed edit plan");
    let edited = semantic_json_lookup(&plan.transaction.to, "columns.1").expect("edited column");
    assert_eq!(repeatable_item_label(edited, "email"), "email_address");
    assert_eq!(semantic_json_lookup(&plan.transaction.to, "columns.1.name"), Some(&text("email_address")));
    assert_eq!(semantic_json_lookup(&plan.transaction.to, "columns.1.id"), Some(&text("email")));
    assert_eq!(plan.item_id.as_deref(), Some("email"));

    assert_eq!(
        plan_repeatable_item_control_edit(&collections, node_id, copy_json(&data), "table.columns", "email", "control.column.name", text("email")),
        Ok(None)
    );
    assert_eq!(
        plan_repeatable_item_control_edit(&collections, node_id, copy_json(&data), "table.columns", "email", "column.kind", text("int")),
        Err(OpenGpuiRepeatableEditError::NonWritableControl { control_key: "column.kind".to_owned() })
    );
    assert_eq!(
        plan_repeatable_item_control_edit(&collections, node_id, copy_json(&data), "table.columns", "email", "column.size", text("1")),
        Err(OpenGpuiRepeatableEditError::MissingControl {
            collection_key: "table.columns".to_owned(),
            control_key: "column.size".to_owned(),
        })
    );
}

#[test]
fn generated_ids_use_the_collection_key_and_skip_taken_candidates() {
    assert_eq!(id_prefix("shader.inputs"), "input");
    assert_eq!(id_prefix("demo.table-columns"), "table_column");
    assert_eq!(id_prefix("items"), "item");
    assert_eq!(id_prefix("a.b.ss"), "");
    assert_eq!(id_prefix("trailing."), "");

    let taken = vec![input("input_2", "A", "f"), input("input_3", "B", "f")];
    assert_eq!(next_repeatable_item_id(&shader_inputs(), &taken), "input_4");
    let crowded = vec![input("input_4", "A", "f"), input("input_3", "B", "f"), input("input_5", "C", "f")];
    assert_eq!(next_repeatable_item_id(&shader_inputs(), &crowded), "input_6");
    assert_eq!(next_repeatable_item_id(&shader_inputs(), &Vec::new()), "input_1");

    assert_eq!(repeatable_item_port_key(&shader_inputs(), &input("a", "A", "f")).as_deref(), Some("a"));
    assert_eq!(repeatable_item_port_key(&table_columns(), &input("a", "A", "f")), None);
}

fn projection(item_id: &str, port_key: Option<&str>, policy: OpenGpuiDynamicPortPolicy) -> OpenGpuiRepeatableItemProjection {
    OpenGpuiRepeatableItemProjection {
        collection_key: "shader.inputs".to_owned(),
        item_id: item_id.to_owned(),
        item_index: 0,
        slot_key: format!("repeatable.shader.inputs.{item_id}"),
        anchor: format!("rail.inputs.{item_id}"),
        label: item_id.to_owned(),
        port_key: port_key.map(ToOwned::to_owned),
        port_id: if policy == OpenGpuiDynamicPortPolicy::BoundToGraphPort { Some(PortId(9)) } else { None },
        port_direction: if policy == OpenGpuiDynamicPortPolicy::BoundToGraphPort { Some(PortDirection::In) } else { None },
        dynamic_port_policy: policy,
        controls: 1,
        remove_disabled_reason: None,
        item_data: JsonValue::Null,
    }
}

#[test]
fn only_items_missing_their_graph_port_are_diagnosed() {
    let items = vec![
        projection("a", Some("a"), OpenGpuiDynamicPortPolicy::BoundToGraphPort),
        projection("label", None, OpenGpuiDynamicPortPolicy::DisplayOnly),
        projection("normal", Some("normal"), OpenGpuiDynamicPortPolicy::MissingGraphPort),
    ];
    assert!(items[0].has_graph_port());
    assert!(!items[2].has_graph_port());
    let diagnostics = repeatable_port_diagnostics(&items);
    assert_eq!(diagnostics.len(), 1);
    assert_eq!(diagnostics[0].item_id, "normal");
    assert_eq!(diagnostics[0].port_key, "normal");
    assert_eq!(diagnostics[0].policy, OpenGpuiDynamicPortPolicy::MissingGraphPort);
    assert_eq!(
        diagnostics[0].message,
        "repeatable item `normal` declares port `normal` but the graph has no matching port"
    );
}

#[test]
fn item_labels_prefer_name_then_label_then_id() {
    assert_eq!(repeatable_item_label(&input("a", "Alpha", "vec4"), "a"), "Alpha");
    assert_eq!(repeatable_item_label(&obj(vec![("label", text("Lbl"))]), "x"), "Lbl");
    assert_eq!(repeatable_item_label(&obj(vec![("name", JsonValue::Bool(true)), ("label", text("L"))]), "x"), "L");
    assert_eq!(repeatable_item_label(&JsonValue::Null, "fallback"), "fallback");
}

#[test]
fn dify_repeatable_params_stay_display_only_without_fake_handles() {
    let params = NodeRepeatableCollectionDescriptor {
        key: "llm.params".to_owned(),
        item_source: "params".to_owned(),
        item_id_path: "id".to_owned(),
        min_items: None,
        max_items: None,
        reorderable: true,
        port_key_path: None,
        item_controls: Vec::new(),
        add_action: None,
        remove_action: None,
        reorder_action: None,
    };
    let data = obj(vec![(
        "params",
        JsonValue::Array(vec![
            obj(vec![("id", text("temperature")), ("name", text("temperature"))]),
            obj(vec![("id", text("top_p")), ("name", text("top_p"))]),
        ]),
    )]);
    let plan = plan_repeatable_action(
        &vec![params],
        NodeId::from_u128(8),
        data,
        OpenGpuiRepeatableActionPlan::Add {
            collection_key: "llm.params".to_owned(),
            item: obj(vec![("name", text("locale")), ("value", text("{{ customer.locale }}"))]),
        },
    )
    .expect("add param plan")
    .expect("changed add param");
    let locale = semantic_json_lookup(&plan.transaction.to, "params.2").expect("locale param");
    assert_eq!(semantic_json_lookup(locale, "id"), Some(&text("param_3")));
    let params = NodeRepeatableCollectionDescriptor {
        key: "llm.params".to_owned(),
        item_source: "params".to_owned(),
        item_id_path: "id".to_owned(),
        min_items: None,
        max_items: None,
        reorderable: true,
        port_key_path: None,
        item_controls: Vec::new(),
        add_action: None,
        remove_action: None,
        reorder_action: None,
    };
    assert_eq!(repeatable_item_port_key(&params, locale), None);
    assert!(repeatable_port_diagnostics(&vec![projection("param_3", None, OpenGpuiDynamicPortPolicy::DisplayOnly)]).is_empty());
}

fn item_projection(item_id: &str, index: usize, port_key: Option<&str>) -> NodeRepeatableItemProjection {
    NodeRepeatableItemProjection {
        item_id: item_id.to_owned(),
        item_index: index,
        slot_key: format!("shader.inputs.{item_id}"),
        anchor: format!("shader.inputs.{item_id}.port"),
        port_key: port_key.map(ToOwned::to_owned),
        item_data: obj(vec![("id", text(item_id)), ("name", text("Color"))]),
        slot_control_counts: vec![2, 1],
    }
}

fn port(id: u128, node: u128, key: &str, direction: PortDirection) -> GraphPortFacts {
    GraphPortFacts { id: PortId(id), node: NodeId::from_u128(node), key: key.to_owned(), direction }
}

#[test]
fn repeatable_items_preserve_identity_and_bind_existing_graph_ports() {
    let node = NodeId::from_u128(1);
    let ports = vec![port(10, 2, "a", PortDirection::In), port(11, 1, "a", PortDirection::In), port(12, 1, "b", PortDirection::In)];
    let mut a = item_projection("a", 0, Some("a"));
    a.slot_key = "rail.inputs.a".to_owned();
    a.anchor = "rail.inputs.a".to_owned();
    let collection_key = "shader.inputs".to_owned();

    let a = project_repeatable_item(&collection_key, a, &ports, node, None);

    assert_eq!(a.slot_key, "rail.inputs.a");
    assert_eq!(a.anchor, "rail.inputs.a");
    assert_eq!(a.port_key.as_deref(), Some("a"));
    assert_eq!(a.dynamic_port_policy, OpenGpuiDynamicPortPolicy::BoundToGraphPort);
    assert!(a.has_graph_port());
    assert_eq!(a.port_id, Some(PortId(11)));
    assert_eq!(a.port_direction, Some(PortDirection::In));
    assert_eq!(a.item_id, "a");
    assert_eq!(a.label, "Color");
    assert_eq!(a.controls, 3);
}

#[test]
fn repeatable_items_report_missing_graph_ports_without_pretending_to_bind_handles() {
    let node = NodeId::from_u128(2);
    let ports = vec![port(20, 2, "a", PortDirection::In), port(21, 2, "b", PortDirection::In)];
    let mut normal = item_projection("normal", 0, Some("normal"));
    normal.item_data = obj(vec![("id", text("normal")), ("name", text("Normal")), ("ty", text("vec4")), ("port", text("normal"))]);
    let items = vec![project_repeatable_item(&"shader.inputs".to_owned(), normal, &ports, node, None)];
    let diagnostics = repeatable_port_diagnostics(&items);
    let input_items: Vec<&OpenGpuiRepeatableItemProjection> =
        items.iter().filter(|item| item.collection_key == "shader.inputs").collect();
    let normal = input_items.iter().find(|item| item.item_id == "normal").expect("normal dynamic shader input");

    assert_eq!(input_items.len(), 1);
    assert_eq!(normal.port_key.as_deref(), Some("normal"));
    assert_eq!(normal.dynamic_port_policy, OpenGpuiDynamicPortPolicy::MissingGraphPort);
    assert!(normal.port_id.is_none());
    assert_eq!(diagnostics.len(), 1);
    assert_eq!(diagnostics[0].port_key, "normal");
    assert_eq!(normal.label, "Normal");
}

#[test]
fn repeatable_items_without_port_keys_are_display_only() {
    let ports = vec![port(10, 1, "note", PortDirection::Out)];
    let display = project_repeatable_item(
        &"shader.inputs".to_owned(),
        item_projection("note", 2, None),
        &ports,
        NodeId::from_u128(1),
        Some("at least one input".to_owned()),
    );
    assert_eq!(display.port_key, None);
    assert_eq!(display.port_id, None);
    assert_eq!(display.dynamic_port_policy, OpenGpuiDynamicPortPolicy::DisplayOnly);
    assert!(!display.has_graph_port());
    assert_eq!(display.item_index, 2);
    assert_eq!(display.remove_disabled_reason.as_deref(), Some("at least one input"));
}

#[test]
fn graph_ports_are_found_by_node_and_key() {
    let ports = vec![port(10, 2, "a", PortDirection::In), port(11, 1, "a", PortDirection::Out)];
    assert_eq!(graph_port_by_key(&ports, NodeId::from_u128(1), "a"), Some((PortId(11), PortDirection::Out)));
    assert_eq!(graph_port_by_key(&ports, NodeId::from_u128(2), "a"), Some((PortId(10), PortDirection::In)));
    assert_eq!(graph_port_by_key(&ports, NodeId::from_u128(1), "b"), None);
    assert_eq!(graph_port_by_key(&Vec::new(), NodeId::from_u128(1), "a"), None);
}

#[test]
fn item_control_count_sums_its_slots() {
    let mut item = item_projection("a", 0, None);
    assert_eq!(repeatable_item_control_count(&item), 3);
    item.slot_control_counts = Vec::new();
    assert_eq!(repeatable_item_control_count(&item), 0);
}
