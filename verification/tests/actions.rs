use jellyflow_open_gpui::actions::{
    ActionIntent, ActionShortcut, ActionTarget, MenuDescriptor, MenuSurface, NodeActionDescriptor, OpenGpuiActionPlan,
    OpenGpuiActionSurface, compare_actions, plan_action_dispatch, project_action, project_actions_for_surface,
    dropped_wire_menu_actions, project_menu, sort_action_plans,
};
use jellyflow_open_gpui::ordering::compare_text;

fn action(key: &str, label: &str, target: ActionTarget) -> NodeActionDescriptor {
    action_with(key, label, target, ActionIntent::Custom { key: key.to_owned() })
}

fn action_with(key: &str, label: &str, target: ActionTarget, intent: ActionIntent) -> NodeActionDescriptor {
    NodeActionDescriptor {
        key: key.to_owned(),
        label: label.to_owned(),
        target,
        intent,
        enabled: true,
        disabled_reason: None,
        group: None,
        order: None,
        danger: false,
        icon_key: None,
        shortcut: None,
    }
}

fn node_target(kind: &str) -> ActionTarget {
    ActionTarget::Node { node_kind: kind.to_owned() }
}

#[test]
fn node_menu_projects_ordered_actions_and_blocks_disabled_dispatch() {
    let mut disabled =
        action_with("action.disabled", "Disabled", node_target("demo.action_node"), ActionIntent::RunNode);
    disabled.enabled = false;
    disabled.disabled_reason = Some("Not ready".to_owned());
    disabled.order = Some(0);
    let mut run = action_with("action.run", "Run", node_target("demo.action_node"), ActionIntent::RunNode);
    run.order = Some(1);
    let actions = vec![disabled, run];
    let menu_descriptor = MenuDescriptor {
        key: "menu.node".to_owned(),
        label: None,
        surface: MenuSurface::Node,
        action_keys: vec!["action.run".to_owned(), "action.disabled".to_owned()],
    };

    let menu = project_menu(
        &actions,
        &menu_descriptor,
        &OpenGpuiActionSurface::Node { node_kind: "demo.action_node".to_owned() },
    );

    assert_eq!(menu.actions[0].key, "action.run");
    assert_eq!(menu.actions[1].key, "action.disabled");
    assert_eq!(menu.actions[1].disabled_reason.as_deref(), Some("Not ready"));
    assert_eq!(menu.label, "menu.node");
    assert!(plan_action_dispatch(&menu, "action.disabled").is_none());
    let run_dispatch = plan_action_dispatch(&menu, "action.run").expect("run dispatch");
    assert_eq!(run_dispatch.intent, ActionIntent::RunNode);
    assert_eq!(run_dispatch.action_key, "action.run");
    assert_eq!(run_dispatch.target, node_target("demo.action_node"));
}

#[test]
fn node_toolbar_surface_can_project_node_actions_without_runtime_toolbar_target() {
    let actions =
        vec![action_with("action.node.run", "Run", node_target("demo.toolbar_node"), ActionIntent::RunNode)];

    let menu = project_actions_for_surface(
        &actions,
        &OpenGpuiActionSurface::Toolbar { node_kind: Some("demo.toolbar_node".to_owned()) },
    );

    assert_eq!(menu.surface, MenuSurface::Toolbar);
    assert_eq!(menu.actions[0].key, "action.node.run");
    assert_eq!(menu.actions[0].target, node_target("demo.toolbar_node"));
    assert_eq!(menu.key, "synthetic.Toolbar");
    assert_eq!(menu.label, "Toolbar actions");
}

#[test]
fn disabled_action_plan_preserves_availability_reason() {
    let mut descriptor = action_with(
        "action.disabled",
        "Disabled",
        ActionTarget::Graph,
        ActionIntent::Custom { key: "disabled".to_owned() },
    );
    descriptor.enabled = false;
    descriptor.disabled_reason = Some("No selection".to_owned());
    let plan = project_action(&descriptor);

    assert!(!descriptor.enabled);
    assert_eq!(descriptor.disabled_reason.as_deref(), Some("No selection"));
    assert!(!plan.dispatchable());
    assert_eq!(plan.disabled_reason.as_deref(), Some("No selection"));
}

#[test]
fn synthetic_menus_sort_by_group_rank_label_and_key() {
    let graph = |key: &str, label: &str, group: Option<&str>, order: Option<i32>| {
        let mut a = action(key, label, ActionTarget::Graph);
        a.group = group.map(ToOwned::to_owned);
        a.order = order;
        a
    };
    let mut with_shortcut = graph("action.copy", "Copy", None, Some(2));
    with_shortcut.shortcut = Some(ActionShortcut {
        key: "C".to_owned(),
        ctrl: true,
        shift: false,
        alt: false,
        meta: false,
    });
    let actions = vec![
        graph("action.z", "Zoom", Some("view"), None),
        graph("action.b", "Beta", None, None),
        graph("action.a2", "Alpha", None, None),
        graph("action.a1", "Alpha", None, None),
        with_shortcut,
        graph("action.paste", "Paste", Some("edit"), Some(1)),
        action("action.node", "Node only", node_target("demo")),
    ];

    let menu = project_actions_for_surface(&actions, &OpenGpuiActionSurface::Graph);

    let keys: Vec<&str> = menu.actions.iter().map(|a| a.key.as_str()).collect();
    assert_eq!(
        keys,
        vec!["action.copy", "action.a1", "action.a2", "action.b", "action.paste", "action.z"]
    );
    assert_eq!(menu.key, "synthetic.Graph");
    assert_eq!(menu.actions[0].shortcut.as_deref(), Some("Ctrl+C"));
    assert_eq!(compare_actions(&menu.actions[0], &menu.actions[1]), -1);
    assert_eq!(compare_actions(&menu.actions[1], &menu.actions[1]), 0);
}

#[test]
fn sorting_keeps_every_action() {
    let plan = |key: &str, label: &str| OpenGpuiActionPlan {
        key: key.to_owned(),
        label: label.to_owned(),
        target: ActionTarget::Graph,
        intent: ActionIntent::RunNode,
        enabled: true,
        disabled_reason: None,
        group: None,
        order: None,
        danger: false,
        icon_key: None,
        shortcut: None,
    };
    let mut plans = vec![plan("c", "C"), plan("a", "A"), plan("b", "B"), plan("a", "A")];
    sort_action_plans(&mut plans);
    let keys: Vec<&str> = plans.iter().map(|a| a.key.as_str()).collect();
    assert_eq!(keys, vec!["a", "a", "b", "c"]);
    let mut empty: Vec<OpenGpuiActionPlan> = Vec::new();
    sort_action_plans(&mut empty);
    assert!(empty.is_empty());
}

#[test]
fn texts_sort_by_code_point() {
    assert_eq!(compare_text("a", "b"), -1);
    assert_eq!(compare_text("b", "a"), 1);
    assert_eq!(compare_text("ab", "ab"), 0);
    assert_eq!(compare_text("ab", "abc"), -1);
    assert_eq!(compare_text("Z", "a"), -1);
    assert_eq!(compare_text("é", "z"), 1);
    assert_eq!(compare_text("", ""), 0);
}

#[test]
fn dropped_wire_menus_collect_and_sort_inserts_across_kinds() {
    let wire = |key: &str, label: &str, port: Option<&str>, kind: &str| {
        let mut a = action_with(
            key,
            label,
            ActionTarget::DroppedWire { source_port_key: port.map(ToOwned::to_owned) },
            ActionIntent::InsertNode { node_kind: kind.to_owned() },
        );
        a.order = Some(1);
        a
    };
    let kinds = vec![
        vec![wire("insert.llm", "LLM", Some("text"), "demo.llm"), action("action.other", "Other", ActionTarget::Graph)],
        vec![wire("insert.any", "Any", None, "demo.any"), wire("insert.image", "Image", Some("image"), "demo.image")],
        Vec::new(),
    ];

    let plans = dropped_wire_menu_actions(&kinds, Some("text".to_owned()));
    let keys: Vec<&str> = plans.iter().map(|p| p.key.as_str()).collect();
    assert_eq!(keys, vec!["insert.any", "insert.llm"]);
    assert_eq!(plans[1].intent, ActionIntent::InsertNode { node_kind: "demo.llm".to_owned() });

    let untyped = dropped_wire_menu_actions(&kinds, None);
    let keys: Vec<&str> = untyped.iter().map(|p| p.key.as_str()).collect();
    assert_eq!(keys, vec!["insert.any"]);
    assert!(dropped_wire_menu_actions(&Vec::new(), None).is_empty());
}
