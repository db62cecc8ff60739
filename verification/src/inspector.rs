//! Inspector surfaces, the targets inspectors declare, and which inspector
//! applies where.

use vstd::prelude::*;
use crate::json_binding::{
    JsonValue, dot_segments, json_scalar_to_stable_string, lookup_segments, semantic_json_lookup,
    spec_scalar_text,
};
use crate::controls::{
    ControlContextView, NodeControlDescriptor, OpenGpuiControlEditPlan, OpenGpuiControlPlan,
    OpenGpuiControlProjectionContext, context_view, control_edit_result, control_projected,
    plan_control_edit, project_control, spec_is_editable,
};
use crate::actions::{
    ActionIntent, ActionTarget, MenuSurface, NodeActionDescriptor, OpenGpuiActionPlan, OpenGpuiMenuPlan,
    action_shown, copy_action_intent, copy_action_target, copy_text, find_action, first_action, keyed_actions,
    shortcut_label,
};
use crate::node_id::NodeId;
use crate::repeatable::NodeRepeatableCollectionDescriptor;
use crate::text::{decimal, owned, push_char, push_str, str_eq, usize_decimal_string};

verus! {

/// Adapter-local inspector surface being resolved by GPUI view state.
#[derive(Debug, Clone, PartialEq, Eq)]
pub enum OpenGpuiInspectorSurface {
    Graph,
    Node { node_kind: String },
    Edge,
    Port { port_key: String },
    Slot { slot_key: String },
    Control { control_key: String },
    RepeatableItem { collection_key: String, item_id: String },
    Diagnostic { diagnostic_key: String },
}

/// What a semantic inspector describes.
#[derive(Debug, Clone, PartialEq, Eq)]
pub enum InspectorTarget {
    Graph,
    Node { node_kind: String },
    Edge,
    Port { port_key: String },
    Slot { slot_key: String },
    Control { control_key: String },
    RepeatableItem { collection_key: String, item_id: String },
    Diagnostic { diagnostic_key: String },
}

/// An inspector applies to the surface of the same kind with the same keys.
pub open spec fn spec_inspector_matches_surface(target: InspectorTarget, surface: OpenGpuiInspectorSurface) -> bool {
    match (target, surface) {
        (InspectorTarget::Graph, OpenGpuiInspectorSurface::Graph) => true,
        (InspectorTarget::Node { node_kind: a }, OpenGpuiInspectorSurface::Node { node_kind: b }) => a@ == b@,
        (InspectorTarget::Edge, OpenGpuiInspectorSurface::Edge) => true,
        (InspectorTarget::Port { port_key: a }, OpenGpuiInspectorSurface::Port { port_key: b }) => a@ == b@,
        (InspectorTarget::Slot { slot_key: a }, OpenGpuiInspectorSurface::Slot { slot_key: b }) => a@ == b@,
        (InspectorTarget::Control { control_key: a }, OpenGpuiInspectorSurface::Control { control_key: b }) => a@ == b@,
        (InspectorTarget::RepeatableItem { collection_key: ac, item_id: ai },
            OpenGpuiInspectorSurface::RepeatableItem { collection_key: bc, item_id: bi }) => ac@ == bc@ && ai@ == bi@,
        (InspectorTarget::Diagnostic { diagnostic_key: a }, OpenGpuiInspectorSurface::Diagnostic { diagnostic_key: b }) => a@ == b@,
        _ => false,
    }
}

/// Whether an inspector declared for `target` applies to `surface`.
pub fn inspector_matches_surface(target: &InspectorTarget, surface: &OpenGpuiInspectorSurface) -> (matches: bool)
    ensures
        matches == spec_inspector_matches_surface(*target, *surface),
{
    match (target, surface) {
        (InspectorTarget::Graph, OpenGpuiInspectorSurface::Graph) => true,
        (InspectorTarget::Node { node_kind: a }, OpenGpuiInspectorSurface::Node { node_kind: b }) => str_eq(a.as_str(), b.as_str()),
        (InspectorTarget::Edge, OpenGpuiInspectorSurface::Edge) => true,
        (InspectorTarget::Port { port_key: a }, OpenGpuiInspectorSurface::Port { port_key: b }) => str_eq(a.as_str(), b.as_str()),
        (InspectorTarget::Slot { slot_key: a }, OpenGpuiInspectorSurface::Slot { slot_key: b }) => str_eq(a.as_str(), b.as_str()),
        (InspectorTarget::Control { control_key: a }, OpenGpuiInspectorSurface::Control { control_key: b }) =>
            str_eq(a.as_str(), b.as_str()),
        (InspectorTarget::RepeatableItem { collection_key: ac, item_id: ai },
            OpenGpuiInspectorSurface::RepeatableItem { collection_key: bc, item_id: bi }) =>
            str_eq(ac.as_str(), bc.as_str()) && str_eq(ai.as_str(), bi.as_str()),
        (InspectorTarget::Diagnostic { diagnostic_key: a }, OpenGpuiInspectorSurface::Diagnostic { diagnostic_key: b }) =>
            str_eq(a.as_str(), b.as_str()),
        _ => false,
    }
}

/// Why an inspector is read-only, if it is: diagnostics always are, and an
/// inspector whose controls (at least one) are all non-editable is too.
pub open spec fn spec_inspector_read_only_reason(target: InspectorTarget, editable: Seq<bool>) -> Option<Seq<char>> {
    if target is Diagnostic {
        Some("diagnostic inspector is read-only until a writable descriptor is provided"@)
    } else if editable.len() == 0 {
        None
    } else if forall|i: int| 0 <= i < editable.len() ==> !#[trigger] editable[i] {
        Some("no editable inspector controls"@)
    } else {
        None
    }
}

/// Why an inspector is read-only, given whether each of its controls is editable.
pub fn inspector_read_only_reason(target: &InspectorTarget, control_editable: &Vec<bool>) -> (reason: Option<String>)
    ensures
        match (reason, spec_inspector_read_only_reason(*target, control_editable@)) {
            (None, None) => true,
            (Some(r), Some(s)) => r@ == s,
            _ => false,
        },
{
    match target {
        InspectorTarget::Diagnostic { .. } => {
            return Some(owned("diagnostic inspector is read-only until a writable descriptor is provided"));
        },
        _ => {},
    }
    if control_editable.len() == 0 {
        return None;
    }
    let mut i: usize = 0;
    while i < control_editable.len()
        invariant
            i <= control_editable@.len(),
            control_editable@.len() > 0,
            !(*target is Diagnostic),
            forall|j: int| 0 <= j < i ==> !#[trigger] control_editable@[j],
        decreases control_editable.len() - i,
    {
        if control_editable[i] {
            assert(control_editable@[i as int]);
            return None;
        }
        i = i + 1;
    }
    Some(owned("no editable inspector controls"))
}


// ---------------------------------------------------------------------
// Repeatable items an inspector targets

/// The id an item states: the text of the scalar at the id path.
pub open spec fn spec_item_id(item: JsonValue, id_path: Seq<char>) -> Option<Seq<char>> {
    match lookup_segments(item, dot_segments(id_path)) {
        Some(v) => spec_scalar_text(v),
        None => None,
    }
}

/// An array item is found by the id it states.
pub open spec fn array_item_matches(item: JsonValue, id_path: Seq<char>, item_id: Seq<char>) -> bool {
    spec_item_id(item, id_path) == Some(item_id)
}

/// An object member is found by the id its value states, or by its key
/// when the value states none.
pub open spec fn member_item_matches(key: Seq<char>, value: JsonValue, id_path: Seq<char>, item_id: Seq<char>) -> bool {
    match spec_item_id(value, id_path) {
        Some(id) => id == item_id,
        None => key == item_id,
    }
}

/// `i` is the first array item that matches.
pub open spec fn is_first_array_item(items: Seq<JsonValue>, id_path: Seq<char>, item_id: Seq<char>, i: int) -> bool {
    &&& 0 <= i < items.len()
    &&& array_item_matches(items[i], id_path, item_id)
    &&& forall|j: int| 0 <= j < i ==> !array_item_matches(#[trigger] items[j], id_path, item_id)
}

/// `i` is the first object member that matches.
pub open spec fn is_first_member_item(
    members: Seq<crate::json_binding::JsonMember>,
    id_path: Seq<char>,
    item_id: Seq<char>,
    i: int,
) -> bool {
    &&& 0 <= i < members.len()
    &&& member_item_matches(members[i].key@, members[i].value, id_path, item_id)
    &&& forall|j: int| 0 <= j < i ==> !member_item_matches(#[trigger] members[j].key@, members[j].value, id_path, item_id)
}

/// Only one array item is the first that matches.
proof fn lemma_first_array_item_unique(items: Seq<JsonValue>, id_path: Seq<char>, item_id: Seq<char>, i: int, k: int)
    requires
        is_first_array_item(items, id_path, item_id, i),
        is_first_array_item(items, id_path, item_id, k),
    ensures
        i == k,
{
    if i < k {
        assert(!array_item_matches(items[i], id_path, item_id));
    } else if k < i {
        assert(!array_item_matches(items[k], id_path, item_id));
    }
}

/// Only one object member is the first that matches.
proof fn lemma_first_member_item_unique(
    members: Seq<crate::json_binding::JsonMember>,
    id_path: Seq<char>,
    item_id: Seq<char>,
    i: int,
    k: int,
)
    requires
        is_first_member_item(members, id_path, item_id, i),
        is_first_member_item(members, id_path, item_id, k),
    ensures
        i == k,
{
    if i < k {
        assert(!member_item_matches(members[i].key@, members[i].value, id_path, item_id));
    } else if k < i {
        assert(!member_item_matches(members[k].key@, members[k].value, id_path, item_id));
    }
}

/// The item of a repeatable collection with the given id, and the dot path
/// that names it.
///
/// The items are the value at the collection's item source. In an array
/// the first item stating the id is found, named by its index; in an
/// object the first member whose value states the id (or, stating none,
/// whose key is the id) is found, named by its key. Other values hold no
/// items.
pub open spec fn spec_item_path(
    collection: NodeRepeatableCollectionDescriptor,
    data: JsonValue,
    item_id: Seq<char>,
) -> Option<(Seq<char>, JsonValue)> {
    let source = collection.item_source@;
    let id_path = collection.item_id_path@;
    match lookup_segments(data, dot_segments(source)) {
        Some(JsonValue::Array(items)) => if exists|i: int| is_first_array_item(items@, id_path, item_id, i) {
            let i = choose|i: int| is_first_array_item(items@, id_path, item_id, i);
            Some((source + seq!['.'] + decimal(i as nat), items@[i]))
        } else {
            None
        },
        Some(JsonValue::Object(members)) => if exists|i: int| is_first_member_item(members@, id_path, item_id, i) {
            let i = choose|i: int| is_first_member_item(members@, id_path, item_id, i);
            Some((source + seq!['.'] + members@[i].key@, members@[i].value))
        } else {
            None
        },
        _ => None,
    }
}

fn item_id_of(item: &JsonValue, id_path: &str) -> (id: Option<String>)
    ensures
        match id {
            Some(t) => spec_item_id(*item, id_path@) == Some(t@),
            None => spec_item_id(*item, id_path@) is None,
        },
{
    match semantic_json_lookup(item, id_path) {
        Some(v) => json_scalar_to_stable_string(v),
        None => None,
    }
}

fn child_path(source: &str, child: &str) -> (path: String)
    ensures
        path@ == source@ + seq!['.'] + child@,
{
    let mut path = owned(source);
    push_char(&mut path, '.');
    push_str(&mut path, child);
    path
}

/// Find the item of a repeatable collection with the given id, and the
/// dot path that names it.
pub fn repeatable_item_path<'a>(
    collection: &NodeRepeatableCollectionDescriptor,
    node_data: &'a JsonValue,
    item_id: &str,
) -> (found: Option<(String, &'a JsonValue)>)
    ensures
        match (found, spec_item_path(*collection, *node_data, item_id@)) {
            (Some((path, item)), Some((p, v))) => path@ == p && *item == v,
            (None, None) => true,
            _ => false,
        },
{
    let items = match semantic_json_lookup(node_data, collection.item_source.as_str()) {
        Some(v) => v,
        None => {
            return None;
        },
    };
    match items {
        JsonValue::Array(list) => {
            let mut i: usize = 0;
            while i < list.len()
                invariant
                    lookup_segments(*node_data, dot_segments(collection.item_source@)) == Some(JsonValue::Array(*list)),
                    i <= list@.len(),
                    forall|j: int| 0 <= j < i ==> !array_item_matches(#[trigger] list@[j], collection.item_id_path@, item_id@),
                decreases list.len() - i,
            {
                let matched = match item_id_of(&list[i], collection.item_id_path.as_str()) {
                    Some(id) => str_eq(id.as_str(), item_id),
                    None => false,
                };
                if matched {
                    let index = usize_decimal_string(i);
                    let path = child_path(collection.item_source.as_str(), index.as_str());
                    let item = &list[i];
                    proof {
                        let items = lookup_segments(*node_data, dot_segments(collection.item_source@))->0->Array_0;
                        assert(items@ == list@);
                        assert(is_first_array_item(items@, collection.item_id_path@, item_id@, i as int));
                        let k = choose|k: int| is_first_array_item(items@, collection.item_id_path@, item_id@, k);
                        lemma_first_array_item_unique(items@, collection.item_id_path@, item_id@, i as int, k);
                    }
                    return Some((path, item));
                }
                i = i + 1;
            }
            None
        },
        JsonValue::Object(members) => {
            let mut i: usize = 0;
            while i < members.len()
                invariant
                    lookup_segments(*node_data, dot_segments(collection.item_source@)) == Some(JsonValue::Object(*members)),
                    i <= members@.len(),
                    forall|j: int| 0 <= j < i ==> !member_item_matches(#[trigger] members@[j].key@, members@[j].value,
                        collection.item_id_path@, item_id@),
                decreases members.len() - i,
            {
                let matched = match item_id_of(&members[i].value, collection.item_id_path.as_str()) {
                    Some(id) => str_eq(id.as_str(), item_id),
                    None => str_eq(members[i].key.as_str(), item_id),
                };
                if matched {
                    proof {
                        assert(is_first_member_item(members@, collection.item_id_path@, item_id@, i as int));
                        let k = choose|k: int| is_first_member_item(members@, collection.item_id_path@, item_id@, k);
                        lemma_first_member_item_unique(members@, collection.item_id_path@, item_id@, i as int, k);
                    }
                    return Some((child_path(collection.item_source.as_str(), members[i].key.as_str()), &members[i].value));
                }
                i = i + 1;
            }
            None
        },
        _ => None,
    }
}


/// `i` is the first collection with `key`.
pub open spec fn is_first_collection(collections: Seq<NodeRepeatableCollectionDescriptor>, key: Seq<char>, i: int) -> bool {
    &&& 0 <= i < collections.len()
    &&& collections[i].key@ == key
    &&& forall|j: int| 0 <= j < i ==> #[trigger] collections[j].key@ != key
}

pub(crate) proof fn lemma_first_collection_unique(collections: Seq<NodeRepeatableCollectionDescriptor>, key: Seq<char>, i: int, k: int)
    requires
        is_first_collection(collections, key, i),
        is_first_collection(collections, key, k),
    ensures
        i == k,
{
    if i < k {
        assert(collections[i].key@ != key);
    } else if k < i {
        assert(collections[k].key@ != key);
    }
}

/// The repeatable item an inspector edits, as its path and data: for a
/// repeatable-item target, the item with the target's id in the first
/// collection with the target's collection key.
pub open spec fn spec_repeatable_context(
    collections: Seq<NodeRepeatableCollectionDescriptor>,
    data: JsonValue,
    target: InspectorTarget,
) -> Option<(Seq<char>, JsonValue)> {
    match target {
        InspectorTarget::RepeatableItem { collection_key, item_id } =>
            if exists|i: int| is_first_collection(collections, collection_key@, i) {
                let i = choose|i: int| is_first_collection(collections, collection_key@, i);
                spec_item_path(collections[i], data, item_id@)
            } else {
                None
            },
        _ => None,
    }
}

/// The repeatable item an inspector edits: its collection, id, path and data.
struct RepeatableInspectorContext<'a> {
    collection: &'a NodeRepeatableCollectionDescriptor,
    item_id: String,
    item_path: String,
    item_data: &'a JsonValue,
}

/// The collection and id of the repeatable item an inspector edits, when
/// its target names one that the node data holds.
pub open spec fn spec_inspector_item(
    collections: Seq<NodeRepeatableCollectionDescriptor>,
    data: JsonValue,
    target: InspectorTarget,
) -> Option<(NodeRepeatableCollectionDescriptor, String)> {
    match target {
        InspectorTarget::RepeatableItem { collection_key, item_id } =>
            if exists|i: int| is_first_collection(collections, collection_key@, i) {
                let i = choose|i: int| is_first_collection(collections, collection_key@, i);
                if spec_item_path(collections[i], data, item_id@) is Some {
                    Some((collections[i], item_id))
                } else {
                    None
                }
            } else {
                None
            },
        _ => None,
    }
}

fn repeatable_context_for_inspector<'a>(
    collections: &'a Vec<NodeRepeatableCollectionDescriptor>,
    node_data: &'a JsonValue,
    target: &InspectorTarget,
) -> (context: Option<RepeatableInspectorContext<'a>>)
    ensures
        match (context, spec_repeatable_context(collections@, *node_data, *target)) {
            (Some(c), Some((p, v))) => c.item_path@ == p && *c.item_data == v,
            (None, None) => true,
            _ => false,
        },
        match (context, spec_inspector_item(collections@, *node_data, *target)) {
            (Some(c), Some((col, id))) => *c.collection == col && c.item_id == id,
            (None, None) => true,
            _ => false,
        },
{
    let (collection_key, item_id) = match target {
        InspectorTarget::RepeatableItem { collection_key, item_id } => (collection_key, item_id),
        _ => {
            return None;
        },
    };
    let mut i: usize = 0;
    while i < collections.len()
        invariant
            *target == (InspectorTarget::RepeatableItem { collection_key: *collection_key, item_id: *item_id }),
            i <= collections@.len(),
            forall|j: int| 0 <= j < i ==> #[trigger] collections@[j].key@ != collection_key@,
        decreases collections.len() - i,
    {
        if str_eq(collections[i].key.as_str(), collection_key.as_str()) {
            proof {
                assert(is_first_collection(collections@, collection_key@, i as int));
                let k = choose|k: int| is_first_collection(collections@, collection_key@, k);
                lemma_first_collection_unique(collections@, collection_key@, i as int, k);
            }
            return match repeatable_item_path(&collections[i], node_data, item_id.as_str()) {
                Some((item_path, item_data)) => Some(RepeatableInspectorContext {
                    collection: &collections[i],
                    item_id: item_id.clone(),
                    item_path,
                    item_data,
                }),
                None => None,
            };
        }
        i = i + 1;
    }
    None
}

/// What projection reads of a semantic inspector descriptor: its key,
/// label, target, controls and the keys of its actions.
#[derive(Debug, PartialEq, Eq)]
pub struct InspectorDescriptor {
    pub key: String,
    pub label: Option<String>,
    pub target: InspectorTarget,
    pub controls: Vec<NodeControlDescriptor>,
    pub action_keys: Vec<String>,
}

/// GPUI-local inspector render plan built from a semantic descriptor.
#[derive(Debug, PartialEq, Eq)]
pub struct OpenGpuiInspectorPlan {
    pub key: String,
    pub label: String,
    pub target: InspectorTarget,
    pub controls: Vec<OpenGpuiControlPlan>,
    pub action_menu: OpenGpuiMenuPlan,
    pub editable: bool,
    pub read_only_reason: Option<String>,
}

/// Whether each control of a plan takes edits.
pub open spec fn editable_flags(controls: Seq<OpenGpuiControlPlan>) -> Seq<bool> {
    controls.map_values(|c: OpenGpuiControlPlan| spec_is_editable(c))
}

/// The context an inspector's controls are projected in: no slot, and the
/// repeatable item it edits, if any.
pub open spec fn inspector_context(
    collections: Seq<NodeRepeatableCollectionDescriptor>,
    data: JsonValue,
    target: InspectorTarget,
) -> ControlContextView {
    match spec_repeatable_context(collections, data, target) {
        Some((path, item)) => ControlContextView { slot: None, item_data: Some(item), item_path: Some(path) },
        None => ControlContextView { slot: None, item_data: None, item_path: None },
    }
}

fn copy_target(target: &InspectorTarget) -> (c: InspectorTarget)
    ensures
        c == *target,
{
    match target {
        InspectorTarget::Graph => InspectorTarget::Graph,
        InspectorTarget::Node { node_kind } => InspectorTarget::Node { node_kind: node_kind.clone() },
        InspectorTarget::Edge => InspectorTarget::Edge,
        InspectorTarget::Port { port_key } => InspectorTarget::Port { port_key: port_key.clone() },
        InspectorTarget::Slot { slot_key } => InspectorTarget::Slot { slot_key: slot_key.clone() },
        InspectorTarget::Control { control_key } => InspectorTarget::Control { control_key: control_key.clone() },
        InspectorTarget::RepeatableItem { collection_key, item_id } =>
            InspectorTarget::RepeatableItem { collection_key: collection_key.clone(), item_id: item_id.clone() },
        InspectorTarget::Diagnostic { diagnostic_key } =>
            InspectorTarget::Diagnostic { diagnostic_key: diagnostic_key.clone() },
    }
}

// ---------------------------------------------------------------------
// The inspector's action menu

/// The target and intent of an action offered on a repeatable item's
/// inspector: removing or reordering acts on that item; other actions keep
/// their own.
pub open spec fn spec_item_action_parts(
    target: ActionTarget,
    intent: ActionIntent,
    collection_key: String,
    item_id: String,
) -> (ActionTarget, ActionIntent) {
    match intent {
        ActionIntent::RemoveRepeatableItem { collection_key: declared, item_id: _ } => (
            ActionTarget::RepeatableItem { collection_key, item_id },
            ActionIntent::RemoveRepeatableItem { collection_key: declared, item_id },
        ),
        ActionIntent::ReorderRepeatableItem { collection_key: declared, item_id: _ } => (
            ActionTarget::RepeatableItem { collection_key, item_id },
            ActionIntent::ReorderRepeatableItem { collection_key: declared, item_id },
        ),
        _ => (target, intent),
    }
}

/// The target and intent of an action offered on the inspector of item
/// `item_id` of collection `collection_key`.
pub fn repeatable_item_action_parts(
    target: ActionTarget,
    intent: ActionIntent,
    collection_key: &String,
    item_id: &String,
) -> (parts: (ActionTarget, ActionIntent))
    ensures
        parts == spec_item_action_parts(target, intent, *collection_key, *item_id),
{
    match intent {
        ActionIntent::RemoveRepeatableItem { collection_key: declared, item_id: _ } => (
            ActionTarget::RepeatableItem { collection_key: collection_key.clone(), item_id: item_id.clone() },
            ActionIntent::RemoveRepeatableItem { collection_key: declared, item_id: item_id.clone() },
        ),
        ActionIntent::ReorderRepeatableItem { collection_key: declared, item_id: _ } => (
            ActionTarget::RepeatableItem { collection_key: collection_key.clone(), item_id: item_id.clone() },
            ActionIntent::ReorderRepeatableItem { collection_key: declared, item_id: item_id.clone() },
        ),
        other => (target, other),
    }
}

/// A key that may be absent, as a list of none or one.
pub open spec fn opt_key(key: Option<String>) -> Seq<String> {
    match key {
        Some(k) => seq![k],
        None => Seq::empty(),
    }
}

/// The action keys an inspector's menu lists: its own, then, on a
/// repeatable item, its collection's add, remove and reorder actions.
pub open spec fn inspector_menu_keys(
    inspector: InspectorDescriptor,
    item: Option<(NodeRepeatableCollectionDescriptor, String)>,
) -> Seq<String> {
    match item {
        Some((c, _)) => inspector.action_keys@ + opt_key(c.add_action) + opt_key(c.remove_action) + opt_key(c.reorder_action),
        None => inspector.action_keys@,
    }
}

/// `plan` renders `action` in an inspector menu: shown as declared, acting
/// on the inspected item when `item` names one.
pub open spec fn inspector_action_projected(
    plan: OpenGpuiActionPlan,
    action: NodeActionDescriptor,
    item: Option<(String, String)>,
) -> bool {
    &&& action_shown(plan, action)
    &&& match item {
        Some((collection_key, item_id)) => (plan.target, plan.intent)
            == spec_item_action_parts(action.target, action.intent, collection_key, item_id),
        None => plan.target == action.target && plan.intent == action.intent,
    }
}

/// `plans` render the actions that `keys` list, in order.
pub open spec fn listed_projected(
    plans: Seq<OpenGpuiActionPlan>,
    actions: Seq<NodeActionDescriptor>,
    keys: Seq<String>,
    item: Option<(String, String)>,
) -> bool {
    &&& plans.len() == keyed_actions(actions, keys).len()
    &&& forall|i: int| 0 <= i < plans.len() ==> inspector_action_projected(#[trigger] plans[i],
        keyed_actions(actions, keys)[i], item)
}

/// The collection key and item id that inspector actions act on.
pub open spec fn item_ids(item: Option<(NodeRepeatableCollectionDescriptor, String)>) -> Option<(String, String)> {
    match item {
        Some((c, id)) => Some((c.key, id)),
        None => None,
    }
}

/// `menu` is the action menu of `inspector`: keyed by the inspector, on the
/// inspector surface, listing the actions its keys name, in order.
pub open spec fn inspector_menu_projected(
    menu: OpenGpuiMenuPlan,
    actions: Seq<NodeActionDescriptor>,
    inspector: InspectorDescriptor,
    item: Option<(NodeRepeatableCollectionDescriptor, String)>,
) -> bool {
    &&& menu.key@ == "inspector.menu."@ + inspector.key@
    &&& menu.label == (match inspector.label {
        Some(l) => l,
        None => inspector.key,
    })
    &&& menu.surface == MenuSurface::Inspector
    &&& listed_projected(menu.actions@, actions, inspector_menu_keys(inspector, item), item_ids(item))
}

fn push_listed_action(
    actions: &Vec<NodeActionDescriptor>,
    key: &String,
    item: Option<(&String, &String)>,
    plans: &mut Vec<OpenGpuiActionPlan>,
    Ghost(keys): Ghost<Seq<String>>,
)
    requires
        listed_projected(old(plans)@, actions@, keys, match item {
            Some((c, i)) => Some((*c, *i)),
            None => None,
        }),
    ensures
        listed_projected(final(plans)@, actions@, keys.push(*key), match item {
            Some((c, i)) => Some((*c, *i)),
            None => None,
        }),
{
    let ghost ids = match item {
        Some((c, i)) => Some((*c, *i)),
        None => None,
    };
    proof {
        assert(keys.push(*key).drop_last() =~= keys);
    }
    match find_action(actions, key.as_str()) {
        Some(k) => {
            let action = &actions[k];
            let (target, intent) = match item {
                Some((collection_key, item_id)) => repeatable_item_action_parts(
                    copy_action_target(&action.target),
                    copy_action_intent(&action.intent),
                    collection_key,
                    item_id,
                ),
                None => (copy_action_target(&action.target), copy_action_intent(&action.intent)),
            };
            let plan = OpenGpuiActionPlan {
                key: action.key.clone(),
                label: action.label.clone(),
                target,
                intent,
                enabled: action.enabled,
                disabled_reason: copy_text(&action.disabled_reason),
                group: copy_text(&action.group),
                order: action.order,
                danger: action.danger,
                icon_key: copy_text(&action.icon_key),
                shortcut: match &action.shortcut {
                    Some(shortcut) => Some(shortcut_label(shortcut)),
                    None => None,
                },
            };
            let ghost before = plans@;
            plans.push(plan);
            proof {
                let listed = keyed_actions(actions@, keys.push(*key));
                assert(listed == keyed_actions(actions@, keys).push(actions@[k as int]));
                assert forall|i: int| 0 <= i < plans@.len() implies inspector_action_projected(#[trigger] plans@[i],
                    listed[i], ids) by {
                    if i < before.len() {
                        assert(plans@[i] == before[i]);
                    }
                }
            }
        },
        None => {
            proof {
                assert(keyed_actions(actions@, keys.push(*key)) == keyed_actions(actions@, keys));
            }
        },
    }
}

fn push_optional_action(
    actions: &Vec<NodeActionDescriptor>,
    key: &Option<String>,
    item: Option<(&String, &String)>,
    plans: &mut Vec<OpenGpuiActionPlan>,
    Ghost(keys): Ghost<Seq<String>>,
)
    requires
        listed_projected(old(plans)@, actions@, keys, match item {
            Some((c, i)) => Some((*c, *i)),
            None => None,
        }),
    ensures
        listed_projected(final(plans)@, actions@, keys + opt_key(*key), match item {
            Some((c, i)) => Some((*c, *i)),
            None => None,
        }),
{
    match key {
        Some(k) => {
            push_listed_action(actions, k, item, plans, Ghost(keys));
            proof {
                assert(keys + opt_key(*key) =~= keys.push(*k));
            }
        },
        None => {
            proof {
                assert(keys + opt_key(*key) =~= keys);
            }
        },
    }
}

/// The action menu of an inspector: its own actions, then, on a repeatable
/// item, the collection's add, remove and reorder actions, with removing and
/// reordering acting on the inspected item.
fn inspector_action_menu(
    actions: &Vec<NodeActionDescriptor>,
    inspector: &InspectorDescriptor,
    item: Option<(&NodeRepeatableCollectionDescriptor, &String)>,
) -> (menu: OpenGpuiMenuPlan)
    ensures
        inspector_menu_projected(menu, actions@, *inspector, match item {
            Some((c, i)) => Some((*c, *i)),
            None => None,
        }),
{
    let ghost spec_item = match item {
        Some((c, i)) => Some((*c, *i)),
        None => None,
    };
    let ids: Option<(&String, &String)> = match item {
        Some((c, i)) => Some((&c.key, i)),
        None => None,
    };
    assert(item_ids(spec_item) == match ids {
        Some((c, i)) => Some((*c, *i)),
        None => None,
    });
    let mut plans: Vec<OpenGpuiActionPlan> = Vec::new();
    let mut i: usize = 0;
    while i < inspector.action_keys.len()
        invariant
            i <= inspector.action_keys@.len(),
            item_ids(spec_item) == match ids {
                Some((c, i)) => Some((*c, *i)),
                None => None,
            },
            listed_projected(plans@, actions@, inspector.action_keys@.subrange(0, i as int), item_ids(spec_item)),
        decreases inspector.action_keys.len() - i,
    {
        push_listed_action(actions, &inspector.action_keys[i], ids, &mut plans,
            Ghost(inspector.action_keys@.subrange(0, i as int)));
        proof {
            assert(inspector.action_keys@.subrange(0, i as int).push(inspector.action_keys@[i as int])
                =~= inspector.action_keys@.subrange(0, i + 1));
        }
        i = i + 1;
    }
    proof {
        assert(inspector.action_keys@.subrange(0, i as int) =~= inspector.action_keys@);
    }
    match item {
        Some((collection, _)) => {
            let ghost k0 = inspector.action_keys@;
            push_optional_action(actions, &collection.add_action, ids, &mut plans, Ghost(k0));
            let ghost k1 = k0 + opt_key(collection.add_action);
            push_optional_action(actions, &collection.remove_action, ids, &mut plans, Ghost(k1));
            let ghost k2 = k1 + opt_key(collection.remove_action);
            push_optional_action(actions, &collection.reorder_action, ids, &mut plans, Ghost(k2));
            proof {
                assert(inspector_menu_keys(*inspector, spec_item) =~= k2 + opt_key(collection.reorder_action));
            }
        },
        None => {},
    }
    let mut key = owned("inspector.menu.");
    push_str(&mut key, inspector.key.as_str());
    OpenGpuiMenuPlan {
        key,
        label: match &inspector.label {
            Some(l) => l.clone(),
            None => inspector.key.clone(),
        },
        surface: MenuSurface::Inspector,
        actions: plans,
    }
}

/// `plan` renders `inspector` over `data`: its label (else its key), its
/// controls projected in the inspector's context, its action menu, and why
/// it is read-only, if it is.
pub open spec fn inspector_projected(
    plan: OpenGpuiInspectorPlan,
    actions: Seq<NodeActionDescriptor>,
    collections: Seq<NodeRepeatableCollectionDescriptor>,
    data: JsonValue,
    inspector: InspectorDescriptor,
) -> bool {
    &&& plan.key == inspector.key
    &&& plan.label == (match inspector.label {
        Some(l) => l,
        None => inspector.key,
    })
    &&& plan.target == inspector.target
    &&& plan.controls@.len() == inspector.controls@.len()
    &&& forall|i: int| 0 <= i < plan.controls@.len() ==> control_projected(#[trigger] plan.controls@[i], data,
        inspector.controls@[i], inspector_context(collections, data, inspector.target))
    &&& inspector_menu_projected(plan.action_menu, actions, inspector,
        spec_inspector_item(collections, data, inspector.target))
    &&& match (plan.read_only_reason, spec_inspector_read_only_reason(inspector.target, editable_flags(plan.controls@))) {
        (None, None) => true,
        (Some(r), Some(t)) => r@ == t,
        _ => false,
    }
    &&& plan.editable == (plan.read_only_reason is None)
}

/// Build one inspector plan from a semantic descriptor: its label (else
/// its key), its controls projected in the inspector's context, its action
/// menu, and why it is read-only, if it is.
///
/// `actions` and `collections` are the actions and repeatable collections
/// of the node's kind.
pub fn project_inspector(
    actions: &Vec<NodeActionDescriptor>,
    collections: &Vec<NodeRepeatableCollectionDescriptor>,
    node_data: &JsonValue,
    inspector: &InspectorDescriptor,
) -> (plan: OpenGpuiInspectorPlan)
    ensures
        inspector_projected(plan, actions@, collections@, *node_data, *inspector),
{
    let repeatable = repeatable_context_for_inspector(collections, node_data, &inspector.target);
    let action_menu = inspector_action_menu(actions, inspector, match &repeatable {
        Some(c) => Some((c.collection, &c.item_id)),
        None => None,
    });
    let (item_data, item_path) = match &repeatable {
        Some(c) => (Some(c.item_data), Some(c.item_path.as_str())),
        None => (None, None),
    };
    let context = OpenGpuiControlProjectionContext { slot: None, item_data, item_path };
    let ghost cv = inspector_context(collections@, *node_data, inspector.target);
    assert(context_view(context) == cv);
    let mut controls: Vec<OpenGpuiControlPlan> = Vec::new();
    let mut editable: Vec<bool> = Vec::new();
    let mut i: usize = 0;
    while i < inspector.controls.len()
        invariant
            context_view(context) == cv,
            i <= inspector.controls@.len(),
            controls@.len() == i,
            editable@ == editable_flags(controls@),
            forall|j: int| 0 <= j < i ==> control_projected(#[trigger] controls@[j], *node_data, inspector.controls@[j], cv),
        decreases inspector.controls.len() - i,
    {
        let control = project_control(node_data, &inspector.controls[i], context);
        editable.push(control.is_editable());
        controls.push(control);
        proof {
            assert(editable@ =~= editable_flags(controls@));
        }
        i = i + 1;
    }
    let read_only_reason = inspector_read_only_reason(&inspector.target, &editable);
    let label = match &inspector.label {
        Some(l) => l.clone(),
        None => inspector.key.clone(),
    };
    OpenGpuiInspectorPlan {
        key: inspector.key.clone(),
        label,
        target: copy_target(&inspector.target),
        controls,
        action_menu,
        editable: read_only_reason.is_none(),
        read_only_reason,
    }
}


impl OpenGpuiInspectorPlan {
    /// The positions of the controls that take edits, in order.
    pub fn editable_controls(&self) -> (positions: Vec<usize>)
        ensures
            forall|k: int| 0 <= k < positions@.len() ==> #[trigger] positions@[k] < self.controls@.len()
                && spec_is_editable(self.controls@[positions@[k] as int]),
            forall|k: int, l: int| 0 <= k < l < positions@.len() ==> #[trigger] positions@[k] < #[trigger] positions@[l],
            forall|j: int| 0 <= j < self.controls@.len() && spec_is_editable(#[trigger] self.controls@[j])
                ==> exists|k: int| 0 <= k < positions@.len() && positions@[k] == j,
    {
        let mut positions: Vec<usize> = Vec::new();
        let mut i: usize = 0;
        while i < self.controls.len()
            invariant
                i <= self.controls@.len(),
                forall|k: int| 0 <= k < positions@.len() ==> #[trigger] positions@[k] < i
                    && spec_is_editable(self.controls@[positions@[k] as int]),
                forall|k: int, l: int| 0 <= k < l < positions@.len() ==> #[trigger] positions@[k] < #[trigger] positions@[l],
                forall|j: int| 0 <= j < i && spec_is_editable(#[trigger] self.controls@[j])
                    ==> exists|k: int| 0 <= k < positions@.len() && positions@[k] == j,
            decreases self.controls.len() - i,
        {
            if self.controls[i].is_editable() {
                let ghost before = positions@;
                positions.push(i);
                proof {
                    assert forall|j: int| 0 <= j < i + 1 && spec_is_editable(#[trigger] self.controls@[j])
                        implies exists|k: int| 0 <= k < positions@.len() && positions@[k] == j by {
                        if j == i {
                            assert(positions@[before.len() as int] == j);
                        } else {
                            let k = choose|k: int| 0 <= k < before.len() && before[k] == j;
                            assert(positions@[k] == j);
                        }
                    }
                }
            }
            i = i + 1;
        }
        positions
    }
}

/// `i` is the first control with `key`.
pub open spec fn is_first_control(controls: Seq<OpenGpuiControlPlan>, key: Seq<char>, i: int) -> bool {
    &&& 0 <= i < controls.len()
    &&& controls[i].key@ == key
    &&& forall|j: int| 0 <= j < i ==> #[trigger] controls[j].key@ != key
}

/// The position of the first control with `key`, if there is one.
pub(crate) fn find_control(controls: &Vec<OpenGpuiControlPlan>, key: &str) -> (found: Option<usize>)
    ensures
        match found {
            Some(i) => is_first_control(controls@, key@, i as int),
            None => forall|j: int| 0 <= j < controls@.len() ==> #[trigger] controls@[j].key@ != key@,
        },
{
    let mut i: usize = 0;
    while i < controls.len()
        invariant
            i <= controls@.len(),
            forall|j: int| 0 <= j < i ==> #[trigger] controls@[j].key@ != key@,
        decreases controls.len() - i,
    {
        if str_eq(controls[i].key.as_str(), key) {
            return Some(i);
        }
        i = i + 1;
    }
    None
}

/// The error for an inspector without the control an edit names.
pub open spec fn missing_control_message(inspector_key: Seq<char>, control_key: Seq<char>) -> Seq<char> {
    "inspector `"@ + inspector_key + "` has no control `"@ + control_key + "`"@
}

/// Resolve an inspector-local control edit through the same write path used
/// by in-node controls: the first control with `control_key` is edited, and
/// an inspector without one is an error.
pub fn plan_inspector_control_edit(
    node_id: NodeId,
    node_data: JsonValue,
    inspector: &OpenGpuiInspectorPlan,
    control_key: &str,
    value: JsonValue,
) -> (r: Result<Option<OpenGpuiControlEditPlan>, String>)
    ensures
        (forall|j: int| 0 <= j < inspector.controls@.len() ==> #[trigger] inspector.controls@[j].key@ != control_key@)
            ==> r is Err && r->Err_0@ == missing_control_message(inspector.key@, control_key@),
        forall|i: int| is_first_control(inspector.controls@, control_key@, i)
            ==> control_edit_result(r, node_id, node_data, inspector.controls@[i], value),
{
    match find_control(&inspector.controls, control_key) {
        Some(i) => {
            return plan_control_edit(node_id, node_data, &inspector.controls[i], value);
        },
        None => {},
    }
    let mut message = owned("inspector `");
    push_str(&mut message, inspector.key.as_str());
    push_str(&mut message, "` has no control `");
    push_str(&mut message, control_key);
    push_str(&mut message, "`");
    Err(message)
}

/// The inspectors that apply to `surface`, in declaration order.
pub open spec fn matching_inspectors(inspectors: Seq<InspectorDescriptor>, surface: OpenGpuiInspectorSurface) -> Seq<InspectorDescriptor>
    decreases inspectors.len(),
{
    if inspectors.len() == 0 {
        Seq::empty()
    } else {
        let rest = matching_inspectors(inspectors.drop_last(), surface);
        if spec_inspector_matches_surface(inspectors.last().target, surface) { rest.push(inspectors.last()) } else { rest }
    }
}

/// Project all inspector descriptors that match one GPUI-local surface, in order.
pub fn project_inspectors_for_surface(
    actions: &Vec<NodeActionDescriptor>,
    collections: &Vec<NodeRepeatableCollectionDescriptor>,
    inspectors: &Vec<InspectorDescriptor>,
    node_data: &JsonValue,
    surface: &OpenGpuiInspectorSurface,
) -> (plans: Vec<OpenGpuiInspectorPlan>)
    ensures
        plans@.len() == matching_inspectors(inspectors@, *surface).len(),
        forall|i: int| 0 <= i < plans@.len() ==> inspector_projected(#[trigger] plans@[i], actions@, collections@, *node_data,
            matching_inspectors(inspectors@, *surface)[i]),
{
    let mut plans: Vec<OpenGpuiInspectorPlan> = Vec::new();
    let mut i: usize = 0;
    while i < inspectors.len()
        invariant
            i <= inspectors@.len(),
            plans@.len() == matching_inspectors(inspectors@.subrange(0, i as int), *surface).len(),
            forall|k: int| 0 <= k < plans@.len() ==> inspector_projected(#[trigger] plans@[k], actions@, collections@, *node_data,
                matching_inspectors(inspectors@.subrange(0, i as int), *surface)[k]),
        decreases inspectors.len() - i,
    {
        proof {
            assert(inspectors@.subrange(0, i + 1).drop_last() =~= inspectors@.subrange(0, i as int));
        }
        if inspector_matches_surface(&inspectors[i].target, surface) {
            plans.push(project_inspector(actions, collections, node_data, &inspectors[i]));
        }
        i = i + 1;
    }
    proof {
        assert(inspectors@.subrange(0, inspectors@.len() as int) =~= inspectors@);
    }
    plans
}

/// An inspector applies only to a surface of its target's kind, and a keyed
/// inspector only where every key of its target is the surface's: a
/// control's inspector never applies to another control, nor an item's to
/// another item.
pub proof fn lemma_inspectors_apply_to_their_own_element(target: InspectorTarget, surface: OpenGpuiInspectorSurface)
    requires
        spec_inspector_matches_surface(target, surface),
    ensures
        target matches InspectorTarget::Node { node_kind: t } ==>
            (surface matches OpenGpuiInspectorSurface::Node { node_kind: s } && t@ == s@),
        target matches InspectorTarget::Port { port_key: t } ==>
            (surface matches OpenGpuiInspectorSurface::Port { port_key: s } && t@ == s@),
        target matches InspectorTarget::Slot { slot_key: t } ==>
            (surface matches OpenGpuiInspectorSurface::Slot { slot_key: s } && t@ == s@),
        target matches InspectorTarget::Control { control_key: t } ==>
            (surface matches OpenGpuiInspectorSurface::Control { control_key: s } && t@ == s@),
        target matches InspectorTarget::RepeatableItem { collection_key: tc, item_id: ti } ==>
            (surface matches OpenGpuiInspectorSurface::RepeatableItem { collection_key: sc, item_id: si }
                && tc@ == sc@ && ti@ == si@),
        target matches InspectorTarget::Diagnostic { diagnostic_key: t } ==>
            (surface matches OpenGpuiInspectorSurface::Diagnostic { diagnostic_key: s } && t@ == s@),
        target is Graph ==> surface is Graph,
        target is Edge ==> surface is Edge,
{
}

/// On its own element's surface, with every key equal, an inspector applies.
pub proof fn lemma_inspectors_apply_on_their_element(target: InspectorTarget, surface: OpenGpuiInspectorSurface)
    ensures
        (target matches InspectorTarget::Control { control_key: t }
            && surface matches OpenGpuiInspectorSurface::Control { control_key: s } && t@ == s@)
            ==> spec_inspector_matches_surface(target, surface),
        (target matches InspectorTarget::Node { node_kind: t }
            && surface matches OpenGpuiInspectorSurface::Node { node_kind: s } && t@ == s@)
            ==> spec_inspector_matches_surface(target, surface),
        (target matches InspectorTarget::RepeatableItem { collection_key: tc, item_id: ti }
            && surface matches OpenGpuiInspectorSurface::RepeatableItem { collection_key: sc, item_id: si }
            && tc@ == sc@ && ti@ == si@)
            ==> spec_inspector_matches_surface(target, surface),
        (target is Graph && surface is Graph) ==> spec_inspector_matches_surface(target, surface),
{
}

} // verus!
