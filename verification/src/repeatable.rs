//! Repeatable item port policy, port diagnostics and authoring errors.

use vstd::prelude::*;
use crate::controls::NodeControlDescriptor;
use crate::json_binding::{JsonValue, dot_step_member};
use crate::node_id::NodeId;
use crate::text::{decimal, owned, push_str, str_eq, usize_decimal_string};

verus! {

/// What the adapter reads of a repeatable collection descriptor: its key,
/// the dot path of its items in node data, the dot path of an item's id,
/// its item-count bounds, whether it can be reordered, the dot path of an
/// item's port key, the controls of its item template in order, and the
/// keys of the actions that add, remove and reorder its items.
#[derive(Debug, PartialEq, Eq)]
pub struct NodeRepeatableCollectionDescriptor {
    pub key: String,
    pub item_source: String,
    pub item_id_path: String,
    pub min_items: Option<usize>,
    pub max_items: Option<usize>,
    pub reorderable: bool,
    pub port_key_path: Option<String>,
    pub item_controls: Vec<NodeControlDescriptor>,
    pub add_action: Option<String>,
    pub remove_action: Option<String>,
    pub reorder_action: Option<String>,
}

/// Dynamic-port support policy for one repeatable item.
#[derive(Debug, Clone, Copy, PartialEq, Eq, Structural)]
pub enum OpenGpuiDynamicPortPolicy {
    /// The item is display-only and must not publish graph-port anchors.
    DisplayOnly,
    /// A graph port with the semantic item port key exists and can be measured.
    BoundToGraphPort,
    /// The item declares a port key but the graph has no matching port yet.
    MissingGraphPort,
}

/// The policy of an item: display-only without a port key, otherwise bound
/// or missing as the graph has a port under that key or not.
pub open spec fn spec_dynamic_port_policy(declares_port_key: bool, graph_has_port: bool) -> OpenGpuiDynamicPortPolicy {
    if !declares_port_key {
        OpenGpuiDynamicPortPolicy::DisplayOnly
    } else if graph_has_port {
        OpenGpuiDynamicPortPolicy::BoundToGraphPort
    } else {
        OpenGpuiDynamicPortPolicy::MissingGraphPort
    }
}

/// The dynamic-port policy of one repeatable item.
pub fn dynamic_port_policy(declares_port_key: bool, graph_has_port: bool) -> (policy: OpenGpuiDynamicPortPolicy)
    ensures
        policy == spec_dynamic_port_policy(declares_port_key, graph_has_port),
{
    if !declares_port_key {
        OpenGpuiDynamicPortPolicy::DisplayOnly
    } else if graph_has_port {
        OpenGpuiDynamicPortPolicy::BoundToGraphPort
    } else {
        OpenGpuiDynamicPortPolicy::MissingGraphPort
    }
}

/// Adapter-visible diagnostic for repeatables that need graph/profile work.
#[derive(Debug, Clone, PartialEq, Eq)]
pub struct OpenGpuiRepeatablePortDiagnostic {
    pub collection_key: String,
    pub item_id: String,
    pub port_key: String,
    pub policy: OpenGpuiDynamicPortPolicy,
    pub message: String,
}

/// The text of a missing-graph-port diagnostic.
pub open spec fn missing_port_message(item_id: Seq<char>, port_key: Seq<char>) -> Seq<char> {
    "repeatable item `"@ + item_id + "` declares port `"@ + port_key + "` but the graph has no matching port"@
}

impl OpenGpuiRepeatablePortDiagnostic {
    /// The diagnostic for an item that declares `port_key` while the graph has no such port.
    pub fn missing_graph_port(collection_key: String, item_id: String, port_key: String) -> (d: Self)
        ensures
            d.collection_key == collection_key,
            d.item_id == item_id,
            d.port_key == port_key,
            d.policy == OpenGpuiDynamicPortPolicy::MissingGraphPort,
            d.message@ == missing_port_message(item_id@, port_key@),
    {
        let mut message = owned("repeatable item `");
        push_str(&mut message, item_id.as_str());
        push_str(&mut message, "` declares port `");
        push_str(&mut message, port_key.as_str());
        push_str(&mut message, "` but the graph has no matching port");
        OpenGpuiRepeatablePortDiagnostic {
            collection_key,
            item_id,
            port_key,
            policy: OpenGpuiDynamicPortPolicy::MissingGraphPort,
            message,
        }
    }
}

/// Failure path for repeatable authoring planning.
#[derive(Debug, Clone, PartialEq, Eq)]
pub enum OpenGpuiRepeatableEditError {
    MissingCollection { collection_key: String },
    UnsupportedCollectionShape { collection_key: String },
    MaxItemsReached { collection_key: String, max_items: usize },
    MinItemsReached { collection_key: String, min_items: usize },
    DuplicateItem { collection_key: String, item_id: String },
    MissingItem { collection_key: String, item_id: String },
    InvalidItemId { collection_key: String },
    NotReorderable { collection_key: String },
    ReorderIndexOutOfBounds { collection_key: String, to_index: usize },
    MissingControl { collection_key: String, control_key: String },
    NonWritableControl { control_key: String },
    InvalidEdit(String),
}

/// The human-readable text of an edit error.
pub open spec fn edit_error_message(e: OpenGpuiRepeatableEditError) -> Seq<char> {
    match e {
        OpenGpuiRepeatableEditError::MissingCollection { collection_key } =>
            "repeatable collection not found: "@ + collection_key@,
        OpenGpuiRepeatableEditError::UnsupportedCollectionShape { collection_key } =>
            "repeatable collection `"@ + collection_key@ + "` is not array-backed"@,
        OpenGpuiRepeatableEditError::MaxItemsReached { collection_key, max_items } =>
            "repeatable collection `"@ + collection_key@ + "` reached its maximum of "@
                + decimal(max_items as nat) + " items"@,
        OpenGpuiRepeatableEditError::MinItemsReached { collection_key, min_items } =>
            "repeatable collection `"@ + collection_key@ + "` requires at least "@
                + decimal(min_items as nat) + " items"@,
        OpenGpuiRepeatableEditError::DuplicateItem { collection_key, item_id } =>
            "repeatable item already exists in `"@ + collection_key@ + "`: "@ + item_id@,
        OpenGpuiRepeatableEditError::MissingItem { collection_key, item_id } =>
            "repeatable item not found in `"@ + collection_key@ + "`: "@ + item_id@,
        OpenGpuiRepeatableEditError::InvalidItemId { collection_key } =>
            "repeatable item id is missing or invalid for `"@ + collection_key@ + "`"@,
        OpenGpuiRepeatableEditError::NotReorderable { collection_key } =>
            "repeatable collection `"@ + collection_key@ + "` is not reorderable"@,
        OpenGpuiRepeatableEditError::ReorderIndexOutOfBounds { collection_key, to_index } =>
            "repeatable target index "@ + decimal(to_index as nat) + " is out of bounds for `"@
                + collection_key@ + "`"@,
        OpenGpuiRepeatableEditError::MissingControl { collection_key, control_key } =>
            "repeatable control not found in `"@ + collection_key@ + "`: "@ + control_key@,
        OpenGpuiRepeatableEditError::NonWritableControl { control_key } =>
            "repeatable control `"@ + control_key@ + "` is not writable"@,
        OpenGpuiRepeatableEditError::InvalidEdit(detail) => "repeatable edit failed: "@ + detail@,
    }
}

impl OpenGpuiRepeatableEditError {
    /// The human-readable text of the error.
    pub fn message(&self) -> (text: String)
        ensures
            text@ == edit_error_message(*self),
    {
        let mut text = String::new();
        match self {
            OpenGpuiRepeatableEditError::MissingCollection { collection_key } => {
                push_str(&mut text, "repeatable collection not found: ");
                push_str(&mut text, collection_key.as_str());
            },
            OpenGpuiRepeatableEditError::UnsupportedCollectionShape { collection_key } => {
                push_str(&mut text, "repeatable collection `");
                push_str(&mut text, collection_key.as_str());
                push_str(&mut text, "` is not array-backed");
            },
            OpenGpuiRepeatableEditError::MaxItemsReached { collection_key, max_items } => {
                push_str(&mut text, "repeatable collection `");
                push_str(&mut text, collection_key.as_str());
                push_str(&mut text, "` reached its maximum of ");
                push_str(&mut text, usize_decimal_string(*max_items).as_str());
                push_str(&mut text, " items");
            },
            OpenGpuiRepeatableEditError::MinItemsReached { collection_key, min_items } => {
                push_str(&mut text, "repeatable collection `");
                push_str(&mut text, collection_key.as_str());
                push_str(&mut text, "` requires at least ");
                push_str(&mut text, usize_decimal_string(*min_items).as_str());
                push_str(&mut text, " items");
            },
            OpenGpuiRepeatableEditError::DuplicateItem { collection_key, item_id } => {
                push_str(&mut text, "repeatable item already exists in `");
                push_str(&mut text, collection_key.as_str());
                push_str(&mut text, "`: ");
                push_str(&mut text, item_id.as_str());
            },
            OpenGpuiRepeatableEditError::MissingItem { collection_key, item_id } => {
                push_str(&mut text, "repeatable item not found in `");
                push_str(&mut text, collection_key.as_str());
                push_str(&mut text, "`: ");
                push_str(&mut text, item_id.as_str());
            },
            OpenGpuiRepeatableEditError::InvalidItemId { collection_key } => {
                push_str(&mut text, "repeatable item id is missing or invalid for `");
                push_str(&mut text, collection_key.as_str());
                push_str(&mut text, "`");
            },
            OpenGpuiRepeatableEditError::NotReorderable { collection_key } => {
                push_str(&mut text, "repeatable collection `");
                push_str(&mut text, collection_key.as_str());
                push_str(&mut text, "` is not reorderable");
            },
            OpenGpuiRepeatableEditError::ReorderIndexOutOfBounds { collection_key, to_index } => {
                push_str(&mut text, "repeatable target index ");
                push_str(&mut text, usize_decimal_string(*to_index).as_str());
                push_str(&mut text, " is out of bounds for `");
                push_str(&mut text, collection_key.as_str());
                push_str(&mut text, "`");
            },
            OpenGpuiRepeatableEditError::MissingControl { collection_key, control_key } => {
                push_str(&mut text, "repeatable control not found in `");
                push_str(&mut text, collection_key.as_str());
                push_str(&mut text, "`: ");
                push_str(&mut text, control_key.as_str());
            },
            OpenGpuiRepeatableEditError::NonWritableControl { control_key } => {
                push_str(&mut text, "repeatable control `");
                push_str(&mut text, control_key.as_str());
                push_str(&mut text, "` is not writable");
            },
            OpenGpuiRepeatableEditError::InvalidEdit(detail) => {
                push_str(&mut text, "repeatable edit failed: ");
                push_str(&mut text, detail.as_str());
            },
        }
        proof {
            assert(text@ =~= edit_error_message(*self));
        }
        text
    }
}

/// Stable identifier of one graph port (a UUID held as its 128-bit value).
#[derive(Debug, Clone, Copy, PartialEq, Eq, PartialOrd, Ord, Hash, Structural)]
pub struct PortId(pub u128);

/// Which way a port faces.
#[derive(Debug, Clone, Copy, PartialEq, Eq, Structural)]
pub enum PortDirection {
    In,
    Out,
}

/// Adapter projection for one stable repeatable item row.
#[derive(Debug, PartialEq, Eq)]
pub struct OpenGpuiRepeatableItemProjection {
    pub collection_key: String,
    pub item_id: String,
    pub item_index: usize,
    pub slot_key: String,
    pub anchor: String,
    pub label: String,
    pub port_key: Option<String>,
    pub port_id: Option<PortId>,
    pub port_direction: Option<PortDirection>,
    pub dynamic_port_policy: OpenGpuiDynamicPortPolicy,
    pub controls: usize,
    pub remove_disabled_reason: Option<String>,
    pub item_data: JsonValue,
}

impl OpenGpuiRepeatableItemProjection {
    /// The item's port key is bound to a port of the graph.
    pub fn has_graph_port(&self) -> (bound: bool)
        ensures
            bound == (self.port_id is Some),
    {
        self.port_id.is_some()
    }
}

/// The diagnostics of items that declare a port the graph lacks, in order.
pub open spec fn spec_port_diagnostics(items: Seq<OpenGpuiRepeatableItemProjection>) -> Seq<OpenGpuiRepeatableItemProjection>
    decreases items.len(),
{
    if items.len() == 0 {
        Seq::empty()
    } else {
        let rest = spec_port_diagnostics(items.drop_last());
        let last = items.last();
        if last.port_key is Some && last.dynamic_port_policy == OpenGpuiDynamicPortPolicy::MissingGraphPort {
            rest.push(last)
        } else {
            rest
        }
    }
}

/// `d` is the missing-port diagnostic of `item`.
pub open spec fn diagnoses(d: OpenGpuiRepeatablePortDiagnostic, item: OpenGpuiRepeatableItemProjection) -> bool {
    &&& d.collection_key@ == item.collection_key@
    &&& d.item_id@ == item.item_id@
    &&& d.port_key@ == item.port_key->0@
    &&& d.policy == OpenGpuiDynamicPortPolicy::MissingGraphPort
    &&& d.message@ == missing_port_message(item.item_id@, item.port_key->0@)
}

/// Build diagnostics for repeatable items whose dynamic-port contract is not
/// satisfied by graph ports yet: one for each item, in order, that declares
/// a port key while its policy is a missing graph port.
pub fn repeatable_port_diagnostics(items: &Vec<OpenGpuiRepeatableItemProjection>) -> (diagnostics: Vec<OpenGpuiRepeatablePortDiagnostic>)
    ensures
        diagnostics@.len() == spec_port_diagnostics(items@).len(),
        forall|i: int| 0 <= i < diagnostics@.len() ==> diagnoses(#[trigger] diagnostics@[i], spec_port_diagnostics(items@)[i]),
{
    let mut diagnostics: Vec<OpenGpuiRepeatablePortDiagnostic> = Vec::new();
    let mut i: usize = 0;
    while i < items.len()
        invariant
            i <= items@.len(),
            diagnostics@.len() == spec_port_diagnostics(items@.subrange(0, i as int)).len(),
            forall|k: int| 0 <= k < diagnostics@.len() ==> diagnoses(#[trigger] diagnostics@[k],
                spec_port_diagnostics(items@.subrange(0, i as int))[k]),
        decreases items.len() - i,
    {
        let item = &items[i];
        proof {
            assert(items@.subrange(0, i + 1).drop_last() =~= items@.subrange(0, i as int));
        }
        match &item.port_key {
            Some(port_key) => {
                if item.dynamic_port_policy == OpenGpuiDynamicPortPolicy::MissingGraphPort {
                    diagnostics.push(OpenGpuiRepeatablePortDiagnostic::missing_graph_port(
                        owned(item.collection_key.as_str()),
                        owned(item.item_id.as_str()),
                        owned(port_key.as_str()),
                    ));
                }
            },
            None => {},
        }
        i = i + 1;
    }
    proof {
        assert(items@.subrange(0, items@.len() as int) =~= items@);
    }
    diagnostics
}

/// The label of a repeatable item: its data's `name` text, else its
/// `label` text, else its id.
pub open spec fn spec_item_label(item_data: JsonValue, item_id: Seq<char>) -> Seq<char> {
    match dot_step_member(item_data, "name"@) {
        Some(JsonValue::String(s)) => s@,
        _ => match dot_step_member(item_data, "label"@) {
            Some(JsonValue::String(s)) => s@,
            _ => item_id,
        },
    }
}

fn text_member<'a>(data: &'a JsonValue, key: &str) -> (found: Option<&'a String>)
    ensures
        match found {
            Some(s) => dot_step_member(*data, key@) == Some(JsonValue::String(*s)),
            None => !(dot_step_member(*data, key@) matches Some(JsonValue::String(_))),
        },
{
    match data {
        JsonValue::Object(members) => match crate::json_binding::find_member(members, key) {
            Some(k) => match &members[k].value {
                JsonValue::String(s) => Some(s),
                _ => None,
            },
            None => None,
        },
        _ => None,
    }
}

/// The label of a repeatable item.
pub fn repeatable_item_label(item_data: &JsonValue, item_id: &str) -> (label: String)
    ensures
        label@ == spec_item_label(*item_data, item_id@),
{
    match text_member(item_data, "name") {
        Some(s) => owned(s.as_str()),
        None => match text_member(item_data, "label") {
            Some(s) => owned(s.as_str()),
            None => owned(item_id),
        },
    }
}

// ---------------------------------------------------------------------
// Projection of repeatable items

/// What the adapter reads of one item that a repeatable collection
/// projects: its id, position, slot and anchor keys, declared port key,
/// data, and how many controls each of its template slots holds.
#[derive(Debug, PartialEq, Eq)]
pub struct NodeRepeatableItemProjection {
    pub item_id: String,
    pub item_index: usize,
    pub slot_key: String,
    pub anchor: String,
    pub port_key: Option<String>,
    pub item_data: JsonValue,
    pub slot_control_counts: Vec<usize>,
}

/// The sum of some counts.
pub open spec fn count_sum(counts: Seq<usize>) -> int
    decreases counts.len(),
{
    if counts.len() == 0 {
        0
    } else {
        count_sum(counts.drop_last()) + counts.last()
    }
}

proof fn lemma_count_sum_prefix(counts: Seq<usize>, i: int)
    requires
        0 <= i <= counts.len(),
    ensures
        0 <= count_sum(counts.take(i)) <= count_sum(counts),
    decreases counts.len(),
{
    if counts.len() > 0 {
        if i == counts.len() {
            assert(counts.take(i) =~= counts);
            lemma_count_sum_prefix(counts.drop_last(), i - 1);
        } else {
            assert(counts.drop_last().take(i) =~= counts.take(i));
            lemma_count_sum_prefix(counts.drop_last(), i);
        }
    }
}

/// How many controls a repeatable item holds over all its slots.
pub fn repeatable_item_control_count(item: &NodeRepeatableItemProjection) -> (count: usize)
    requires
        count_sum(item.slot_control_counts@) <= usize::MAX,
    ensures
        count == count_sum(item.slot_control_counts@),
{
    let counts = &item.slot_control_counts;
    let mut total: usize = 0;
    let mut i: usize = 0;
    assert(counts@.take(0) =~= Seq::<usize>::empty());
    while i < counts.len()
        invariant
            i <= counts@.len(),
            total == count_sum(counts@.take(i as int)),
            count_sum(counts@) <= usize::MAX,
        decreases counts.len() - i,
    {
        proof {
            assert(counts@.take(i + 1).drop_last() =~= counts@.take(i as int));
            lemma_count_sum_prefix(counts@, i + 1);
        }
        total = total + counts[i];
        i = i + 1;
    }
    assert(counts@.take(i as int) =~= counts@);
    total
}

/// A port of the graph as the adapter reads it: its id, owning node, key
/// and direction.
#[derive(Debug, PartialEq, Eq)]
pub struct GraphPortFacts {
    pub id: PortId,
    pub node: NodeId,
    pub key: String,
    pub direction: PortDirection,
}

/// Port `i` is the first port of `node` with `key`.
pub open spec fn is_first_node_port(ports: Seq<GraphPortFacts>, node: NodeId, key: Seq<char>, i: int) -> bool {
    &&& 0 <= i < ports.len()
    &&& ports[i].node == node && ports[i].key@ == key
    &&& forall|j: int| 0 <= j < i ==> !(#[trigger] ports[j].node == node && ports[j].key@ == key)
}

/// The id and direction of the first port of `node` with `key`, if any.
pub fn graph_port_by_key(ports: &Vec<GraphPortFacts>, node: NodeId, key: &str) -> (port: Option<(PortId, PortDirection)>)
    ensures
        match port {
            Some((id, direction)) => exists|i: int| is_first_node_port(ports@, node, key@, i)
                && ports@[i].id == id && ports@[i].direction == direction,
            None => forall|j: int| 0 <= j < ports@.len() ==> !(#[trigger] ports@[j].node == node && ports@[j].key@ == key@),
        },
{
    let mut i: usize = 0;
    while i < ports.len()
        invariant
            i <= ports@.len(),
            forall|j: int| 0 <= j < i ==> !(#[trigger] ports@[j].node == node && ports@[j].key@ == key@),
        decreases ports.len() - i,
    {
        if ports[i].node == node && str_eq(ports[i].key.as_str(), key) {
            assert(is_first_node_port(ports@, node, key@, i as int));
            return Some((ports[i].id, ports[i].direction));
        }
        i = i + 1;
    }
    None
}

/// `p` is the adapter row of `item` in collection `collection_key`, where
/// `port` is the graph port found under the item's port key, if any.
pub open spec fn item_row_projected(
    p: OpenGpuiRepeatableItemProjection,
    collection_key: String,
    item: NodeRepeatableItemProjection,
    port: Option<(PortId, PortDirection)>,
    remove_disabled_reason: Option<String>,
) -> bool {
    &&& p.collection_key == collection_key
    &&& p.item_id == item.item_id
    &&& p.item_index == item.item_index
    &&& p.slot_key == item.slot_key
    &&& p.anchor == item.anchor
    &&& p.label@ == spec_item_label(item.item_data, item.item_id@)
    &&& p.port_key == item.port_key
    &&& p.port_id == (match port {
        Some((id, _)) => Some(id),
        None => None,
    })
    &&& p.port_direction == (match port {
        Some((_, direction)) => Some(direction),
        None => None,
    })
    &&& p.dynamic_port_policy == spec_dynamic_port_policy(item.port_key is Some, port is Some)
    &&& p.controls == count_sum(item.slot_control_counts@)
    &&& p.remove_disabled_reason == remove_disabled_reason
    &&& p.item_data == item.item_data
}

/// The adapter row of one projected repeatable item of collection
/// `collection_key`, bound to the first port of `node_id` under the item's
/// port key, when the item declares one.
pub fn project_repeatable_item(
    collection_key: &String,
    item: NodeRepeatableItemProjection,
    ports: &Vec<GraphPortFacts>,
    node_id: NodeId,
    remove_disabled_reason: Option<String>,
) -> (p: OpenGpuiRepeatableItemProjection)
    requires
        count_sum(item.slot_control_counts@) <= usize::MAX,
    ensures
        exists|port: Option<(PortId, PortDirection)>| {
            &&& item_row_projected(p, *collection_key, item, port, remove_disabled_reason)
            &&& match (item.port_key, port) {
                (None, None) => true,
                (Some(k), Some((id, direction))) => exists|i: int| is_first_node_port(ports@, node_id, k@, i)
                    && ports@[i].id == id && ports@[i].direction == direction,
                (Some(k), None) => forall|j: int| 0 <= j < ports@.len()
                    ==> !(#[trigger] ports@[j].node == node_id && ports@[j].key@ == k@),
                (None, Some(_)) => false,
            }
        },
{
    let port = match &item.port_key {
        Some(key) => graph_port_by_key(ports, node_id, key.as_str()),
        None => None,
    };
    let policy = dynamic_port_policy(item.port_key.is_some(), port.is_some());
    let label = repeatable_item_label(&item.item_data, item.item_id.as_str());
    let controls = repeatable_item_control_count(&item);
    let ghost before = item;
    let NodeRepeatableItemProjection { item_id, item_index, slot_key, anchor, port_key, item_data, slot_control_counts: _ } = item;
    let p = OpenGpuiRepeatableItemProjection {
        collection_key: collection_key.clone(),
        item_id,
        item_index,
        slot_key,
        anchor,
        label,
        port_key,
        port_id: match port {
            Some((id, _)) => Some(id),
            None => None,
        },
        port_direction: match port {
            Some((_, direction)) => Some(direction),
            None => None,
        },
        dynamic_port_policy: policy,
        controls,
        remove_disabled_reason,
        item_data,
    };
    assert(item_row_projected(p, *collection_key, before, port, remove_disabled_reason));
    p
}

} // verus!
