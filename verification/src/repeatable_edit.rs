//! Authoring edits of array-backed repeatable collections: adding,
//! removing and reordering items, and editing one item's control, each
//! planned as a change of the node's data.

use vstd::prelude::*;
use crate::controls::{
    NodeControlDescriptor, NodeDataTransaction, NodeInternalsInvalidation, NodeInternalsInvalidationReason,
};
use crate::element_ids::lemma_decimal_injective;
use crate::json_binding::{
    JsonValue, NodeControlBindingSource, bound_write_error, bound_written, dot_segments, lookup_segments,
    lemma_write_then_read, set_bound_value, repeatable_item_id, semantic_json_lookup,
    json_scalar_to_stable_string, set_dot_path_value, set_error, set_result, spec_repeatable_item_id,
    spec_scalar_text,
};
use crate::json_compare::{
    copy_json, json_equal, json_same, lemma_json_same_symmetric, lemma_json_same_transitive,
    lemma_lookup_congruent, lemma_scalar_text_congruent,
};
use crate::inspector::{is_first_collection, lemma_first_collection_unique};
use crate::node_id::NodeId;
use crate::repeatable::{NodeRepeatableCollectionDescriptor, OpenGpuiRepeatableEditError};
use crate::text::{decimal, owned, push_char, push_str, str_eq, u128_decimal_string};

verus! {

// ---------------------------------------------------------------------
// Fresh item ids

/// The part of `s` after its last `.` (all of it without one).
pub open spec fn after_last_dot(s: Seq<char>) -> Seq<char>
    decreases s.len(),
{
    if s.len() == 0 {
        s
    } else if s.last() == '.' {
        Seq::empty()
    } else {
        after_last_dot(s.drop_last()).push(s.last())
    }
}

/// `s` without its trailing `s` characters.
pub open spec fn trim_trailing_s(s: Seq<char>) -> Seq<char>
    decreases s.len(),
{
    if s.len() > 0 && s.last() == 's' {
        trim_trailing_s(s.drop_last())
    } else {
        s
    }
}

/// `s` with each `-` replaced by `_`.
pub open spec fn dash_to_underscore(s: Seq<char>) -> Seq<char> {
    s.map_values(|c: char| if c == '-' { '_' } else { c })
}

/// The prefix of generated item ids: the last dot segment of the
/// collection key, without trailing `s`, with `-` made `_`.
pub open spec fn spec_id_prefix(key: Seq<char>) -> Seq<char> {
    dash_to_underscore(trim_trailing_s(after_last_dot(key)))
}

/// The generated id with number `n`.
pub open spec fn candidate_id(prefix: Seq<char>, n: nat) -> Seq<char> {
    prefix + seq!['_'] + decimal(n)
}

proof fn lemma_after_last_dot(s: Seq<char>, i: int)
    requires
        0 <= i <= s.len(),
        forall|j: int| i <= j < s.len() ==> s[j] != '.',
        i == 0 || s[i - 1] == '.',
    ensures
        after_last_dot(s) == s.subrange(i, s.len() as int),
    decreases s.len(),
{
    if s.len() > 0 {
        if s.last() == '.' {
            assert(i == s.len());
        } else {
            let t = s.drop_last();
            assert(i <= t.len());
            lemma_after_last_dot(t, i);
            assert(s.subrange(i, s.len() as int) =~= t.subrange(i, t.len() as int).push(s.last()));
        }
    } else {
        assert(s.subrange(i, s.len() as int) =~= s);
    }
}

proof fn lemma_trim_trailing_s(s: Seq<char>, e: int)
    requires
        0 <= e <= s.len(),
        forall|j: int| e <= j < s.len() ==> s[j] == 's',
        e == 0 || s[e - 1] != 's',
    ensures
        trim_trailing_s(s) == s.subrange(0, e),
    decreases s.len(),
{
    if s.len() > 0 && s.last() == 's' {
        lemma_trim_trailing_s(s.drop_last(), e);
        assert(s.drop_last().subrange(0, e) =~= s.subrange(0, e));
    } else {
        if e < s.len() {
            assert(s[s.len() - 1] == 's');
        }
        assert(s.subrange(0, e) =~= s);
    }
}

/// The prefix of the ids generated for a collection's new items.
pub fn id_prefix(key: &str) -> (prefix: String)
    ensures
        prefix@ == spec_id_prefix(key@),
{
    let n = key.unicode_len();
    let mut start: usize = n;
    while start > 0
        invariant
            n == key@.len(),
            start <= n,
            forall|j: int| start <= j < n ==> key@[j] != '.',
        ensures
            start <= n,
            forall|j: int| start <= j < n ==> key@[j] != '.',
            start == 0 || key@[start - 1] == '.',
        decreases start,
    {
        if key.get_char(start - 1) == '.' {
            break;
        }
        start = start - 1;
    }
    let mut end: usize = n;
    while end > start
        invariant
            n == key@.len(),
            start <= end <= n,
            forall|j: int| end <= j < n ==> key@[j] == 's',
        ensures
            start <= end <= n,
            forall|j: int| end <= j < n ==> key@[j] == 's',
            end == start || key@[end - 1] != 's',
        decreases end,
    {
        if key.get_char(end - 1) != 's' {
            break;
        }
        end = end - 1;
    }
    let ghost tail = key@.subrange(start as int, n as int);
    proof {
        lemma_after_last_dot(key@, start as int);
        lemma_trim_trailing_s(tail, (end - start) as int);
        assert(tail.subrange(0, (end - start) as int) =~= key@.subrange(start as int, end as int));
    }
    let mut prefix = String::new();
    let mut i: usize = start;
    while i < end
        invariant
            n == key@.len(),
            start <= i <= end <= n,
            prefix@ =~= dash_to_underscore(key@.subrange(start as int, i as int)),
        decreases end - i,
    {
        let c = key.get_char(i);
        push_char(&mut prefix, if c == '-' { '_' } else { c });
        i = i + 1;
        assert(dash_to_underscore(key@.subrange(start as int, i as int)) =~= prefix@);
    }
    prefix
}


/// The id an item states in a collection: the sanitized scalar at the
/// collection's id path.
pub open spec fn item_id(c: NodeRepeatableCollectionDescriptor, item: JsonValue) -> Option<Seq<char>> {
    spec_repeatable_item_id(c.item_id_path@, item)
}

/// Some item states `id`.
pub open spec fn id_taken(c: NodeRepeatableCollectionDescriptor, items: Seq<JsonValue>, id: Seq<char>) -> bool {
    exists|j: int| 0 <= j < items.len() && #[trigger] item_id(c, items[j]) == Some(id)
}

/// The id generated for a new item: the first candidate, counting from one
/// past the number of items, that no item states.
pub open spec fn is_next_item_id(
    c: NodeRepeatableCollectionDescriptor,
    items: Seq<JsonValue>,
    id: Seq<char>,
) -> bool {
    exists|n: nat| {
        &&& n >= items.len() + 1
        &&& id == candidate_id(spec_id_prefix(c.key@), n)
        &&& !id_taken(c, items, id)
        &&& forall|m: nat| items.len() + 1 <= m < n ==> id_taken(c, items, #[trigger] candidate_id(spec_id_prefix(c.key@), m))
    }
}

/// The item states a candidate numbered `n` or later.
spec fn states_candidate_from(c: NodeRepeatableCollectionDescriptor, item: JsonValue, prefix: Seq<char>, n: nat) -> bool {
    exists|m: nat| m >= n && item_id(c, item) == Some(#[trigger] candidate_id(prefix, m))
}

/// How many items state a candidate numbered `n` or later.
spec fn count_from(c: NodeRepeatableCollectionDescriptor, items: Seq<JsonValue>, prefix: Seq<char>, n: nat) -> nat
    decreases items.len(),
{
    if items.len() == 0 {
        0
    } else {
        count_from(c, items.drop_last(), prefix, n) + if states_candidate_from(c, items.last(), prefix, n) { 1nat } else { 0nat }
    }
}

proof fn lemma_candidate_injective(prefix: Seq<char>, a: nat, b: nat)
    requires
        candidate_id(prefix, a) == candidate_id(prefix, b),
    ensures
        a == b,
{
    let k: int = prefix.len() as int + 1;
    assert(candidate_id(prefix, a).subrange(k, candidate_id(prefix, a).len() as int) =~= decimal(a));
    assert(candidate_id(prefix, b).subrange(k, candidate_id(prefix, b).len() as int) =~= decimal(b));
    lemma_decimal_injective(a, b);
}

proof fn lemma_count_bounded(c: NodeRepeatableCollectionDescriptor, items: Seq<JsonValue>, prefix: Seq<char>, n: nat)
    ensures
        count_from(c, items, prefix, n) <= items.len(),
    decreases items.len(),
{
    if items.len() > 0 {
        lemma_count_bounded(c, items.drop_last(), prefix, n);
    }
}

/// Past a taken candidate, fewer items state a later one.
proof fn lemma_count_drops(c: NodeRepeatableCollectionDescriptor, items: Seq<JsonValue>, prefix: Seq<char>, n: nat)
    ensures
        count_from(c, items, prefix, n + 1) <= count_from(c, items, prefix, n),
        id_taken(c, items, candidate_id(prefix, n)) ==> count_from(c, items, prefix, n + 1) < count_from(c, items, prefix, n),
    decreases items.len(),
{
    if items.len() > 0 {
        let rest = items.drop_last();
        let x = items.last();
        lemma_count_drops(c, rest, prefix, n);
        if states_candidate_from(c, x, prefix, n + 1) {
            let m = choose|m: nat| m >= n + 1 && item_id(c, x) == Some(#[trigger] candidate_id(prefix, m));
            assert(states_candidate_from(c, x, prefix, n));
        }
        if id_taken(c, items, candidate_id(prefix, n)) {
            let j = choose|j: int| 0 <= j < items.len() && #[trigger] item_id(c, items[j]) == Some(candidate_id(prefix, n));
            if j == items.len() - 1 {
                assert(states_candidate_from(c, x, prefix, n));
                if states_candidate_from(c, x, prefix, n + 1) {
                    let m = choose|m: nat| m >= n + 1 && item_id(c, x) == Some(#[trigger] candidate_id(prefix, m));
                    lemma_candidate_injective(prefix, n, m);
                }
            } else {
                assert(rest[j] == items[j]);
                assert(id_taken(c, rest, candidate_id(prefix, n)));
            }
        }
    }
}

/// Whether some item states `id`.
fn any_item_has_id(c: &NodeRepeatableCollectionDescriptor, items: &Vec<JsonValue>, id: &str) -> (taken: bool)
    ensures
        taken == id_taken(*c, items@, id@),
{
    let mut j: usize = 0;
    while j < items.len()
        invariant
            j <= items@.len(),
            forall|k: int| 0 <= k < j ==> #[trigger] item_id(*c, items@[k]) != Some(id@),
        decreases items.len() - j,
    {
        match repeatable_item_id(c.item_id_path.as_str(), &items[j]) {
            Some(found) => {
                if str_eq(found.as_str(), id) {
                    assert(item_id(*c, items@[j as int]) == Some(id@));
                    return true;
                }
            },
            None => {},
        }
        j = j + 1;
    }
    false
}

fn candidate(prefix: &str, n: u128) -> (id: String)
    ensures
        id@ == candidate_id(prefix@, n as nat),
{
    let mut id = owned(prefix);
    push_char(&mut id, '_');
    push_str(&mut id, u128_decimal_string(n).as_str());
    id
}

/// The id generated for a new item of a collection.
pub fn next_repeatable_item_id(c: &NodeRepeatableCollectionDescriptor, items: &Vec<JsonValue>) -> (id: String)
    ensures
        is_next_item_id(*c, items@, id@),
{
    let prefix = id_prefix(c.key.as_str());
    let ghost p = prefix@;
    let len = items.len();
    let mut index: u128 = len as u128 + 1;
    proof {
        lemma_count_bounded(*c, items@, p, (len + 1) as nat);
    }
    loop
        invariant
            p == spec_id_prefix(c.key@),
            prefix@ == p,
            len == items@.len(),
            len + 1 <= index,
            (index - (len + 1)) + count_from(*c, items@, p, index as nat) <= count_from(*c, items@, p, (len + 1) as nat),
            count_from(*c, items@, p, (len + 1) as nat) <= len,
            forall|m: nat| len + 1 <= m < index ==> id_taken(*c, items@, #[trigger] candidate_id(p, m)),
        decreases count_from(*c, items@, p, index as nat),
    {
        let id = candidate(prefix.as_str(), index);
        if !any_item_has_id(c, items, id.as_str()) {
            proof {
                let n = index as nat;
                assert(n >= len + 1 && id@ == candidate_id(spec_id_prefix(c.key@), n) && !id_taken(*c, items@, id@));
            }
            return id;
        }
        proof {
            lemma_count_drops(*c, items@, p, index as nat);
        }
        index = index + 1;
    }
}


// ---------------------------------------------------------------------
// Items and plans

/// Each item of `a` holds the same content as the item of `b` at its position.
pub open spec fn json_same_seq(a: Seq<JsonValue>, b: Seq<JsonValue>) -> bool {
    &&& a.len() == b.len()
    &&& forall|i: int| 0 <= i < a.len() ==> json_same(#[trigger] a[i], b[i])
}

/// The items of a collection in node data: the array at its item source,
/// or none when nothing is there; `None` when another value is there.
pub open spec fn spec_items(c: NodeRepeatableCollectionDescriptor, data: JsonValue) -> Option<Seq<JsonValue>> {
    match lookup_segments(data, dot_segments(c.item_source@)) {
        Some(JsonValue::Array(items)) => Some(items@),
        None => Some(Seq::empty()),
        _ => None,
    }
}

/// Mutation plan emitted by a GPUI repeatable edit: the node-data change,
/// the internals to measure again, and, for a removal, the port key the
/// removed item declared (its graph port goes with it).
#[derive(Debug, PartialEq, Eq)]
pub struct OpenGpuiRepeatableEditPlan {
    pub collection_key: String,
    pub item_id: Option<String>,
    pub transaction: NodeDataTransaction,
    pub invalidation: NodeInternalsInvalidation,
    pub removed_port_key: Option<String>,
}

/// The label of the transaction a repeatable edit plans.
pub open spec fn repeatable_edit_label() -> Seq<char> {
    "Edit repeatable item"@
}

/// Both are absent, or both are present with the same text.
pub open spec fn opt_text_is(a: Option<String>, b: Option<Seq<char>>) -> bool {
    match (a, b) {
        (None, None) => true,
        (Some(x), Some(y)) => x@ == y,
        _ => false,
    }
}

/// `r` plans writing items with the content of `expected` at the item
/// source of `c` in `data`: an error when the write fails, nothing when the
/// data keeps its content, and otherwise the change, for node `node_id`,
/// with `item_id` and the port key `removed_port`.
pub open spec fn items_plan(
    r: Result<Option<OpenGpuiRepeatableEditPlan>, OpenGpuiRepeatableEditError>,
    node_id: NodeId,
    data: JsonValue,
    c: NodeRepeatableCollectionDescriptor,
    item_id: Option<Seq<char>>,
    expected: Seq<JsonValue>,
    removed_port: Option<Seq<char>>,
) -> bool {
    let segs = dot_segments(c.item_source@);
    match set_error(data, segs) {
        Some(e) => r matches Err(OpenGpuiRepeatableEditError::InvalidEdit(m)) && m@ == e,
        None => match r {
            Ok(Some(plan)) => {
                &&& plan.collection_key@ == c.key@
                &&& opt_text_is(plan.item_id, item_id)
                &&& plan.transaction.id == node_id
                &&& json_same(plan.transaction.from, data)
                &&& exists|v: Vec<JsonValue>| json_same_seq(v@, expected)
                    && set_result(data, plan.transaction.to, segs, JsonValue::Array(v))
                &&& !json_same(data, plan.transaction.to)
                &&& plan.transaction.label@ == repeatable_edit_label()
                &&& plan.invalidation.nodes@ == seq![node_id]
                &&& plan.invalidation.reason == NodeInternalsInvalidationReason::DataChanged
                &&& opt_text_is(plan.removed_port_key, removed_port)
            },
            Ok(None) => exists|v: Vec<JsonValue>, res: JsonValue| json_same_seq(v@, expected)
                && set_result(data, res, segs, JsonValue::Array(v)) && json_same(data, res),
            Err(_) => false,
        },
    }
}

/// Plans writing `items` at the collection's item source in node data.
fn repeatable_data_plan(
    node_id: NodeId,
    node_data: JsonValue,
    c: &NodeRepeatableCollectionDescriptor,
    item_id: Option<&str>,
    items: Vec<JsonValue>,
    expected: Ghost<Seq<JsonValue>>,
    removed_port_key: Option<String>,
) -> (r: Result<Option<OpenGpuiRepeatableEditPlan>, OpenGpuiRepeatableEditError>)
    requires
        json_same_seq(items@, expected@),
    ensures
        items_plan(r, node_id, node_data, *c, match item_id {
            Some(t) => Some(t@),
            None => None,
        }, expected@, match removed_port_key {
            Some(t) => Some(t@),
            None => None,
        }),
{
    let from = copy_json(&node_data);
    let ghost old_data = node_data;
    let ghost v = items;
    let mut to = node_data;
    match set_dot_path_value(&mut to, c.item_source.as_str(), JsonValue::Array(items)) {
        Ok(_) => {},
        Err(e) => {
            return Err(OpenGpuiRepeatableEditError::InvalidEdit(e));
        },
    }
    let unchanged = json_equal(&from, &to);
    proof {
        lemma_json_same_symmetric(from, old_data);
        if json_same(from, to) {
            lemma_json_same_transitive(old_data, from, to);
        }
        if json_same(old_data, to) {
            lemma_json_same_transitive(from, old_data, to);
        }
    }
    if unchanged {
        proof {
            assert(json_same_seq(v@, expected@) && set_result(old_data, to, dot_segments(c.item_source@), JsonValue::Array(v))
                && json_same(old_data, to));
        }
        return Ok(None);
    }
    let mut nodes: Vec<NodeId> = Vec::new();
    nodes.push(node_id);
    Ok(Some(OpenGpuiRepeatableEditPlan {
        collection_key: c.key.clone(),
        item_id: match item_id {
            Some(t) => Some(owned(t)),
            None => None,
        },
        transaction: NodeDataTransaction { id: node_id, from, to, label: owned("Edit repeatable item") },
        invalidation: NodeInternalsInvalidation { nodes, reason: NodeInternalsInvalidationReason::DataChanged },
        removed_port_key,
    }))
}


/// The position of the first collection with `key`, if there is one.
pub(crate) fn find_collection(collections: &Vec<NodeRepeatableCollectionDescriptor>, key: &str) -> (found: Option<usize>)
    ensures
        match found {
            Some(i) => is_first_collection(collections@, key@, i as int),
            None => forall|j: int| 0 <= j < collections@.len() ==> #[trigger] collections@[j].key@ != key@,
        },
{
    let mut i: usize = 0;
    while i < collections.len()
        invariant
            i <= collections@.len(),
            forall|j: int| 0 <= j < i ==> #[trigger] collections@[j].key@ != key@,
        decreases collections.len() - i,
    {
        if str_eq(collections[i].key.as_str(), key) {
            return Some(i);
        }
        i = i + 1;
    }
    None
}

/// The array of a collection's items in node data; `None` when nothing is
/// at its item source.
fn repeatable_array<'a>(
    c: &NodeRepeatableCollectionDescriptor,
    node_data: &'a JsonValue,
) -> (r: Result<Option<&'a Vec<JsonValue>>, OpenGpuiRepeatableEditError>)
    ensures
        match r {
            Ok(Some(items)) => spec_items(*c, *node_data) == Some(items@),
            Ok(None) => spec_items(*c, *node_data) == Some(Seq::<JsonValue>::empty()),
            Err(e) => spec_items(*c, *node_data) is None
                && (e matches OpenGpuiRepeatableEditError::UnsupportedCollectionShape { collection_key: k } && k@ == c.key@),
        },
{
    match semantic_json_lookup(node_data, c.item_source.as_str()) {
        Some(JsonValue::Array(items)) => Ok(Some(items)),
        None => Ok(None),
        Some(_) => Err(OpenGpuiRepeatableEditError::UnsupportedCollectionShape { collection_key: c.key.clone() }),
    }
}

/// Copies of `items` with the same content, in order.
fn copy_items(items: &Vec<JsonValue>) -> (copies: Vec<JsonValue>)
    ensures
        json_same_seq(copies@, items@),
{
    let mut copies: Vec<JsonValue> = Vec::new();
    let mut i: usize = 0;
    while i < items.len()
        invariant
            i <= items@.len(),
            copies@.len() == i,
            forall|j: int| 0 <= j < i ==> json_same(#[trigger] copies@[j], items@[j]),
        decreases items.len() - i,
    {
        copies.push(copy_json(&items[i]));
        i = i + 1;
    }
    copies
}

/// `i` is the first item stating `id`.
pub open spec fn is_first_item(c: NodeRepeatableCollectionDescriptor, items: Seq<JsonValue>, id: Seq<char>, i: int) -> bool {
    &&& 0 <= i < items.len()
    &&& item_id(c, items[i]) == Some(id)
    &&& forall|j: int| 0 <= j < i ==> #[trigger] item_id(c, items[j]) != Some(id)
}

/// The position of the first item stating `id`, if there is one.
fn item_index(c: &NodeRepeatableCollectionDescriptor, items: &Vec<JsonValue>, id: &str) -> (found: Option<usize>)
    ensures
        match found {
            Some(i) => is_first_item(*c, items@, id@, i as int),
            None => !id_taken(*c, items@, id@),
        },
{
    let mut j: usize = 0;
    while j < items.len()
        invariant
            j <= items@.len(),
            forall|k: int| 0 <= k < j ==> #[trigger] item_id(*c, items@[k]) != Some(id@),
        decreases items.len() - j,
    {
        match repeatable_item_id(c.item_id_path.as_str(), &items[j]) {
            Some(found) => {
                if str_eq(found.as_str(), id) {
                    return Some(j);
                }
            },
            None => {},
        }
        j = j + 1;
    }
    None
}


proof fn lemma_first_item_unique(c: NodeRepeatableCollectionDescriptor, items: Seq<JsonValue>, id: Seq<char>, i: int, k: int)
    requires
        is_first_item(c, items, id, i),
        is_first_item(c, items, id, k),
    ensures
        i == k,
{
    if i < k {
        assert(item_id(c, items[i]) != Some(id));
    } else if k < i {
        assert(item_id(c, items[k]) != Some(id));
    }
}

/// The collection with `key`: the first one, when there is one.
pub open spec fn spec_collection(collections: Seq<NodeRepeatableCollectionDescriptor>, key: Seq<char>)
    -> Option<NodeRepeatableCollectionDescriptor>
{
    if exists|i: int| is_first_collection(collections, key, i) {
        Some(collections[choose|i: int| is_first_collection(collections, key, i)])
    } else {
        None
    }
}

/// The position of the first item stating `id`.
pub open spec fn first_item(c: NodeRepeatableCollectionDescriptor, items: Seq<JsonValue>, id: Seq<char>) -> int {
    choose|i: int| is_first_item(c, items, id, i)
}

/// `items` with the item at `from` moved to position `to`.
pub open spec fn moved(items: Seq<JsonValue>, from: int, to: int) -> Seq<JsonValue> {
    items.remove(from).insert(to, items[from])
}

/// The outcome of moving the item stating `item_id` to `to_index`: the
/// collection must exist and be reorderable, its items must be an array
/// (or absent), the index must be within it, and an item must state the
/// id; moving an item to where it is plans nothing.
pub open spec fn reorder_result(
    r: Result<Option<OpenGpuiRepeatableEditPlan>, OpenGpuiRepeatableEditError>,
    collections: Seq<NodeRepeatableCollectionDescriptor>,
    node_id: NodeId,
    data: JsonValue,
    key: Seq<char>,
    id: Seq<char>,
    to_index: usize,
) -> bool {
    match spec_collection(collections, key) {
        None => r matches Err(OpenGpuiRepeatableEditError::MissingCollection { collection_key: k }) && k@ == key,
        Some(c) => if !c.reorderable {
            r matches Err(OpenGpuiRepeatableEditError::NotReorderable { collection_key: k }) && k@ == key
        } else {
            match spec_items(c, data) {
                None => r matches Err(OpenGpuiRepeatableEditError::UnsupportedCollectionShape { collection_key: k }) && k@ == key,
                Some(items) => if to_index >= items.len() {
                    r matches Err(OpenGpuiRepeatableEditError::ReorderIndexOutOfBounds { collection_key: k, to_index: t })
                        && k@ == key && t == to_index
                } else if !id_taken(c, items, id) {
                    r matches Err(OpenGpuiRepeatableEditError::MissingItem { collection_key: k, item_id: i })
                        && k@ == key && i@ == id
                } else if first_item(c, items, id) == to_index {
                    r matches Ok(None)
                } else {
                    items_plan(r, node_id, data, c, Some(id), moved(items, first_item(c, items, id), to_index as int), None)
                },
            }
        },
    }
}

/// Plans moving the item stating `item_id` to position `to_index` of a
/// collection of node `node_id`.
pub fn plan_repeatable_reorder(
    collections: &Vec<NodeRepeatableCollectionDescriptor>,
    node_id: NodeId,
    node_data: JsonValue,
    collection_key: &str,
    item_id: &str,
    to_index: usize,
) -> (r: Result<Option<OpenGpuiRepeatableEditPlan>, OpenGpuiRepeatableEditError>)
    ensures
        reorder_result(r, collections@, node_id, node_data, collection_key@, item_id@, to_index),
{
    let ci = match find_collection(collections, collection_key) {
        Some(i) => i,
        None => {
            return Err(OpenGpuiRepeatableEditError::MissingCollection { collection_key: owned(collection_key) });
        },
    };
    let c = &collections[ci];
    proof {
        let k = choose|k: int| is_first_collection(collections@, collection_key@, k);
        lemma_first_collection_unique(collections@, collection_key@, ci as int, k);
    }
    if !c.reorderable {
        return Err(OpenGpuiRepeatableEditError::NotReorderable { collection_key: owned(collection_key) });
    }
    let ghost items_view = spec_items(*c, node_data)->0;
    let (copies, from) = match repeatable_array(c, &node_data) {
        Err(e) => {
            return Err(e);
        },
        Ok(None) => {
            return Err(OpenGpuiRepeatableEditError::ReorderIndexOutOfBounds {
                collection_key: owned(collection_key),
                to_index,
            });
        },
        Ok(Some(items)) => {
            if to_index >= items.len() {
                return Err(OpenGpuiRepeatableEditError::ReorderIndexOutOfBounds {
                    collection_key: owned(collection_key),
                    to_index,
                });
            }
            let from = match item_index(c, items, item_id) {
                Some(f) => f,
                None => {
                    return Err(OpenGpuiRepeatableEditError::MissingItem {
                        collection_key: c.key.clone(),
                        item_id: owned(item_id),
                    });
                },
            };
            proof {
                lemma_first_item_unique(*c, items@, item_id@, from as int, first_item(*c, items@, item_id@));
            }
            if from == to_index {
                return Ok(None);
            }
            let mut copies = copy_items(items);
            let ghost c0 = copies@;
            let item = copies.remove(from);
            let ghost c1 = copies@;
            copies.insert(to_index, item);
            proof {
                let i0 = items@;
                let i1 = i0.remove(from as int);
                let expected = moved(i0, from as int, to_index as int);
                assert forall|i: int| 0 <= i < copies@.len() implies json_same(#[trigger] copies@[i], expected[i]) by {
                    if i < to_index {
                        assert(copies@[i] == c1[i] && expected[i] == i1[i]);
                        if i < from { assert(c1[i] == c0[i] && i1[i] == i0[i]); } else { assert(c1[i] == c0[i + 1] && i1[i] == i0[i + 1]); }
                    } else if i > to_index {
                        assert(copies@[i] == c1[i - 1] && expected[i] == i1[i - 1]);
                        if i - 1 < from { assert(c1[i - 1] == c0[i - 1] && i1[i - 1] == i0[i - 1]); } else { assert(c1[i - 1] == c0[i] && i1[i - 1] == i0[i]); }
                    } else {
                        assert(copies@[i] == c0[from as int] && expected[i] == i0[from as int]);
                    }
                }
            }
            (copies, from)
        },
    };
    repeatable_data_plan(node_id, node_data, c, Some(item_id), copies, Ghost(moved(items_view, from as int, to_index as int)), None)
}


/// The port key an item declares: the text of the scalar at the
/// collection's port-key path, if it has one.
pub open spec fn spec_port_key(c: NodeRepeatableCollectionDescriptor, item: JsonValue) -> Option<Seq<char>> {
    match c.port_key_path {
        Some(path) => match lookup_segments(item, dot_segments(path@)) {
            Some(v) => spec_scalar_text(v),
            None => None,
        },
        None => None,
    }
}

/// The port key an item declares.
pub fn repeatable_item_port_key(c: &NodeRepeatableCollectionDescriptor, item: &JsonValue) -> (key: Option<String>)
    ensures
        opt_text_is(key, spec_port_key(*c, *item)),
{
    match &c.port_key_path {
        Some(path) => match semantic_json_lookup(item, path.as_str()) {
            Some(v) => json_scalar_to_stable_string(v),
            None => None,
        },
        None => None,
    }
}

/// The outcome of removing the item stating `id`: the collection must
/// exist, its items must be an array (or absent) holding more than its
/// minimum, and an item must state the id; the first such item is removed,
/// and the plan names the port key it declared.
pub open spec fn remove_result(
    r: Result<Option<OpenGpuiRepeatableEditPlan>, OpenGpuiRepeatableEditError>,
    collections: Seq<NodeRepeatableCollectionDescriptor>,
    node_id: NodeId,
    data: JsonValue,
    key: Seq<char>,
    id: Seq<char>,
) -> bool {
    match spec_collection(collections, key) {
        None => r matches Err(OpenGpuiRepeatableEditError::MissingCollection { collection_key: k }) && k@ == key,
        Some(c) => match spec_items(c, data) {
            None => r matches Err(OpenGpuiRepeatableEditError::UnsupportedCollectionShape { collection_key: k }) && k@ == key,
            Some(items) => if c.min_items is Some && items.len() <= c.min_items->0 {
                r matches Err(OpenGpuiRepeatableEditError::MinItemsReached { collection_key: k, min_items: m })
                    && k@ == key && m == c.min_items->0
            } else if !id_taken(c, items, id) {
                r matches Err(OpenGpuiRepeatableEditError::MissingItem { collection_key: k, item_id: i })
                    && k@ == key && i@ == id
            } else {
                let i = first_item(c, items, id);
                items_plan(r, node_id, data, c, Some(id), items.remove(i), spec_port_key(c, items[i]))
            },
        },
    }
}

/// Plans removing the item stating `item_id` from a collection of node
/// `node_id`. The plan names the port key the removed item declared, so
/// that its graph port, if the graph has one, goes with it.
pub fn plan_repeatable_remove(
    collections: &Vec<NodeRepeatableCollectionDescriptor>,
    node_id: NodeId,
    node_data: JsonValue,
    collection_key: &str,
    item_id: &str,
) -> (r: Result<Option<OpenGpuiRepeatableEditPlan>, OpenGpuiRepeatableEditError>)
    ensures
        remove_result(r, collections@, node_id, node_data, collection_key@, item_id@),
{
    let ci = match find_collection(collections, collection_key) {
        Some(i) => i,
        None => {
            return Err(OpenGpuiRepeatableEditError::MissingCollection { collection_key: owned(collection_key) });
        },
    };
    let c = &collections[ci];
    proof {
        let k = choose|k: int| is_first_collection(collections@, collection_key@, k);
        lemma_first_collection_unique(collections@, collection_key@, ci as int, k);
    }
    let ghost items_view = spec_items(*c, node_data)->0;
    let (copies, port, index) = match repeatable_array(c, &node_data) {
        Err(e) => {
            return Err(e);
        },
        Ok(None) => {
            match c.min_items {
                Some(min_items) => {
                    return Err(OpenGpuiRepeatableEditError::MinItemsReached {
                        collection_key: owned(collection_key),
                        min_items,
                    });
                },
                None => {},
            }
            return Err(OpenGpuiRepeatableEditError::MissingItem {
                collection_key: c.key.clone(),
                item_id: owned(item_id),
            });
        },
        Ok(Some(items)) => {
            match c.min_items {
                Some(min_items) => {
                    if items.len() <= min_items {
                        return Err(OpenGpuiRepeatableEditError::MinItemsReached {
                            collection_key: owned(collection_key),
                            min_items,
                        });
                    }
                },
                None => {},
            }
            let index = match item_index(c, items, item_id) {
                Some(f) => f,
                None => {
                    return Err(OpenGpuiRepeatableEditError::MissingItem {
                        collection_key: c.key.clone(),
                        item_id: owned(item_id),
                    });
                },
            };
            proof {
                lemma_first_item_unique(*c, items@, item_id@, index as int, first_item(*c, items@, item_id@));
            }
            let port = repeatable_item_port_key(c, &items[index]);
            let mut copies = copy_items(items);
            let ghost c0 = copies@;
            copies.remove(index);
            proof {
                let expected = items@.remove(index as int);
                assert forall|i: int| 0 <= i < copies@.len() implies json_same(#[trigger] copies@[i], expected[i]) by {
                    if i < index {
                        assert(copies@[i] == c0[i] && expected[i] == items@[i]);
                    } else {
                        assert(copies@[i] == c0[i + 1] && expected[i] == items@[i + 1]);
                    }
                }
            }
            (copies, port, index)
        },
    };
    repeatable_data_plan(node_id, node_data, c, Some(item_id), copies, Ghost(items_view.remove(index as int)), port)
}


/// `new_item` is `item` with an id: `item` itself when it states one;
/// otherwise `item` with the generated id written at the id path.
pub open spec fn with_item_id(
    c: NodeRepeatableCollectionDescriptor,
    items: Seq<JsonValue>,
    item: JsonValue,
    new_item: JsonValue,
) -> bool {
    if item_id(c, item) is Some {
        new_item == item
    } else {
        exists|s: String| is_next_item_id(c, items, s@)
            && set_result(item, new_item, dot_segments(c.item_id_path@), JsonValue::String(s))
    }
}

/// The outcome of adding `item`: the collection must exist and its items
/// must be an array (or absent) below its maximum; an item without an id
/// gets the generated one, which must be writable; the item's id must be
/// valid and no item may state it already. The item is added last.
pub open spec fn add_result(
    r: Result<Option<OpenGpuiRepeatableEditPlan>, OpenGpuiRepeatableEditError>,
    collections: Seq<NodeRepeatableCollectionDescriptor>,
    node_id: NodeId,
    data: JsonValue,
    key: Seq<char>,
    item: JsonValue,
) -> bool {
    match spec_collection(collections, key) {
        None => r matches Err(OpenGpuiRepeatableEditError::MissingCollection { collection_key: k }) && k@ == key,
        Some(c) => match spec_items(c, data) {
            None => r matches Err(OpenGpuiRepeatableEditError::UnsupportedCollectionShape { collection_key: k }) && k@ == key,
            Some(items) => if c.max_items is Some && items.len() >= c.max_items->0 {
                r matches Err(OpenGpuiRepeatableEditError::MaxItemsReached { collection_key: k, max_items: m })
                    && k@ == key && m == c.max_items->0
            } else if item_id(c, item) is None && set_error(item, dot_segments(c.item_id_path@)) is Some {
                r matches Err(OpenGpuiRepeatableEditError::InvalidEdit(m))
                    && m@ == set_error(item, dot_segments(c.item_id_path@))->0
            } else {
                exists|new_item: JsonValue| with_item_id(c, items, item, new_item) && match item_id(c, new_item) {
                    None => r matches Err(OpenGpuiRepeatableEditError::InvalidItemId { collection_key: k }) && k@ == key,
                    Some(id) => if id_taken(c, items, id) {
                        r matches Err(OpenGpuiRepeatableEditError::DuplicateItem { collection_key: k, item_id: i })
                            && k@ == key && i@ == id
                    } else {
                        items_plan(r, node_id, data, c, None, items.push(new_item), None)
                    },
                }
            },
        },
    }
}

/// Plans adding `item` at the end of a collection of node `node_id`.
pub fn plan_repeatable_add(
    collections: &Vec<NodeRepeatableCollectionDescriptor>,
    node_id: NodeId,
    node_data: JsonValue,
    collection_key: &str,
    item: JsonValue,
) -> (r: Result<Option<OpenGpuiRepeatableEditPlan>, OpenGpuiRepeatableEditError>)
    ensures
        add_result(r, collections@, node_id, node_data, collection_key@, item),
{
    let ci = match find_collection(collections, collection_key) {
        Some(i) => i,
        None => {
            return Err(OpenGpuiRepeatableEditError::MissingCollection { collection_key: owned(collection_key) });
        },
    };
    let c = &collections[ci];
    proof {
        let k = choose|k: int| is_first_collection(collections@, collection_key@, k);
        lemma_first_collection_unique(collections@, collection_key@, ci as int, k);
    }
    let ghost items_view = spec_items(*c, node_data)->0;
    let ghost original = item;
    let mut item = item;
    let copies = match repeatable_array(c, &node_data) {
        Err(e) => {
            return Err(e);
        },
        Ok(found) => {
            let empty: Vec<JsonValue> = Vec::new();
            let items: &Vec<JsonValue> = match found {
                Some(v) => v,
                None => &empty,
            };
            assert(items@ == items_view);
            match c.max_items {
                Some(max_items) => {
                    if items.len() >= max_items {
                        return Err(OpenGpuiRepeatableEditError::MaxItemsReached {
                            collection_key: owned(collection_key),
                            max_items,
                        });
                    }
                },
                None => {},
            }
            match repeatable_item_id(c.item_id_path.as_str(), &item) {
                Some(_) => {},
                None => {
                    let fallback = next_repeatable_item_id(c, items);
                    let ghost s = fallback;
                    match set_dot_path_value(&mut item, c.item_id_path.as_str(), JsonValue::String(fallback)) {
                        Ok(_) => {},
                        Err(e) => {
                            return Err(OpenGpuiRepeatableEditError::InvalidEdit(e));
                        },
                    }
                    assert(is_next_item_id(*c, items_view, s@)
                        && set_result(original, item, dot_segments(c.item_id_path@), JsonValue::String(s)));
                },
            }
            assert(with_item_id(*c, items_view, original, item));
            let id = match repeatable_item_id(c.item_id_path.as_str(), &item) {
                Some(t) => t,
                None => {
                    return Err(OpenGpuiRepeatableEditError::InvalidItemId { collection_key: c.key.clone() });
                },
            };
            if any_item_has_id(c, items, id.as_str()) {
                return Err(OpenGpuiRepeatableEditError::DuplicateItem {
                    collection_key: owned(collection_key),
                    item_id: id,
                });
            }
            copy_items(items)
        },
    };
    let ghost new_item = item;
    let mut copies = copies;
    copies.push(item);
    proof {
        let expected = items_view.push(new_item);
        assert forall|i: int| 0 <= i < copies@.len() implies json_same(#[trigger] copies@[i], expected[i]) by {
            if i == items_view.len() {
                crate::json_compare::lemma_json_same_reflexive(new_item);
            }
        }
    }
    repeatable_data_plan(node_id, node_data, c, None, copies, Ghost(items_view.push(new_item)), None)
}


/// `i` is the first item-template control with `key`.
pub open spec fn is_first_item_control(controls: Seq<NodeControlDescriptor>, key: Seq<char>, i: int) -> bool {
    &&& 0 <= i < controls.len()
    &&& controls[i].key@ == key
    &&& forall|j: int| 0 <= j < i ==> #[trigger] controls[j].key@ != key
}

proof fn lemma_first_item_control_unique(controls: Seq<NodeControlDescriptor>, key: Seq<char>, i: int, k: int)
    requires
        is_first_item_control(controls, key, i),
        is_first_item_control(controls, key, k),
    ensures
        i == k,
{
    if i < k {
        assert(controls[i].key@ != key);
    } else if k < i {
        assert(controls[k].key@ != key);
    }
}

/// A repeatable control takes edits: it is neither read-only nor disabled,
/// and its binding writes node data.
pub open spec fn item_control_writable(control: NodeControlDescriptor) -> bool {
    &&& !control.read_only
    &&& control.disabled_reason is None
    &&& control.binding is Some
    &&& control.binding->0.source != NodeControlBindingSource::GraphSymbol
    &&& control.binding->0.source != NodeControlBindingSource::PortAnchor
}

/// The outcome of editing control `control_key` of the item stating `id`:
/// the collection must exist, its items must be an array (or absent), an
/// item must state the id, the item template must have the control and
/// the control must take edits; the value is written through its binding
/// into (a copy of) the first such item.
pub open spec fn item_edit_result(
    r: Result<Option<OpenGpuiRepeatableEditPlan>, OpenGpuiRepeatableEditError>,
    collections: Seq<NodeRepeatableCollectionDescriptor>,
    node_id: NodeId,
    data: JsonValue,
    key: Seq<char>,
    id: Seq<char>,
    control_key: Seq<char>,
    value: JsonValue,
) -> bool {
    match spec_collection(collections, key) {
        None => r matches Err(OpenGpuiRepeatableEditError::MissingCollection { collection_key: k }) && k@ == key,
        Some(c) => match spec_items(c, data) {
            None => r matches Err(OpenGpuiRepeatableEditError::UnsupportedCollectionShape { collection_key: k }) && k@ == key,
            Some(items) => if !id_taken(c, items, id) {
                r matches Err(OpenGpuiRepeatableEditError::MissingItem { collection_key: k, item_id: i })
                    && k@ == key && i@ == id
            } else if !exists|j: int| is_first_item_control(c.item_controls@, control_key, j) {
                r matches Err(OpenGpuiRepeatableEditError::MissingControl { collection_key: k, control_key: ck })
                    && k@ == key && ck@ == control_key
            } else {
                let control = c.item_controls@[choose|j: int| is_first_item_control(c.item_controls@, control_key, j)];
                let i = first_item(c, items, id);
                if !item_control_writable(control) {
                    r matches Err(OpenGpuiRepeatableEditError::NonWritableControl { control_key: ck }) && ck@ == control_key
                } else {
                    let b = control.binding->0;
                    exists|base: JsonValue| json_same(base, items[i]) && match bound_write_error(base, b) {
                        Some(e) => r matches Err(OpenGpuiRepeatableEditError::InvalidEdit(m)) && m@ == e,
                        None => exists|edited: JsonValue| bound_written(base, edited, b, value)
                            && items_plan(r, node_id, data, c, Some(id), items.update(i, edited), None),
                    }
                }
            },
        },
    }
}

/// Plans writing `value` through control `control_key` of the item stating
/// `item_id` in a collection of node `node_id`.
pub fn plan_repeatable_item_control_edit(
    collections: &Vec<NodeRepeatableCollectionDescriptor>,
    node_id: NodeId,
    node_data: JsonValue,
    collection_key: &str,
    item_id: &str,
    control_key: &str,
    value: JsonValue,
) -> (r: Result<Option<OpenGpuiRepeatableEditPlan>, OpenGpuiRepeatableEditError>)
    ensures
        item_edit_result(r, collections@, node_id, node_data, collection_key@, item_id@, control_key@, value),
{
    let ci = match find_collection(collections, collection_key) {
        Some(i) => i,
        None => {
            return Err(OpenGpuiRepeatableEditError::MissingCollection { collection_key: owned(collection_key) });
        },
    };
    let c = &collections[ci];
    proof {
        let k = choose|k: int| is_first_collection(collections@, collection_key@, k);
        lemma_first_collection_unique(collections@, collection_key@, ci as int, k);
    }
    let ghost items_view = spec_items(*c, node_data)->0;
    let (copies, index) = match repeatable_array(c, &node_data) {
        Err(e) => {
            return Err(e);
        },
        Ok(None) => {
            return Err(OpenGpuiRepeatableEditError::MissingItem {
                collection_key: c.key.clone(),
                item_id: owned(item_id),
            });
        },
        Ok(Some(items)) => {
            let index = match item_index(c, items, item_id) {
                Some(f) => f,
                None => {
                    return Err(OpenGpuiRepeatableEditError::MissingItem {
                        collection_key: c.key.clone(),
                        item_id: owned(item_id),
                    });
                },
            };
            proof {
                lemma_first_item_unique(*c, items@, item_id@, index as int, first_item(*c, items@, item_id@));
            }
            (copy_items(items), index)
        },
    };
    let mut ctl_index: usize = 0;
    while ctl_index < c.item_controls.len()
        invariant
            ctl_index <= c.item_controls@.len(),
            forall|j: int| 0 <= j < ctl_index ==> #[trigger] c.item_controls@[j].key@ != control_key@,
        ensures
            ctl_index <= c.item_controls@.len(),
            forall|j: int| 0 <= j < ctl_index ==> #[trigger] c.item_controls@[j].key@ != control_key@,
            ctl_index == c.item_controls@.len() || c.item_controls@[ctl_index as int].key@ == control_key@,
        decreases c.item_controls.len() - ctl_index,
    {
        if str_eq(c.item_controls[ctl_index].key.as_str(), control_key) {
            break;
        }
        ctl_index = ctl_index + 1;
    }
    if ctl_index == c.item_controls.len() {
        return Err(OpenGpuiRepeatableEditError::MissingControl {
            collection_key: c.key.clone(),
            control_key: owned(control_key),
        });
    }
    let control = &c.item_controls[ctl_index];
    proof {
        assert(is_first_item_control(c.item_controls@, control_key@, ctl_index as int));
        let k = choose|k: int| is_first_item_control(c.item_controls@, control_key@, k);
        lemma_first_item_control_unique(c.item_controls@, control_key@, ctl_index as int, k);
    }
    if control.read_only || control.disabled_reason.is_some() {
        return Err(OpenGpuiRepeatableEditError::NonWritableControl { control_key: owned(control_key) });
    }
    let binding = match &control.binding {
        Some(b) => b,
        None => {
            return Err(OpenGpuiRepeatableEditError::NonWritableControl { control_key: owned(control_key) });
        },
    };
    match binding.source {
        NodeControlBindingSource::GraphSymbol | NodeControlBindingSource::PortAnchor => {
            return Err(OpenGpuiRepeatableEditError::NonWritableControl { control_key: owned(control_key) });
        },
        _ => {},
    }
    let mut edited = copy_json(&copies[index]);
    let ghost base = edited;
    proof {
        lemma_json_same_transitive(edited, copies@[index as int], items_view[index as int]);
    }
    match set_bound_value(&mut edited, binding, value) {
        Ok(_) => {},
        Err(e) => {
            return Err(OpenGpuiRepeatableEditError::InvalidEdit(e));
        },
    }
    let ghost new_item = edited;
    let mut copies = copies;
    let ghost c0 = copies@;
    copies.set(index, edited);
    proof {
        let expected = items_view.update(index as int, new_item);
        assert forall|i: int| 0 <= i < copies@.len() implies json_same(#[trigger] copies@[i], expected[i]) by {
            if i == index {
                crate::json_compare::lemma_json_same_reflexive(new_item);
            } else {
                assert(copies@[i] == c0[i]);
            }
        }
    }
    repeatable_data_plan(node_id, node_data, c, Some(item_id), copies, Ghost(items_view.update(index as int, new_item)), None)
}


/// Adapter-local repeatable authoring command.
#[derive(Debug, PartialEq, Eq)]
pub enum OpenGpuiRepeatableActionPlan {
    Add { collection_key: String, item: JsonValue },
    Remove { collection_key: String, item_id: String },
    Reorder { collection_key: String, item_id: String, to_index: usize },
    Edit { collection_key: String, item_id: String, control_key: String, value: JsonValue },
}

/// Plan an adapter-local repeatable authoring mutation of node `node_id`,
/// whose kind declares `collections`.
pub fn plan_repeatable_action(
    collections: &Vec<NodeRepeatableCollectionDescriptor>,
    node_id: NodeId,
    node_data: JsonValue,
    action: OpenGpuiRepeatableActionPlan,
) -> (r: Result<Option<OpenGpuiRepeatableEditPlan>, OpenGpuiRepeatableEditError>)
    ensures
        match action {
            OpenGpuiRepeatableActionPlan::Add { collection_key, item } =>
                add_result(r, collections@, node_id, node_data, collection_key@, item),
            OpenGpuiRepeatableActionPlan::Remove { collection_key, item_id } =>
                remove_result(r, collections@, node_id, node_data, collection_key@, item_id@),
            OpenGpuiRepeatableActionPlan::Reorder { collection_key, item_id, to_index } =>
                reorder_result(r, collections@, node_id, node_data, collection_key@, item_id@, to_index),
            OpenGpuiRepeatableActionPlan::Edit { collection_key, item_id, control_key, value } =>
                item_edit_result(r, collections@, node_id, node_data, collection_key@, item_id@, control_key@, value),
        },
{
    match action {
        OpenGpuiRepeatableActionPlan::Add { collection_key, item } =>
            plan_repeatable_add(collections, node_id, node_data, collection_key.as_str(), item),
        OpenGpuiRepeatableActionPlan::Remove { collection_key, item_id } =>
            plan_repeatable_remove(collections, node_id, node_data, collection_key.as_str(), item_id.as_str()),
        OpenGpuiRepeatableActionPlan::Reorder { collection_key, item_id, to_index } =>
            plan_repeatable_reorder(collections, node_id, node_data, collection_key.as_str(), item_id.as_str(), to_index),
        OpenGpuiRepeatableActionPlan::Edit { collection_key, item_id, control_key, value } =>
            plan_repeatable_item_control_edit(
                collections,
                node_id,
                node_data,
                collection_key.as_str(),
                item_id.as_str(),
                control_key.as_str(),
                value,
            ),
    }
}


// ---------------------------------------------------------------------
// Item identity across edits

/// No two items state the same id.
pub open spec fn ids_unique(c: NodeRepeatableCollectionDescriptor, items: Seq<JsonValue>) -> bool {
    forall|i: int, j: int| 0 <= i < j < items.len() && (#[trigger] item_id(c, items[i])) is Some
        ==> item_id(c, items[i]) != #[trigger] item_id(c, items[j])
}

/// Items with the same content state the same id.
pub proof fn lemma_item_id_congruent(c: NodeRepeatableCollectionDescriptor, a: JsonValue, b: JsonValue)
    requires
        json_same(a, b),
    ensures
        item_id(c, a) == item_id(c, b),
{
    let segs = dot_segments(c.item_id_path@);
    lemma_lookup_congruent(a, b, segs);
    match lookup_segments(a, segs) {
        Some(x) => lemma_scalar_text_congruent(x, lookup_segments(b, segs)->0),
        None => {},
    }
}

/// What an edit writes, item by item with the same content as what it
/// plans, states the same ids as what it plans.
pub proof fn lemma_written_items_state_planned_ids(
    c: NodeRepeatableCollectionDescriptor,
    written: Seq<JsonValue>,
    planned: Seq<JsonValue>,
)
    requires
        json_same_seq(written, planned),
    ensures
        forall|i: int| 0 <= i < written.len() ==> #[trigger] item_id(c, written[i]) == item_id(c, planned[i]),
        ids_unique(c, written) <==> ids_unique(c, planned),
        forall|id: Seq<char>| id_taken(c, written, id) <==> #[trigger] id_taken(c, planned, id),
{
    assert forall|i: int| 0 <= i < written.len() implies #[trigger] item_id(c, written[i]) == item_id(c, planned[i]) by {
        lemma_item_id_congruent(c, written[i], planned[i]);
    }
    if ids_unique(c, planned) {
        assert forall|i: int, j: int| 0 <= i < j < written.len() && (#[trigger] item_id(c, written[i])) is Some
            implies item_id(c, written[i]) != #[trigger] item_id(c, written[j]) by {
            assert(item_id(c, planned[i]) is Some);
            assert(item_id(c, planned[i]) != item_id(c, planned[j]));
        }
    }
    if ids_unique(c, written) {
        assert forall|i: int, j: int| 0 <= i < j < planned.len() && (#[trigger] item_id(c, planned[i])) is Some
            implies item_id(c, planned[i]) != #[trigger] item_id(c, planned[j]) by {
            assert(item_id(c, written[i]) is Some);
            assert(item_id(c, written[i]) != item_id(c, written[j]));
        }
    }
    assert forall|id: Seq<char>| id_taken(c, written, id) <==> #[trigger] id_taken(c, planned, id) by {
        if id_taken(c, written, id) {
            let j = choose|j: int| 0 <= j < written.len() && #[trigger] item_id(c, written[j]) == Some(id);
            assert(item_id(c, planned[j]) == Some(id));
        }
        if id_taken(c, planned, id) {
            let j = choose|j: int| 0 <= j < planned.len() && #[trigger] item_id(c, planned[j]) == Some(id);
            assert(item_id(c, written[j]) == item_id(c, planned[j]));
        }
    }
}

/// Adding an item with a fresh id to items with unique ids keeps the ids
/// unique, and the new id is then taken.
pub proof fn lemma_add_keeps_ids_unique(
    c: NodeRepeatableCollectionDescriptor,
    items: Seq<JsonValue>,
    new_item: JsonValue,
    id: Seq<char>,
)
    requires
        ids_unique(c, items),
        item_id(c, new_item) == Some(id),
        !id_taken(c, items, id),
    ensures
        ids_unique(c, items.push(new_item)),
        id_taken(c, items.push(new_item), id),
{
    let s = items.push(new_item);
    assert forall|i: int, j: int| 0 <= i < j < s.len() && (#[trigger] item_id(c, s[i])) is Some
        implies item_id(c, s[i]) != #[trigger] item_id(c, s[j]) by {
        if j == items.len() {
            assert(s[i] == items[i]);
            if item_id(c, items[i]) == Some(id) {
                assert(id_taken(c, items, id));
            }
        } else {
            assert(s[i] == items[i] && s[j] == items[j]);
        }
    }
    assert(item_id(c, s[items.len() as int]) == Some(id));
}

/// Removing the item stating `id` from items with unique ids keeps them
/// unique, and no item states `id` any more.
pub proof fn lemma_remove_drops_id(c: NodeRepeatableCollectionDescriptor, items: Seq<JsonValue>, id: Seq<char>)
    requires
        ids_unique(c, items),
        id_taken(c, items, id),
    ensures
        exists|i: int| is_first_item(c, items, id, i),
        ids_unique(c, items.remove(first_item(c, items, id))),
        !id_taken(c, items.remove(first_item(c, items, id)), id),
        items.remove(first_item(c, items, id)).len() == items.len() - 1,
{
    let j0 = choose|j: int| 0 <= j < items.len() && #[trigger] item_id(c, items[j]) == Some(id);
    lemma_first_item_exists(c, items, id, j0);
    let k = first_item(c, items, id);
    let s = items.remove(k);
    assert forall|i: int, j: int| 0 <= i < j < s.len() && (#[trigger] item_id(c, s[i])) is Some
        implies item_id(c, s[i]) != #[trigger] item_id(c, s[j]) by {
        let i0 = if i < k { i } else { i + 1 };
        let j1 = if j < k { j } else { j + 1 };
        assert(s[i] == items[i0] && s[j] == items[j1]);
    }
    if id_taken(c, s, id) {
        let j = choose|j: int| 0 <= j < s.len() && #[trigger] item_id(c, s[j]) == Some(id);
        let j1 = if j < k { j } else { j + 1 };
        assert(s[j] == items[j1]);
        if j1 < k {
            assert(item_id(c, items[j1]) != Some(id));
        } else {
            assert(item_id(c, items[k]) == Some(id));
        }
    }
}

proof fn lemma_first_item_exists(c: NodeRepeatableCollectionDescriptor, items: Seq<JsonValue>, id: Seq<char>, j: int)
    requires
        0 <= j < items.len(),
        item_id(c, items[j]) == Some(id),
    ensures
        exists|i: int| is_first_item(c, items, id, i),
    decreases j,
{
    if exists|i: int| 0 <= i < j && #[trigger] item_id(c, items[i]) == Some(id) {
        let i = choose|i: int| 0 <= i < j && #[trigger] item_id(c, items[i]) == Some(id);
        lemma_first_item_exists(c, items, id, i);
    } else {
        assert(is_first_item(c, items, id, j));
    }
}

/// Moving the item stating `id` to `to` keeps every item (the same
/// multiset), puts that item at `to`, and keeps unique ids unique.
pub proof fn lemma_reorder_keeps_identity(c: NodeRepeatableCollectionDescriptor, items: Seq<JsonValue>, id: Seq<char>, to: int)
    requires
        ids_unique(c, items),
        id_taken(c, items, id),
        0 <= to < items.len(),
    ensures
        exists|i: int| is_first_item(c, items, id, i),
        moved(items, first_item(c, items, id), to).len() == items.len(),
        moved(items, first_item(c, items, id), to).to_multiset() == items.to_multiset(),
        item_id(c, moved(items, first_item(c, items, id), to)[to]) == Some(id),
        ids_unique(c, moved(items, first_item(c, items, id), to)),
{
    let j0 = choose|j: int| 0 <= j < items.len() && #[trigger] item_id(c, items[j]) == Some(id);
    lemma_first_item_exists(c, items, id, j0);
    let k = first_item(c, items, id);
    let r = items.remove(k);
    let m = moved(items, k, to);
    vstd::seq_lib::to_multiset_remove(items, k);
    vstd::seq_lib::to_multiset_insert(r, to, items[k]);
    assert(m.to_multiset() =~= items.to_multiset()) by {
        broadcast use vstd::multiset::group_multiset_axioms;
        assert(items.to_multiset().remove(items[k]).insert(items[k]) =~= items.to_multiset()) by {
            vstd::seq_lib::to_multiset_contains(items, items[k]);
        }
    }
    // each position of the moved sequence comes from a distinct position of `items`
    assert forall|i: int, j: int| 0 <= i < j < m.len() && (#[trigger] item_id(c, m[i])) is Some
        implies item_id(c, m[i]) != #[trigger] item_id(c, m[j]) by {
        let src = |p: int| if p == to { k } else {
            let q = if p < to { p } else { p - 1 };
            if q < k { q } else { q + 1 }
        };
        assert(m[i] == items[src(i)]);
        assert(m[j] == items[src(j)]);
        assert(src(i) != src(j));
        if src(i) < src(j) {
        } else {
            assert(src(j) < src(i));
        }
    }
}


/// The items a planned change leaves at the collection's item source are
/// the written ones, item by item with the content planned.
proof fn lemma_planned_items(
    r: Result<Option<OpenGpuiRepeatableEditPlan>, OpenGpuiRepeatableEditError>,
    node_id: NodeId,
    data: JsonValue,
    c: NodeRepeatableCollectionDescriptor,
    item_id: Option<Seq<char>>,
    expected: Seq<JsonValue>,
    removed_port: Option<Seq<char>>,
) -> (written: Seq<JsonValue>)
    requires
        items_plan(r, node_id, data, c, item_id, expected, removed_port),
        r matches Ok(Some(_)),
    ensures
        spec_items(c, r->Ok_0->0.transaction.to) == Some(written),
        json_same_seq(written, expected),
{
    let plan = r->Ok_0->0;
    let segs = dot_segments(c.item_source@);
    let v = choose|v: Vec<JsonValue>| json_same_seq(v@, expected) && set_result(data, plan.transaction.to, segs, JsonValue::Array(v));
    lemma_write_then_read(data, plan.transaction.to, segs, JsonValue::Array(v));
    v@
}

/// After a planned add, the collection holds one more item, the ids stay
/// unique when they were, and the added item's id is among them.
pub proof fn lemma_add_plan_keeps_identity(
    r: Result<Option<OpenGpuiRepeatableEditPlan>, OpenGpuiRepeatableEditError>,
    collections: Seq<NodeRepeatableCollectionDescriptor>,
    node_id: NodeId,
    data: JsonValue,
    key: Seq<char>,
    item: JsonValue,
)
    requires
        add_result(r, collections, node_id, data, key, item),
        r matches Ok(Some(_)),
        spec_collection(collections, key) matches Some(c) && spec_items(c, data) matches Some(items)
            && ids_unique(c, items),
    ensures
        spec_collection(collections, key) matches Some(c) && spec_items(c, data) matches Some(items)
            && spec_items(c, r->Ok_0->0.transaction.to) matches Some(after) && {
                &&& after.len() == items.len() + 1
                &&& ids_unique(c, after)
                &&& item_id(c, after[items.len() as int]) is Some
                &&& forall|i: int| 0 <= i < items.len() ==> #[trigger] item_id(c, after[i]) == item_id(c, items[i])
            },
{
    let c = spec_collection(collections, key)->0;
    let items = spec_items(c, data)->0;
    let new_item = choose|new_item: JsonValue| with_item_id(c, items, item, new_item) && match item_id(c, new_item) {
        None => r matches Err(OpenGpuiRepeatableEditError::InvalidItemId { collection_key: k }) && k@ == key,
        Some(id) => if id_taken(c, items, id) {
            r matches Err(OpenGpuiRepeatableEditError::DuplicateItem { collection_key: k, item_id: i })
                && k@ == key && i@ == id
        } else {
            items_plan(r, node_id, data, c, None, items.push(new_item), None)
        },
    };
    let id = item_id(c, new_item)->0;
    let after = lemma_planned_items(r, node_id, data, c, None, items.push(new_item), None);
    lemma_add_keeps_ids_unique(c, items, new_item, id);
    lemma_written_items_state_planned_ids(c, after, items.push(new_item));
    assert forall|i: int| 0 <= i < items.len() implies #[trigger] item_id(c, after[i]) == item_id(c, items[i]) by {
        assert(items.push(new_item)[i] == items[i]);
    }
}

/// After a planned removal of the item stating `id`, the collection holds
/// one item less, the ids stay unique when they were, and no item states
/// `id` any more.
pub proof fn lemma_remove_plan_drops_item(
    r: Result<Option<OpenGpuiRepeatableEditPlan>, OpenGpuiRepeatableEditError>,
    collections: Seq<NodeRepeatableCollectionDescriptor>,
    node_id: NodeId,
    data: JsonValue,
    key: Seq<char>,
    id: Seq<char>,
)
    requires
        remove_result(r, collections, node_id, data, key, id),
        r matches Ok(Some(_)),
        spec_collection(collections, key) matches Some(c) && spec_items(c, data) matches Some(items)
            && ids_unique(c, items),
    ensures
        spec_collection(collections, key) matches Some(c) && spec_items(c, data) matches Some(items)
            && spec_items(c, r->Ok_0->0.transaction.to) matches Some(after) && {
                &&& after.len() == items.len() - 1
                &&& ids_unique(c, after)
                &&& !id_taken(c, after, id)
            },
{
    let c = spec_collection(collections, key)->0;
    let items = spec_items(c, data)->0;
    lemma_remove_drops_id(c, items, id);
    let i = first_item(c, items, id);
    let after = lemma_planned_items(r, node_id, data, c, Some(id), items.remove(i), spec_port_key(c, items[i]));
    lemma_written_items_state_planned_ids(c, after, items.remove(i));
}

/// After a planned move of the item stating `id` to `to_index`, the
/// collection holds as many items, the item at `to_index` states `id`, and
/// the ids stay unique when they were.
pub proof fn lemma_reorder_plan_keeps_identity(
    r: Result<Option<OpenGpuiRepeatableEditPlan>, OpenGpuiRepeatableEditError>,
    collections: Seq<NodeRepeatableCollectionDescriptor>,
    node_id: NodeId,
    data: JsonValue,
    key: Seq<char>,
    id: Seq<char>,
    to_index: usize,
)
    requires
        reorder_result(r, collections, node_id, data, key, id, to_index),
        r matches Ok(Some(_)),
        spec_collection(collections, key) matches Some(c) && spec_items(c, data) matches Some(items)
            && ids_unique(c, items),
    ensures
        spec_collection(collections, key) matches Some(c) && spec_items(c, data) matches Some(items)
            && spec_items(c, r->Ok_0->0.transaction.to) matches Some(after) && {
                &&& after.len() == items.len()
                &&& item_id(c, after[to_index as int]) == Some(id)
                &&& ids_unique(c, after)
            },
{
    let c = spec_collection(collections, key)->0;
    let items = spec_items(c, data)->0;
    lemma_reorder_keeps_identity(c, items, id, to_index as int);
    let m = moved(items, first_item(c, items, id), to_index as int);
    let after = lemma_planned_items(r, node_id, data, c, Some(id), m, None);
    lemma_written_items_state_planned_ids(c, after, m);
}

} // verus!
