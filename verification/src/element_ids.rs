//! Stable GPUI element ids for host components.
//!
//! An element id is a colon-separated list of parts: a component prefix,
//! the node scope (the node's UUID, or `graph` for graph-level actions),
//! escaped semantic keys and, for repeated widgets, a decimal index. Keys
//! are escaped (`%` as `%25`, then `:` as `%3A`) so that no key can forge a
//! separator: ids of different nodes, keys or indices never collide.

use vstd::prelude::*;
use crate::node_id::{NodeId, hex_digits, hyphenated_prefix, uuid_text};
use crate::text::{decimal, hex_digit, owned, push_char, push_str, usize_decimal_string};

verus! {

/// The escape of one key character.
pub open spec fn escape_char(c: char) -> Seq<char> {
    if c == '%' {
        seq!['%', '2', '5']
    } else if c == ':' {
        seq!['%', '3', 'A']
    } else {
        seq![c]
    }
}

/// A key with `%` written as `%25` and `:` as `%3A`.
pub open spec fn escape(s: Seq<char>) -> Seq<char>
    decreases s.len(),
{
    if s.len() == 0 {
        Seq::empty()
    } else {
        escape(s.drop_last()) + escape_char(s.last())
    }
}

/// The parts joined with `:`.
pub open spec fn join_colon(parts: Seq<Seq<char>>) -> Seq<char>
    decreases parts.len(),
{
    if parts.len() <= 1 {
        if parts.len() == 1 { parts[0] } else { Seq::empty() }
    } else {
        join_colon(parts.drop_last()) + seq![':'] + parts.last()
    }
}

/// No character of `s` is a colon.
pub open spec fn colon_free(s: Seq<char>) -> bool {
    forall|i: int| 0 <= i < s.len() ==> s[i] != ':'
}

/// The element scope of an optional node: its UUID text, or `graph`.
pub open spec fn scope_text(node_id: Option<NodeId>) -> Seq<char> {
    match node_id {
        Some(node) => uuid_text(node.0),
        None => "graph"@,
    }
}

/// One id segment: the key with `%` written as `%25` and `:` as `%3A`, so
/// that no segment holds the `:` separator.
pub fn id_segment(segment: &str) -> (s: String)
    ensures
        s@ == escape(segment@),
{
    let mut s = String::new();
    let n = segment.unicode_len();
    let mut i: usize = 0;
    while i < n
        invariant
            n == segment@.len(),
            i <= n,
            s@ == escape(segment@.subrange(0, i as int)),
        decreases n - i,
    {
        let c = segment.get_char(i);
        proof {
            let pre = segment@.subrange(0, i + 1);
            assert(pre.drop_last() =~= segment@.subrange(0, i as int));
            assert(pre.last() == c);
        }
        if c == '%' {
            push_char(&mut s, '%');
            push_char(&mut s, '2');
            push_char(&mut s, '5');
        } else if c == ':' {
            push_char(&mut s, '%');
            push_char(&mut s, '3');
            push_char(&mut s, 'A');
        } else {
            push_char(&mut s, c);
        }
        proof {
            assert(s@ =~= escape(segment@.subrange(0, i + 1)));
        }
        i = i + 1;
    }
    assert(segment@.subrange(0, n as int) =~= segment@);
    s
}

fn join_parts(parts: &Vec<String>) -> (s: String)
    requires
        parts@.len() > 0,
    ensures
        s@ == join_colon(parts@.map_values(|p: String| p@)),
{
    let ghost texts = parts@.map_values(|p: String| p@);
    let mut s = owned(parts[0].as_str());
    let mut i: usize = 1;
    proof {
        assert(texts.subrange(0, 1).drop_last().len() == 0);
        assert(join_colon(texts.subrange(0, 1)) == texts[0]);
    }
    while i < parts.len()
        invariant
            1 <= i <= parts@.len(),
            texts == parts@.map_values(|p: String| p@),
            s@ == join_colon(texts.subrange(0, i as int)),
        decreases parts.len() - i,
    {
        push_char(&mut s, ':');
        push_str(&mut s, parts[i].as_str());
        proof {
            let next = texts.subrange(0, i + 1);
            assert(next.drop_last() =~= texts.subrange(0, i as int));
            assert(next.last() == parts@[i as int]@);
            assert(s@ =~= join_colon(next));
        }
        i = i + 1;
    }
    assert(texts.subrange(0, parts@.len() as int) =~= texts);
    s
}

/// Stable element-id scope used by host GPUI components.
///
/// Node-owned controls/actions include the node id. Graph-level actions use the
/// literal graph scope so they do not accidentally collide with node internals.
pub fn open_gpui_node_element_scope(node_id: Option<NodeId>) -> (scope: String)
    ensures
        scope@ == scope_text(node_id),
{
    match node_id {
        Some(node) => node.to_text(),
        None => owned("graph"),
    }
}

pub fn open_gpui_action_button_element_id(node_id: Option<NodeId>, menu_key: &str, action_key: &str, index: usize) -> (id: String)
    ensures
        id@ == join_colon(seq!["jellyflow-action-button"@, scope_text(node_id), escape(menu_key@), escape(action_key@),
            decimal(index as nat)]),
{
    let parts = vec![owned("jellyflow-action-button"), open_gpui_node_element_scope(node_id), id_segment(menu_key),
        id_segment(action_key), usize_decimal_string(index)];
    assert(parts@.map_values(|p: String| p@) =~= seq!["jellyflow-action-button"@, scope_text(node_id), escape(menu_key@),
        escape(action_key@), decimal(index as nat)]);
    join_parts(&parts)
}

pub fn open_gpui_action_menu_element_id(node_id: Option<NodeId>, menu_key: &str, id_suffix: &str) -> (id: String)
    ensures
        id@ == join_colon(seq!["jellyflow-action-menu"@, scope_text(node_id), escape(menu_key@), escape(id_suffix@)]),
{
    let parts = vec![owned("jellyflow-action-menu"), open_gpui_node_element_scope(node_id), id_segment(menu_key),
        id_segment(id_suffix)];
    assert(parts@.map_values(|p: String| p@) =~= seq!["jellyflow-action-menu"@, scope_text(node_id), escape(menu_key@),
        escape(id_suffix@)]);
    join_parts(&parts)
}

pub fn open_gpui_action_summary_element_id(node_id: NodeId, action_key: &str) -> (id: String)
    ensures
        id@ == join_colon(seq!["jellyflow-action-summary"@, uuid_text(node_id.0), escape(action_key@)]),
{
    one_key("jellyflow-action-summary", node_id, action_key)
}

pub fn open_gpui_slot_action_button_element_id(node_id: NodeId, slot_key: &str, index: usize) -> (id: String)
    ensures
        id@ == join_colon(seq!["jellyflow-action"@, uuid_text(node_id.0), escape(slot_key@), decimal(index as nat)]),
{
    let parts = vec![owned("jellyflow-action"), node_id.to_text(), id_segment(slot_key), usize_decimal_string(index)];
    assert(parts@.map_values(|p: String| p@) =~= seq!["jellyflow-action"@, uuid_text(node_id.0), escape(slot_key@),
        decimal(index as nat)]);
    join_parts(&parts)
}

pub fn open_gpui_control_element_id(node_id: NodeId, control_scope: &str, control_key: &str, index: usize) -> (id: String)
    ensures
        id@ == join_colon(seq!["jellyflow-control"@, uuid_text(node_id.0), escape(control_scope@), escape(control_key@),
            decimal(index as nat)]),
{
    let parts = vec![owned("jellyflow-control"), node_id.to_text(), id_segment(control_scope), id_segment(control_key),
        usize_decimal_string(index)];
    assert(parts@.map_values(|p: String| p@) =~= seq!["jellyflow-control"@, uuid_text(node_id.0), escape(control_scope@),
        escape(control_key@), decimal(index as nat)]);
    join_parts(&parts)
}

/// The id of a node component named by one escaped key.
pub open spec fn one_key_id(prefix: Seq<char>, node_id: NodeId, key: Seq<char>) -> Seq<char> {
    join_colon(seq![prefix, uuid_text(node_id.0), escape(key)])
}

/// The id of a node component named by two escaped keys.
pub open spec fn two_key_id(prefix: Seq<char>, node_id: NodeId, a: Seq<char>, b: Seq<char>) -> Seq<char> {
    join_colon(seq![prefix, uuid_text(node_id.0), escape(a), escape(b)])
}

fn one_key(prefix: &str, node_id: NodeId, key: &str) -> (id: String)
    ensures
        id@ == one_key_id(prefix@, node_id, key@),
{
    let parts = vec![owned(prefix), node_id.to_text(), id_segment(key)];
    assert(parts@.map_values(|p: String| p@) =~= seq![prefix@, uuid_text(node_id.0), escape(key@)]);
    join_parts(&parts)
}

fn two_keys(prefix: &str, node_id: NodeId, a: &str, b: &str) -> (id: String)
    ensures
        id@ == two_key_id(prefix@, node_id, a@, b@),
{
    let parts = vec![owned(prefix), node_id.to_text(), id_segment(a), id_segment(b)];
    assert(parts@.map_values(|p: String| p@) =~= seq![prefix@, uuid_text(node_id.0), escape(a@), escape(b@)]);
    join_parts(&parts)
}

pub fn open_gpui_chrome_fallback_button_element_id(node_id: NodeId, node_kind: &str) -> (id: String)
    ensures
        id@ == one_key_id("jellyflow-chrome-run-fallback"@, node_id, node_kind@),
{
    one_key("jellyflow-chrome-run-fallback", node_id, node_kind)
}

pub fn open_gpui_slot_badge_element_id(node_id: NodeId, slot_key: &str) -> (id: String)
    ensures
        id@ == one_key_id("jellyflow-slot-badge"@, node_id, slot_key@),
{
    one_key("jellyflow-slot-badge", node_id, slot_key)
}

pub fn open_gpui_slot_status_label_element_id(node_id: NodeId, slot_key: &str) -> (id: String)
    ensures
        id@ == one_key_id("jellyflow-status-label"@, node_id, slot_key@),
{
    one_key("jellyflow-status-label", node_id, slot_key)
}

pub fn open_gpui_slot_action_label_element_id(node_id: NodeId, slot_key: &str) -> (id: String)
    ensures
        id@ == one_key_id("jellyflow-action-label"@, node_id, slot_key@),
{
    one_key("jellyflow-action-label", node_id, slot_key)
}

pub fn open_gpui_slot_preview_progress_element_id(node_id: NodeId, slot_key: &str) -> (id: String)
    ensures
        id@ == one_key_id("jellyflow-preview-progress"@, node_id, slot_key@),
{
    one_key("jellyflow-preview-progress", node_id, slot_key)
}

pub fn open_gpui_slot_value_element_id(node_id: NodeId, slot_key: &str) -> (id: String)
    ensures
        id@ == one_key_id("jellyflow-slot-value"@, node_id, slot_key@),
{
    one_key("jellyflow-slot-value", node_id, slot_key)
}

pub fn open_gpui_blackboard_item_element_id(node_id: NodeId, blackboard_key: &str, item_id: &str) -> (id: String)
    ensures
        id@ == two_key_id("jellyflow-blackboard-item"@, node_id, blackboard_key@, item_id@),
{
    two_keys("jellyflow-blackboard-item", node_id, blackboard_key, item_id)
}

pub fn open_gpui_blackboard_status_element_id(node_id: NodeId, blackboard_key: &str) -> (id: String)
    ensures
        id@ == one_key_id("jellyflow-blackboard-status"@, node_id, blackboard_key@),
{
    one_key("jellyflow-blackboard-status", node_id, blackboard_key)
}

pub fn open_gpui_repeatable_collection_element_id(node_id: NodeId, collection_key: &str) -> (id: String)
    ensures
        id@ == one_key_id("jellyflow-repeatable"@, node_id, collection_key@),
{
    one_key("jellyflow-repeatable", node_id, collection_key)
}

pub fn open_gpui_repeatable_add_action_element_id(node_id: NodeId, collection_key: &str) -> (id: String)
    ensures
        id@ == one_key_id("jellyflow-repeatable-add"@, node_id, collection_key@),
{
    one_key("jellyflow-repeatable-add", node_id, collection_key)
}

pub fn open_gpui_repeatable_item_element_id(node_id: NodeId, collection_key: &str, item_id: &str) -> (id: String)
    ensures
        id@ == two_key_id("jellyflow-repeatable-item"@, node_id, collection_key@, item_id@),
{
    two_keys("jellyflow-repeatable-item", node_id, collection_key, item_id)
}

pub fn open_gpui_repeatable_reorder_action_element_id(node_id: NodeId, collection_key: &str, item_id: &str) -> (id: String)
    ensures
        id@ == two_key_id("jellyflow-repeatable-up"@, node_id, collection_key@, item_id@),
{
    two_keys("jellyflow-repeatable-up", node_id, collection_key, item_id)
}

pub fn open_gpui_repeatable_remove_action_element_id(node_id: NodeId, collection_key: &str, item_id: &str) -> (id: String)
    ensures
        id@ == two_key_id("jellyflow-repeatable-remove"@, node_id, collection_key@, item_id@),
{
    two_keys("jellyflow-repeatable-remove", node_id, collection_key, item_id)
}

pub fn open_gpui_custom_renderer_badge_element_id(node_id: NodeId, renderer_key: &str) -> (id: String)
    ensures
        id@ == one_key_id("jellyflow-custom-renderer"@, node_id, renderer_key@),
{
    one_key("jellyflow-custom-renderer", node_id, renderer_key)
}

/// The id of a node component named by its prefix alone.
pub open spec fn node_only_id(prefix: Seq<char>, node_id: NodeId) -> Seq<char> {
    join_colon(seq![prefix, uuid_text(node_id.0)])
}

fn node_only(prefix: &str, node_id: NodeId) -> (id: String)
    ensures
        id@ == node_only_id(prefix@, node_id),
{
    let parts = vec![owned(prefix), node_id.to_text()];
    assert(parts@.map_values(|p: String| p@) =~= seq![prefix@, uuid_text(node_id.0)]);
    join_parts(&parts)
}

pub fn open_gpui_custom_action_missing_element_id(node_id: NodeId) -> (id: String)
    ensures
        id@ == node_only_id("jellyflow-custom-action-missing"@, node_id),
{
    node_only("jellyflow-custom-action-missing", node_id)
}

pub fn open_gpui_custom_slots_badge_element_id(node_id: NodeId) -> (id: String)
    ensures
        id@ == node_only_id("jellyflow-custom-slots"@, node_id),
{
    node_only("jellyflow-custom-slots", node_id)
}

pub fn open_gpui_custom_repeatables_badge_element_id(node_id: NodeId) -> (id: String)
    ensures
        id@ == node_only_id("jellyflow-custom-repeatables"@, node_id),
{
    node_only("jellyflow-custom-repeatables", node_id)
}


// ---------------------------------------------------------------------
// Why ids never collide

/// Decoding of escaped text: `%25` is `%`, `%3A` is `:`.
pub open spec fn unescape(t: Seq<char>) -> Seq<char>
    decreases t.len(),
{
    if t.len() == 0 {
        Seq::empty()
    } else if t[0] == '%' && t.len() >= 3 {
        seq![if t[1] == '2' { '%' } else { ':' }] + unescape(t.subrange(3, t.len() as int))
    } else {
        seq![t[0]] + unescape(t.subrange(1, t.len() as int))
    }
}

/// An escaped key holds no colon.
pub proof fn lemma_escape_colon_free(s: Seq<char>)
    ensures
        colon_free(escape(s)),
    decreases s.len(),
{
    if s.len() > 0 {
        lemma_escape_colon_free(s.drop_last());
    }
}

/// Escaping works character by character.
pub proof fn lemma_escape_concat(a: Seq<char>, b: Seq<char>)
    ensures
        escape(a + b) == escape(a) + escape(b),
    decreases b.len(),
{
    if b.len() == 0 {
        assert(a + b =~= a);
        assert(escape(a) + escape(b) =~= escape(a));
    } else {
        assert((a + b).drop_last() =~= a + b.drop_last());
        assert((a + b).last() == b.last());
        lemma_escape_concat(a, b.drop_last());
        assert(escape(a + b) =~= escape(a) + escape(b));
    }
}

proof fn lemma_unescape_char(c: char, rest: Seq<char>)
    ensures
        unescape(escape_char(c) + rest) == seq![c] + unescape(rest),
{
    let t = escape_char(c) + rest;
    if c == '%' {
        assert(t.subrange(3, t.len() as int) =~= rest);
    } else if c == ':' {
        assert(t.subrange(3, t.len() as int) =~= rest);
    } else {
        assert(t.subrange(1, t.len() as int) =~= rest);
    }
}

/// Decoding an escaped key gives the key back.
pub proof fn lemma_unescape_escape(s: Seq<char>)
    ensures
        unescape(escape(s)) == s,
    decreases s.len(),
{
    if s.len() == 0 {
    } else {
        let head = seq![s[0]];
        let rest = s.subrange(1, s.len() as int);
        assert(s =~= head + rest);
        lemma_escape_concat(head, rest);
        assert(head.drop_last() =~= Seq::<char>::empty());
        assert(escape(Seq::<char>::empty()) =~= Seq::<char>::empty());
        assert(escape(head) == escape(head.drop_last()) + escape_char(head.last()));
        assert(escape(head) =~= escape_char(s[0]));
        lemma_unescape_char(s[0], escape(rest));
        lemma_unescape_escape(rest);
    }
}

/// Different keys escape differently.
pub proof fn lemma_escape_injective(a: Seq<char>, b: Seq<char>)
    requires
        escape(a) == escape(b),
    ensures
        a == b,
{
    lemma_unescape_escape(a);
    lemma_unescape_escape(b);
}

/// Splitting at the last separator: with colon-free tails, the two sides agree.
pub proof fn lemma_split_last_colon(x: Seq<char>, y: Seq<char>, u: Seq<char>, v: Seq<char>)
    requires
        x + seq![':'] + y == u + seq![':'] + v,
        colon_free(y),
        colon_free(v),
    ensures
        x == u,
        y == v,
{
    let t = x + seq![':'] + y;
    let t2 = u + seq![':'] + v;
    assert(t[x.len() as int] == ':');
    assert(t2[u.len() as int] == ':');
    assert(t.len() == t2.len());
    if u.len() < x.len() {
        assert(t2[x.len() as int] == t[x.len() as int]);
        assert(t2[x.len() as int] == v[x.len() - u.len() - 1]);
    } else if x.len() < u.len() {
        assert(t[u.len() as int] == t2[u.len() as int]);
        assert(t[u.len() as int] == y[u.len() - x.len() - 1]);
    }
    assert(x.len() == u.len());
    assert forall|i: int| 0 <= i < x.len() implies x[i] == u[i] by {
        assert(t[i] == t2[i]);
    }
    assert forall|i: int| 0 <= i < y.len() implies y[i] == v[i] by {
        assert(t[x.len() + 1 + i] == t2[u.len() + 1 + i]);
    }
    assert(x =~= u);
    assert(y =~= v);
}

/// Joining colon-free parts loses nothing: equal joins of equally many
/// parts come from equal parts.
pub proof fn lemma_join_colon_injective(p: Seq<Seq<char>>, q: Seq<Seq<char>>)
    requires
        p.len() == q.len(),
        p.len() >= 1,
        forall|i: int| 0 <= i < p.len() ==> colon_free(#[trigger] p[i]),
        forall|i: int| 0 <= i < q.len() ==> colon_free(#[trigger] q[i]),
        join_colon(p) == join_colon(q),
    ensures
        p == q,
    decreases p.len(),
{
    if p.len() == 1 {
        assert(p =~= q);
    } else {
        assert(colon_free(p.last()));
        assert(colon_free(q.last()));
        lemma_split_last_colon(join_colon(p.drop_last()), p.last(), join_colon(q.drop_last()), q.last());
        assert forall|i: int| 0 <= i < p.drop_last().len() implies colon_free(#[trigger] p.drop_last()[i]) by {
            assert(colon_free(p[i]));
        }
        assert forall|i: int| 0 <= i < q.drop_last().len() implies colon_free(#[trigger] q.drop_last()[i]) by {
            assert(colon_free(q[i]));
        }
        lemma_join_colon_injective(p.drop_last(), q.drop_last());
        assert(p =~= p.drop_last().push(p.last()));
        assert(q =~= q.drop_last().push(q.last()));
    }
}

/// A hexadecimal digit is never a colon.
proof fn lemma_hex_digits_colon_free(n: nat, count: nat)
    ensures
        colon_free(hex_digits(n, count)),
    decreases count,
{
    if count > 0 {
        lemma_hex_digits_colon_free(n / 16, (count - 1) as nat);
    }
}

/// Decimal text holds no colon.
pub proof fn lemma_decimal_colon_free(n: nat)
    ensures
        colon_free(decimal(n)),
        decimal(n).len() >= 1,
        n >= 10 ==> decimal(n).len() >= 2,
    decreases n,
{
    if n >= 10 {
        lemma_decimal_colon_free(n / 10);
    }
}

/// Different numbers have different decimal text.
pub proof fn lemma_decimal_injective(n: nat, m: nat)
    requires
        decimal(n) == decimal(m),
    ensures
        n == m,
    decreases n,
{
    lemma_decimal_colon_free(n);
    lemma_decimal_colon_free(m);
    if n < 10 && m < 10 {
        assert(decimal(n) == seq![hex_digit(n as int)]);
        assert(decimal(m) == seq![hex_digit(m as int)]);
        assert(decimal(n)[0] == decimal(m)[0]);
        assert(seq![hex_digit(n as int)][0] == hex_digit(n as int));
        assert(seq![hex_digit(m as int)][0] == hex_digit(m as int));
        assert(hex_digit(n as int) == hex_digit(m as int));
    } else if n >= 10 && m >= 10 {
        let dn = hex_digit((n % 10) as int);
        let dm = hex_digit((m % 10) as int);
        assert(decimal(n) == decimal(n / 10).push(dn));
        assert(decimal(m) == decimal(m / 10).push(dm));
        assert(decimal(n / 10).push(dn).last() == dn);
        assert(decimal(m / 10).push(dm).last() == dm);
        assert(dn == dm);
        assert(n % 10 == m % 10);
        assert(decimal(n / 10) =~= decimal(n).drop_last());
        assert(decimal(m / 10) =~= decimal(m).drop_last());
        lemma_decimal_injective(n / 10, m / 10);
    }
}

/// Sixteen to the power `c`.
pub open spec fn pow16(c: nat) -> nat
    decreases c,
{
    if c == 0 { 1 } else { 16 * pow16((c - 1) as nat) }
}

/// Below `16^c`, the last `c` hexadecimal digits tell numbers apart.
proof fn lemma_hex_digits_injective(n: nat, m: nat, c: nat)
    requires
        n < pow16(c),
        m < pow16(c),
        hex_digits(n, c) == hex_digits(m, c),
    ensures
        n == m,
    decreases c,
{
    if c > 0 {
        let hn = hex_digits(n, c);
        let hm = hex_digits(m, c);
        assert(hn.last() == hm.last());
        assert(hex_digit((n % 16) as int) == hex_digit((m % 16) as int));
        assert(n % 16 == m % 16);
        assert(hn.drop_last() =~= hex_digits(n / 16, (c - 1) as nat));
        assert(hm.drop_last() =~= hex_digits(m / 16, (c - 1) as nat));
        lemma_hex_digits_injective(n / 16, m / 16, (c - 1) as nat);
    } else {
        assert(n == 0 && m == 0);
    }
}

/// Hyphens inserted before the `i`-th digit (before digits 8, 12, 16 and 20).
pub open spec fn hyphens_before(i: int) -> int {
    (if i > 8 { 1int } else { 0int }) + (if i > 12 { 1int } else { 0int }) + (if i > 16 { 1int } else { 0int })
        + (if i > 20 { 1int } else { 0int })
}

proof fn lemma_hyphenated_positions(d: Seq<char>, i: nat)
    requires
        i <= d.len(),
    ensures
        hyphenated_prefix(d, i).len() == i + hyphens_before(i as int),
        forall|k: int| 0 <= k < i ==> #[trigger] hyphenated_prefix(d, i)[k + hyphens_before(k + 1)] == d[k],
        colon_free(d) ==> colon_free(hyphenated_prefix(d, i)),
    decreases i,
{
    if i > 0 {
        let k0 = (i - 1) as nat;
        lemma_hyphenated_positions(d, k0);
        let before = hyphenated_prefix(d, k0);
        assert forall|k: int| 0 <= k < i implies #[trigger] hyphenated_prefix(d, i)[k + hyphens_before(k + 1)] == d[k] by {
            if k < k0 {
                assert(before[k + hyphens_before(k + 1)] == d[k]);
            }
        }
    }
}

/// Different UUID values have different text.
pub proof fn lemma_uuid_text_injective(a: u128, b: u128)
    requires
        uuid_text(a) == uuid_text(b),
    ensures
        a == b,
{
    let da = hex_digits(a as nat, 32);
    let db = hex_digits(b as nat, 32);
    crate::node_id::lemma_hex_digits_len(a as nat, 32);
    crate::node_id::lemma_hex_digits_len(b as nat, 32);
    lemma_hyphenated_positions(da, 32);
    lemma_hyphenated_positions(db, 32);
    assert forall|k: int| 0 <= k < 32 implies da[k] == db[k] by {
        assert(hyphenated_prefix(da, 32)[k + hyphens_before(k + 1)] == da[k]);
        assert(hyphenated_prefix(db, 32)[k + hyphens_before(k + 1)] == db[k]);
    }
    assert(da =~= db);
    assert(pow16(32) == 0x1_0000_0000_0000_0000_0000_0000_0000_0000nat) by {
        reveal_with_fuel(pow16, 33);
    }
    lemma_hex_digits_injective(a as nat, b as nat, 32);
}

/// UUID text has 36 characters and no colon.
pub proof fn lemma_uuid_text_shape(a: u128)
    ensures
        uuid_text(a).len() == 36,
        colon_free(uuid_text(a)),
{
    let da = hex_digits(a as nat, 32);
    crate::node_id::lemma_hex_digits_len(a as nat, 32);
    lemma_hex_digits_colon_free(a as nat, 32);
    lemma_hyphenated_positions(da, 32);
}

/// A node scope holds no colon, and different scopes differ.
pub proof fn lemma_scope_text(a: Option<NodeId>, b: Option<NodeId>)
    ensures
        colon_free(scope_text(a)),
        scope_text(a) == scope_text(b) ==> a == b,
{
    reveal_strlit("graph");
    match a {
        Some(n) => lemma_uuid_text_shape(n.0),
        None => {},
    }
    match b {
        Some(n) => lemma_uuid_text_shape(n.0),
        None => {},
    }
    if scope_text(a) == scope_text(b) {
        match (a, b) {
            (Some(x), Some(y)) => lemma_uuid_text_injective(x.0, y.0),
            _ => {},
        }
    }
}

/// Ids of one component kind named by one key collide only for the same node and key.
pub proof fn lemma_one_key_ids_distinct(prefix: Seq<char>, n1: NodeId, k1: Seq<char>, n2: NodeId, k2: Seq<char>)
    requires
        colon_free(prefix),
        one_key_id(prefix, n1, k1) == one_key_id(prefix, n2, k2),
    ensures
        n1 == n2,
        k1 == k2,
{
    let p = seq![prefix, uuid_text(n1.0), escape(k1)];
    let q = seq![prefix, uuid_text(n2.0), escape(k2)];
    lemma_uuid_text_shape(n1.0);
    lemma_uuid_text_shape(n2.0);
    lemma_escape_colon_free(k1);
    lemma_escape_colon_free(k2);
    lemma_join_colon_injective(p, q);
    assert(p[1] == q[1] && p[2] == q[2]);
    lemma_uuid_text_injective(n1.0, n2.0);
    lemma_escape_injective(k1, k2);
}

/// Ids of one component kind named by two keys collide only for the same node and keys.
pub proof fn lemma_two_key_ids_distinct(
    prefix: Seq<char>,
    n1: NodeId,
    a1: Seq<char>,
    b1: Seq<char>,
    n2: NodeId,
    a2: Seq<char>,
    b2: Seq<char>,
)
    requires
        colon_free(prefix),
        two_key_id(prefix, n1, a1, b1) == two_key_id(prefix, n2, a2, b2),
    ensures
        n1 == n2,
        a1 == a2,
        b1 == b2,
{
    let p = seq![prefix, uuid_text(n1.0), escape(a1), escape(b1)];
    let q = seq![prefix, uuid_text(n2.0), escape(a2), escape(b2)];
    lemma_uuid_text_shape(n1.0);
    lemma_uuid_text_shape(n2.0);
    lemma_escape_colon_free(a1);
    lemma_escape_colon_free(a2);
    lemma_escape_colon_free(b1);
    lemma_escape_colon_free(b2);
    lemma_join_colon_injective(p, q);
    assert(p[1] == q[1] && p[2] == q[2] && p[3] == q[3]);
    lemma_uuid_text_injective(n1.0, n2.0);
    lemma_escape_injective(a1, a2);
    lemma_escape_injective(b1, b2);
}

/// Two control element ids are equal only for the same node, scope, key and index.
pub proof fn lemma_control_element_ids_distinct(
    n1: NodeId, s1: Seq<char>, k1: Seq<char>, i1: usize,
    n2: NodeId, s2: Seq<char>, k2: Seq<char>, i2: usize,
)
    requires
        join_colon(seq!["jellyflow-control"@, uuid_text(n1.0), escape(s1), escape(k1), decimal(i1 as nat)])
            == join_colon(seq!["jellyflow-control"@, uuid_text(n2.0), escape(s2), escape(k2), decimal(i2 as nat)]),
    ensures
        n1 == n2,
        s1 == s2,
        k1 == k2,
        i1 == i2,
{
    reveal_strlit("jellyflow-control");
    let p = seq!["jellyflow-control"@, uuid_text(n1.0), escape(s1), escape(k1), decimal(i1 as nat)];
    let q = seq!["jellyflow-control"@, uuid_text(n2.0), escape(s2), escape(k2), decimal(i2 as nat)];
    lemma_uuid_text_shape(n1.0);
    lemma_uuid_text_shape(n2.0);
    lemma_escape_colon_free(s1);
    lemma_escape_colon_free(s2);
    lemma_escape_colon_free(k1);
    lemma_escape_colon_free(k2);
    lemma_decimal_colon_free(i1 as nat);
    lemma_decimal_colon_free(i2 as nat);
    assert(colon_free("jellyflow-control"@));
    lemma_join_colon_injective(p, q);
    assert(p[1] == q[1] && p[2] == q[2] && p[3] == q[3] && p[4] == q[4]);
    lemma_uuid_text_injective(n1.0, n2.0);
    lemma_escape_injective(s1, s2);
    lemma_escape_injective(k1, k2);
    lemma_decimal_injective(i1 as nat, i2 as nat);
}

/// Two action button ids are equal only for the same scope, menu, action and index.
pub proof fn lemma_action_button_ids_distinct(
    n1: Option<NodeId>, m1: Seq<char>, a1: Seq<char>, i1: usize,
    n2: Option<NodeId>, m2: Seq<char>, a2: Seq<char>, i2: usize,
)
    requires
        join_colon(seq!["jellyflow-action-button"@, scope_text(n1), escape(m1), escape(a1), decimal(i1 as nat)])
            == join_colon(seq!["jellyflow-action-button"@, scope_text(n2), escape(m2), escape(a2), decimal(i2 as nat)]),
    ensures
        n1 == n2,
        m1 == m2,
        a1 == a2,
        i1 == i2,
{
    reveal_strlit("jellyflow-action-button");
    let p = seq!["jellyflow-action-button"@, scope_text(n1), escape(m1), escape(a1), decimal(i1 as nat)];
    let q = seq!["jellyflow-action-button"@, scope_text(n2), escape(m2), escape(a2), decimal(i2 as nat)];
    lemma_scope_text(n1, n2);
    lemma_scope_text(n2, n1);
    lemma_escape_colon_free(m1);
    lemma_escape_colon_free(m2);
    lemma_escape_colon_free(a1);
    lemma_escape_colon_free(a2);
    lemma_decimal_colon_free(i1 as nat);
    lemma_decimal_colon_free(i2 as nat);
    assert(colon_free("jellyflow-action-button"@));
    lemma_join_colon_injective(p, q);
    assert(p[1] == q[1] && p[2] == q[2] && p[3] == q[3] && p[4] == q[4]);
    lemma_escape_injective(m1, m2);
    lemma_escape_injective(a1, a2);
    lemma_decimal_injective(i1 as nat, i2 as nat);
}

/// Repeatable item ids collide only for the same node, collection and item.
pub proof fn lemma_repeatable_item_ids_distinct(
    n1: NodeId, c1: Seq<char>, i1: Seq<char>,
    n2: NodeId, c2: Seq<char>, i2: Seq<char>,
)
    requires
        two_key_id("jellyflow-repeatable-item"@, n1, c1, i1) == two_key_id("jellyflow-repeatable-item"@, n2, c2, i2),
    ensures
        n1 == n2,
        c1 == c2,
        i1 == i2,
{
    reveal_strlit("jellyflow-repeatable-item");
    assert(colon_free("jellyflow-repeatable-item"@));
    lemma_two_key_ids_distinct("jellyflow-repeatable-item"@, n1, c1, i1, n2, c2, i2);
}

} // verus!
