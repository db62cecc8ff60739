//! Content equality of JSON values, and copies that keep it.
//!
//! Two values are the same when they are the same kind and hold the same
//! texts, flags and children. Objects compare as maps, as `serde_json`'s
//! do: the same keys, each with the same content, in any order (a key's
//! content is that of its first member).

use vstd::prelude::*;
use crate::json_binding::{
    JsonMember, JsonValue, dot_step, find_member, is_first_member, lemma_first_member_exists,
    lemma_first_member_unique, lookup_segments, member_index, spec_scalar_text,
};
use crate::text::str_eq;

verus! {

broadcast use {vstd::std_specs::vec::axiom_vec_decreases_to_view, vstd::std_specs::vec::axiom_vec_index_decreases};

/// `a` and `b` hold the same content.
pub open spec fn json_same(a: JsonValue, b: JsonValue) -> bool
    decreases a,
{
    match (a, b) {
        (JsonValue::Null, JsonValue::Null) => true,
        (JsonValue::Bool(x), JsonValue::Bool(y)) => x == y,
        (JsonValue::Number(x), JsonValue::Number(y)) => x@ == y@,
        (JsonValue::String(x), JsonValue::String(y)) => x@ == y@,
        (JsonValue::Array(xs), JsonValue::Array(ys)) => {
            &&& xs@.len() == ys@.len()
            &&& forall|i: int| 0 <= i < xs@.len() ==> json_same(#[trigger] xs@[i], ys@[i])
        },
        (JsonValue::Object(ms), JsonValue::Object(ns)) => {
            &&& forall|i: int| 0 <= i < ms@.len() && is_first_member(ms@, (#[trigger] ms@[i]).key@, i)
                ==> member_index(ns@, ms@[i].key@) is Some
                && json_same(ms@[i].value, ns@[member_index(ns@, ms@[i].key@)->0].value)
            &&& forall|j: int| 0 <= j < ns@.len() ==> member_index(ms@, (#[trigger] ns@[j]).key@) is Some
        },
        _ => false,
    }
}

/// The first member with a key is found at its position.
pub proof fn lemma_member_index_of_first(ms: Seq<JsonMember>, i: int)
    requires
        0 <= i < ms.len(),
        is_first_member(ms, ms[i].key@, i),
    ensures
        member_index(ms, ms[i].key@) == Some(i),
{
    let k = choose|k: int| is_first_member(ms, ms[i].key@, k);
    lemma_first_member_unique(ms, ms[i].key@, i, k);
}

/// A key that some member holds is found.
pub proof fn lemma_member_index_found(ms: Seq<JsonMember>, j: int)
    requires
        0 <= j < ms.len(),
    ensures
        member_index(ms, ms[j].key@) is Some,
        is_first_member(ms, ms[j].key@, member_index(ms, ms[j].key@)->0),
{
    lemma_first_member_exists(ms, ms[j].key@, j);
}

/// Objects whose members have the same keys in order, with the same
/// content member by member, hold the same content.
pub proof fn lemma_same_in_order(ms: Seq<JsonMember>, ns: Seq<JsonMember>, a: JsonValue, b: JsonValue)
    requires
        a == JsonValue::Object(a->Object_0),
        b == JsonValue::Object(b->Object_0),
        a->Object_0@ == ms,
        b->Object_0@ == ns,
        ms.len() == ns.len(),
        forall|i: int| 0 <= i < ms.len() ==> (#[trigger] ms[i]).key@ == ns[i].key@ && json_same(ms[i].value, ns[i].value),
    ensures
        json_same(a, b),
{
    assert forall|i: int| 0 <= i < ms.len() && is_first_member(ms, (#[trigger] ms[i]).key@, i)
        implies member_index(ns, ms[i].key@) is Some && json_same(ms[i].value, ns[member_index(ns, ms[i].key@)->0].value) by {
        lemma_member_index_congruent(ms, ns, ms[i].key@);
        lemma_member_index_of_first(ms, i);
    }
    assert forall|j: int| 0 <= j < ns.len() implies member_index(ms, (#[trigger] ns[j]).key@) is Some by {
        lemma_member_index_congruent(ms, ns, ns[j].key@);
        lemma_member_index_found(ns, j);
    }
}


/// Every value holds the same content as itself.
pub proof fn lemma_json_same_reflexive(a: JsonValue)
    ensures
        json_same(a, a),
    decreases a,
{
    match a {
        JsonValue::Array(xs) => {
            assert forall|i: int| 0 <= i < xs@.len() implies json_same(#[trigger] xs@[i], xs@[i]) by {
                assert(decreases_to!(a => a->Array_0));
                lemma_json_same_reflexive(xs@[i]);
            }
        },
        JsonValue::Object(ms) => {
            assert forall|i: int| 0 <= i < ms@.len() && is_first_member(ms@, (#[trigger] ms@[i]).key@, i)
                implies member_index(ms@, ms@[i].key@) is Some
                && json_same(ms@[i].value, ms@[member_index(ms@, ms@[i].key@)->0].value) by {
                assert(decreases_to!(a => a->Object_0));
                assert(decreases_to!(ms@[i] => ms@[i].value));
                lemma_member_index_of_first(ms@, i);
                lemma_json_same_reflexive(ms@[i].value);
            }
            assert forall|j: int| 0 <= j < ms@.len() implies member_index(ms@, (#[trigger] ms@[j]).key@) is Some by {
                lemma_member_index_found(ms@, j);
            }
        },
        _ => {},
    }
}

/// Holding the same content is symmetric.
pub proof fn lemma_json_same_symmetric(a: JsonValue, b: JsonValue)
    requires
        json_same(a, b),
    ensures
        json_same(b, a),
    decreases a,
{
    match (a, b) {
        (JsonValue::Array(xs), JsonValue::Array(ys)) => {
            assert forall|i: int| 0 <= i < ys@.len() implies json_same(#[trigger] ys@[i], xs@[i]) by {
                assert(decreases_to!(a => a->Array_0));
                assert(json_same(xs@[i], ys@[i]));
                lemma_json_same_symmetric(xs@[i], ys@[i]);
            }
        },
        (JsonValue::Object(ms), JsonValue::Object(ns)) => {
            assert forall|j: int| 0 <= j < ns@.len() && is_first_member(ns@, (#[trigger] ns@[j]).key@, j)
                implies member_index(ms@, ns@[j].key@) is Some
                && json_same(ns@[j].value, ms@[member_index(ms@, ns@[j].key@)->0].value) by {
                let k = ns@[j].key@;
                assert(member_index(ms@, k) is Some);
                lemma_member_index_found(ns@, j);
                let i = member_index(ms@, k)->0;
                assert(is_first_member(ms@, k, i));
                assert(ms@[i].key@ == k);
                lemma_member_index_of_first(ms@, i);
                lemma_member_index_of_first(ns@, j);
                assert(is_first_member(ms@, ms@[i].key@, i));
                assert(json_same(ms@[i].value, ns@[member_index(ns@, ms@[i].key@)->0].value));
                assert(decreases_to!(a => a->Object_0));
                assert(decreases_to!(ms@[i] => ms@[i].value));
                lemma_json_same_symmetric(ms@[i].value, ns@[j].value);
            }
            assert forall|i: int| 0 <= i < ms@.len() implies member_index(ns@, (#[trigger] ms@[i]).key@) is Some by {
                lemma_member_index_found(ms@, i);
                let f = member_index(ms@, ms@[i].key@)->0;
                assert(is_first_member(ms@, ms@[f].key@, f));
            }
        },
        _ => {},
    }
}

/// Holding the same content is transitive.
pub proof fn lemma_json_same_transitive(a: JsonValue, b: JsonValue, c: JsonValue)
    requires
        json_same(a, b),
        json_same(b, c),
    ensures
        json_same(a, c),
    decreases a,
{
    match (a, b, c) {
        (JsonValue::Array(xs), JsonValue::Array(ys), JsonValue::Array(zs)) => {
            assert forall|i: int| 0 <= i < xs@.len() implies json_same(#[trigger] xs@[i], zs@[i]) by {
                assert(decreases_to!(a => a->Array_0));
                assert(json_same(xs@[i], ys@[i]));
                assert(json_same(ys@[i], zs@[i]));
                lemma_json_same_transitive(xs@[i], ys@[i], zs@[i]);
            }
        },
        (JsonValue::Object(ms), JsonValue::Object(ns), JsonValue::Object(ps)) => {
            assert forall|i: int| 0 <= i < ms@.len() && is_first_member(ms@, (#[trigger] ms@[i]).key@, i)
                implies member_index(ps@, ms@[i].key@) is Some
                && json_same(ms@[i].value, ps@[member_index(ps@, ms@[i].key@)->0].value) by {
                let k = ms@[i].key@;
                let j = member_index(ns@, k)->0;
                assert(json_same(ms@[i].value, ns@[j].value));
                assert(is_first_member(ns@, k, j));
                assert(ns@[j].key@ == k);
                lemma_member_index_of_first(ns@, j);
                assert(is_first_member(ns@, ns@[j].key@, j));
                assert(member_index(ps@, k) is Some);
                let l = member_index(ps@, k)->0;
                assert(json_same(ns@[j].value, ps@[l].value));
                assert(decreases_to!(a => a->Object_0));
                assert(decreases_to!(ms@[i] => ms@[i].value));
                lemma_json_same_transitive(ms@[i].value, ns@[j].value, ps@[l].value);
            }
            assert forall|l: int| 0 <= l < ps@.len() implies member_index(ms@, (#[trigger] ps@[l]).key@) is Some by {
                assert(member_index(ns@, ps@[l].key@) is Some);
                let j = member_index(ns@, ps@[l].key@)->0;
                assert(is_first_member(ns@, ps@[l].key@, j));
                assert(ns@[j].key@ == ps@[l].key@);
                assert(member_index(ms@, ns@[j].key@) is Some);
            }
        },
        _ => {},
    }
}

/// Both are absent, or both are present with the same content.
pub open spec fn opt_same(a: Option<JsonValue>, b: Option<JsonValue>) -> bool {
    match (a, b) {
        (None, None) => true,
        (Some(x), Some(y)) => json_same(x, y),
        _ => false,
    }
}

/// Members with the same keys in order are found at the same position.
proof fn lemma_member_index_congruent(ms: Seq<JsonMember>, ns: Seq<JsonMember>, key: Seq<char>)
    requires
        ms.len() == ns.len(),
        forall|i: int| 0 <= i < ms.len() ==> (#[trigger] ms[i]).key@ == ns[i].key@,
    ensures
        member_index(ms, key) == member_index(ns, key),
{
    if exists|i: int| is_first_member(ms, key, i) {
        let i = choose|i: int| is_first_member(ms, key, i);
        assert forall|j: int| 0 <= j < i implies #[trigger] ns[j].key@ != key by {
            assert(ms[j].key@ == ns[j].key@);
        }
        assert(is_first_member(ns, key, i));
        let k = choose|k: int| is_first_member(ns, key, k);
        if k < i {
            assert(ms[k].key@ == ns[k].key@);
        } else if i < k {
            assert(ns[i].key@ == key);
        }
    } else {
        if exists|i: int| is_first_member(ns, key, i) {
            let i = choose|i: int| is_first_member(ns, key, i);
            assert forall|j: int| 0 <= j < i implies #[trigger] ms[j].key@ != key by {
                assert(ms[j].key@ == ns[j].key@);
            }
            assert(is_first_member(ms, key, i));
        }
    }
}

/// A dot path finds values with the same content in values with the same
/// content.
pub proof fn lemma_lookup_congruent(a: JsonValue, b: JsonValue, segments: Seq<Seq<char>>)
    requires
        json_same(a, b),
    ensures
        opt_same(lookup_segments(a, segments), lookup_segments(b, segments)),
    decreases segments.len(),
{
    if segments.len() > 0 {
        let rest = segments.subrange(1, segments.len() as int);
        match (a, b) {
            (JsonValue::Object(ms), JsonValue::Object(ns)) => {
                let k = segments[0];
                match member_index(ms@, k) {
                    Some(i) => {
                        assert(is_first_member(ms@, k, i));
                        assert(is_first_member(ms@, ms@[i].key@, i));
                        let j = member_index(ns@, k)->0;
                        assert(json_same(ms@[i].value, ns@[j].value));
                        lemma_lookup_congruent(ms@[i].value, ns@[j].value, rest);
                    },
                    None => {
                        if member_index(ns@, k) is Some {
                            let j = member_index(ns@, k)->0;
                            assert(is_first_member(ns@, k, j));
                            assert(member_index(ms@, ns@[j].key@) is Some);
                        }
                    },
                }
            },
            (JsonValue::Array(xs), JsonValue::Array(ys)) => {
                match dot_step(a, segments[0]) {
                    Some(next) => {
                        let n = crate::json_binding::parse_index(segments[0])->0;
                        assert(json_same(xs@[n as int], ys@[n as int]));
                        lemma_lookup_congruent(xs@[n as int], ys@[n as int], rest);
                    },
                    None => {},
                }
            },
            _ => {},
        }
    } else {
    }
}

/// Values with the same content have the same scalar text.
pub proof fn lemma_scalar_text_congruent(a: JsonValue, b: JsonValue)
    requires
        json_same(a, b),
    ensures
        spec_scalar_text(a) == spec_scalar_text(b),
{
}

/// A copy of `v` with the same content.
pub fn copy_json(v: &JsonValue) -> (c: JsonValue)
    ensures
        json_same(c, *v),
    decreases *v,
{
    match v {
        JsonValue::Null => JsonValue::Null,
        JsonValue::Bool(b) => JsonValue::Bool(*b),
        JsonValue::Number(s) => JsonValue::Number(s.clone()),
        JsonValue::String(s) => JsonValue::String(s.clone()),
        JsonValue::Array(items) => {
            let mut out: Vec<JsonValue> = Vec::new();
            let mut i: usize = 0;
            while i < items.len()
                invariant
                    *v == JsonValue::Array(*items),
                    i <= items@.len(),
                    out@.len() == i,
                    forall|j: int| 0 <= j < i ==> json_same(#[trigger] out@[j], items@[j]),
                decreases items.len() - i,
            {
                proof {
                    assert(decreases_to!(*v => v->Array_0));
                }
                let c = copy_json(&items[i]);
                out.push(c);
                i = i + 1;
            }
            JsonValue::Array(out)
        },
        JsonValue::Object(members) => {
            let mut out: Vec<JsonMember> = Vec::new();
            let mut i: usize = 0;
            while i < members.len()
                invariant
                    *v == JsonValue::Object(*members),
                    i <= members@.len(),
                    out@.len() == i,
                    forall|j: int| 0 <= j < i ==> (#[trigger] out@[j]).key@ == members@[j].key@
                        && json_same(out@[j].value, members@[j].value),
                decreases members.len() - i,
            {
                proof {
                    assert(decreases_to!(*v => v->Object_0));
                    assert(decreases_to!(members[i as int] => members[i as int].value));
                }
                let value = copy_json(&members[i].value);
                out.push(JsonMember { key: members[i].key.clone(), value });
                i = i + 1;
            }
            let c = JsonValue::Object(out);
            proof {
                lemma_same_in_order(c->Object_0@, members@, c, *v);
            }
            c
        },
    }
}


/// Whether `a` and `b` hold the same content.
pub fn json_equal(a: &JsonValue, b: &JsonValue) -> (eq: bool)
    ensures
        eq == json_same(*a, *b),
    decreases *a,
{
    match (a, b) {
        (JsonValue::Null, JsonValue::Null) => true,
        (JsonValue::Bool(x), JsonValue::Bool(y)) => *x == *y,
        (JsonValue::Number(x), JsonValue::Number(y)) => str_eq(x.as_str(), y.as_str()),
        (JsonValue::String(x), JsonValue::String(y)) => str_eq(x.as_str(), y.as_str()),
        (JsonValue::Array(xs), JsonValue::Array(ys)) => {
            if xs.len() != ys.len() {
                return false;
            }
            let mut i: usize = 0;
            while i < xs.len()
                invariant
                    *a == JsonValue::Array(*xs),
                    *b == JsonValue::Array(*ys),
                    xs@.len() == ys@.len(),
                    i <= xs@.len(),
                    forall|j: int| 0 <= j < i ==> json_same(#[trigger] xs@[j], ys@[j]),
                decreases xs.len() - i,
            {
                proof {
                    assert(decreases_to!(*a => a->Array_0));
                }
                if !json_equal(&xs[i], &ys[i]) {
                    return false;
                }
                i = i + 1;
            }
            true
        },
        (JsonValue::Object(ms), JsonValue::Object(ns)) => {
            let mut i: usize = 0;
            while i < ms.len()
                invariant
                    *a == JsonValue::Object(*ms),
                    *b == JsonValue::Object(*ns),
                    i <= ms@.len(),
                    forall|t: int| 0 <= t < i && is_first_member(ms@, (#[trigger] ms@[t]).key@, t)
                        ==> member_index(ns@, ms@[t].key@) is Some
                        && json_same(ms@[t].value, ns@[member_index(ns@, ms@[t].key@)->0].value),
                decreases ms.len() - i,
            {
                proof {
                    assert(decreases_to!(*a => a->Object_0));
                    assert(decreases_to!(ms[i as int] => ms[i as int].value));
                }
                let first = match find_member(ms, ms[i].key.as_str()) {
                    Some(f) => f == i,
                    None => false,
                };
                proof {
                    lemma_member_index_found(ms@, i as int);
                    if is_first_member(ms@, ms@[i as int].key@, i as int) {
                        lemma_member_index_of_first(ms@, i as int);
                    }
                }
                if first {
                    match find_member(ns, ms[i].key.as_str()) {
                        Some(j) => {
                            if !json_equal(&ms[i].value, &ns[j].value) {
                                return false;
                            }
                        },
                        None => {
                            return false;
                        },
                    }
                }
                i = i + 1;
            }
            let mut j: usize = 0;
            while j < ns.len()
                invariant
                    *a == JsonValue::Object(*ms),
                    *b == JsonValue::Object(*ns),
                    j <= ns@.len(),
                    forall|t: int| 0 <= t < j ==> member_index(ms@, (#[trigger] ns@[t]).key@) is Some,
                decreases ns.len() - j,
            {
                if find_member(ms, ns[j].key.as_str()).is_none() {
                    return false;
                }
                j = j + 1;
            }
            true
        },
        _ => false,
    }
}

} // verus!
