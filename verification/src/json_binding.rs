//! Node data as JSON values, and the semantic paths that control bindings
//! read and write.
//!
//! A dot path names nested members and array positions (`items.0.name`);
//! empty segments are skipped. A JSON pointer (`/a~1b/~0key`) names them
//! with `/`-separated tokens in which `~1` stands for `/` and `~0` for `~`.

use vstd::prelude::*;
use crate::ordering::{compare_text, text_order};
use crate::text::{owned, push_char, push_str, str_eq};

verus! {

/// A JSON value. Numbers are held as the text JSON writes for them. An
/// object's members keep their order; a new key goes before the first key
/// that sorts after it, so members in key order, as `serde_json`'s maps
/// hold them, stay in key order.
#[derive(Debug, PartialEq, Eq)]
pub enum JsonValue {
    Null,
    Bool(bool),
    Number(String),
    String(String),
    Array(Vec<JsonValue>),
    Object(Vec<JsonMember>),
}

/// One member of a JSON object.
#[derive(Debug, PartialEq, Eq)]
pub struct JsonMember {
    pub key: String,
    pub value: JsonValue,
}

// ---------------------------------------------------------------------
// Paths

/// The characters are all decimal digits, and there is at least one.
pub open spec fn all_digits(s: Seq<char>) -> bool {
    s.len() > 0 && forall|i: int| 0 <= i < s.len() ==> '0' <= #[trigger] s[i] && s[i] <= '9'
}

/// The value of a string of decimal digits.
pub open spec fn digits_value(s: Seq<char>) -> nat
    decreases s.len(),
{
    if s.len() == 0 {
        0
    } else {
        10 * digits_value(s.drop_last()) + ((s.last() as u32) - ('0' as u32)) as nat
    }
}

/// A path segment read as an array index, as `usize::from_str` reads it:
/// an optional `+`, then decimal digits whose value fits in a `usize`.
pub open spec fn parse_index(s: Seq<char>) -> Option<nat> {
    let digits = if s.len() > 0 && s[0] == '+' { s.subrange(1, s.len() as int) } else { s };
    if all_digits(digits) && digits_value(digits) <= usize::MAX {
        Some(digits_value(digits))
    } else {
        None
    }
}

proof fn lemma_digits_value_grows(s: Seq<char>, k: int)
    requires
        all_digits(s),
        0 <= k <= s.len(),
    ensures
        digits_value(s.subrange(0, k)) <= digits_value(s),
    decreases s.len() - k,
{
    if k < s.len() {
        lemma_digits_value_grows(s, k + 1);
        let p = s.subrange(0, k + 1);
        assert(p.drop_last() =~= s.subrange(0, k));
        assert('0' <= p.last() && p.last() <= '9');
    } else {
        assert(s.subrange(0, k) =~= s);
    }
}

/// A path segment read as an array index.
fn parse_index_segment(s: &str) -> (r: Option<usize>)
    ensures
        r is Some ==> parse_index(s@) == Some(r->0 as nat),
        r is None ==> parse_index(s@) is None,
{
    let n = s.unicode_len();
    let mut start: usize = 0;
    if n > 0 && s.get_char(0) == '+' {
        start = 1;
    }
    let ghost digits = if s@.len() > 0 && s@[0] == '+' { s@.subrange(1, s@.len() as int) } else { s@ };
    assert(digits =~= s@.subrange(start as int, n as int));
    if start == n {
        return None;
    }
    let mut value: usize = 0;
    let mut i: usize = start;
    proof {
        assert(digits.subrange(0, 0) =~= Seq::<char>::empty());
    }
    while i < n
        invariant
            n == s@.len(),
            start <= i <= n,
            start < n,
            digits =~= s@.subrange(start as int, n as int),
            digits == (if s@.len() > 0 && s@[0] == '+' { s@.subrange(1, s@.len() as int) } else { s@ }),
            forall|j: int| start <= j < i ==> '0' <= #[trigger] s@[j] && s@[j] <= '9',
            value == digits_value(digits.subrange(0, i - start)),
        decreases n - i,
    {
        let c = s.get_char(i);
        if c < '0' || c > '9' {
            proof {
                assert(digits[i - start] == c);
                assert(!all_digits(digits));
            }
            return None;
        }
        let d = (c as u32 - '0' as u32) as usize;
        let ghost prefix = digits.subrange(0, i + 1 - start);
        proof {
            assert(prefix.drop_last() =~= digits.subrange(0, i - start));
            assert(prefix.last() == c);
        }
        if value > (usize::MAX - d) / 10 {
            proof {
                assert(digits_value(prefix) > usize::MAX);
                if all_digits(digits) {
                    lemma_digits_value_grows(digits, i + 1 - start);
                }
            }
            return None;
        }
        value = value * 10 + d;
        i = i + 1;
    }
    proof {
        assert(digits.subrange(0, n - start) =~= digits);
        assert forall|j: int| 0 <= j < digits.len() implies '0' <= #[trigger] digits[j] && digits[j] <= '9' by {
            assert(digits[j] == s@[start + j]);
        }
    }
    Some(value)
}

/// Segments collected so far and the segment being read, after the first
/// characters of a dot path.
pub open spec fn dot_scan(s: Seq<char>) -> (Seq<Seq<char>>, Seq<char>)
    decreases s.len(),
{
    if s.len() == 0 {
        (Seq::empty(), Seq::empty())
    } else {
        let (done, current) = dot_scan(s.drop_last());
        if s.last() == '.' {
            (if current.len() > 0 { done.push(current) } else { done }, Seq::empty())
        } else {
            (done, current.push(s.last()))
        }
    }
}

/// The segments of a dot path: the maximal runs of characters other than
/// `.`, in order, leaving out empty ones.
pub open spec fn dot_segments(s: Seq<char>) -> Seq<Seq<char>> {
    let (done, current) = dot_scan(s);
    if current.len() > 0 { done.push(current) } else { done }
}

/// The texts of a vector of strings.
pub open spec fn texts(v: Seq<String>) -> Seq<Seq<char>> {
    v.map_values(|s: String| s@)
}

/// The segments of a dot path.
pub fn dot_path_segments(path: &str) -> (segments: Vec<String>)
    ensures
        texts(segments@) == dot_segments(path@),
{
    let n = path.unicode_len();
    let mut done: Vec<String> = Vec::new();
    let mut current = String::new();
    let mut i: usize = 0;
    proof {
        assert(path@.subrange(0, 0) =~= Seq::<char>::empty());
        assert(texts(done@) =~= Seq::<Seq<char>>::empty());
    }
    while i < n
        invariant
            n == path@.len(),
            i <= n,
            (texts(done@), current@) == dot_scan(path@.subrange(0, i as int)),
        decreases n - i,
    {
        let c = path.get_char(i);
        proof {
            let p = path@.subrange(0, i + 1);
            assert(p.drop_last() =~= path@.subrange(0, i as int));
            assert(p.last() == c);
        }
        if c == '.' {
            if current.unicode_len() > 0 {
                let ghost before = texts(done@);
                let mut finished = String::new();
                std::mem::swap(&mut finished, &mut current);
                done.push(finished);
                proof {
                    assert(texts(done@) =~= before.push(finished@));
                }
            } else {
                current = String::new();
            }
        } else {
            push_char(&mut current, c);
        }
        i = i + 1;
    }
    assert(path@.subrange(0, n as int) =~= path@);
    if current.unicode_len() > 0 {
        let ghost before = texts(done@);
        let cur = current;
        done.push(cur);
        proof {
            assert(texts(done@) =~= before.push(cur@));
        }
    }
    done
}

// ---------------------------------------------------------------------
// Reading

/// `i` is the first member with `key`.
pub open spec fn is_first_member(members: Seq<JsonMember>, key: Seq<char>, i: int) -> bool {
    &&& 0 <= i < members.len()
    &&& members[i].key@ == key
    &&& forall|j: int| 0 <= j < i ==> #[trigger] members[j].key@ != key
}

/// The position of the first member with `key`, if any.
pub open spec fn member_index(members: Seq<JsonMember>, key: Seq<char>) -> Option<int> {
    if exists|i: int| is_first_member(members, key, i) {
        Some(choose|i: int| is_first_member(members, key, i))
    } else {
        None
    }
}

pub(crate) proof fn lemma_first_member_unique(members: Seq<JsonMember>, key: Seq<char>, i: int, j: int)
    requires
        is_first_member(members, key, i),
        is_first_member(members, key, j),
    ensures
        i == j,
{
    if i < j {
        assert(members[i].key@ != key);
    } else if j < i {
        assert(members[j].key@ != key);
    }
}

pub(crate) fn find_member(members: &Vec<JsonMember>, key: &str) -> (r: Option<usize>)
    ensures
        match r {
            Some(i) => member_index(members@, key@) == Some(i as int),
            None => member_index(members@, key@) is None,
        },
{
    let mut i: usize = 0;
    while i < members.len()
        invariant
            i <= members@.len(),
            forall|j: int| 0 <= j < i ==> #[trigger] members@[j].key@ != key@,
        decreases members.len() - i,
    {
        if str_eq(members[i].key.as_str(), key) {
            proof {
                assert(is_first_member(members@, key@, i as int));
                let k = choose|k: int| is_first_member(members@, key@, k);
                lemma_first_member_unique(members@, key@, k, i as int);
            }
            return Some(i);
        }
        i = i + 1;
    }
    proof {
        if exists|k: int| is_first_member(members@, key@, k) {
            let k = choose|k: int| is_first_member(members@, key@, k);
            assert(members@[k].key@ != key@);
        }
    }
    None
}

/// One step down a dot path: a member of an object, or a position of an
/// array named by an index segment.
pub open spec fn dot_step(v: JsonValue, segment: Seq<char>) -> Option<JsonValue> {
    match v {
        JsonValue::Object(members) => match member_index(members@, segment) {
            Some(i) => Some(members@[i].value),
            None => None,
        },
        JsonValue::Array(items) => match parse_index(segment) {
            Some(n) => if n < items@.len() { Some(items@[n as int]) } else { None },
            None => None,
        },
        _ => None,
    }
}

/// The value that the segments lead to from `v`.
pub open spec fn lookup_segments(v: JsonValue, segments: Seq<Seq<char>>) -> Option<JsonValue>
    decreases segments.len(),
{
    if segments.len() == 0 {
        Some(v)
    } else {
        match dot_step(v, segments[0]) {
            Some(next) => lookup_segments(next, segments.subrange(1, segments.len() as int)),
            None => None,
        }
    }
}

/// Follows a dot path from `value`.
pub fn semantic_json_lookup<'a>(value: &'a JsonValue, path: &str) -> (found: Option<&'a JsonValue>)
    ensures
        match found {
            Some(v) => lookup_segments(*value, dot_segments(path@)) == Some(*v),
            None => lookup_segments(*value, dot_segments(path@)) is None,
        },
{
    let segments = dot_path_segments(path);
    assert(texts(segments@).subrange(0, segments@.len() as int) =~= texts(segments@));
    lookup_from(value, &segments, 0)
}

fn lookup_from<'a>(value: &'a JsonValue, segments: &Vec<String>, i: usize) -> (found: Option<&'a JsonValue>)
    requires
        i <= segments@.len(),
    ensures
        match found {
            Some(v) => lookup_segments(*value, texts(segments@).subrange(i as int, segments@.len() as int)) == Some(*v),
            None => lookup_segments(*value, texts(segments@).subrange(i as int, segments@.len() as int)) is None,
        },
    decreases segments@.len() - i,
{
    let ghost rest = texts(segments@).subrange(i as int, segments@.len() as int);
    if i == segments.len() {
        return Some(value);
    }
    proof {
        assert(rest[0] == segments@[i as int]@);
        assert(rest.subrange(1, rest.len() as int) =~= texts(segments@).subrange(i + 1, segments@.len() as int));
    }
    let segment = segments[i].as_str();
    match value {
        JsonValue::Object(members) => match find_member(members, segment) {
            Some(k) => lookup_from(&members[k].value, segments, i + 1),
            None => None,
        },
        JsonValue::Array(items) => match parse_index_segment(segment) {
            Some(n) => if n < items.len() {
                lookup_from(&items[n], segments, i + 1)
            } else {
                None
            },
            None => None,
        },
        _ => None,
    }
}


// ---------------------------------------------------------------------
// Writing

/// The message for a path segment that cannot index an array.
pub open spec fn not_an_index_message(segment: Seq<char>) -> Seq<char> {
    "array path segment `"@ + segment + "` is not an index"@
}

/// The message for an index past the end of an array.
pub open spec fn out_of_bounds_message(index: nat) -> Seq<char> {
    "array index `"@ + crate::text::decimal(index) + "` is out of bounds"@
}

/// The message for a scalar met on the way: setting at its last segment,
/// traversing before.
pub open spec fn scalar_message(segment: Seq<char>, last: bool) -> Seq<char> {
    if last {
        "cannot set path segment `"@ + segment + "` on scalar value"@
    } else {
        "cannot traverse path segment `"@ + segment + "` on scalar value"@
    }
}

/// The error that writing along `segments` into `v` meets, if any.
///
/// Objects always take the write (a missing member is created), and so does
/// `null` (it becomes an object); an array needs an index segment within its
/// bounds; any other value refuses it.
pub open spec fn set_error(v: JsonValue, segments: Seq<Seq<char>>) -> Option<Seq<char>>
    decreases segments.len(),
{
    if segments.len() == 0 {
        None
    } else {
        let segment = segments[0];
        let rest = segments.subrange(1, segments.len() as int);
        match v {
            JsonValue::Object(members) => match member_index(members@, segment) {
                Some(i) => if rest.len() == 0 { None } else { set_error(members@[i].value, rest) },
                None => None,
            },
            JsonValue::Array(items) => match parse_index(segment) {
                None => Some(not_an_index_message(segment)),
                Some(n) => if n >= items@.len() {
                    Some(out_of_bounds_message(n))
                } else if rest.len() == 0 {
                    None
                } else {
                    set_error(items@[n as int], rest)
                },
            },
            JsonValue::Null => None,
            _ => Some(scalar_message(segment, rest.len() == 0)),
        }
    }
}

/// `res` is a chain of single-member objects along `segments`, ending in `new`.
pub open spec fn fresh_result(res: JsonValue, segments: Seq<Seq<char>>, new: JsonValue) -> bool
    decreases segments.len(),
{
    if segments.len() == 0 {
        res == new
    } else {
        &&& res matches JsonValue::Object(members)
        &&& members@.len() == 1
        &&& members@[0].key@ == segments[0]
        &&& fresh_result(members@[0].value, segments.subrange(1, segments.len() as int), new)
    }
}

/// Where a new key goes among members: before the first member whose key
/// sorts after it (at the end when there is none).
pub open spec fn insert_position(members: Seq<JsonMember>, key: Seq<char>) -> int
    decreases members.len(),
{
    if members.len() == 0 {
        0
    } else if text_order(members[0].key@, key) > 0 {
        0
    } else {
        1 + insert_position(members.drop_first(), key)
    }
}

/// The position before the first member whose key sorts after `key` is
/// where a new `key` goes.
pub proof fn lemma_insert_position(members: Seq<JsonMember>, key: Seq<char>, p: int)
    requires
        0 <= p <= members.len(),
        forall|j: int| 0 <= j < p ==> text_order((#[trigger] members[j]).key@, key) <= 0,
        p < members.len() ==> text_order(members[p].key@, key) > 0,
    ensures
        insert_position(members, key) == p,
    decreases p,
{
    if p > 0 {
        let rest = members.drop_first();
        assert(text_order(members[0].key@, key) <= 0);
        assert forall|j: int| 0 <= j < p - 1 implies text_order((#[trigger] rest[j]).key@, key) <= 0 by {
            assert(rest[j] == members[j + 1]);
        }
        if p - 1 < rest.len() {
            assert(rest[p - 1] == members[p]);
        }
        lemma_insert_position(rest, key, p - 1);
    }
}

/// `res` is `old` with `new` written along `segments`: every member and
/// item off the path is kept; a missing member goes where
/// `insert_position` puts it, and a `null` on the way becomes an object.
pub open spec fn set_result(old: JsonValue, res: JsonValue, segments: Seq<Seq<char>>, new: JsonValue) -> bool
    decreases segments.len(),
{
    if segments.len() == 0 {
        res == new
    } else {
        let segment = segments[0];
        let rest = segments.subrange(1, segments.len() as int);
        match old {
            JsonValue::Object(a) => res matches JsonValue::Object(b) && match member_index(a@, segment) {
                Some(i) => {
                    &&& b@.len() == a@.len()
                    &&& forall|j: int| 0 <= j < a@.len() && j != i ==> #[trigger] b@[j] == a@[j]
                    &&& b@[i].key == a@[i].key
                    &&& if rest.len() == 0 { b@[i].value == new } else { set_result(a@[i].value, b@[i].value, rest, new) }
                },
                None => {
                    let p = insert_position(a@, segment);
                    &&& 0 <= p <= a@.len()
                    &&& b@.len() == a@.len() + 1
                    &&& forall|j: int| 0 <= j < p ==> #[trigger] b@[j] == a@[j]
                    &&& forall|j: int| p <= j < a@.len() ==> #[trigger] b@[j + 1] == a@[j]
                    &&& b@[p].key@ == segment
                    &&& fresh_result(b@[p].value, rest, new)
                },
            },
            JsonValue::Array(items) => res matches JsonValue::Array(c) && match parse_index(segment) {
                Some(n) => {
                    &&& c@.len() == items@.len()
                    &&& forall|j: int| 0 <= j < items@.len() && j != n ==> #[trigger] c@[j] == items@[j]
                    &&& if rest.len() == 0 { c@[n as int] == new } else { set_result(items@[n as int], c@[n as int], rest, new) }
                },
                None => false,
            },
            JsonValue::Null => fresh_result(res, segments, new),
            _ => false,
        }
    }
}

fn fresh_object(segments: &Vec<String>, i: usize, new_value: JsonValue) -> (res: JsonValue)
    requires
        i <= segments@.len(),
    ensures
        fresh_result(res, texts(segments@).subrange(i as int, segments@.len() as int), new_value),
    decreases segments@.len() - i,
{
    let ghost rest = texts(segments@).subrange(i as int, segments@.len() as int);
    if i == segments.len() {
        return new_value;
    }
    proof {
        assert(rest.subrange(1, rest.len() as int) =~= texts(segments@).subrange(i + 1, segments@.len() as int));
    }
    let child = fresh_object(segments, i + 1, new_value);
    let mut members: Vec<JsonMember> = Vec::new();
    members.push(JsonMember { key: owned(segments[i].as_str()), value: child });
    JsonValue::Object(members)
}

fn error_text(a: &str, b: &str, c: &str) -> (s: String)
    ensures
        s@ == a@ + b@ + c@,
{
    let mut s = owned(a);
    push_str(&mut s, b);
    push_str(&mut s, c);
    s
}

fn set_error_of(value: &JsonValue, segments: &Vec<String>, i: usize) -> (e: Option<String>)
    requires
        i <= segments@.len(),
    ensures
        ({
            let rest = texts(segments@).subrange(i as int, segments@.len() as int);
            match e {
                None => set_error(*value, rest) is None,
                Some(m) => set_error(*value, rest) == Some(m@),
            }
        }),
    decreases segments@.len() - i,
{
    let ghost rest = texts(segments@).subrange(i as int, segments@.len() as int);
    if i == segments.len() {
        return None;
    }
    proof {
        assert(rest[0] == segments@[i as int]@);
        assert(rest.subrange(1, rest.len() as int) =~= texts(segments@).subrange(i + 1, segments@.len() as int));
    }
    let last = i + 1 == segments.len();
    let segment = segments[i].as_str();
    match value {
        JsonValue::Object(members) => match find_member(members, segment) {
            Some(k) => if last { None } else { set_error_of(&members[k].value, segments, i + 1) },
            None => None,
        },
        JsonValue::Array(items) => match parse_index_segment(segment) {
            None => Some(error_text("array path segment `", segment, "` is not an index")),
            Some(n) => if n >= items.len() {
                let index_text = crate::text::usize_decimal_string(n);
                Some(error_text("array index `", index_text.as_str(), "` is out of bounds"))
            } else if last {
                None
            } else {
                set_error_of(&items[n], segments, i + 1)
            },
        },
        JsonValue::Null => None,
        _ => Some(scalar_error(segment, last)),
    }
}

fn apply_set(value: JsonValue, segments: &Vec<String>, i: usize, new_value: JsonValue) -> (res: JsonValue)
    requires
        i <= segments@.len(),
        set_error(value, texts(segments@).subrange(i as int, segments@.len() as int)) is None,
    ensures
        set_result(value, res, texts(segments@).subrange(i as int, segments@.len() as int), new_value),
    decreases segments@.len() - i,
{
    let ghost rest = texts(segments@).subrange(i as int, segments@.len() as int);
    if i == segments.len() {
        return new_value;
    }
    let ghost tail = rest.subrange(1, rest.len() as int);
    proof {
        assert(rest[0] == segments@[i as int]@);
        assert(tail =~= texts(segments@).subrange(i + 1, segments@.len() as int));
    }
    let last = i + 1 == segments.len();
    let segment = segments[i].as_str();
    match value {
        JsonValue::Object(mut members) => {
            let ghost before = members@;
            match find_member(&members, segment) {
                Some(k) => {
                    let member = members.remove(k);
                    let JsonMember { key, value: child } = member;
                    let child2 = if last { new_value } else { apply_set(child, segments, i + 1, new_value) };
                    members.insert(k, JsonMember { key, value: child2 });
                    proof {
                        let after = members@;
                        assert forall|j: int| 0 <= j < before.len() && j != k implies #[trigger] after[j] == before[j] by {
                        }
                    }
                    JsonValue::Object(members)
                },
                None => {
                    let child = if last { new_value } else { fresh_object(segments, i + 1, new_value) };
                    let mut p: usize = 0;
                    while p < members.len() && compare_text(members[p].key.as_str(), segment) <= 0
                        invariant
                            members@ == before,
                            p <= members@.len(),
                            forall|j: int| 0 <= j < p ==> text_order((#[trigger] before[j]).key@, segment@) <= 0,
                        decreases members.len() - p,
                    {
                        p = p + 1;
                    }
                    proof {
                        lemma_insert_position(before, segment@, p as int);
                    }
                    members.insert(p, JsonMember { key: owned(segment), value: child });
                    JsonValue::Object(members)
                },
            }
        },
        JsonValue::Array(mut items) => {
            let ghost before = items@;
            let n = match parse_index_segment(segment) {
                Some(n) => n,
                None => {
                    return JsonValue::Array(items);
                },
            };
            if last {
                items.set(n, new_value);
            } else {
                let child = items.remove(n);
                let child2 = apply_set(child, segments, i + 1, new_value);
                items.insert(n, child2);
                proof {
                    let after = items@;
                    assert forall|j: int| 0 <= j < before.len() && j != n implies #[trigger] after[j] == before[j] by {
                    }
                }
            }
            JsonValue::Array(items)
        },
        JsonValue::Null => fresh_object(segments, i, new_value),
        other => other,
    }
}

fn scalar_error(segment: &str, last: bool) -> (s: String)
    ensures
        s@ == scalar_message(segment@, last),
{
    if last {
        error_text("cannot set path segment `", segment, "` on scalar value")
    } else {
        error_text("cannot traverse path segment `", segment, "` on scalar value")
    }
}

fn set_segments(value: &mut JsonValue, segments: &Vec<String>, new_value: JsonValue) -> (r: Result<(), String>)
    ensures
        match r {
            Ok(_) => set_error(*old(value), texts(segments@)) is None
                && set_result(*old(value), *final(value), texts(segments@), new_value),
            Err(e) => set_error(*old(value), texts(segments@)) == Some(e@) && *final(value) == *old(value),
        },
{
    assert(texts(segments@).subrange(0, segments@.len() as int) =~= texts(segments@));
    match set_error_of(value, segments, 0) {
        Some(e) => Err(e),
        None => {
            let mut taken = JsonValue::Null;
            std::mem::swap(&mut taken, value);
            *value = apply_set(taken, segments, 0, new_value);
            Ok(())
        },
    }
}

/// Writes `new_value` at a dot path; the empty path replaces the whole value.
///
/// On failure the value is left as it was.
pub fn set_dot_path_value(value: &mut JsonValue, path: &str, new_value: JsonValue) -> (r: Result<(), String>)
    ensures
        match r {
            Ok(_) => set_error(*old(value), dot_segments(path@)) is None
                && set_result(*old(value), *final(value), dot_segments(path@), new_value),
            Err(e) => set_error(*old(value), dot_segments(path@)) == Some(e@) && *final(value) == *old(value),
        },
{
    let segments = dot_path_segments(path);
    set_segments(value, &segments, new_value)
}


// ---------------------------------------------------------------------
// JSON pointers

/// `s` with each `~` followed by `digit`, read left to right, replaced by `rep`.
pub open spec fn replace_tilde(s: Seq<char>, digit: char, rep: char) -> Seq<char>
    decreases s.len(),
{
    if s.len() == 0 {
        Seq::empty()
    } else if s.len() >= 2 && s[0] == '~' && s[1] == digit {
        seq![rep] + replace_tilde(s.subrange(2, s.len() as int), digit, rep)
    } else {
        seq![s[0]] + replace_tilde(s.subrange(1, s.len() as int), digit, rep)
    }
}

/// A pointer token decoded: `~1` becomes `/`, then `~0` becomes `~`.
pub open spec fn decode_token(t: Seq<char>) -> Seq<char> {
    replace_tilde(replace_tilde(t, '1', '/'), '0', '~')
}

/// Tokens collected so far and the token being read, after the first
/// characters of a pointer body.
pub open spec fn slash_scan(s: Seq<char>) -> (Seq<Seq<char>>, Seq<char>)
    decreases s.len(),
{
    if s.len() == 0 {
        (Seq::empty(), Seq::empty())
    } else {
        let (done, current) = slash_scan(s.drop_last());
        if s.last() == '/' { (done.push(current), Seq::empty()) } else { (done, current.push(s.last())) }
    }
}

/// The decoded tokens of a pointer that starts with `/`: the text after
/// it split at every `/`, empty tokens included.
pub open spec fn pointer_tokens(pointer: Seq<char>) -> Seq<Seq<char>> {
    let (done, current) = slash_scan(pointer.subrange(1, pointer.len() as int));
    done.push(current).map_values(|t: Seq<char>| decode_token(t))
}

fn replace_tilde_exec(s: &str, digit: char, rep: char) -> (out: String)
    ensures
        out@ == replace_tilde(s@, digit, rep),
{
    let n = s.unicode_len();
    let mut out = String::new();
    let mut i: usize = 0;
    assert(s@.subrange(0, n as int) =~= s@);
    assert(out@ + replace_tilde(s@, digit, rep) =~= replace_tilde(s@, digit, rep));
    while i < n
        invariant
            n == s@.len(),
            i <= n,
            out@ + replace_tilde(s@.subrange(i as int, n as int), digit, rep) == replace_tilde(s@, digit, rep),
        decreases n - i,
    {
        let ghost rest = s@.subrange(i as int, n as int);
        let c = s.get_char(i);
        if c == '~' && i + 1 < n && s.get_char(i + 1) == digit {
            proof {
                assert(rest.subrange(2, rest.len() as int) =~= s@.subrange(i + 2, n as int));
                assert(out@.push(rep) + replace_tilde(s@.subrange(i + 2, n as int), digit, rep)
                    =~= out@ + replace_tilde(rest, digit, rep));
            }
            push_char(&mut out, rep);
            i = i + 2;
        } else {
            proof {
                assert(rest.subrange(1, rest.len() as int) =~= s@.subrange(i + 1, n as int));
                assert(out@.push(c) + replace_tilde(s@.subrange(i + 1, n as int), digit, rep)
                    =~= out@ + replace_tilde(rest, digit, rep));
            }
            push_char(&mut out, c);
            i = i + 1;
        }
    }
    assert(out@ + replace_tilde(s@.subrange(n as int, n as int), digit, rep) =~= out@);
    out
}

fn decode_token_exec(t: &str) -> (out: String)
    ensures
        out@ == decode_token(t@),
{
    let once = replace_tilde_exec(t, '1', '/');
    replace_tilde_exec(once.as_str(), '0', '~')
}

/// The decoded tokens of a pointer that starts with `/`.
fn pointer_token_list(pointer: &str) -> (tokens: Vec<String>)
    requires
        pointer@.len() > 0,
    ensures
        texts(tokens@) == pointer_tokens(pointer@),
{
    let n = pointer.unicode_len();
    let ghost body = pointer@.subrange(1, n as int);
    let mut raw: Vec<String> = Vec::new();
    let mut current = String::new();
    let mut i: usize = 1;
    proof {
        assert(body.subrange(0, 0) =~= Seq::<char>::empty());
        assert(texts(raw@) =~= Seq::<Seq<char>>::empty());
    }
    while i < n
        invariant
            n == pointer@.len(),
            1 <= i <= n,
            body == pointer@.subrange(1, n as int),
            (texts(raw@), current@) == slash_scan(body.subrange(0, i - 1)),
        decreases n - i,
    {
        let c = pointer.get_char(i);
        proof {
            let p = body.subrange(0, i as int);
            assert(p.drop_last() =~= body.subrange(0, i - 1));
            assert(p.last() == c);
        }
        if c == '/' {
            let ghost before = texts(raw@);
            let mut finished = String::new();
            std::mem::swap(&mut finished, &mut current);
            raw.push(finished);
            proof {
                assert(texts(raw@) =~= before.push(finished@));
            }
        } else {
            push_char(&mut current, c);
        }
        i = i + 1;
    }
    assert(body.subrange(0, n - 1) =~= body);
    let ghost before = texts(raw@);
    raw.push(current);
    assert(texts(raw@) =~= before.push(current@));
    let ghost all = texts(raw@);
    let mut tokens: Vec<String> = Vec::new();
    let mut k: usize = 0;
    while k < raw.len()
        invariant
            k <= raw@.len(),
            all == texts(raw@),
            tokens@.len() == k,
            forall|j: int| 0 <= j < k ==> #[trigger] tokens@[j]@ == decode_token(all[j]),
        decreases raw.len() - k,
    {
        tokens.push(decode_token_exec(raw[k].as_str()));
        k = k + 1;
    }
    assert(texts(tokens@) =~= all.map_values(|t: Seq<char>| decode_token(t)));
    tokens
}

/// Writes `new_value` at a JSON pointer; the empty pointer replaces the
/// whole value, and a pointer that does not start with `/` is refused.
///
/// On failure the value is left as it was.
pub fn set_json_pointer_value(value: &mut JsonValue, pointer: &str, new_value: JsonValue) -> (r: Result<(), String>)
    ensures
        pointer@.len() == 0 ==> r is Ok && *final(value) == new_value,
        pointer@.len() > 0 && pointer@[0] != '/' ==> *final(value) == *old(value)
            && r == Err::<(), String>(r->Err_0)
            && r->Err_0@ == "json pointer `"@ + pointer@ + "` must start with `/`"@,
        pointer@.len() > 0 && pointer@[0] == '/' ==> match r {
            Ok(_) => set_error(*old(value), pointer_tokens(pointer@)) is None
                && set_result(*old(value), *final(value), pointer_tokens(pointer@), new_value),
            Err(e) => set_error(*old(value), pointer_tokens(pointer@)) == Some(e@) && *final(value) == *old(value),
        },
{
    if pointer.unicode_len() == 0 {
        *value = new_value;
        return Ok(());
    }
    if pointer.get_char(0) != '/' {
        return Err(error_text("json pointer `", pointer, "` must start with `/`"));
    }
    let tokens = pointer_token_list(pointer);
    set_segments(value, &tokens, new_value)
}

/// A pointer token read as an array index, as JSON pointers read it: no
/// sign and no leading zero (but `0` itself).
pub open spec fn pointer_index(t: Seq<char>) -> Option<nat> {
    if (t.len() > 0 && t[0] == '+') || (t.len() > 1 && t[0] == '0') {
        None
    } else {
        parse_index(t)
    }
}

/// One step down a JSON pointer.
pub open spec fn pointer_step(v: JsonValue, token: Seq<char>) -> Option<JsonValue> {
    match v {
        JsonValue::Object(members) => match member_index(members@, token) {
            Some(i) => Some(members@[i].value),
            None => None,
        },
        JsonValue::Array(items) => match pointer_index(token) {
            Some(n) => if n < items@.len() { Some(items@[n as int]) } else { None },
            None => None,
        },
        _ => None,
    }
}

/// The value that the tokens lead to from `v`.
pub open spec fn pointer_lookup(v: JsonValue, tokens: Seq<Seq<char>>) -> Option<JsonValue>
    decreases tokens.len(),
{
    if tokens.len() == 0 {
        Some(v)
    } else {
        match pointer_step(v, tokens[0]) {
            Some(next) => pointer_lookup(next, tokens.subrange(1, tokens.len() as int)),
            None => None,
        }
    }
}

/// The value a JSON pointer names: the whole value for the empty pointer,
/// nothing for one that does not start with `/`.
pub open spec fn spec_pointer(v: JsonValue, pointer: Seq<char>) -> Option<JsonValue> {
    if pointer.len() == 0 {
        Some(v)
    } else if pointer[0] != '/' {
        None
    } else {
        pointer_lookup(v, pointer_tokens(pointer))
    }
}

fn pointer_from<'a>(value: &'a JsonValue, tokens: &Vec<String>, i: usize) -> (found: Option<&'a JsonValue>)
    requires
        i <= tokens@.len(),
    ensures
        match found {
            Some(v) => pointer_lookup(*value, texts(tokens@).subrange(i as int, tokens@.len() as int)) == Some(*v),
            None => pointer_lookup(*value, texts(tokens@).subrange(i as int, tokens@.len() as int)) is None,
        },
    decreases tokens@.len() - i,
{
    let ghost rest = texts(tokens@).subrange(i as int, tokens@.len() as int);
    if i == tokens.len() {
        return Some(value);
    }
    proof {
        assert(rest[0] == tokens@[i as int]@);
        assert(rest.subrange(1, rest.len() as int) =~= texts(tokens@).subrange(i + 1, tokens@.len() as int));
    }
    let token = tokens[i].as_str();
    match value {
        JsonValue::Object(members) => match find_member(members, token) {
            Some(k) => pointer_from(&members[k].value, tokens, i + 1),
            None => None,
        },
        JsonValue::Array(items) => {
            let len = token.unicode_len();
            if len > 0 && (token.get_char(0) == '+' || (len > 1 && token.get_char(0) == '0')) {
                return None;
            }
            match parse_index_segment(token) {
                Some(n) => if n < items.len() { pointer_from(&items[n], tokens, i + 1) } else { None },
                None => None,
            }
        },
        _ => None,
    }
}

/// Looks up a value by a JSON pointer.
pub fn json_pointer_lookup<'a>(value: &'a JsonValue, pointer: &str) -> (found: Option<&'a JsonValue>)
    ensures
        match found {
            Some(v) => spec_pointer(*value, pointer@) == Some(*v),
            None => spec_pointer(*value, pointer@) is None,
        },
{
    if pointer.unicode_len() == 0 {
        return Some(value);
    }
    if pointer.get_char(0) != '/' {
        return None;
    }
    let tokens = pointer_token_list(pointer);
    assert(texts(tokens@).subrange(0, tokens@.len() as int) =~= texts(tokens@));
    pointer_from(value, &tokens, 0)
}

// ---------------------------------------------------------------------
// Control bindings

/// Where a control binding reads and writes its value.
#[derive(Debug, Clone, Copy, PartialEq, Eq, Structural)]
pub enum NodeControlBindingSource {
    DataPath,
    Slot,
    JsonPointer,
    GraphSymbol,
    PortAnchor,
}

/// A control's binding to node data.
#[derive(Debug, Clone, PartialEq, Eq)]
pub struct NodeControlBinding {
    pub source: NodeControlBindingSource,
    pub path: String,
}

impl NodeControlBinding {
    pub fn data_path(path: String) -> (b: Self)
        ensures
            b.source == NodeControlBindingSource::DataPath && b.path == path,
    {
        NodeControlBinding { source: NodeControlBindingSource::DataPath, path }
    }

    pub fn slot(path: String) -> (b: Self)
        ensures
            b.source == NodeControlBindingSource::Slot && b.path == path,
    {
        NodeControlBinding { source: NodeControlBindingSource::Slot, path }
    }

    pub fn json_pointer(path: String) -> (b: Self)
        ensures
            b.source == NodeControlBindingSource::JsonPointer && b.path == path,
    {
        NodeControlBinding { source: NodeControlBindingSource::JsonPointer, path }
    }
}

/// The member `key` of an object that is itself the member `fields` of `data`.
pub open spec fn field_row_value(data: JsonValue, key: Seq<char>) -> Option<JsonValue> {
    match dot_step_member(data, "fields"@) {
        Some(fields) => dot_step_member(fields, key),
        None => None,
    }
}

/// The member `key` of an object.
pub open spec fn dot_step_member(v: JsonValue, key: Seq<char>) -> Option<JsonValue> {
    match v {
        JsonValue::Object(members) => match member_index(members@, key) {
            Some(i) => Some(members@[i].value),
            None => None,
        },
        _ => None,
    }
}

/// The value a binding reads from node data.
///
/// Data paths and slots are dot paths; with the field-row fallback a slot
/// first looks in the `fields` object. Pointers are JSON pointers; graph
/// symbols and port anchors read nothing from node data.
pub open spec fn spec_read_bound(data: JsonValue, binding: NodeControlBinding, field_row_slot_fallback: bool) -> Option<JsonValue> {
    match binding.source {
        NodeControlBindingSource::DataPath => lookup_segments(data, dot_segments(binding.path@)),
        NodeControlBindingSource::Slot => if field_row_slot_fallback && field_row_value(data, binding.path@) is Some {
            field_row_value(data, binding.path@)
        } else {
            lookup_segments(data, dot_segments(binding.path@))
        },
        NodeControlBindingSource::JsonPointer => spec_pointer(data, binding.path@),
        _ => None,
    }
}

fn object_member<'a>(v: &'a JsonValue, key: &str) -> (found: Option<&'a JsonValue>)
    ensures
        match found {
            Some(x) => dot_step_member(*v, key@) == Some(*x),
            None => dot_step_member(*v, key@) is None,
        },
{
    match v {
        JsonValue::Object(members) => match find_member(members, key) {
            Some(k) => Some(&members[k].value),
            None => None,
        },
        _ => None,
    }
}

/// Reads the value a binding names in node data.
pub fn read_bound_value<'a>(data: &'a JsonValue, binding: &NodeControlBinding, field_row_slot_fallback: bool) -> (found: Option<&'a JsonValue>)
    ensures
        match found {
            Some(v) => spec_read_bound(*data, *binding, field_row_slot_fallback) == Some(*v),
            None => spec_read_bound(*data, *binding, field_row_slot_fallback) is None,
        },
{
    match binding.source {
        NodeControlBindingSource::DataPath => semantic_json_lookup(data, binding.path.as_str()),
        NodeControlBindingSource::Slot => {
            if field_row_slot_fallback {
                match object_member(data, "fields") {
                    Some(fields) => match object_member(fields, binding.path.as_str()) {
                        Some(v) => {
                            return Some(v);
                        },
                        None => {},
                    },
                    None => {},
                }
            }
            semantic_json_lookup(data, binding.path.as_str())
        },
        NodeControlBindingSource::JsonPointer => json_pointer_lookup(data, binding.path.as_str()),
        _ => None,
    }
}

/// The error message for a binding source that node data cannot be written through.
pub open spec fn not_writable_message(source: NodeControlBindingSource) -> Seq<char> {
    "binding source `"@ + (if source == NodeControlBindingSource::GraphSymbol { "GraphSymbol"@ } else { "PortAnchor"@ })
        + "` is not writable by the GPUI node adapter"@
}

/// The error that writing through `binding` into `data` meets, if any.
///
/// Data paths and slots are written as dot paths, pointers as JSON
/// pointers (the empty pointer names the whole value, any other must start
/// with `/`); graph symbols and port anchors cannot be written.
pub open spec fn bound_write_error(data: JsonValue, binding: NodeControlBinding) -> Option<Seq<char>> {
    let p = binding.path@;
    match binding.source {
        NodeControlBindingSource::DataPath => set_error(data, dot_segments(p)),
        NodeControlBindingSource::Slot => set_error(data, dot_segments(p)),
        NodeControlBindingSource::JsonPointer => if p.len() == 0 {
            None
        } else if p[0] != '/' {
            Some("json pointer `"@ + p + "` must start with `/`"@)
        } else {
            set_error(data, pointer_tokens(p))
        },
        _ => Some(not_writable_message(binding.source)),
    }
}

/// `res` is `data` with `value` written where `binding` names it.
pub open spec fn bound_written(data: JsonValue, res: JsonValue, binding: NodeControlBinding, value: JsonValue) -> bool {
    let p = binding.path@;
    match binding.source {
        NodeControlBindingSource::DataPath => set_result(data, res, dot_segments(p), value),
        NodeControlBindingSource::Slot => set_result(data, res, dot_segments(p), value),
        NodeControlBindingSource::JsonPointer => if p.len() == 0 {
            res == value
        } else {
            set_result(data, res, pointer_tokens(p), value)
        },
        _ => false,
    }
}

/// Writes `value` where a binding names it in node data; on an error the
/// data is left as it was.
pub fn set_bound_value(data: &mut JsonValue, binding: &NodeControlBinding, value: JsonValue) -> (r: Result<(), String>)
    ensures
        match r {
            Ok(_) => bound_write_error(*old(data), *binding) is None
                && bound_written(*old(data), *final(data), *binding, value),
            Err(e) => bound_write_error(*old(data), *binding) == Some(e@) && *final(data) == *old(data),
        },
{
    match binding.source {
        NodeControlBindingSource::DataPath => set_dot_path_value(data, binding.path.as_str(), value),
        NodeControlBindingSource::Slot => set_dot_path_value(data, binding.path.as_str(), value),
        NodeControlBindingSource::JsonPointer => set_json_pointer_value(data, binding.path.as_str(), value),
        NodeControlBindingSource::GraphSymbol => {
            Err(error_text("binding source `", "GraphSymbol", "` is not writable by the GPUI node adapter"))
        },
        NodeControlBindingSource::PortAnchor => {
            Err(error_text("binding source `", "PortAnchor", "` is not writable by the GPUI node adapter"))
        },
    }
}

/// `prefix.suffix`, or the prefix alone for an empty suffix.
pub open spec fn spec_join_data_path(prefix: Seq<char>, suffix: Seq<char>) -> Seq<char> {
    if suffix.len() == 0 { prefix } else { prefix + seq!['.'] + suffix }
}

/// Joins two dot-path parts.
pub fn join_data_path(prefix: &str, suffix: &str) -> (path: String)
    ensures
        path@ == spec_join_data_path(prefix@, suffix@),
{
    let mut path = owned(prefix);
    if suffix.unicode_len() > 0 {
        push_char(&mut path, '.');
        push_str(&mut path, suffix);
    }
    path
}

/// The data path of a field-row slot: under `fields`.
pub fn field_row_slot_data_path(path: &str) -> (data_path: String)
    ensures
        data_path@ == spec_join_data_path("fields"@, path@),
{
    join_data_path("fields", path)
}

/// The stable text of a scalar: a string as it is, a number or a boolean
/// as JSON writes it; other values have none.
pub open spec fn spec_scalar_text(v: JsonValue) -> Option<Seq<char>> {
    match v {
        JsonValue::String(s) => Some(s@),
        JsonValue::Number(text) => Some(text@),
        JsonValue::Bool(b) => Some(if b { "true"@ } else { "false"@ }),
        _ => None,
    }
}

/// The stable text of a scalar JSON value.
pub fn json_scalar_to_stable_string(value: &JsonValue) -> (text: Option<String>)
    ensures
        match text {
            Some(t) => spec_scalar_text(*value) == Some(t@),
            None => spec_scalar_text(*value) is None,
        },
{
    match value {
        JsonValue::String(s) => Some(owned(s.as_str())),
        JsonValue::Number(text) => Some(owned(text.as_str())),
        JsonValue::Bool(b) => Some(owned(if *b { "true" } else { "false" })),
        _ => None,
    }
}

/// A character allowed in repeatable item keys.
pub open spec fn key_char(c: char) -> bool {
    ('a' <= c && c <= 'z') || ('A' <= c && c <= 'Z') || ('0' <= c && c <= '9') || c == '.' || c == '_' || c == '-'
}

/// A usable repeatable key: not empty, and only ASCII letters, digits, `.`, `_` and `-`.
pub open spec fn valid_repeatable_key(s: Seq<char>) -> bool {
    s.len() > 0 && forall|i: int| 0 <= i < s.len() ==> key_char(#[trigger] s[i])
}

/// The key itself when it is a usable repeatable key.
pub fn sanitize_repeatable_key(value: &str) -> (key: Option<&str>)
    ensures
        match key {
            Some(k) => k@ == value@ && valid_repeatable_key(value@),
            None => !valid_repeatable_key(value@),
        },
{
    let n = value.unicode_len();
    if n == 0 {
        return None;
    }
    let mut i: usize = 0;
    while i < n
        invariant
            n == value@.len(),
            i <= n,
            forall|j: int| 0 <= j < i ==> key_char(#[trigger] value@[j]),
        decreases n - i,
    {
        let c = value.get_char(i);
        let ok = ('a' <= c && c <= 'z') || ('A' <= c && c <= 'Z') || ('0' <= c && c <= '9') || c == '.' || c == '_' || c == '-';
        if !ok {
            assert(!key_char(value@[i as int]));
            return None;
        }
        i = i + 1;
    }
    Some(value)
}

/// The id of a repeatable item: the scalar at `item_id_path`, when its text is a usable key.
pub open spec fn spec_repeatable_item_id(item_id_path: Seq<char>, item: JsonValue) -> Option<Seq<char>> {
    match lookup_segments(item, dot_segments(item_id_path)) {
        Some(v) => match spec_scalar_text(v) {
            Some(t) => if valid_repeatable_key(t) { Some(t) } else { None },
            None => None,
        },
        None => None,
    }
}

/// The id of a repeatable item.
pub fn repeatable_item_id(item_id_path: &str, item: &JsonValue) -> (id: Option<String>)
    ensures
        match id {
            Some(t) => spec_repeatable_item_id(item_id_path@, *item) == Some(t@),
            None => spec_repeatable_item_id(item_id_path@, *item) is None,
        },
{
    let raw = match semantic_json_lookup(item, item_id_path) {
        Some(v) => match json_scalar_to_stable_string(v) {
            Some(t) => t,
            None => {
                return None;
            },
        },
        None => {
            return None;
        },
    };
    match sanitize_repeatable_key(raw.as_str()) {
        Some(k) => Some(owned(k)),
        None => None,
    }
}


// ---------------------------------------------------------------------
// Reading back a write

pub(crate) proof fn lemma_first_member_exists(members: Seq<JsonMember>, key: Seq<char>, j: int)
    requires
        0 <= j < members.len(),
        members[j].key@ == key,
    ensures
        exists|i: int| is_first_member(members, key, i),
    decreases j,
{
    if exists|k: int| 0 <= k < j && #[trigger] members[k].key@ == key {
        let k = choose|k: int| 0 <= k < j && #[trigger] members[k].key@ == key;
        lemma_first_member_exists(members, key, k);
    } else {
        assert(is_first_member(members, key, j));
    }
}

proof fn lemma_fresh_lookup(v: JsonValue, segments: Seq<Seq<char>>, new: JsonValue)
    requires
        fresh_result(v, segments, new),
    ensures
        lookup_segments(v, segments) == Some(new),
    decreases segments.len(),
{
    if segments.len() > 0 {
        let members = v->Object_0@;
        assert(is_first_member(members, segments[0], 0));
        lemma_first_member_unique(members, segments[0], member_index(members, segments[0])->0, 0);
        lemma_fresh_lookup(members[0].value, segments.subrange(1, segments.len() as int), new);
    }
}

/// After a successful write of `new` along `segments`, reading along the
/// same segments gives `new` back.
pub proof fn lemma_write_then_read(old: JsonValue, res: JsonValue, segments: Seq<Seq<char>>, new: JsonValue)
    requires
        set_error(old, segments) is None,
        set_result(old, res, segments, new),
    ensures
        lookup_segments(res, segments) == Some(new),
    decreases segments.len(),
{
    if segments.len() > 0 {
        let segment = segments[0];
        let rest = segments.subrange(1, segments.len() as int);
        match old {
            JsonValue::Object(a) => {
                let b = res->Object_0@;
                match member_index(a@, segment) {
                    Some(i) => {
                        let k = choose|k: int| is_first_member(a@, segment, k);
                        assert(is_first_member(a@, segment, k));
                        assert(k == i);
                        assert forall|j: int| 0 <= j < i implies #[trigger] b[j].key@ != segment by {
                            assert(b[j] == a@[j]);
                        }
                        assert(is_first_member(b, segment, i));
                        lemma_first_member_unique(b, segment, member_index(b, segment)->0, i);
                        if rest.len() > 0 {
                            lemma_write_then_read(a@[i].value, b[i].value, rest, new);
                        }
                    },
                    None => {
                        let n = insert_position(a@, segment);
                        assert forall|j: int| 0 <= j < n implies #[trigger] b[j].key@ != segment by {
                            assert(b[j] == a@[j]);
                            if a@[j].key@ == segment {
                                lemma_first_member_exists(a@, segment, j);
                            }
                        }
                        assert(is_first_member(b, segment, n));
                        lemma_first_member_unique(b, segment, member_index(b, segment)->0, n);
                        lemma_fresh_lookup(b[n].value, rest, new);
                    },
                }
            },
            JsonValue::Array(items) => {
                let c = res->Array_0@;
                let n = parse_index(segment)->0;
                if rest.len() > 0 {
                    lemma_write_then_read(items@[n as int], c[n as int], rest, new);
                }
            },
            JsonValue::Null => {
                lemma_fresh_lookup(res, segments, new);
            },
            _ => {},
        }
    }
}

/// Writing at a dot path and reading the same path gives the written value back.
pub proof fn lemma_dot_path_write_then_read(old: JsonValue, res: JsonValue, path: Seq<char>, new: JsonValue)
    requires
        set_error(old, dot_segments(path)) is None,
        set_result(old, res, dot_segments(path), new),
    ensures
        lookup_segments(res, dot_segments(path)) == Some(new),
{
    lemma_write_then_read(old, res, dot_segments(path), new);
}


/// A token that reads the same as an array index under both rules: no `+`
/// sign and no leading zero.
pub open spec fn canonical_token(t: Seq<char>) -> bool {
    !(t.len() > 0 && t[0] == '+') && !(t.len() > 1 && t[0] == '0')
}

proof fn lemma_pointer_lookup_agrees(v: JsonValue, tokens: Seq<Seq<char>>)
    requires
        forall|i: int| 0 <= i < tokens.len() ==> canonical_token(#[trigger] tokens[i]),
    ensures
        pointer_lookup(v, tokens) == lookup_segments(v, tokens),
    decreases tokens.len(),
{
    if tokens.len() > 0 {
        assert(canonical_token(tokens[0]));
        assert(pointer_step(v, tokens[0]) == dot_step(v, tokens[0]));
        let rest = tokens.subrange(1, tokens.len() as int);
        assert forall|i: int| 0 <= i < rest.len() implies canonical_token(#[trigger] rest[i]) by {
            assert(rest[i] == tokens[i + 1]);
        }
        match dot_step(v, tokens[0]) {
            Some(next) => lemma_pointer_lookup_agrees(next, rest),
            None => {},
        }
    }
}

/// Writing through a JSON pointer and reading through it gives the written
/// value back, when no token is a signed or zero-padded number.
pub proof fn lemma_pointer_write_then_read(old: JsonValue, res: JsonValue, pointer: Seq<char>, new: JsonValue)
    requires
        pointer.len() > 0,
        pointer[0] == '/',
        forall|i: int| 0 <= i < pointer_tokens(pointer).len() ==> canonical_token(#[trigger] pointer_tokens(pointer)[i]),
        set_error(old, pointer_tokens(pointer)) is None,
        set_result(old, res, pointer_tokens(pointer), new),
    ensures
        spec_pointer(res, pointer) == Some(new),
{
    lemma_write_then_read(old, res, pointer_tokens(pointer), new);
    lemma_pointer_lookup_agrees(res, pointer_tokens(pointer));
}

/// What a successful write through a binding wrote, a read through the
/// same binding gives back: for data paths and slots (read without the
/// field-row fallback), and for pointers whose tokens are canonical.
pub proof fn lemma_bound_write_then_read(data: JsonValue, res: JsonValue, binding: NodeControlBinding, value: JsonValue)
    requires
        bound_write_error(data, binding) is None,
        bound_written(data, res, binding, value),
        binding.source == NodeControlBindingSource::JsonPointer ==> forall|i: int|
            0 <= i < pointer_tokens(binding.path@).len() ==> canonical_token(#[trigger] pointer_tokens(binding.path@)[i]),
    ensures
        spec_read_bound(res, binding, false) == Some(value),
{
    let p = binding.path@;
    match binding.source {
        NodeControlBindingSource::DataPath => lemma_write_then_read(data, res, dot_segments(p), value),
        NodeControlBindingSource::Slot => lemma_write_then_read(data, res, dot_segments(p), value),
        NodeControlBindingSource::JsonPointer => {
            if p.len() > 0 {
                lemma_pointer_write_then_read(data, res, p, value);
            }
        },
        _ => {},
    }
}

} // verus!
