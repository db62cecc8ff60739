//! Short text previews of node data, as a component tree shows them: a
//! node's title and summary, and a one-line preview of a slot's value.

use vstd::prelude::*;
use crate::json_binding::{JsonValue, dot_step_member, texts};
use crate::text::{decimal, owned, push_char, push_str, usize_decimal_string};

verus! {

broadcast use vstd::std_specs::vec::axiom_vec_decreases_to_view;

/// The separator between the parts of a preview.
pub open spec fn separator() -> Seq<char> {
    " · "@
}

/// Two preview parts joined by the separator.
pub open spec fn joined(a: Seq<char>, b: Seq<char>) -> Seq<char> {
    a + separator() + b
}

/// The preview of a member: its key, a colon, and its value's preview.
pub open spec fn member_preview(key: Seq<char>, value_preview: Seq<char>) -> Seq<char> {
    key + ": "@ + value_preview
}

/// A one-line preview of a JSON value.
///
/// Strings, numbers and booleans show as their text and `null` as nothing.
/// An array shows the non-empty previews of its first two items joined by
/// ` · `, followed by ` …` when it has more; with no such preview it shows
/// its item count. An object shows its `label` text, else its `title`
/// text, else its first two members as `key: preview` joined by ` · `, or
/// `{}` when it has none.
pub open spec fn spec_preview(v: JsonValue) -> Seq<char>
    decreases v,
{
    match v {
        JsonValue::Null => Seq::empty(),
        JsonValue::Bool(b) => if b { "true"@ } else { "false"@ },
        JsonValue::Number(t) => t@,
        JsonValue::String(s) => s@,
        JsonValue::Array(items) => {
            let n = items@.len();
            let a = if n > 0 { spec_preview(items@[0]) } else { Seq::empty() };
            let b = if n > 1 { spec_preview(items@[1]) } else { Seq::empty() };
            let p = if a.len() > 0 && b.len() > 0 {
                joined(a, b)
            } else if a.len() > 0 {
                a
            } else {
                b
            };
            if p.len() == 0 {
                decimal(n) + " items"@
            } else if n > 2 {
                p + " …"@
            } else {
                p
            }
        },
        JsonValue::Object(members) => match dot_step_member(v, "label"@) {
            Some(JsonValue::String(s)) => s@,
            _ => match dot_step_member(v, "title"@) {
                Some(JsonValue::String(s)) => s@,
                _ => {
                    let n = members@.len();
                    if n == 0 {
                        "{}"@
                    } else if n == 1 {
                        member_preview(members@[0].key@, spec_preview(members@[0].value))
                    } else {
                        joined(
                            member_preview(members@[0].key@, spec_preview(members@[0].value)),
                            member_preview(members@[1].key@, spec_preview(members@[1].value)),
                        )
                    }
                },
            },
        },
    }
}

fn text_member<'a>(data: &'a JsonValue, key: &str) -> (found: Option<&'a String>)
    ensures
        match found {
            Some(s) => dot_step_member(*data, key@) == Some(JsonValue::String(*s)),
            None => !(dot_step_member(*data, key@) matches Some(JsonValue::String(_))),
        },
{
    match data {
        JsonValue::Object(members) => match crate::json_binding::find_member(members, key) {
            Some(k) => match &members[k].value {
                JsonValue::String(s) => Some(s),
                _ => None,
            },
            None => None,
        },
        _ => None,
    }
}

/// A one-line preview of a JSON value.
pub fn json_value_preview(value: &JsonValue) -> (preview: String)
    ensures
        preview@ == spec_preview(*value),
    decreases *value,
{
    match value {
        JsonValue::Null => String::new(),
        JsonValue::Bool(b) => owned(if *b { "true" } else { "false" }),
        JsonValue::Number(t) => owned(t.as_str()),
        JsonValue::String(s) => owned(s.as_str()),
        JsonValue::Array(items) => {
            let n = items.len();
            proof {
                assert(decreases_to!(*value => value->Array_0));
            }
            let a = if n > 0 { json_value_preview(&items[0]) } else { String::new() };
            let b = if n > 1 { json_value_preview(&items[1]) } else { String::new() };
            let a_shown = a.unicode_len() > 0;
            let b_shown = b.unicode_len() > 0;
            let mut p = String::new();
            if a_shown {
                push_str(&mut p, a.as_str());
                if b_shown {
                    push_str(&mut p, " · ");
                    push_str(&mut p, b.as_str());
                }
            } else if b_shown {
                push_str(&mut p, b.as_str());
            }
            proof {
                assert(p@ =~= (if a@.len() > 0 && b@.len() > 0 {
                    joined(a@, b@)
                } else if a@.len() > 0 {
                    a@
                } else {
                    b@
                }));
            }
            if !a_shown && !b_shown {
                let mut count = usize_decimal_string(n);
                push_str(&mut count, " items");
                return count;
            }
            if n > 2 {
                push_str(&mut p, " …");
            }
            p
        },
        JsonValue::Object(members) => {
            match text_member(value, "label") {
                Some(s) => {
                    return owned(s.as_str());
                },
                None => {},
            }
            match text_member(value, "title") {
                Some(s) => {
                    return owned(s.as_str());
                },
                None => {},
            }
            let n = members.len();
            if n == 0 {
                return owned("{}");
            }
            proof {
                assert(decreases_to!(*value => value->Object_0));
                assert(decreases_to!(members@[0] => members@[0].value));
            }
            let mut p = owned(members[0].key.as_str());
            push_str(&mut p, ": ");
            let first = json_value_preview(&members[0].value);
            push_str(&mut p, first.as_str());
            if n > 1 {
                proof {
                    assert(decreases_to!(members@[1] => members@[1].value));
                }
                push_str(&mut p, " · ");
                push_str(&mut p, members[1].key.as_str());
                push_str(&mut p, ": ");
                let second = json_value_preview(&members[1].value);
                push_str(&mut p, second.as_str());
            }
            p
        },
    }
}

/// A non-empty text member of node data.
pub open spec fn nonempty_text_member(data: JsonValue, key: Seq<char>) -> Option<Seq<char>> {
    match dot_step_member(data, key) {
        Some(JsonValue::String(s)) => if s@.len() > 0 { Some(s@) } else { None },
        _ => None,
    }
}

fn nonempty_text(data: &JsonValue, key: &str) -> (text: Option<String>)
    ensures
        match text {
            Some(t) => nonempty_text_member(*data, key@) == Some(t@),
            None => nonempty_text_member(*data, key@) is None,
        },
{
    match text_member(data, key) {
        Some(s) => if s.unicode_len() > 0 { Some(owned(s.as_str())) } else { None },
        None => None,
    }
}

/// A node's title: the non-empty `title` text of its data.
pub fn node_title(node_data: &JsonValue) -> (title: Option<String>)
    ensures
        match title {
            Some(t) => nonempty_text_member(*node_data, "title"@) == Some(t@),
            None => nonempty_text_member(*node_data, "title"@) is None,
        },
{
    nonempty_text(node_data, "title")
}

/// A node's summary: the non-empty `summary` text of its data.
pub fn node_summary(node_data: &JsonValue) -> (summary: Option<String>)
    ensures
        match summary {
            Some(t) => nonempty_text_member(*node_data, "summary"@) == Some(t@),
            None => nonempty_text_member(*node_data, "summary"@) is None,
        },
{
    nonempty_text(node_data, "summary")
}

/// `s` split at every `.`, empty parts included.
pub open spec fn split_dots(s: Seq<char>) -> Seq<Seq<char>>
    decreases s.len(),
{
    if s.len() == 0 {
        seq![Seq::empty()]
    } else {
        let parts = split_dots(s.drop_last());
        if s.last() == '.' {
            parts.push(Seq::empty())
        } else {
            parts.update(parts.len() - 1, parts.last().push(s.last()))
        }
    }
}

/// Follow object members named by `segments`.
pub open spec fn member_path(v: JsonValue, segments: Seq<Seq<char>>) -> Option<JsonValue>
    decreases segments.len(),
{
    if segments.len() == 0 {
        Some(v)
    } else {
        match dot_step_member(v, segments[0]) {
            Some(next) => member_path(next, segments.subrange(1, segments.len() as int)),
            None => None,
        }
    }
}

proof fn lemma_split_dots_nonempty(s: Seq<char>)
    ensures
        split_dots(s).len() > 0,
    decreases s.len(),
{
    if s.len() > 0 {
        lemma_split_dots_nonempty(s.drop_last());
    }
}

fn split_path(path: &str) -> (parts: Vec<String>)
    ensures
        texts(parts@) == split_dots(path@),
{
    let n = path.unicode_len();
    let mut parts: Vec<String> = Vec::new();
    let mut current = String::new();
    let mut i: usize = 0;
    proof {
        assert(path@.subrange(0, 0) =~= Seq::<char>::empty());
    }
    while i < n
        invariant
            n == path@.len(),
            i <= n,
            texts(parts@).push(current@) == split_dots(path@.subrange(0, i as int)),
        decreases n - i,
    {
        let c = path.get_char(i);
        proof {
            let p = path@.subrange(0, i + 1);
            assert(p.drop_last() =~= path@.subrange(0, i as int));
            assert(p.last() == c);
            lemma_split_dots_nonempty(path@.subrange(0, i as int));
        }
        let ghost before_parts = texts(parts@);
        let ghost before_current = current@;
        if c == '.' {
            let mut finished = String::new();
            std::mem::swap(&mut finished, &mut current);
            parts.push(finished);
            proof {
                assert(texts(parts@) =~= before_parts.push(before_current));
                assert(texts(parts@).push(current@) =~= before_parts.push(before_current).push(Seq::empty()));
            }
        } else {
            push_char(&mut current, c);
            proof {
                let whole = before_parts.push(before_current);
                assert(texts(parts@).push(current@) =~= whole.update(whole.len() - 1, whole.last().push(c)));
            }
        }
        i = i + 1;
    }
    assert(path@.subrange(0, n as int) =~= path@);
    let ghost before_parts = texts(parts@);
    let last = current;
    parts.push(last);
    proof {
        assert(texts(parts@) =~= before_parts.push(last@));
    }
    parts
}

fn follow_members<'a>(v: &'a JsonValue, segments: &Vec<String>, i: usize) -> (found: Option<&'a JsonValue>)
    requires
        i <= segments@.len(),
    ensures
        match found {
            Some(x) => member_path(*v, texts(segments@).subrange(i as int, segments@.len() as int)) == Some(*x),
            None => member_path(*v, texts(segments@).subrange(i as int, segments@.len() as int)) is None,
        },
    decreases segments@.len() - i,
{
    let ghost rest = texts(segments@).subrange(i as int, segments@.len() as int);
    if i == segments.len() {
        return Some(v);
    }
    assert(rest[0] == segments@[i as int]@);
    assert(rest.subrange(1, rest.len() as int) =~= texts(segments@).subrange(i + 1, segments@.len() as int));
    match v {
        JsonValue::Object(members) => match crate::json_binding::find_member(members, segments[i].as_str()) {
            Some(k) => follow_members(&members[k].value, segments, i + 1),
            None => None,
        },
        _ => None,
    }
}

/// The preview of the value at a slot's data key, when the slot has one,
/// the value is there (following object members named by the key's
/// `.`-separated parts) and its preview is not empty.
pub open spec fn spec_slot_value_preview(node_data: JsonValue, data_key: Option<Seq<char>>) -> Option<Seq<char>> {
    match data_key {
        Some(key) => match member_path(node_data, split_dots(key)) {
            Some(v) => if spec_preview(v).len() > 0 { Some(spec_preview(v)) } else { None },
            None => None,
        },
        None => None,
    }
}

/// A preview of the value a slot shows.
pub fn slot_value_preview(node_data: &JsonValue, data_key: Option<&str>) -> (preview: Option<String>)
    ensures
        match preview {
            Some(p) => spec_slot_value_preview(*node_data, match data_key {
                Some(k) => Some(k@),
                None => None,
            }) == Some(p@),
            None => spec_slot_value_preview(*node_data, match data_key {
                Some(k) => Some(k@),
                None => None,
            }) is None,
        },
{
    let key = match data_key {
        Some(k) => k,
        None => {
            return None;
        },
    };
    let segments = split_path(key);
    assert(texts(segments@).subrange(0, segments@.len() as int) =~= texts(segments@));
    let value = match follow_members(node_data, &segments, 0) {
        Some(v) => v,
        None => {
            return None;
        },
    };
    let preview = json_value_preview(value);
    if preview.unicode_len() > 0 {
        Some(preview)
    } else {
        None
    }
}

} // verus!
