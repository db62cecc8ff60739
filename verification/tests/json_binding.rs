use jellyflow_open_gpui::json_binding::{
    JsonMember, JsonValue, NodeControlBinding, field_row_slot_data_path, join_data_path,
    json_pointer_lookup, read_bound_value, repeatable_item_id, sanitize_repeatable_key,
    semantic_json_lookup, set_bound_value, set_dot_path_value, set_json_pointer_value,
};

fn text(value: &str) -> JsonValue {
    JsonValue::String(value.to_owned())
}

fn object(members: Vec<(&str, JsonValue)>) -> JsonValue {
    JsonValue::Object(
        members
            .into_iter()
            .map(|(key, value)| JsonMember { key: key.to_owned(), value })
            .collect(),
    )
}

fn array(items: Vec<JsonValue>) -> JsonValue {
    JsonValue::Array(items)
}

#[test]
fn dot_path_lookup_and_write_preserve_existing_semantics() {
    let mut value = object(vec![("items", array(vec![object(vec![("name", text("old"))])]))]);

    assert_eq!(semantic_json_lookup(&value, "items.0.name"), Some(&text("old")));
    set_dot_path_value(&mut value, "items.0.name", text("new")).expect("array path write");
    assert_eq!(semantic_json_lookup(&value, "items.0.name"), Some(&text("new")));

    set_dot_path_value(&mut value, "meta.prompt", text("hello")).expect("nested object creation");
    assert_eq!(semantic_json_lookup(&value, "meta.prompt"), Some(&text("hello")));

    set_dot_path_value(&mut value, "", object(vec![("root", JsonValue::Bool(true))])).expect("root replacement");
    assert_eq!(value, object(vec![("root", JsonValue::Bool(true))]));

    let mut scalar = object(vec![("a", JsonValue::Number("1".to_owned()))]);
    let error = set_dot_path_value(&mut scalar, "a.b.c", JsonValue::Number("2".to_owned())).expect_err("scalar traversal");
    assert_eq!(error, "cannot traverse path segment `b` on scalar value");
}

#[test]
fn json_pointer_lookup_and_write_preserve_existing_semantics() {
    let mut value = object(vec![("a/b", object(vec![("~key", text("old"))]))]);
    let binding = NodeControlBinding::json_pointer("/a~1b/~0key".to_owned());

    assert_eq!(read_bound_value(&value, &binding, false), Some(&text("old")));
    set_json_pointer_value(&mut value, "/a~1b/~0key", text("new")).expect("decoded json pointer write");
    assert_eq!(json_pointer_lookup(&value, "/a~1b/~0key"), Some(&text("new")));

    let error = set_json_pointer_value(&mut value, "a/b", JsonValue::Number("1".to_owned()))
        .expect_err("pointer must start with slash");
    assert_eq!(error, "json pointer `a/b` must start with `/`");

    set_json_pointer_value(&mut value, "", object(vec![("root", text("replaced"))])).expect("empty pointer root replacement");
    assert_eq!(value, object(vec![("root", text("replaced"))]));
}

#[test]
fn field_row_slot_binding_prefers_fields_namespace() {
    let value = object(vec![("prompt", text("top-level")), ("fields", object(vec![("prompt", text("field-row"))]))]);
    let binding = NodeControlBinding::slot("prompt".to_owned());

    assert_eq!(read_bound_value(&value, &binding, true), Some(&text("field-row")));
    assert_eq!(read_bound_value(&value, &binding, false), Some(&text("top-level")));
    assert_eq!(field_row_slot_data_path("prompt"), "fields.prompt");
}

#[test]
fn repeatable_item_id_accepts_stable_scalars_and_rejects_invalid_ids() {
    assert_eq!(repeatable_item_id("id", &object(vec![("id", text("alpha_1"))])), Some("alpha_1".to_owned()));
    assert_eq!(
        repeatable_item_id("id", &object(vec![("id", JsonValue::Number("7".to_owned()))])),
        Some("7".to_owned())
    );
    assert_eq!(repeatable_item_id("id", &object(vec![("id", JsonValue::Bool(true))])), Some("true".to_owned()));
    assert_eq!(repeatable_item_id("id", &object(vec![("id", text(""))])), None);
    assert_eq!(repeatable_item_id("id", &object(vec![("id", text("bad id"))])), None);
    assert_eq!(repeatable_item_id("id", &object(vec![("id", array(vec![text("bad")]))])), None);
}

#[test]
fn array_writes_report_bad_indices_and_leave_data_unchanged() {
    let mut value = object(vec![("items", array(vec![text("a"), text("b")]))]);
    let error = set_dot_path_value(&mut value, "items.5", text("x")).expect_err("out of bounds");
    assert_eq!(error, "array index `5` is out of bounds");
    let error = set_dot_path_value(&mut value, "items.first", text("x")).expect_err("not an index");
    assert_eq!(error, "array path segment `first` is not an index");
    let error = set_dot_path_value(&mut value, "items.0.name", text("x")).expect_err("scalar item");
    assert_eq!(error, "cannot set path segment `name` on scalar value");
    assert_eq!(value, object(vec![("items", array(vec![text("a"), text("b")]))]));

    set_dot_path_value(&mut value, "items.+1", text("c")).expect("signed index write");
    assert_eq!(semantic_json_lookup(&value, "items..1"), Some(&text("c")));
    assert_eq!(json_pointer_lookup(&value, "/items/+1"), None);
    assert_eq!(json_pointer_lookup(&value, "/items/01"), None);
    assert_eq!(json_pointer_lookup(&value, "/items/1"), Some(&text("c")));
}

#[test]
fn null_values_become_objects_on_write() {
    let mut value = JsonValue::Null;
    set_dot_path_value(&mut value, "meta.model.name", text("gpt")).expect("null write");
    assert_eq!(
        value,
        object(vec![("meta", object(vec![("model", object(vec![("name", text("gpt"))]))]))])
    );
}

#[test]
fn binding_writes_follow_their_source() {
    let mut value = object(vec![]);
    set_bound_value(&mut value, &NodeControlBinding::data_path("fields.title".to_owned()), text("Old"))
        .expect("data path write");
    assert_eq!(semantic_json_lookup(&value, "fields.title"), Some(&text("Old")));
    set_bound_value(&mut value, &NodeControlBinding::json_pointer("/fields/title".to_owned()), text("New"))
        .expect("pointer write");
    assert_eq!(semantic_json_lookup(&value, "fields.title"), Some(&text("New")));
}

#[test]
fn data_paths_join_with_a_dot() {
    assert_eq!(join_data_path("fields", ""), "fields");
    assert_eq!(join_data_path("items.0", "name"), "items.0.name");
    assert_eq!(sanitize_repeatable_key("col-1.a_b"), Some("col-1.a_b"));
    assert_eq!(sanitize_repeatable_key("naïve"), None);
}

#[test]
fn new_keys_keep_sorted_members_sorted() {
    let mut value = object(vec![("a", text("1")), ("c", text("3"))]);
    set_dot_path_value(&mut value, "b", text("2")).expect("write b");
    assert_eq!(value, object(vec![("a", text("1")), ("b", text("2")), ("c", text("3"))]));
    set_dot_path_value(&mut value, "d.e", text("5")).expect("write d.e");
    assert_eq!(
        value,
        object(vec![("a", text("1")), ("b", text("2")), ("c", text("3")), ("d", object(vec![("e", text("5"))]))])
    );
    set_dot_path_value(&mut value, "B", text("0")).expect("write B");
    let JsonValue::Object(members) = &value else { panic!("object") };
    let keys: Vec<&str> = members.iter().map(|m| m.key.as_str()).collect();
    assert_eq!(keys, vec!["B", "a", "b", "c", "d"]);
}
