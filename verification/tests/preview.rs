use jellyflow_open_gpui::json_binding::{JsonMember, JsonValue};
use jellyflow_open_gpui::preview::{json_value_preview, node_summary, node_title, slot_value_preview};

fn text(s: &str) -> JsonValue {
    JsonValue::String(s.to_owned())
}

fn obj(members: Vec<(&str, JsonValue)>) -> JsonValue {
    JsonValue::Object(
        members
            .into_iter()
            .map(|(key, value)| JsonMember { key: key.to_owned(), value })
            .collect(),
    )
}

#[test]
fn scalars_preview_as_their_text() {
    assert_eq!(json_value_preview(&text("hello")), "hello");
    assert_eq!(json_value_preview(&JsonValue::Bool(true)), "true");
    assert_eq!(json_value_preview(&JsonValue::Number("0.5".to_owned())), "0.5");
    assert_eq!(json_value_preview(&JsonValue::Null), "");
}

#[test]
fn arrays_preview_their_first_two_items() {
    let two = JsonValue::Array(vec![text("a"), text("b")]);
    assert_eq!(json_value_preview(&two), "a · b");
    let three = JsonValue::Array(vec![text("a"), text("b"), text("c")]);
    assert_eq!(json_value_preview(&three), "a · b …");
    let blank = JsonValue::Array(vec![JsonValue::Null, JsonValue::Null, JsonValue::Null]);
    assert_eq!(json_value_preview(&blank), "3 items");
    let second_only = JsonValue::Array(vec![JsonValue::Null, text("b")]);
    assert_eq!(json_value_preview(&second_only), "b");
    assert_eq!(json_value_preview(&JsonValue::Array(Vec::new())), "0 items");
}

#[test]
fn objects_preview_label_title_or_members() {
    assert_eq!(json_value_preview(&obj(vec![("title", text("T")), ("label", text("L"))])), "L");
    assert_eq!(json_value_preview(&obj(vec![("title", text("T"))])), "T");
    assert_eq!(
        json_value_preview(&obj(vec![("a", JsonValue::Bool(false)), ("b", text("x")), ("c", text("y"))])),
        "a: false · b: x"
    );
    assert_eq!(json_value_preview(&obj(vec![("label", JsonValue::Null)])), "label: ");
    assert_eq!(json_value_preview(&obj(Vec::new())), "{}");
}

#[test]
fn titles_summaries_and_slot_previews() {
    let data = obj(vec![
        ("title", text("Summarize")),
        ("summary", text("")),
        ("fields", obj(vec![("prompt", text("Explain {{ input }}")), ("empty", JsonValue::Null)])),
    ]);
    assert_eq!(node_title(&data).as_deref(), Some("Summarize"));
    assert_eq!(node_summary(&data), None);
    assert_eq!(node_title(&JsonValue::Null), None);
    assert_eq!(slot_value_preview(&data, Some("fields.prompt")).as_deref(), Some("Explain {{ input }}"));
    assert_eq!(slot_value_preview(&data, Some("fields.empty")), None);
    assert_eq!(slot_value_preview(&data, Some("fields..prompt")), None);
    assert_eq!(slot_value_preview(&data, None), None);
}
