//! Authoring outcomes: which GPUI component events become semantic plans,
//! and why the others are skipped.

use vstd::prelude::*;
use crate::actions::{OpenGpuiActionDispatchPlan, OpenGpuiActionPlan, OpenGpuiMenuPlan, plan_action_dispatch};
use crate::controls::{
    OpenGpuiControlEditPlan, OpenGpuiControlOptionPlan, OpenGpuiControlPlan, OpenGpuiControlPrimitive, OpenGpuiControlSupport,
    plan_control_edit, planned_edit, primitive_is_stub, write_keeps_content,
};
use crate::json_binding::{JsonValue, bound_write_error};
use crate::json_compare::{copy_json, json_same};
use crate::inspector::{OpenGpuiInspectorPlan, find_control, is_first_control};
use crate::node_id::NodeId;
use crate::text::{owned, str_eq};

verus! {

/// Stateless adapter-local entry point for turning GPUI component events into semantic outcomes.
#[derive(Debug, Clone, Copy, Default)]
pub struct OpenGpuiAuthoringController;

/// Typed value emitted by a local Open GPUI component.
#[derive(Debug, PartialEq, Eq)]
pub enum OpenGpuiControlEventValue {
    Text(String),
    Bool(bool),
    Json(JsonValue),
    /// The key a select component reports for the chosen option.
    SelectOptionKey(String),
}

/// The JSON value a value event carries: text as a string, a flag as a
/// boolean, JSON as itself. (A select event carries a key instead; it is
/// resolved against the control's options.)
pub open spec fn spec_event_value(event: OpenGpuiControlEventValue) -> JsonValue {
    match event {
        OpenGpuiControlEventValue::Text(s) => JsonValue::String(s),
        OpenGpuiControlEventValue::Bool(b) => JsonValue::Bool(b),
        OpenGpuiControlEventValue::Json(v) => v,
        OpenGpuiControlEventValue::SelectOptionKey(_) => JsonValue::Null,
    }
}

/// The outcome of editing `control` with `value`: skipped before the value
/// is read when the control says so; otherwise the write's error, or the
/// planned change, or skipped as unchanged when the content stays the same.
pub open spec fn edit_outcome(
    r: Result<OpenGpuiAuthoringOutcome<OpenGpuiControlEditPlan>, String>,
    node_id: NodeId,
    node_data: JsonValue,
    control: OpenGpuiControlPlan,
    value: JsonValue,
) -> bool {
    match spec_control_skip(control) {
        Some(skip) => r matches Ok(OpenGpuiAuthoringOutcome::Skipped(reason)) && same_reason(reason, skip),
        None => {
            let b = control.binding->0;
            match bound_write_error(node_data, b) {
                Some(e) => r is Err && r->Err_0@ == e,
                None => match r {
                    Ok(OpenGpuiAuthoringOutcome::Planned(plan)) => planned_edit(plan, node_id, node_data, b, value),
                    Ok(OpenGpuiAuthoringOutcome::Skipped(reason)) => write_keeps_content(node_data, b, value)
                        && same_reason(reason, OpenGpuiAuthoringSkipReason::UnchangedControl { control_key: control.key }),
                    Err(_) => false,
                },
            }
        },
    }
}

/// Adapter authoring outcome. `Skipped` is explicit so GPUI callers do not infer intent from
/// `None`.
#[derive(Debug, Clone, PartialEq)]
pub enum OpenGpuiAuthoringOutcome<T> {
    Planned(T),
    Skipped(OpenGpuiAuthoringSkipReason),
}

impl<T> OpenGpuiAuthoringOutcome<T> {
    pub fn is_planned(&self) -> (planned: bool)
        ensures
            planned == (self is Planned),
    {
        match self {
            OpenGpuiAuthoringOutcome::Planned(_) => true,
            OpenGpuiAuthoringOutcome::Skipped(_) => false,
        }
    }

    pub fn skip_reason(&self) -> (reason: Option<&OpenGpuiAuthoringSkipReason>)
        ensures
            match *self {
                OpenGpuiAuthoringOutcome::Planned(_) => reason is None,
                OpenGpuiAuthoringOutcome::Skipped(r) => reason == Some(&r),
            },
    {
        match self {
            OpenGpuiAuthoringOutcome::Planned(_) => None,
            OpenGpuiAuthoringOutcome::Skipped(reason) => Some(reason),
        }
    }

    pub fn into_plan(self) -> (plan: Option<T>)
        ensures
            match self {
                OpenGpuiAuthoringOutcome::Planned(p) => plan == Some(p),
                OpenGpuiAuthoringOutcome::Skipped(_) => plan is None,
            },
    {
        match self {
            OpenGpuiAuthoringOutcome::Planned(plan) => Some(plan),
            OpenGpuiAuthoringOutcome::Skipped(_) => None,
        }
    }
}

/// Reason a GPUI component event was intentionally ignored.
#[derive(Debug, Clone, PartialEq, Eq)]
pub enum OpenGpuiAuthoringSkipReason {
    DisabledControl { control_key: String, reason: String },
    ReadOnlyControl { control_key: String },
    StubControl { control_key: String, primitive: OpenGpuiControlPrimitive },
    UnsupportedControl { control_key: String, support: OpenGpuiControlSupport },
    NoWritableBinding { control_key: String },
    UnchangedControl { control_key: String },
    MissingSelectOption { control_key: String, option_key: String },
    DisabledSelectOption { control_key: String, option_key: String },
    MissingInspectorControl { inspector_key: String, control_key: String },
    MissingAction { menu_key: String, action_key: String },
    DisabledAction { action_key: String, reason: Option<String> },
}

/// Why a control event is skipped before its value is read, if it is: in
/// order, a disabled control, a read-only one, a stub primitive, an
/// unsupported control, and a control without a writable binding.
pub open spec fn spec_control_skip(c: OpenGpuiControlPlan) -> Option<OpenGpuiAuthoringSkipReason> {
    if c.disabled_reason is Some {
        Some(OpenGpuiAuthoringSkipReason::DisabledControl { control_key: c.key, reason: c.disabled_reason->0 })
    } else if c.read_only {
        Some(OpenGpuiAuthoringSkipReason::ReadOnlyControl { control_key: c.key })
    } else if primitive_is_stub(c.primitive) {
        Some(OpenGpuiAuthoringSkipReason::StubControl { control_key: c.key, primitive: c.primitive })
    } else if c.support == OpenGpuiControlSupport::Unsupported {
        Some(OpenGpuiAuthoringSkipReason::UnsupportedControl { control_key: c.key, support: c.support })
    } else if c.binding is None {
        Some(OpenGpuiAuthoringSkipReason::NoWritableBinding { control_key: c.key })
    } else {
        None
    }
}

fn copy_string(s: &String) -> (t: String)
    ensures
        t@ == s@,
{
    owned(s.as_str())
}

/// Why a control event is skipped before its value is read, if it is.
pub fn skip_control_before_value(control: &OpenGpuiControlPlan) -> (skip: Option<OpenGpuiAuthoringSkipReason>)
    ensures
        skip_reason_text_matches(skip, spec_control_skip(*control)),
{
    match &control.disabled_reason {
        Some(reason) => {
            return Some(OpenGpuiAuthoringSkipReason::DisabledControl {
                control_key: copy_string(&control.key),
                reason: copy_string(reason),
            });
        },
        None => {},
    }
    if control.read_only {
        return Some(OpenGpuiAuthoringSkipReason::ReadOnlyControl { control_key: copy_string(&control.key) });
    }
    if control.primitive.is_stub() {
        return Some(OpenGpuiAuthoringSkipReason::StubControl {
            control_key: copy_string(&control.key),
            primitive: control.primitive,
        });
    }
    if control.support == OpenGpuiControlSupport::Unsupported {
        return Some(OpenGpuiAuthoringSkipReason::UnsupportedControl {
            control_key: copy_string(&control.key),
            support: control.support,
        });
    }
    if control.binding.is_none() {
        return Some(OpenGpuiAuthoringSkipReason::NoWritableBinding { control_key: copy_string(&control.key) });
    }
    None
}

/// Two skip reasons of the same kind with the same texts and values.
pub open spec fn same_reason(a: OpenGpuiAuthoringSkipReason, b: OpenGpuiAuthoringSkipReason) -> bool {
    match (a, b) {
        (OpenGpuiAuthoringSkipReason::DisabledControl { control_key: k1, reason: r1 },
            OpenGpuiAuthoringSkipReason::DisabledControl { control_key: k2, reason: r2 }) => k1@ == k2@ && r1@ == r2@,
        (OpenGpuiAuthoringSkipReason::ReadOnlyControl { control_key: k1 },
            OpenGpuiAuthoringSkipReason::ReadOnlyControl { control_key: k2 }) => k1@ == k2@,
        (OpenGpuiAuthoringSkipReason::StubControl { control_key: k1, primitive: p1 },
            OpenGpuiAuthoringSkipReason::StubControl { control_key: k2, primitive: p2 }) => k1@ == k2@ && p1 == p2,
        (OpenGpuiAuthoringSkipReason::UnsupportedControl { control_key: k1, support: s1 },
            OpenGpuiAuthoringSkipReason::UnsupportedControl { control_key: k2, support: s2 }) => k1@ == k2@ && s1 == s2,
        (OpenGpuiAuthoringSkipReason::NoWritableBinding { control_key: k1 },
            OpenGpuiAuthoringSkipReason::NoWritableBinding { control_key: k2 }) => k1@ == k2@,
        (OpenGpuiAuthoringSkipReason::UnchangedControl { control_key: k1 },
            OpenGpuiAuthoringSkipReason::UnchangedControl { control_key: k2 }) => k1@ == k2@,
        (OpenGpuiAuthoringSkipReason::MissingSelectOption { control_key: k1, option_key: o1 },
            OpenGpuiAuthoringSkipReason::MissingSelectOption { control_key: k2, option_key: o2 }) => k1@ == k2@ && o1@ == o2@,
        (OpenGpuiAuthoringSkipReason::DisabledSelectOption { control_key: k1, option_key: o1 },
            OpenGpuiAuthoringSkipReason::DisabledSelectOption { control_key: k2, option_key: o2 }) => k1@ == k2@ && o1@ == o2@,
        (OpenGpuiAuthoringSkipReason::MissingInspectorControl { inspector_key: i1, control_key: k1 },
            OpenGpuiAuthoringSkipReason::MissingInspectorControl { inspector_key: i2, control_key: k2 }) => i1@ == i2@ && k1@ == k2@,
        (OpenGpuiAuthoringSkipReason::MissingAction { menu_key: m1, action_key: a1 },
            OpenGpuiAuthoringSkipReason::MissingAction { menu_key: m2, action_key: a2 }) => m1@ == m2@ && a1@ == a2@,
        (OpenGpuiAuthoringSkipReason::DisabledAction { action_key: a1, reason: r1 },
            OpenGpuiAuthoringSkipReason::DisabledAction { action_key: a2, reason: r2 }) => a1@ == a2@ && match (r1, r2) {
                (None, None) => true,
                (Some(x), Some(y)) => x@ == y@,
                _ => false,
            },
        _ => false,
    }
}

/// Both are absent, or both are the same reason.
pub open spec fn skip_reason_text_matches(a: Option<OpenGpuiAuthoringSkipReason>, b: Option<OpenGpuiAuthoringSkipReason>) -> bool {
    match (a, b) {
        (None, None) => true,
        (Some(x), Some(y)) => same_reason(x, y),
        _ => false,
    }
}

/// `i` is the first action with `key`.
pub open spec fn is_first_with_key(actions: Seq<OpenGpuiActionPlan>, key: Seq<char>, i: int) -> bool {
    &&& 0 <= i < actions.len()
    &&& actions[i].key@ == key
    &&& forall|j: int| 0 <= j < i ==> #[trigger] actions[j].key@ != key
}

/// `i` is the first position whose key is `key`.
pub open spec fn is_first_key(keys: Seq<Seq<char>>, key: Seq<char>, i: int) -> bool {
    &&& 0 <= i < keys.len()
    &&& keys[i] == key
    &&& forall|j: int| 0 <= j < i ==> #[trigger] keys[j] != key
}

#[verifier::external_type_specification]
#[verifier::external_body]
pub struct ExSerdeJsonValue(serde_json::Value);

/// The text that `serde_json::to_string` writes for the `serde_json` form
/// of a value.
pub uninterp spec fn spec_json_text(value: JsonValue) -> Seq<char>;

/// The `serde_json` form of a value, variant for variant; a number's text
/// that `serde_json` does not read as a number is kept as a string.
#[verifier::external_body]
fn serde_value(value: &JsonValue) -> serde_json::Value {
    match value {
        JsonValue::Null => serde_json::Value::Null,
        JsonValue::Bool(b) => serde_json::Value::Bool(*b),
        JsonValue::Number(t) => serde_json::from_str(t).unwrap_or_else(|_| serde_json::Value::String(t.clone())),
        JsonValue::String(s) => serde_json::Value::String(s.clone()),
        JsonValue::Array(items) => serde_json::Value::Array(items.iter().map(serde_value).collect()),
        JsonValue::Object(members) => serde_json::Value::Object(members.iter().map(|m| (m.key.clone(), serde_value(&m.value))).collect()),
    }
}

/// The key a select component reports for an option value: its JSON text,
/// as `serde_json::to_string` writes it (falling back to the value's
/// display form, which is the same text, should serialising fail).
///
/// Trusted: the result is named by `spec_json_text` of the value; nothing
/// more is claimed of the text.
#[verifier::external_body]
pub fn control_option_value_key(value: &JsonValue) -> (key: String)
    ensures
        key@ == spec_json_text(*value),
{
    let v = serde_value(value);
    serde_json::to_string(&v).unwrap_or_else(|_| v.to_string())
}

/// The key of one option: the JSON text of its value.
pub fn control_option_key(option: &OpenGpuiControlOptionPlan) -> (key: String)
    ensures
        key@ == spec_json_text(option.value),
{
    control_option_value_key(&option.value)
}

/// The key of the control's current value, if it has one.
pub fn control_selected_option_key(control: &OpenGpuiControlPlan) -> (key: Option<String>)
    ensures
        match control.value {
            Some(v) => key is Some && key->0@ == spec_json_text(v),
            None => key is None,
        },
{
    match &control.value {
        Some(v) => Some(control_option_value_key(v)),
        None => None,
    }
}

/// The keys of options, in order.
pub open spec fn option_texts(options: Seq<OpenGpuiControlOptionPlan>) -> Seq<Seq<char>> {
    options.map_values(|o: OpenGpuiControlOptionPlan| spec_json_text(o.value))
}

/// The keys of a control's options, in order.
pub fn control_option_keys(control: &OpenGpuiControlPlan) -> (keys: Vec<String>)
    ensures
        keys@.len() == control.options@.len(),
        forall|i: int| 0 <= i < keys@.len() ==> (#[trigger] keys@[i])@ == option_texts(control.options@)[i],
{
    let mut keys: Vec<String> = Vec::new();
    let mut i: usize = 0;
    while i < control.options.len()
        invariant
            i <= control.options@.len(),
            keys@.len() == i,
            forall|j: int| 0 <= j < i ==> (#[trigger] keys@[j])@ == option_texts(control.options@)[j],
        decreases control.options.len() - i,
    {
        keys.push(control_option_key(&control.options[i]));
        i = i + 1;
    }
    keys
}

/// The texts of some keys, in order.
pub open spec fn key_texts(keys: Seq<String>) -> Seq<Seq<char>> {
    keys.map_values(|k: String| k@)
}

/// The outcome of resolving `option_key` against `control`'s options, whose
/// keys are `keys`: the value of the first option whose key it is, unless
/// there is none or that option is disabled.
pub open spec fn resolved_option(
    outcome: OpenGpuiAuthoringOutcome<JsonValue>,
    control: OpenGpuiControlPlan,
    keys: Seq<Seq<char>>,
    option_key: Seq<char>,
) -> bool {
    match outcome {
        OpenGpuiAuthoringOutcome::Planned(v) => exists|i: int| is_first_key(keys, option_key, i)
            && !control.options@[i].disabled && json_same(v, control.options@[i].value),
        OpenGpuiAuthoringOutcome::Skipped(OpenGpuiAuthoringSkipReason::MissingSelectOption { control_key: k, option_key: o }) =>
            k@ == control.key@ && o@ == option_key
            && forall|j: int| 0 <= j < keys.len() ==> #[trigger] keys[j] != option_key,
        OpenGpuiAuthoringOutcome::Skipped(OpenGpuiAuthoringSkipReason::DisabledSelectOption { control_key: k, option_key: o }) =>
            k@ == control.key@ && o@ == option_key
            && exists|i: int| is_first_key(keys, option_key, i) && control.options@[i].disabled,
        _ => false,
    }
}

/// Choose the option of `control` whose key is `option_key`, given the
/// options' keys in order: the first such option's value, unless there is
/// none or it is disabled.
pub fn select_option_by_key(
    control: &OpenGpuiControlPlan,
    option_keys: &Vec<String>,
    option_key: &str,
) -> (outcome: OpenGpuiAuthoringOutcome<JsonValue>)
    requires
        option_keys@.len() == control.options@.len(),
    ensures
        resolved_option(outcome, *control, key_texts(option_keys@), option_key@),
{
    let ghost keys = key_texts(option_keys@);
    let mut i: usize = 0;
    while i < option_keys.len()
        invariant
            i <= option_keys@.len(),
            option_keys@.len() == control.options@.len(),
            keys == key_texts(option_keys@),
            forall|j: int| 0 <= j < i ==> #[trigger] keys[j] != option_key@,
        decreases option_keys.len() - i,
    {
        if str_eq(option_keys[i].as_str(), option_key) {
            proof {
                assert(is_first_key(keys, option_key@, i as int));
            }
            if control.options[i].disabled {
                return OpenGpuiAuthoringOutcome::Skipped(OpenGpuiAuthoringSkipReason::DisabledSelectOption {
                    control_key: copy_string(&control.key),
                    option_key: owned(option_key),
                });
            }
            return OpenGpuiAuthoringOutcome::Planned(copy_json(&control.options[i].value));
        }
        i = i + 1;
    }
    OpenGpuiAuthoringOutcome::Skipped(OpenGpuiAuthoringSkipReason::MissingSelectOption {
        control_key: copy_string(&control.key),
        option_key: owned(option_key),
    })
}

/// Resolve a select event to the value of the chosen option: the first
/// option whose key (its value's JSON text) is the event's key, unless
/// there is none or it is disabled.
pub fn resolve_select_option(
    control: &OpenGpuiControlPlan,
    option_key: &str,
) -> (outcome: OpenGpuiAuthoringOutcome<JsonValue>)
    ensures
        resolved_option(outcome, *control, option_texts(control.options@), option_key@),
{
    let keys = control_option_keys(control);
    proof {
        assert(key_texts(keys@) =~= option_texts(control.options@));
    }
    select_option_by_key(control, &keys, option_key)
}

/// The outcome of a select event on `control`: skipped when the control
/// says so, or when the option is missing or disabled; otherwise the edit
/// with the chosen option's value.
pub open spec fn select_outcome(
    r: Result<OpenGpuiAuthoringOutcome<OpenGpuiControlEditPlan>, String>,
    node_id: NodeId,
    node_data: JsonValue,
    control: OpenGpuiControlPlan,
    option_key: Seq<char>,
) -> bool {
    let keys = option_texts(control.options@);
    match spec_control_skip(control) {
        Some(skip) => r matches Ok(OpenGpuiAuthoringOutcome::Skipped(reason)) && same_reason(reason, skip),
        None => {
            ||| {
                &&& forall|j: int| 0 <= j < keys.len() ==> #[trigger] keys[j] != option_key
                &&& (r matches Ok(OpenGpuiAuthoringOutcome::Skipped(
                    OpenGpuiAuthoringSkipReason::MissingSelectOption { control_key: k, option_key: o }))
                    && k@ == control.key@ && o@ == option_key)
            }
            ||| exists|i: int| is_first_key(keys, option_key, i) && {
                if control.options@[i].disabled {
                    (r matches Ok(OpenGpuiAuthoringOutcome::Skipped(
                        OpenGpuiAuthoringSkipReason::DisabledSelectOption { control_key: k, option_key: o }))
                        && k@ == control.key@ && o@ == option_key)
                } else {
                    exists|v: JsonValue| json_same(v, control.options@[i].value) && edit_outcome(r, node_id, node_data, control, v)
                }
            }
        },
    }
}

/// The outcome of a component event on `control`: a select event as
/// `select_outcome`, any other as an edit with the value it carries.
pub open spec fn event_outcome(
    r: Result<OpenGpuiAuthoringOutcome<OpenGpuiControlEditPlan>, String>,
    node_id: NodeId,
    node_data: JsonValue,
    control: OpenGpuiControlPlan,
    event: OpenGpuiControlEventValue,
) -> bool {
    match event {
        OpenGpuiControlEventValue::SelectOptionKey(k) => select_outcome(r, node_id, node_data, control, k@),
        _ => edit_outcome(r, node_id, node_data, control, spec_event_value(event)),
    }
}

impl OpenGpuiAuthoringController {
    /// Plans a control edit with a JSON value.
    pub fn plan_control_value_edit(
        &self,
        node_id: NodeId,
        node_data: JsonValue,
        control: &OpenGpuiControlPlan,
        value: JsonValue,
    ) -> (r: Result<OpenGpuiAuthoringOutcome<OpenGpuiControlEditPlan>, String>)
        ensures
            edit_outcome(r, node_id, node_data, *control, value),
    {
        match skip_control_before_value(control) {
            Some(reason) => {
                return Ok(OpenGpuiAuthoringOutcome::Skipped(reason));
            },
            None => {},
        }
        match plan_control_edit(node_id, node_data, control, value) {
            Ok(Some(plan)) => Ok(OpenGpuiAuthoringOutcome::Planned(plan)),
            Ok(None) => Ok(OpenGpuiAuthoringOutcome::Skipped(
                OpenGpuiAuthoringSkipReason::UnchangedControl { control_key: copy_string(&control.key) },
            )),
            Err(e) => Err(e),
        }
    }

    /// Plans a control edit from a component event.
    pub fn plan_control_event(
        &self,
        node_id: NodeId,
        node_data: JsonValue,
        control: &OpenGpuiControlPlan,
        event: OpenGpuiControlEventValue,
    ) -> (r: Result<OpenGpuiAuthoringOutcome<OpenGpuiControlEditPlan>, String>)
        ensures
            event_outcome(r, node_id, node_data, *control, event),
    {
        let value = match event {
            OpenGpuiControlEventValue::Text(s) => JsonValue::String(s),
            OpenGpuiControlEventValue::Bool(b) => JsonValue::Bool(b),
            OpenGpuiControlEventValue::Json(v) => v,
            OpenGpuiControlEventValue::SelectOptionKey(k) => {
                return self.plan_control_select_edit(node_id, node_data, control, k.as_str());
            },
        };
        self.plan_control_value_edit(node_id, node_data, control, value)
    }

    /// Plans a select edit of a control: skipped when the control says so,
    /// or when the option is missing or disabled; otherwise the edit with
    /// the chosen option's value.
    pub fn plan_control_select_edit(
        &self,
        node_id: NodeId,
        node_data: JsonValue,
        control: &OpenGpuiControlPlan,
        option_key: &str,
    ) -> (r: Result<OpenGpuiAuthoringOutcome<OpenGpuiControlEditPlan>, String>)
        ensures
            select_outcome(r, node_id, node_data, *control, option_key@),
    {
        match skip_control_before_value(control) {
            Some(reason) => {
                return Ok(OpenGpuiAuthoringOutcome::Skipped(reason));
            },
            None => {},
        }
        match resolve_select_option(control, option_key) {
            OpenGpuiAuthoringOutcome::Planned(value) => self.plan_control_value_edit(node_id, node_data, control, value),
            OpenGpuiAuthoringOutcome::Skipped(reason) => Ok(OpenGpuiAuthoringOutcome::Skipped(reason)),
        }
    }

    /// Plans an edit of an inspector's control with a JSON value: skipped
    /// when the inspector has no control with `control_key`, otherwise as
    /// `plan_control_value_edit` for the first control with that key.
    pub fn plan_inspector_control_value_edit(
        &self,
        node_id: NodeId,
        node_data: JsonValue,
        inspector: &OpenGpuiInspectorPlan,
        control_key: &str,
        value: JsonValue,
    ) -> (r: Result<OpenGpuiAuthoringOutcome<OpenGpuiControlEditPlan>, String>)
        ensures
            (forall|j: int| 0 <= j < inspector.controls@.len() ==> #[trigger] inspector.controls@[j].key@ != control_key@)
                ==> (r matches Ok(OpenGpuiAuthoringOutcome::Skipped(
                    OpenGpuiAuthoringSkipReason::MissingInspectorControl { inspector_key: i, control_key: c }))
                    && i@ == inspector.key@ && c@ == control_key@),
            forall|i: int| is_first_control(inspector.controls@, control_key@, i)
                ==> edit_outcome(r, node_id, node_data, inspector.controls@[i], value),
    {
        match find_control(&inspector.controls, control_key) {
            Some(i) => self.plan_control_value_edit(node_id, node_data, &inspector.controls[i], value),
            None => Ok(OpenGpuiAuthoringOutcome::Skipped(OpenGpuiAuthoringSkipReason::MissingInspectorControl {
                inspector_key: copy_string(&inspector.key),
                control_key: owned(control_key),
            })),
        }
    }

    /// Plans an edit of an inspector's control from a component event.
    pub fn plan_inspector_control_event(
        &self,
        node_id: NodeId,
        node_data: JsonValue,
        inspector: &OpenGpuiInspectorPlan,
        control_key: &str,
        event: OpenGpuiControlEventValue,
    ) -> (r: Result<OpenGpuiAuthoringOutcome<OpenGpuiControlEditPlan>, String>)
        ensures
            (forall|j: int| 0 <= j < inspector.controls@.len() ==> #[trigger] inspector.controls@[j].key@ != control_key@)
                ==> (r matches Ok(OpenGpuiAuthoringOutcome::Skipped(
                    OpenGpuiAuthoringSkipReason::MissingInspectorControl { inspector_key: i, control_key: c }))
                    && i@ == inspector.key@ && c@ == control_key@),
            forall|i: int| is_first_control(inspector.controls@, control_key@, i)
                ==> event_outcome(r, node_id, node_data, inspector.controls@[i], event),
    {
        match find_control(&inspector.controls, control_key) {
            Some(i) => self.plan_control_event(node_id, node_data, &inspector.controls[i], event),
            None => Ok(OpenGpuiAuthoringOutcome::Skipped(OpenGpuiAuthoringSkipReason::MissingInspectorControl {
                inspector_key: copy_string(&inspector.key),
                control_key: owned(control_key),
            })),
        }
    }

    /// Plans a text edit of a control.
    pub fn plan_control_text_edit(
        &self,
        node_id: NodeId,
        node_data: JsonValue,
        control: &OpenGpuiControlPlan,
        value: String,
    ) -> (r: Result<OpenGpuiAuthoringOutcome<OpenGpuiControlEditPlan>, String>)
        ensures
            edit_outcome(r, node_id, node_data, *control, JsonValue::String(value)),
    {
        self.plan_control_event(node_id, node_data, control, OpenGpuiControlEventValue::Text(value))
    }

    /// Plans a boolean edit of a control.
    pub fn plan_control_bool_edit(
        &self,
        node_id: NodeId,
        node_data: JsonValue,
        control: &OpenGpuiControlPlan,
        value: bool,
    ) -> (r: Result<OpenGpuiAuthoringOutcome<OpenGpuiControlEditPlan>, String>)
        ensures
            edit_outcome(r, node_id, node_data, *control, JsonValue::Bool(value)),
    {
        self.plan_control_event(node_id, node_data, control, OpenGpuiControlEventValue::Bool(value))
    }

    /// Plans the dispatch of a menu action, or why it is skipped.
    ///
    /// The first action with `action_key` decides: none is a missing action,
    /// a non-dispatchable one is a disabled action with its reason, and a
    /// dispatchable one is planned.
    pub fn plan_menu_action_dispatch(
        &self,
        menu: &OpenGpuiMenuPlan,
        action_key: &str,
    ) -> (outcome: OpenGpuiAuthoringOutcome<OpenGpuiActionDispatchPlan>)
        ensures
            match outcome {
                OpenGpuiAuthoringOutcome::Planned(p) => exists|i: int| is_first_with_key(menu.actions@, action_key@, i)
                    && menu.actions@[i].spec_dispatchable()
                    && p.action_key == menu.actions@[i].key && p.target == menu.actions@[i].target,
                OpenGpuiAuthoringOutcome::Skipped(OpenGpuiAuthoringSkipReason::MissingAction { menu_key: m, action_key: a }) =>
                    m@ == menu.key@ && a@ == action_key@
                    && forall|j: int| 0 <= j < menu.actions@.len() ==> #[trigger] menu.actions@[j].key@ != action_key@,
                OpenGpuiAuthoringOutcome::Skipped(OpenGpuiAuthoringSkipReason::DisabledAction { action_key: a, reason: r }) =>
                    a@ == action_key@ && exists|i: int| is_first_with_key(menu.actions@, action_key@, i)
                        && !menu.actions@[i].spec_dispatchable()
                        && match (r, menu.actions@[i].disabled_reason) {
                            (None, None) => true,
                            (Some(x), Some(y)) => x@ == y@,
                            _ => false,
                        },
                _ => false,
            },
    {
        let actions = &menu.actions;
        let mut i: usize = 0;
        while i < actions.len()
            invariant
                actions == &menu.actions,
                i <= actions@.len(),
                forall|j: int| 0 <= j < i ==> #[trigger] actions@[j].key@ != action_key@,
            decreases actions.len() - i,
        {
            if str_eq(actions[i].key.as_str(), action_key) {
                proof {
                    assert(is_first_with_key(actions@, action_key@, i as int));
                }
                if !actions[i].dispatchable() {
                    let reason = match &actions[i].disabled_reason {
                        Some(r) => Some(copy_string(r)),
                        None => None,
                    };
                    return OpenGpuiAuthoringOutcome::Skipped(OpenGpuiAuthoringSkipReason::DisabledAction {
                        action_key: copy_string(&actions[i].key),
                        reason,
                    });
                }
                return match plan_action_dispatch(menu, action_key) {
                    Some(plan) => {
                        proof {
                            let k = choose|k: int| crate::actions::is_first_dispatchable(actions@, action_key@, k)
                                && plan.action_key == actions@[k].key && plan.target == actions@[k].target;
                            if k != i {
                                if k < i {
                                    assert(actions@[k].key@ != action_key@);
                                } else {
                                    assert(!(actions@[i as int].key@ == action_key@
                                        && actions@[i as int].spec_dispatchable()));
                                }
                            }
                        }
                        OpenGpuiAuthoringOutcome::Planned(plan)
                    },
                    None => {
                        proof {
                            assert(!(actions@[i as int].key@ == action_key@ && actions@[i as int].spec_dispatchable()));
                        }
                        OpenGpuiAuthoringOutcome::Skipped(OpenGpuiAuthoringSkipReason::MissingAction {
                            menu_key: copy_string(&menu.key),
                            action_key: owned(action_key),
                        })
                    },
                };
            }
            i = i + 1;
        }
        OpenGpuiAuthoringOutcome::Skipped(OpenGpuiAuthoringSkipReason::MissingAction {
            menu_key: copy_string(&menu.key),
            action_key: owned(action_key),
        })
    }
}

} // verus!
