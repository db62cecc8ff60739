use vstd::prelude::*;
use crate::json_binding::{
    JsonValue, NodeControlBinding, NodeControlBindingSource, bound_write_error, bound_written,
    canonical_token, dot_segments, field_row_slot_data_path, join_data_path, lemma_bound_write_then_read,
    lookup_segments, pointer_tokens, read_bound_value,
    semantic_json_lookup, set_bound_value, spec_join_data_path, spec_read_bound,
};
use crate::json_compare::{
    copy_json, json_equal, json_same, lemma_json_same_symmetric, lemma_json_same_transitive,
};
use crate::node_id::NodeId;
use crate::projection::NodeSurfaceSlotKind;
use crate::text::{owned, push_str};

verus! {

/// Semantic control kinds declared by node schemas.
#[derive(Debug, Clone, Copy, PartialEq, Eq, Structural)]
pub enum NodeControlKind {
    TextInput,
    TextArea,
    NumberInput,
    Select,
    MultiSelect,
    Toggle,
    Code,
    Expression,
    Color,
    Asset,
    VariablePicker,
    Slider,
    PortBinding,
}

/// GPUI-local primitive family selected for a semantic control descriptor.
#[derive(Debug, Clone, Copy, PartialEq, Eq, Structural)]
pub enum OpenGpuiControlPrimitive {
    TextInput,
    TextArea,
    NumberInput,
    Select,
    MultiSelect,
    Switch,
    Slider,
    CodeEditor,
    ColorSwatch,
    AssetPickerStub,
    VariablePickerStub,
    PortBindingDisplay,
}

/// Capability level for a concrete GPUI control mapping.
#[derive(Debug, Clone, Copy, PartialEq, Eq, Structural)]
pub enum OpenGpuiControlSupport {
    Native,
    Fallback,
    Stub,
    Unsupported,
}

/// Primitives that only stand in for a control the adapter cannot edit yet.
pub open spec fn primitive_is_stub(primitive: OpenGpuiControlPrimitive) -> bool {
    primitive == OpenGpuiControlPrimitive::AssetPickerStub
        || primitive == OpenGpuiControlPrimitive::VariablePickerStub
        || primitive == OpenGpuiControlPrimitive::PortBindingDisplay
}

impl OpenGpuiControlPrimitive {
    pub fn is_stub(self) -> (stub: bool)
        ensures
            stub == primitive_is_stub(self),
    {
        match self {
            OpenGpuiControlPrimitive::AssetPickerStub
            | OpenGpuiControlPrimitive::VariablePickerStub
            | OpenGpuiControlPrimitive::PortBindingDisplay => true,
            _ => false,
        }
    }
}

/// The primitive that renders each semantic control kind.
pub open spec fn spec_primitive_for_kind(kind: NodeControlKind) -> OpenGpuiControlPrimitive {
    match kind {
        NodeControlKind::TextInput => OpenGpuiControlPrimitive::TextInput,
        NodeControlKind::TextArea => OpenGpuiControlPrimitive::TextArea,
        NodeControlKind::NumberInput => OpenGpuiControlPrimitive::NumberInput,
        NodeControlKind::Select => OpenGpuiControlPrimitive::Select,
        NodeControlKind::MultiSelect => OpenGpuiControlPrimitive::MultiSelect,
        NodeControlKind::Toggle => OpenGpuiControlPrimitive::Switch,
        NodeControlKind::Code => OpenGpuiControlPrimitive::CodeEditor,
        NodeControlKind::Expression => OpenGpuiControlPrimitive::CodeEditor,
        NodeControlKind::Color => OpenGpuiControlPrimitive::ColorSwatch,
        NodeControlKind::Asset => OpenGpuiControlPrimitive::AssetPickerStub,
        NodeControlKind::VariablePicker => OpenGpuiControlPrimitive::VariablePickerStub,
        NodeControlKind::Slider => OpenGpuiControlPrimitive::Slider,
        NodeControlKind::PortBinding => OpenGpuiControlPrimitive::PortBindingDisplay,
    }
}

/// How well the adapter supports each primitive.
pub open spec fn spec_support_for_primitive(primitive: OpenGpuiControlPrimitive) -> OpenGpuiControlSupport {
    match primitive {
        OpenGpuiControlPrimitive::TextInput
        | OpenGpuiControlPrimitive::TextArea
        | OpenGpuiControlPrimitive::NumberInput
        | OpenGpuiControlPrimitive::Select
        | OpenGpuiControlPrimitive::MultiSelect
        | OpenGpuiControlPrimitive::Switch
        | OpenGpuiControlPrimitive::Slider => OpenGpuiControlSupport::Native,
        OpenGpuiControlPrimitive::CodeEditor
        | OpenGpuiControlPrimitive::ColorSwatch => OpenGpuiControlSupport::Fallback,
        OpenGpuiControlPrimitive::AssetPickerStub
        | OpenGpuiControlPrimitive::VariablePickerStub
        | OpenGpuiControlPrimitive::PortBindingDisplay => OpenGpuiControlSupport::Stub,
    }
}

pub fn primitive_for_kind(kind: NodeControlKind) -> (primitive: OpenGpuiControlPrimitive)
    ensures
        primitive == spec_primitive_for_kind(kind),
{
    match kind {
        NodeControlKind::TextInput => OpenGpuiControlPrimitive::TextInput,
        NodeControlKind::TextArea => OpenGpuiControlPrimitive::TextArea,
        NodeControlKind::NumberInput => OpenGpuiControlPrimitive::NumberInput,
        NodeControlKind::Select => OpenGpuiControlPrimitive::Select,
        NodeControlKind::MultiSelect => OpenGpuiControlPrimitive::MultiSelect,
        NodeControlKind::Toggle => OpenGpuiControlPrimitive::Switch,
        NodeControlKind::Code | NodeControlKind::Expression => OpenGpuiControlPrimitive::CodeEditor,
        NodeControlKind::Color => OpenGpuiControlPrimitive::ColorSwatch,
        NodeControlKind::Asset => OpenGpuiControlPrimitive::AssetPickerStub,
        NodeControlKind::VariablePicker => OpenGpuiControlPrimitive::VariablePickerStub,
        NodeControlKind::Slider => OpenGpuiControlPrimitive::Slider,
        NodeControlKind::PortBinding => OpenGpuiControlPrimitive::PortBindingDisplay,
    }
}

pub fn support_for_primitive(primitive: OpenGpuiControlPrimitive) -> (support: OpenGpuiControlSupport)
    ensures
        support == spec_support_for_primitive(primitive),
{
    match primitive {
        OpenGpuiControlPrimitive::TextInput
        | OpenGpuiControlPrimitive::TextArea
        | OpenGpuiControlPrimitive::NumberInput
        | OpenGpuiControlPrimitive::Select
        | OpenGpuiControlPrimitive::MultiSelect
        | OpenGpuiControlPrimitive::Switch
        | OpenGpuiControlPrimitive::Slider => OpenGpuiControlSupport::Native,
        OpenGpuiControlPrimitive::CodeEditor
        | OpenGpuiControlPrimitive::ColorSwatch => OpenGpuiControlSupport::Fallback,
        OpenGpuiControlPrimitive::AssetPickerStub
        | OpenGpuiControlPrimitive::VariablePickerStub
        | OpenGpuiControlPrimitive::PortBindingDisplay => OpenGpuiControlSupport::Stub,
    }
}

/// A primitive is a stub exactly when the adapter reports stub support for it.
pub proof fn lemma_stub_primitives_have_stub_support(primitive: OpenGpuiControlPrimitive)
    ensures
        primitive_is_stub(primitive) <==> spec_support_for_primitive(primitive)
            == OpenGpuiControlSupport::Stub,
{
}

/// The name a report lists a control primitive under.
pub open spec fn spec_primitive_name(primitive: OpenGpuiControlPrimitive) -> Seq<char> {
    match primitive {
        OpenGpuiControlPrimitive::TextInput => "text_input"@,
        OpenGpuiControlPrimitive::TextArea => "textarea"@,
        OpenGpuiControlPrimitive::NumberInput => "number_input"@,
        OpenGpuiControlPrimitive::Select => "select"@,
        OpenGpuiControlPrimitive::MultiSelect => "multi_select"@,
        OpenGpuiControlPrimitive::Switch => "switch"@,
        OpenGpuiControlPrimitive::Slider => "slider"@,
        OpenGpuiControlPrimitive::CodeEditor => "code_editor"@,
        OpenGpuiControlPrimitive::ColorSwatch => "color_swatch"@,
        OpenGpuiControlPrimitive::AssetPickerStub => "asset_picker_stub"@,
        OpenGpuiControlPrimitive::VariablePickerStub => "variable_picker_stub"@,
        OpenGpuiControlPrimitive::PortBindingDisplay => "port_binding_display"@,
    }
}

/// The name a report lists a control primitive under.
pub fn control_primitive_name(primitive: OpenGpuiControlPrimitive) -> (name: &'static str)
    ensures
        name@ == spec_primitive_name(primitive),
{
    match primitive {
        OpenGpuiControlPrimitive::TextInput => "text_input",
        OpenGpuiControlPrimitive::TextArea => "textarea",
        OpenGpuiControlPrimitive::NumberInput => "number_input",
        OpenGpuiControlPrimitive::Select => "select",
        OpenGpuiControlPrimitive::MultiSelect => "multi_select",
        OpenGpuiControlPrimitive::Switch => "switch",
        OpenGpuiControlPrimitive::Slider => "slider",
        OpenGpuiControlPrimitive::CodeEditor => "code_editor",
        OpenGpuiControlPrimitive::ColorSwatch => "color_swatch",
        OpenGpuiControlPrimitive::AssetPickerStub => "asset_picker_stub",
        OpenGpuiControlPrimitive::VariablePickerStub => "variable_picker_stub",
        OpenGpuiControlPrimitive::PortBindingDisplay => "port_binding_display",
    }
}

/// Distinct primitives are listed under distinct names, so a report's set
/// of names counts its primitives.
pub proof fn lemma_primitive_names_distinct(a: OpenGpuiControlPrimitive, b: OpenGpuiControlPrimitive)
    requires
        spec_primitive_name(a) == spec_primitive_name(b),
    ensures
        a == b,
{
    reveal_strlit("text_input");
    reveal_strlit("textarea");
    reveal_strlit("number_input");
    reveal_strlit("select");
    reveal_strlit("multi_select");
    reveal_strlit("switch");
    reveal_strlit("slider");
    reveal_strlit("code_editor");
    reveal_strlit("color_swatch");
    reveal_strlit("asset_picker_stub");
    reveal_strlit("variable_picker_stub");
    reveal_strlit("port_binding_display");
    if a != b {
        let x = spec_primitive_name(a);
        let y = spec_primitive_name(b);
        assert(x.len() != y.len() || exists|i: int| 0 <= i < x.len() && x[i] != y[i]) by {
            if x.len() == y.len() {
                if x[0] != y[0] {
                    assert(x[0] != y[0]);
                } else if x[1] != y[1] {
                    assert(x[1] != y[1]);
                } else {
                    assert(x[2] != y[2]);
                }
            }
        }
    }
}

// ---------------------------------------------------------------------
// Projection of control descriptors

/// One option of a select-like control descriptor.
#[derive(Debug, PartialEq, Eq)]
pub struct NodeControlOption {
    pub value: JsonValue,
    pub label: String,
    pub disabled: bool,
}

/// What projection reads of a semantic control descriptor: its key, the
/// label it displays (if any), its kind, binding, slot path, options,
/// presentation texts and editability.
#[derive(Debug, PartialEq, Eq)]
pub struct NodeControlDescriptor {
    pub key: String,
    pub display_label: Option<String>,
    pub kind: NodeControlKind,
    pub binding: Option<NodeControlBinding>,
    pub slot: Option<String>,
    pub options: Vec<NodeControlOption>,
    pub placeholder: Option<String>,
    pub help_text: Option<String>,
    pub disabled_reason: Option<String>,
    pub read_only: bool,
    pub secret: bool,
}

/// What projection reads of the surface slot a control sits in: its kind
/// and the node-data key the slot declares, if any.
#[derive(Debug, Clone, PartialEq, Eq)]
pub struct NodeSurfaceSlotFacts {
    pub kind: NodeSurfaceSlotKind,
    pub data_key: Option<String>,
}

/// Context needed to resolve a semantic control inside a slot or repeatable item.
#[derive(Debug, Clone, Copy, Default)]
pub struct OpenGpuiControlProjectionContext<'a> {
    pub slot: Option<&'a NodeSurfaceSlotFacts>,
    pub item_data: Option<&'a JsonValue>,
    pub item_path: Option<&'a str>,
}

/// What a control projection reads of its context, as values: the slot's
/// kind and data key, the repeatable item's data and its path.
pub struct ControlContextView {
    pub slot: Option<(NodeSurfaceSlotKind, Option<Seq<char>>)>,
    pub item_data: Option<JsonValue>,
    pub item_path: Option<Seq<char>>,
}

/// The values a projection context holds.
pub open spec fn context_view(ctx: OpenGpuiControlProjectionContext) -> ControlContextView {
    ControlContextView {
        slot: match ctx.slot {
            Some(s) => Some((s.kind, match s.data_key {
                Some(k) => Some(k@),
                None => None,
            })),
            None => None,
        },
        item_data: match ctx.item_data {
            Some(d) => Some(*d),
            None => None,
        },
        item_path: match ctx.item_path {
            Some(p) => Some(p@),
            None => None,
        },
    }
}

/// The context's slot is a field row.
pub open spec fn in_field_row(ctx: ControlContextView) -> bool {
    match ctx.slot {
        Some((kind, _)) => kind == NodeSurfaceSlotKind::FieldRow,
        None => false,
    }
}

/// The binding a control declares, else its slot path as a data path, else
/// the data key of the context's slot as a slot binding.
pub open spec fn spec_declared_binding(
    control: NodeControlDescriptor,
    ctx: ControlContextView,
) -> Option<(NodeControlBindingSource, Seq<char>)> {
    match control.binding {
        Some(b) => Some((b.source, b.path@)),
        None => match control.slot {
            Some(path) => Some((NodeControlBindingSource::DataPath, path@)),
            None => match ctx.slot {
                Some((_, Some(key))) => Some((NodeControlBindingSource::Slot, key)),
                _ => None,
            },
        },
    }
}

/// The binding a projected control writes through.
///
/// Inside a repeatable item, data paths and slots are joined under the
/// item's path and other sources are not writable. Elsewhere data paths and
/// pointers are kept, a slot becomes a data path (under `fields` in a field
/// row), and graph symbols and port anchors are not writable.
pub open spec fn spec_write_binding(
    control: NodeControlDescriptor,
    ctx: ControlContextView,
) -> Option<(NodeControlBindingSource, Seq<char>)> {
    match spec_declared_binding(control, ctx) {
        None => None,
        Some((source, path)) => match ctx.item_path {
            Some(item_path) => if source == NodeControlBindingSource::DataPath || source == NodeControlBindingSource::Slot {
                Some((NodeControlBindingSource::DataPath, spec_join_data_path(item_path, path)))
            } else {
                None
            },
            None => if source == NodeControlBindingSource::DataPath || source == NodeControlBindingSource::JsonPointer {
                Some((source, path))
            } else if source == NodeControlBindingSource::Slot {
                Some((NodeControlBindingSource::DataPath, if in_field_row(ctx) { spec_join_data_path("fields"@, path) } else { path }))
            } else {
                None
            },
        },
    }
}

/// An exec binding and a (source, path) pair say the same.
pub open spec fn binding_is(b: Option<NodeControlBinding>, s: Option<(NodeControlBindingSource, Seq<char>)>) -> bool {
    match (b, s) {
        (None, None) => true,
        (Some(b), Some((source, path))) => b.source == source && b.path@ == path,
        _ => false,
    }
}

fn copy_binding(b: &NodeControlBinding) -> (c: NodeControlBinding)
    ensures
        c.source == b.source && c.path@ == b.path@,
{
    NodeControlBinding { source: b.source, path: owned(b.path.as_str()) }
}

/// The binding a projected control writes through.
pub fn control_write_binding(
    control: &NodeControlDescriptor,
    context: OpenGpuiControlProjectionContext,
) -> (binding: Option<NodeControlBinding>)
    ensures
        binding_is(binding, spec_write_binding(*control, context_view(context))),
{
    let declared = match &control.binding {
        Some(b) => copy_binding(b),
        None => match &control.slot {
            Some(path) => NodeControlBinding::data_path(owned(path.as_str())),
            None => match context.slot {
                Some(slot) => match &slot.data_key {
                    Some(key) => NodeControlBinding::slot(owned(key.as_str())),
                    None => {
                        return None;
                    },
                },
                None => {
                    return None;
                },
            },
        },
    };
    match context.item_path {
        Some(item_path) => match declared.source {
            NodeControlBindingSource::DataPath | NodeControlBindingSource::Slot => {
                Some(NodeControlBinding::data_path(join_data_path(item_path, declared.path.as_str())))
            },
            _ => None,
        },
        None => match declared.source {
            NodeControlBindingSource::DataPath | NodeControlBindingSource::JsonPointer => Some(declared),
            NodeControlBindingSource::Slot => {
                let in_row = match context.slot {
                    Some(slot) => slot.kind == NodeSurfaceSlotKind::FieldRow,
                    None => false,
                };
                if in_row {
                    Some(NodeControlBinding::data_path(field_row_slot_data_path(declared.path.as_str())))
                } else {
                    Some(NodeControlBinding::data_path(declared.path))
                }
            },
            _ => None,
        },
    }
}


/// The value at a dot path, or nothing without a path.
pub open spec fn lookup_opt_path(data: JsonValue, path: Option<String>) -> Option<JsonValue> {
    match path {
        Some(p) => lookup_segments(data, dot_segments(p@)),
        None => None,
    }
}

/// Binding sources that read node data.
pub open spec fn reads_node_data(source: NodeControlBindingSource) -> bool {
    source == NodeControlBindingSource::DataPath || source == NodeControlBindingSource::Slot
        || source == NodeControlBindingSource::JsonPointer
}

/// The value a control shows.
///
/// Inside a repeatable item: what the binding reads from the item, else
/// the item's value at the control's slot path. Elsewhere a binding that
/// reads node data decides (a slot binding in a field row first looks in
/// `fields`); otherwise the value at the control's slot path, else at the
/// data key of the context's slot.
pub open spec fn spec_current_value(
    data: JsonValue,
    control: NodeControlDescriptor,
    ctx: ControlContextView,
) -> Option<JsonValue> {
    match ctx.item_data {
        Some(item) => {
            let bound = match control.binding {
                Some(b) => spec_read_bound(item, b, false),
                None => None,
            };
            if bound is Some { bound } else { lookup_opt_path(item, control.slot) }
        },
        None => {
            if control.binding is Some && reads_node_data(control.binding->0.source) {
                let b = control.binding->0;
                spec_read_bound(data, b, b.source == NodeControlBindingSource::Slot && in_field_row(ctx))
            } else {
                let own = lookup_opt_path(data, control.slot);
                if own is Some {
                    own
                } else {
                    match ctx.slot {
                        Some((_, Some(key))) => lookup_segments(data, dot_segments(key)),
                        _ => None,
                    }
                }
            }
        },
    }
}

fn lookup_path_opt<'a>(data: &'a JsonValue, path: &Option<String>) -> (found: Option<&'a JsonValue>)
    ensures
        match found {
            Some(v) => lookup_opt_path(*data, *path) == Some(*v),
            None => lookup_opt_path(*data, *path) is None,
        },
{
    match path {
        Some(p) => semantic_json_lookup(data, p.as_str()),
        None => None,
    }
}

/// The value a control shows, read from node data or the repeatable item.
pub fn control_current_value<'a>(
    node_data: &'a JsonValue,
    control: &NodeControlDescriptor,
    context: OpenGpuiControlProjectionContext<'a>,
) -> (value: Option<&'a JsonValue>)
    ensures
        match value {
            Some(v) => spec_current_value(*node_data, *control, context_view(context)) == Some(*v),
            None => spec_current_value(*node_data, *control, context_view(context)) is None,
        },
{
    match context.item_data {
        Some(item) => {
            let bound = match &control.binding {
                Some(b) => read_bound_value(item, b, false),
                None => None,
            };
            match bound {
                Some(v) => Some(v),
                None => lookup_path_opt(item, &control.slot),
            }
        },
        None => {
            match &control.binding {
                Some(b) => match b.source {
                    NodeControlBindingSource::DataPath => {
                        return read_bound_value(node_data, b, false);
                    },
                    NodeControlBindingSource::Slot => {
                        let in_row = match context.slot {
                            Some(slot) => slot.kind == NodeSurfaceSlotKind::FieldRow,
                            None => false,
                        };
                        return read_bound_value(node_data, b, in_row);
                    },
                    NodeControlBindingSource::JsonPointer => {
                        return read_bound_value(node_data, b, false);
                    },
                    _ => {},
                },
                None => {},
            }
            match lookup_path_opt(node_data, &control.slot) {
                Some(v) => Some(v),
                None => match context.slot {
                    Some(slot) => lookup_path_opt(node_data, &slot.data_key),
                    None => None,
                },
            }
        },
    }
}


/// Adapter-facing render plan for one select-like option.
#[derive(Debug, PartialEq, Eq)]
pub struct OpenGpuiControlOptionPlan {
    pub value: JsonValue,
    pub label: String,
    pub disabled: bool,
}

/// Adapter-facing render plan for one semantic control.
#[derive(Debug, PartialEq, Eq)]
pub struct OpenGpuiControlPlan {
    pub key: String,
    pub label: String,
    pub kind: NodeControlKind,
    pub primitive: OpenGpuiControlPrimitive,
    pub support: OpenGpuiControlSupport,
    pub value: Option<JsonValue>,
    pub binding: Option<NodeControlBinding>,
    pub options: Vec<OpenGpuiControlOptionPlan>,
    pub placeholder: Option<String>,
    pub help_text: Option<String>,
    pub disabled_reason: Option<String>,
    pub read_only: bool,
    pub secret: bool,
}

/// A control takes edits: it has a writable binding and is neither
/// disabled nor read-only.
pub open spec fn spec_is_editable(control: OpenGpuiControlPlan) -> bool {
    control.binding is Some && control.disabled_reason is None && !control.read_only
}

/// A control only partly renders: stub support, or a stub primitive.
pub open spec fn spec_is_partial_stub(control: OpenGpuiControlPlan) -> bool {
    control.support == OpenGpuiControlSupport::Stub || primitive_is_stub(control.primitive)
}

impl OpenGpuiControlPlan {
    pub fn is_editable(&self) -> (editable: bool)
        ensures
            editable == spec_is_editable(*self),
    {
        self.binding.is_some() && self.disabled_reason.is_none() && !self.read_only
    }

    pub fn is_partial_stub(&self) -> (stub: bool)
        ensures
            stub == spec_is_partial_stub(*self),
    {
        self.support == OpenGpuiControlSupport::Stub || self.primitive.is_stub()
    }
}

/// Both values are absent, or both are present with the same content.
pub open spec fn opt_json_same(a: Option<JsonValue>, b: Option<JsonValue>) -> bool {
    match (a, b) {
        (None, None) => true,
        (Some(x), Some(y)) => json_same(x, y),
        _ => false,
    }
}

fn copy_opt_text(o: &Option<String>) -> (c: Option<String>)
    ensures
        c == *o,
{
    match o {
        Some(s) => Some(s.clone()),
        None => None,
    }
}

/// `plan` renders `control` over `data` in context `ctx`: its label (the
/// display label, else the key), the primitive and support for its kind,
/// the value it shows, the binding it writes through, its options and its
/// presentation and editability as declared.
pub open spec fn control_projected(
    plan: OpenGpuiControlPlan,
    data: JsonValue,
    control: NodeControlDescriptor,
    ctx: ControlContextView,
) -> bool {
    &&& plan.key == control.key
    &&& plan.label == (match control.display_label {
        Some(l) => l,
        None => control.key,
    })
    &&& plan.kind == control.kind
    &&& plan.primitive == spec_primitive_for_kind(control.kind)
    &&& plan.support == spec_support_for_primitive(plan.primitive)
    &&& opt_json_same(plan.value, spec_current_value(data, control, ctx))
    &&& binding_is(plan.binding, spec_write_binding(control, ctx))
    &&& plan.options@.len() == control.options@.len()
    &&& forall|i: int| 0 <= i < plan.options@.len() ==> json_same(#[trigger] plan.options@[i].value, control.options@[i].value)
        && plan.options@[i].label == control.options@[i].label
        && plan.options@[i].disabled == control.options@[i].disabled
    &&& plan.placeholder == control.placeholder
    &&& plan.help_text == control.help_text
    &&& plan.disabled_reason == control.disabled_reason
    &&& plan.read_only == control.read_only
    &&& plan.secret == control.secret
}

/// Build a render plan for one semantic control descriptor: its label
/// (the display label, else the key), the primitive and support for its
/// kind, the value it shows, the binding it writes through, its options
/// and its presentation and editability as declared.
pub fn project_control(
    node_data: &JsonValue,
    control: &NodeControlDescriptor,
    context: OpenGpuiControlProjectionContext,
) -> (plan: OpenGpuiControlPlan)
    ensures
        control_projected(plan, *node_data, *control, context_view(context)),
{
    let binding = control_write_binding(control, context);
    let value = match control_current_value(node_data, control, context) {
        Some(v) => Some(copy_json(v)),
        None => None,
    };
    let primitive = primitive_for_kind(control.kind);
    let support = support_for_primitive(primitive);
    let mut options: Vec<OpenGpuiControlOptionPlan> = Vec::new();
    let mut i: usize = 0;
    while i < control.options.len()
        invariant
            i <= control.options@.len(),
            options@.len() == i,
            forall|j: int| 0 <= j < i ==> json_same(#[trigger] options@[j].value, control.options@[j].value)
                && options@[j].label == control.options@[j].label
                && options@[j].disabled == control.options@[j].disabled,
        decreases control.options.len() - i,
    {
        let option = &control.options[i];
        options.push(OpenGpuiControlOptionPlan {
            value: copy_json(&option.value),
            label: option.label.clone(),
            disabled: option.disabled,
        });
        i = i + 1;
    }
    let label = match &control.display_label {
        Some(l) => l.clone(),
        None => control.key.clone(),
    };
    OpenGpuiControlPlan {
        key: control.key.clone(),
        label,
        kind: control.kind,
        primitive,
        support,
        value,
        binding,
        options,
        placeholder: copy_opt_text(&control.placeholder),
        help_text: copy_opt_text(&control.help_text),
        disabled_reason: copy_opt_text(&control.disabled_reason),
        read_only: control.read_only,
        secret: control.secret,
    }
}


// ---------------------------------------------------------------------
// Edits

/// Why a node's internals must be measured again.
#[derive(Debug, Clone, Copy, PartialEq, Eq, Structural)]
pub enum NodeInternalsInvalidationReason {
    DataChanged,
}

/// Nodes whose internals must be measured again, and why.
#[derive(Debug, Clone, PartialEq, Eq)]
pub struct NodeInternalsInvalidation {
    pub nodes: Vec<NodeId>,
    pub reason: NodeInternalsInvalidationReason,
}

/// One undoable node-data change: node `id`'s data goes from `from` to `to`.
#[derive(Debug, PartialEq, Eq)]
pub struct NodeDataTransaction {
    pub id: NodeId,
    pub from: JsonValue,
    pub to: JsonValue,
    pub label: String,
}

/// Mutation plan emitted by a GPUI control edit.
#[derive(Debug, PartialEq, Eq)]
pub struct OpenGpuiControlEditPlan {
    pub transaction: NodeDataTransaction,
    pub invalidation: NodeInternalsInvalidation,
}

/// The label of the transaction a control edit plans.
pub open spec fn control_edit_label() -> Seq<char> {
    "Set GPUI node control value"@
}

/// The error for an editable control without a writable binding.
pub open spec fn no_binding_message(key: Seq<char>) -> Seq<char> {
    "control `"@ + key + "` has no writable binding"@
}

/// `plan` changes node `node_id`'s data from `data` (a copy with the same
/// content) to `data` with `value` written through `binding`, content that
/// differs, and marks the node's internals dirty for changed data.
pub open spec fn planned_edit(
    plan: OpenGpuiControlEditPlan,
    node_id: NodeId,
    data: JsonValue,
    binding: NodeControlBinding,
    value: JsonValue,
) -> bool {
    &&& plan.transaction.id == node_id
    &&& json_same(plan.transaction.from, data)
    &&& bound_written(data, plan.transaction.to, binding, value)
    &&& !json_same(data, plan.transaction.to)
    &&& plan.transaction.label@ == control_edit_label()
    &&& plan.invalidation.nodes@ == seq![node_id]
    &&& plan.invalidation.reason == NodeInternalsInvalidationReason::DataChanged
}

/// Writing `value` through `binding` leaves `data` with the same content.
pub open spec fn write_keeps_content(data: JsonValue, binding: NodeControlBinding, value: JsonValue) -> bool {
    exists|res: JsonValue| bound_written(data, res, binding, value) && json_same(data, res)
}

/// The result of editing `control` over `node_data` with `value`: see
/// `plan_control_edit`.
pub open spec fn control_edit_result(
    r: Result<Option<OpenGpuiControlEditPlan>, String>,
    node_id: NodeId,
    node_data: JsonValue,
    control: OpenGpuiControlPlan,
    value: JsonValue,
) -> bool {
    &&& control.disabled_reason is Some || control.read_only ==> (r matches Ok(None))
    &&& control.disabled_reason is None && !control.read_only && control.binding is None
        ==> r is Err && r->Err_0@ == no_binding_message(control.key@)
    &&& control.disabled_reason is None && !control.read_only && control.binding is Some ==> {
        let b = control.binding->0;
        match bound_write_error(node_data, b) {
            Some(e) => r is Err && r->Err_0@ == e,
            None => match r {
                Ok(Some(plan)) => planned_edit(plan, node_id, node_data, b, value),
                Ok(None) => write_keeps_content(node_data, b, value),
                Err(_) => false,
            },
        }
    }
}

/// Build a node-data transaction and internals invalidation for an editable
/// control value.
///
/// A disabled or read-only control plans nothing. Otherwise the value is
/// written through the control's binding into the node's data: a control
/// without a binding, or a write that fails, is an error; a write that
/// leaves the data with the same content plans nothing; any other write
/// plans the change from the old data to the new, and marks the node's
/// internals dirty.
pub fn plan_control_edit(
    node_id: NodeId,
    node_data: JsonValue,
    control: &OpenGpuiControlPlan,
    value: JsonValue,
) -> (r: Result<Option<OpenGpuiControlEditPlan>, String>)
    ensures
        control_edit_result(r, node_id, node_data, *control, value),
{
    if control.disabled_reason.is_some() {
        return Ok(None);
    }
    if control.read_only {
        return Ok(None);
    }
    let binding = match &control.binding {
        Some(b) => b,
        None => {
            let mut message = owned("control `");
            push_str(&mut message, control.key.as_str());
            push_str(&mut message, "` has no writable binding");
            return Err(message);
        },
    };
    let from = copy_json(&node_data);
    let ghost old_data = node_data;
    let mut to = node_data;
    match set_bound_value(&mut to, binding, value) {
        Ok(_) => {},
        Err(e) => {
            return Err(e);
        },
    }
    let unchanged = json_equal(&from, &to);
    proof {
        lemma_json_same_symmetric(from, old_data);
        if json_same(from, to) {
            lemma_json_same_transitive(old_data, from, to);
        }
        if json_same(old_data, to) {
            lemma_json_same_transitive(from, old_data, to);
        }
    }
    if unchanged {
        return Ok(None);
    }
    let mut nodes: Vec<NodeId> = Vec::new();
    nodes.push(node_id);
    Ok(Some(OpenGpuiControlEditPlan {
        transaction: NodeDataTransaction { id: node_id, from, to, label: owned("Set GPUI node control value") },
        invalidation: NodeInternalsInvalidation { nodes, reason: NodeInternalsInvalidationReason::DataChanged },
    }))
}

/// A planned control edit is read back: the new node data gives, through
/// the control's binding, the value the edit wrote (for pointers, when
/// their tokens are canonical).
pub proof fn lemma_control_edit_reads_back(
    r: Result<Option<OpenGpuiControlEditPlan>, String>,
    node_id: NodeId,
    node_data: JsonValue,
    control: OpenGpuiControlPlan,
    value: JsonValue,
)
    requires
        control_edit_result(r, node_id, node_data, control, value),
        r matches Ok(Some(_)),
        control.binding is Some && control.binding->0.source == NodeControlBindingSource::JsonPointer ==> forall|i: int|
            0 <= i < pointer_tokens(control.binding->0.path@).len()
                ==> canonical_token(#[trigger] pointer_tokens(control.binding->0.path@)[i]),
    ensures
        control.binding is Some,
        spec_read_bound(r->Ok_0->0.transaction.to, control.binding->0, false) == Some(value),
{
    lemma_bound_write_then_read(node_data, r->Ok_0->0.transaction.to, control.binding->0, value);
}

} // verus!
