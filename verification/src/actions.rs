//! Action surfaces, the targets that actions declare, and which action
//! matches which surface.

use vstd::prelude::*;
use crate::ordering::{compare_text, lemma_text_order_antisymmetric, lemma_text_order_transitive, text_order};
use crate::text::{owned, push_str, str_eq};

verus! {

/// Menu surface a semantic menu is declared for.
#[derive(Debug, Clone, Copy, PartialEq, Eq, Structural)]
pub enum MenuSurface {
    Graph,
    Node,
    Edge,
    Port,
    Slot,
    Control,
    DroppedWire,
    Toolbar,
    Blackboard,
    Inspector,
}

/// What a semantic action acts on.
#[derive(Debug, Clone, PartialEq, Eq)]
pub enum ActionTarget {
    Graph,
    Node { node_kind: String },
    Edge,
    Port { port_key: String },
    Slot { slot_key: String },
    Control { control_key: String },
    RepeatableItem { collection_key: String, item_id: String },
    DroppedWire { source_port_key: Option<String> },
    Inspector { inspector_key: String },
    Blackboard { blackboard_key: String },
}

/// What dispatching a semantic action asks the host to do.
#[derive(Debug, Clone, PartialEq, Eq)]
pub enum ActionIntent {
    RunNode,
    InsertNode { node_kind: String },
    AddRepeatableItem { collection_key: String },
    RemoveRepeatableItem { collection_key: String, item_id: String },
    ReorderRepeatableItem { collection_key: String, item_id: String },
    Custom { key: String },
}

/// A copy of an action intent.
pub fn copy_action_intent(intent: &ActionIntent) -> (c: ActionIntent)
    ensures
        c == *intent,
{
    match intent {
        ActionIntent::RunNode => ActionIntent::RunNode,
        ActionIntent::InsertNode { node_kind } => ActionIntent::InsertNode { node_kind: node_kind.clone() },
        ActionIntent::AddRepeatableItem { collection_key } =>
            ActionIntent::AddRepeatableItem { collection_key: collection_key.clone() },
        ActionIntent::RemoveRepeatableItem { collection_key, item_id } =>
            ActionIntent::RemoveRepeatableItem { collection_key: collection_key.clone(), item_id: item_id.clone() },
        ActionIntent::ReorderRepeatableItem { collection_key, item_id } =>
            ActionIntent::ReorderRepeatableItem { collection_key: collection_key.clone(), item_id: item_id.clone() },
        ActionIntent::Custom { key } => ActionIntent::Custom { key: key.clone() },
    }
}

/// Adapter-local UI surface being resolved for a menu/action plan.
#[derive(Debug, Clone, PartialEq, Eq)]
pub enum OpenGpuiActionSurface {
    Graph,
    Node { node_kind: String },
    Edge,
    Port { port_key: String },
    Slot { slot_key: String },
    Control { control_key: String },
    RepeatableItem { collection_key: String, item_id: String },
    DroppedWire { source_port_key: Option<String> },
    Toolbar { node_kind: Option<String> },
    Blackboard { blackboard_key: String },
    Inspector { inspector_key: String },
}

/// The menu surface of an action surface; repeatable items use node menus.
pub open spec fn spec_menu_surface(surface: OpenGpuiActionSurface) -> MenuSurface {
    match surface {
        OpenGpuiActionSurface::Graph => MenuSurface::Graph,
        OpenGpuiActionSurface::Node { .. } => MenuSurface::Node,
        OpenGpuiActionSurface::Edge => MenuSurface::Edge,
        OpenGpuiActionSurface::Port { .. } => MenuSurface::Port,
        OpenGpuiActionSurface::Slot { .. } => MenuSurface::Slot,
        OpenGpuiActionSurface::Control { .. } => MenuSurface::Control,
        OpenGpuiActionSurface::RepeatableItem { .. } => MenuSurface::Node,
        OpenGpuiActionSurface::DroppedWire { .. } => MenuSurface::DroppedWire,
        OpenGpuiActionSurface::Toolbar { .. } => MenuSurface::Toolbar,
        OpenGpuiActionSurface::Blackboard { .. } => MenuSurface::Blackboard,
        OpenGpuiActionSurface::Inspector { .. } => MenuSurface::Inspector,
    }
}

/// The label of the synthetic menu built for a surface.
pub open spec fn spec_synthetic_menu_label(surface: OpenGpuiActionSurface) -> Seq<char> {
    match surface {
        OpenGpuiActionSurface::Graph => "Graph actions"@,
        OpenGpuiActionSurface::Node { .. } => "Node actions"@,
        OpenGpuiActionSurface::Edge => "Edge actions"@,
        OpenGpuiActionSurface::Port { .. } => "Port actions"@,
        OpenGpuiActionSurface::Slot { .. } => "Slot actions"@,
        OpenGpuiActionSurface::Control { .. } => "Control actions"@,
        OpenGpuiActionSurface::RepeatableItem { .. } => "Item actions"@,
        OpenGpuiActionSurface::DroppedWire { .. } => "Insert compatible node"@,
        OpenGpuiActionSurface::Toolbar { .. } => "Toolbar actions"@,
        OpenGpuiActionSurface::Blackboard { .. } => "Blackboard actions"@,
        OpenGpuiActionSurface::Inspector { .. } => "Inspector actions"@,
    }
}

impl OpenGpuiActionSurface {
    pub fn menu_surface(&self) -> (surface: MenuSurface)
        ensures
            surface == spec_menu_surface(*self),
    {
        match self {
            OpenGpuiActionSurface::Graph => MenuSurface::Graph,
            OpenGpuiActionSurface::Node { .. } => MenuSurface::Node,
            OpenGpuiActionSurface::Edge => MenuSurface::Edge,
            OpenGpuiActionSurface::Port { .. } => MenuSurface::Port,
            OpenGpuiActionSurface::Slot { .. } => MenuSurface::Slot,
            OpenGpuiActionSurface::Control { .. } => MenuSurface::Control,
            OpenGpuiActionSurface::RepeatableItem { .. } => MenuSurface::Node,
            OpenGpuiActionSurface::DroppedWire { .. } => MenuSurface::DroppedWire,
            OpenGpuiActionSurface::Toolbar { .. } => MenuSurface::Toolbar,
            OpenGpuiActionSurface::Blackboard { .. } => MenuSurface::Blackboard,
            OpenGpuiActionSurface::Inspector { .. } => MenuSurface::Inspector,
        }
    }
}

/// The label of the synthetic menu built for a surface.
pub fn synthetic_menu_label(surface: &OpenGpuiActionSurface) -> (label: String)
    ensures
        label@ == spec_synthetic_menu_label(*surface),
{
    let text = match surface {
        OpenGpuiActionSurface::Graph => "Graph actions",
        OpenGpuiActionSurface::Node { .. } => "Node actions",
        OpenGpuiActionSurface::Edge => "Edge actions",
        OpenGpuiActionSurface::Port { .. } => "Port actions",
        OpenGpuiActionSurface::Slot { .. } => "Slot actions",
        OpenGpuiActionSurface::Control { .. } => "Control actions",
        OpenGpuiActionSurface::RepeatableItem { .. } => "Item actions",
        OpenGpuiActionSurface::DroppedWire { .. } => "Insert compatible node",
        OpenGpuiActionSurface::Toolbar { .. } => "Toolbar actions",
        OpenGpuiActionSurface::Blackboard { .. } => "Blackboard actions",
        OpenGpuiActionSurface::Inspector { .. } => "Inspector actions",
    };
    owned(text)
}

/// Whether an action declared for `target` is offered on `surface`.
///
/// Graph actions show on the graph and on toolbars; node actions on their
/// node kind's node surface and on a toolbar for that kind; keyed targets
/// on the surface with the same key; a dropped-wire action without a source
/// port key on every dropped wire, and with one only where it is that key.
pub open spec fn spec_action_matches_surface(target: ActionTarget, surface: OpenGpuiActionSurface) -> bool {
    match target {
        ActionTarget::Graph => surface is Graph || surface is Toolbar,
        ActionTarget::Node { node_kind } => match surface {
            OpenGpuiActionSurface::Node { node_kind: current } => node_kind@ == current@,
            OpenGpuiActionSurface::Toolbar { node_kind: Some(current) } => node_kind@ == current@,
            _ => false,
        },
        ActionTarget::Edge => surface is Edge,
        ActionTarget::Port { port_key } =>
            surface matches OpenGpuiActionSurface::Port { port_key: current } && port_key@ == current@,
        ActionTarget::Slot { slot_key } =>
            surface matches OpenGpuiActionSurface::Slot { slot_key: current } && slot_key@ == current@,
        ActionTarget::Control { control_key } =>
            surface matches OpenGpuiActionSurface::Control { control_key: current } && control_key@ == current@,
        ActionTarget::RepeatableItem { collection_key, item_id } =>
            surface matches OpenGpuiActionSurface::RepeatableItem { collection_key: cc, item_id: ci }
                && collection_key@ == cc@ && item_id@ == ci@,
        ActionTarget::DroppedWire { source_port_key } =>
            surface matches OpenGpuiActionSurface::DroppedWire { source_port_key: current } && match source_port_key {
                None => true,
                Some(expected) => current is Some && current->0@ == expected@,
            },
        ActionTarget::Inspector { inspector_key } =>
            surface matches OpenGpuiActionSurface::Inspector { inspector_key: current } && inspector_key@ == current@,
        ActionTarget::Blackboard { blackboard_key } =>
            surface matches OpenGpuiActionSurface::Blackboard { blackboard_key: current } && blackboard_key@ == current@,
    }
}

/// Whether an action declared for `target` is offered on `surface`.
pub fn action_matches_surface(target: &ActionTarget, surface: &OpenGpuiActionSurface) -> (matches: bool)
    ensures
        matches == spec_action_matches_surface(*target, *surface),
{
    match target {
        ActionTarget::Graph => match surface {
            OpenGpuiActionSurface::Graph => true,
            OpenGpuiActionSurface::Toolbar { .. } => true,
            _ => false,
        },
        ActionTarget::Node { node_kind } => match surface {
            OpenGpuiActionSurface::Node { node_kind: current } => str_eq(node_kind.as_str(), current.as_str()),
            OpenGpuiActionSurface::Toolbar { node_kind: Some(current) } => str_eq(node_kind.as_str(), current.as_str()),
            _ => false,
        },
        ActionTarget::Edge => match surface {
            OpenGpuiActionSurface::Edge => true,
            _ => false,
        },
        ActionTarget::Port { port_key } => match surface {
            OpenGpuiActionSurface::Port { port_key: current } => str_eq(port_key.as_str(), current.as_str()),
            _ => false,
        },
        ActionTarget::Slot { slot_key } => match surface {
            OpenGpuiActionSurface::Slot { slot_key: current } => str_eq(slot_key.as_str(), current.as_str()),
            _ => false,
        },
        ActionTarget::Control { control_key } => match surface {
            OpenGpuiActionSurface::Control { control_key: current } => str_eq(control_key.as_str(), current.as_str()),
            _ => false,
        },
        ActionTarget::RepeatableItem { collection_key, item_id } => match surface {
            OpenGpuiActionSurface::RepeatableItem { collection_key: cc, item_id: ci } =>
                str_eq(collection_key.as_str(), cc.as_str()) && str_eq(item_id.as_str(), ci.as_str()),
            _ => false,
        },
        ActionTarget::DroppedWire { source_port_key } => match surface {
            OpenGpuiActionSurface::DroppedWire { source_port_key: current } => match source_port_key {
                None => true,
                Some(expected) => match current {
                    Some(current) => str_eq(current.as_str(), expected.as_str()),
                    None => false,
                },
            },
            _ => false,
        },
        ActionTarget::Inspector { inspector_key } => match surface {
            OpenGpuiActionSurface::Inspector { inspector_key: current } => str_eq(inspector_key.as_str(), current.as_str()),
            _ => false,
        },
        ActionTarget::Blackboard { blackboard_key } => match surface {
            OpenGpuiActionSurface::Blackboard { blackboard_key: current } => str_eq(blackboard_key.as_str(), current.as_str()),
            _ => false,
        },
    }
}

/// Render plan for one semantic action.
#[derive(Debug, Clone, PartialEq, Eq)]
pub struct OpenGpuiActionPlan {
    pub key: String,
    pub label: String,
    pub target: ActionTarget,
    pub intent: ActionIntent,
    pub enabled: bool,
    pub disabled_reason: Option<String>,
    pub group: Option<String>,
    pub order: Option<i32>,
    pub danger: bool,
    pub icon_key: Option<String>,
    pub shortcut: Option<String>,
}

impl OpenGpuiActionPlan {
    /// The action is enabled and gives no reason to be disabled.
    pub open spec fn spec_dispatchable(&self) -> bool {
        self.enabled && self.disabled_reason is None
    }

    pub fn dispatchable(&self) -> (d: bool)
        ensures
            d == self.spec_dispatchable(),
    {
        self.enabled && self.disabled_reason.is_none()
    }
}

/// Render plan for a GPUI local menu or action group.
#[derive(Debug, Clone, PartialEq, Eq)]
pub struct OpenGpuiMenuPlan {
    pub key: String,
    pub label: String,
    pub surface: MenuSurface,
    pub actions: Vec<OpenGpuiActionPlan>,
}

impl OpenGpuiMenuPlan {
    /// The positions of the dispatchable actions, in order.
    pub fn enabled_actions(&self) -> (positions: Vec<usize>)
        ensures
            forall|k: int| 0 <= k < positions@.len() ==> #[trigger] positions@[k] < self.actions@.len()
                && self.actions@[positions@[k] as int].spec_dispatchable(),
            forall|k: int| 0 <= k < positions@.len() ==> self.actions@[#[trigger] positions@[k] as int].enabled
                && self.actions@[positions@[k] as int].disabled_reason is None,
            forall|k: int, l: int| 0 <= k < l < positions@.len() ==> #[trigger] positions@[k] < #[trigger] positions@[l],
            forall|j: int| 0 <= j < self.actions@.len() && (#[trigger] self.actions@[j]).spec_dispatchable()
                ==> exists|k: int| 0 <= k < positions@.len() && positions@[k] == j,
    {
        let mut positions: Vec<usize> = Vec::new();
        let mut i: usize = 0;
        while i < self.actions.len()
            invariant
                i <= self.actions@.len(),
                forall|k: int| 0 <= k < positions@.len() ==> #[trigger] positions@[k] < i
                    && self.actions@[positions@[k] as int].spec_dispatchable(),
                forall|k: int, l: int| 0 <= k < l < positions@.len() ==> #[trigger] positions@[k] < #[trigger] positions@[l],
                forall|j: int| 0 <= j < i && (#[trigger] self.actions@[j]).spec_dispatchable()
                    ==> exists|k: int| 0 <= k < positions@.len() && positions@[k] == j,
            decreases self.actions.len() - i,
        {
            if self.actions[i].dispatchable() {
                let ghost before = positions@;
                positions.push(i);
                proof {
                    assert forall|j: int| 0 <= j < i + 1 && (#[trigger] self.actions@[j]).spec_dispatchable()
                        implies exists|k: int| 0 <= k < positions@.len() && positions@[k] == j by {
                        if j == i {
                            assert(positions@[before.len() as int] == j);
                        } else {
                            let k = choose|k: int| 0 <= k < before.len() && before[k] == j;
                            assert(positions@[k] == j);
                        }
                    }
                }
            }
            i = i + 1;
        }
        positions
    }
}

/// Action dispatch plan emitted by local GPUI widgets.
#[derive(Debug, Clone, PartialEq, Eq)]
pub struct OpenGpuiActionDispatchPlan {
    pub action_key: String,
    pub intent: ActionIntent,
    pub target: ActionTarget,
}

/// `i` is the first dispatchable action with `key`.
pub open spec fn is_first_dispatchable(actions: Seq<OpenGpuiActionPlan>, key: Seq<char>, i: int) -> bool {
    &&& 0 <= i < actions.len()
    &&& actions[i].key@ == key && actions[i].spec_dispatchable()
    &&& forall|j: int| 0 <= j < i ==> !(actions[j].key@ == key && #[trigger] actions[j].spec_dispatchable())
}

/// A copy of an action target.
pub fn copy_action_target(target: &ActionTarget) -> (c: ActionTarget)
    ensures
        c == *target,
{
    match target {
        ActionTarget::Graph => ActionTarget::Graph,
        ActionTarget::Node { node_kind } => ActionTarget::Node { node_kind: node_kind.clone() },
        ActionTarget::Edge => ActionTarget::Edge,
        ActionTarget::Port { port_key } => ActionTarget::Port { port_key: port_key.clone() },
        ActionTarget::Slot { slot_key } => ActionTarget::Slot { slot_key: slot_key.clone() },
        ActionTarget::Control { control_key } => ActionTarget::Control { control_key: control_key.clone() },
        ActionTarget::RepeatableItem { collection_key, item_id } =>
            ActionTarget::RepeatableItem { collection_key: collection_key.clone(), item_id: item_id.clone() },
        ActionTarget::DroppedWire { source_port_key } => ActionTarget::DroppedWire {
            source_port_key: match source_port_key {
                Some(k) => Some(k.clone()),
                None => None,
            },
        },
        ActionTarget::Inspector { inspector_key } => ActionTarget::Inspector { inspector_key: inspector_key.clone() },
        ActionTarget::Blackboard { blackboard_key } => ActionTarget::Blackboard { blackboard_key: blackboard_key.clone() },
    }
}

/// The position of the first dispatchable action with `action_key`, if any.
pub(crate) fn find_dispatchable(actions: &Vec<OpenGpuiActionPlan>, action_key: &str) -> (index: Option<usize>)
    ensures
        match index {
            Some(i) => is_first_dispatchable(actions@, action_key@, i as int),
            None => forall|j: int| 0 <= j < actions@.len() ==> !(actions@[j].key@ == action_key@
                && #[trigger] actions@[j].spec_dispatchable()),
        },
{
    let mut i: usize = 0;
    while i < actions.len()
        invariant
            i <= actions@.len(),
            forall|j: int| 0 <= j < i ==> !(actions@[j].key@ == action_key@ && #[trigger] actions@[j].spec_dispatchable()),
        decreases actions.len() - i,
    {
        if str_eq(actions[i].key.as_str(), action_key) && actions[i].dispatchable() {
            return Some(i);
        }
        i = i + 1;
    }
    None
}

/// Resolve a local UI selection into a semantic action dispatch plan: the
/// first action of the menu with `action_key` that can be dispatched, if any.
pub fn plan_action_dispatch(menu: &OpenGpuiMenuPlan, action_key: &str) -> (plan: Option<OpenGpuiActionDispatchPlan>)
    ensures
        match plan {
            Some(p) => exists|i: int| is_first_dispatchable(menu.actions@, action_key@, i)
                && p.action_key == menu.actions@[i].key && p.intent == menu.actions@[i].intent
                && p.target == menu.actions@[i].target
                && menu.actions@[i].enabled && menu.actions@[i].disabled_reason is None,
            None => forall|j: int| 0 <= j < menu.actions@.len() ==> !(menu.actions@[j].key@ == action_key@
                && #[trigger] menu.actions@[j].spec_dispatchable()),
        },
{
    match find_dispatchable(&menu.actions, action_key) {
        Some(i) => {
            let action = &menu.actions[i];
            Some(OpenGpuiActionDispatchPlan {
                action_key: action.key.clone(),
                intent: copy_action_intent(&action.intent),
                target: copy_action_target(&action.target),
            })
        },
        None => None,
    }
}

/// A keyboard shortcut declared on an action.
#[derive(Debug, Clone, PartialEq, Eq)]
pub struct ActionShortcut {
    pub key: String,
    pub ctrl: bool,
    pub shift: bool,
    pub alt: bool,
    pub meta: bool,
}

/// The shortcut's label: its held modifiers in the order Ctrl, Shift, Alt,
/// Meta, then its key, joined with `+`.
pub open spec fn spec_shortcut_label(s: ActionShortcut) -> Seq<char> {
    (if s.ctrl { "Ctrl+"@ } else { Seq::empty() }) + (if s.shift { "Shift+"@ } else { Seq::empty() })
        + (if s.alt { "Alt+"@ } else { Seq::empty() }) + (if s.meta { "Meta+"@ } else { Seq::empty() })
        + s.key@
}

/// The shortcut's label.
pub fn shortcut_label(shortcut: &ActionShortcut) -> (label: String)
    ensures
        label@ == spec_shortcut_label(*shortcut),
{
    let mut label = String::new();
    if shortcut.ctrl {
        push_str(&mut label, "Ctrl+");
    }
    if shortcut.shift {
        push_str(&mut label, "Shift+");
    }
    if shortcut.alt {
        push_str(&mut label, "Alt+");
    }
    if shortcut.meta {
        push_str(&mut label, "Meta+");
    }
    push_str(&mut label, shortcut.key.as_str());
    proof {
        assert(label@ =~= spec_shortcut_label(*shortcut));
    }
    label
}

// ---------------------------------------------------------------------
// The order of actions in synthetic menus

/// Actions without a group sort first; groups sort by text.
pub open spec fn group_order(a: Option<String>, b: Option<String>) -> int {
    match (a, b) {
        (None, None) => 0,
        (None, Some(_)) => -1,
        (Some(_), None) => 1,
        (Some(x), Some(y)) => text_order(x@, y@),
    }
}

/// An action's rank: its order, or last without one.
pub open spec fn rank(order: Option<i32>) -> int {
    match order {
        Some(o) => o as int,
        None => i32::MAX as int,
    }
}

/// -1, 0 or 1 as `a < b`, `a == b` or `a > b`.
pub open spec fn int_order(a: int, b: int) -> int {
    if a < b { -1 } else if a > b { 1 } else { 0 }
}

/// -1, 0 or 1 as action `a` sorts before, with or after `b`: by group,
/// then rank, then label, then key.
pub open spec fn action_order(a: OpenGpuiActionPlan, b: OpenGpuiActionPlan) -> int {
    let g = group_order(a.group, b.group);
    if g != 0 {
        g
    } else {
        let o = int_order(rank(a.order), rank(b.order));
        if o != 0 {
            o
        } else {
            let l = text_order(a.label@, b.label@);
            if l != 0 { l } else { text_order(a.key@, b.key@) }
        }
    }
}

/// Each action sorts no later than every action after it.
pub open spec fn actions_sorted(s: Seq<OpenGpuiActionPlan>) -> bool {
    forall|i: int, j: int| 0 <= i < j < s.len() ==> action_order(#[trigger] s[i], #[trigger] s[j]) <= 0
}

proof fn lemma_group_order(a: Option<String>, b: Option<String>, c: Option<String>)
    ensures
        group_order(a, b) == -group_order(b, a),
        -1 <= group_order(a, b) <= 1,
        group_order(a, b) <= 0 && group_order(b, c) <= 0 ==> group_order(a, c) <= 0
            && (group_order(a, b) < 0 || group_order(b, c) < 0 ==> group_order(a, c) < 0),
{
    match (a, b) {
        (Some(x), Some(y)) => lemma_text_order_antisymmetric(x@, y@),
        _ => {},
    }
    match (a, b, c) {
        (Some(x), Some(y), Some(z)) => {
            if text_order(x@, y@) <= 0 && text_order(y@, z@) <= 0 {
                lemma_text_order_transitive(x@, y@, z@);
            }
        },
        _ => {},
    }
}

/// Swapping two actions flips their order, and the order is -1, 0 or 1.
pub proof fn lemma_action_order_antisymmetric(a: OpenGpuiActionPlan, b: OpenGpuiActionPlan)
    ensures
        action_order(a, b) == -action_order(b, a),
        -1 <= action_order(a, b) <= 1,
{
    lemma_group_order(a.group, b.group, b.group);
    lemma_text_order_antisymmetric(a.label@, b.label@);
    lemma_text_order_antisymmetric(a.key@, b.key@);
}

/// Sorting actions is transitive.
pub proof fn lemma_action_order_transitive(a: OpenGpuiActionPlan, b: OpenGpuiActionPlan, c: OpenGpuiActionPlan)
    requires
        action_order(a, b) <= 0,
        action_order(b, c) <= 0,
    ensures
        action_order(a, c) <= 0,
{
    lemma_group_order(a.group, b.group, c.group);
    lemma_group_order(b.group, c.group, a.group);
    lemma_group_order(a.group, c.group, b.group);
    lemma_text_order_antisymmetric(a.label@, b.label@);
    lemma_text_order_antisymmetric(b.label@, c.label@);
    lemma_text_order_antisymmetric(a.label@, c.label@);
    lemma_text_order_antisymmetric(a.key@, b.key@);
    lemma_text_order_antisymmetric(b.key@, c.key@);
    if text_order(a.label@, b.label@) <= 0 && text_order(b.label@, c.label@) <= 0 {
        lemma_text_order_transitive(a.label@, b.label@, c.label@);
    }
    if text_order(a.key@, b.key@) <= 0 && text_order(b.key@, c.key@) <= 0 {
        lemma_text_order_transitive(a.key@, b.key@, c.key@);
    }
}

fn compare_groups(a: &Option<String>, b: &Option<String>) -> (order: i8)
    ensures
        order as int == group_order(*a, *b),
{
    match (a, b) {
        (None, None) => 0,
        (None, Some(_)) => -1,
        (Some(_), None) => 1,
        (Some(x), Some(y)) => compare_text(x.as_str(), y.as_str()),
    }
}

fn rank_of(order: Option<i32>) -> (r: i32)
    ensures
        r as int == rank(order),
{
    match order {
        Some(o) => o,
        None => i32::MAX,
    }
}

/// The order of two actions: -1, 0 or 1 as `a` sorts before, with or after `b`.
pub fn compare_actions(a: &OpenGpuiActionPlan, b: &OpenGpuiActionPlan) -> (order: i8)
    ensures
        order as int == action_order(*a, *b),
{
    let g = compare_groups(&a.group, &b.group);
    if g != 0 {
        return g;
    }
    let ra = rank_of(a.order);
    let rb = rank_of(b.order);
    if ra < rb {
        return -1;
    }
    if ra > rb {
        return 1;
    }
    let l = compare_text(a.label.as_str(), b.label.as_str());
    if l != 0 {
        return l;
    }
    compare_text(a.key.as_str(), b.key.as_str())
}

/// Sort actions by group, rank, label and key; the actions are kept.
pub fn sort_action_plans(actions: &mut Vec<OpenGpuiActionPlan>)
    ensures
        final(actions)@.to_multiset() == old(actions)@.to_multiset(),
        actions_sorted(final(actions)@),
{
    broadcast use vstd::multiset::group_multiset_axioms;
    let mut sorted: Vec<OpenGpuiActionPlan> = Vec::new();
    proof {
        assert(sorted@.to_multiset() =~= vstd::multiset::Multiset::empty()) by {
            vstd::seq_lib::to_multiset_len(sorted@);
        }
    }
    while actions.len() > 0
        invariant
            sorted@.to_multiset().add(actions@.to_multiset()) == old(actions)@.to_multiset(),
            actions_sorted(sorted@),
        decreases actions.len(),
    {
        let ghost before = actions@;
        let item = actions.remove(0);
        proof {
            vstd::seq_lib::to_multiset_remove(before, 0);
        }
        let mut p: usize = 0;
        while p < sorted.len()
            invariant
                p <= sorted@.len(),
                forall|i: int| 0 <= i < p ==> action_order(#[trigger] sorted@[i], item) <= 0,
            ensures
                p <= sorted@.len(),
                forall|i: int| 0 <= i < p ==> action_order(#[trigger] sorted@[i], item) <= 0,
                p < sorted@.len() ==> action_order(sorted@[p as int], item) > 0,
            decreases sorted.len() - p,
        {
            if compare_actions(&sorted[p], &item) > 0 {
                break;
            }
            p = p + 1;
        }
        let ghost old_sorted = sorted@;
        let ghost x = item;
        sorted.insert(p, item);
        proof {
            vstd::seq_lib::to_multiset_insert(old_sorted, p as int, x);
            assert(before.to_multiset().contains(x)) by {
                vstd::seq_lib::to_multiset_contains(before, x);
                assert(before[0] == x);
            }
            let s = sorted@;
            assert forall|i: int, j: int| 0 <= i < j < s.len() implies action_order(#[trigger] s[i], #[trigger] s[j]) <= 0 by {
                if j < p {
                    assert(s[i] == old_sorted[i] && s[j] == old_sorted[j]);
                } else if j == p {
                    assert(s[i] == old_sorted[i] && s[j] == x);
                } else if i == p {
                    assert(s[i] == x && s[j] == old_sorted[j - 1]);
                    lemma_action_order_antisymmetric(old_sorted[p as int], x);
                    if j - 1 > p {
                        assert(action_order(old_sorted[p as int], old_sorted[j - 1]) <= 0);
                    } else {
                        lemma_action_order_antisymmetric(old_sorted[p as int], old_sorted[p as int]);
                    }
                    lemma_action_order_transitive(x, old_sorted[p as int], old_sorted[j - 1]);
                } else if i < p {
                    assert(s[i] == old_sorted[i] && s[j] == old_sorted[j - 1]);
                } else {
                    assert(s[i] == old_sorted[i - 1] && s[j] == old_sorted[j - 1]);
                }
            }
            assert(sorted@.to_multiset().add(actions@.to_multiset()) =~= old(actions)@.to_multiset());
        }
    }
    proof {
        assert(actions@.to_multiset() =~= vstd::multiset::Multiset::empty()) by {
            vstd::seq_lib::to_multiset_len(actions@);
        }
        assert(sorted@.to_multiset() =~= old(actions)@.to_multiset());
    }
    *actions = sorted;
}

// ---------------------------------------------------------------------
// Projection of action and menu descriptors

/// What projection reads of a semantic action descriptor.
#[derive(Debug, Clone, PartialEq, Eq)]
pub struct NodeActionDescriptor {
    pub key: String,
    pub label: String,
    pub target: ActionTarget,
    pub intent: ActionIntent,
    pub enabled: bool,
    pub disabled_reason: Option<String>,
    pub group: Option<String>,
    pub order: Option<i32>,
    pub danger: bool,
    pub icon_key: Option<String>,
    pub shortcut: Option<ActionShortcut>,
}

/// `plan` shows `action`: its key, label, availability, grouping and icon
/// as declared, and its shortcut as a label.
pub open spec fn action_shown(plan: OpenGpuiActionPlan, action: NodeActionDescriptor) -> bool {
    &&& plan.key == action.key
    &&& plan.label == action.label
    &&& plan.enabled == action.enabled
    &&& plan.disabled_reason == action.disabled_reason
    &&& plan.group == action.group
    &&& plan.order == action.order
    &&& plan.danger == action.danger
    &&& plan.icon_key == action.icon_key
    &&& match (plan.shortcut, action.shortcut) {
        (None, None) => true,
        (Some(label), Some(shortcut)) => label@ == spec_shortcut_label(shortcut),
        _ => false,
    }
}

/// `plan` renders `action`: shown as declared, with the declared target and intent.
pub open spec fn action_projected(plan: OpenGpuiActionPlan, action: NodeActionDescriptor) -> bool {
    &&& action_shown(plan, action)
    &&& plan.target == action.target
    &&& plan.intent == action.intent
}

pub(crate) fn copy_text(o: &Option<String>) -> (c: Option<String>)
    ensures
        c == *o,
{
    match o {
        Some(s) => Some(s.clone()),
        None => None,
    }
}

/// Build the render plan of one action descriptor.
pub fn project_action(action: &NodeActionDescriptor) -> (plan: OpenGpuiActionPlan)
    ensures
        action_projected(plan, *action),
{
    OpenGpuiActionPlan {
        key: action.key.clone(),
        label: action.label.clone(),
        target: copy_action_target(&action.target),
        intent: copy_action_intent(&action.intent),
        enabled: action.enabled,
        disabled_reason: copy_text(&action.disabled_reason),
        group: copy_text(&action.group),
        order: action.order,
        danger: action.danger,
        icon_key: copy_text(&action.icon_key),
        shortcut: match &action.shortcut {
            Some(shortcut) => Some(shortcut_label(shortcut)),
            None => None,
        },
    }
}

/// The actions offered on `surface`, in declaration order.
pub open spec fn matching_actions(actions: Seq<NodeActionDescriptor>, surface: OpenGpuiActionSurface) -> Seq<NodeActionDescriptor>
    decreases actions.len(),
{
    if actions.len() == 0 {
        Seq::empty()
    } else {
        let rest = matching_actions(actions.drop_last(), surface);
        if spec_action_matches_surface(actions.last().target, surface) { rest.push(actions.last()) } else { rest }
    }
}

/// `projected` renders, in order, the actions offered on `surface`.
pub open spec fn projects_matching(
    projected: Seq<OpenGpuiActionPlan>,
    actions: Seq<NodeActionDescriptor>,
    surface: OpenGpuiActionSurface,
) -> bool {
    &&& projected.len() == matching_actions(actions, surface).len()
    &&& forall|i: int| 0 <= i < projected.len() ==> action_projected(#[trigger] projected[i], matching_actions(actions, surface)[i])
}

/// The plans of the actions offered on `surface`, sorted by group, rank,
/// label and key.
pub fn sorted_actions_for_surface(
    actions: &Vec<NodeActionDescriptor>,
    surface: &OpenGpuiActionSurface,
) -> (plans: Vec<OpenGpuiActionPlan>)
    ensures
        actions_sorted(plans@),
        exists|projected: Seq<OpenGpuiActionPlan>| #[trigger] projects_matching(projected, actions@, *surface)
            && plans@.to_multiset() == projected.to_multiset(),
{
    let mut plans: Vec<OpenGpuiActionPlan> = Vec::new();
    let mut i: usize = 0;
    while i < actions.len()
        invariant
            i <= actions@.len(),
            plans@.len() == matching_actions(actions@.subrange(0, i as int), *surface).len(),
            forall|k: int| 0 <= k < plans@.len() ==> action_projected(#[trigger] plans@[k],
                matching_actions(actions@.subrange(0, i as int), *surface)[k]),
        decreases actions.len() - i,
    {
        proof {
            assert(actions@.subrange(0, i + 1).drop_last() =~= actions@.subrange(0, i as int));
        }
        if action_matches_surface(&actions[i].target, surface) {
            plans.push(project_action(&actions[i]));
        }
        i = i + 1;
    }
    proof {
        assert(actions@.subrange(0, actions@.len() as int) =~= actions@);
    }
    let ghost projected = plans@;
    assert(projects_matching(projected, actions@, *surface));
    sort_action_plans(&mut plans);
    plans
}

/// The actions of several node kinds, one kind after another.
pub open spec fn flat_actions(kinds: Seq<Vec<NodeActionDescriptor>>) -> Seq<NodeActionDescriptor>
    decreases kinds.len(),
{
    if kinds.len() == 0 {
        Seq::empty()
    } else {
        flat_actions(kinds.drop_last()) + kinds.last()@
    }
}

/// The plans of the insert actions a dropped wire offers across node kinds
/// (`kinds` holds each kind's actions): every action of every kind offered
/// on the dropped-wire surface of `source_port_key`, sorted by group, rank,
/// label and key.
pub fn dropped_wire_menu_actions(
    kinds: &Vec<Vec<NodeActionDescriptor>>,
    source_port_key: Option<String>,
) -> (plans: Vec<OpenGpuiActionPlan>)
    ensures
        actions_sorted(plans@),
        exists|projected: Seq<OpenGpuiActionPlan>| #[trigger] projects_matching(projected, flat_actions(kinds@),
            OpenGpuiActionSurface::DroppedWire { source_port_key })
            && plans@.to_multiset() == projected.to_multiset(),
{
    let surface = OpenGpuiActionSurface::DroppedWire { source_port_key };
    let mut plans: Vec<OpenGpuiActionPlan> = Vec::new();
    let mut d: usize = 0;
    assert(kinds@.take(0) =~= Seq::<Vec<NodeActionDescriptor>>::empty());
    while d < kinds.len()
        invariant
            d <= kinds@.len(),
            plans@.len() == matching_actions(flat_actions(kinds@.take(d as int)), surface).len(),
            forall|k: int| 0 <= k < plans@.len() ==> action_projected(#[trigger] plans@[k],
                matching_actions(flat_actions(kinds@.take(d as int)), surface)[k]),
        decreases kinds.len() - d,
    {
        let actions = &kinds[d];
        let ghost before = flat_actions(kinds@.take(d as int));
        let mut i: usize = 0;
        assert(before + actions@.subrange(0, 0) =~= before);
        while i < actions.len()
            invariant
                i <= actions@.len(),
                plans@.len() == matching_actions(before + actions@.subrange(0, i as int), surface).len(),
                forall|k: int| 0 <= k < plans@.len() ==> action_projected(#[trigger] plans@[k],
                    matching_actions(before + actions@.subrange(0, i as int), surface)[k]),
            decreases actions.len() - i,
        {
            proof {
                assert((before + actions@.subrange(0, i + 1)).drop_last() =~= before + actions@.subrange(0, i as int));
                assert((before + actions@.subrange(0, i + 1)).last() == actions@[i as int]);
            }
            if action_matches_surface(&actions[i].target, &surface) {
                plans.push(project_action(&actions[i]));
            }
            i = i + 1;
        }
        proof {
            assert(kinds@.take(d + 1).drop_last() =~= kinds@.take(d as int));
            assert(kinds@.take(d + 1).last() == kinds@[d as int]);
            assert(actions@.subrange(0, i as int) =~= actions@);
            assert(flat_actions(kinds@.take(d + 1)) == before + actions@);
        }
        d = d + 1;
    }
    proof {
        assert(kinds@.take(d as int) =~= kinds@);
    }
    let ghost projected = plans@;
    assert(projects_matching(projected, flat_actions(kinds@), surface));
    sort_action_plans(&mut plans);
    plans
}

/// The `Debug` name of a menu surface.
pub open spec fn menu_surface_name(surface: MenuSurface) -> Seq<char> {
    match surface {
        MenuSurface::Graph => "Graph"@,
        MenuSurface::Node => "Node"@,
        MenuSurface::Edge => "Edge"@,
        MenuSurface::Port => "Port"@,
        MenuSurface::Slot => "Slot"@,
        MenuSurface::Control => "Control"@,
        MenuSurface::DroppedWire => "DroppedWire"@,
        MenuSurface::Toolbar => "Toolbar"@,
        MenuSurface::Blackboard => "Blackboard"@,
        MenuSurface::Inspector => "Inspector"@,
    }
}

fn menu_surface_text(surface: MenuSurface) -> (name: &'static str)
    ensures
        name@ == menu_surface_name(surface),
{
    match surface {
        MenuSurface::Graph => "Graph",
        MenuSurface::Node => "Node",
        MenuSurface::Edge => "Edge",
        MenuSurface::Port => "Port",
        MenuSurface::Slot => "Slot",
        MenuSurface::Control => "Control",
        MenuSurface::DroppedWire => "DroppedWire",
        MenuSurface::Toolbar => "Toolbar",
        MenuSurface::Blackboard => "Blackboard",
        MenuSurface::Inspector => "Inspector",
    }
}

/// Build a synthetic menu plan for all actions that match a surface: keyed
/// `synthetic.` and the menu surface's name, labeled for the surface, with
/// the matching actions sorted.
pub fn project_actions_for_surface(
    actions: &Vec<NodeActionDescriptor>,
    surface: &OpenGpuiActionSurface,
) -> (menu: OpenGpuiMenuPlan)
    ensures
        menu.key@ == "synthetic."@ + menu_surface_name(spec_menu_surface(*surface)),
        menu.label@ == spec_synthetic_menu_label(*surface),
        menu.surface == spec_menu_surface(*surface),
        actions_sorted(menu.actions@),
        exists|projected: Seq<OpenGpuiActionPlan>| #[trigger] projects_matching(projected, actions@, *surface)
            && menu.actions@.to_multiset() == projected.to_multiset(),
{
    let menu_surface = surface.menu_surface();
    let mut key = owned("synthetic.");
    push_str(&mut key, menu_surface_text(menu_surface));
    OpenGpuiMenuPlan {
        key,
        label: synthetic_menu_label(surface),
        surface: menu_surface,
        actions: sorted_actions_for_surface(actions, surface),
    }
}

/// What projection reads of a semantic menu descriptor.
#[derive(Debug, Clone, PartialEq, Eq)]
pub struct MenuDescriptor {
    pub key: String,
    pub label: Option<String>,
    pub surface: MenuSurface,
    pub action_keys: Vec<String>,
}

/// The first action with `key`, if any.
pub open spec fn first_action(actions: Seq<NodeActionDescriptor>, key: Seq<char>) -> Option<NodeActionDescriptor>
    decreases actions.len(),
{
    if actions.len() == 0 {
        None
    } else if actions[0].key@ == key {
        Some(actions[0])
    } else {
        first_action(actions.drop_first(), key)
    }
}

/// The actions a menu lists on `surface`: for each of its keys in order,
/// the first action with that key, when there is one offered on `surface`.
pub open spec fn menu_actions(
    actions: Seq<NodeActionDescriptor>,
    keys: Seq<String>,
    surface: OpenGpuiActionSurface,
) -> Seq<NodeActionDescriptor>
    decreases keys.len(),
{
    if keys.len() == 0 {
        Seq::empty()
    } else {
        let rest = menu_actions(actions, keys.drop_last(), surface);
        match first_action(actions, keys.last()@) {
            Some(a) => if spec_action_matches_surface(a.target, surface) { rest.push(a) } else { rest },
            None => rest,
        }
    }
}

/// For each of `keys` in order, the first action with that key, when there is one.
pub open spec fn keyed_actions(actions: Seq<NodeActionDescriptor>, keys: Seq<String>) -> Seq<NodeActionDescriptor>
    decreases keys.len(),
{
    if keys.len() == 0 {
        Seq::empty()
    } else {
        let rest = keyed_actions(actions, keys.drop_last());
        match first_action(actions, keys.last()@) {
            Some(a) => rest.push(a),
            None => rest,
        }
    }
}

pub(crate) fn find_action(actions: &Vec<NodeActionDescriptor>, key: &str) -> (found: Option<usize>)
    ensures
        match found {
            Some(i) => i < actions@.len() && first_action(actions@, key@) == Some(actions@[i as int]),
            None => first_action(actions@, key@) is None,
        },
{
    let mut i: usize = 0;
    assert(actions@.skip(0) =~= actions@);
    while i < actions.len()
        invariant
            i <= actions@.len(),
            first_action(actions@, key@) == first_action(actions@.skip(i as int), key@),
        decreases actions.len() - i,
    {
        if str_eq(actions[i].key.as_str(), key) {
            return Some(i);
        }
        assert(actions@.skip(i as int).drop_first() =~= actions@.skip(i + 1));
        i = i + 1;
    }
    None
}

/// Build a menu plan from a menu descriptor: its label (else its key), its
/// surface, and the actions it lists that are offered on `surface`, in the
/// menu's order.
pub fn project_menu(
    actions: &Vec<NodeActionDescriptor>,
    menu: &MenuDescriptor,
    surface: &OpenGpuiActionSurface,
) -> (plan: OpenGpuiMenuPlan)
    ensures
        plan.key == menu.key,
        plan.label == (match menu.label {
            Some(l) => l,
            None => menu.key,
        }),
        plan.surface == menu.surface,
        plan.actions@.len() == menu_actions(actions@, menu.action_keys@, *surface).len(),
        forall|i: int| 0 <= i < plan.actions@.len() ==> action_projected(#[trigger] plan.actions@[i],
            menu_actions(actions@, menu.action_keys@, *surface)[i]),
{
    let mut plans: Vec<OpenGpuiActionPlan> = Vec::new();
    let mut i: usize = 0;
    while i < menu.action_keys.len()
        invariant
            i <= menu.action_keys@.len(),
            plans@.len() == menu_actions(actions@, menu.action_keys@.subrange(0, i as int), *surface).len(),
            forall|k: int| 0 <= k < plans@.len() ==> action_projected(#[trigger] plans@[k],
                menu_actions(actions@, menu.action_keys@.subrange(0, i as int), *surface)[k]),
        decreases menu.action_keys.len() - i,
    {
        proof {
            assert(menu.action_keys@.subrange(0, i + 1).drop_last() =~= menu.action_keys@.subrange(0, i as int));
        }
        match find_action(actions, menu.action_keys[i].as_str()) {
            Some(k) => {
                if action_matches_surface(&actions[k].target, surface) {
                    plans.push(project_action(&actions[k]));
                }
            },
            None => {},
        }
        i = i + 1;
    }
    proof {
        assert(menu.action_keys@.subrange(0, menu.action_keys@.len() as int) =~= menu.action_keys@);
    }
    OpenGpuiMenuPlan {
        key: menu.key.clone(),
        label: match &menu.label {
            Some(l) => l.clone(),
            None => menu.key.clone(),
        },
        surface: menu.surface,
        actions: plans,
    }
}

// ---------------------------------------------------------------------
// Laws of action surfaces, dispatch and shortcut labels

/// An action declared for a keyed element is offered only on that
/// element's own surface: a port, slot, control, repeatable item,
/// inspector or blackboard action only where every key of its target is
/// the surface's, and a node action only on that node kind's surface or
/// toolbar.
pub proof fn lemma_keyed_actions_stay_on_their_element(target: ActionTarget, surface: OpenGpuiActionSurface)
    requires
        spec_action_matches_surface(target, surface),
    ensures
        target matches ActionTarget::Node { node_kind: t } ==> (
            (surface matches OpenGpuiActionSurface::Node { node_kind: s } && t@ == s@)
            || (surface matches OpenGpuiActionSurface::Toolbar { node_kind: Some(s) } && t@ == s@)),
        target matches ActionTarget::Port { port_key: t } ==>
            (surface matches OpenGpuiActionSurface::Port { port_key: s } && t@ == s@),
        target matches ActionTarget::Slot { slot_key: t } ==>
            (surface matches OpenGpuiActionSurface::Slot { slot_key: s } && t@ == s@),
        target matches ActionTarget::Control { control_key: t } ==>
            (surface matches OpenGpuiActionSurface::Control { control_key: s } && t@ == s@),
        target matches ActionTarget::RepeatableItem { collection_key: tc, item_id: ti } ==>
            (surface matches OpenGpuiActionSurface::RepeatableItem { collection_key: sc, item_id: si }
                && tc@ == sc@ && ti@ == si@),
        target matches ActionTarget::Inspector { inspector_key: t } ==>
            (surface matches OpenGpuiActionSurface::Inspector { inspector_key: s } && t@ == s@),
        target matches ActionTarget::Blackboard { blackboard_key: t } ==>
            (surface matches OpenGpuiActionSurface::Blackboard { blackboard_key: s } && t@ == s@),
        target is Edge ==> surface is Edge,
        target is Graph ==> (surface is Graph || surface is Toolbar),
{
}

/// On its own element's surface, with every key equal, a keyed action is
/// offered.
pub proof fn lemma_keyed_actions_offered_on_their_element(target: ActionTarget, surface: OpenGpuiActionSurface)
    ensures
        (target matches ActionTarget::Port { port_key: t }
            && surface matches OpenGpuiActionSurface::Port { port_key: s } && t@ == s@)
            ==> spec_action_matches_surface(target, surface),
        (target matches ActionTarget::Control { control_key: t }
            && surface matches OpenGpuiActionSurface::Control { control_key: s } && t@ == s@)
            ==> spec_action_matches_surface(target, surface),
        (target matches ActionTarget::RepeatableItem { collection_key: tc, item_id: ti }
            && surface matches OpenGpuiActionSurface::RepeatableItem { collection_key: sc, item_id: si }
            && tc@ == sc@ && ti@ == si@)
            ==> spec_action_matches_surface(target, surface),
{
}

/// An action is dispatched exactly when it is enabled and gives no reason
/// to be disabled: a disabled action never is, with or without a reason.
pub proof fn lemma_only_enabled_actions_dispatch(action: OpenGpuiActionPlan)
    ensures
        !action.enabled ==> !action.spec_dispatchable(),
        action.disabled_reason is Some ==> !action.spec_dispatchable(),
        (action.enabled && action.disabled_reason is None) ==> action.spec_dispatchable(),
{
}

/// The length of a held modifier's text, or none.
pub open spec fn held(flag: bool, text: Seq<char>) -> int {
    if flag { text.len() as int } else { 0 }
}

/// A shortcut's label is its held modifiers, each written once in the
/// order Ctrl, Shift, Alt, Meta and followed by `+`, then its key: every
/// held modifier appears at its place, nothing else stands before the key.
pub proof fn lemma_shortcut_label_layout(s: ActionShortcut)
    ensures
        ({
            let label = spec_shortcut_label(s);
            let c = held(s.ctrl, "Ctrl+"@);
            let sh = held(s.shift, "Shift+"@);
            let al = held(s.alt, "Alt+"@);
            let me = held(s.meta, "Meta+"@);
            &&& label.len() == c + sh + al + me + s.key@.len()
            &&& s.ctrl ==> label.subrange(0, 5) == "Ctrl+"@
            &&& s.shift ==> label.subrange(c, c + 6) == "Shift+"@
            &&& s.alt ==> label.subrange(c + sh, c + sh + 4) == "Alt+"@
            &&& s.meta ==> label.subrange(c + sh + al, c + sh + al + 5) == "Meta+"@
            &&& label.subrange(c + sh + al + me, label.len() as int) == s.key@
        }),
{
    reveal_strlit("Ctrl+");
    reveal_strlit("Shift+");
    reveal_strlit("Alt+");
    reveal_strlit("Meta+");
    let label = spec_shortcut_label(s);
    let p1: Seq<char> = if s.ctrl { "Ctrl+"@ } else { Seq::empty() };
    let p2: Seq<char> = if s.shift { "Shift+"@ } else { Seq::empty() };
    let p3: Seq<char> = if s.alt { "Alt+"@ } else { Seq::empty() };
    let p4: Seq<char> = if s.meta { "Meta+"@ } else { Seq::empty() };
    assert(label == p1 + p2 + p3 + p4 + s.key@);
    let c = p1.len() as int;
    let sh = p2.len() as int;
    let al = p3.len() as int;
    let me = p4.len() as int;
    assert(label.subrange(0, c) =~= p1);
    assert(label.subrange(c, c + sh) =~= p2);
    assert(label.subrange(c + sh, c + sh + al) =~= p3);
    assert(label.subrange(c + sh + al, c + sh + al + me) =~= p4);
    assert(label.subrange(c + sh + al + me, label.len() as int) =~= s.key@);
}

} // verus!
