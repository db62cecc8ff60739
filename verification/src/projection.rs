//! Projection summaries of node surfaces.

use vstd::prelude::*;
use crate::actions::int_order;
use crate::adapter::OpenGpuiMeasurementMode;
use crate::text::str_eq;
use crate::ordering::{compare_text, lemma_text_order_antisymmetric, lemma_text_order_transitive, text_order};

verus! {

/// Summary for one repeatable collection rendered by the GPUI adapter.
#[derive(Debug, Clone, PartialEq, Eq)]
pub struct OpenGpuiRepeatableSurfaceProjection {
    pub key: String,
    pub label: String,
    pub item_count: usize,
    pub controls: usize,
}

/// Semantic kind of one node surface slot.
#[derive(Debug, Clone, Copy, PartialEq, Eq, Structural)]
pub enum NodeSurfaceSlotKind {
    Header,
    Body,
    Footer,
    Icon,
    Badge,
    MetricBadge,
    StatusBanner,
    FieldRow,
    PortRail,
    ConfigGroup,
    Preview,
    NestedRegion,
    ActionRow,
}

/// Rendering priority of a slot kind: field rows first, icons last.
pub open spec fn spec_component_priority(kind: NodeSurfaceSlotKind) -> usize {
    match kind {
        NodeSurfaceSlotKind::FieldRow => 0,
        NodeSurfaceSlotKind::PortRail => 1,
        NodeSurfaceSlotKind::Badge => 2,
        NodeSurfaceSlotKind::MetricBadge => 3,
        NodeSurfaceSlotKind::StatusBanner => 4,
        NodeSurfaceSlotKind::ConfigGroup => 5,
        NodeSurfaceSlotKind::Preview => 6,
        NodeSurfaceSlotKind::NestedRegion => 7,
        NodeSurfaceSlotKind::ActionRow => 8,
        NodeSurfaceSlotKind::Header => 9,
        NodeSurfaceSlotKind::Body => 10,
        NodeSurfaceSlotKind::Footer => 11,
        NodeSurfaceSlotKind::Icon => 12,
    }
}

/// Rendering priority of a slot kind.
pub fn semantic_component_priority(kind: NodeSurfaceSlotKind) -> (priority: usize)
    ensures
        priority == spec_component_priority(kind),
{
    match kind {
        NodeSurfaceSlotKind::FieldRow => 0,
        NodeSurfaceSlotKind::PortRail => 1,
        NodeSurfaceSlotKind::Badge => 2,
        NodeSurfaceSlotKind::MetricBadge => 3,
        NodeSurfaceSlotKind::StatusBanner => 4,
        NodeSurfaceSlotKind::ConfigGroup => 5,
        NodeSurfaceSlotKind::Preview => 6,
        NodeSurfaceSlotKind::NestedRegion => 7,
        NodeSurfaceSlotKind::ActionRow => 8,
        NodeSurfaceSlotKind::Header => 9,
        NodeSurfaceSlotKind::Body => 10,
        NodeSurfaceSlotKind::Footer => 11,
        NodeSurfaceSlotKind::Icon => 12,
    }
}

/// Slot kinds are laid out in the fixed order field rows, port rails,
/// badges, metric badges, status banners, config groups, previews, nested
/// regions, action rows, headers, bodies, footers, icons: each kind ranks
/// strictly before the next, field rows first and icons last.
pub proof fn lemma_component_priority_order(kind: NodeSurfaceSlotKind)
    ensures
        spec_component_priority(NodeSurfaceSlotKind::FieldRow) < spec_component_priority(NodeSurfaceSlotKind::PortRail),
        spec_component_priority(NodeSurfaceSlotKind::PortRail) < spec_component_priority(NodeSurfaceSlotKind::Badge),
        spec_component_priority(NodeSurfaceSlotKind::Badge) < spec_component_priority(NodeSurfaceSlotKind::MetricBadge),
        spec_component_priority(NodeSurfaceSlotKind::MetricBadge) < spec_component_priority(NodeSurfaceSlotKind::StatusBanner),
        spec_component_priority(NodeSurfaceSlotKind::StatusBanner) < spec_component_priority(NodeSurfaceSlotKind::ConfigGroup),
        spec_component_priority(NodeSurfaceSlotKind::ConfigGroup) < spec_component_priority(NodeSurfaceSlotKind::Preview),
        spec_component_priority(NodeSurfaceSlotKind::Preview) < spec_component_priority(NodeSurfaceSlotKind::NestedRegion),
        spec_component_priority(NodeSurfaceSlotKind::NestedRegion) < spec_component_priority(NodeSurfaceSlotKind::ActionRow),
        spec_component_priority(NodeSurfaceSlotKind::ActionRow) < spec_component_priority(NodeSurfaceSlotKind::Header),
        spec_component_priority(NodeSurfaceSlotKind::Header) < spec_component_priority(NodeSurfaceSlotKind::Body),
        spec_component_priority(NodeSurfaceSlotKind::Body) < spec_component_priority(NodeSurfaceSlotKind::Footer),
        spec_component_priority(NodeSurfaceSlotKind::Footer) < spec_component_priority(NodeSurfaceSlotKind::Icon),
        spec_component_priority(NodeSurfaceSlotKind::FieldRow) <= spec_component_priority(kind)
            <= spec_component_priority(NodeSurfaceSlotKind::Icon),
        spec_component_priority(NodeSurfaceSlotKind::FieldRow) == 0,
        spec_component_priority(NodeSurfaceSlotKind::Icon) == 12,
{
}

/// In a laid-out slot order, a slot of a kind that ranks earlier comes
/// first: a preview row never follows an action row, a field row never
/// follows a header.
pub proof fn lemma_sorted_slots_follow_kind_order(s: Seq<NodeSurfaceSlotProjection>, i: int, j: int)
    requires
        slots_sorted(s),
        0 <= i < s.len(),
        0 <= j < s.len(),
        spec_component_priority(s[i].kind) < spec_component_priority(s[j].kind),
    ensures
        i < j,
{
    if j < i {
        assert(slot_order(s[j], s[i]) <= 0);
    }
}

/// Distinct slot kinds have distinct priorities, so ordering by priority is total.
pub proof fn lemma_component_priority_injective(a: NodeSurfaceSlotKind, b: NodeSurfaceSlotKind)
    requires
        spec_component_priority(a) == spec_component_priority(b),
    ensures
        a == b,
{
}

// ---------------------------------------------------------------------
// Slot visibility and the order of slot rows

/// Whether a projected slot is drawn.
#[derive(Debug, Clone, Copy, PartialEq, Eq, Structural)]
pub enum NodeSurfaceSlotVisibility {
    Visible,
    Hidden,
}

/// What the surface layout reads of one projected semantic slot.
#[derive(Debug, Clone, PartialEq, Eq)]
pub struct NodeSurfaceSlotProjection {
    pub key: String,
    pub kind: NodeSurfaceSlotKind,
    pub visible: bool,
}

/// The visibility that a slot's flag stands for.
pub open spec fn spec_slot_visibility(visible: bool) -> NodeSurfaceSlotVisibility {
    if visible {
        NodeSurfaceSlotVisibility::Visible
    } else {
        NodeSurfaceSlotVisibility::Hidden
    }
}

/// The visibility of a projected slot.
pub fn slot_projection_visibility(slot: &NodeSurfaceSlotProjection) -> (visibility: NodeSurfaceSlotVisibility)
    ensures
        visibility == spec_slot_visibility(slot.visible),
{
    if slot.visible {
        NodeSurfaceSlotVisibility::Visible
    } else {
        NodeSurfaceSlotVisibility::Hidden
    }
}

/// Keeps the slots that are drawn.
pub open spec fn visible_pred() -> spec_fn(NodeSurfaceSlotProjection) -> bool {
    |slot: NodeSurfaceSlotProjection| slot.visible
}

/// The drawn slots of `slots`, in their order.
pub open spec fn visible_slots(slots: Seq<NodeSurfaceSlotProjection>) -> Seq<NodeSurfaceSlotProjection> {
    slots.filter(visible_pred())
}

/// -1, 0 or 1 as slot `a` is laid out before, with or after `b`: by the
/// priority of its kind, then by key.
pub open spec fn slot_order(a: NodeSurfaceSlotProjection, b: NodeSurfaceSlotProjection) -> int {
    let p = int_order(spec_component_priority(a.kind) as int, spec_component_priority(b.kind) as int);
    if p != 0 {
        p
    } else {
        text_order(a.key@, b.key@)
    }
}

/// Each slot is laid out no later than every slot after it.
pub open spec fn slots_sorted(s: Seq<NodeSurfaceSlotProjection>) -> bool {
    forall|i: int, j: int| 0 <= i < j < s.len() ==> slot_order(#[trigger] s[i], #[trigger] s[j]) <= 0
}

/// Swapping two slots flips their order, and the order is -1, 0 or 1.
pub proof fn lemma_slot_order_antisymmetric(a: NodeSurfaceSlotProjection, b: NodeSurfaceSlotProjection)
    ensures
        slot_order(a, b) == -slot_order(b, a),
        -1 <= slot_order(a, b) <= 1,
{
    lemma_text_order_antisymmetric(a.key@, b.key@);
}

/// Ordering slots is transitive.
pub proof fn lemma_slot_order_transitive(a: NodeSurfaceSlotProjection, b: NodeSurfaceSlotProjection, c: NodeSurfaceSlotProjection)
    requires
        slot_order(a, b) <= 0,
        slot_order(b, c) <= 0,
    ensures
        slot_order(a, c) <= 0,
{
    lemma_text_order_antisymmetric(a.key@, b.key@);
    lemma_text_order_antisymmetric(b.key@, c.key@);
    lemma_text_order_antisymmetric(a.key@, c.key@);
    if text_order(a.key@, b.key@) <= 0 && text_order(b.key@, c.key@) <= 0 {
        lemma_text_order_transitive(a.key@, b.key@, c.key@);
    }
}

/// The order of two slots: -1, 0 or 1 as `a` is laid out before, with or after `b`.
pub fn compare_slots(a: &NodeSurfaceSlotProjection, b: &NodeSurfaceSlotProjection) -> (order: i8)
    ensures
        order as int == slot_order(*a, *b),
{
    let pa = semantic_component_priority(a.kind);
    let pb = semantic_component_priority(b.kind);
    if pa < pb {
        return -1;
    }
    if pa > pb {
        return 1;
    }
    compare_text(a.key.as_str(), b.key.as_str())
}

proof fn lemma_visible_slots_first(s: Seq<NodeSurfaceSlotProjection>)
    requires
        s.len() > 0,
    ensures
        visible_slots(s) == (if s[0].visible { seq![s[0]] } else { Seq::<NodeSurfaceSlotProjection>::empty() })
            + visible_slots(s.drop_first()),
{
    let head = seq![s[0]];
    assert(s =~= head + s.drop_first());
    Seq::filter_distributes_over_add(head, s.drop_first(), visible_pred());
    reveal_with_fuel(Seq::filter, 2);
    assert(head.drop_last() =~= Seq::<NodeSurfaceSlotProjection>::empty());
    assert(head.filter(visible_pred()) =~= (if s[0].visible { seq![s[0]] } else { Seq::<NodeSurfaceSlotProjection>::empty() }));
}

/// The drawn slots, laid out by kind priority and then by key.
pub fn ordered_visible_slot_projections(slots: Vec<NodeSurfaceSlotProjection>) -> (ordered: Vec<NodeSurfaceSlotProjection>)
    ensures
        ordered@.to_multiset() == visible_slots(slots@).to_multiset(),
        slots_sorted(ordered@),
        forall|i: int| 0 <= i < ordered@.len() ==> (#[trigger] ordered@[i]).visible,
{
    broadcast use vstd::multiset::group_multiset_axioms;
    let ghost original = slots@;
    let mut rest = slots;
    let mut sorted: Vec<NodeSurfaceSlotProjection> = Vec::new();
    proof {
        assert(sorted@.to_multiset() =~= vstd::multiset::Multiset::empty()) by {
            vstd::seq_lib::to_multiset_len(sorted@);
        }
    }
    while rest.len() > 0
        invariant
            sorted@.to_multiset().add(visible_slots(rest@).to_multiset()) == visible_slots(original).to_multiset(),
            slots_sorted(sorted@),
            forall|i: int| 0 <= i < sorted@.len() ==> (#[trigger] sorted@[i]).visible,
        decreases rest.len(),
    {
        let ghost before = rest@;
        let item = rest.remove(0);
        proof {
            lemma_visible_slots_first(before);
            assert(before.drop_first() =~= rest@);
            let head = if item.visible { seq![item] } else { Seq::<NodeSurfaceSlotProjection>::empty() };
            vstd::seq_lib::lemma_multiset_commutative(head, visible_slots(rest@));
            if item.visible {
                assert(head.to_multiset() =~= vstd::multiset::Multiset::empty().insert(item)) by {
                    let none = Seq::<NodeSurfaceSlotProjection>::empty();
                    assert(head =~= none.push(item));
                    vstd::seq_lib::to_multiset_build(none, item);
                    vstd::seq_lib::to_multiset_len(none);
                    assert(none.to_multiset() =~= vstd::multiset::Multiset::empty());
                }
            } else {
                assert(head.to_multiset() =~= vstd::multiset::Multiset::empty()) by {
                    vstd::seq_lib::to_multiset_len(head);
                }
            }
        }
        if item.visible {
            let mut p: usize = 0;
            while p < sorted.len()
                invariant
                    p <= sorted@.len(),
                    forall|i: int| 0 <= i < p ==> slot_order(#[trigger] sorted@[i], item) <= 0,
                ensures
                    p <= sorted@.len(),
                    forall|i: int| 0 <= i < p ==> slot_order(#[trigger] sorted@[i], item) <= 0,
                    p < sorted@.len() ==> slot_order(sorted@[p as int], item) > 0,
                decreases sorted.len() - p,
            {
                if compare_slots(&sorted[p], &item) > 0 {
                    break;
                }
                p = p + 1;
            }
            let ghost old_sorted = sorted@;
            let ghost x = item;
            sorted.insert(p, item);
            proof {
                vstd::seq_lib::to_multiset_insert(old_sorted, p as int, x);
                let s = sorted@;
                assert forall|i: int, j: int| 0 <= i < j < s.len() implies slot_order(#[trigger] s[i], #[trigger] s[j]) <= 0 by {
                    if j < p {
                        assert(s[i] == old_sorted[i] && s[j] == old_sorted[j]);
                    } else if j == p {
                        assert(s[i] == old_sorted[i] && s[j] == x);
                    } else if i == p {
                        assert(s[i] == x && s[j] == old_sorted[j - 1]);
                        lemma_slot_order_antisymmetric(old_sorted[p as int], x);
                        if j - 1 > p {
                            assert(slot_order(old_sorted[p as int], old_sorted[j - 1]) <= 0);
                        } else {
                            lemma_slot_order_antisymmetric(old_sorted[p as int], old_sorted[p as int]);
                        }
                        lemma_slot_order_transitive(x, old_sorted[p as int], old_sorted[j - 1]);
                    } else if i < p {
                        assert(s[i] == old_sorted[i] && s[j] == old_sorted[j - 1]);
                    } else {
                        assert(s[i] == old_sorted[i - 1] && s[j] == old_sorted[j - 1]);
                    }
                }
                assert forall|i: int| 0 <= i < s.len() implies (#[trigger] s[i]).visible by {
                    if i < p {
                        assert(s[i] == old_sorted[i]);
                    } else if i > p {
                        assert(s[i] == old_sorted[i - 1]);
                    }
                }
                assert(sorted@.to_multiset().add(visible_slots(rest@).to_multiset())
                    =~= visible_slots(original).to_multiset());
            }
        } else {
            proof {
                assert(sorted@.to_multiset().add(visible_slots(rest@).to_multiset())
                    =~= visible_slots(original).to_multiset());
            }
        }
    }
    proof {
        reveal(Seq::filter);
        assert(visible_slots(rest@) =~= Seq::<NodeSurfaceSlotProjection>::empty());
        assert(visible_slots(rest@).to_multiset() =~= vstd::multiset::Multiset::empty()) by {
            vstd::seq_lib::to_multiset_len(visible_slots(rest@));
        }
        assert(sorted@.to_multiset() =~= visible_slots(original).to_multiset());
    }
    sorted
}

// ---------------------------------------------------------------------
// Rows of the projected surface layout

/// One slot row of the projected surface layout. Rows are counted from the
/// top of the node body; the host turns a row into canvas geometry.
#[derive(Debug, Clone, PartialEq, Eq)]
pub struct OpenGpuiNodeSurfaceSlotLayout {
    pub slot: NodeSurfaceSlotProjection,
    pub row: usize,
}

/// One repeatable collection row of the projected surface layout.
#[derive(Debug, Clone, PartialEq, Eq)]
pub struct OpenGpuiRepeatableSurfaceLayout {
    pub projection: OpenGpuiRepeatableSurfaceProjection,
    pub row: usize,
}

/// Adapter-local projection layout for one semantic node surface: the drawn
/// slots in layout order, then the repeatable collections, one row each.
#[derive(Debug, Clone, PartialEq, Eq)]
pub struct OpenGpuiNodeSurfaceLayout {
    pub slots: Vec<OpenGpuiNodeSurfaceSlotLayout>,
    pub repeatables: Vec<OpenGpuiRepeatableSurfaceLayout>,
    pub measurement_mode: OpenGpuiMeasurementMode,
}

/// The slots of some slot rows, in row order.
pub open spec fn layout_slots(rows: Seq<OpenGpuiNodeSurfaceSlotLayout>) -> Seq<NodeSurfaceSlotProjection> {
    rows.map_values(|r: OpenGpuiNodeSurfaceSlotLayout| r.slot)
}

/// `kept` is what the first `limit` rows hold when the drawn slots of
/// `slots` are laid out in order.
pub open spec fn leading_visible_slots(slots: Seq<NodeSurfaceSlotProjection>, limit: int, kept: Seq<NodeSurfaceSlotProjection>) -> bool {
    exists|ordered: Seq<NodeSurfaceSlotProjection>|
        #[trigger] slots_sorted(ordered)
            && ordered.to_multiset() == visible_slots(slots).to_multiset()
            && kept == ordered.take(if limit < ordered.len() { limit } else { ordered.len() as int })
}

/// Row `i` is the first slot row whose slot has `key`.
pub open spec fn is_first_slot_row(rows: Seq<OpenGpuiNodeSurfaceSlotLayout>, key: Seq<char>, i: int) -> bool {
    &&& 0 <= i < rows.len()
    &&& rows[i].slot.key@ == key
    &&& forall|j: int| 0 <= j < i ==> #[trigger] rows[j].slot.key@ != key
}

impl OpenGpuiNodeSurfaceLayout {
    /// Lay out the drawn slots in order, at most `slot_limit` of them, one row
    /// each from the top, and the repeatable collections in the rows below.
    pub fn new(
        slots: Vec<NodeSurfaceSlotProjection>,
        repeatables: Vec<OpenGpuiRepeatableSurfaceProjection>,
        slot_limit: usize,
    ) -> (layout: Self)
        requires
            slots@.len() + repeatables@.len() <= usize::MAX,
        ensures
            leading_visible_slots(slots@, slot_limit as int, layout_slots(layout.slots@)),
            forall|i: int| 0 <= i < layout.slots@.len() ==> (#[trigger] layout.slots@[i]).row == i,
            layout.repeatables@.len() == repeatables@.len(),
            forall|j: int| 0 <= j < repeatables@.len() ==> {
                &&& (#[trigger] layout.repeatables@[j]).projection == repeatables@[j]
                &&& layout.repeatables@[j].row == layout.slots@.len() + j
            },
            layout.measurement_mode == OpenGpuiMeasurementMode::ProjectionFallback,
    {
        let mut ordered = ordered_visible_slot_projections(slots);
        let ghost full = ordered@;
        proof {
            vstd::seq_lib::to_multiset_len(ordered@);
            vstd::seq_lib::to_multiset_len(visible_slots(slots@));
            visible_slots(slots@).lemma_filter_len(visible_pred());
        }
        let count: usize = if slot_limit < ordered.len() { slot_limit } else { ordered.len() };
        let mut rows: Vec<OpenGpuiNodeSurfaceSlotLayout> = Vec::new();
        let mut i: usize = 0;
        while i < count
            invariant
                count <= full.len(),
                i <= count,
                ordered@ == full.skip(i as int),
                rows@.len() == i,
                forall|j: int| 0 <= j < i ==> (#[trigger] rows@[j]).slot == full[j] && rows@[j].row == j,
            decreases count - i,
        {
            let ghost before = ordered@;
            let slot = ordered.remove(0);
            proof {
                assert(ordered@ =~= full.skip(i + 1));
            }
            rows.push(OpenGpuiNodeSurfaceSlotLayout { slot, row: i });
            i = i + 1;
        }
        proof {
            assert(layout_slots(rows@) =~= full.take(count as int));
            assert(slots_sorted(full));
        }
        let ghost original = repeatables@;
        let mut rest = repeatables;
        let mut laid: Vec<OpenGpuiRepeatableSurfaceLayout> = Vec::new();
        let mut j: usize = 0;
        while rest.len() > 0
            invariant
                count + original.len() <= usize::MAX,
                j + rest@.len() == original.len(),
                rest@ == original.skip(j as int),
                laid@.len() == j,
                forall|t: int| 0 <= t < j ==> (#[trigger] laid@[t]).projection == original[t] && laid@[t].row == count + t,
            decreases rest.len(),
        {
            let projection = rest.remove(0);
            proof {
                assert(rest@ =~= original.skip(j + 1));
            }
            laid.push(OpenGpuiRepeatableSurfaceLayout { projection, row: count + j });
            j = j + 1;
        }
        OpenGpuiNodeSurfaceLayout {
            slots: rows,
            repeatables: laid,
            measurement_mode: OpenGpuiMeasurementMode::ProjectionFallback,
        }
    }

    /// The row of the first slot with `key`, if the layout holds one.
    pub fn slot_row(&self, key: &str) -> (row: Option<usize>)
        ensures
            match row {
                Some(r) => exists|i: int| is_first_slot_row(self.slots@, key@, i) && #[trigger] self.slots@[i].row == r,
                None => forall|i: int| 0 <= i < self.slots@.len() ==> #[trigger] self.slots@[i].slot.key@ != key@,
            },
    {
        let mut i: usize = 0;
        while i < self.slots.len()
            invariant
                i <= self.slots@.len(),
                forall|j: int| 0 <= j < i ==> #[trigger] self.slots@[j].slot.key@ != key@,
            decreases self.slots.len() - i,
        {
            if str_eq(self.slots[i].slot.key.as_str(), key) {
                return Some(self.slots[i].row);
            }
            i = i + 1;
        }
        None
    }
}

} // verus!
