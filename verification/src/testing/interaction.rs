//! Product-level interaction evidence and its hard gates.

use vstd::prelude::*;
use crate::presets::{
    OpenGpuiGraphAffordanceEvidence, spec_has_layout_region_evidence, spec_has_product_hit_budgets,
    spec_has_product_route_policy,
};
use crate::sets::{Ranked, set_of, rank_sorted, set_insert};
use crate::testing::host_surface::message;

verus! {

/// User-visible interaction gap collected from the concrete Open GPUI gallery path.
#[derive(Debug, Clone, Copy, PartialEq, Eq, PartialOrd, Ord, Structural)]
pub enum OpenGpuiHostProductInteractionGap {
    DragSurfaceMissingFullPointerSequence,
    ControlEventShieldingUnchecked,
    GraphAffordanceHitBudgetMissing,
    GraphAffordanceLayoutEvidenceMissing,
    GraphAffordanceRoutePolicyMissing,
    PortHotspotPathMissing,
    ToolSwitcherMissing,
    ConnectFlowNotStoreSynced,
    ReconnectAffordanceMissing,
    DroppedWireGestureDetached,
    RepeatableOverflowIndicatorMissing,
}

impl Ranked for OpenGpuiHostProductInteractionGap {
    open spec fn rank_spec(&self) -> int {
        match self {
            OpenGpuiHostProductInteractionGap::DragSurfaceMissingFullPointerSequence => 0,
            OpenGpuiHostProductInteractionGap::ControlEventShieldingUnchecked => 1,
            OpenGpuiHostProductInteractionGap::GraphAffordanceHitBudgetMissing => 2,
            OpenGpuiHostProductInteractionGap::GraphAffordanceLayoutEvidenceMissing => 3,
            OpenGpuiHostProductInteractionGap::GraphAffordanceRoutePolicyMissing => 4,
            OpenGpuiHostProductInteractionGap::PortHotspotPathMissing => 5,
            OpenGpuiHostProductInteractionGap::ToolSwitcherMissing => 6,
            OpenGpuiHostProductInteractionGap::ConnectFlowNotStoreSynced => 7,
            OpenGpuiHostProductInteractionGap::ReconnectAffordanceMissing => 8,
            OpenGpuiHostProductInteractionGap::DroppedWireGestureDetached => 9,
            OpenGpuiHostProductInteractionGap::RepeatableOverflowIndicatorMissing => 10,
        }
    }

    fn rank(&self) -> (r: u64) {
        match self {
            OpenGpuiHostProductInteractionGap::DragSurfaceMissingFullPointerSequence => 0,
            OpenGpuiHostProductInteractionGap::ControlEventShieldingUnchecked => 1,
            OpenGpuiHostProductInteractionGap::GraphAffordanceHitBudgetMissing => 2,
            OpenGpuiHostProductInteractionGap::GraphAffordanceLayoutEvidenceMissing => 3,
            OpenGpuiHostProductInteractionGap::GraphAffordanceRoutePolicyMissing => 4,
            OpenGpuiHostProductInteractionGap::PortHotspotPathMissing => 5,
            OpenGpuiHostProductInteractionGap::ToolSwitcherMissing => 6,
            OpenGpuiHostProductInteractionGap::ConnectFlowNotStoreSynced => 7,
            OpenGpuiHostProductInteractionGap::ReconnectAffordanceMissing => 8,
            OpenGpuiHostProductInteractionGap::DroppedWireGestureDetached => 9,
            OpenGpuiHostProductInteractionGap::RepeatableOverflowIndicatorMissing => 10,
        }
    }

    proof fn lemma_rank_injective(a: Self, b: Self) {
    }
}

/// `gaps` plus `gap` when `cond` holds.
pub open spec fn add_gap_if(
    gaps: Set<OpenGpuiHostProductInteractionGap>,
    cond: bool,
    gap: OpenGpuiHostProductInteractionGap,
) -> Set<OpenGpuiHostProductInteractionGap> {
    if cond { gaps.insert(gap) } else { gaps }
}

/// Characterization report for product-level Open GPUI interactions.
///
/// This report may contain gaps during characterization; the hard gate
/// below promotes its fields to requirements. `gaps` is a set kept in
/// declaration order.
#[derive(Debug, Clone, Default, PartialEq, Eq)]
pub struct OpenGpuiHostProductInteractionReport {
    pub product_drag_surface_count: usize,
    pub full_drag_pointer_sequence_checked: bool,
    pub control_event_shielding_checked: bool,
    pub port_hotspot_path_checked: bool,
    pub tool_switcher_visible: bool,
    pub connect_flow_store_synced: bool,
    pub reconnect_affordance_visible: bool,
    pub dropped_wire_gesture_connected: bool,
    pub graph_affordance_evidence: Option<OpenGpuiGraphAffordanceEvidence>,
    pub hidden_repeatable_overflow_count: usize,
    pub repeatable_overflow_indicator_count: usize,
    pub gaps: Vec<OpenGpuiHostProductInteractionGap>,
}

impl OpenGpuiHostProductInteractionReport {
    pub open spec fn gap_set(&self) -> Set<OpenGpuiHostProductInteractionGap> {
        set_of(self.gaps@)
    }

    fn add_gap_when(&mut self, cond: bool, gap: OpenGpuiHostProductInteractionGap)
        ensures
            *final(self) == (Self { gaps: final(self).gaps, ..*old(self) }),
            final(self).gap_set() == add_gap_if(old(self).gap_set(), cond, gap),
            rank_sorted(old(self).gaps@) ==> rank_sorted(final(self).gaps@),
    {
        if cond {
            set_insert(&mut self.gaps, gap);
        }
    }

    pub fn mark_drag_surface_coverage(&mut self, product_drag_surface_count: usize, full_pointer_sequence_checked: bool)
        ensures
            *final(self) == (Self {
                product_drag_surface_count,
                full_drag_pointer_sequence_checked: full_pointer_sequence_checked,
                gaps: final(self).gaps,
                ..*old(self)
            }),
            final(self).gap_set() == add_gap_if(old(self).gap_set(),
                product_drag_surface_count > 0 && !full_pointer_sequence_checked,
                OpenGpuiHostProductInteractionGap::DragSurfaceMissingFullPointerSequence),
            rank_sorted(old(self).gaps@) ==> rank_sorted(final(self).gaps@),
    {
        self.product_drag_surface_count = product_drag_surface_count;
        self.full_drag_pointer_sequence_checked = full_pointer_sequence_checked;
        self.add_gap_when(product_drag_surface_count > 0 && !full_pointer_sequence_checked,
            OpenGpuiHostProductInteractionGap::DragSurfaceMissingFullPointerSequence);
    }

    pub fn mark_control_event_shielding_checked(&mut self, checked: bool)
        ensures
            *final(self) == (Self { control_event_shielding_checked: checked, gaps: final(self).gaps, ..*old(self) }),
            final(self).gap_set() == add_gap_if(old(self).gap_set(), !checked,
                OpenGpuiHostProductInteractionGap::ControlEventShieldingUnchecked),
            rank_sorted(old(self).gaps@) ==> rank_sorted(final(self).gaps@),
    {
        self.control_event_shielding_checked = checked;
        self.add_gap_when(!checked, OpenGpuiHostProductInteractionGap::ControlEventShieldingUnchecked);
    }

    pub fn mark_port_hotspot_path_checked(&mut self, checked: bool)
        ensures
            *final(self) == (Self { port_hotspot_path_checked: checked, gaps: final(self).gaps, ..*old(self) }),
            final(self).gap_set() == add_gap_if(old(self).gap_set(), !checked,
                OpenGpuiHostProductInteractionGap::PortHotspotPathMissing),
            rank_sorted(old(self).gaps@) ==> rank_sorted(final(self).gaps@),
    {
        self.port_hotspot_path_checked = checked;
        self.add_gap_when(!checked, OpenGpuiHostProductInteractionGap::PortHotspotPathMissing);
    }

    pub fn mark_tool_switcher_visible(&mut self, visible: bool)
        ensures
            *final(self) == (Self { tool_switcher_visible: visible, gaps: final(self).gaps, ..*old(self) }),
            final(self).gap_set() == add_gap_if(old(self).gap_set(), !visible,
                OpenGpuiHostProductInteractionGap::ToolSwitcherMissing),
            rank_sorted(old(self).gaps@) ==> rank_sorted(final(self).gaps@),
    {
        self.tool_switcher_visible = visible;
        self.add_gap_when(!visible, OpenGpuiHostProductInteractionGap::ToolSwitcherMissing);
    }

    pub fn mark_connect_flow_store_synced(&mut self, synced: bool)
        ensures
            *final(self) == (Self { connect_flow_store_synced: synced, gaps: final(self).gaps, ..*old(self) }),
            final(self).gap_set() == add_gap_if(old(self).gap_set(), !synced,
                OpenGpuiHostProductInteractionGap::ConnectFlowNotStoreSynced),
            rank_sorted(old(self).gaps@) ==> rank_sorted(final(self).gaps@),
    {
        self.connect_flow_store_synced = synced;
        self.add_gap_when(!synced, OpenGpuiHostProductInteractionGap::ConnectFlowNotStoreSynced);
    }

    pub fn mark_reconnect_affordance_visible(&mut self, visible: bool)
        ensures
            *final(self) == (Self { reconnect_affordance_visible: visible, gaps: final(self).gaps, ..*old(self) }),
            final(self).gap_set() == add_gap_if(old(self).gap_set(), !visible,
                OpenGpuiHostProductInteractionGap::ReconnectAffordanceMissing),
            rank_sorted(old(self).gaps@) ==> rank_sorted(final(self).gaps@),
    {
        self.reconnect_affordance_visible = visible;
        self.add_gap_when(!visible, OpenGpuiHostProductInteractionGap::ReconnectAffordanceMissing);
    }

    pub fn mark_dropped_wire_gesture_connected(&mut self, connected: bool)
        ensures
            *final(self) == (Self { dropped_wire_gesture_connected: connected, gaps: final(self).gaps, ..*old(self) }),
            final(self).gap_set() == add_gap_if(old(self).gap_set(), !connected,
                OpenGpuiHostProductInteractionGap::DroppedWireGestureDetached),
            rank_sorted(old(self).gaps@) ==> rank_sorted(final(self).gaps@),
    {
        self.dropped_wire_gesture_connected = connected;
        self.add_gap_when(!connected, OpenGpuiHostProductInteractionGap::DroppedWireGestureDetached);
    }

    pub fn mark_graph_affordance_evidence(&mut self, evidence: OpenGpuiGraphAffordanceEvidence)
        ensures
            *final(self) == (Self { graph_affordance_evidence: Some(evidence), gaps: final(self).gaps, ..*old(self) }),
            final(self).gap_set() == add_gap_if(
                add_gap_if(
                    add_gap_if(old(self).gap_set(), !spec_has_product_route_policy(evidence),
                        OpenGpuiHostProductInteractionGap::GraphAffordanceRoutePolicyMissing),
                    !spec_has_product_hit_budgets(evidence),
                    OpenGpuiHostProductInteractionGap::GraphAffordanceHitBudgetMissing),
                !spec_has_layout_region_evidence(evidence),
                OpenGpuiHostProductInteractionGap::GraphAffordanceLayoutEvidenceMissing),
            rank_sorted(old(self).gaps@) ==> rank_sorted(final(self).gaps@),
    {
        self.graph_affordance_evidence = Some(evidence);
        self.add_gap_when(!evidence.has_product_route_policy(),
            OpenGpuiHostProductInteractionGap::GraphAffordanceRoutePolicyMissing);
        self.add_gap_when(!evidence.has_product_hit_budgets(),
            OpenGpuiHostProductInteractionGap::GraphAffordanceHitBudgetMissing);
        self.add_gap_when(!evidence.has_layout_region_evidence(),
            OpenGpuiHostProductInteractionGap::GraphAffordanceLayoutEvidenceMissing);
    }

    pub fn mark_repeatable_overflow(&mut self, hidden_overflow_count: usize, visible_indicator_count: usize)
        ensures
            *final(self) == (Self {
                hidden_repeatable_overflow_count: hidden_overflow_count,
                repeatable_overflow_indicator_count: visible_indicator_count,
                gaps: final(self).gaps,
                ..*old(self)
            }),
            final(self).gap_set() == add_gap_if(old(self).gap_set(),
                hidden_overflow_count > 0 && visible_indicator_count == 0,
                OpenGpuiHostProductInteractionGap::RepeatableOverflowIndicatorMissing),
            rank_sorted(old(self).gaps@) ==> rank_sorted(final(self).gaps@),
    {
        self.hidden_repeatable_overflow_count = hidden_overflow_count;
        self.repeatable_overflow_indicator_count = visible_indicator_count;
        self.add_gap_when(hidden_overflow_count > 0 && visible_indicator_count == 0,
            OpenGpuiHostProductInteractionGap::RepeatableOverflowIndicatorMissing);
    }
}

/// The characterization contract: some product surface, consistent overflow
/// counters and at least one checked interaction fact.
pub open spec fn characterization_contract(report: OpenGpuiHostProductInteractionReport) -> bool {
    &&& report.product_drag_surface_count > 0
    &&& report.hidden_repeatable_overflow_count >= report.repeatable_overflow_indicator_count
    &&& (report.full_drag_pointer_sequence_checked || report.control_event_shielding_checked
        || report.port_hotspot_path_checked || report.tool_switcher_visible
        || report.connect_flow_store_synced || report.reconnect_affordance_visible
        || report.dropped_wire_gesture_connected || report.graph_affordance_evidence is Some)
}

/// The hard product interaction gate.
pub open spec fn product_interaction_gates(report: OpenGpuiHostProductInteractionReport) -> bool {
    &&& characterization_contract(report)
    &&& report.product_drag_surface_count >= 4
    &&& report.full_drag_pointer_sequence_checked
    &&& report.control_event_shielding_checked
    &&& report.port_hotspot_path_checked
    &&& report.tool_switcher_visible
    &&& report.connect_flow_store_synced
    &&& report.reconnect_affordance_visible
    &&& report.dropped_wire_gesture_connected
    &&& report.graph_affordance_evidence is Some
    &&& spec_has_product_route_policy(report.graph_affordance_evidence->0)
    &&& spec_has_product_hit_budgets(report.graph_affordance_evidence->0)
    &&& spec_has_layout_region_evidence(report.graph_affordance_evidence->0)
    &&& report.hidden_repeatable_overflow_count > 0 ==> report.repeatable_overflow_indicator_count > 0
    &&& report.gaps@.len() == 0
}

/// Check the characterization contract of a product interaction report.
pub fn assert_product_interaction_characterization_report_contract(
    report: &OpenGpuiHostProductInteractionReport,
) -> (r: Result<(), String>)
    ensures
        r is Ok <==> characterization_contract(*report),
{
    if report.product_drag_surface_count == 0 {
        return Err(message(&["product interaction report must cover at least one product renderer surface"]));
    }
    if report.hidden_repeatable_overflow_count < report.repeatable_overflow_indicator_count {
        return Err(message(&["overflow counters must be internally consistent"]));
    }
    if !(report.full_drag_pointer_sequence_checked || report.control_event_shielding_checked
        || report.port_hotspot_path_checked || report.tool_switcher_visible
        || report.connect_flow_store_synced || report.reconnect_affordance_visible
        || report.dropped_wire_gesture_connected || report.graph_affordance_evidence.is_some()) {
        return Err(message(&["product interaction report must expose at least one checked interaction fact"]));
    }
    Ok(())
}

/// Check the concrete Open GPUI product interaction gates for the productized gallery path.
pub fn assert_product_interaction_report_gates(report: &OpenGpuiHostProductInteractionReport) -> (r: Result<(), String>)
    ensures
        r is Ok <==> product_interaction_gates(*report),
{
    let contract = assert_product_interaction_characterization_report_contract(report);
    if contract.is_err() {
        return contract;
    }
    let catalog_len = crate::testing::catalog::product_fixture_catalog().len();
    if report.product_drag_surface_count < catalog_len {
        return Err(message(&["product interaction report must cover drag surfaces across all product fixture families"]));
    }
    if !report.full_drag_pointer_sequence_checked {
        return Err(message(&["product drag surfaces must be covered by full down/move/up/cancel pointer sequences"]));
    }
    if !report.control_event_shielding_checked {
        return Err(message(&["product controls must prove they do not start node drags"]));
    }
    if !report.port_hotspot_path_checked {
        return Err(message(&["product ports must be reachable through the concrete host hotspot path"]));
    }
    if !report.tool_switcher_visible {
        return Err(message(&["Open GPUI product UI must expose tool switching"]));
    }
    if !report.connect_flow_store_synced {
        return Err(message(&["Connect gestures must synchronize through Jellyflow store transactions"]));
    }
    if !report.reconnect_affordance_visible {
        return Err(message(&["Allowed edge reconnect/switch affordances must be visible"]));
    }
    if !report.dropped_wire_gesture_connected {
        return Err(message(&["Dropped-wire insertion must be connected to a real connect-release gesture"]));
    }
    let graph_affordance = match report.graph_affordance_evidence {
        Some(evidence) => evidence,
        None => {
            return Err(message(&["product interaction report must include widget-free graph affordance evidence"]));
        },
    };
    if !graph_affordance.has_product_route_policy() {
        return Err(message(&["committed wires and connection previews must use product route policy"]));
    }
    if !graph_affordance.has_product_hit_budgets() {
        return Err(message(&["ports, endpoints, and reconnect handles must expose product hit budgets"]));
    }
    if !graph_affordance.has_layout_region_evidence() {
        return Err(message(&["product graph affordance evidence must include drag and readable layout regions"]));
    }
    if report.hidden_repeatable_overflow_count > 0 && report.repeatable_overflow_indicator_count == 0 {
        return Err(message(&["hidden repeatable overflow must have a visible indicator"]));
    }
    if report.gaps.len() != 0 {
        return Err(message(&["product interaction report has unresolved gaps"]));
    }
    Ok(())
}

/// Marking every interaction fact as checked, with productized affordance
/// evidence and indicated overflow, yields a report with no gaps that passes
/// the hard gate.
pub proof fn lemma_fully_marked_report_passes(report: OpenGpuiHostProductInteractionReport)
    requires
        report.product_drag_surface_count >= 4,
        report.full_drag_pointer_sequence_checked,
        report.control_event_shielding_checked,
        report.port_hotspot_path_checked,
        report.tool_switcher_visible,
        report.connect_flow_store_synced,
        report.reconnect_affordance_visible,
        report.dropped_wire_gesture_connected,
        report.graph_affordance_evidence is Some,
        spec_has_product_route_policy(report.graph_affordance_evidence->0),
        spec_has_product_hit_budgets(report.graph_affordance_evidence->0),
        spec_has_layout_region_evidence(report.graph_affordance_evidence->0),
        report.hidden_repeatable_overflow_count >= report.repeatable_overflow_indicator_count,
        report.hidden_repeatable_overflow_count > 0 ==> report.repeatable_overflow_indicator_count > 0,
        report.gaps@.len() == 0,
    ensures
        product_interaction_gates(report),
{
}

} // verus!
