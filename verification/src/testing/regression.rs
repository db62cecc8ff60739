//! Regression evidence collected from the builtin product fixtures, and the
//! gates it must pass: dynamic repeatable lifecycles, authoring interactions
//! and per-fixture measurement reports.

use vstd::prelude::*;
use crate::adapter::{OpenGpuiAdapter, OpenGpuiMeasurementMode, assert_layout_pass_capability_requires_real_bounds};
use crate::measurement::{OpenGpuiMeasurementCoverage, spec_is_full_layout_pass};
use crate::repeatable::OpenGpuiRepeatablePortDiagnostic;
use crate::sets::{Ranked, set_of, rank_sorted, insert_if, set_insert_if, string_set, strings_contain, strings_insert, strings_unique};
use crate::testing::catalog::OpenGpuiProductFixtureKind;
use crate::testing::host_surface::message;
use crate::text::owned;

verus! {

/// Dynamic repeatable lifecycle gaps that must stay explicit in product-shaped nodes.
#[derive(Debug, Clone, Copy, PartialEq, Eq, PartialOrd, Ord, Structural)]
pub enum OpenGpuiDynamicRepeatableLifecycleGap {
    AddMissingPortPolicyAbsent,
    AddPublishedFakeHandle,
    RemoveKeptGraphPort,
    RemoveKeptIncidentEdge,
    RemoveKeptRepeatableAnchor,
    ReorderChangedItemIdentity,
    ReorderChangedAnchorIdentity,
    ReorderChangedSlotIdentity,
    ReorderChangedPortBinding,
    ReorderMissingRowBounds,
    EditKeptStaleLabel,
    EditChangedItemIdentity,
    EditPublishedFakeHandle,
    DisplayOnlyPublishedHandle,
}

impl Ranked for OpenGpuiDynamicRepeatableLifecycleGap {
    open spec fn rank_spec(&self) -> int {
        match self {
            OpenGpuiDynamicRepeatableLifecycleGap::AddMissingPortPolicyAbsent => 0,
            OpenGpuiDynamicRepeatableLifecycleGap::AddPublishedFakeHandle => 1,
            OpenGpuiDynamicRepeatableLifecycleGap::RemoveKeptGraphPort => 2,
            OpenGpuiDynamicRepeatableLifecycleGap::RemoveKeptIncidentEdge => 3,
            OpenGpuiDynamicRepeatableLifecycleGap::RemoveKeptRepeatableAnchor => 4,
            OpenGpuiDynamicRepeatableLifecycleGap::ReorderChangedItemIdentity => 5,
            OpenGpuiDynamicRepeatableLifecycleGap::ReorderChangedAnchorIdentity => 6,
            OpenGpuiDynamicRepeatableLifecycleGap::ReorderChangedSlotIdentity => 7,
            OpenGpuiDynamicRepeatableLifecycleGap::ReorderChangedPortBinding => 8,
            OpenGpuiDynamicRepeatableLifecycleGap::ReorderMissingRowBounds => 9,
            OpenGpuiDynamicRepeatableLifecycleGap::EditKeptStaleLabel => 10,
            OpenGpuiDynamicRepeatableLifecycleGap::EditChangedItemIdentity => 11,
            OpenGpuiDynamicRepeatableLifecycleGap::EditPublishedFakeHandle => 12,
            OpenGpuiDynamicRepeatableLifecycleGap::DisplayOnlyPublishedHandle => 13,
        }
    }

    fn rank(&self) -> (r: u64) {
        match self {
            OpenGpuiDynamicRepeatableLifecycleGap::AddMissingPortPolicyAbsent => 0,
            OpenGpuiDynamicRepeatableLifecycleGap::AddPublishedFakeHandle => 1,
            OpenGpuiDynamicRepeatableLifecycleGap::RemoveKeptGraphPort => 2,
            OpenGpuiDynamicRepeatableLifecycleGap::RemoveKeptIncidentEdge => 3,
            OpenGpuiDynamicRepeatableLifecycleGap::RemoveKeptRepeatableAnchor => 4,
            OpenGpuiDynamicRepeatableLifecycleGap::ReorderChangedItemIdentity => 5,
            OpenGpuiDynamicRepeatableLifecycleGap::ReorderChangedAnchorIdentity => 6,
            OpenGpuiDynamicRepeatableLifecycleGap::ReorderChangedSlotIdentity => 7,
            OpenGpuiDynamicRepeatableLifecycleGap::ReorderChangedPortBinding => 8,
            OpenGpuiDynamicRepeatableLifecycleGap::ReorderMissingRowBounds => 9,
            OpenGpuiDynamicRepeatableLifecycleGap::EditKeptStaleLabel => 10,
            OpenGpuiDynamicRepeatableLifecycleGap::EditChangedItemIdentity => 11,
            OpenGpuiDynamicRepeatableLifecycleGap::EditPublishedFakeHandle => 12,
            OpenGpuiDynamicRepeatableLifecycleGap::DisplayOnlyPublishedHandle => 13,
        }
    }

    proof fn lemma_rank_injective(a: Self, b: Self) {
    }
}

/// Structured evidence for add/remove/reorder/edit semantics on repeatable product rows.
///
/// `exercised_collections` and `mutations` are sets of strings (each member
/// once); `gaps` is a set kept in declaration order.
#[derive(Debug, Clone, Default, PartialEq, Eq)]
pub struct OpenGpuiDynamicRepeatableLifecycleReport {
    pub exercised_collections: Vec<String>,
    pub mutations: Vec<String>,
    pub add_missing_port_diagnostics: usize,
    pub add_created_graph_ports: usize,
    pub add_fake_handle_count: usize,
    pub remove_removed_graph_ports: usize,
    pub remove_removed_incident_edges: usize,
    pub remove_cleared_repeatable_anchor: bool,
    pub reorder_preserved_item_identity: bool,
    pub reorder_preserved_anchor_identity: bool,
    pub reorder_preserved_slot_identity: bool,
    pub reorder_preserved_port_binding: bool,
    pub reorder_has_row_bounds: bool,
    pub edit_refreshed_row_label: bool,
    pub edit_preserved_item_identity: bool,
    pub edit_missing_port_downgrade: bool,
    pub display_only_rows_without_handles: usize,
    pub display_only_fake_handle_count: usize,
    pub gaps: Vec<OpenGpuiDynamicRepeatableLifecycleGap>,
}

/// Whether the collected facts show `gap`.
pub open spec fn lifecycle_gap_applies(
    r: OpenGpuiDynamicRepeatableLifecycleReport,
    gap: OpenGpuiDynamicRepeatableLifecycleGap,
) -> bool {
    match gap {
        OpenGpuiDynamicRepeatableLifecycleGap::AddMissingPortPolicyAbsent =>
            r.add_created_graph_ports == 0 && r.add_missing_port_diagnostics == 0,
        OpenGpuiDynamicRepeatableLifecycleGap::AddPublishedFakeHandle => r.add_fake_handle_count > 0,
        OpenGpuiDynamicRepeatableLifecycleGap::RemoveKeptGraphPort => r.remove_removed_graph_ports == 0,
        OpenGpuiDynamicRepeatableLifecycleGap::RemoveKeptIncidentEdge => r.remove_removed_incident_edges == 0,
        OpenGpuiDynamicRepeatableLifecycleGap::RemoveKeptRepeatableAnchor => !r.remove_cleared_repeatable_anchor,
        OpenGpuiDynamicRepeatableLifecycleGap::ReorderChangedItemIdentity => !r.reorder_preserved_item_identity,
        OpenGpuiDynamicRepeatableLifecycleGap::ReorderChangedAnchorIdentity => !r.reorder_preserved_anchor_identity,
        OpenGpuiDynamicRepeatableLifecycleGap::ReorderChangedSlotIdentity => !r.reorder_preserved_slot_identity,
        OpenGpuiDynamicRepeatableLifecycleGap::ReorderChangedPortBinding => !r.reorder_preserved_port_binding,
        OpenGpuiDynamicRepeatableLifecycleGap::ReorderMissingRowBounds => !r.reorder_has_row_bounds,
        OpenGpuiDynamicRepeatableLifecycleGap::EditKeptStaleLabel => !r.edit_refreshed_row_label,
        OpenGpuiDynamicRepeatableLifecycleGap::EditChangedItemIdentity => !r.edit_preserved_item_identity,
        OpenGpuiDynamicRepeatableLifecycleGap::EditPublishedFakeHandle => !r.edit_missing_port_downgrade,
        OpenGpuiDynamicRepeatableLifecycleGap::DisplayOnlyPublishedHandle =>
            r.display_only_fake_handle_count > 0 || r.display_only_rows_without_handles == 0,
    }
}

/// `base` with every gap that the collected facts show.
pub open spec fn with_fact_gaps(
    base: Set<OpenGpuiDynamicRepeatableLifecycleGap>,
    r: OpenGpuiDynamicRepeatableLifecycleReport,
) -> Set<OpenGpuiDynamicRepeatableLifecycleGap> {
    let g0 = insert_if(base, r.add_created_graph_ports == 0 && r.add_missing_port_diagnostics == 0,
        OpenGpuiDynamicRepeatableLifecycleGap::AddMissingPortPolicyAbsent);
    let g1 = insert_if(g0, r.add_fake_handle_count > 0, OpenGpuiDynamicRepeatableLifecycleGap::AddPublishedFakeHandle);
    let g2 = insert_if(g1, r.remove_removed_graph_ports == 0, OpenGpuiDynamicRepeatableLifecycleGap::RemoveKeptGraphPort);
    let g3 = insert_if(g2, r.remove_removed_incident_edges == 0, OpenGpuiDynamicRepeatableLifecycleGap::RemoveKeptIncidentEdge);
    let g4 = insert_if(g3, !r.remove_cleared_repeatable_anchor, OpenGpuiDynamicRepeatableLifecycleGap::RemoveKeptRepeatableAnchor);
    let g5 = insert_if(g4, !r.reorder_preserved_item_identity, OpenGpuiDynamicRepeatableLifecycleGap::ReorderChangedItemIdentity);
    let g6 = insert_if(g5, !r.reorder_preserved_anchor_identity, OpenGpuiDynamicRepeatableLifecycleGap::ReorderChangedAnchorIdentity);
    let g7 = insert_if(g6, !r.reorder_preserved_slot_identity, OpenGpuiDynamicRepeatableLifecycleGap::ReorderChangedSlotIdentity);
    let g8 = insert_if(g7, !r.reorder_preserved_port_binding, OpenGpuiDynamicRepeatableLifecycleGap::ReorderChangedPortBinding);
    let g9 = insert_if(g8, !r.reorder_has_row_bounds, OpenGpuiDynamicRepeatableLifecycleGap::ReorderMissingRowBounds);
    let g10 = insert_if(g9, !r.edit_refreshed_row_label, OpenGpuiDynamicRepeatableLifecycleGap::EditKeptStaleLabel);
    let g11 = insert_if(g10, !r.edit_preserved_item_identity, OpenGpuiDynamicRepeatableLifecycleGap::EditChangedItemIdentity);
    let g12 = insert_if(g11, !r.edit_missing_port_downgrade, OpenGpuiDynamicRepeatableLifecycleGap::EditPublishedFakeHandle);
    insert_if(g12, r.display_only_fake_handle_count > 0 || r.display_only_rows_without_handles == 0,
        OpenGpuiDynamicRepeatableLifecycleGap::DisplayOnlyPublishedHandle)
}

/// A gap is in `with_fact_gaps(base, r)` exactly when it was in `base` or the facts show it.
pub proof fn lemma_with_fact_gaps_members(
    base: Set<OpenGpuiDynamicRepeatableLifecycleGap>,
    r: OpenGpuiDynamicRepeatableLifecycleReport,
    gap: OpenGpuiDynamicRepeatableLifecycleGap,
)
    ensures
        with_fact_gaps(base, r).contains(gap) <==> (base.contains(gap) || lifecycle_gap_applies(r, gap)),
{
}

/// Adds the gaps that the report's facts show.
fn finalize_dynamic_repeatable_lifecycle_report(report: &mut OpenGpuiDynamicRepeatableLifecycleReport)
    ensures
        *final(report) == (OpenGpuiDynamicRepeatableLifecycleReport { gaps: final(report).gaps, ..*old(report) }),
        set_of(final(report).gaps@) == with_fact_gaps(set_of(old(report).gaps@), *old(report)),
        rank_sorted(old(report).gaps@) ==> rank_sorted(final(report).gaps@),
{
    let mut gaps: Vec<OpenGpuiDynamicRepeatableLifecycleGap> = Vec::new();
    std::mem::swap(&mut gaps, &mut report.gaps);
    set_insert_if(&mut gaps, report.add_created_graph_ports == 0 && report.add_missing_port_diagnostics == 0,
        OpenGpuiDynamicRepeatableLifecycleGap::AddMissingPortPolicyAbsent);
    set_insert_if(&mut gaps, report.add_fake_handle_count > 0,
        OpenGpuiDynamicRepeatableLifecycleGap::AddPublishedFakeHandle);
    set_insert_if(&mut gaps, report.remove_removed_graph_ports == 0,
        OpenGpuiDynamicRepeatableLifecycleGap::RemoveKeptGraphPort);
    set_insert_if(&mut gaps, report.remove_removed_incident_edges == 0,
        OpenGpuiDynamicRepeatableLifecycleGap::RemoveKeptIncidentEdge);
    set_insert_if(&mut gaps, !report.remove_cleared_repeatable_anchor,
        OpenGpuiDynamicRepeatableLifecycleGap::RemoveKeptRepeatableAnchor);
    set_insert_if(&mut gaps, !report.reorder_preserved_item_identity,
        OpenGpuiDynamicRepeatableLifecycleGap::ReorderChangedItemIdentity);
    set_insert_if(&mut gaps, !report.reorder_preserved_anchor_identity,
        OpenGpuiDynamicRepeatableLifecycleGap::ReorderChangedAnchorIdentity);
    set_insert_if(&mut gaps, !report.reorder_preserved_slot_identity,
        OpenGpuiDynamicRepeatableLifecycleGap::ReorderChangedSlotIdentity);
    set_insert_if(&mut gaps, !report.reorder_preserved_port_binding,
        OpenGpuiDynamicRepeatableLifecycleGap::ReorderChangedPortBinding);
    set_insert_if(&mut gaps, !report.reorder_has_row_bounds,
        OpenGpuiDynamicRepeatableLifecycleGap::ReorderMissingRowBounds);
    set_insert_if(&mut gaps, !report.edit_refreshed_row_label,
        OpenGpuiDynamicRepeatableLifecycleGap::EditKeptStaleLabel);
    set_insert_if(&mut gaps, !report.edit_preserved_item_identity,
        OpenGpuiDynamicRepeatableLifecycleGap::EditChangedItemIdentity);
    set_insert_if(&mut gaps, !report.edit_missing_port_downgrade,
        OpenGpuiDynamicRepeatableLifecycleGap::EditPublishedFakeHandle);
    set_insert_if(&mut gaps, report.display_only_fake_handle_count > 0 || report.display_only_rows_without_handles == 0,
        OpenGpuiDynamicRepeatableLifecycleGap::DisplayOnlyPublishedHandle);
    report.gaps = gaps;
}

/// Completes the dynamic repeatable lifecycle evidence collected across the
/// product-shaped fixtures: a collection failure is passed on, and collected
/// evidence gains the gaps that its facts show.
pub fn dynamic_repeatable_lifecycle_report(
    collected: Result<OpenGpuiDynamicRepeatableLifecycleReport, String>,
) -> (report: Result<OpenGpuiDynamicRepeatableLifecycleReport, String>)
    ensures
        match collected {
            Err(e) => report == Err::<OpenGpuiDynamicRepeatableLifecycleReport, String>(e),
            Ok(c) => report is Ok && {
                let r = report->Ok_0;
                &&& r == (OpenGpuiDynamicRepeatableLifecycleReport { gaps: r.gaps, ..c })
                &&& set_of(r.gaps@) == with_fact_gaps(set_of(c.gaps@), c)
                &&& (rank_sorted(c.gaps@) ==> rank_sorted(r.gaps@))
            },
        },
{
    match collected {
        Err(e) => Err(e),
        Ok(mut report) => {
            finalize_dynamic_repeatable_lifecycle_report(&mut report);
            Ok(report)
        },
    }
}

/// The dynamic repeatable lifecycle gate.
pub open spec fn dynamic_lifecycle_gates(r: OpenGpuiDynamicRepeatableLifecycleReport) -> bool {
    &&& string_set(r.exercised_collections@).contains("shader.inputs"@)
    &&& string_set(r.exercised_collections@).contains("table.columns"@)
    &&& string_set(r.exercised_collections@).contains("llm.params"@)
    &&& string_set(r.mutations@).contains("add"@)
    &&& string_set(r.mutations@).contains("remove"@)
    &&& string_set(r.mutations@).contains("reorder"@)
    &&& string_set(r.mutations@).contains("edit"@)
    &&& (r.add_created_graph_ports > 0 || r.add_missing_port_diagnostics > 0)
    &&& r.add_fake_handle_count == 0
    &&& r.remove_removed_graph_ports > 0
    &&& r.remove_removed_incident_edges > 0
    &&& r.remove_cleared_repeatable_anchor
    &&& r.reorder_preserved_item_identity && r.reorder_preserved_anchor_identity
    &&& r.reorder_preserved_slot_identity && r.reorder_preserved_port_binding
    &&& r.reorder_has_row_bounds
    &&& r.edit_refreshed_row_label && r.edit_preserved_item_identity
    &&& r.edit_missing_port_downgrade
    &&& r.display_only_rows_without_handles > 0
    &&& r.display_only_fake_handle_count == 0
    &&& r.gaps@.len() == 0
}

/// Check that dynamic repeatable rows stay honest about graph ports, anchors, and row identity.
pub fn assert_dynamic_repeatable_lifecycle_report_gates(
    report: &OpenGpuiDynamicRepeatableLifecycleReport,
) -> (r: Result<(), String>)
    ensures
        r is Ok <==> dynamic_lifecycle_gates(*report),
{
    if !(strings_contain(&report.exercised_collections, "shader.inputs")
        && strings_contain(&report.exercised_collections, "table.columns")
        && strings_contain(&report.exercised_collections, "llm.params")) {
        return Err(message(&["dynamic repeatable lifecycle must cover shader, ERD, and Dify-like params"]));
    }
    if !(strings_contain(&report.mutations, "add") && strings_contain(&report.mutations, "remove")
        && strings_contain(&report.mutations, "reorder") && strings_contain(&report.mutations, "edit")) {
        return Err(message(&["dynamic repeatable lifecycle must cover add/remove/reorder/edit"]));
    }
    if !(report.add_created_graph_ports > 0 || report.add_missing_port_diagnostics > 0) {
        return Err(message(&["repeatable add must either create graph port facts or emit missing-port diagnostics"]));
    }
    if report.add_fake_handle_count != 0 {
        return Err(message(&["repeatable add must not publish fake handles for missing graph ports"]));
    }
    if report.remove_removed_graph_ports == 0 {
        return Err(message(&["repeatable remove must clear graph port facts for bound dynamic ports"]));
    }
    if report.remove_removed_incident_edges == 0 {
        return Err(message(&["repeatable remove must clear incident edges for removed dynamic ports"]));
    }
    if !report.remove_cleared_repeatable_anchor {
        return Err(message(&["repeatable remove must stop publishing removed item anchors"]));
    }
    if !(report.reorder_preserved_item_identity && report.reorder_preserved_anchor_identity
        && report.reorder_preserved_slot_identity && report.reorder_preserved_port_binding) {
        return Err(message(&["repeatable reorder must preserve item, anchor, slot, and port identity"]));
    }
    if !report.reorder_has_row_bounds {
        return Err(message(&["repeatable reorder must keep measured row bounds attached to the stable item identity"]));
    }
    if !(report.edit_refreshed_row_label && report.edit_preserved_item_identity) {
        return Err(message(&["repeatable edit must refresh row data without changing item identity"]));
    }
    if !report.edit_missing_port_downgrade {
        return Err(message(&["ERD field edits must stay downgraded when graph ports are missing"]));
    }
    if report.display_only_rows_without_handles == 0 {
        return Err(message(&["Dify-style display-only params must be exercised"]));
    }
    if report.display_only_fake_handle_count != 0 {
        return Err(message(&["display-only repeatable params must not publish handles"]));
    }
    if report.gaps.len() != 0 {
        return Err(message(&["dynamic repeatable lifecycle report has unresolved gaps"]));
    }
    Ok(())
}

/// Once evidence collected without gaps is completed, it has a gap exactly
/// when one of its lifecycle facts is unmet: the completed gaps and the
/// lifecycle requirements never disagree.
pub proof fn lemma_completed_gaps_match_facts(c: OpenGpuiDynamicRepeatableLifecycleReport, r: OpenGpuiDynamicRepeatableLifecycleReport)
    requires
        c.gaps@.len() == 0,
        r == (OpenGpuiDynamicRepeatableLifecycleReport { gaps: r.gaps, ..c }),
        set_of(r.gaps@) == with_fact_gaps(set_of(c.gaps@), c),
    ensures
        (r.gaps@.len() == 0) <==> {
            &&& (r.add_created_graph_ports > 0 || r.add_missing_port_diagnostics > 0)
            &&& r.add_fake_handle_count == 0
            &&& r.remove_removed_graph_ports > 0
            &&& r.remove_removed_incident_edges > 0
            &&& r.remove_cleared_repeatable_anchor
            &&& r.reorder_preserved_item_identity && r.reorder_preserved_anchor_identity
            &&& r.reorder_preserved_slot_identity && r.reorder_preserved_port_binding
            &&& r.reorder_has_row_bounds
            &&& r.edit_refreshed_row_label && r.edit_preserved_item_identity
            &&& r.edit_missing_port_downgrade
            &&& r.display_only_rows_without_handles > 0
            &&& r.display_only_fake_handle_count == 0
        },
{
    assert(set_of(c.gaps@) =~= Set::empty());
    if r.gaps@.len() > 0 {
        let g = r.gaps@[0];
        assert(set_of(r.gaps@).contains(g));
        lemma_with_fact_gaps_members(set_of(c.gaps@), c, g);
    } else {
        assert(set_of(r.gaps@) =~= Set::empty());
        assert forall|g: OpenGpuiDynamicRepeatableLifecycleGap| !lifecycle_gap_applies(c, g) by {
            lemma_with_fact_gaps_members(set_of(c.gaps@), c, g);
        }
        assert(!lifecycle_gap_applies(c, OpenGpuiDynamicRepeatableLifecycleGap::AddMissingPortPolicyAbsent));
        assert(!lifecycle_gap_applies(c, OpenGpuiDynamicRepeatableLifecycleGap::AddPublishedFakeHandle));
        assert(!lifecycle_gap_applies(c, OpenGpuiDynamicRepeatableLifecycleGap::RemoveKeptGraphPort));
        assert(!lifecycle_gap_applies(c, OpenGpuiDynamicRepeatableLifecycleGap::RemoveKeptIncidentEdge));
        assert(!lifecycle_gap_applies(c, OpenGpuiDynamicRepeatableLifecycleGap::RemoveKeptRepeatableAnchor));
        assert(!lifecycle_gap_applies(c, OpenGpuiDynamicRepeatableLifecycleGap::ReorderChangedItemIdentity));
        assert(!lifecycle_gap_applies(c, OpenGpuiDynamicRepeatableLifecycleGap::ReorderChangedAnchorIdentity));
        assert(!lifecycle_gap_applies(c, OpenGpuiDynamicRepeatableLifecycleGap::ReorderChangedSlotIdentity));
        assert(!lifecycle_gap_applies(c, OpenGpuiDynamicRepeatableLifecycleGap::ReorderChangedPortBinding));
        assert(!lifecycle_gap_applies(c, OpenGpuiDynamicRepeatableLifecycleGap::ReorderMissingRowBounds));
        assert(!lifecycle_gap_applies(c, OpenGpuiDynamicRepeatableLifecycleGap::EditKeptStaleLabel));
        assert(!lifecycle_gap_applies(c, OpenGpuiDynamicRepeatableLifecycleGap::EditChangedItemIdentity));
        assert(!lifecycle_gap_applies(c, OpenGpuiDynamicRepeatableLifecycleGap::EditPublishedFakeHandle));
        assert(!lifecycle_gap_applies(c, OpenGpuiDynamicRepeatableLifecycleGap::DisplayOnlyPublishedHandle));
    }
}

/// Adapter-level evidence for user-facing authoring interaction paths.
///
/// Every `Vec<String>` field is a set of strings (each member once).
#[derive(Debug, Clone, Default, PartialEq, Eq)]
pub struct OpenGpuiAuthoringInteractionReport {
    pub dropped_wire_actions: Vec<String>,
    pub node_actions: Vec<String>,
    pub inspector_target_sources: Vec<String>,
    pub inspector_actions: Vec<String>,
    pub blackboard_actions: Vec<String>,
    pub repeatable_mutations: Vec<String>,
    pub dynamic_repeatable_lifecycle: OpenGpuiDynamicRepeatableLifecycleReport,
    pub invalid_hover_rejections: usize,
    pub editable_control_regions: usize,
}

/// The authoring interaction gate.
pub open spec fn authoring_interaction_gates(r: OpenGpuiAuthoringInteractionReport) -> bool {
    &&& string_set(r.dropped_wire_actions@).contains("action.insert.llm"@)
    &&& string_set(r.node_actions@).contains("action.llm.run"@)
    &&& string_set(r.inspector_target_sources@).contains("measured"@)
    &&& string_set(r.inspector_target_sources@).contains("fallback"@)
    &&& string_set(r.inspector_target_sources@).contains("missing"@)
    &&& string_set(r.inspector_actions@).contains("action.column.remove"@)
    &&& string_set(r.blackboard_actions@).contains("action.shader_property.add"@)
    &&& string_set(r.repeatable_mutations@).contains("add"@)
    &&& string_set(r.repeatable_mutations@).contains("remove"@)
    &&& string_set(r.repeatable_mutations@).contains("reorder"@)
    &&& string_set(r.repeatable_mutations@).contains("edit"@)
    &&& string_set(r.repeatable_mutations@).contains("missing_dynamic_port"@)
    &&& string_set(r.repeatable_mutations@).contains("removed_port"@)
    &&& dynamic_lifecycle_gates(r.dynamic_repeatable_lifecycle)
    &&& r.invalid_hover_rejections >= 1
    &&& r.editable_control_regions >= 3
}

/// Check that descriptor-driven interaction states exist for the GPUI adapter to render locally.
pub fn assert_authoring_interaction_regression_gates(report: &OpenGpuiAuthoringInteractionReport) -> (r: Result<(), String>)
    ensures
        r is Ok <==> authoring_interaction_gates(*report),
{
    if !strings_contain(&report.dropped_wire_actions, "action.insert.llm") {
        return Err(message(&["dropped-wire insert action must remain visible and dispatchable"]));
    }
    if !strings_contain(&report.node_actions, "action.llm.run") {
        return Err(message(&["node action dispatch evidence is missing"]));
    }
    if !(strings_contain(&report.inspector_target_sources, "measured")
        && strings_contain(&report.inspector_target_sources, "fallback")
        && strings_contain(&report.inspector_target_sources, "missing")) {
        return Err(message(&["inspector target evidence must cover measured/fallback/missing"]));
    }
    if !strings_contain(&report.inspector_actions, "action.column.remove") {
        return Err(message(&["repeatable item inspector action evidence is missing"]));
    }
    if !strings_contain(&report.blackboard_actions, "action.shader_property.add") {
        return Err(message(&["blackboard action dispatch evidence is missing"]));
    }
    let m = &report.repeatable_mutations;
    if !(strings_contain(m, "add") && strings_contain(m, "remove") && strings_contain(m, "reorder")
        && strings_contain(m, "edit") && strings_contain(m, "missing_dynamic_port")
        && strings_contain(m, "removed_port")) {
        return Err(message(&["repeatable mutation evidence must cover add/remove/reorder/edit and port lifecycle"]));
    }
    let lifecycle = assert_dynamic_repeatable_lifecycle_report_gates(&report.dynamic_repeatable_lifecycle);
    if lifecycle.is_err() {
        return lifecycle;
    }
    if report.invalid_hover_rejections < 1 {
        return Err(message(&["shader invalid hover must reject incompatible typed targets"]));
    }
    if report.editable_control_regions < 3 {
        return Err(message(&["editable in-node/inspector control evidence is missing"]));
    }
    Ok(())
}

/// Adapter-level evidence collected for one builtin product fixture.
///
/// Every `Vec<String>` field but the list of port diagnostics is a set of
/// strings (each member once).
#[derive(Debug, Clone, PartialEq, Eq)]
pub struct OpenGpuiProductFixtureReport {
    pub kind: OpenGpuiProductFixtureKind,
    pub kit_key: String,
    pub fixture_key: String,
    pub density_modes: Vec<String>,
    pub region_sources: Vec<String>,
    pub resize_probe_count: usize,
    pub node_count: usize,
    pub measured_nodes: usize,
    pub slot_count: usize,
    pub anchor_count: usize,
    pub repeatable_item_count: usize,
    pub missing_dynamic_ports: Vec<OpenGpuiRepeatablePortDiagnostic>,
    pub actions: Vec<String>,
    pub inspectors: Vec<String>,
    pub blackboards: Vec<String>,
    pub control_primitives: Vec<String>,
    pub measured_control_regions: usize,
    pub measurement_mode: OpenGpuiMeasurementMode,
    pub measurement_coverage: OpenGpuiMeasurementCoverage,
}

/// The region sources that a coverage shows, added to `sources`.
pub open spec fn coverage_sources(sources: Set<Seq<char>>, c: OpenGpuiMeasurementCoverage) -> Set<Seq<char>> {
    Set::new(|s: Seq<char>| sources.contains(s)
        || (s == "layout_pass"@ && c.layout_pass_regions > 0)
        || (s == "projection_fallback"@ && c.projection_fallback_regions > 0)
        || (s == "missing"@ && c.missing_regions > 0)
        || (s == "stale"@ && c.stale_regions > 0)
        || (s == "partial"@ && c.partial_regions > 0)
        || (s == "duplicate"@ && c.duplicate_regions > 0))
}

fn insert_source_if(sources: &mut Vec<String>, cond: bool, name: &str)
    ensures
        string_set(final(sources)@) == if cond { string_set(old(sources)@).insert(name@) } else { string_set(old(sources)@) },
        strings_unique(old(sources)@) ==> strings_unique(final(sources)@),
{
    if cond {
        strings_insert(sources, owned(name));
    }
}

/// Records, as region sources, every kind of region that the report's coverage counts.
pub fn sync_region_sources(report: &mut OpenGpuiProductFixtureReport)
    ensures
        *final(report) == (OpenGpuiProductFixtureReport { region_sources: final(report).region_sources, ..*old(report) }),
        string_set(final(report).region_sources@) == coverage_sources(
            string_set(old(report).region_sources@), old(report).measurement_coverage),
        strings_unique(old(report).region_sources@) ==> strings_unique(final(report).region_sources@),
{
    let ghost start = *report;
    let c = report.measurement_coverage;
    let mut sources: Vec<String> = Vec::new();
    std::mem::swap(&mut sources, &mut report.region_sources);
    insert_source_if(&mut sources, c.layout_pass_regions > 0, "layout_pass");
    insert_source_if(&mut sources, c.projection_fallback_regions > 0, "projection_fallback");
    insert_source_if(&mut sources, c.missing_regions > 0, "missing");
    insert_source_if(&mut sources, c.stale_regions > 0, "stale");
    insert_source_if(&mut sources, c.partial_regions > 0, "partial");
    insert_source_if(&mut sources, c.duplicate_regions > 0, "duplicate");
    proof {
        assert(string_set(sources@) =~= coverage_sources(string_set(start.region_sources@), c));
    }
    report.region_sources = sources;
}

/// Density modes cover compact, regular and full, with a resize probe per
/// measured node (at least one).
pub open spec fn density_and_resize_evidence(r: OpenGpuiProductFixtureReport) -> bool {
    &&& string_set(r.density_modes@).contains("compact"@)
    &&& string_set(r.density_modes@).contains("regular"@)
    &&& string_set(r.density_modes@).contains("full"@)
    &&& r.resize_probe_count >= (if r.measured_nodes > 1 { r.measured_nodes as int } else { 1 })
}

fn check_density_and_resize(report: &OpenGpuiProductFixtureReport) -> (r: Result<(), String>)
    ensures
        r is Ok <==> density_and_resize_evidence(*report),
{
    if !(strings_contain(&report.density_modes, "compact") && strings_contain(&report.density_modes, "regular")
        && strings_contain(&report.density_modes, "full")) {
        return Err(message(&["product fixture must cover compact/regular/full density modes"]));
    }
    let floor = if report.measured_nodes > 1 { report.measured_nodes } else { 1 };
    if report.resize_probe_count < floor {
        return Err(message(&["product fixture must include resize geometry probes"]));
    }
    Ok(())
}

/// The regression evidence of the four builtin product fixtures: their
/// projection-fallback and layout-pass reports, and those of their
/// representative schema nodes.
#[derive(Debug, Clone, PartialEq, Eq)]
pub struct OpenGpuiProductFixtureRegressionReports {
    pub workflow: OpenGpuiProductFixtureReport,
    pub dify_node: OpenGpuiProductFixtureReport,
    pub dify_layout: OpenGpuiProductFixtureReport,
    pub dify_node_layout: OpenGpuiProductFixtureReport,
    pub shader: OpenGpuiProductFixtureReport,
    pub shader_node: OpenGpuiProductFixtureReport,
    pub shader_layout: OpenGpuiProductFixtureReport,
    pub shader_node_layout: OpenGpuiProductFixtureReport,
    pub erd: OpenGpuiProductFixtureReport,
    pub erd_layout: OpenGpuiProductFixtureReport,
    pub mind: OpenGpuiProductFixtureReport,
    pub mind_layout: OpenGpuiProductFixtureReport,
}

/// The workflow fixture gates.
pub open spec fn workflow_gates(r: OpenGpuiProductFixtureRegressionReports) -> bool {
    let w = r.workflow;
    let d = r.dify_node;
    let dl = r.dify_layout;
    let dnl = r.dify_node_layout;
    &&& w.node_count >= 4 && w.measured_nodes >= 4 && w.slot_count >= 1
    &&& density_and_resize_evidence(w)
    &&& string_set(w.region_sources@).contains("projection_fallback"@)
    &&& w.measurement_mode == OpenGpuiMeasurementMode::ProjectionFallback
    &&& !spec_is_full_layout_pass(w.measurement_coverage)
    &&& w.measurement_coverage.layout_pass_regions == 0
    &&& w.measurement_coverage.projection_fallback_regions >= w.slot_count + w.anchor_count
    &&& d.slot_count >= 8 && d.anchor_count >= 2 && d.repeatable_item_count >= 2
    &&& string_set(d.actions@).contains("action.llm.run"@)
    &&& string_set(d.actions@).contains("action.insert.llm"@)
    &&& string_set(d.inspectors@).contains("inspector.llm"@)
    &&& string_set(d.control_primitives@).contains("textarea"@)
    &&& string_set(d.control_primitives@).contains("select"@)
    &&& string_set(d.control_primitives@).contains("variable_picker_stub"@)
    &&& d.measurement_mode == OpenGpuiMeasurementMode::ProjectionFallback
    &&& !spec_is_full_layout_pass(d.measurement_coverage)
    &&& d.measurement_coverage.layout_pass_regions == 0
    &&& dl.measurement_mode == OpenGpuiMeasurementMode::LayoutPass
    &&& density_and_resize_evidence(dl)
    &&& string_set(dl.region_sources@).contains("layout_pass"@)
    &&& spec_is_full_layout_pass(dl.measurement_coverage)
    &&& spec_is_full_layout_pass(dnl.measurement_coverage)
    &&& dnl.measured_control_regions >= 3
}

/// The shader, ERD and mind-map fixture gates.
pub open spec fn other_fixture_gates(r: OpenGpuiProductFixtureRegressionReports) -> bool {
    let s = r.shader;
    let sn = r.shader_node;
    let snl = r.shader_node_layout;
    let e = r.erd;
    let el = r.erd_layout;
    let m = r.mind;
    let ml = r.mind_layout;
    &&& s.node_count >= 2 && s.measured_nodes >= 2 && s.slot_count >= 6 && s.anchor_count >= 3
    &&& density_and_resize_evidence(s)
    &&& sn.repeatable_item_count >= 3 && sn.anchor_count >= 3
    &&& string_set(sn.actions@).contains("action.shader_input.add"@)
    &&& string_set(sn.actions@).contains("action.shader_input.remove"@)
    &&& string_set(sn.blackboards@).contains("blackboard.shader.properties"@)
    &&& string_set(sn.control_primitives@).contains("slider"@)
    &&& string_set(sn.control_primitives@).contains("select"@)
    &&& sn.missing_dynamic_ports@.len() == 0
    &&& spec_is_full_layout_pass(r.shader_layout.measurement_coverage)
    &&& density_and_resize_evidence(snl)
    &&& spec_is_full_layout_pass(snl.measurement_coverage)
    &&& snl.repeatable_item_count >= 3 && snl.anchor_count >= 3
    &&& e.node_count >= 2 && e.repeatable_item_count >= 3 && e.anchor_count >= 2
    &&& string_set(e.actions@).contains("action.column.add"@)
    &&& string_set(e.inspectors@).contains("inspector.column.email"@)
    &&& string_set(e.control_primitives@).contains("text_input"@)
    &&& density_and_resize_evidence(e)
    &&& density_and_resize_evidence(el)
    &&& spec_is_full_layout_pass(el.measurement_coverage)
    &&& el.repeatable_item_count >= 3 && el.measured_control_regions >= 3
    &&& m.node_count >= 3 && m.measured_nodes >= 3 && m.slot_count >= 3
    &&& string_set(m.control_primitives@).contains("text_input"@)
    &&& density_and_resize_evidence(m)
    &&& density_and_resize_evidence(ml)
    &&& spec_is_full_layout_pass(ml.measurement_coverage)
    &&& ml.slot_count >= 3
}

/// The product fixture regression gate.
pub open spec fn product_fixture_gates(r: OpenGpuiProductFixtureRegressionReports) -> bool {
    workflow_gates(r) && other_fixture_gates(r)
}

fn check_workflow(r: &OpenGpuiProductFixtureRegressionReports) -> (ok: Result<(), String>)
    ensures
        ok is Ok <==> workflow_gates(*r),
{
    let w = &r.workflow;
    if !(w.node_count >= 4 && w.measured_nodes >= 4 && w.slot_count >= 1) {
        return Err(message(&["Dify-style workflow fixture must measure its nodes and slots"]));
    }
    let density = check_density_and_resize(w);
    if density.is_err() {
        return density;
    }
    if !strings_contain(&w.region_sources, "projection_fallback") {
        return Err(message(&["Dify-style workflow fixture must report projection fallback regions"]));
    }
    if w.measurement_mode != OpenGpuiMeasurementMode::ProjectionFallback || w.measurement_coverage.is_full_layout_pass()
        || w.measurement_coverage.layout_pass_regions != 0 {
        return Err(message(&["Dify-style workflow fixture must stay a projection fallback"]));
    }
    if (w.measurement_coverage.projection_fallback_regions as u128) < (w.slot_count as u128) + (w.anchor_count as u128) {
        return Err(message(&["projection fallback coverage must count every slot and anchor"]));
    }
    let d = &r.dify_node;
    if !(d.slot_count >= 8 && d.anchor_count >= 2 && d.repeatable_item_count >= 2) {
        return Err(message(&["Dify-style LLM schema must expose slots, anchors, and repeatable params"]));
    }
    if !(strings_contain(&d.actions, "action.llm.run") && strings_contain(&d.actions, "action.insert.llm")
        && strings_contain(&d.inspectors, "inspector.llm")) {
        return Err(message(&["Dify-style LLM schema must expose run, insert, and inspector evidence"]));
    }
    if !(strings_contain(&d.control_primitives, "textarea") && strings_contain(&d.control_primitives, "select")
        && strings_contain(&d.control_primitives, "variable_picker_stub")) {
        return Err(message(&["Dify-style LLM schema must project textarea, select, and variable picker controls"]));
    }
    if d.measurement_mode != OpenGpuiMeasurementMode::ProjectionFallback || d.measurement_coverage.is_full_layout_pass()
        || d.measurement_coverage.layout_pass_regions != 0 {
        return Err(message(&["Dify-style LLM schema must stay a projection fallback"]));
    }
    let dl = &r.dify_layout;
    if dl.measurement_mode != OpenGpuiMeasurementMode::LayoutPass {
        return Err(message(&["Dify-style layout-pass fixture must use layout-pass measurement"]));
    }
    let density = check_density_and_resize(dl);
    if density.is_err() {
        return density;
    }
    if !strings_contain(&dl.region_sources, "layout_pass") || !dl.measurement_coverage.is_full_layout_pass() {
        return Err(message(&["Dify-style layout-pass fixture must be a full layout pass"]));
    }
    let capability = assert_layout_pass_capability_requires_real_bounds(
        &OpenGpuiAdapter::layout_pass(dl.measurement_coverage));
    if capability.is_err() {
        return capability;
    }
    let dnl = &r.dify_node_layout;
    if !dnl.measurement_coverage.is_full_layout_pass() {
        return Err(message(&["Dify LLM layout-pass coverage must be full"]));
    }
    if dnl.measured_control_regions < 3 {
        return Err(message(&["Dify LLM layout-pass schema must measure its control regions"]));
    }
    Ok(())
}

fn check_other_fixtures(r: &OpenGpuiProductFixtureRegressionReports) -> (ok: Result<(), String>)
    ensures
        ok is Ok <==> other_fixture_gates(*r),
{
    let s = &r.shader;
    if !(s.node_count >= 2 && s.measured_nodes >= 2 && s.slot_count >= 6 && s.anchor_count >= 3) {
        return Err(message(&["shader fixture must measure its nodes, slots, and anchors"]));
    }
    let density = check_density_and_resize(s);
    if density.is_err() {
        return density;
    }
    let sn = &r.shader_node;
    if !(sn.repeatable_item_count >= 3 && sn.anchor_count >= 3) {
        return Err(message(&["shader mix schema must expose repeatable inputs and anchors"]));
    }
    if !(strings_contain(&sn.actions, "action.shader_input.add") && strings_contain(&sn.actions, "action.shader_input.remove")
        && strings_contain(&sn.blackboards, "blackboard.shader.properties")) {
        return Err(message(&["shader mix schema must expose input actions and its property blackboard"]));
    }
    if !(strings_contain(&sn.control_primitives, "slider") && strings_contain(&sn.control_primitives, "select")) {
        return Err(message(&["shader mix schema must project slider and select controls"]));
    }
    if sn.missing_dynamic_ports.len() != 0 {
        return Err(message(&["shader mix schema must bind every dynamic port"]));
    }
    if !r.shader_layout.measurement_coverage.is_full_layout_pass() {
        return Err(message(&["shader layout-pass fixture must be a full layout pass"]));
    }
    let snl = &r.shader_node_layout;
    let density = check_density_and_resize(snl);
    if density.is_err() {
        return density;
    }
    if !(snl.measurement_coverage.is_full_layout_pass() && snl.repeatable_item_count >= 3 && snl.anchor_count >= 3) {
        return Err(message(&["shader mix layout-pass schema must be a full layout pass with its repeatable inputs"]));
    }
    let e = &r.erd;
    if !(e.node_count >= 2 && e.repeatable_item_count >= 3 && e.anchor_count >= 2) {
        return Err(message(&["ERD fixture must expose tables, columns, and anchors"]));
    }
    if !(strings_contain(&e.actions, "action.column.add") && strings_contain(&e.inspectors, "inspector.column.email")
        && strings_contain(&e.control_primitives, "text_input")) {
        return Err(message(&["ERD fixture must expose column actions, inspectors, and text inputs"]));
    }
    let density = check_density_and_resize(e);
    if density.is_err() {
        return density;
    }
    let el = &r.erd_layout;
    let density = check_density_and_resize(el);
    if density.is_err() {
        return density;
    }
    if !(el.measurement_coverage.is_full_layout_pass() && el.repeatable_item_count >= 3 && el.measured_control_regions >= 3) {
        return Err(message(&["ERD layout-pass fixture must be a full layout pass with its columns and controls"]));
    }
    let m = &r.mind;
    if !(m.node_count >= 3 && m.measured_nodes >= 3 && m.slot_count >= 3) {
        return Err(message(&["mind-map fixture must measure its topics and slots"]));
    }
    if !strings_contain(&m.control_primitives, "text_input") {
        return Err(message(&["mind-map fixture must project text inputs"]));
    }
    let density = check_density_and_resize(m);
    if density.is_err() {
        return density;
    }
    let ml = &r.mind_layout;
    let density = check_density_and_resize(ml);
    if density.is_err() {
        return density;
    }
    if !(ml.measurement_coverage.is_full_layout_pass() && ml.slot_count >= 3) {
        return Err(message(&["mind-map layout-pass fixture must be a full layout pass with its slots"]));
    }
    Ok(())
}

/// Check the product fixtures that approximate Dify, shader/blueprint, ERD, and mind-map usage.
pub fn assert_product_fixture_regression_gates(reports: &OpenGpuiProductFixtureRegressionReports) -> (r: Result<(), String>)
    ensures
        r is Ok <==> product_fixture_gates(*reports),
{
    let workflow = check_workflow(reports);
    if workflow.is_err() {
        return workflow;
    }
    check_other_fixtures(reports)
}

} // verus!
