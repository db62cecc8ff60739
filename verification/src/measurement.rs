//! Semantic measurement ids, layout-pass coverage accounting and the
//! measurement revision policy.
//!
//! Region geometry is reduced to the facts the accounting reads: whether the
//! reported bounds are positive and finite, the region's element id, its
//! semantic kind and where it came from.

use vstd::prelude::*;
use crate::node_id::{NodeId, uuid_text};
use crate::sets::{string_set, strings_contain, strings_insert};
use crate::text::{decimal, owned, push_str, str_eq};

verus! {

/// Semantic kind for a measured region inside a node surface.
#[derive(Debug, Clone, PartialEq, Eq, Hash)]
pub enum OpenGpuiMeasuredRegionKind {
    Slot { key: String },
    Control { key: String, scope: Option<String> },
    RepeatableItem { key: String, item_id: String },
    Anchor { key: String },
}

/// The semantic key of a region kind.
pub open spec fn region_key(kind: OpenGpuiMeasuredRegionKind) -> Seq<char> {
    match kind {
        OpenGpuiMeasuredRegionKind::Slot { key } => key@,
        OpenGpuiMeasuredRegionKind::Control { key, .. } => key@,
        OpenGpuiMeasuredRegionKind::RepeatableItem { key, .. } => key@,
        OpenGpuiMeasuredRegionKind::Anchor { key } => key@,
    }
}

impl OpenGpuiMeasuredRegionKind {
    pub fn key(&self) -> (key: &str)
        ensures
            key@ == region_key(*self),
    {
        match self {
            OpenGpuiMeasuredRegionKind::Slot { key } => key.as_str(),
            OpenGpuiMeasuredRegionKind::Control { key, .. } => key.as_str(),
            OpenGpuiMeasuredRegionKind::RepeatableItem { key, .. } => key.as_str(),
            OpenGpuiMeasuredRegionKind::Anchor { key } => key.as_str(),
        }
    }
}

/// Stable semantic identifier attached to a GPUI measured element.
#[derive(Debug, Clone, PartialEq, Eq, Hash)]
pub struct OpenGpuiMeasurementId {
    node: NodeId,
    kind: OpenGpuiMeasuredRegionKind,
}

/// The element id text of a measured region of `node`.
pub open spec fn measurement_element_id(node: NodeId, kind: OpenGpuiMeasuredRegionKind) -> Seq<char> {
    "jellyflow-node:"@ + uuid_text(node.0) + match kind {
        OpenGpuiMeasuredRegionKind::Slot { key } => ":slot:"@ + key@,
        OpenGpuiMeasuredRegionKind::Control { key, scope } => match scope {
            Some(scope) => ":control:"@ + scope@ + ":"@ + key@,
            None => ":control:"@ + key@,
        },
        OpenGpuiMeasuredRegionKind::RepeatableItem { key, item_id } => ":repeatable:"@ + key@ + ":item:"@ + item_id@,
        OpenGpuiMeasuredRegionKind::Anchor { key } => ":anchor:"@ + key@,
    }
}

impl OpenGpuiMeasurementId {
    pub closed spec fn spec_node(&self) -> NodeId {
        self.node
    }

    pub closed spec fn spec_kind(&self) -> OpenGpuiMeasuredRegionKind {
        self.kind
    }

    pub fn slot(node: NodeId, key: String) -> (id: Self)
        ensures
            id.spec_node() == node,
            id.spec_kind() == (OpenGpuiMeasuredRegionKind::Slot { key }),
    {
        OpenGpuiMeasurementId { node, kind: OpenGpuiMeasuredRegionKind::Slot { key } }
    }

    pub fn control(node: NodeId, key: String) -> (id: Self)
        ensures
            id.spec_node() == node,
            id.spec_kind() == (OpenGpuiMeasuredRegionKind::Control { key, scope: None }),
    {
        OpenGpuiMeasurementId { node, kind: OpenGpuiMeasuredRegionKind::Control { key, scope: None } }
    }

    pub fn control_in_slot(node: NodeId, slot_key: &str, key: String) -> (id: Self)
        ensures
            id.spec_node() == node,
            id.spec_kind() matches OpenGpuiMeasuredRegionKind::Control { key: k, scope: Some(s) }
                && k == key && s@ == slot_key@,
    {
        OpenGpuiMeasurementId {
            node,
            kind: OpenGpuiMeasuredRegionKind::Control { key, scope: Some(owned(slot_key)) },
        }
    }

    pub fn repeatable_item(node: NodeId, key: String, item_id: String) -> (id: Self)
        ensures
            id.spec_node() == node,
            id.spec_kind() == (OpenGpuiMeasuredRegionKind::RepeatableItem { key, item_id }),
    {
        OpenGpuiMeasurementId { node, kind: OpenGpuiMeasuredRegionKind::RepeatableItem { key, item_id } }
    }

    pub fn anchor(node: NodeId, key: String) -> (id: Self)
        ensures
            id.spec_node() == node,
            id.spec_kind() == (OpenGpuiMeasuredRegionKind::Anchor { key }),
    {
        OpenGpuiMeasurementId { node, kind: OpenGpuiMeasuredRegionKind::Anchor { key } }
    }

    pub fn node(&self) -> (node: NodeId)
        ensures
            node == self.spec_node(),
    {
        self.node
    }

    pub fn kind(&self) -> (kind: &OpenGpuiMeasuredRegionKind)
        ensures
            *kind == self.spec_kind(),
    {
        &self.kind
    }

    /// The GPUI element id under which this region is measured.
    pub fn element_id(&self) -> (id: String)
        ensures
            id@ == measurement_element_id(self.spec_node(), self.spec_kind()),
    {
        let mut id = owned("jellyflow-node:");
        let node_text = self.node.to_text();
        push_str(&mut id, node_text.as_str());
        match &self.kind {
            OpenGpuiMeasuredRegionKind::Slot { key } => {
                push_str(&mut id, ":slot:");
                push_str(&mut id, key.as_str());
            },
            OpenGpuiMeasuredRegionKind::Control { key, scope } => {
                push_str(&mut id, ":control:");
                match scope {
                    Some(scope) => {
                        push_str(&mut id, scope.as_str());
                        push_str(&mut id, ":");
                    },
                    None => {},
                }
                push_str(&mut id, key.as_str());
            },
            OpenGpuiMeasuredRegionKind::RepeatableItem { key, item_id } => {
                push_str(&mut id, ":repeatable:");
                push_str(&mut id, key.as_str());
                push_str(&mut id, ":item:");
                push_str(&mut id, item_id.as_str());
            },
            OpenGpuiMeasuredRegionKind::Anchor { key } => {
                push_str(&mut id, ":anchor:");
                push_str(&mut id, key.as_str());
            },
        }
        proof {
            assert(id@ =~= measurement_element_id(self.node, self.kind));
        }
        id
    }

    pub fn into_region_kind(self) -> (kind: OpenGpuiMeasuredRegionKind)
        ensures
            kind == self.spec_kind(),
    {
        self.kind
    }
}

/// Source coverage for a semantic GPUI measurement region.
#[derive(Debug, Clone, Copy, PartialEq, Eq, Structural)]
pub enum OpenGpuiMeasurementSource {
    LayoutPass,
    ProjectionFallback,
}

/// What coverage accounting reads of one measured region: its semantic
/// kind, element id, source, and whether its bounds were positive and finite.
#[derive(Debug, Clone, PartialEq, Eq)]
pub struct OpenGpuiMeasuredRegionFacts {
    pub kind: OpenGpuiMeasuredRegionKind,
    pub element_id: String,
    pub positive_finite: bool,
    pub source: OpenGpuiMeasurementSource,
}

/// What coverage accounting reads of one projected fallback anchor.
#[derive(Debug, Clone, PartialEq, Eq)]
pub struct OpenGpuiFallbackAnchorFacts {
    pub anchor: String,
    pub port_key: Option<String>,
}

/// Adapter-level coverage facts for one measurement publish.
#[derive(Debug, Clone, Copy, Default, PartialEq, Eq, Structural)]
pub struct OpenGpuiMeasurementCoverage {
    pub layout_pass_regions: usize,
    pub projection_fallback_regions: usize,
    pub missing_regions: usize,
    pub stale_regions: usize,
    pub partial_regions: usize,
    pub duplicate_regions: usize,
    pub measured_slots: usize,
    pub measured_anchors: usize,
}

/// Some earlier region among the first `k` had positive bounds and this id.
pub open spec fn seen_before(regions: Seq<OpenGpuiMeasuredRegionFacts>, k: int, id: Seq<char>) -> bool {
    exists|j: int| 0 <= j < k && regions[j].positive_finite && #[trigger] regions[j].element_id@ == id
}

/// Region `k` is the first positive region with its element id.
pub open spec fn is_fresh(regions: Seq<OpenGpuiMeasuredRegionFacts>, k: int) -> bool {
    regions[k].positive_finite && !seen_before(regions, k, regions[k].element_id@)
}

/// Region `k` repeats the element id of an earlier positive region.
pub open spec fn is_duplicate(regions: Seq<OpenGpuiMeasuredRegionFacts>, k: int) -> bool {
    regions[k].positive_finite && seen_before(regions, k, regions[k].element_id@)
}

/// Among the first `k` regions, how many are fresh with the given source.
pub open spec fn fresh_from(regions: Seq<OpenGpuiMeasuredRegionFacts>, k: int, source: OpenGpuiMeasurementSource) -> nat
    decreases k,
{
    if k <= 0 {
        0
    } else {
        fresh_from(regions, k - 1, source) + if is_fresh(regions, k - 1) && regions[k - 1].source == source { 1nat } else { 0nat }
    }
}

/// Among the first `k` regions, how many have no positive finite bounds.
pub open spec fn missing_among(regions: Seq<OpenGpuiMeasuredRegionFacts>, k: int) -> nat
    decreases k,
{
    if k <= 0 {
        0
    } else {
        missing_among(regions, k - 1) + if !regions[k - 1].positive_finite { 1nat } else { 0nat }
    }
}

/// Among the first `k` regions, how many repeat an earlier element id.
pub open spec fn duplicates_among(regions: Seq<OpenGpuiMeasuredRegionFacts>, k: int) -> nat
    decreases k,
{
    if k <= 0 {
        0
    } else {
        duplicates_among(regions, k - 1) + if is_duplicate(regions, k - 1) { 1nat } else { 0nat }
    }
}

/// Among the first `k` regions, how many fresh ones are not anchors: the
/// slots that a measurement built from them holds.
pub open spec fn fresh_non_anchors(regions: Seq<OpenGpuiMeasuredRegionFacts>, k: int) -> nat
    decreases k,
{
    if k <= 0 {
        0
    } else {
        fresh_non_anchors(regions, k - 1)
            + if is_fresh(regions, k - 1) && !(regions[k - 1].kind is Anchor) { 1nat } else { 0nat }
    }
}

/// The coverage that a list of regions gives, with the measurement's slot and anchor counts.
pub open spec fn coverage_of(
    regions: Seq<OpenGpuiMeasuredRegionFacts>,
    measured_slots: usize,
    measured_anchors: usize,
) -> OpenGpuiMeasurementCoverage {
    OpenGpuiMeasurementCoverage {
        layout_pass_regions: fresh_from(regions, regions.len() as int, OpenGpuiMeasurementSource::LayoutPass) as usize,
        projection_fallback_regions: fresh_from(regions, regions.len() as int, OpenGpuiMeasurementSource::ProjectionFallback) as usize,
        missing_regions: missing_among(regions, regions.len() as int) as usize,
        stale_regions: 0,
        partial_regions: 0,
        duplicate_regions: duplicates_among(regions, regions.len() as int) as usize,
        measured_slots,
        measured_anchors,
    }
}

/// A full layout pass: some layout-pass region and no region of any other kind.
pub open spec fn spec_is_full_layout_pass(c: OpenGpuiMeasurementCoverage) -> bool {
    c.layout_pass_regions > 0 && c.projection_fallback_regions == 0 && c.missing_regions == 0
        && c.stale_regions == 0 && c.partial_regions == 0 && c.duplicate_regions == 0
}

/// Every region of the first `k` is counted exactly once: as fresh from one
/// of the two sources, as missing or as a duplicate.
pub proof fn lemma_each_region_counted_once(regions: Seq<OpenGpuiMeasuredRegionFacts>, k: int)
    requires
        0 <= k <= regions.len(),
    ensures
        fresh_from(regions, k, OpenGpuiMeasurementSource::LayoutPass)
            + fresh_from(regions, k, OpenGpuiMeasurementSource::ProjectionFallback)
            + missing_among(regions, k) + duplicates_among(regions, k) == k,
        fresh_non_anchors(regions, k) <= fresh_from(regions, k, OpenGpuiMeasurementSource::LayoutPass)
            + fresh_from(regions, k, OpenGpuiMeasurementSource::ProjectionFallback),
    decreases k,
{
    if k > 0 {
        lemma_each_region_counted_once(regions, k - 1);
    }
}

impl OpenGpuiMeasurementCoverage {
    /// Counts regions by source, skipping those without positive finite
    /// bounds (missing) and repeated element ids (duplicate).
    pub fn from_regions(
        regions: &Vec<OpenGpuiMeasuredRegionFacts>,
        measured_slots: usize,
        measured_anchors: usize,
    ) -> (coverage: Self)
        ensures
            coverage == coverage_of(regions@, measured_slots, measured_anchors),
    {
        let (layout, fallback, missing, duplicate, _slots) = count_regions(regions);
        OpenGpuiMeasurementCoverage {
            layout_pass_regions: layout,
            projection_fallback_regions: fallback,
            missing_regions: missing,
            stale_regions: 0,
            partial_regions: 0,
            duplicate_regions: duplicate,
            measured_slots,
            measured_anchors,
        }
    }

    pub fn is_full_layout_pass(&self) -> (full: bool)
        ensures
            full == spec_is_full_layout_pass(*self),
    {
        self.layout_pass_regions > 0 && self.projection_fallback_regions == 0 && self.missing_regions == 0
            && self.stale_regions == 0 && self.partial_regions == 0 && self.duplicate_regions == 0
    }

    /// Adds every counter of `other` to this one.
    pub fn accumulate(&mut self, other: &Self)
        requires
            old(self).layout_pass_regions + other.layout_pass_regions <= usize::MAX,
            old(self).projection_fallback_regions + other.projection_fallback_regions <= usize::MAX,
            old(self).missing_regions + other.missing_regions <= usize::MAX,
            old(self).stale_regions + other.stale_regions <= usize::MAX,
            old(self).partial_regions + other.partial_regions <= usize::MAX,
            old(self).duplicate_regions + other.duplicate_regions <= usize::MAX,
            old(self).measured_slots + other.measured_slots <= usize::MAX,
            old(self).measured_anchors + other.measured_anchors <= usize::MAX,
        ensures
            final(self).layout_pass_regions == old(self).layout_pass_regions + other.layout_pass_regions,
            final(self).projection_fallback_regions == old(self).projection_fallback_regions + other.projection_fallback_regions,
            final(self).missing_regions == old(self).missing_regions + other.missing_regions,
            final(self).stale_regions == old(self).stale_regions + other.stale_regions,
            final(self).partial_regions == old(self).partial_regions + other.partial_regions,
            final(self).duplicate_regions == old(self).duplicate_regions + other.duplicate_regions,
            final(self).measured_slots == old(self).measured_slots + other.measured_slots,
            final(self).measured_anchors == old(self).measured_anchors + other.measured_anchors,
    {
        self.layout_pass_regions = self.layout_pass_regions + other.layout_pass_regions;
        self.projection_fallback_regions = self.projection_fallback_regions + other.projection_fallback_regions;
        self.missing_regions = self.missing_regions + other.missing_regions;
        self.stale_regions = self.stale_regions + other.stale_regions;
        self.partial_regions = self.partial_regions + other.partial_regions;
        self.duplicate_regions = self.duplicate_regions + other.duplicate_regions;
        self.measured_slots = self.measured_slots + other.measured_slots;
        self.measured_anchors = self.measured_anchors + other.measured_anchors;
    }
}

/// The ids of positive regions among the first `k`.
pub open spec fn seen_ids(regions: Seq<OpenGpuiMeasuredRegionFacts>, k: int) -> Set<Seq<char>> {
    Set::new(|id: Seq<char>| seen_before(regions, k, id))
}

fn count_regions(regions: &Vec<OpenGpuiMeasuredRegionFacts>) -> (counts: (usize, usize, usize, usize, usize))
    ensures
        counts.0 == fresh_from(regions@, regions@.len() as int, OpenGpuiMeasurementSource::LayoutPass),
        counts.1 == fresh_from(regions@, regions@.len() as int, OpenGpuiMeasurementSource::ProjectionFallback),
        counts.2 == missing_among(regions@, regions@.len() as int),
        counts.3 == duplicates_among(regions@, regions@.len() as int),
        counts.4 == fresh_non_anchors(regions@, regions@.len() as int),
{
    let mut layout: usize = 0;
    let mut fallback: usize = 0;
    let mut missing: usize = 0;
    let mut duplicate: usize = 0;
    let mut slots: usize = 0;
    let mut seen: Vec<String> = Vec::new();
    let mut i: usize = 0;
    proof {
        assert(string_set(seen@) =~= seen_ids(regions@, 0));
    }
    while i < regions.len()
        invariant
            i <= regions@.len(),
            string_set(seen@) == seen_ids(regions@, i as int),
            layout == fresh_from(regions@, i as int, OpenGpuiMeasurementSource::LayoutPass),
            fallback == fresh_from(regions@, i as int, OpenGpuiMeasurementSource::ProjectionFallback),
            missing == missing_among(regions@, i as int),
            duplicate == duplicates_among(regions@, i as int),
            slots == fresh_non_anchors(regions@, i as int),
            slots <= layout + fallback,
            layout + fallback + missing + duplicate == i,
        decreases regions.len() - i,
    {
        let region = &regions[i];
        let ghost before = regions@;
        if !region.positive_finite {
            missing = missing + 1;
            proof {
                assert(seen_ids(regions@, i + 1) =~= seen_ids(regions@, i as int));
            }
        } else if strings_contain(&seen, region.element_id.as_str()) {
            duplicate = duplicate + 1;
            proof {
                assert(seen_before(regions@, i as int, region.element_id@));
                assert(seen_ids(regions@, i + 1) =~= seen_ids(regions@, i as int));
            }
        } else {
            proof {
                assert(!seen_before(regions@, i as int, region.element_id@));
            }
            match region.source {
                OpenGpuiMeasurementSource::LayoutPass => {
                    layout = layout + 1;
                },
                OpenGpuiMeasurementSource::ProjectionFallback => {
                    fallback = fallback + 1;
                },
            }
            let is_anchor = match &region.kind {
                OpenGpuiMeasuredRegionKind::Anchor { .. } => true,
                _ => false,
            };
            if !is_anchor {
                slots = slots + 1;
            }
            strings_insert(&mut seen, owned(region.element_id.as_str()));
            proof {
                assert forall|id: Seq<char>| seen_ids(regions@, i + 1).contains(id)
                    <==> seen_ids(regions@, i as int).insert(region.element_id@).contains(id) by {
                    if seen_before(regions@, i + 1, id) {
                        let j = choose|j: int| 0 <= j < i + 1 && regions@[j].positive_finite
                            && #[trigger] regions@[j].element_id@ == id;
                        if j < i {
                            assert(seen_before(regions@, i as int, id));
                        }
                    }
                    if seen_before(regions@, i as int, id) {
                        let j = choose|j: int| 0 <= j < i && regions@[j].positive_finite
                            && #[trigger] regions@[j].element_id@ == id;
                        assert(regions@[j].element_id@ == id);
                    }
                    if id == region.element_id@ {
                        assert(regions@[i as int].element_id@ == id);
                    }
                }
                assert(seen_ids(regions@, i + 1) =~= seen_ids(regions@, i as int).insert(region.element_id@));
            }
        }
        i = i + 1;
    }
    (layout, fallback, missing, duplicate, slots)
}

/// A live layout-pass anchor region for a fallback anchor: positive, from
/// the layout pass, and keyed by the anchor's name or its port key.
pub open spec fn anchor_region_matches(r: OpenGpuiMeasuredRegionFacts, a: OpenGpuiFallbackAnchorFacts) -> bool {
    &&& r.source == OpenGpuiMeasurementSource::LayoutPass
    &&& r.positive_finite
    &&& r.kind matches OpenGpuiMeasuredRegionKind::Anchor { key }
        && (key@ == a.anchor@ || (a.port_key is Some && a.port_key->0@ == key@))
}

/// Some region is a live layout-pass region for the fallback anchor.
pub open spec fn has_live_anchor_region(regions: Seq<OpenGpuiMeasuredRegionFacts>, a: OpenGpuiFallbackAnchorFacts) -> bool {
    exists|i: int| 0 <= i < regions.len() && anchor_region_matches(#[trigger] regions[i], a)
}

/// Among the first `k` fallback anchors, how many have no live region.
pub open spec fn unmeasured_anchors(
    regions: Seq<OpenGpuiMeasuredRegionFacts>,
    anchors: Seq<OpenGpuiFallbackAnchorFacts>,
    k: int,
) -> nat
    decreases k,
{
    if k <= 0 {
        0
    } else {
        unmeasured_anchors(regions, anchors, k - 1)
            + if !has_live_anchor_region(regions, anchors[k - 1]) { 1nat } else { 0nat }
    }
}

fn region_matches_anchor(r: &OpenGpuiMeasuredRegionFacts, a: &OpenGpuiFallbackAnchorFacts) -> (m: bool)
    ensures
        m == anchor_region_matches(*r, *a),
{
    if r.source != OpenGpuiMeasurementSource::LayoutPass || !r.positive_finite {
        return false;
    }
    match &r.kind {
        OpenGpuiMeasuredRegionKind::Anchor { key } => {
            if str_eq(key.as_str(), a.anchor.as_str()) {
                return true;
            }
            match &a.port_key {
                Some(port_key) => str_eq(port_key.as_str(), key.as_str()),
                None => false,
            }
        },
        _ => false,
    }
}

fn live_anchor_region(regions: &Vec<OpenGpuiMeasuredRegionFacts>, a: &OpenGpuiFallbackAnchorFacts) -> (live: bool)
    ensures
        live == has_live_anchor_region(regions@, *a),
{
    let mut i: usize = 0;
    while i < regions.len()
        invariant
            i <= regions@.len(),
            forall|j: int| 0 <= j < i ==> !anchor_region_matches(#[trigger] regions@[j], *a),
        decreases regions.len() - i,
    {
        if region_matches_anchor(&regions[i], a) {
            return true;
        }
        i = i + 1;
    }
    false
}

/// The coverage of a layout-pass measurement built from `regions`, whose
/// fallback anchors are replaced by live anchor regions where there are some.
///
/// Its slots are the fresh regions that are not anchors; it keeps one
/// anchor per fallback anchor; each fallback anchor left without a live
/// region counts as a projection-fallback region.
pub open spec fn layout_pass_coverage_of(
    regions: Seq<OpenGpuiMeasuredRegionFacts>,
    anchors: Seq<OpenGpuiFallbackAnchorFacts>,
) -> OpenGpuiMeasurementCoverage {
    let base = coverage_of(
        regions,
        fresh_non_anchors(regions, regions.len() as int) as usize,
        anchors.len() as usize,
    );
    OpenGpuiMeasurementCoverage {
        projection_fallback_regions: (base.projection_fallback_regions
            + unmeasured_anchors(regions, anchors, anchors.len() as int)) as usize,
        ..base
    }
}

/// Coverage of one layout-pass measurement publish.
pub fn layout_pass_coverage(
    regions: &Vec<OpenGpuiMeasuredRegionFacts>,
    fallback_anchors: &Vec<OpenGpuiFallbackAnchorFacts>,
) -> (coverage: OpenGpuiMeasurementCoverage)
    requires
        regions@.len() + fallback_anchors@.len() <= usize::MAX,
    ensures
        coverage == layout_pass_coverage_of(regions@, fallback_anchors@),
{
    let (layout, fallback, missing, duplicate, slots) = count_regions(regions);
    proof {
        lemma_each_region_counted_once(regions@, regions@.len() as int);
    }
    let mut unmeasured: usize = 0;
    let mut k: usize = 0;
    while k < fallback_anchors.len()
        invariant
            k <= fallback_anchors@.len(),
            unmeasured == unmeasured_anchors(regions@, fallback_anchors@, k as int),
            unmeasured <= k,
        decreases fallback_anchors.len() - k,
    {
        if !live_anchor_region(regions, &fallback_anchors[k]) {
            unmeasured = unmeasured + 1;
        }
        k = k + 1;
    }
    OpenGpuiMeasurementCoverage {
        layout_pass_regions: layout,
        projection_fallback_regions: fallback + unmeasured,
        missing_regions: missing,
        stale_regions: 0,
        partial_regions: 0,
        duplicate_regions: duplicate,
        measured_slots: slots,
        measured_anchors: fallback_anchors.len(),
    }
}

/// A layout-pass publish is full exactly when some region is fresh from the
/// layout pass, every region is fresh from it, and every fallback anchor has
/// a live anchor region.
pub proof fn lemma_full_layout_pass_exactly_when_all_live(
    regions: Seq<OpenGpuiMeasuredRegionFacts>,
    anchors: Seq<OpenGpuiFallbackAnchorFacts>,
)
    requires
        regions.len() + anchors.len() <= usize::MAX,
    ensures
        spec_is_full_layout_pass(layout_pass_coverage_of(regions, anchors)) <==> (
            fresh_from(regions, regions.len() as int, OpenGpuiMeasurementSource::LayoutPass) == regions.len()
            && regions.len() > 0
            && unmeasured_anchors(regions, anchors, anchors.len() as int) == 0
        ),
{
    lemma_each_region_counted_once(regions, regions.len() as int);
    lemma_unmeasured_bound(regions, anchors, anchors.len() as int);
}

proof fn lemma_unmeasured_bound(
    regions: Seq<OpenGpuiMeasuredRegionFacts>,
    anchors: Seq<OpenGpuiFallbackAnchorFacts>,
    k: int,
)
    requires
        0 <= k,
    ensures
        unmeasured_anchors(regions, anchors, k) <= k,
    decreases k,
{
    if k > 0 {
        lemma_unmeasured_bound(regions, anchors, k - 1);
    }
}

/// Result of assigning a stable layout-pass measurement revision.
#[derive(Debug, Clone, Copy, PartialEq, Eq, Structural)]
pub enum OpenGpuiMeasurementRevisionDecision {
    Reused { revision: u64 },
    Advanced { revision: u64 },
}

/// Reuses a fresh revision for identical node internals or advances `next_revision`.
///
/// `existing_revision` is the revision of the measurement already published
/// for the node, if any; `regions_match` says whether its region-bearing
/// parts equal those of the new measurement. A fresh status with a matching
/// existing measurement reuses its revision. Otherwise the counter moves to
/// one past the larger of itself and the existing revision (saturating at
/// the largest `u64`), and the new measurement takes that revision.
pub fn assign_layout_pass_measurement_revision(
    status_is_fresh: bool,
    existing_revision: Option<u64>,
    regions_match: bool,
    measurement_revision: &mut u64,
    next_revision: &mut u64,
) -> (decision: OpenGpuiMeasurementRevisionDecision)
    ensures
        (status_is_fresh && existing_revision is Some && regions_match) ==> {
            &&& decision == (OpenGpuiMeasurementRevisionDecision::Reused { revision: existing_revision->0 })
            &&& *final(measurement_revision) == existing_revision->0
            &&& *final(next_revision) == *old(next_revision)
        },
        !(status_is_fresh && existing_revision is Some && regions_match) ==> {
            let floor: int = match existing_revision { Some(r) => r as int, None => 0 };
            let top: int = if *old(next_revision) >= floor { *old(next_revision) as int } else { floor };
            let advanced: int = if top < u64::MAX { top + 1 } else { u64::MAX as int };
            &&& *final(next_revision) == advanced
            &&& *final(measurement_revision) == advanced
            &&& decision == (OpenGpuiMeasurementRevisionDecision::Advanced { revision: advanced as u64 })
        },
{
    if status_is_fresh && regions_match {
        match existing_revision {
            Some(revision) => {
                *measurement_revision = revision;
                return OpenGpuiMeasurementRevisionDecision::Reused { revision };
            },
            None => {},
        }
    }
    let floor: u64 = match existing_revision {
        Some(revision) => revision,
        None => 0,
    };
    let top: u64 = if *next_revision >= floor { *next_revision } else { floor };
    let advanced: u64 = top.saturating_add(1);
    *next_revision = advanced;
    *measurement_revision = advanced;
    OpenGpuiMeasurementRevisionDecision::Advanced { revision: advanced }
}

/// An advanced revision is newer than both the counter and the existing
/// measurement, unless the counter has reached the largest `u64`.
pub proof fn lemma_advanced_revision_is_newer(
    old_next: u64,
    existing_revision: Option<u64>,
    advanced: u64,
)
    requires
        ({
            let floor: int = match existing_revision { Some(r) => r as int, None => 0 };
            let top: int = if old_next >= floor { old_next as int } else { floor };
            advanced == (if top < u64::MAX { top + 1 } else { u64::MAX as int })
        }),
        old_next < u64::MAX,
        existing_revision matches Some(r) ==> r < u64::MAX,
    ensures
        advanced > old_next,
        existing_revision matches Some(r) ==> advanced > r,
{
}

/// Coverage text for capability notes: every counter but the slot and anchor counts.
pub open spec fn coverage_notes(c: OpenGpuiMeasurementCoverage) -> Seq<char> {
    "bounds reported by open-gpui measured elements; layout_pass="@ + decimal(c.layout_pass_regions as nat)
        + ", projection_fallback="@ + decimal(c.projection_fallback_regions as nat)
        + ", missing="@ + decimal(c.missing_regions as nat)
        + ", stale="@ + decimal(c.stale_regions as nat)
        + ", partial="@ + decimal(c.partial_regions as nat)
        + ", duplicate="@ + decimal(c.duplicate_regions as nat)
}

} // verus!
