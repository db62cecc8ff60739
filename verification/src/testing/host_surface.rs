//! Host-level evidence for rendered product node surfaces.

use vstd::prelude::*;
use crate::presets::OpenGpuiStyleBudgetEvidence;
use crate::sets::{Ranked, set_of, rank_sorted, set_insert, set_remove, set_contains, string_set, strings_unique, strings_insert, strings_contain};
use crate::text::{owned, str_eq, str_is_empty};
use crate::testing::catalog::{
    OpenGpuiProductFixtureCase, OpenGpuiProductFixtureFamily, OpenGpuiProductFixtureKind,
    product_fixture_catalog, catalog_ids, catalog_kinds, fixture_id, fixture_renderer_keys,
    spec_case_matches, texts,
};

verus! {

/// Host-side source used to render one product surface.
#[derive(Debug, Clone, Copy, PartialEq, Eq, PartialOrd, Ord, Structural)]
pub enum OpenGpuiHostRendererSource {
    ProductRenderer,
    DescriptorFallback,
    MissingHostRenderer,
    UnregisteredRenderer,
}

/// Every source but the product renderer is a fallback.
pub open spec fn source_is_fallback(source: OpenGpuiHostRendererSource) -> bool {
    source != OpenGpuiHostRendererSource::ProductRenderer
}

/// Structured capability gap collected by an Open GPUI host report.
#[derive(Debug, Clone, Copy, PartialEq, Eq, PartialOrd, Ord, Structural)]
pub enum OpenGpuiHostCapabilityGap {
    RendererFallback,
    UnsupportedControl,
    AdvancedControlStub,
    MissingMeasuredRegion,
    PartialOrHiddenRegion,
    MissingDynamicPort,
}

impl Ranked for OpenGpuiHostCapabilityGap {
    open spec fn rank_spec(&self) -> int {
        match self {
            OpenGpuiHostCapabilityGap::RendererFallback => 0,
            OpenGpuiHostCapabilityGap::UnsupportedControl => 1,
            OpenGpuiHostCapabilityGap::AdvancedControlStub => 2,
            OpenGpuiHostCapabilityGap::MissingMeasuredRegion => 3,
            OpenGpuiHostCapabilityGap::PartialOrHiddenRegion => 4,
            OpenGpuiHostCapabilityGap::MissingDynamicPort => 5,
        }
    }

    fn rank(&self) -> (r: u64) {
        match self {
            OpenGpuiHostCapabilityGap::RendererFallback => 0,
            OpenGpuiHostCapabilityGap::UnsupportedControl => 1,
            OpenGpuiHostCapabilityGap::AdvancedControlStub => 2,
            OpenGpuiHostCapabilityGap::MissingMeasuredRegion => 3,
            OpenGpuiHostCapabilityGap::PartialOrHiddenRegion => 4,
            OpenGpuiHostCapabilityGap::MissingDynamicPort => 5,
        }
    }

    proof fn lemma_rank_injective(a: Self, b: Self) {
    }
}

/// Host-level evidence for one rendered product node surface.
///
/// `unsupported_controls` and `capability_gaps` are sets; the gaps are kept
/// in declaration order.
#[derive(Debug, Clone, PartialEq, Eq)]
pub struct OpenGpuiHostSurfaceReportRow {
    pub fixture_id: String,
    pub fixture_kind: OpenGpuiProductFixtureKind,
    pub family: OpenGpuiProductFixtureFamily,
    pub node_kind: String,
    pub renderer_key: String,
    pub source: OpenGpuiHostRendererSource,
    pub measured_slots: usize,
    pub measured_anchors: usize,
    pub style_budget: Option<OpenGpuiStyleBudgetEvidence>,
    pub unsupported_controls: Vec<String>,
    pub capability_gaps: Vec<OpenGpuiHostCapabilityGap>,
}

impl OpenGpuiHostSurfaceReportRow {
    pub open spec fn gaps(&self) -> Set<OpenGpuiHostCapabilityGap> {
        set_of(self.capability_gaps@)
    }

    pub fn new(
        fixture: &OpenGpuiProductFixtureCase,
        node_kind: String,
        renderer_key: String,
        source: OpenGpuiHostRendererSource,
    ) -> (row: Self)
        ensures
            row.fixture_id@ == fixture.id@,
            row.fixture_kind == fixture.kind,
            row.family == fixture.family,
            row.node_kind@ == node_kind@,
            row.renderer_key@ == renderer_key@,
            row.source == source,
            row.measured_slots == 0,
            row.measured_anchors == 0,
            row.style_budget is None,
            row.unsupported_controls@.len() == 0,
            row.gaps() == if source_is_fallback(source) {
                set![OpenGpuiHostCapabilityGap::RendererFallback]
            } else {
                Set::<OpenGpuiHostCapabilityGap>::empty()
            },
            rank_sorted(row.capability_gaps@),
    {
        let mut row = OpenGpuiHostSurfaceReportRow {
            fixture_id: owned(fixture.id.as_str()),
            fixture_kind: fixture.kind,
            family: fixture.family,
            node_kind,
            renderer_key,
            source,
            measured_slots: 0,
            measured_anchors: 0,
            style_budget: None,
            unsupported_controls: Vec::new(),
            capability_gaps: Vec::new(),
        };
        proof {
            assert(set_of(row.capability_gaps@) =~= Set::<OpenGpuiHostCapabilityGap>::empty());
        }
        row.sync_source_gap();
        proof {
            if source_is_fallback(source) {
                assert(row.gaps() =~= set![OpenGpuiHostCapabilityGap::RendererFallback]);
            }
        }
        row
    }

    pub fn with_measurement(self, measured_slots: usize, measured_anchors: usize) -> (row: Self)
        ensures
            row == (Self { measured_slots, measured_anchors, capability_gaps: row.capability_gaps, ..self }),
            row.gaps() == if measured_slots + measured_anchors == 0 {
                self.gaps().insert(OpenGpuiHostCapabilityGap::MissingMeasuredRegion)
            } else {
                self.gaps().remove(OpenGpuiHostCapabilityGap::MissingMeasuredRegion)
            },
            rank_sorted(self.capability_gaps@) ==> rank_sorted(row.capability_gaps@),
    {
        let mut row = self;
        row.measured_slots = measured_slots;
        row.measured_anchors = measured_anchors;
        if measured_slots == 0 && measured_anchors == 0 {
            set_insert(&mut row.capability_gaps, OpenGpuiHostCapabilityGap::MissingMeasuredRegion);
        } else {
            set_remove(&mut row.capability_gaps, OpenGpuiHostCapabilityGap::MissingMeasuredRegion);
        }
        row
    }

    pub fn with_style_budget(self, style_budget: OpenGpuiStyleBudgetEvidence) -> (row: Self)
        ensures
            row == (Self { style_budget: Some(style_budget), ..self }),
    {
        let mut row = self;
        row.style_budget = Some(style_budget);
        row
    }

    pub fn with_gap(self, gap: OpenGpuiHostCapabilityGap) -> (row: Self)
        ensures
            row == (Self { capability_gaps: row.capability_gaps, ..self }),
            row.gaps() == self.gaps().insert(gap),
            rank_sorted(self.capability_gaps@) ==> rank_sorted(row.capability_gaps@),
    {
        let mut row = self;
        set_insert(&mut row.capability_gaps, gap);
        row
    }

    pub fn with_unsupported_control(self, control_key: String) -> (row: Self)
        ensures
            row == (Self {
                unsupported_controls: row.unsupported_controls,
                capability_gaps: row.capability_gaps,
                ..self
            }),
            string_set(row.unsupported_controls@) == string_set(self.unsupported_controls@).insert(control_key@),
            strings_unique(self.unsupported_controls@) ==> strings_unique(row.unsupported_controls@),
            row.gaps() == self.gaps().insert(OpenGpuiHostCapabilityGap::UnsupportedControl),
            rank_sorted(self.capability_gaps@) ==> rank_sorted(row.capability_gaps@),
    {
        let mut row = self;
        strings_insert(&mut row.unsupported_controls, control_key);
        set_insert(&mut row.capability_gaps, OpenGpuiHostCapabilityGap::UnsupportedControl);
        row
    }

    pub fn is_product_renderer(&self) -> (product: bool)
        ensures
            product == (self.source == OpenGpuiHostRendererSource::ProductRenderer),
    {
        self.source == OpenGpuiHostRendererSource::ProductRenderer
    }

    pub fn uses_renderer_fallback(&self) -> (fallback: bool)
        ensures
            fallback == source_is_fallback(self.source),
    {
        match self.source {
            OpenGpuiHostRendererSource::DescriptorFallback
            | OpenGpuiHostRendererSource::MissingHostRenderer
            | OpenGpuiHostRendererSource::UnregisteredRenderer => true,
            OpenGpuiHostRendererSource::ProductRenderer => false,
        }
    }

    fn sync_source_gap(&mut self)
        ensures
            *final(self) == (Self { capability_gaps: final(self).capability_gaps, ..*old(self) }),
            final(self).gaps() == if source_is_fallback(old(self).source) {
                old(self).gaps().insert(OpenGpuiHostCapabilityGap::RendererFallback)
            } else {
                old(self).gaps()
            },
            rank_sorted(old(self).capability_gaps@) ==> rank_sorted(final(self).capability_gaps@),
    {
        if self.uses_renderer_fallback() {
            set_insert(&mut self.capability_gaps, OpenGpuiHostCapabilityGap::RendererFallback);
        }
    }
}

/// Host-level evidence for the real Open GPUI product gallery path.
#[derive(Debug, Clone, Default, PartialEq, Eq)]
pub struct OpenGpuiHostSurfaceReport {
    pub rows: Vec<OpenGpuiHostSurfaceReportRow>,
}

/// Rows whose fixture id is `id`, in report order.
pub open spec fn surface_rows_for(rows: Seq<OpenGpuiHostSurfaceReportRow>, id: Seq<char>) -> Seq<OpenGpuiHostSurfaceReportRow> {
    rows.filter(|row: OpenGpuiHostSurfaceReportRow| row.fixture_id@ == id)
}

impl OpenGpuiHostSurfaceReport {
    pub fn new(rows: Vec<OpenGpuiHostSurfaceReportRow>) -> (report: Self)
        ensures
            report.rows == rows,
    {
        OpenGpuiHostSurfaceReport { rows }
    }

    pub fn push(&mut self, row: OpenGpuiHostSurfaceReportRow)
        ensures
            final(self).rows@ == old(self).rows@.push(row),
    {
        self.rows.push(row);
    }

    pub fn rows_for_fixture(&self, fixture_id: &str) -> (rows: Vec<&OpenGpuiHostSurfaceReportRow>)
        ensures
            rows@.map_values(|r: &OpenGpuiHostSurfaceReportRow| *r) == surface_rows_for(self.rows@, fixture_id@),
    {
        let mut out: Vec<&OpenGpuiHostSurfaceReportRow> = Vec::new();
        let mut i: usize = 0;
        while i < self.rows.len()
            invariant
                i <= self.rows@.len(),
                out@.map_values(|r: &OpenGpuiHostSurfaceReportRow| *r)
                    == surface_rows_for(self.rows@.subrange(0, i as int), fixture_id@),
            decreases self.rows@.len() - i,
        {
            let row = &self.rows[i];
            proof {
                assert(self.rows@.subrange(0, i + 1) =~= self.rows@.subrange(0, i as int).push(self.rows@[i as int]));
                self.rows@.subrange(0, i as int).lemma_filter_push(
                    self.rows@[i as int],
                    |row: OpenGpuiHostSurfaceReportRow| row.fixture_id@ == fixture_id@,
                );
            }
            let ghost before = out@;
            if str_eq(row.fixture_id.as_str(), fixture_id) {
                out.push(row);
                assert(out@.map_values(|r: &OpenGpuiHostSurfaceReportRow| *r)
                    =~= before.map_values(|r: &OpenGpuiHostSurfaceReportRow| *r).push(*row));
            }
            i = i + 1;
        }
        assert(self.rows@.subrange(0, self.rows@.len() as int) =~= self.rows@);
        out
    }

    pub fn fallback_rows(&self) -> (rows: Vec<&OpenGpuiHostSurfaceReportRow>)
        ensures
            rows@.map_values(|r: &OpenGpuiHostSurfaceReportRow| *r)
                == self.rows@.filter(|row: OpenGpuiHostSurfaceReportRow| source_is_fallback(row.source)),
    {
        let mut out: Vec<&OpenGpuiHostSurfaceReportRow> = Vec::new();
        let mut i: usize = 0;
        while i < self.rows.len()
            invariant
                i <= self.rows@.len(),
                out@.map_values(|r: &OpenGpuiHostSurfaceReportRow| *r)
                    == self.rows@.subrange(0, i as int).filter(|row: OpenGpuiHostSurfaceReportRow| source_is_fallback(row.source)),
            decreases self.rows@.len() - i,
        {
            let row = &self.rows[i];
            proof {
                assert(self.rows@.subrange(0, i + 1) =~= self.rows@.subrange(0, i as int).push(self.rows@[i as int]));
                self.rows@.subrange(0, i as int).lemma_filter_push(
                    self.rows@[i as int],
                    |row: OpenGpuiHostSurfaceReportRow| source_is_fallback(row.source),
                );
            }
            let ghost before = out@;
            if row.uses_renderer_fallback() {
                out.push(row);
                assert(out@.map_values(|r: &OpenGpuiHostSurfaceReportRow| *r)
                    =~= before.map_values(|r: &OpenGpuiHostSurfaceReportRow| *r).push(*row));
            }
            i = i + 1;
        }
        assert(self.rows@.subrange(0, self.rows@.len() as int) =~= self.rows@);
        out
    }
}

} // verus!

verus! {

/// One row of a host surface report is structurally valid.
pub open spec fn surface_row_contract(row: OpenGpuiHostSurfaceReportRow) -> bool {
    &&& catalog_ids().contains(row.fixture_id@)
    &&& row.node_kind@.len() > 0
    &&& row.renderer_key@.len() > 0
    &&& source_is_fallback(row.source) ==> row.gaps().contains(OpenGpuiHostCapabilityGap::RendererFallback)
    &&& row.unsupported_controls@.len() > 0 ==> row.gaps().contains(OpenGpuiHostCapabilityGap::UnsupportedControl)
    &&& row.measured_slots + row.measured_anchors == 0 ==> row.gaps().contains(OpenGpuiHostCapabilityGap::MissingMeasuredRegion)
    &&& row.source == OpenGpuiHostRendererSource::ProductRenderer ==> row.style_budget is Some
}

/// Some row names the fixture id.
pub open spec fn has_surface_row_for(rows: Seq<OpenGpuiHostSurfaceReportRow>, id: Seq<char>) -> bool {
    exists|i: int| 0 <= i < rows.len() && #[trigger] rows[i].fixture_id@ == id
}

/// A host surface report is structurally valid and names every product fixture.
pub open spec fn host_surface_contract(report: OpenGpuiHostSurfaceReport) -> bool {
    &&& report.rows@.len() > 0
    &&& forall|k: int| 0 <= k < 4 ==> has_surface_row_for(report.rows@, #[trigger] catalog_ids()[k])
    &&& forall|i: int| 0 <= i < report.rows@.len() ==> surface_row_contract(#[trigger] report.rows@[i])
}

/// Some row of the fixture is drawn by a product renderer with an expected key.
pub open spec fn has_product_row_for(rows: Seq<OpenGpuiHostSurfaceReportRow>, k: int) -> bool {
    exists|i: int| 0 <= i < rows.len()
        && #[trigger] rows[i].fixture_id@ == catalog_ids()[k]
        && rows[i].source == OpenGpuiHostRendererSource::ProductRenderer
        && fixture_renderer_keys(catalog_kinds()[k]).contains(rows[i].renderer_key@)
}

/// The strict gallery gate: the contract, and a product renderer row for every fixture.
pub open spec fn product_gallery_gates(report: OpenGpuiHostSurfaceReport) -> bool {
    &&& host_surface_contract(report)
    &&& forall|k: int| 0 <= k < 4 ==> #[trigger] has_product_row_for(report.rows@, k)
}

/// The text of some parts written one after another.
pub open spec fn joined(parts: Seq<&str>) -> Seq<char>
    decreases parts.len(),
{
    if parts.len() == 0 {
        Seq::empty()
    } else {
        joined(parts.drop_last()) + parts.last()@
    }
}

/// A message made of parts.
pub(crate) fn message(parts: &[&str]) -> (s: String)
    ensures
        s@ == joined(parts@),
{
    let mut s = String::new();
    let mut i: usize = 0;
    assert(parts@.take(0) =~= Seq::<&str>::empty());
    while i < parts.len()
        invariant
            i <= parts@.len(),
            s@ == joined(parts@.take(i as int)),
        decreases parts@.len() - i,
    {
        crate::text::push_str(&mut s, parts[i]);
        assert(parts@.take(i + 1).drop_last() =~= parts@.take(i as int));
        i = i + 1;
    }
    assert(parts@.take(i as int) =~= parts@);
    s
}

/// Whether `id` is the gallery id of a catalog fixture.
pub(crate) fn is_catalog_id(id: &str) -> (known: bool)
    ensures
        known == catalog_ids().contains(id@),
{
    let catalog = product_fixture_catalog();
    let mut k: usize = 0;
    while k < 4
        invariant
            k <= 4,
            catalog@.len() == 4,
            forall|j: int| 0 <= j < 4 ==> spec_case_matches(#[trigger] catalog@[j], catalog_kinds()[j]),
            forall|j: int| 0 <= j < k ==> catalog_ids()[j] != id@,
        decreases 4 - k,
    {
        if str_eq(catalog[k].id.as_str(), id) {
            assert(catalog_ids()[k as int] == id@);
            return true;
        }
        k = k + 1;
    }
    assert(catalog_ids().len() == 4);
    false
}

fn check_surface_row(row: &OpenGpuiHostSurfaceReportRow) -> (r: Result<(), String>)
    ensures
        r is Ok <==> surface_row_contract(*row),
{
    if !is_catalog_id(row.fixture_id.as_str()) {
        return Err(message(&["host report row uses unknown fixture id `", row.fixture_id.as_str(), "`"]));
    }
    if str_is_empty(row.node_kind.as_str()) {
        return Err(message(&["host report row must name a node kind"]));
    }
    if str_is_empty(row.renderer_key.as_str()) {
        return Err(message(&["host report row must name a renderer key"]));
    }
    if row.uses_renderer_fallback()
        && !set_contains(&row.capability_gaps, OpenGpuiHostCapabilityGap::RendererFallback) {
        return Err(message(&["fallback renderer rows must carry RendererFallback gap"]));
    }
    if row.unsupported_controls.len() > 0
        && !set_contains(&row.capability_gaps, OpenGpuiHostCapabilityGap::UnsupportedControl) {
        return Err(message(&["unsupported control rows must carry UnsupportedControl gap"]));
    }
    if row.measured_slots == 0 && row.measured_anchors == 0
        && !set_contains(&row.capability_gaps, OpenGpuiHostCapabilityGap::MissingMeasuredRegion) {
        return Err(message(&["unmeasured rows must carry MissingMeasuredRegion gap"]));
    }
    if row.is_product_renderer() && row.style_budget.is_none() {
        return Err(message(&["product renderer rows must expose adapter style budget facts"]));
    }
    Ok(())
}

fn has_row_for(rows: &Vec<OpenGpuiHostSurfaceReportRow>, id: &str) -> (found: bool)
    ensures
        found == has_surface_row_for(rows@, id@),
{
    let mut i: usize = 0;
    while i < rows.len()
        invariant
            i <= rows@.len(),
            forall|j: int| 0 <= j < i ==> rows@[j].fixture_id@ != id@,
        decreases rows@.len() - i,
    {
        if str_eq(rows[i].fixture_id.as_str(), id) {
            return true;
        }
        i = i + 1;
    }
    false
}

/// Check that a host-level report is structurally valid and names all product cases.
pub fn assert_host_surface_report_contract(report: &OpenGpuiHostSurfaceReport) -> (r: Result<(), String>)
    ensures
        r is Ok <==> host_surface_contract(*report),
{
    if report.rows.len() == 0 {
        return Err(message(&["Open GPUI host surface report must contain rendered rows"]));
    }
    let catalog = product_fixture_catalog();
    let mut k: usize = 0;
    while k < 4
        invariant
            k <= 4,
            catalog@.len() == 4,
            forall|j: int| 0 <= j < 4 ==> spec_case_matches(#[trigger] catalog@[j], catalog_kinds()[j]),
            forall|j: int| 0 <= j < k ==> has_surface_row_for(report.rows@, #[trigger] catalog_ids()[j]),
        decreases 4 - k,
    {
        if !has_row_for(&report.rows, catalog[k].id.as_str()) {
            assert(catalog@[k as int].id@ == catalog_ids()[k as int]);
            assert(!has_surface_row_for(report.rows@, catalog_ids()[k as int]));
            return Err(message(&["host report is missing product fixture `", catalog[k].id.as_str(), "`"]));
        }
        k = k + 1;
    }
    let mut i: usize = 0;
    while i < report.rows.len()
        invariant
            i <= report.rows@.len(),
            forall|j: int| 0 <= j < i ==> surface_row_contract(#[trigger] report.rows@[j]),
        decreases report.rows@.len() - i,
    {
        let checked = check_surface_row(&report.rows[i]);
        if checked.is_err() {
            return checked;
        }
        i = i + 1;
    }
    Ok(())
}

fn has_product_row(
    rows: &Vec<OpenGpuiHostSurfaceReportRow>,
    fixture: &OpenGpuiProductFixtureCase,
    k: Ghost<int>,
) -> (found: bool)
    requires
        0 <= k@ < 4,
        spec_case_matches(*fixture, catalog_kinds()[k@]),
    ensures
        found == has_product_row_for(rows@, k@),
{
    let mut i: usize = 0;
    while i < rows.len()
        invariant
            i <= rows@.len(),
            0 <= k@ < 4,
            spec_case_matches(*fixture, catalog_kinds()[k@]),
            forall|j: int| 0 <= j < i ==> !(#[trigger] rows@[j].fixture_id@ == catalog_ids()[k@]
                && rows@[j].source == OpenGpuiHostRendererSource::ProductRenderer
                && fixture_renderer_keys(catalog_kinds()[k@]).contains(rows@[j].renderer_key@)),
        decreases rows@.len() - i,
    {
        let row = &rows[i];
        if str_eq(row.fixture_id.as_str(), fixture.id.as_str()) && row.is_product_renderer()
            && strings_contain(&fixture.expected_renderer_keys, row.renderer_key.as_str()) {
            proof {
                let t = texts(fixture.expected_renderer_keys@);
                let w = choose|w: int| 0 <= w < fixture.expected_renderer_keys@.len()
                    && #[trigger] fixture.expected_renderer_keys@[w]@ == row.renderer_key@;
                assert(t[w] == row.renderer_key@);
            }
            return true;
        }
        proof {
            if row.fixture_id@ == catalog_ids()[k@] && row.source == OpenGpuiHostRendererSource::ProductRenderer
                && fixture_renderer_keys(catalog_kinds()[k@]).contains(row.renderer_key@) {
                let t = texts(fixture.expected_renderer_keys@);
                let w = choose|w: int| 0 <= w < t.len() && t[w] == row.renderer_key@;
                assert(string_set(fixture.expected_renderer_keys@).contains(row.renderer_key@)) by {
                    assert(fixture.expected_renderer_keys@[w]@ == row.renderer_key@);
                }
            }
        }
        i = i + 1;
    }
    false
}

/// Check that every product fixture has at least one host product renderer row.
pub fn assert_product_gallery_host_report_gates(report: &OpenGpuiHostSurfaceReport) -> (r: Result<(), String>)
    ensures
        r is Ok <==> product_gallery_gates(*report),
{
    let contract = assert_host_surface_report_contract(report);
    if contract.is_err() {
        return contract;
    }
    let catalog = product_fixture_catalog();
    let mut k: usize = 0;
    while k < 4
        invariant
            k <= 4,
            catalog@.len() == 4,
            forall|j: int| 0 <= j < 4 ==> spec_case_matches(#[trigger] catalog@[j], catalog_kinds()[j]),
            forall|j: int| 0 <= j < k ==> #[trigger] has_product_row_for(report.rows@, j),
        decreases 4 - k,
    {
        if !has_product_row(&report.rows, &catalog[k], Ghost(k as int)) {
            return Err(message(&["fixture `", catalog[k].id.as_str(), "` must be rendered by one of its product renderers"]));
        }
        k = k + 1;
    }
    Ok(())
}

} // verus!
