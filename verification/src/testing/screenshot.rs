//! Screenshot region evidence for the product gallery visual smoke.

use vstd::prelude::*;
use crate::sets::{Ranked, set_of, rank_sorted, insert_if, set_insert, set_insert_if, set_extend};
use crate::testing::catalog::{
    OpenGpuiProductFixtureCase, catalog_ids, catalog_kinds, product_fixture_catalog, spec_case_matches,
};
use crate::testing::host_surface::message;
use crate::text::{is_blank, str_eq, str_is_blank};

verus! {

/// Coarse screenshot region categories used by product gallery visual smoke.
#[derive(Debug, Clone, Copy, PartialEq, Eq, PartialOrd, Ord, Structural)]
pub enum OpenGpuiScreenshotRegionKind {
    NodeBody,
    NodeInternalUi,
    WirePath,
    PortArea,
    FeedbackOverlay,
}

/// Declaration index of a region kind.
pub open spec fn kind_rank(kind: OpenGpuiScreenshotRegionKind) -> int {
    match kind {
        OpenGpuiScreenshotRegionKind::NodeBody => 0,
        OpenGpuiScreenshotRegionKind::NodeInternalUi => 1,
        OpenGpuiScreenshotRegionKind::WirePath => 2,
        OpenGpuiScreenshotRegionKind::PortArea => 3,
        OpenGpuiScreenshotRegionKind::FeedbackOverlay => 4,
    }
}

fn kind_index(kind: OpenGpuiScreenshotRegionKind) -> (r: u64)
    ensures
        r as int == kind_rank(kind),
{
    match kind {
        OpenGpuiScreenshotRegionKind::NodeBody => 0,
        OpenGpuiScreenshotRegionKind::NodeInternalUi => 1,
        OpenGpuiScreenshotRegionKind::WirePath => 2,
        OpenGpuiScreenshotRegionKind::PortArea => 3,
        OpenGpuiScreenshotRegionKind::FeedbackOverlay => 4,
    }
}

/// Pixel-space rectangle sampled from a rendered screenshot.
#[derive(Debug, Clone, Copy, Default, PartialEq, Eq, Structural)]
pub struct OpenGpuiScreenshotRegionRect {
    pub x: u32,
    pub y: u32,
    pub width: u32,
    pub height: u32,
}

impl OpenGpuiScreenshotRegionRect {
    pub fn is_positive(self) -> (positive: bool)
        ensures
            positive == (self.width > 0 && self.height > 0),
    {
        self.width > 0 && self.height > 0
    }
}

/// Coarse evidence for one screenshot ROI.
#[derive(Debug, Clone, Copy, PartialEq, Eq, Structural)]
pub struct OpenGpuiScreenshotRegionEvidence {
    pub kind: OpenGpuiScreenshotRegionKind,
    pub rect: OpenGpuiScreenshotRegionRect,
    pub non_transparent_pixels: usize,
    pub distinct_rgba_samples: usize,
}

/// A region with area, some painted pixels and at least two colours.
pub open spec fn region_present(r: OpenGpuiScreenshotRegionEvidence) -> bool {
    r.rect.width > 0 && r.rect.height > 0 && r.non_transparent_pixels > 0 && r.distinct_rgba_samples >= 2
}

impl OpenGpuiScreenshotRegionEvidence {
    pub fn new(
        kind: OpenGpuiScreenshotRegionKind,
        rect: OpenGpuiScreenshotRegionRect,
        non_transparent_pixels: usize,
        distinct_rgba_samples: usize,
    ) -> (region: Self)
        ensures
            region == (Self { kind, rect, non_transparent_pixels, distinct_rgba_samples }),
    {
        OpenGpuiScreenshotRegionEvidence { kind, rect, non_transparent_pixels, distinct_rgba_samples }
    }

    pub fn is_present(&self) -> (present: bool)
        ensures
            present == region_present(*self),
    {
        self.rect.is_positive() && self.non_transparent_pixels > 0 && self.distinct_rgba_samples >= 2
    }
}

/// Screenshot region gap reported by the adapter smoke gate.
#[derive(Debug, Clone, Copy, PartialEq, Eq, PartialOrd, Ord, Structural)]
pub enum OpenGpuiScreenshotRegionGap {
    ScreenshotSkipped,
    ScreenshotBlankOrSingleColor,
    MissingFixture,
    RequiredRegionMissing(OpenGpuiScreenshotRegionKind),
    RequiredRegionBlank(OpenGpuiScreenshotRegionKind),
}

impl Ranked for OpenGpuiScreenshotRegionGap {
    open spec fn rank_spec(&self) -> int {
        match self {
            OpenGpuiScreenshotRegionGap::ScreenshotSkipped => 0,
            OpenGpuiScreenshotRegionGap::ScreenshotBlankOrSingleColor => 1,
            OpenGpuiScreenshotRegionGap::MissingFixture => 2,
            OpenGpuiScreenshotRegionGap::RequiredRegionMissing(kind) => 3 + kind_rank(*kind),
            OpenGpuiScreenshotRegionGap::RequiredRegionBlank(kind) => 8 + kind_rank(*kind),
        }
    }

    fn rank(&self) -> (r: u64) {
        match self {
            OpenGpuiScreenshotRegionGap::ScreenshotSkipped => 0,
            OpenGpuiScreenshotRegionGap::ScreenshotBlankOrSingleColor => 1,
            OpenGpuiScreenshotRegionGap::MissingFixture => 2,
            OpenGpuiScreenshotRegionGap::RequiredRegionMissing(kind) => 3 + kind_index(*kind),
            OpenGpuiScreenshotRegionGap::RequiredRegionBlank(kind) => 8 + kind_index(*kind),
        }
    }

    proof fn lemma_rank_injective(a: Self, b: Self) {
    }
}

/// Per-fixture screenshot evidence. This stays widget-free so hosts can map any renderer into it.
///
/// `gaps` is a set kept in declaration order; the constructors and
/// `push_region` leave it equal to the computed gaps.
#[derive(Debug, Clone, PartialEq, Eq)]
pub struct OpenGpuiScreenshotFixtureEvidence {
    pub fixture_id: String,
    pub width: u32,
    pub height: u32,
    pub non_transparent_pixels: usize,
    pub distinct_rgba_samples: usize,
    pub regions: Vec<OpenGpuiScreenshotRegionEvidence>,
    pub skipped_reason: Option<String>,
    pub gaps: Vec<OpenGpuiScreenshotRegionGap>,
}

/// A skip with a non-blank reason.
pub open spec fn skipped_with_reason(reason: Option<String>) -> bool {
    reason is Some && !is_blank(reason->0@)
}

fn is_skipped_with_reason(reason: &Option<String>) -> (skipped: bool)
    ensures
        skipped == skipped_with_reason(*reason),
{
    match reason {
        Some(reason) => !str_is_blank(reason.as_str()),
        None => false,
    }
}

/// `i` is the first region of `kind`.
pub open spec fn is_first_of_kind(regions: Seq<OpenGpuiScreenshotRegionEvidence>, kind: OpenGpuiScreenshotRegionKind, i: int) -> bool {
    &&& 0 <= i < regions.len()
    &&& regions[i].kind == kind
    &&& forall|j: int| 0 <= j < i ==> regions[j].kind != kind
}

/// No region has `kind`.
pub open spec fn kind_missing(regions: Seq<OpenGpuiScreenshotRegionEvidence>, kind: OpenGpuiScreenshotRegionKind) -> bool {
    forall|i: int| 0 <= i < regions.len() ==> regions[i].kind != kind
}

/// The first region of `kind` is present.
pub open spec fn first_of_kind_present(regions: Seq<OpenGpuiScreenshotRegionEvidence>, kind: OpenGpuiScreenshotRegionKind) -> bool {
    exists|i: int| is_first_of_kind(regions, kind, i) && region_present(regions[i])
}

/// `gaps` plus what the first region of `kind` shows: missing, blank or fine.
pub open spec fn region_gap(
    regions: Seq<OpenGpuiScreenshotRegionEvidence>,
    kind: OpenGpuiScreenshotRegionKind,
    gaps: Set<OpenGpuiScreenshotRegionGap>,
) -> Set<OpenGpuiScreenshotRegionGap> {
    if kind_missing(regions, kind) {
        gaps.insert(OpenGpuiScreenshotRegionGap::RequiredRegionMissing(kind))
    } else if first_of_kind_present(regions, kind) {
        gaps
    } else {
        gaps.insert(OpenGpuiScreenshotRegionGap::RequiredRegionBlank(kind))
    }
}

/// The whole capture has no area, no painted pixel or a single colour.
pub open spec fn capture_blank(f: OpenGpuiScreenshotFixtureEvidence) -> bool {
    f.width == 0 || f.height == 0 || f.non_transparent_pixels == 0 || f.distinct_rgba_samples < 2
}

/// The gaps of one fixture's screenshot evidence.
///
/// A skip with a reason is the only gap; otherwise a blank capture and each
/// of the four required region kinds (node body, node internal UI, wire path,
/// port area) are judged by the first region of that kind.
pub open spec fn fixture_gaps(f: OpenGpuiScreenshotFixtureEvidence) -> Set<OpenGpuiScreenshotRegionGap> {
    if skipped_with_reason(f.skipped_reason) {
        set![OpenGpuiScreenshotRegionGap::ScreenshotSkipped]
    } else {
        let r = f.regions@;
        region_gap(r, OpenGpuiScreenshotRegionKind::PortArea,
            region_gap(r, OpenGpuiScreenshotRegionKind::WirePath,
                region_gap(r, OpenGpuiScreenshotRegionKind::NodeInternalUi,
                    region_gap(r, OpenGpuiScreenshotRegionKind::NodeBody,
                        insert_if(Set::empty(), capture_blank(f),
                            OpenGpuiScreenshotRegionGap::ScreenshotBlankOrSingleColor)))))
    }
}

/// Every field but `gaps` is the same.
pub open spec fn same_fixture_facts(a: OpenGpuiScreenshotFixtureEvidence, b: OpenGpuiScreenshotFixtureEvidence) -> bool {
    a == (OpenGpuiScreenshotFixtureEvidence { gaps: a.gaps, ..b })
}

/// The stored gaps are the computed ones, in declaration order.
pub open spec fn fixture_gaps_synced(f: OpenGpuiScreenshotFixtureEvidence) -> bool {
    set_of(f.gaps@) == fixture_gaps(f) && rank_sorted(f.gaps@)
}

/// The first region of a kind is unique.
pub proof fn lemma_first_of_kind_unique(
    regions: Seq<OpenGpuiScreenshotRegionEvidence>,
    kind: OpenGpuiScreenshotRegionKind,
    i: int,
    j: int,
)
    requires
        is_first_of_kind(regions, kind, i),
        is_first_of_kind(regions, kind, j),
    ensures
        i == j,
{
    if i < j {
        assert(regions[i].kind != kind);
    } else if j < i {
        assert(regions[j].kind != kind);
    }
}

fn first_region_index(regions: &Vec<OpenGpuiScreenshotRegionEvidence>, kind: OpenGpuiScreenshotRegionKind) -> (r: Option<usize>)
    ensures
        match r {
            None => kind_missing(regions@, kind),
            Some(i) => is_first_of_kind(regions@, kind, i as int),
        },
{
    let mut i: usize = 0;
    while i < regions.len()
        invariant
            i <= regions@.len(),
            forall|j: int| 0 <= j < i ==> regions@[j].kind != kind,
        decreases regions.len() - i,
    {
        if regions[i].kind == kind {
            return Some(i);
        }
        i = i + 1;
    }
    None
}

fn add_region_gap(
    regions: &Vec<OpenGpuiScreenshotRegionEvidence>,
    kind: OpenGpuiScreenshotRegionKind,
    gaps: &mut Vec<OpenGpuiScreenshotRegionGap>,
)
    ensures
        set_of(final(gaps)@) == region_gap(regions@, kind, set_of(old(gaps)@)),
        rank_sorted(old(gaps)@) ==> rank_sorted(final(gaps)@),
{
    match first_region_index(regions, kind) {
        None => {
            set_insert(gaps, OpenGpuiScreenshotRegionGap::RequiredRegionMissing(kind));
        },
        Some(i) => {
            proof {
                assert(!kind_missing(regions@, kind));
                assert forall|k: int| is_first_of_kind(regions@, kind, k) implies k == i by {
                    lemma_first_of_kind_unique(regions@, kind, k, i as int);
                }
            }
            if !regions[i].is_present() {
                set_insert(gaps, OpenGpuiScreenshotRegionGap::RequiredRegionBlank(kind));
            }
        },
    }
}

impl OpenGpuiScreenshotFixtureEvidence {
    /// Evidence for a captured screenshot, with no region yet.
    pub fn captured(
        fixture_id: String,
        width: u32,
        height: u32,
        non_transparent_pixels: usize,
        distinct_rgba_samples: usize,
    ) -> (evidence: Self)
        ensures
            evidence.fixture_id@ == fixture_id@,
            evidence.width == width && evidence.height == height,
            evidence.non_transparent_pixels == non_transparent_pixels,
            evidence.distinct_rgba_samples == distinct_rgba_samples,
            evidence.regions@.len() == 0,
            evidence.skipped_reason is None,
            fixture_gaps_synced(evidence),
    {
        let mut evidence = OpenGpuiScreenshotFixtureEvidence {
            fixture_id,
            width,
            height,
            non_transparent_pixels,
            distinct_rgba_samples,
            regions: Vec::new(),
            skipped_reason: None,
            gaps: Vec::new(),
        };
        evidence.sync_gaps();
        evidence
    }

    /// Evidence for a fixture whose capture was skipped, for `reason`.
    pub fn skipped(fixture_id: String, reason: String) -> (evidence: Self)
        ensures
            evidence.fixture_id@ == fixture_id@,
            evidence.width == 0 && evidence.height == 0,
            evidence.non_transparent_pixels == 0 && evidence.distinct_rgba_samples == 0,
            evidence.regions@.len() == 0,
            evidence.skipped_reason == Some(reason),
            fixture_gaps_synced(evidence),
    {
        let mut evidence = OpenGpuiScreenshotFixtureEvidence {
            fixture_id,
            width: 0,
            height: 0,
            non_transparent_pixels: 0,
            distinct_rgba_samples: 0,
            regions: Vec::new(),
            skipped_reason: Some(reason),
            gaps: Vec::new(),
        };
        evidence.sync_gaps();
        evidence
    }

    pub fn push_region(&mut self, region: OpenGpuiScreenshotRegionEvidence)
        ensures
            same_fixture_facts(*final(self), Self { regions: final(self).regions, ..*old(self) }),
            final(self).regions@ == old(self).regions@.push(region),
            fixture_gaps_synced(*final(self)),
    {
        self.regions.push(region);
        self.sync_gaps();
    }

    /// Whether some region of `kind` is present.
    pub fn has_region(&self, kind: OpenGpuiScreenshotRegionKind) -> (found: bool)
        ensures
            found == exists|i: int| 0 <= i < self.regions@.len() && self.regions@[i].kind == kind
                && region_present(#[trigger] self.regions@[i]),
    {
        let mut i: usize = 0;
        while i < self.regions.len()
            invariant
                i <= self.regions@.len(),
                forall|j: int| 0 <= j < i ==> !(self.regions@[j].kind == kind && region_present(#[trigger] self.regions@[j])),
            decreases self.regions.len() - i,
        {
            if self.regions[i].kind == kind && self.regions[i].is_present() {
                return true;
            }
            i = i + 1;
        }
        false
    }

    /// The gaps that the evidence shows, in declaration order.
    pub fn computed_gaps(&self) -> (gaps: Vec<OpenGpuiScreenshotRegionGap>)
        ensures
            set_of(gaps@) == fixture_gaps(*self),
            rank_sorted(gaps@),
    {
        let mut gaps: Vec<OpenGpuiScreenshotRegionGap> = Vec::new();
        assert(set_of(gaps@) =~= Set::empty());
        if is_skipped_with_reason(&self.skipped_reason) {
            set_insert(&mut gaps, OpenGpuiScreenshotRegionGap::ScreenshotSkipped);
            assert(set_of(gaps@) =~= set![OpenGpuiScreenshotRegionGap::ScreenshotSkipped]);
            return gaps;
        }
        let blank = self.width == 0 || self.height == 0 || self.non_transparent_pixels == 0
            || self.distinct_rgba_samples < 2;
        set_insert_if(&mut gaps, blank, OpenGpuiScreenshotRegionGap::ScreenshotBlankOrSingleColor);
        add_region_gap(&self.regions, OpenGpuiScreenshotRegionKind::NodeBody, &mut gaps);
        add_region_gap(&self.regions, OpenGpuiScreenshotRegionKind::NodeInternalUi, &mut gaps);
        add_region_gap(&self.regions, OpenGpuiScreenshotRegionKind::WirePath, &mut gaps);
        add_region_gap(&self.regions, OpenGpuiScreenshotRegionKind::PortArea, &mut gaps);
        gaps
    }

    fn sync_gaps(&mut self)
        ensures
            same_fixture_facts(*final(self), *old(self)),
            fixture_gaps_synced(*final(self)),
    {
        let gaps = self.computed_gaps();
        self.gaps = gaps;
    }
}

/// Screenshot region evidence for a product gallery export run.
#[derive(Debug, Clone, Default, PartialEq, Eq)]
pub struct OpenGpuiScreenshotRegionReport {
    pub fixtures: Vec<OpenGpuiScreenshotFixtureEvidence>,
    pub skipped_reason: Option<String>,
    pub gaps: Vec<OpenGpuiScreenshotRegionGap>,
}

/// `i` is the first fixture evidence for `id`.
pub open spec fn is_first_with_id(fixtures: Seq<OpenGpuiScreenshotFixtureEvidence>, id: Seq<char>, i: int) -> bool {
    &&& 0 <= i < fixtures.len()
    &&& fixtures[i].fixture_id@ == id
    &&& forall|j: int| 0 <= j < i ==> fixtures[j].fixture_id@ != id
}

/// The first fixture evidence for `id`, if any.
pub open spec fn fixture_lookup(fixtures: Seq<OpenGpuiScreenshotFixtureEvidence>, id: Seq<char>) -> Option<OpenGpuiScreenshotFixtureEvidence> {
    if exists|i: int| is_first_with_id(fixtures, id, i) {
        Some(fixtures[choose|i: int| is_first_with_id(fixtures, id, i)])
    } else {
        None
    }
}

/// The gaps that the evidence for one catalog fixture adds.
pub open spec fn catalog_entry_gaps(fixtures: Seq<OpenGpuiScreenshotFixtureEvidence>, id: Seq<char>) -> Set<OpenGpuiScreenshotRegionGap> {
    match fixture_lookup(fixtures, id) {
        None => set![OpenGpuiScreenshotRegionGap::MissingFixture],
        Some(f) => fixture_gaps(f),
    }
}

/// The gaps of the first `k` catalog fixtures.
pub open spec fn catalog_gaps(fixtures: Seq<OpenGpuiScreenshotFixtureEvidence>, k: int) -> Set<OpenGpuiScreenshotRegionGap>
    decreases k,
{
    if k <= 0 {
        Set::empty()
    } else {
        catalog_gaps(fixtures, k - 1).union(catalog_entry_gaps(fixtures, catalog_ids()[k - 1]))
    }
}

/// The gaps of a whole report: a skip with a reason, or the gaps of every
/// catalog fixture's evidence.
pub open spec fn report_gaps(r: OpenGpuiScreenshotRegionReport) -> Set<OpenGpuiScreenshotRegionGap> {
    if skipped_with_reason(r.skipped_reason) {
        set![OpenGpuiScreenshotRegionGap::ScreenshotSkipped]
    } else {
        catalog_gaps(r.fixtures@, 4)
    }
}

/// The stored gaps are the computed ones, in declaration order.
pub open spec fn report_gaps_synced(r: OpenGpuiScreenshotRegionReport) -> bool {
    set_of(r.gaps@) == report_gaps(r) && rank_sorted(r.gaps@)
}

/// The first fixture evidence for an id is unique.
pub proof fn lemma_first_with_id_unique(fixtures: Seq<OpenGpuiScreenshotFixtureEvidence>, id: Seq<char>, i: int, j: int)
    requires
        is_first_with_id(fixtures, id, i),
        is_first_with_id(fixtures, id, j),
    ensures
        i == j,
{
    if i < j {
        assert(fixtures[i].fixture_id@ != id);
    } else if j < i {
        assert(fixtures[j].fixture_id@ != id);
    }
}

impl OpenGpuiScreenshotRegionReport {
    /// A report whose whole capture was skipped, for `reason`.
    pub fn skipped(reason: String) -> (report: Self)
        ensures
            report.fixtures@.len() == 0,
            report.skipped_reason == Some(reason),
            report_gaps_synced(report),
    {
        let mut report = OpenGpuiScreenshotRegionReport {
            fixtures: Vec::new(),
            skipped_reason: Some(reason),
            gaps: Vec::new(),
        };
        report.sync_gaps();
        report
    }

    pub fn push_fixture(&mut self, fixture: OpenGpuiScreenshotFixtureEvidence)
        ensures
            final(self).fixtures@ == old(self).fixtures@.push(fixture),
            final(self).skipped_reason == old(self).skipped_reason,
            report_gaps_synced(*final(self)),
    {
        self.fixtures.push(fixture);
        self.sync_gaps();
    }

    /// The first fixture evidence for `fixture_id`.
    pub fn fixture(&self, fixture_id: &str) -> (found: Option<&OpenGpuiScreenshotFixtureEvidence>)
        ensures
            match found {
                Some(f) => fixture_lookup(self.fixtures@, fixture_id@) == Some(*f),
                None => fixture_lookup(self.fixtures@, fixture_id@) is None,
            },
    {
        let mut i: usize = 0;
        while i < self.fixtures.len()
            invariant
                i <= self.fixtures@.len(),
                forall|j: int| 0 <= j < i ==> self.fixtures@[j].fixture_id@ != fixture_id@,
            decreases self.fixtures.len() - i,
        {
            if str_eq(self.fixtures[i].fixture_id.as_str(), fixture_id) {
                proof {
                    assert(is_first_with_id(self.fixtures@, fixture_id@, i as int));
                    let k = choose|k: int| is_first_with_id(self.fixtures@, fixture_id@, k);
                    lemma_first_with_id_unique(self.fixtures@, fixture_id@, k, i as int);
                }
                return Some(&self.fixtures[i]);
            }
            i = i + 1;
        }
        None
    }

    /// The gaps that the report shows, in declaration order.
    pub fn computed_gaps(&self) -> (gaps: Vec<OpenGpuiScreenshotRegionGap>)
        ensures
            set_of(gaps@) == report_gaps(*self),
            rank_sorted(gaps@),
    {
        let mut gaps: Vec<OpenGpuiScreenshotRegionGap> = Vec::new();
        assert(set_of(gaps@) =~= Set::empty());
        if is_skipped_with_reason(&self.skipped_reason) {
            set_insert(&mut gaps, OpenGpuiScreenshotRegionGap::ScreenshotSkipped);
            assert(set_of(gaps@) =~= set![OpenGpuiScreenshotRegionGap::ScreenshotSkipped]);
            return gaps;
        }
        let catalog: Vec<OpenGpuiProductFixtureCase> = product_fixture_catalog();
        let mut k: usize = 0;
        while k < 4
            invariant
                k <= 4,
                catalog@.len() == 4,
                forall|j: int| 0 <= j < 4 ==> spec_case_matches(#[trigger] catalog@[j], catalog_kinds()[j]),
                set_of(gaps@) == catalog_gaps(self.fixtures@, k as int),
                rank_sorted(gaps@),
            decreases 4 - k,
        {
            let ghost before = set_of(gaps@);
            assert(catalog@[k as int].id@ == catalog_ids()[k as int]);
            match self.fixture(catalog[k].id.as_str()) {
                None => {
                    set_insert(&mut gaps, OpenGpuiScreenshotRegionGap::MissingFixture);
                    assert(set_of(gaps@) =~= before.union(set![OpenGpuiScreenshotRegionGap::MissingFixture]));
                },
                Some(evidence) => {
                    let more = evidence.computed_gaps();
                    set_extend(&mut gaps, &more);
                },
            }
            k = k + 1;
        }
        gaps
    }

    fn sync_gaps(&mut self)
        ensures
            final(self).fixtures == old(self).fixtures,
            final(self).skipped_reason == old(self).skipped_reason,
            report_gaps_synced(*final(self)),
    {
        let gaps = self.computed_gaps();
        self.gaps = gaps;
    }
}

/// The screenshot gate: nothing is missing, and the stored gaps say so.
pub open spec fn screenshot_region_gates(r: OpenGpuiScreenshotRegionReport) -> bool {
    report_gaps(r) == Set::<OpenGpuiScreenshotRegionGap>::empty() && r.gaps@.len() == 0
}

/// Check a screenshot region report: it must show no gap and carry gaps in sync.
pub fn assert_screenshot_region_report_gates(report: &OpenGpuiScreenshotRegionReport) -> (r: Result<(), String>)
    ensures
        r is Ok <==> screenshot_region_gates(*report),
{
    let gaps = report.computed_gaps();
    if gaps.len() != 0 {
        assert(set_of(gaps@).contains(gaps@[0]));
        return Err(message(&["screenshot region report has unresolved gaps"]));
    }
    assert(set_of(gaps@) =~= Set::empty());
    if report.gaps.len() != 0 {
        return Err(message(&["screenshot region report must carry synchronized gaps"]));
    }
    Ok(())
}

/// The gaps of the first `k` catalog fixtures include those of each of them.
proof fn lemma_catalog_gaps_include(fixtures: Seq<OpenGpuiScreenshotFixtureEvidence>, k: int, m: int)
    requires
        0 <= m < k,
    ensures
        catalog_entry_gaps(fixtures, catalog_ids()[m]).subset_of(catalog_gaps(fixtures, k)),
    decreases k,
{
    if m < k - 1 {
        lemma_catalog_gaps_include(fixtures, k - 1, m);
    }
}

/// An accepted report holds, for every catalog fixture, captured
/// evidence that is not skipped nor blank and whose first region of each
/// required kind is present.
pub proof fn lemma_passing_report_covers_every_fixture(r: OpenGpuiScreenshotRegionReport, k: int)
    requires
        screenshot_region_gates(r),
        0 <= k < 4,
    ensures
        fixture_lookup(r.fixtures@, catalog_ids()[k]) is Some,
        ({
            let f = fixture_lookup(r.fixtures@, catalog_ids()[k])->0;
            &&& !skipped_with_reason(f.skipped_reason)
            &&& !capture_blank(f)
            &&& first_of_kind_present(f.regions@, OpenGpuiScreenshotRegionKind::NodeBody)
            &&& first_of_kind_present(f.regions@, OpenGpuiScreenshotRegionKind::NodeInternalUi)
            &&& first_of_kind_present(f.regions@, OpenGpuiScreenshotRegionKind::WirePath)
            &&& first_of_kind_present(f.regions@, OpenGpuiScreenshotRegionKind::PortArea)
        }),
{
    if skipped_with_reason(r.skipped_reason) {
        assert(report_gaps(r).contains(OpenGpuiScreenshotRegionGap::ScreenshotSkipped));
    }
    lemma_catalog_gaps_include(r.fixtures@, 4, k);
    let entry = catalog_entry_gaps(r.fixtures@, catalog_ids()[k]);
    assert(entry =~= Set::empty());
    if fixture_lookup(r.fixtures@, catalog_ids()[k]) is None {
        assert(entry.contains(OpenGpuiScreenshotRegionGap::MissingFixture));
    }
    let f = fixture_lookup(r.fixtures@, catalog_ids()[k])->0;
    let g = fixture_gaps(f);
    if skipped_with_reason(f.skipped_reason) {
        assert(g.contains(OpenGpuiScreenshotRegionGap::ScreenshotSkipped));
    }
    let regs = f.regions@;
    let g0 = insert_if(Set::empty(), capture_blank(f), OpenGpuiScreenshotRegionGap::ScreenshotBlankOrSingleColor);
    let g1 = region_gap(regs, OpenGpuiScreenshotRegionKind::NodeBody, g0);
    let g2 = region_gap(regs, OpenGpuiScreenshotRegionKind::NodeInternalUi, g1);
    let g3 = region_gap(regs, OpenGpuiScreenshotRegionKind::WirePath, g2);
    assert(g0.subset_of(g1) && g1.subset_of(g2) && g2.subset_of(g3) && g3.subset_of(g));
    if capture_blank(f) {
        assert(g0.contains(OpenGpuiScreenshotRegionGap::ScreenshotBlankOrSingleColor));
    }
    if kind_missing(regs, OpenGpuiScreenshotRegionKind::NodeBody) {
        assert(g1.contains(OpenGpuiScreenshotRegionGap::RequiredRegionMissing(OpenGpuiScreenshotRegionKind::NodeBody)));
    } else if !first_of_kind_present(regs, OpenGpuiScreenshotRegionKind::NodeBody) {
        assert(g1.contains(OpenGpuiScreenshotRegionGap::RequiredRegionBlank(OpenGpuiScreenshotRegionKind::NodeBody)));
    }
    if kind_missing(regs, OpenGpuiScreenshotRegionKind::NodeInternalUi) {
        assert(g2.contains(OpenGpuiScreenshotRegionGap::RequiredRegionMissing(OpenGpuiScreenshotRegionKind::NodeInternalUi)));
    } else if !first_of_kind_present(regs, OpenGpuiScreenshotRegionKind::NodeInternalUi) {
        assert(g2.contains(OpenGpuiScreenshotRegionGap::RequiredRegionBlank(OpenGpuiScreenshotRegionKind::NodeInternalUi)));
    }
    if kind_missing(regs, OpenGpuiScreenshotRegionKind::WirePath) {
        assert(g3.contains(OpenGpuiScreenshotRegionGap::RequiredRegionMissing(OpenGpuiScreenshotRegionKind::WirePath)));
    } else if !first_of_kind_present(regs, OpenGpuiScreenshotRegionKind::WirePath) {
        assert(g3.contains(OpenGpuiScreenshotRegionGap::RequiredRegionBlank(OpenGpuiScreenshotRegionKind::WirePath)));
    }
    if kind_missing(regs, OpenGpuiScreenshotRegionKind::PortArea) {
        assert(g.contains(OpenGpuiScreenshotRegionGap::RequiredRegionMissing(OpenGpuiScreenshotRegionKind::PortArea)));
    } else if !first_of_kind_present(regs, OpenGpuiScreenshotRegionKind::PortArea) {
        assert(g.contains(OpenGpuiScreenshotRegionGap::RequiredRegionBlank(OpenGpuiScreenshotRegionKind::PortArea)));
    }
}

/// A report whose capture was skipped with a reason is always rejected.
pub proof fn lemma_skipped_report_fails(r: OpenGpuiScreenshotRegionReport)
    requires
        skipped_with_reason(r.skipped_reason),
    ensures
        !screenshot_region_gates(r),
{
    assert(report_gaps(r).contains(OpenGpuiScreenshotRegionGap::ScreenshotSkipped));
}

} // verus!
