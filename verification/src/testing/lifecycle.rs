//! Native window lifecycle evidence for the product gallery smoke.

use vstd::prelude::*;
use crate::sets::{Ranked, set_of, rank_sorted, insert_if, set_insert_if};
use crate::testing::host_surface::message;
use crate::text::{is_blank, str_is_blank};

verus! {

/// Native lifecycle gap collected by an Open GPUI product smoke.
#[derive(Debug, Clone, Copy, PartialEq, Eq, PartialOrd, Ord, Structural)]
pub enum OpenGpuiNativeLifecycleGap {
    ProductGalleryNotRendered,
    ProductDragUnchecked,
    LastWindowCloseUnchecked,
    CloseAutomationSkipped,
    LastWindowCloseRejected,
    NoWindowBeforeClose,
    WindowsRemainAfterClose,
    QuitNotObserved,
    CloseAutomationSkipReasonMissing,
}

impl Ranked for OpenGpuiNativeLifecycleGap {
    open spec fn rank_spec(&self) -> int {
        match self {
            OpenGpuiNativeLifecycleGap::ProductGalleryNotRendered => 0,
            OpenGpuiNativeLifecycleGap::ProductDragUnchecked => 1,
            OpenGpuiNativeLifecycleGap::LastWindowCloseUnchecked => 2,
            OpenGpuiNativeLifecycleGap::CloseAutomationSkipped => 3,
            OpenGpuiNativeLifecycleGap::LastWindowCloseRejected => 4,
            OpenGpuiNativeLifecycleGap::NoWindowBeforeClose => 5,
            OpenGpuiNativeLifecycleGap::WindowsRemainAfterClose => 6,
            OpenGpuiNativeLifecycleGap::QuitNotObserved => 7,
            OpenGpuiNativeLifecycleGap::CloseAutomationSkipReasonMissing => 8,
        }
    }

    fn rank(&self) -> (r: u64) {
        match self {
            OpenGpuiNativeLifecycleGap::ProductGalleryNotRendered => 0,
            OpenGpuiNativeLifecycleGap::ProductDragUnchecked => 1,
            OpenGpuiNativeLifecycleGap::LastWindowCloseUnchecked => 2,
            OpenGpuiNativeLifecycleGap::CloseAutomationSkipped => 3,
            OpenGpuiNativeLifecycleGap::LastWindowCloseRejected => 4,
            OpenGpuiNativeLifecycleGap::NoWindowBeforeClose => 5,
            OpenGpuiNativeLifecycleGap::WindowsRemainAfterClose => 6,
            OpenGpuiNativeLifecycleGap::QuitNotObserved => 7,
            OpenGpuiNativeLifecycleGap::CloseAutomationSkipReasonMissing => 8,
        }
    }

    proof fn lemma_rank_injective(a: Self, b: Self) {
    }
}

/// Widget-free native lifecycle evidence for the Open GPUI product gallery.
///
/// `gaps` is a set kept in declaration order; every `mark_*` method leaves it
/// equal to [`OpenGpuiNativeLifecycleEvidence::computed_gaps`].
#[derive(Debug, Clone, Default, PartialEq, Eq)]
pub struct OpenGpuiNativeLifecycleEvidence {
    pub rendered_product_fixture_id: Option<String>,
    pub rendered_product_node_count: usize,
    pub product_drag_checked: bool,
    pub last_window_close_attempted: bool,
    pub initial_window_count: usize,
    pub last_window_close_accepted: bool,
    pub remaining_window_count: usize,
    pub quit_observed: bool,
    pub close_automation_skip_reason: Option<String>,
    pub gaps: Vec<OpenGpuiNativeLifecycleGap>,
}

/// No non-blank product fixture was rendered with at least one node.
pub open spec fn gallery_not_rendered(e: OpenGpuiNativeLifecycleEvidence) -> bool {
    (match e.rendered_product_fixture_id {
        None => true,
        Some(id) => is_blank(id@),
    }) || e.rendered_product_node_count == 0
}

/// The gaps that the rendering and drag facts alone give.
pub open spec fn gallery_gaps(e: OpenGpuiNativeLifecycleEvidence) -> Set<OpenGpuiNativeLifecycleGap> {
    insert_if(
        insert_if(Set::empty(), gallery_not_rendered(e), OpenGpuiNativeLifecycleGap::ProductGalleryNotRendered),
        !e.product_drag_checked,
        OpenGpuiNativeLifecycleGap::ProductDragUnchecked,
    )
}

/// The gaps of an attempted last-window close.
pub open spec fn close_gaps(
    e: OpenGpuiNativeLifecycleEvidence,
    base: Set<OpenGpuiNativeLifecycleGap>,
) -> Set<OpenGpuiNativeLifecycleGap> {
    insert_if(
        insert_if(
            insert_if(
                insert_if(base, e.initial_window_count == 0, OpenGpuiNativeLifecycleGap::NoWindowBeforeClose),
                !e.last_window_close_accepted,
                OpenGpuiNativeLifecycleGap::LastWindowCloseRejected,
            ),
            e.remaining_window_count > 0,
            OpenGpuiNativeLifecycleGap::WindowsRemainAfterClose,
        ),
        !e.quit_observed,
        OpenGpuiNativeLifecycleGap::QuitNotObserved,
    )
}

/// The lifecycle gaps that the evidence shows.
///
/// A recorded skip of the close automation replaces every close check: a
/// blank reason is itself a gap. Without a skip, an unattempted close is one
/// gap, and an attempted one is judged by its window counts and quit.
pub open spec fn lifecycle_gaps(e: OpenGpuiNativeLifecycleEvidence) -> Set<OpenGpuiNativeLifecycleGap> {
    let base = gallery_gaps(e);
    match e.close_automation_skip_reason {
        Some(reason) => if is_blank(reason@) {
            base.insert(OpenGpuiNativeLifecycleGap::CloseAutomationSkipReasonMissing)
        } else {
            base.insert(OpenGpuiNativeLifecycleGap::CloseAutomationSkipped)
        },
        None => if !e.last_window_close_attempted {
            base.insert(OpenGpuiNativeLifecycleGap::LastWindowCloseUnchecked)
        } else {
            close_gaps(e, base)
        },
    }
}

/// Every field but `gaps` is the same.
pub open spec fn same_facts(a: OpenGpuiNativeLifecycleEvidence, b: OpenGpuiNativeLifecycleEvidence) -> bool {
    a == (OpenGpuiNativeLifecycleEvidence { gaps: a.gaps, ..b })
}

/// The stored gaps are the computed ones, in declaration order.
pub open spec fn gaps_synced(e: OpenGpuiNativeLifecycleEvidence) -> bool {
    set_of(e.gaps@) == lifecycle_gaps(e) && rank_sorted(e.gaps@)
}

fn rendered_fixture_missing(e: &OpenGpuiNativeLifecycleEvidence) -> (missing: bool)
    ensures
        missing == gallery_not_rendered(*e),
{
    let blank = match &e.rendered_product_fixture_id {
        None => true,
        Some(id) => str_is_blank(id.as_str()),
    };
    blank || e.rendered_product_node_count == 0
}

impl OpenGpuiNativeLifecycleEvidence {
    /// Evidence that records only a skipped close automation.
    pub fn skipped(reason: String) -> (evidence: Self)
        ensures
            evidence.rendered_product_fixture_id is None,
            evidence.rendered_product_node_count == 0,
            !evidence.product_drag_checked,
            !evidence.last_window_close_attempted,
            evidence.initial_window_count == 0,
            !evidence.last_window_close_accepted,
            evidence.remaining_window_count == 0,
            !evidence.quit_observed,
            evidence.close_automation_skip_reason == Some(reason),
            gaps_synced(evidence),
    {
        let mut evidence = OpenGpuiNativeLifecycleEvidence {
            rendered_product_fixture_id: None,
            rendered_product_node_count: 0,
            product_drag_checked: false,
            last_window_close_attempted: false,
            initial_window_count: 0,
            last_window_close_accepted: false,
            remaining_window_count: 0,
            quit_observed: false,
            close_automation_skip_reason: None,
            gaps: Vec::new(),
        };
        evidence.mark_close_automation_skipped(reason);
        evidence
    }

    pub fn mark_product_gallery_rendered(&mut self, fixture_id: String, product_node_count: usize)
        ensures
            same_facts(*final(self), Self {
                rendered_product_fixture_id: Some(fixture_id),
                rendered_product_node_count: product_node_count,
                ..*old(self)
            }),
            gaps_synced(*final(self)),
    {
        self.rendered_product_fixture_id = Some(fixture_id);
        self.rendered_product_node_count = product_node_count;
        self.sync_gaps();
    }

    pub fn mark_product_drag_checked(&mut self, checked: bool)
        ensures
            same_facts(*final(self), Self { product_drag_checked: checked, ..*old(self) }),
            gaps_synced(*final(self)),
    {
        self.product_drag_checked = checked;
        self.sync_gaps();
    }

    /// Records an attempted close of the last window; this clears a recorded skip.
    pub fn mark_last_window_close(
        &mut self,
        initial_window_count: usize,
        accepted: bool,
        remaining_window_count: usize,
        quit_observed: bool,
    )
        ensures
            same_facts(*final(self), Self {
                last_window_close_attempted: true,
                initial_window_count,
                last_window_close_accepted: accepted,
                remaining_window_count,
                quit_observed,
                close_automation_skip_reason: None,
                ..*old(self)
            }),
            gaps_synced(*final(self)),
    {
        self.last_window_close_attempted = true;
        self.initial_window_count = initial_window_count;
        self.last_window_close_accepted = accepted;
        self.remaining_window_count = remaining_window_count;
        self.quit_observed = quit_observed;
        self.close_automation_skip_reason = None;
        self.sync_gaps();
    }

    /// Records that close automation was skipped, for `reason`.
    pub fn mark_close_automation_skipped(&mut self, reason: String)
        ensures
            same_facts(*final(self), Self {
                last_window_close_attempted: false,
                close_automation_skip_reason: Some(reason),
                ..*old(self)
            }),
            gaps_synced(*final(self)),
    {
        self.last_window_close_attempted = false;
        self.close_automation_skip_reason = Some(reason);
        self.sync_gaps();
    }

    /// The gaps that the evidence shows, in declaration order.
    pub fn computed_gaps(&self) -> (gaps: Vec<OpenGpuiNativeLifecycleGap>)
        ensures
            set_of(gaps@) == lifecycle_gaps(*self),
            rank_sorted(gaps@),
    {
        let mut gaps: Vec<OpenGpuiNativeLifecycleGap> = Vec::new();
        assert(set_of(gaps@) =~= Set::empty());
        set_insert_if(&mut gaps, rendered_fixture_missing(self), OpenGpuiNativeLifecycleGap::ProductGalleryNotRendered);
        set_insert_if(&mut gaps, !self.product_drag_checked, OpenGpuiNativeLifecycleGap::ProductDragUnchecked);
        match &self.close_automation_skip_reason {
            Some(reason) => {
                if str_is_blank(reason.as_str()) {
                    set_insert_if(&mut gaps, true, OpenGpuiNativeLifecycleGap::CloseAutomationSkipReasonMissing);
                } else {
                    set_insert_if(&mut gaps, true, OpenGpuiNativeLifecycleGap::CloseAutomationSkipped);
                }
                return gaps;
            },
            None => {},
        }
        if !self.last_window_close_attempted {
            set_insert_if(&mut gaps, true, OpenGpuiNativeLifecycleGap::LastWindowCloseUnchecked);
            return gaps;
        }
        set_insert_if(&mut gaps, self.initial_window_count == 0, OpenGpuiNativeLifecycleGap::NoWindowBeforeClose);
        set_insert_if(&mut gaps, !self.last_window_close_accepted, OpenGpuiNativeLifecycleGap::LastWindowCloseRejected);
        set_insert_if(&mut gaps, self.remaining_window_count > 0, OpenGpuiNativeLifecycleGap::WindowsRemainAfterClose);
        set_insert_if(&mut gaps, !self.quit_observed, OpenGpuiNativeLifecycleGap::QuitNotObserved);
        gaps
    }

    fn sync_gaps(&mut self)
        ensures
            same_facts(*final(self), *old(self)),
            gaps_synced(*final(self)),
    {
        let gaps = self.computed_gaps();
        self.gaps = gaps;
    }
}

/// The native lifecycle gate: nothing is missing, and the stored gaps say so.
pub open spec fn native_lifecycle_gates(e: OpenGpuiNativeLifecycleEvidence) -> bool {
    lifecycle_gaps(e) == Set::<OpenGpuiNativeLifecycleGap>::empty() && e.gaps@.len() == 0
}

/// Check native lifecycle evidence: it must show no gap and carry gaps in sync.
pub fn assert_native_lifecycle_evidence_gates(evidence: &OpenGpuiNativeLifecycleEvidence) -> (r: Result<(), String>)
    ensures
        r is Ok <==> native_lifecycle_gates(*evidence),
{
    let gaps = evidence.computed_gaps();
    if gaps.len() != 0 {
        assert(set_of(gaps@).contains(gaps@[0]));
        return Err(message(&["native lifecycle evidence has unresolved gaps"]));
    }
    assert(set_of(gaps@) =~= Set::empty());
    if evidence.gaps.len() != 0 {
        return Err(message(&["native lifecycle evidence must carry synchronized gaps"]));
    }
    Ok(())
}

/// Evidence that rendered a product fixture, checked drag and saw a clean
/// close-and-quit of the only window is accepted, whatever it held before.
pub proof fn lemma_clean_close_passes(e: OpenGpuiNativeLifecycleEvidence)
    requires
        gaps_synced(e),
        !gallery_not_rendered(e),
        e.product_drag_checked,
        e.close_automation_skip_reason is None,
        e.last_window_close_attempted,
        e.initial_window_count > 0,
        e.last_window_close_accepted,
        e.remaining_window_count == 0,
        e.quit_observed,
    ensures
        native_lifecycle_gates(e),
{
    assert(lifecycle_gaps(e) =~= Set::empty());
    if e.gaps@.len() > 0 {
        assert(set_of(e.gaps@).contains(e.gaps@[0]));
    }
}

/// Evidence that records a skipped close automation is always rejected.
pub proof fn lemma_skipped_close_fails(e: OpenGpuiNativeLifecycleEvidence)
    requires
        e.close_automation_skip_reason is Some,
    ensures
        !native_lifecycle_gates(e),
{
    let g = lifecycle_gaps(e);
    if is_blank(e.close_automation_skip_reason->0@) {
        assert(g.contains(OpenGpuiNativeLifecycleGap::CloseAutomationSkipReasonMissing));
    } else {
        assert(g.contains(OpenGpuiNativeLifecycleGap::CloseAutomationSkipped));
    }
}

} // verus!
