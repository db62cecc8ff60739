//! Host-level visual and interaction evidence for rendered product nodes.

use vstd::prelude::*;
use crate::presets::OpenGpuiSizeEvidence;
use crate::sets::{Ranked, set_of, rank_sorted, set_insert, set_extend};
use crate::text::{owned, str_eq, str_is_empty};
use crate::testing::catalog::{
    OpenGpuiProductFixtureCase, OpenGpuiProductFixtureFamily, OpenGpuiProductFixtureKind,
    product_fixture_catalog, catalog_ids, catalog_kinds, fixture_renderer_keys, spec_case_matches,
    texts,
};
use crate::sets::{string_set, strings_contain};
use crate::testing::host_surface::{OpenGpuiHostRendererSource, message};

verus! {

/// User-visible host regression gap collected from the concrete Open GPUI gallery path.
#[derive(Debug, Clone, Copy, PartialEq, Eq, PartialOrd, Ord, Structural)]
pub enum OpenGpuiHostVisualInteractionGap {
    UnselectedContentHidden,
    ContentOverflow,
    NodeBoundsOverlap,
    HandleOverlap,
    StaleMeasuredRegion,
    MissingRepeatableAnchor,
    BelowReadableSize,
    TextOverflow,
    ControlClipping,
    HiddenRepeatableOverflow,
    RepeatableOverflowIndicatorMissing,
    InvalidHoverOutOfBounds,
    DroppedWireMenuOutOfBounds,
    EdgeEndpointNotFollowingMeasuredHandle,
}

impl Ranked for OpenGpuiHostVisualInteractionGap {
    open spec fn rank_spec(&self) -> int {
        match self {
            OpenGpuiHostVisualInteractionGap::UnselectedContentHidden => 0,
            OpenGpuiHostVisualInteractionGap::ContentOverflow => 1,
            OpenGpuiHostVisualInteractionGap::NodeBoundsOverlap => 2,
            OpenGpuiHostVisualInteractionGap::HandleOverlap => 3,
            OpenGpuiHostVisualInteractionGap::StaleMeasuredRegion => 4,
            OpenGpuiHostVisualInteractionGap::MissingRepeatableAnchor => 5,
            OpenGpuiHostVisualInteractionGap::BelowReadableSize => 6,
            OpenGpuiHostVisualInteractionGap::TextOverflow => 7,
            OpenGpuiHostVisualInteractionGap::ControlClipping => 8,
            OpenGpuiHostVisualInteractionGap::HiddenRepeatableOverflow => 9,
            OpenGpuiHostVisualInteractionGap::RepeatableOverflowIndicatorMissing => 10,
            OpenGpuiHostVisualInteractionGap::InvalidHoverOutOfBounds => 11,
            OpenGpuiHostVisualInteractionGap::DroppedWireMenuOutOfBounds => 12,
            OpenGpuiHostVisualInteractionGap::EdgeEndpointNotFollowingMeasuredHandle => 13,
        }
    }

    fn rank(&self) -> (r: u64) {
        match self {
            OpenGpuiHostVisualInteractionGap::UnselectedContentHidden => 0,
            OpenGpuiHostVisualInteractionGap::ContentOverflow => 1,
            OpenGpuiHostVisualInteractionGap::NodeBoundsOverlap => 2,
            OpenGpuiHostVisualInteractionGap::HandleOverlap => 3,
            OpenGpuiHostVisualInteractionGap::StaleMeasuredRegion => 4,
            OpenGpuiHostVisualInteractionGap::MissingRepeatableAnchor => 5,
            OpenGpuiHostVisualInteractionGap::BelowReadableSize => 6,
            OpenGpuiHostVisualInteractionGap::TextOverflow => 7,
            OpenGpuiHostVisualInteractionGap::ControlClipping => 8,
            OpenGpuiHostVisualInteractionGap::HiddenRepeatableOverflow => 9,
            OpenGpuiHostVisualInteractionGap::RepeatableOverflowIndicatorMissing => 10,
            OpenGpuiHostVisualInteractionGap::InvalidHoverOutOfBounds => 11,
            OpenGpuiHostVisualInteractionGap::DroppedWireMenuOutOfBounds => 12,
            OpenGpuiHostVisualInteractionGap::EdgeEndpointNotFollowingMeasuredHandle => 13,
        }
    }

    proof fn lemma_rank_injective(a: Self, b: Self) {
    }
}

/// Host-level visual/layout evidence for one rendered product node.
///
/// `gaps` is a set kept in declaration order.
#[derive(Debug, Clone, PartialEq, Eq)]
pub struct OpenGpuiHostVisualSurfaceRow {
    pub fixture_id: String,
    pub fixture_kind: OpenGpuiProductFixtureKind,
    pub family: OpenGpuiProductFixtureFamily,
    pub node_kind: String,
    pub renderer_key: String,
    pub source: OpenGpuiHostRendererSource,
    pub selected: bool,
    pub content_visible: bool,
    pub content_readable: bool,
    pub content_within_node_bounds: bool,
    pub actual_size: Option<OpenGpuiSizeEvidence>,
    pub min_readable_size: Option<OpenGpuiSizeEvidence>,
    pub text_overflow_count: usize,
    pub clipped_control_count: usize,
    pub handle_overlap_count: usize,
    pub stale_measured_regions: usize,
    pub repeatable_rows: usize,
    pub repeatable_rows_with_anchors: usize,
    pub hidden_repeatable_overflow_count: usize,
    pub repeatable_overflow_indicator_count: usize,
    pub gaps: Vec<OpenGpuiHostVisualInteractionGap>,
}

/// `gaps` with one or two members added when `cond` holds.
pub open spec fn add_gaps_if(
    gaps: Set<OpenGpuiHostVisualInteractionGap>,
    cond: bool,
    added: Set<OpenGpuiHostVisualInteractionGap>,
) -> Set<OpenGpuiHostVisualInteractionGap> {
    if cond { gaps.union(added) } else { gaps }
}

impl OpenGpuiHostVisualSurfaceRow {
    pub open spec fn gap_set(&self) -> Set<OpenGpuiHostVisualInteractionGap> {
        set_of(self.gaps@)
    }

    pub fn new(
        fixture: &OpenGpuiProductFixtureCase,
        node_kind: String,
        renderer_key: String,
        source: OpenGpuiHostRendererSource,
    ) -> (row: Self)
        ensures
            row.fixture_id@ == fixture.id@,
            row.fixture_kind == fixture.kind,
            row.family == fixture.family,
            row.node_kind@ == node_kind@,
            row.renderer_key@ == renderer_key@,
            row.source == source,
            !row.selected && !row.content_visible && !row.content_readable && !row.content_within_node_bounds,
            row.actual_size is None && row.min_readable_size is None,
            row.text_overflow_count == 0 && row.clipped_control_count == 0,
            row.handle_overlap_count == 0 && row.stale_measured_regions == 0,
            row.repeatable_rows == 0 && row.repeatable_rows_with_anchors == 0,
            row.hidden_repeatable_overflow_count == 0 && row.repeatable_overflow_indicator_count == 0,
            row.gaps@.len() == 0,
    {
        OpenGpuiHostVisualSurfaceRow {
            fixture_id: owned(fixture.id.as_str()),
            fixture_kind: fixture.kind,
            family: fixture.family,
            node_kind,
            renderer_key,
            source,
            selected: false,
            content_visible: false,
            content_readable: false,
            content_within_node_bounds: false,
            actual_size: None,
            min_readable_size: None,
            text_overflow_count: 0,
            clipped_control_count: 0,
            handle_overlap_count: 0,
            stale_measured_regions: 0,
            repeatable_rows: 0,
            repeatable_rows_with_anchors: 0,
            hidden_repeatable_overflow_count: 0,
            repeatable_overflow_indicator_count: 0,
            gaps: Vec::new(),
        }
    }

    pub fn with_selection(self, selected: bool) -> (row: Self)
        ensures
            row == (Self { selected, ..self }),
    {
        let mut row = self;
        row.selected = selected;
        row
    }

    pub fn with_content_bounds(self, visible: bool, readable: bool, within_node_bounds: bool) -> (row: Self)
        ensures
            row == (Self {
                content_visible: visible,
                content_readable: readable,
                content_within_node_bounds: within_node_bounds,
                gaps: row.gaps,
                ..self
            }),
            row.gap_set() == add_gaps_if(
                add_gaps_if(
                    self.gap_set(),
                    !visible && !self.selected,
                    set![OpenGpuiHostVisualInteractionGap::UnselectedContentHidden],
                ),
                !readable || !within_node_bounds,
                set![OpenGpuiHostVisualInteractionGap::ContentOverflow],
            ),
            rank_sorted(self.gaps@) ==> rank_sorted(row.gaps@),
    {
        let mut row = self;
        row.content_visible = visible;
        row.content_readable = readable;
        row.content_within_node_bounds = within_node_bounds;
        if !visible && !row.selected {
            set_insert(&mut row.gaps, OpenGpuiHostVisualInteractionGap::UnselectedContentHidden);
        }
        let ghost mid = set_of(row.gaps@);
        if !readable || !within_node_bounds {
            set_insert(&mut row.gaps, OpenGpuiHostVisualInteractionGap::ContentOverflow);
        }
        proof {
            assert(set_of(row.gaps@) =~= add_gaps_if(mid, !readable || !within_node_bounds,
                set![OpenGpuiHostVisualInteractionGap::ContentOverflow]));
            assert(mid =~= add_gaps_if(self.gap_set(), !visible && !self.selected,
                set![OpenGpuiHostVisualInteractionGap::UnselectedContentHidden]));
        }
        row
    }

    pub fn with_readability_budget(
        self,
        actual_size: OpenGpuiSizeEvidence,
        min_readable_size: Option<OpenGpuiSizeEvidence>,
    ) -> (row: Self)
        ensures
            ({
                let below = match min_readable_size {
                    Some(m) => !(actual_size.width >= m.width && actual_size.height >= m.height),
                    None => false,
                };
                &&& row == (Self {
                    actual_size: Some(actual_size),
                    min_readable_size,
                    content_readable: if below { false } else { self.content_readable },
                    gaps: row.gaps,
                    ..self
                })
                &&& row.gap_set() == add_gaps_if(
                    self.gap_set(),
                    below,
                    set![
                        OpenGpuiHostVisualInteractionGap::BelowReadableSize,
                        OpenGpuiHostVisualInteractionGap::ContentOverflow,
                    ],
                )
            }),
            rank_sorted(self.gaps@) ==> rank_sorted(row.gaps@),
    {
        let mut row = self;
        row.actual_size = Some(actual_size);
        row.min_readable_size = min_readable_size;
        let below = match min_readable_size {
            Some(minimum) => !actual_size.contains(minimum),
            None => false,
        };
        if below {
            row.content_readable = false;
            set_insert(&mut row.gaps, OpenGpuiHostVisualInteractionGap::BelowReadableSize);
            set_insert(&mut row.gaps, OpenGpuiHostVisualInteractionGap::ContentOverflow);
        }
        proof {
            assert(set_of(row.gaps@) =~= add_gaps_if(self.gap_set(), below, set![
                OpenGpuiHostVisualInteractionGap::BelowReadableSize,
                OpenGpuiHostVisualInteractionGap::ContentOverflow,
            ]));
        }
        row
    }

    pub fn with_text_overflow_count(self, overflow_count: usize) -> (row: Self)
        ensures
            row == (Self {
                text_overflow_count: overflow_count,
                content_readable: if overflow_count > 0 { false } else { self.content_readable },
                gaps: row.gaps,
                ..self
            }),
            row.gap_set() == add_gaps_if(self.gap_set(), overflow_count > 0, set![
                OpenGpuiHostVisualInteractionGap::TextOverflow,
                OpenGpuiHostVisualInteractionGap::ContentOverflow,
            ]),
            rank_sorted(self.gaps@) ==> rank_sorted(row.gaps@),
    {
        let mut row = self;
        row.text_overflow_count = overflow_count;
        if overflow_count > 0 {
            row.content_readable = false;
            set_insert(&mut row.gaps, OpenGpuiHostVisualInteractionGap::TextOverflow);
            set_insert(&mut row.gaps, OpenGpuiHostVisualInteractionGap::ContentOverflow);
        }
        proof {
            assert(set_of(row.gaps@) =~= add_gaps_if(self.gap_set(), overflow_count > 0, set![
                OpenGpuiHostVisualInteractionGap::TextOverflow,
                OpenGpuiHostVisualInteractionGap::ContentOverflow,
            ]));
        }
        row
    }

    pub fn with_control_clipping_count(self, clipping_count: usize) -> (row: Self)
        ensures
            row == (Self {
                clipped_control_count: clipping_count,
                content_readable: if clipping_count > 0 { false } else { self.content_readable },
                gaps: row.gaps,
                ..self
            }),
            row.gap_set() == add_gaps_if(self.gap_set(), clipping_count > 0, set![
                OpenGpuiHostVisualInteractionGap::ControlClipping,
                OpenGpuiHostVisualInteractionGap::ContentOverflow,
            ]),
            rank_sorted(self.gaps@) ==> rank_sorted(row.gaps@),
    {
        let mut row = self;
        row.clipped_control_count = clipping_count;
        if clipping_count > 0 {
            row.content_readable = false;
            set_insert(&mut row.gaps, OpenGpuiHostVisualInteractionGap::ControlClipping);
            set_insert(&mut row.gaps, OpenGpuiHostVisualInteractionGap::ContentOverflow);
        }
        proof {
            assert(set_of(row.gaps@) =~= add_gaps_if(self.gap_set(), clipping_count > 0, set![
                OpenGpuiHostVisualInteractionGap::ControlClipping,
                OpenGpuiHostVisualInteractionGap::ContentOverflow,
            ]));
        }
        row
    }

    pub fn with_handle_overlap_count(self, overlap_count: usize) -> (row: Self)
        ensures
            row == (Self { handle_overlap_count: overlap_count, gaps: row.gaps, ..self }),
            row.gap_set() == add_gaps_if(self.gap_set(), overlap_count > 0, set![
                OpenGpuiHostVisualInteractionGap::HandleOverlap,
            ]),
            rank_sorted(self.gaps@) ==> rank_sorted(row.gaps@),
    {
        let mut row = self;
        row.handle_overlap_count = overlap_count;
        if overlap_count > 0 {
            set_insert(&mut row.gaps, OpenGpuiHostVisualInteractionGap::HandleOverlap);
        }
        proof {
            assert(set_of(row.gaps@) =~= add_gaps_if(self.gap_set(), overlap_count > 0, set![
                OpenGpuiHostVisualInteractionGap::HandleOverlap,
            ]));
        }
        row
    }

    pub fn with_repeatable_overflow(self, hidden_overflow_count: usize, visible_indicator_count: usize) -> (row: Self)
        ensures
            row == (Self {
                hidden_repeatable_overflow_count: hidden_overflow_count,
                repeatable_overflow_indicator_count: visible_indicator_count,
                gaps: row.gaps,
                ..self
            }),
            row.gap_set() == add_gaps_if(
                self.gap_set(),
                hidden_overflow_count > 0 && visible_indicator_count == 0,
                set![
                    OpenGpuiHostVisualInteractionGap::HiddenRepeatableOverflow,
                    OpenGpuiHostVisualInteractionGap::RepeatableOverflowIndicatorMissing,
                ],
            ),
            rank_sorted(self.gaps@) ==> rank_sorted(row.gaps@),
    {
        let mut row = self;
        row.hidden_repeatable_overflow_count = hidden_overflow_count;
        row.repeatable_overflow_indicator_count = visible_indicator_count;
        let missing = hidden_overflow_count > 0 && visible_indicator_count == 0;
        if missing {
            set_insert(&mut row.gaps, OpenGpuiHostVisualInteractionGap::HiddenRepeatableOverflow);
            set_insert(&mut row.gaps, OpenGpuiHostVisualInteractionGap::RepeatableOverflowIndicatorMissing);
        }
        proof {
            assert(set_of(row.gaps@) =~= add_gaps_if(self.gap_set(), missing, set![
                OpenGpuiHostVisualInteractionGap::HiddenRepeatableOverflow,
                OpenGpuiHostVisualInteractionGap::RepeatableOverflowIndicatorMissing,
            ]));
        }
        row
    }

    pub fn with_stale_measured_regions(self, stale_regions: usize) -> (row: Self)
        ensures
            row == (Self { stale_measured_regions: stale_regions, gaps: row.gaps, ..self }),
            row.gap_set() == add_gaps_if(self.gap_set(), stale_regions > 0, set![
                OpenGpuiHostVisualInteractionGap::StaleMeasuredRegion,
            ]),
            rank_sorted(self.gaps@) ==> rank_sorted(row.gaps@),
    {
        let mut row = self;
        row.stale_measured_regions = stale_regions;
        if stale_regions > 0 {
            set_insert(&mut row.gaps, OpenGpuiHostVisualInteractionGap::StaleMeasuredRegion);
        }
        proof {
            assert(set_of(row.gaps@) =~= add_gaps_if(self.gap_set(), stale_regions > 0, set![
                OpenGpuiHostVisualInteractionGap::StaleMeasuredRegion,
            ]));
        }
        row
    }

    pub fn with_repeatable_anchor_coverage(self, repeatable_rows: usize, repeatable_rows_with_anchors: usize) -> (row: Self)
        ensures
            row == (Self { repeatable_rows, repeatable_rows_with_anchors, gaps: row.gaps, ..self }),
            row.gap_set() == add_gaps_if(
                self.gap_set(),
                repeatable_rows > 0 && repeatable_rows_with_anchors == 0,
                set![OpenGpuiHostVisualInteractionGap::MissingRepeatableAnchor],
            ),
            rank_sorted(self.gaps@) ==> rank_sorted(row.gaps@),
    {
        let mut row = self;
        row.repeatable_rows = repeatable_rows;
        row.repeatable_rows_with_anchors = repeatable_rows_with_anchors;
        let missing = repeatable_rows > 0 && repeatable_rows_with_anchors == 0;
        if missing {
            set_insert(&mut row.gaps, OpenGpuiHostVisualInteractionGap::MissingRepeatableAnchor);
        }
        proof {
            assert(set_of(row.gaps@) =~= add_gaps_if(self.gap_set(), missing,
                set![OpenGpuiHostVisualInteractionGap::MissingRepeatableAnchor]));
        }
        row
    }
}

/// Host-level visual and interaction evidence for the real Open GPUI gallery path.
///
/// `gaps` is a set kept in declaration order.
#[derive(Debug, Clone, Default, PartialEq, Eq)]
pub struct OpenGpuiHostVisualInteractionReport {
    pub rows: Vec<OpenGpuiHostVisualSurfaceRow>,
    pub node_bounds_overlap_count: usize,
    pub invalid_hover_bounds_checked: bool,
    pub dropped_wire_menu_bounds_checked: bool,
    pub repeatable_edit_updates_anchors: bool,
    pub edge_endpoints_follow_measured_handles: bool,
    pub gaps: Vec<OpenGpuiHostVisualInteractionGap>,
}

impl OpenGpuiHostVisualInteractionReport {
    pub open spec fn gap_set(&self) -> Set<OpenGpuiHostVisualInteractionGap> {
        set_of(self.gaps@)
    }

    pub fn push(&mut self, row: OpenGpuiHostVisualSurfaceRow)
        ensures
            final(self).rows@ == old(self).rows@.push(row),
            final(self).gap_set() == old(self).gap_set().union(row.gap_set()),
            final(self).node_bounds_overlap_count == old(self).node_bounds_overlap_count,
            final(self).invalid_hover_bounds_checked == old(self).invalid_hover_bounds_checked,
            final(self).dropped_wire_menu_bounds_checked == old(self).dropped_wire_menu_bounds_checked,
            final(self).repeatable_edit_updates_anchors == old(self).repeatable_edit_updates_anchors,
            final(self).edge_endpoints_follow_measured_handles == old(self).edge_endpoints_follow_measured_handles,
            rank_sorted(old(self).gaps@) ==> rank_sorted(final(self).gaps@),
    {
        set_extend(&mut self.gaps, &row.gaps);
        self.rows.push(row);
    }

    pub fn rows_for_fixture(&self, fixture_id: &str) -> (rows: Vec<&OpenGpuiHostVisualSurfaceRow>)
        ensures
            rows@.map_values(|r: &OpenGpuiHostVisualSurfaceRow| *r)
                == self.rows@.filter(|row: OpenGpuiHostVisualSurfaceRow| row.fixture_id@ == fixture_id@),
    {
        let mut out: Vec<&OpenGpuiHostVisualSurfaceRow> = Vec::new();
        let mut i: usize = 0;
        while i < self.rows.len()
            invariant
                i <= self.rows@.len(),
                out@.map_values(|r: &OpenGpuiHostVisualSurfaceRow| *r)
                    == self.rows@.subrange(0, i as int).filter(|row: OpenGpuiHostVisualSurfaceRow| row.fixture_id@ == fixture_id@),
            decreases self.rows@.len() - i,
        {
            let row = &self.rows[i];
            proof {
                assert(self.rows@.subrange(0, i + 1) =~= self.rows@.subrange(0, i as int).push(self.rows@[i as int]));
                self.rows@.subrange(0, i as int).lemma_filter_push(
                    self.rows@[i as int],
                    |row: OpenGpuiHostVisualSurfaceRow| row.fixture_id@ == fixture_id@,
                );
            }
            let ghost before = out@;
            if str_eq(row.fixture_id.as_str(), fixture_id) {
                out.push(row);
                assert(out@.map_values(|r: &OpenGpuiHostVisualSurfaceRow| *r)
                    =~= before.map_values(|r: &OpenGpuiHostVisualSurfaceRow| *r).push(*row));
            }
            i = i + 1;
        }
        assert(self.rows@.subrange(0, self.rows@.len() as int) =~= self.rows@);
        out
    }

    pub fn add_node_bounds_overlap_count(&mut self, overlap_count: usize)
        requires
            old(self).node_bounds_overlap_count + overlap_count <= usize::MAX,
        ensures
            *final(self) == (Self {
                node_bounds_overlap_count: (old(self).node_bounds_overlap_count + overlap_count) as usize,
                gaps: final(self).gaps,
                ..*old(self)
            }),
            final(self).gap_set() == add_gaps_if(old(self).gap_set(), overlap_count > 0,
                set![OpenGpuiHostVisualInteractionGap::NodeBoundsOverlap]),
            rank_sorted(old(self).gaps@) ==> rank_sorted(final(self).gaps@),
    {
        self.node_bounds_overlap_count = self.node_bounds_overlap_count + overlap_count;
        let ghost before = set_of(self.gaps@);
        if overlap_count > 0 {
            set_insert(&mut self.gaps, OpenGpuiHostVisualInteractionGap::NodeBoundsOverlap);
        }
        assert(set_of(self.gaps@) =~= add_gaps_if(before, overlap_count > 0,
            set![OpenGpuiHostVisualInteractionGap::NodeBoundsOverlap]));
    }

    pub fn mark_invalid_hover_bounds_checked(&mut self, inside_bounds: bool)
        ensures
            *final(self) == (Self { invalid_hover_bounds_checked: inside_bounds, gaps: final(self).gaps, ..*old(self) }),
            final(self).gap_set() == add_gaps_if(old(self).gap_set(), !inside_bounds,
                set![OpenGpuiHostVisualInteractionGap::InvalidHoverOutOfBounds]),
            rank_sorted(old(self).gaps@) ==> rank_sorted(final(self).gaps@),
    {
        self.invalid_hover_bounds_checked = inside_bounds;
        let ghost before = set_of(self.gaps@);
        if !inside_bounds {
            set_insert(&mut self.gaps, OpenGpuiHostVisualInteractionGap::InvalidHoverOutOfBounds);
        }
        assert(set_of(self.gaps@) =~= add_gaps_if(before, !inside_bounds,
            set![OpenGpuiHostVisualInteractionGap::InvalidHoverOutOfBounds]));
    }

    pub fn mark_dropped_wire_menu_bounds_checked(&mut self, inside_bounds: bool)
        ensures
            *final(self) == (Self { dropped_wire_menu_bounds_checked: inside_bounds, gaps: final(self).gaps, ..*old(self) }),
            final(self).gap_set() == add_gaps_if(old(self).gap_set(), !inside_bounds,
                set![OpenGpuiHostVisualInteractionGap::DroppedWireMenuOutOfBounds]),
            rank_sorted(old(self).gaps@) ==> rank_sorted(final(self).gaps@),
    {
        self.dropped_wire_menu_bounds_checked = inside_bounds;
        let ghost before = set_of(self.gaps@);
        if !inside_bounds {
            set_insert(&mut self.gaps, OpenGpuiHostVisualInteractionGap::DroppedWireMenuOutOfBounds);
        }
        assert(set_of(self.gaps@) =~= add_gaps_if(before, !inside_bounds,
            set![OpenGpuiHostVisualInteractionGap::DroppedWireMenuOutOfBounds]));
    }

    pub fn mark_repeatable_edit_updates_anchors(&mut self, updates_anchors: bool)
        ensures
            *final(self) == (Self { repeatable_edit_updates_anchors: updates_anchors, gaps: final(self).gaps, ..*old(self) }),
            final(self).gap_set() == add_gaps_if(old(self).gap_set(), !updates_anchors,
                set![OpenGpuiHostVisualInteractionGap::MissingRepeatableAnchor]),
            rank_sorted(old(self).gaps@) ==> rank_sorted(final(self).gaps@),
    {
        self.repeatable_edit_updates_anchors = updates_anchors;
        let ghost before = set_of(self.gaps@);
        if !updates_anchors {
            set_insert(&mut self.gaps, OpenGpuiHostVisualInteractionGap::MissingRepeatableAnchor);
        }
        assert(set_of(self.gaps@) =~= add_gaps_if(before, !updates_anchors,
            set![OpenGpuiHostVisualInteractionGap::MissingRepeatableAnchor]));
    }

    pub fn mark_edge_endpoints_follow_measured_handles(&mut self, follows_handles: bool)
        ensures
            *final(self) == (Self { edge_endpoints_follow_measured_handles: follows_handles, gaps: final(self).gaps, ..*old(self) }),
            final(self).gap_set() == add_gaps_if(old(self).gap_set(), !follows_handles,
                set![OpenGpuiHostVisualInteractionGap::EdgeEndpointNotFollowingMeasuredHandle]),
            rank_sorted(old(self).gaps@) ==> rank_sorted(final(self).gaps@),
    {
        self.edge_endpoints_follow_measured_handles = follows_handles;
        let ghost before = set_of(self.gaps@);
        if !follows_handles {
            set_insert(&mut self.gaps, OpenGpuiHostVisualInteractionGap::EdgeEndpointNotFollowingMeasuredHandle);
        }
        assert(set_of(self.gaps@) =~= add_gaps_if(before, !follows_handles,
            set![OpenGpuiHostVisualInteractionGap::EdgeEndpointNotFollowingMeasuredHandle]));
    }
}

/// One visual row passes the product visual gate.
pub open spec fn visual_row_gate(row: OpenGpuiHostVisualSurfaceRow) -> bool {
    &&& row.node_kind@.len() > 0
    &&& row.renderer_key@.len() > 0
    &&& row.content_visible
    &&& row.content_readable && row.content_within_node_bounds
    &&& row.handle_overlap_count == 0
    &&& row.stale_measured_regions == 0
    &&& row.repeatable_rows > 0 ==> row.repeatable_rows_with_anchors > 0
}

/// Some row of catalog fixture `k` is drawn by one of its product renderers.
pub open spec fn has_visual_product_row(rows: Seq<OpenGpuiHostVisualSurfaceRow>, k: int) -> bool {
    exists|i: int| 0 <= i < rows.len()
        && #[trigger] rows[i].fixture_id@ == catalog_ids()[k]
        && rows[i].source == OpenGpuiHostRendererSource::ProductRenderer
        && fixture_renderer_keys(catalog_kinds()[k]).contains(rows[i].renderer_key@)
}

/// The concrete host-level visual/interaction gate.
pub open spec fn visual_interaction_gates(report: OpenGpuiHostVisualInteractionReport) -> bool {
    &&& report.rows@.len() > 0
    &&& forall|k: int| 0 <= k < 4 ==> #[trigger] has_visual_product_row(report.rows@, k)
    &&& forall|i: int| 0 <= i < report.rows@.len() ==> visual_row_gate(#[trigger] report.rows@[i])
    &&& report.node_bounds_overlap_count == 0
    &&& report.invalid_hover_bounds_checked
    &&& report.dropped_wire_menu_bounds_checked
    &&& report.repeatable_edit_updates_anchors
    &&& report.edge_endpoints_follow_measured_handles
    &&& report.gaps@.len() == 0
}

fn has_visual_row(
    rows: &Vec<OpenGpuiHostVisualSurfaceRow>,
    fixture: &OpenGpuiProductFixtureCase,
    k: Ghost<int>,
) -> (found: bool)
    requires
        0 <= k@ < 4,
        spec_case_matches(*fixture, catalog_kinds()[k@]),
    ensures
        found == has_visual_product_row(rows@, k@),
{
    let mut i: usize = 0;
    while i < rows.len()
        invariant
            i <= rows@.len(),
            0 <= k@ < 4,
            spec_case_matches(*fixture, catalog_kinds()[k@]),
            forall|j: int| 0 <= j < i ==> !(#[trigger] rows@[j].fixture_id@ == catalog_ids()[k@]
                && rows@[j].source == OpenGpuiHostRendererSource::ProductRenderer
                && fixture_renderer_keys(catalog_kinds()[k@]).contains(rows@[j].renderer_key@)),
        decreases rows@.len() - i,
    {
        let row = &rows[i];
        if str_eq(row.fixture_id.as_str(), fixture.id.as_str())
            && row.source == OpenGpuiHostRendererSource::ProductRenderer
            && strings_contain(&fixture.expected_renderer_keys, row.renderer_key.as_str()) {
            proof {
                let t = texts(fixture.expected_renderer_keys@);
                let w = choose|w: int| 0 <= w < fixture.expected_renderer_keys@.len()
                    && #[trigger] fixture.expected_renderer_keys@[w]@ == row.renderer_key@;
                assert(t[w] == row.renderer_key@);
            }
            return true;
        }
        proof {
            if row.fixture_id@ == catalog_ids()[k@] && row.source == OpenGpuiHostRendererSource::ProductRenderer
                && fixture_renderer_keys(catalog_kinds()[k@]).contains(row.renderer_key@) {
                let t = texts(fixture.expected_renderer_keys@);
                let w = choose|w: int| 0 <= w < t.len() && t[w] == row.renderer_key@;
                assert(string_set(fixture.expected_renderer_keys@).contains(row.renderer_key@)) by {
                    assert(fixture.expected_renderer_keys@[w]@ == row.renderer_key@);
                }
            }
        }
        i = i + 1;
    }
    false
}

fn check_visual_row(row: &OpenGpuiHostVisualSurfaceRow) -> (r: Result<(), String>)
    ensures
        r is Ok <==> visual_row_gate(*row),
{
    if str_is_empty(row.node_kind.as_str()) {
        return Err(message(&["visual report row must name a node kind"]));
    }
    if str_is_empty(row.renderer_key.as_str()) {
        return Err(message(&["visual report row must name a renderer key"]));
    }
    if !row.content_visible {
        return Err(message(&["node-internal content must remain visible even when unselected"]));
    }
    if !(row.content_readable && row.content_within_node_bounds) {
        return Err(message(&["node-internal content must satisfy readable size and stay inside the node body"]));
    }
    if row.handle_overlap_count != 0 {
        return Err(message(&["controls/content must not overlap connection handle rails"]));
    }
    if row.stale_measured_regions != 0 {
        return Err(message(&["visual report must not carry stale measured regions"]));
    }
    if row.repeatable_rows > 0 && row.repeatable_rows_with_anchors == 0 {
        return Err(message(&["repeatable rows need measured/fallback anchor evidence"]));
    }
    Ok(())
}

/// Check concrete Open GPUI host-level visual/interaction gates.
pub fn assert_host_visual_interaction_report_gates(report: &OpenGpuiHostVisualInteractionReport) -> (r: Result<(), String>)
    ensures
        r is Ok <==> visual_interaction_gates(*report),
{
    if report.rows.len() == 0 {
        return Err(message(&["Open GPUI host visual report must contain rendered product rows"]));
    }
    let catalog = product_fixture_catalog();
    let mut k: usize = 0;
    while k < 4
        invariant
            k <= 4,
            catalog@.len() == 4,
            forall|j: int| 0 <= j < 4 ==> spec_case_matches(#[trigger] catalog@[j], catalog_kinds()[j]),
            forall|j: int| 0 <= j < k ==> #[trigger] has_visual_product_row(report.rows@, j),
        decreases 4 - k,
    {
        if !has_visual_row(&report.rows, &catalog[k], Ghost(k as int)) {
            return Err(message(&["fixture `", catalog[k].id.as_str(), "` must have a product renderer visual row"]));
        }
        k = k + 1;
    }
    let mut i: usize = 0;
    while i < report.rows.len()
        invariant
            i <= report.rows@.len(),
            forall|j: int| 0 <= j < i ==> visual_row_gate(#[trigger] report.rows@[j]),
        decreases report.rows@.len() - i,
    {
        let checked = check_visual_row(&report.rows[i]);
        if checked.is_err() {
            return checked;
        }
        i = i + 1;
    }
    if report.node_bounds_overlap_count != 0 {
        return Err(message(&["product fixture nodes must not initialize with overlapping bounds"]));
    }
    if !report.invalid_hover_bounds_checked {
        return Err(message(&["invalid hover feedback must be checked against measured handle bounds"]));
    }
    if !report.dropped_wire_menu_bounds_checked {
        return Err(message(&["dropped-wire menu bounds must be checked"]));
    }
    if !report.repeatable_edit_updates_anchors {
        return Err(message(&["repeatable edits must update or downgrade anchor evidence"]));
    }
    if !report.edge_endpoints_follow_measured_handles {
        return Err(message(&["edge endpoints must follow measured handle positions"]));
    }
    if report.gaps.len() != 0 {
        return Err(message(&["host visual interaction report has unresolved gaps"]));
    }
    Ok(())
}

} // verus!
