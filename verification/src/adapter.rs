//! The adapter facade's measurement mode and its layout-pass capability claim.

use vstd::prelude::*;
use crate::measurement::{OpenGpuiMeasurementCoverage, coverage_notes, spec_is_full_layout_pass};
use crate::text::{owned, push_str, usize_decimal_string};

verus! {

/// Stable adapter identifier used in conformance reports.
pub const OPEN_GPUI_ADAPTER_ID: &'static str = "open-gpui";

/// How the adapter produced node-internal measurement facts.
#[derive(Debug, Clone, Copy, PartialEq, Eq, Structural)]
pub enum OpenGpuiMeasurementMode {
    /// Geometry came from fallback projection rather than GPUI layout-pass bounds.
    ProjectionFallback,
    /// Geometry came from GPUI measured element bounds.
    LayoutPass,
}

/// How far the adapter can claim layout-pass measurement support.
#[derive(Debug, Clone, Copy, PartialEq, Eq, Structural)]
pub enum OpenGpuiLayoutPassSupport {
    /// Only projected fallback geometry.
    Projection,
    /// Some regions came from the layout pass, not all.
    Partial,
    /// Every region came from the layout pass.
    Full,
}

/// Minimal adapter facade for capability and measurement-mode reporting.
#[derive(Debug, Clone, PartialEq, Eq)]
pub struct OpenGpuiAdapter {
    measurement_mode: OpenGpuiMeasurementMode,
    measurement_coverage: Option<OpenGpuiMeasurementCoverage>,
}

/// The support level that a mode and its coverage evidence allow.
pub open spec fn support_level(
    mode: OpenGpuiMeasurementMode,
    coverage: Option<OpenGpuiMeasurementCoverage>,
) -> OpenGpuiLayoutPassSupport {
    match mode {
        OpenGpuiMeasurementMode::ProjectionFallback => OpenGpuiLayoutPassSupport::Projection,
        OpenGpuiMeasurementMode::LayoutPass => match coverage {
            None => OpenGpuiLayoutPassSupport::Projection,
            Some(c) => if spec_is_full_layout_pass(c) {
                OpenGpuiLayoutPassSupport::Full
            } else if c.layout_pass_regions > 0 {
                OpenGpuiLayoutPassSupport::Partial
            } else {
                OpenGpuiLayoutPassSupport::Projection
            },
        },
    }
}

/// The capability notes that go with the layout-pass claim.
pub open spec fn support_notes(
    mode: OpenGpuiMeasurementMode,
    coverage: Option<OpenGpuiMeasurementCoverage>,
) -> Seq<char> {
    match mode {
        OpenGpuiMeasurementMode::ProjectionFallback => "fallback projection; not a mature layout-pass measurement claim"@,
        OpenGpuiMeasurementMode::LayoutPass => match coverage {
            Some(c) => coverage_notes(c),
            None => "layout-pass mode without measured-element coverage evidence"@,
        },
    }
}

impl OpenGpuiAdapter {
    pub closed spec fn spec_mode(&self) -> OpenGpuiMeasurementMode {
        self.measurement_mode
    }

    pub closed spec fn spec_coverage(&self) -> Option<OpenGpuiMeasurementCoverage> {
        self.measurement_coverage
    }

    pub fn projection_fallback() -> (adapter: Self)
        ensures
            adapter.spec_mode() == OpenGpuiMeasurementMode::ProjectionFallback,
            adapter.spec_coverage() is None,
    {
        OpenGpuiAdapter { measurement_mode: OpenGpuiMeasurementMode::ProjectionFallback, measurement_coverage: None }
    }

    pub fn layout_pass(coverage: OpenGpuiMeasurementCoverage) -> (adapter: Self)
        ensures
            adapter.spec_mode() == OpenGpuiMeasurementMode::LayoutPass,
            adapter.spec_coverage() == Some(coverage),
    {
        OpenGpuiAdapter { measurement_mode: OpenGpuiMeasurementMode::LayoutPass, measurement_coverage: Some(coverage) }
    }

    pub fn measurement_mode(&self) -> (mode: OpenGpuiMeasurementMode)
        ensures
            mode == self.spec_mode(),
    {
        self.measurement_mode
    }

    pub fn measurement_coverage(&self) -> (coverage: Option<&OpenGpuiMeasurementCoverage>)
        ensures
            match coverage {
                Some(c) => self.spec_coverage() == Some(*c),
                None => self.spec_coverage() is None,
            },
    {
        match &self.measurement_coverage {
            Some(c) => Some(c),
            None => None,
        }
    }

    /// The layout-pass measurement support that the adapter claims.
    pub fn layout_pass_support_level(&self) -> (level: OpenGpuiLayoutPassSupport)
        ensures
            level == support_level(self.spec_mode(), self.spec_coverage()),
    {
        match self.measurement_mode {
            OpenGpuiMeasurementMode::ProjectionFallback => OpenGpuiLayoutPassSupport::Projection,
            OpenGpuiMeasurementMode::LayoutPass => match &self.measurement_coverage {
                None => OpenGpuiLayoutPassSupport::Projection,
                Some(c) => if c.is_full_layout_pass() {
                    OpenGpuiLayoutPassSupport::Full
                } else if c.layout_pass_regions > 0 {
                    OpenGpuiLayoutPassSupport::Partial
                } else {
                    OpenGpuiLayoutPassSupport::Projection
                },
            },
        }
    }

    /// The notes that explain the layout-pass claim.
    pub fn layout_pass_notes(&self) -> (notes: String)
        ensures
            notes@ == support_notes(self.spec_mode(), self.spec_coverage()),
    {
        match self.measurement_mode {
            OpenGpuiMeasurementMode::ProjectionFallback => {
                owned("fallback projection; not a mature layout-pass measurement claim")
            },
            OpenGpuiMeasurementMode::LayoutPass => match &self.measurement_coverage {
                Some(c) => {
                    let mut notes = owned("bounds reported by open-gpui measured elements; layout_pass=");
                    push_str(&mut notes, usize_decimal_string(c.layout_pass_regions).as_str());
                    push_str(&mut notes, ", projection_fallback=");
                    push_str(&mut notes, usize_decimal_string(c.projection_fallback_regions).as_str());
                    push_str(&mut notes, ", missing=");
                    push_str(&mut notes, usize_decimal_string(c.missing_regions).as_str());
                    push_str(&mut notes, ", stale=");
                    push_str(&mut notes, usize_decimal_string(c.stale_regions).as_str());
                    push_str(&mut notes, ", partial=");
                    push_str(&mut notes, usize_decimal_string(c.partial_regions).as_str());
                    push_str(&mut notes, ", duplicate=");
                    push_str(&mut notes, usize_decimal_string(c.duplicate_regions).as_str());
                    notes
                },
                None => owned("layout-pass mode without measured-element coverage evidence"),
            },
        }
    }
}

/// A capability on which an adapter reports its conformance.
#[derive(Debug, Clone, Copy, PartialEq, Eq, Structural)]
pub enum ConformanceCapabilityKind {
    LayoutPassMeasurement,
    ControlProjection,
    RepeatableCollections,
    Actions,
    Menus,
    Inspector,
}

/// One claimed capability: its kind, how far it is supported, and notes.
#[derive(Debug, PartialEq, Eq)]
pub struct ConformanceCapabilityClaim {
    pub kind: ConformanceCapabilityKind,
    pub level: OpenGpuiLayoutPassSupport,
    pub notes: Option<String>,
}

/// The capabilities an adapter claims, in the order it claims them.
#[derive(Debug, PartialEq, Eq)]
pub struct ConformanceCapabilityMatrix {
    pub adapter_id: String,
    pub claims: Vec<ConformanceCapabilityClaim>,
}

/// The capabilities the adapter claims partial support for, after the
/// layout-pass claim, in order.
pub open spec fn partial_capability_kinds() -> Seq<ConformanceCapabilityKind> {
    seq![
        ConformanceCapabilityKind::ControlProjection,
        ConformanceCapabilityKind::RepeatableCollections,
        ConformanceCapabilityKind::Actions,
        ConformanceCapabilityKind::Menus,
        ConformanceCapabilityKind::Inspector,
    ]
}

/// `i` is the first claim of `kind`.
pub open spec fn is_first_claim(claims: Seq<ConformanceCapabilityClaim>, kind: ConformanceCapabilityKind, i: int) -> bool {
    &&& 0 <= i < claims.len()
    &&& claims[i].kind == kind
    &&& forall|j: int| 0 <= j < i ==> #[trigger] claims[j].kind != kind
}

impl ConformanceCapabilityMatrix {
    /// The support level claimed for `kind`, if the matrix claims it.
    pub fn level(&self, kind: ConformanceCapabilityKind) -> (level: Option<OpenGpuiLayoutPassSupport>)
        ensures
            match level {
                Some(l) => exists|i: int| is_first_claim(self.claims@, kind, i) && self.claims@[i].level == l,
                None => forall|j: int| 0 <= j < self.claims@.len() ==> #[trigger] self.claims@[j].kind != kind,
            },
    {
        let mut i: usize = 0;
        while i < self.claims.len()
            invariant
                i <= self.claims@.len(),
                forall|j: int| 0 <= j < i ==> #[trigger] self.claims@[j].kind != kind,
            decreases self.claims.len() - i,
        {
            if self.claims[i].kind == kind {
                assert(is_first_claim(self.claims@, kind, i as int));
                return Some(self.claims[i].level);
            }
            i = i + 1;
        }
        None
    }
}

impl OpenGpuiAdapter {
    /// The adapter's conformance claims: layout-pass measurement at the
    /// level its measurement evidence allows, with notes, then partial
    /// support for control projection, repeatable collections, actions,
    /// menus and the inspector.
    pub fn capability_matrix(&self) -> (matrix: ConformanceCapabilityMatrix)
        ensures
            matrix.adapter_id@ == OPEN_GPUI_ADAPTER_ID@,
            matrix.claims@.len() == 6,
            matrix.claims@[0].kind == ConformanceCapabilityKind::LayoutPassMeasurement,
            matrix.claims@[0].level == support_level(self.spec_mode(), self.spec_coverage()),
            matrix.claims@[0].notes is Some,
            matrix.claims@[0].notes->0@ == support_notes(self.spec_mode(), self.spec_coverage()),
            forall|i: int| 1 <= i < 6 ==> {
                &&& (#[trigger] matrix.claims@[i]).kind == partial_capability_kinds()[i - 1]
                &&& matrix.claims@[i].level == OpenGpuiLayoutPassSupport::Partial
                &&& matrix.claims@[i].notes is None
            },
    {
        let mut claims: Vec<ConformanceCapabilityClaim> = Vec::new();
        claims.push(ConformanceCapabilityClaim {
            kind: ConformanceCapabilityKind::LayoutPassMeasurement,
            level: self.layout_pass_support_level(),
            notes: Some(self.layout_pass_notes()),
        });
        let partial = |kind: ConformanceCapabilityKind| -> (claim: ConformanceCapabilityClaim)
            ensures
                claim.kind == kind,
                claim.level == OpenGpuiLayoutPassSupport::Partial,
                claim.notes is None,
        {
            ConformanceCapabilityClaim { kind, level: OpenGpuiLayoutPassSupport::Partial, notes: None }
        };
        claims.push(partial(ConformanceCapabilityKind::ControlProjection));
        claims.push(partial(ConformanceCapabilityKind::RepeatableCollections));
        claims.push(partial(ConformanceCapabilityKind::Actions));
        claims.push(partial(ConformanceCapabilityKind::Menus));
        claims.push(partial(ConformanceCapabilityKind::Inspector));
        ConformanceCapabilityMatrix { adapter_id: owned(OPEN_GPUI_ADAPTER_ID), claims }
    }
}

impl Default for OpenGpuiAdapter {
    fn default() -> (adapter: Self)
        ensures
            adapter.spec_mode() == OpenGpuiMeasurementMode::ProjectionFallback,
            adapter.spec_coverage() is None,
    {
        Self::projection_fallback()
    }
}

/// A full layout-pass claim is only made in layout-pass mode, with coverage
/// evidence that is itself a full layout pass.
pub proof fn lemma_full_claim_requires_real_bounds(adapter: OpenGpuiAdapter)
    requires
        support_level(adapter.spec_mode(), adapter.spec_coverage()) == OpenGpuiLayoutPassSupport::Full,
    ensures
        adapter.spec_mode() == OpenGpuiMeasurementMode::LayoutPass,
        adapter.spec_coverage() is Some,
        spec_is_full_layout_pass(adapter.spec_coverage()->0),
{
}

/// Check that a full layout-pass claim rests on measured-element coverage.
///
/// Where the adapter claims full support, its mode must be the layout pass
/// and its coverage a full layout pass; the check therefore never fails.
pub fn assert_layout_pass_capability_requires_real_bounds(adapter: &OpenGpuiAdapter) -> (r: Result<(), String>)
    ensures
        r is Ok,
{
    if adapter.layout_pass_support_level() == OpenGpuiLayoutPassSupport::Full {
        if adapter.measurement_mode() != OpenGpuiMeasurementMode::LayoutPass {
            return Err(owned("full layout-pass support requires layout-pass measurement mode"));
        }
        let full = match adapter.measurement_coverage() {
            Some(c) => c.is_full_layout_pass(),
            None => false,
        };
        if !full {
            return Err(owned("full layout-pass support requires measured-element source coverage"));
        }
    }
    Ok(())
}

} // verus!
