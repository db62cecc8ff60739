//! Widget-free style budgets and graph affordance evidence for product
//! surfaces.
//!
//! Budgets are whole logical pixels: every budget the adapter defines is a
//! whole number, and reports only ever carry the rounded integer form.

use vstd::prelude::*;
use crate::text::str_eq;

verus! {

/// Quantized logical size used in serializable adapter reports.
#[derive(Debug, Clone, Copy, PartialEq, Eq, PartialOrd, Ord, Structural)]
pub struct OpenGpuiSizeEvidence {
    pub width: u32,
    pub height: u32,
}

impl OpenGpuiSizeEvidence {
    /// Whether this size is at least `minimum` in both dimensions.
    pub fn contains(self, minimum: Self) -> (fits: bool)
        ensures
            fits == (self.width >= minimum.width && self.height >= minimum.height),
    {
        self.width >= minimum.width && self.height >= minimum.height
    }
}

/// Adapter-local style budget for product graph affordances, in whole
/// logical pixels.
#[derive(Debug, Clone, Copy, PartialEq, Eq, Structural)]
pub struct OpenGpuiSurfaceStyleBudget {
    pub handle_radius: u32,
    pub handle_hit_width: u32,
    pub edge_stroke_width: u32,
    pub edge_hit_width: u32,
    pub row_height: u32,
    pub control_row_height: u32,
    pub repeatable_row_height: u32,
}

/// Integer style facts exposed in host reports.
#[derive(Debug, Clone, Copy, PartialEq, Eq, PartialOrd, Ord, Structural)]
pub struct OpenGpuiStyleBudgetEvidence {
    pub handle_radius: u32,
    pub handle_hit_width: u32,
    pub edge_stroke_width: u32,
    pub edge_hit_width: u32,
    pub row_height: u32,
    pub control_row_height: u32,
    pub repeatable_row_height: u32,
}

/// The budget every renderer starts from.
pub open spec fn default_style_budget() -> OpenGpuiSurfaceStyleBudget {
    OpenGpuiSurfaceStyleBudget {
        handle_radius: 5,
        handle_hit_width: 22,
        edge_stroke_width: 2,
        edge_hit_width: 18,
        row_height: 26,
        control_row_height: 34,
        repeatable_row_height: 34,
    }
}

/// The budget of a renderer key: the default, with the product cards'
/// overrides.
pub open spec fn style_budget_for_key(key: Seq<char>) -> OpenGpuiSurfaceStyleBudget {
    let d = default_style_budget();
    if key == "shader-card"@ {
        OpenGpuiSurfaceStyleBudget { handle_radius: 6, handle_hit_width: 24, edge_hit_width: 24, ..d }
    } else if key == "table-card"@ {
        OpenGpuiSurfaceStyleBudget { row_height: 30, handle_hit_width: 24, ..d }
    } else if key == "topic-card"@ || key == "source-card"@ {
        OpenGpuiSurfaceStyleBudget { edge_hit_width: 20, control_row_height: 32, ..d }
    } else {
        d
    }
}

impl OpenGpuiSurfaceStyleBudget {
    pub fn default_budget() -> (budget: Self)
        ensures
            budget == default_style_budget(),
    {
        OpenGpuiSurfaceStyleBudget {
            handle_radius: 5,
            handle_hit_width: 22,
            edge_stroke_width: 2,
            edge_hit_width: 18,
            row_height: 26,
            control_row_height: 34,
            repeatable_row_height: 34,
        }
    }

    pub fn for_renderer_key(renderer_key: &str) -> (budget: Self)
        ensures
            budget == style_budget_for_key(renderer_key@),
    {
        let mut budget = Self::default_budget();
        if str_eq(renderer_key, "shader-card") {
            budget.handle_radius = 6;
            budget.handle_hit_width = 24;
            budget.edge_hit_width = 24;
        } else if str_eq(renderer_key, "table-card") {
            budget.row_height = 30;
            budget.handle_hit_width = 24;
        } else if str_eq(renderer_key, "topic-card") || str_eq(renderer_key, "source-card") {
            budget.edge_hit_width = 20;
            budget.control_row_height = 32;
        }
        budget
    }

    /// The report form of this budget: the same numbers.
    pub fn evidence(self) -> (evidence: OpenGpuiStyleBudgetEvidence)
        ensures
            evidence.handle_radius == self.handle_radius,
            evidence.handle_hit_width == self.handle_hit_width,
            evidence.edge_stroke_width == self.edge_stroke_width,
            evidence.edge_hit_width == self.edge_hit_width,
            evidence.row_height == self.row_height,
            evidence.control_row_height == self.control_row_height,
            evidence.repeatable_row_height == self.repeatable_row_height,
    {
        OpenGpuiStyleBudgetEvidence {
            handle_radius: self.handle_radius,
            handle_hit_width: self.handle_hit_width,
            edge_stroke_width: self.edge_stroke_width,
            edge_hit_width: self.edge_hit_width,
            row_height: self.row_height,
            control_row_height: self.control_row_height,
            repeatable_row_height: self.repeatable_row_height,
        }
    }
}

/// Widget-free budgets for host-local component fit evidence.
#[derive(Debug, Clone, Copy, PartialEq, Eq, Structural)]
pub struct OpenGpuiComponentFitBudget {
    pub content_horizontal_padding: u32,
    pub text_region_height: u32,
    pub control_region_height: u32,
    pub full_text_line_budget: usize,
    pub compact_text_line_budget: usize,
}

pub open spec fn spec_max(a: int, b: int) -> int {
    if a >= b { a } else { b }
}

pub open spec fn spec_min(a: int, b: int) -> int {
    if a <= b { a } else { b }
}

/// Lines for full text: the slot budget (two when unset), at least one.
pub open spec fn full_line_budget(slot_line_budget: Option<usize>) -> int {
    spec_max(
        match slot_line_budget {
            Some(n) => n as int,
            None => 2,
        },
        1,
    )
}

/// Lines for compact text: the control budget, else the slot budget, else
/// one; at least one and at most the full budget.
pub open spec fn compact_line_budget(slot_line_budget: Option<usize>, control_line_budget: Option<usize>) -> int {
    let raw = match control_line_budget {
        Some(n) => n as int,
        None => match slot_line_budget {
            Some(n) => n as int,
            None => 1,
        },
    };
    spec_min(spec_max(raw, 1), full_line_budget(slot_line_budget))
}

impl OpenGpuiComponentFitBudget {
    pub fn for_renderer_key(
        renderer_key: &str,
        style: OpenGpuiSurfaceStyleBudget,
        slot_line_budget: Option<usize>,
        control_line_budget: Option<usize>,
    ) -> (budget: Self)
        ensures
            budget.content_horizontal_padding == 20,
            budget.full_text_line_budget == full_line_budget(slot_line_budget),
            budget.compact_text_line_budget == compact_line_budget(slot_line_budget, control_line_budget),
            budget.text_region_height == if renderer_key@ == "source-card"@ {
                spec_max(spec_max(style.control_row_height as int, 1), 40)
            } else {
                spec_max(style.control_row_height as int, 1)
            },
            budget.control_region_height == if renderer_key@ == "shader-card"@ || renderer_key@ == "table-card"@ {
                spec_max(spec_max(style.control_row_height as int, 1), 34)
            } else {
                spec_max(style.control_row_height as int, 1)
            },
    {
        let full_text_line_budget = match slot_line_budget {
            Some(n) => if n >= 1 { n } else { 1 },
            None => 2,
        };
        let raw = match control_line_budget {
            Some(n) => n,
            None => match slot_line_budget {
                Some(n) => n,
                None => 1,
            },
        };
        let raw = if raw >= 1 { raw } else { 1 };
        let compact_text_line_budget = if raw <= full_text_line_budget { raw } else { full_text_line_budget };
        let row = if style.control_row_height >= 1 { style.control_row_height } else { 1 };
        let mut budget = OpenGpuiComponentFitBudget {
            content_horizontal_padding: 20,
            text_region_height: row,
            control_region_height: row,
            full_text_line_budget,
            compact_text_line_budget,
        };
        proof {
            reveal_strlit("source-card");
            reveal_strlit("shader-card");
            reveal_strlit("table-card");
            assert("source-card"@[1] != "shader-card"@[1]);
            assert("source-card"@[0] != "table-card"@[0]);
        }
        if str_eq(renderer_key, "source-card") {
            if budget.text_region_height < 40 {
                budget.text_region_height = 40;
            }
        } else if str_eq(renderer_key, "shader-card") || str_eq(renderer_key, "table-card") {
            if budget.control_region_height < 34 {
                budget.control_region_height = 34;
            }
        }
        budget
    }
}

/// Serializable route family evidence for product graph affordances.
#[derive(Debug, Clone, Copy, PartialEq, Eq, PartialOrd, Ord, Structural)]
pub enum OpenGpuiWireRouteEvidence {
    Straight,
    Orthogonal,
    Bezier,
}

/// Serializable preview policy evidence for in-progress connections.
#[derive(Debug, Clone, Copy, PartialEq, Eq, PartialOrd, Ord, Structural)]
pub enum OpenGpuiConnectionPreviewPolicyEvidence {
    DirectLineFallback,
    MirrorsCommittedRoute,
}

/// Widget-free evidence that a host exposes graph affordances with product budgets.
#[derive(Debug, Clone, Copy, PartialEq, Eq, Structural)]
pub struct OpenGpuiGraphAffordanceEvidence {
    pub committed_wire_route: OpenGpuiWireRouteEvidence,
    pub connection_preview_policy: OpenGpuiConnectionPreviewPolicyEvidence,
    pub port_placement_budget: u32,
    pub endpoint_hit_budget: u32,
    pub reconnect_affordance_budget: u32,
    pub drag_region_count: usize,
    pub readable_layout_region_count: usize,
}

/// Committed wires route with a product shape and previews mirror them.
pub open spec fn spec_has_product_route_policy(e: OpenGpuiGraphAffordanceEvidence) -> bool {
    e.committed_wire_route != OpenGpuiWireRouteEvidence::Straight
        && e.connection_preview_policy == OpenGpuiConnectionPreviewPolicyEvidence::MirrorsCommittedRoute
}

/// Ports, endpoints and reconnect handles meet the product hit budgets.
pub open spec fn spec_has_product_hit_budgets(e: OpenGpuiGraphAffordanceEvidence) -> bool {
    e.port_placement_budget >= 12 && e.endpoint_hit_budget >= 20 && e.reconnect_affordance_budget >= 18
}

/// At least one drag region and one readable layout region.
pub open spec fn spec_has_layout_region_evidence(e: OpenGpuiGraphAffordanceEvidence) -> bool {
    e.drag_region_count > 0 && e.readable_layout_region_count > 0
}

/// The evidence a renderer key produces from a style budget.
pub open spec fn affordance_for_key(key: Seq<char>, style: OpenGpuiSurfaceStyleBudget) -> OpenGpuiGraphAffordanceEvidence {
    let base = OpenGpuiGraphAffordanceEvidence {
        committed_wire_route: OpenGpuiWireRouteEvidence::Orthogonal,
        connection_preview_policy: OpenGpuiConnectionPreviewPolicyEvidence::MirrorsCommittedRoute,
        port_placement_budget: 12,
        endpoint_hit_budget: style.handle_hit_width,
        reconnect_affordance_budget: spec_max(style.edge_hit_width as int, style.handle_hit_width as int) as u32,
        drag_region_count: 1,
        readable_layout_region_count: 3,
    };
    if key == "shader-card"@ {
        OpenGpuiGraphAffordanceEvidence {
            committed_wire_route: OpenGpuiWireRouteEvidence::Bezier,
            port_placement_budget: 16,
            drag_region_count: 2,
            readable_layout_region_count: 5,
            ..base
        }
    } else if key == "table-card"@ {
        OpenGpuiGraphAffordanceEvidence { port_placement_budget: 14, readable_layout_region_count: 6, ..base }
    } else if key == "topic-card"@ || key == "source-card"@ {
        OpenGpuiGraphAffordanceEvidence { drag_region_count: 2, readable_layout_region_count: 4, ..base }
    } else {
        base
    }
}

impl OpenGpuiGraphAffordanceEvidence {
    pub fn for_renderer_key(renderer_key: &str, style: OpenGpuiSurfaceStyleBudget) -> (evidence: Self)
        ensures
            evidence == affordance_for_key(renderer_key@, style),
    {
        let style = style.evidence();
        let reconnect = if style.edge_hit_width >= style.handle_hit_width {
            style.edge_hit_width
        } else {
            style.handle_hit_width
        };
        let mut evidence = OpenGpuiGraphAffordanceEvidence {
            committed_wire_route: OpenGpuiWireRouteEvidence::Orthogonal,
            connection_preview_policy: OpenGpuiConnectionPreviewPolicyEvidence::MirrorsCommittedRoute,
            port_placement_budget: 12,
            endpoint_hit_budget: style.handle_hit_width,
            reconnect_affordance_budget: reconnect,
            drag_region_count: 1,
            readable_layout_region_count: 3,
        };
        if str_eq(renderer_key, "shader-card") {
            evidence.committed_wire_route = OpenGpuiWireRouteEvidence::Bezier;
            evidence.port_placement_budget = 16;
            evidence.drag_region_count = 2;
            evidence.readable_layout_region_count = 5;
        } else if str_eq(renderer_key, "table-card") {
            evidence.port_placement_budget = 14;
            evidence.readable_layout_region_count = 6;
        } else if str_eq(renderer_key, "topic-card") || str_eq(renderer_key, "source-card") {
            evidence.drag_region_count = 2;
            evidence.readable_layout_region_count = 4;
        }
        evidence
    }

    pub fn has_product_route_policy(self) -> (ok: bool)
        ensures
            ok == spec_has_product_route_policy(self),
    {
        self.committed_wire_route != OpenGpuiWireRouteEvidence::Straight
            && self.connection_preview_policy == OpenGpuiConnectionPreviewPolicyEvidence::MirrorsCommittedRoute
    }

    pub fn has_product_hit_budgets(self) -> (ok: bool)
        ensures
            ok == spec_has_product_hit_budgets(self),
    {
        self.port_placement_budget >= 12 && self.endpoint_hit_budget >= 20
            && self.reconnect_affordance_budget >= 18
    }

    pub fn has_layout_region_evidence(self) -> (ok: bool)
        ensures
            ok == spec_has_layout_region_evidence(self),
    {
        self.drag_region_count > 0 && self.readable_layout_region_count > 0
    }
}

/// Every renderer key, with its own style budget, yields evidence that meets
/// all three product affordance gates.
pub proof fn lemma_product_affordance_for_every_key(key: Seq<char>)
    ensures
        spec_has_product_route_policy(affordance_for_key(key, style_budget_for_key(key))),
        spec_has_product_hit_budgets(affordance_for_key(key, style_budget_for_key(key))),
        spec_has_layout_region_evidence(affordance_for_key(key, style_budget_for_key(key))),
{
}

/// Content density modes a node kit switches between by zoom.
#[derive(Debug, Clone, Copy, PartialEq, Eq, Structural)]
pub enum NodeKitContentDensity {
    Compact,
    Regular,
    Full,
}

pub open spec fn density_label(density: NodeKitContentDensity) -> Seq<char> {
    match density {
        NodeKitContentDensity::Compact => "compact"@,
        NodeKitContentDensity::Regular => "regular"@,
        NodeKitContentDensity::Full => "full"@,
    }
}

/// The report label of a density mode.
pub fn density_name(density: NodeKitContentDensity) -> (name: &'static str)
    ensures
        name@ == density_label(density),
{
    match density {
        NodeKitContentDensity::Compact => "compact",
        NodeKitContentDensity::Regular => "regular",
        NodeKitContentDensity::Full => "full",
    }
}

/// The labels of a density priority list, in order.
pub fn density_priority_labels(density_priority: &Vec<NodeKitContentDensity>) -> (labels: Vec<&'static str>)
    ensures
        labels@.len() == density_priority@.len(),
        forall|i: int| 0 <= i < labels@.len() ==> #[trigger] labels@[i]@ == density_label(density_priority@[i]),
{
    let mut labels: Vec<&'static str> = Vec::new();
    let mut i: usize = 0;
    while i < density_priority.len()
        invariant
            i <= density_priority@.len(),
            labels@.len() == i,
            forall|j: int| 0 <= j < i ==> #[trigger] labels@[j]@ == density_label(density_priority@[j]),
        decreases density_priority@.len() - i,
    {
        labels.push(density_name(density_priority[i]));
        i = i + 1;
    }
    labels
}

} // verus!
