//! The stable product fixture catalog that every gallery report names.

use vstd::prelude::*;


verus! {

/// A builtin product shape that GPUI adapter regression gates must keep covering.
#[derive(Debug, Clone, Copy, PartialEq, Eq, PartialOrd, Ord, Structural)]
pub enum OpenGpuiProductFixtureKind {
    DifyWorkflow,
    ShaderBlueprint,
    ErdTable,
    MindMap,
}

/// Product family covered by one Open GPUI gallery fixture.
#[derive(Debug, Clone, Copy, PartialEq, Eq, PartialOrd, Ord, Structural)]
pub enum OpenGpuiProductFixtureFamily {
    Workflow,
    ShaderGraph,
    Erd,
    MindMap,
}

/// Widget-free catalog entry for one product-shaped Open GPUI gallery fixture.
///
/// The two key lists are sets: each member occurs once, in ascending order.
#[derive(Debug, Clone, PartialEq, Eq)]
pub struct OpenGpuiProductFixtureCase {
    pub id: String,
    pub kind: OpenGpuiProductFixtureKind,
    pub family: OpenGpuiProductFixtureFamily,
    pub kit_key: String,
    pub fixture_key: String,
    pub expected_renderer_keys: Vec<String>,
    pub expected_capabilities: Vec<String>,
}

/// Gallery fixture id of each product kind.
pub open spec fn fixture_id(kind: OpenGpuiProductFixtureKind) -> Seq<char> {
    match kind {
        OpenGpuiProductFixtureKind::DifyWorkflow => "workflow.review"@,
        OpenGpuiProductFixtureKind::ShaderBlueprint => "shader.material_mix"@,
        OpenGpuiProductFixtureKind::ErdTable => "erd.customer_orders"@,
        OpenGpuiProductFixtureKind::MindMap => "mind-map.strategy"@,
    }
}

pub open spec fn fixture_family(kind: OpenGpuiProductFixtureKind) -> OpenGpuiProductFixtureFamily {
    match kind {
        OpenGpuiProductFixtureKind::DifyWorkflow => OpenGpuiProductFixtureFamily::Workflow,
        OpenGpuiProductFixtureKind::ShaderBlueprint => OpenGpuiProductFixtureFamily::ShaderGraph,
        OpenGpuiProductFixtureKind::ErdTable => OpenGpuiProductFixtureFamily::Erd,
        OpenGpuiProductFixtureKind::MindMap => OpenGpuiProductFixtureFamily::MindMap,
    }
}

pub open spec fn fixture_kit_key(kind: OpenGpuiProductFixtureKind) -> Seq<char> {
    match kind {
        OpenGpuiProductFixtureKind::DifyWorkflow => "workflow.automation"@,
        OpenGpuiProductFixtureKind::ShaderBlueprint => "shader.blueprint"@,
        OpenGpuiProductFixtureKind::ErdTable => "erd.table"@,
        OpenGpuiProductFixtureKind::MindMap => "mind-map.knowledge-canvas"@,
    }
}

/// The fixture graph key of each kind is its gallery id.
pub open spec fn fixture_graph_key(kind: OpenGpuiProductFixtureKind) -> Seq<char> {
    fixture_id(kind)
}

/// Renderer keys a product row of each kind may use, ascending.
pub open spec fn fixture_renderer_keys(kind: OpenGpuiProductFixtureKind) -> Seq<Seq<char>> {
    match kind {
        OpenGpuiProductFixtureKind::DifyWorkflow => seq!["decision-card"@],
        OpenGpuiProductFixtureKind::ShaderBlueprint => seq!["shader-card"@],
        OpenGpuiProductFixtureKind::ErdTable => seq!["table-card"@],
        OpenGpuiProductFixtureKind::MindMap => seq!["source-card"@, "topic-card"@],
    }
}

/// Capabilities each fixture is expected to exercise, ascending.
pub open spec fn fixture_capabilities(kind: OpenGpuiProductFixtureKind) -> Seq<Seq<char>> {
    match kind {
        OpenGpuiProductFixtureKind::DifyWorkflow => seq![
            "actions"@, "controls"@, "dropped-wire"@, "inspector"@, "repeatables"@,
        ],
        OpenGpuiProductFixtureKind::ShaderBlueprint => seq![
            "blackboard"@, "controls"@, "dynamic-ports"@, "invalid-hover"@, "repeatables"@,
        ],
        OpenGpuiProductFixtureKind::ErdTable => seq![
            "controls"@, "dynamic-ports"@, "inspector"@, "repeatables"@, "resize"@,
        ],
        OpenGpuiProductFixtureKind::MindMap => seq!["actions"@, "controls"@, "preview"@, "shell"@],
    }
}

/// The text of each string in a vector.
pub open spec fn texts(v: Seq<String>) -> Seq<Seq<char>> {
    v.map_values(|s: String| s@)
}

/// The catalog entry of one kind.
pub open spec fn spec_case_matches(case: OpenGpuiProductFixtureCase, kind: OpenGpuiProductFixtureKind) -> bool {
    &&& case.id@ == fixture_id(kind)
    &&& case.kind == kind
    &&& case.family == fixture_family(kind)
    &&& case.kit_key@ == fixture_kit_key(kind)
    &&& case.fixture_key@ == fixture_graph_key(kind)
    &&& texts(case.expected_renderer_keys@) == fixture_renderer_keys(kind)
    &&& texts(case.expected_capabilities@) == fixture_capabilities(kind)
}

/// The four product kinds, in catalog order.
pub open spec fn catalog_kinds() -> Seq<OpenGpuiProductFixtureKind> {
    seq![
        OpenGpuiProductFixtureKind::DifyWorkflow,
        OpenGpuiProductFixtureKind::ShaderBlueprint,
        OpenGpuiProductFixtureKind::ErdTable,
        OpenGpuiProductFixtureKind::MindMap,
    ]
}

/// The gallery ids of the catalog, in order.
pub open spec fn catalog_ids() -> Seq<Seq<char>> {
    catalog_kinds().map_values(|k: OpenGpuiProductFixtureKind| fixture_id(k))
}

struct ProductFixtureSpec {
    id: &'static str,
    family: OpenGpuiProductFixtureFamily,
    kit_key: &'static str,
    fixture_key: &'static str,
    expected_renderer_keys: Vec<&'static str>,
    expected_capabilities: Vec<&'static str>,
}

impl ProductFixtureSpec {
    fn for_kind(kind: OpenGpuiProductFixtureKind) -> (spec: Self)
        ensures
            spec.id@ == fixture_id(kind),
            spec.family == fixture_family(kind),
            spec.kit_key@ == fixture_kit_key(kind),
            spec.fixture_key@ == fixture_graph_key(kind),
            spec.expected_renderer_keys@.map_values(|s: &str| s@) == fixture_renderer_keys(kind),
            spec.expected_capabilities@.map_values(|s: &str| s@) == fixture_capabilities(kind),
    {
        let spec = match kind {
            OpenGpuiProductFixtureKind::DifyWorkflow => ProductFixtureSpec {
                id: "workflow.review",
                family: OpenGpuiProductFixtureFamily::Workflow,
                kit_key: "workflow.automation",
                fixture_key: "workflow.review",
                expected_renderer_keys: vec!["decision-card"],
                expected_capabilities: vec!["actions", "controls", "dropped-wire", "inspector", "repeatables"],
            },
            OpenGpuiProductFixtureKind::ShaderBlueprint => ProductFixtureSpec {
                id: "shader.material_mix",
                family: OpenGpuiProductFixtureFamily::ShaderGraph,
                kit_key: "shader.blueprint",
                fixture_key: "shader.material_mix",
                expected_renderer_keys: vec!["shader-card"],
                expected_capabilities: vec!["blackboard", "controls", "dynamic-ports", "invalid-hover", "repeatables"],
            },
            OpenGpuiProductFixtureKind::ErdTable => ProductFixtureSpec {
                id: "erd.customer_orders",
                family: OpenGpuiProductFixtureFamily::Erd,
                kit_key: "erd.table",
                fixture_key: "erd.customer_orders",
                expected_renderer_keys: vec!["table-card"],
                expected_capabilities: vec!["controls", "dynamic-ports", "inspector", "repeatables", "resize"],
            },
            OpenGpuiProductFixtureKind::MindMap => ProductFixtureSpec {
                id: "mind-map.strategy",
                family: OpenGpuiProductFixtureFamily::MindMap,
                kit_key: "mind-map.knowledge-canvas",
                fixture_key: "mind-map.strategy",
                expected_renderer_keys: vec!["source-card", "topic-card"],
                expected_capabilities: vec!["actions", "controls", "preview", "shell"],
            },
        };
        assert(spec.expected_renderer_keys@.map_values(|s: &str| s@) =~= fixture_renderer_keys(kind));
        assert(spec.expected_capabilities@.map_values(|s: &str| s@) =~= fixture_capabilities(kind));
        spec
    }
}

fn strings_of(items: &Vec<&'static str>) -> (v: Vec<String>)
    ensures
        texts(v@) == items@.map_values(|s: &str| s@),
{
    let mut v: Vec<String> = Vec::new();
    let mut i: usize = 0;
    while i < items.len()
        invariant
            i <= items@.len(),
            v@.len() == i,
            forall|j: int| 0 <= j < i ==> #[trigger] v@[j]@ == items@[j]@,
        decreases items@.len() - i,
    {
        v.push(crate::text::owned(items[i]));
        i = i + 1;
    }
    assert(texts(v@) =~= items@.map_values(|s: &str| s@));
    v
}

impl OpenGpuiProductFixtureCase {
    pub fn from_kind(kind: OpenGpuiProductFixtureKind) -> (case: Self)
        ensures
            spec_case_matches(case, kind),
    {
        let spec = ProductFixtureSpec::for_kind(kind);
        OpenGpuiProductFixtureCase {
            id: crate::text::owned(spec.id),
            kind,
            family: spec.family,
            kit_key: crate::text::owned(spec.kit_key),
            fixture_key: crate::text::owned(spec.fixture_key),
            expected_renderer_keys: strings_of(&spec.expected_renderer_keys),
            expected_capabilities: strings_of(&spec.expected_capabilities),
        }
    }
}

/// Stable widget-free product fixture catalog used by Open GPUI gallery/report tests.
pub fn product_fixture_catalog() -> (catalog: Vec<OpenGpuiProductFixtureCase>)
    ensures
        catalog@.len() == 4,
        forall|i: int| 0 <= i < 4 ==> spec_case_matches(#[trigger] catalog@[i], catalog_kinds()[i]),
{
    let mut catalog: Vec<OpenGpuiProductFixtureCase> = Vec::new();
    catalog.push(OpenGpuiProductFixtureCase::from_kind(OpenGpuiProductFixtureKind::DifyWorkflow));
    catalog.push(OpenGpuiProductFixtureCase::from_kind(OpenGpuiProductFixtureKind::ShaderBlueprint));
    catalog.push(OpenGpuiProductFixtureCase::from_kind(OpenGpuiProductFixtureKind::ErdTable));
    catalog.push(OpenGpuiProductFixtureCase::from_kind(OpenGpuiProductFixtureKind::MindMap));
    catalog
}

/// The catalog's gallery ids are pairwise distinct.
pub proof fn lemma_catalog_ids_distinct()
    ensures
        forall|i: int, j: int| 0 <= i < j < 4 ==> catalog_ids()[i] != catalog_ids()[j],
{
    reveal_strlit("workflow.review");
    reveal_strlit("shader.material_mix");
    reveal_strlit("erd.customer_orders");
    reveal_strlit("mind-map.strategy");
    assert(catalog_ids()[0][0] == 'w');
    assert(catalog_ids()[1][0] == 's');
    assert(catalog_ids()[2][0] == 'e');
    assert(catalog_ids()[3][0] == 'm');
}

} // verus!
