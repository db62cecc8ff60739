//! The adapter-local registry of custom node renderers, and how a renderer
//! key resolves against it.

use vstd::prelude::*;
use crate::text::{owned, str_eq};

verus! {

/// Registration metadata for one Open GPUI custom node renderer.
///
/// This type intentionally contains no GPUI element or widget type. Hosts can map a resolved custom
/// renderer key to local GPUI code, while this crate keeps the semantic context and planning helpers.
#[derive(Debug, Clone, PartialEq, Eq)]
pub struct OpenGpuiNodeRendererRegistration {
    pub renderer_key: String,
    pub label: String,
}

impl OpenGpuiNodeRendererRegistration {
    pub fn new(renderer_key: String, label: String) -> (registration: Self)
        ensures
            registration.renderer_key == renderer_key,
            registration.label == label,
    {
        OpenGpuiNodeRendererRegistration { renderer_key, label }
    }

    fn duplicate(&self) -> (copy: Self)
        ensures
            copy.renderer_key@ == self.renderer_key@,
            copy.label@ == self.label@,
    {
        OpenGpuiNodeRendererRegistration {
            renderer_key: owned(self.renderer_key.as_str()),
            label: owned(self.label.as_str()),
        }
    }
}

/// No renderer key occurs twice.
pub open spec fn keys_unique(v: Seq<OpenGpuiNodeRendererRegistration>) -> bool {
    forall|i: int, j: int| #![trigger v[i].renderer_key@, v[j].renderer_key@]
        0 <= i < j < v.len() ==> v[i].renderer_key@ != v[j].renderer_key@
}

/// Some registration has renderer key `k`.
pub open spec fn has_key(v: Seq<OpenGpuiNodeRendererRegistration>, k: Seq<char>) -> bool {
    exists|i: int| 0 <= i < v.len() && #[trigger] v[i].renderer_key@ == k
}

/// The position of a registration with key `k`.
pub open spec fn key_index(v: Seq<OpenGpuiNodeRendererRegistration>, k: Seq<char>) -> int {
    choose|i: int| 0 <= i < v.len() && #[trigger] v[i].renderer_key@ == k
}

/// Registered renderer keys and their labels.
pub open spec fn registrations_map(v: Seq<OpenGpuiNodeRendererRegistration>) -> Map<Seq<char>, Seq<char>> {
    Map::new(|k: Seq<char>| has_key(v, k), |k: Seq<char>| v[key_index(v, k)].label@)
}

/// Adapter-local registry for deciding whether a semantic renderer key has a GPUI host renderer.
///
/// Registering a key again replaces its label.
#[derive(Debug)]
pub struct OpenGpuiNodeRendererRegistry {
    renderers: Vec<OpenGpuiNodeRendererRegistration>,
}

impl View for OpenGpuiNodeRendererRegistry {
    type V = Map<Seq<char>, Seq<char>>;

    closed spec fn view(&self) -> Map<Seq<char>, Seq<char>> {
        registrations_map(self.renderers@)
    }
}

fn find_key(v: &Vec<OpenGpuiNodeRendererRegistration>, key: &str) -> (r: Option<usize>)
    requires
        keys_unique(v@),
    ensures
        match r {
            Some(i) => i < v@.len() && v@[i as int].renderer_key@ == key@ && key_index(v@, key@) == i,
            None => !has_key(v@, key@),
        },
{
    let mut i: usize = 0;
    while i < v.len()
        invariant
            i <= v@.len(),
            keys_unique(v@),
            forall|j: int| 0 <= j < i ==> v@[j].renderer_key@ != key@,
        decreases v.len() - i,
    {
        if str_eq(v[i].renderer_key.as_str(), key) {
            proof {
                assert(has_key(v@, key@));
                let k = key_index(v@, key@);
                if k != i {
                    if k < i {
                        assert(v@[k].renderer_key@ != key@);
                    } else {
                        assert(v@[i as int].renderer_key@ != v@[k].renderer_key@);
                    }
                }
            }
            return Some(i);
        }
        i = i + 1;
    }
    None
}

impl OpenGpuiNodeRendererRegistry {
    #[verifier::type_invariant]
    spec fn wf(self) -> bool {
        keys_unique(self.renderers@)
    }

    pub fn new() -> (registry: Self)
        ensures
            registry@ == Map::<Seq<char>, Seq<char>>::empty(),
    {
        let registry = OpenGpuiNodeRendererRegistry { renderers: Vec::new() };
        assert(registry@ =~= Map::<Seq<char>, Seq<char>>::empty());
        registry
    }

    fn insert_registration(v: &mut Vec<OpenGpuiNodeRendererRegistration>, renderer_key: String, label: String)
        requires
            keys_unique(old(v)@),
        ensures
            keys_unique(final(v)@),
            registrations_map(final(v)@) == registrations_map(old(v)@).insert(renderer_key@, label@),
    {
        let ghost before = v@;
        let ghost k = renderer_key@;
        let ghost l = label@;
        match find_key(v, renderer_key.as_str()) {
            Some(i) => {
                v.set(i, OpenGpuiNodeRendererRegistration::new(renderer_key, label));
                proof {
                    let after = v@;
                    assert forall|a: int, b: int| 0 <= a < b < after.len() implies after[a].renderer_key@ != after[b].renderer_key@ by {
                        if a == i {
                            assert(before[b].renderer_key@ != before[i as int].renderer_key@);
                        } else if b == i {
                            assert(before[a].renderer_key@ != before[i as int].renderer_key@);
                        }
                    }
                    assert forall|q: Seq<char>| has_key(after, q) <==> (has_key(before, q) || q == k) by {
                        if has_key(after, q) {
                            let j = choose|j: int| 0 <= j < after.len() && #[trigger] after[j].renderer_key@ == q;
                            if j != i {
                                assert(before[j].renderer_key@ == q);
                            }
                        }
                        if has_key(before, q) {
                            let j = choose|j: int| 0 <= j < before.len() && #[trigger] before[j].renderer_key@ == q;
                            assert(after[j].renderer_key@ == q);
                        }
                        if q == k {
                            assert(after[i as int].renderer_key@ == q);
                        }
                    }
                    assert forall|q: Seq<char>| has_key(after, q) implies #[trigger] after[key_index(after, q)].label@
                        == registrations_map(before).insert(k, l)[q] by {
                        let j = key_index(after, q);
                        if q == k {
                            if j != i {
                                assert(after[j].renderer_key@ == after[i as int].renderer_key@);
                            }
                        } else {
                            assert(j != i);
                            assert(before[j].renderer_key@ == q);
                            assert(has_key(before, q));
                            let jb = key_index(before, q);
                            if jb != j {
                                assert(before[jb].renderer_key@ == before[j].renderer_key@);
                            }
                        }
                    }
                    assert(registrations_map(after) =~= registrations_map(before).insert(k, l));
                }
            },
            None => {
                v.push(OpenGpuiNodeRendererRegistration::new(renderer_key, label));
                proof {
                    let after = v@;
                    let n = before.len() as int;
                    assert forall|a: int, b: int| 0 <= a < b < after.len() implies after[a].renderer_key@ != after[b].renderer_key@ by {
                        if b == n {
                            assert(!has_key(before, k));
                            assert(before[a].renderer_key@ != k);
                        }
                    }
                    assert forall|q: Seq<char>| has_key(after, q) <==> (has_key(before, q) || q == k) by {
                        if has_key(after, q) {
                            let j = choose|j: int| 0 <= j < after.len() && #[trigger] after[j].renderer_key@ == q;
                            if j != n {
                                assert(before[j].renderer_key@ == q);
                            }
                        }
                        if has_key(before, q) {
                            let j = choose|j: int| 0 <= j < before.len() && #[trigger] before[j].renderer_key@ == q;
                            assert(after[j].renderer_key@ == q);
                        }
                        if q == k {
                            assert(after[n].renderer_key@ == q);
                        }
                    }
                    assert forall|q: Seq<char>| has_key(after, q) implies #[trigger] after[key_index(after, q)].label@
                        == registrations_map(before).insert(k, l)[q] by {
                        let j = key_index(after, q);
                        if q == k {
                            if j != n {
                                assert(before[j].renderer_key@ == k);
                            }
                        } else {
                            assert(j != n);
                            assert(before[j].renderer_key@ == q);
                            assert(has_key(before, q));
                            let jb = key_index(before, q);
                            if jb != j {
                                assert(before[jb].renderer_key@ == before[j].renderer_key@);
                            }
                        }
                    }
                    assert(registrations_map(after) =~= registrations_map(before).insert(k, l));
                }
            },
        }
    }

    /// Registers `renderer_key` with `label`, replacing an earlier label;
    /// gives the registry back for chaining.
    pub fn register(&mut self, renderer_key: String, label: String) -> (registry: &mut Self)
        ensures
            registry@ == old(self)@.insert(renderer_key@, label@),
            final(self)@ == final(registry)@,
    {
        proof {
            use_type_invariant(&*self);
        }
        let mut renderers: Vec<OpenGpuiNodeRendererRegistration> = Vec::new();
        std::mem::swap(&mut renderers, &mut self.renderers);
        Self::insert_registration(&mut renderers, renderer_key, label);
        self.renderers = renderers;
        self
    }

    /// Registers each pair in order, a later pair with the same key winning;
    /// gives the registry back for chaining.
    pub fn register_many(&mut self, renderers: Vec<(String, String)>) -> (registry: &mut Self)
        ensures
            registry@ == registered_all(old(self)@, renderers@, renderers@.len() as int),
            final(self)@ == final(registry)@,
    {
        let mut i: usize = 0;
        let mut remaining = renderers;
        let ghost pairs = remaining@;
        assert(pairs.len() == remaining.len());
        while remaining.len() > 0
            invariant
                i + remaining@.len() == pairs.len(),
                pairs.len() <= usize::MAX,
                remaining@ == pairs.subrange(i as int, pairs.len() as int),
                self@ == registered_all(old(self)@, pairs, i as int),
            decreases remaining@.len(),
        {
            assert(i < pairs.len());
            let (key, label) = remaining.remove(0);
            proof {
                assert(pairs[i as int] == (key, label));
            }
            self.register(key, label);
            proof {
                assert(remaining@ =~= pairs.subrange(i + 1, pairs.len() as int));
            }
            i = i + 1;
        }
        assert(i == pairs.len());
        self
    }

    /// The registry with `renderer_key` registered under `label`.
    pub fn with_renderer(self, renderer_key: String, label: String) -> (registry: Self)
        ensures
            registry@ == self@.insert(renderer_key@, label@),
    {
        let mut registry = self;
        registry.register(renderer_key, label);
        registry
    }

    /// The registry with every pair registered in order.
    pub fn with_renderers(self, renderers: Vec<(String, String)>) -> (registry: Self)
        ensures
            registry@ == registered_all(self@, renderers@, renderers@.len() as int),
    {
        let mut registry = self;
        registry.register_many(renderers);
        registry
    }

    pub fn contains(&self, renderer_key: &str) -> (found: bool)
        ensures
            found == self@.dom().contains(renderer_key@),
    {
        proof {
            use_type_invariant(self);
        }
        find_key(&self.renderers, renderer_key).is_some()
    }

    pub fn registration(&self, renderer_key: &str) -> (found: Option<&OpenGpuiNodeRendererRegistration>)
        ensures
            match found {
                Some(r) => self@.dom().contains(renderer_key@) && r.renderer_key@ == renderer_key@
                    && r.label@ == self@[renderer_key@],
                None => !self@.dom().contains(renderer_key@),
            },
    {
        proof {
            use_type_invariant(self);
        }
        match find_key(&self.renderers, renderer_key) {
            Some(i) => Some(&self.renderers[i]),
            None => None,
        }
    }

    /// Resolves a semantic renderer key: its registration, or a fallback for an unregistered key.
    pub fn resolve(&self, renderer_key: &str) -> (resolution: OpenGpuiNodeRendererResolution)
        ensures
            resolution_matches(self@, renderer_key@, resolution),
    {
        match self.registration(renderer_key) {
            Some(registration) => OpenGpuiNodeRendererResolution::Custom(registration.duplicate()),
            None => OpenGpuiNodeRendererResolution::Fallback(OpenGpuiNodeRendererFallback {
                renderer_key: owned(renderer_key),
                reason: OpenGpuiNodeRendererFallbackReason::UnregisteredRenderer,
            }),
        }
    }

    /// Where a render of `renderer_key` comes from, given the renderer keys
    /// the host has a renderer for: the registered custom renderer when the
    /// host has one, a fallback for a registered key without a host renderer,
    /// and a fallback for an unregistered key.
    pub fn render_source(&self, renderer_key: &str, host_renderer_keys: &Vec<String>) -> (source: OpenGpuiNodeRendererOutputSource)
        ensures
            render_source_matches(self@, renderer_key@, crate::sets::string_set(host_renderer_keys@), source),
    {
        match self.resolve(renderer_key) {
            OpenGpuiNodeRendererResolution::Custom(registration) => {
                if crate::sets::strings_contain(host_renderer_keys, registration.renderer_key.as_str()) {
                    OpenGpuiNodeRendererOutputSource::Custom(registration)
                } else {
                    OpenGpuiNodeRendererOutputSource::Fallback(OpenGpuiNodeRendererFallback {
                        renderer_key: registration.renderer_key,
                        reason: OpenGpuiNodeRendererFallbackReason::MissingHostRenderer,
                    })
                }
            },
            OpenGpuiNodeRendererResolution::Fallback(fallback) => OpenGpuiNodeRendererOutputSource::Fallback(fallback),
        }
    }
}

impl Clone for OpenGpuiNodeRendererRegistry {
    fn clone(&self) -> (copy: Self)
        ensures
            copy@ == self@,
    {
        proof {
            use_type_invariant(self);
        }
        let mut renderers: Vec<OpenGpuiNodeRendererRegistration> = Vec::new();
        let mut i: usize = 0;
        while i < self.renderers.len()
            invariant
                i <= self.renderers@.len(),
                renderers@.len() == i,
                forall|j: int| 0 <= j < i ==> #[trigger] renderers@[j].renderer_key@ == self.renderers@[j].renderer_key@
                    && renderers@[j].label@ == self.renderers@[j].label@,
            decreases self.renderers.len() - i,
        {
            renderers.push(self.renderers[i].duplicate());
            i = i + 1;
        }
        proof {
            let a = renderers@;
            let b = self.renderers@;
            assert(keys_unique(b));
            assert forall|x: int, y: int| 0 <= x < y < a.len() implies a[x].renderer_key@ != a[y].renderer_key@ by {
                assert(a[x].renderer_key@ == b[x].renderer_key@);
                assert(a[y].renderer_key@ == b[y].renderer_key@);
            }
            assert forall|q: Seq<char>| has_key(a, q) <==> has_key(b, q) by {
                if has_key(a, q) {
                    let j = choose|j: int| 0 <= j < a.len() && #[trigger] a[j].renderer_key@ == q;
                    assert(b[j].renderer_key@ == q);
                }
                if has_key(b, q) {
                    let j = choose|j: int| 0 <= j < b.len() && #[trigger] b[j].renderer_key@ == q;
                    assert(a[j].renderer_key@ == q);
                }
            }
            assert forall|q: Seq<char>| has_key(a, q) implies #[trigger] a[key_index(a, q)].label@ == b[key_index(b, q)].label@ by {
                let ja = key_index(a, q);
                let jb = key_index(b, q);
                assert(b[ja].renderer_key@ == q);
                if ja != jb {
                    if ja < jb {
                        assert(b[ja].renderer_key@ != b[jb].renderer_key@);
                    } else {
                        assert(b[jb].renderer_key@ != b[ja].renderer_key@);
                    }
                }
            }
            assert(registrations_map(a) =~= registrations_map(b));
        }
        OpenGpuiNodeRendererRegistry { renderers }
    }
}

impl Default for OpenGpuiNodeRendererRegistry {
    fn default() -> (registry: Self)
        ensures
            registry@ == Map::<Seq<char>, Seq<char>>::empty(),
    {
        Self::new()
    }
}

/// `m` after registering the first `k` pairs in order.
pub open spec fn registered_all(m: Map<Seq<char>, Seq<char>>, pairs: Seq<(String, String)>, k: int) -> Map<Seq<char>, Seq<char>>
    decreases k,
{
    if k <= 0 {
        m
    } else {
        registered_all(m, pairs, k - 1).insert(pairs[k - 1].0@, pairs[k - 1].1@)
    }
}

/// Result of resolving a semantic renderer key against the adapter-local registry.
#[derive(Debug, Clone, PartialEq, Eq)]
pub enum OpenGpuiNodeRendererResolution {
    Custom(OpenGpuiNodeRendererRegistration),
    Fallback(OpenGpuiNodeRendererFallback),
}

/// A resolution is the registration of a registered key, or an
/// unregistered-renderer fallback for the key.
pub open spec fn resolution_matches(
    m: Map<Seq<char>, Seq<char>>,
    key: Seq<char>,
    resolution: OpenGpuiNodeRendererResolution,
) -> bool {
    if m.dom().contains(key) {
        resolution matches OpenGpuiNodeRendererResolution::Custom(r) && r.renderer_key@ == key && r.label@ == m[key]
    } else {
        resolution matches OpenGpuiNodeRendererResolution::Fallback(f) && f.renderer_key@ == key
            && f.reason == OpenGpuiNodeRendererFallbackReason::UnregisteredRenderer
    }
}

impl OpenGpuiNodeRendererResolution {
    pub fn is_custom(&self) -> (custom: bool)
        ensures
            custom == (self is Custom),
    {
        match self {
            OpenGpuiNodeRendererResolution::Custom(_) => true,
            OpenGpuiNodeRendererResolution::Fallback(_) => false,
        }
    }
}

#[derive(Debug, Clone, PartialEq, Eq)]
pub struct OpenGpuiNodeRendererFallback {
    pub renderer_key: String,
    pub reason: OpenGpuiNodeRendererFallbackReason,
}

#[derive(Debug, Clone, Copy, PartialEq, Eq, Structural)]
pub enum OpenGpuiNodeRendererFallbackReason {
    UnregisteredRenderer,
    MissingHostRenderer,
}

#[derive(Debug)]
pub struct OpenGpuiNodeRendererOutput<Output> {
    pub output: Output,
    pub source: OpenGpuiNodeRendererOutputSource,
}

#[derive(Debug, Clone, PartialEq, Eq)]
pub enum OpenGpuiNodeRendererOutputSource {
    Custom(OpenGpuiNodeRendererRegistration),
    Fallback(OpenGpuiNodeRendererFallback),
}

/// The source that a render of `key` takes, given the registry and the host's renderer keys.
pub open spec fn render_source_matches(
    m: Map<Seq<char>, Seq<char>>,
    key: Seq<char>,
    host_keys: Set<Seq<char>>,
    source: OpenGpuiNodeRendererOutputSource,
) -> bool {
    if m.dom().contains(key) && host_keys.contains(key) {
        source matches OpenGpuiNodeRendererOutputSource::Custom(r) && r.renderer_key@ == key && r.label@ == m[key]
    } else if m.dom().contains(key) {
        source matches OpenGpuiNodeRendererOutputSource::Fallback(f) && f.renderer_key@ == key
            && f.reason == OpenGpuiNodeRendererFallbackReason::MissingHostRenderer
    } else {
        source matches OpenGpuiNodeRendererOutputSource::Fallback(f) && f.renderer_key@ == key
            && f.reason == OpenGpuiNodeRendererFallbackReason::UnregisteredRenderer
    }
}

/// Renderer-neutral state that host-side GPUI node renderers commonly need.
#[derive(Debug, Clone, Copy, PartialEq, Eq, Default, Structural)]
pub struct OpenGpuiNodeRendererState {
    pub selected: bool,
    pub hovered: bool,
    pub focused: bool,
    pub dragging: bool,
    pub resizing: bool,
    pub disabled: bool,
    pub hidden: bool,
}

/// A key registered last resolves to its registration, whatever was
/// registered before; every other key resolves as it did before.
pub proof fn lemma_register_then_resolve(m: Map<Seq<char>, Seq<char>>, key: Seq<char>, label: Seq<char>, other: Seq<char>)
    requires
        other != key,
    ensures
        m.insert(key, label).dom().contains(key),
        m.insert(key, label)[key] == label,
        m.insert(key, label).dom().contains(other) == m.dom().contains(other),
        m.dom().contains(other) ==> m.insert(key, label)[other] == m[other],
{
}

} // verus!
