//! Dependency-graph package nodes: the shapes an external build-order
//! resolver consumes, the conversions between them, and their routing
//! keys and API projections.  Every conversion renders identifiers
//! through the one canonical formatter, so structurally equal
//! identifiers always come out as byte-identical strings.

use vstd::prelude::*;

use crate::ident::{ident_text, PackageIdent};
use crate::routing::RouteKey;
use crate::strutil::slash_join;

verus! {

/// An origin's package record: a structured identifier, a build target,
/// and the structured identifiers of its dependencies.
#[derive(Debug, Clone)]
pub struct OriginPackage {
    pub ident: PackageIdent,
    pub target: String,
    pub deps: Vec<PackageIdent>,
}

/// A canonical graph node: identifier, target and dependencies, each
/// rendered as a string.
#[derive(Debug, Clone)]
pub struct JobGraphPackage {
    pub ident: String,
    pub target: String,
    pub deps: Vec<String>,
}

/// The persistence-bound shape of a graph node: the same field set as
/// [`JobGraphPackage`], re-derived rather than copied.
#[derive(Debug, Clone)]
pub struct JobGraphPackageCreate {
    pub ident: String,
    pub target: String,
    pub deps: Vec<String>,
}

/// The raw input shape of a graph node: identifier and dependencies
/// still structured, not yet rendered.
#[derive(Debug, Clone)]
pub struct JobGraphPackagePreCreate {
    pub ident: PackageIdent,
    pub target: String,
    pub deps: Vec<PackageIdent>,
}

/// How a graph node relates to the structured fields it was rendered
/// from: the identifier and every dependency in canonical string form,
/// in order, and the target in its string form.
pub open spec fn graph_package_renders(
    ident: PackageIdent,
    target: String,
    deps: Seq<PackageIdent>,
    r: JobGraphPackage,
) -> bool {
    &&& r.ident@ == ident_text(ident)
    &&& r.target@ == target@
    &&& r.deps@.len() == deps.len()
    &&& forall|i: int| 0 <= i < deps.len() ==> (#[trigger] r.deps@[i])@ == ident_text(deps[i])
}

/// How a persistence-bound node relates to the graph node it was
/// re-derived from: every string field independently re-rendered from
/// the source fields, value for value.
pub open spec fn create_rerenders(p: JobGraphPackage, r: JobGraphPackageCreate) -> bool {
    &&& r.ident@ == p.ident@
    &&& r.target@ == p.target@
    &&& r.deps@.len() == p.deps@.len()
    &&& forall|i: int| 0 <= i < p.deps@.len() ==> (#[trigger] r.deps@[i])@ == p.deps@[i]@
}

fn render_deps(deps: &Vec<PackageIdent>) -> (r: Vec<String>)
    ensures
        r@.len() == deps@.len(),
        forall|i: int| 0 <= i < deps@.len() ==> (#[trigger] r@[i])@ == ident_text(deps@[i]),
{
    let mut out: Vec<String> = Vec::new();
    let n = deps.len();
    let mut i: usize = 0;
    while i < n
        invariant
            n == deps@.len(),
            i <= n,
            out@.len() == i,
            forall|j: int| 0 <= j < i ==> (#[trigger] out@[j])@ == ident_text(deps@[j]),
        decreases n - i,
    {
        out.push(deps[i].to_ident_string());
        i += 1;
    }
    out
}

impl JobGraphPackage {
    /// Derives a graph node from an origin package record, rendering the
    /// identifier and each dependency through the canonical formatter.
    pub fn from_origin_package(value: &OriginPackage) -> (r: JobGraphPackage)
        ensures
            graph_package_renders(value.ident, value.target, value.deps@, r),
    {
        JobGraphPackage {
            ident: value.ident.to_ident_string(),
            target: value.target.clone(),
            deps: render_deps(&value.deps),
        }
    }

    /// A graph-package create routes by the package's canonical ident
    /// string.
    pub fn route_key(&self) -> (r: Option<RouteKey>)
        ensures
            r matches Some(key) && key matches RouteKey::Str(text) && text@ == self.ident@,
    {
        Some(RouteKey::Str(self.ident.clone()))
    }
}

impl JobGraphPackageCreate {
    /// Re-derives the persistence-bound shape from a graph node.  The
    /// strings are re-rendered from the node's typed fields, not moved
    /// out of it, so the two shapes stay independently versionable.
    pub fn from_package(value: &JobGraphPackage) -> (r: JobGraphPackageCreate)
        ensures
            create_rerenders(*value, r),
    {
        let mut deps: Vec<String> = Vec::new();
        let n = value.deps.len();
        let mut i: usize = 0;
        while i < n
            invariant
                n == value.deps@.len(),
                i <= n,
                deps@.len() == i,
                forall|j: int| 0 <= j < i ==> (#[trigger] deps@[j])@ == value.deps@[j]@,
            decreases n - i,
        {
            deps.push(value.deps[i].clone());
            i += 1;
        }
        JobGraphPackageCreate { ident: value.ident.clone(), target: value.target.clone(), deps }
    }

    /// A graph-package create routes by the package's canonical ident
    /// string.
    pub fn route_key(&self) -> (r: Option<RouteKey>)
        ensures
            r matches Some(key) && key matches RouteKey::Str(text) && text@ == self.ident@,
    {
        Some(RouteKey::Str(self.ident.clone()))
    }
}

impl JobGraphPackagePreCreate {
    /// Derives a graph node from the raw input shape, with the same
    /// rendering discipline as [`JobGraphPackage::from_origin_package`].
    pub fn into_package(self) -> (r: JobGraphPackage)
        ensures
            graph_package_renders(self.ident, self.target, self.deps@, r),
    {
        JobGraphPackage {
            ident: self.ident.to_ident_string(),
            target: self.target.clone(),
            deps: render_deps(&self.deps),
        }
    }

    /// A graph-package pre-create routes by the package's canonical
    /// ident string.
    pub fn route_key(&self) -> (r: Option<RouteKey>)
        ensures
            r matches Some(key) && key matches RouteKey::Str(text) && text@ == ident_text(
                self.ident,
            ),
    {
        Some(RouteKey::Str(self.ident.to_ident_string()))
    }
}

/// Rendering an origin package into a graph node and re-deriving the
/// persistence-bound shape from that node yields exactly the strings
/// the canonical formatter gives for the source identifier, target and
/// dependencies: the two hops introduce no drift.
pub proof fn lemma_conversion_no_drift(
    value: OriginPackage,
    p: JobGraphPackage,
    c: JobGraphPackageCreate,
)
    requires
        graph_package_renders(value.ident, value.target, value.deps@, p),
        create_rerenders(p, c),
    ensures
        c.ident@ == ident_text(value.ident),
        c.target@ == value.target@,
        c.deps@.len() == value.deps@.len(),
        forall|i: int|
            0 <= i < value.deps@.len() ==> (#[trigger] c.deps@[i])@ == ident_text(value.deps@[i]),
{
}

// ---------------------------------------------------------------------------
// Queries and their API shapes
// ---------------------------------------------------------------------------

/// A request for the package statistics of one origin.
#[derive(Debug, Clone)]
pub struct JobGraphPackageStatsGet {
    pub origin: String,
}

impl JobGraphPackageStatsGet {
    /// A stats fetch routes by the origin string.
    pub fn route_key(&self) -> (r: Option<RouteKey>)
        ensures
            r matches Some(key) && key matches RouteKey::Str(text) && text@ == self.origin@,
    {
        Some(RouteKey::Str(self.origin.clone()))
    }
}

/// Package statistics of one origin: how many plans and builds it has,
/// and how many distinct packages.
#[derive(Debug, Clone, PartialEq, Eq, Structural)]
pub struct JobGraphPackageStats {
    pub plans: u64,
    pub builds: u64,
    pub unique_packages: u64,
}

/// The canonical external rendering of package statistics: the three
/// counts, always present.
#[derive(Debug, Clone, PartialEq, Eq, Structural)]
pub struct JobGraphPackageStatsApi {
    pub plans: u64,
    pub builds: u64,
    pub unique_packages: u64,
}

impl JobGraphPackageStats {
    /// Renders the statistics in their canonical external form.
    pub fn to_api(&self) -> (r: JobGraphPackageStatsApi)
        ensures
            r.plans == self.plans,
            r.builds == self.builds,
            r.unique_packages == self.unique_packages,
    {
        JobGraphPackageStatsApi {
            plans: self.plans,
            builds: self.builds,
            unique_packages: self.unique_packages,
        }
    }
}

/// A request for the reverse dependencies of one package.
#[derive(Debug, Clone)]
pub struct JobGraphPackageReverseDependenciesGet {
    pub origin: String,
    pub name: String,
}

impl JobGraphPackageReverseDependenciesGet {
    /// A reverse-dependency fetch routes by the composite `origin/name`
    /// string.
    pub fn route_key(&self) -> (r: Option<RouteKey>)
        ensures
            r matches Some(key) && key matches RouteKey::Str(text) && text@ == self.origin@
                + "/"@ + self.name@,
    {
        Some(RouteKey::Str(slash_join(self.origin.as_str(), self.name.as_str())))
    }
}

/// The packages that depend on one package, in order.
#[derive(Debug, Clone)]
pub struct JobGraphPackageReverseDependencies {
    pub origin: String,
    pub name: String,
    pub rdeps: Vec<String>,
}

/// The canonical external rendering of a reverse-dependency listing:
/// origin, name, and the ordered dependent identifiers.
#[derive(Debug, Clone)]
pub struct JobGraphPackageReverseDependenciesApi {
    pub origin: String,
    pub name: String,
    pub rdeps: Vec<String>,
}

impl JobGraphPackageReverseDependencies {
    /// Renders the listing in its canonical external form.
    pub fn to_api(&self) -> (r: JobGraphPackageReverseDependenciesApi)
        ensures
            r.origin@ == self.origin@,
            r.name@ == self.name@,
            r.rdeps@.len() == self.rdeps@.len(),
            forall|i: int|
                0 <= i < self.rdeps@.len() ==> (#[trigger] r.rdeps@[i])@ == self.rdeps@[i]@,
    {
        let mut rdeps: Vec<String> = Vec::new();
        let n = self.rdeps.len();
        let mut i: usize = 0;
        while i < n
            invariant
                n == self.rdeps@.len(),
                i <= n,
                rdeps@.len() == i,
                forall|j: int| 0 <= j < i ==> (#[trigger] rdeps@[j])@ == self.rdeps@[j]@,
            decreases n - i,
        {
            rdeps.push(self.rdeps[i].clone());
            i += 1;
        }
        JobGraphPackageReverseDependenciesApi {
            origin: self.origin.clone(),
            name: self.name.clone(),
            rdeps,
        }
    }
}

} // verus!
