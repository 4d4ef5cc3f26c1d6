//! The data a capability manifest is made of, and the errors a strip can
//! report.

use vstd::prelude::*;

verus! {

/// How strongly a manifest entry is expected to match an import of the
/// module. Only `Required` has implemented behavior; an `Optional` entry that
/// matches is treated as an internal-consistency fault.
#[derive(Clone, Copy, Debug, PartialEq, Eq, Structural)]
pub enum RequirementLevel {
    Required,
    Optional,
}

/// One import slot, identified by the exact interface string (which embeds a
/// semantic version) and the function's canonical mangled name. Matching is
/// exact: an interface built against another version counts as "capability
/// absent".
#[derive(Clone, Debug)]
pub struct QualifiedFunctionRef {
    pub interface: String,
    pub function: String,
}

impl View for QualifiedFunctionRef {
    type V = (Seq<char>, Seq<char>);

    open spec fn view(&self) -> (Seq<char>, Seq<char>) {
        (self.interface@, self.function@)
    }
}

/// One row of an import manifest: an import slot plus its requirement level.
#[derive(Clone, Debug)]
pub struct ImportManifestEntry {
    pub func: QualifiedFunctionRef,
    pub requirement: RequirementLevel,
}

/// The mathematical shape of an import key: interface and function name.
pub type ImportKeyV = (Seq<char>, Seq<char>);

/// The mathematical shape of one manifest row.
pub type ImportEntryV = (ImportKeyV, RequirementLevel);

impl View for ImportManifestEntry {
    type V = ImportEntryV;

    open spec fn view(&self) -> ImportEntryV {
        (self.func@, self.requirement)
    }
}

/// The first failure a strip ran into; the operation stops there, so at most
/// one error is ever reported.
#[derive(Debug, PartialEq, Eq)]
pub enum StripError {
    /// A `Required` manifest entry has no matching import in the module.
    MissingRequiredImport { interface: String, function: String },
    /// A listed export name is absent from the module's export table.
    MissingExpectedExport { name: String },
    /// An `Optional` manifest entry matched an import; no shipped manifest
    /// produces this case, so it marks a manifest-authoring bug.
    UnsupportedRequirementLevel { interface: String, function: String },
}

/// The views of the manifest rows, in manifest order.
pub open spec fn manifest_view(s: Seq<ImportManifestEntry>) -> Seq<ImportEntryV> {
    s.map_values(|e: ImportManifestEntry| e@)
}

/// The views of the export names, in list order.
pub open spec fn names_view(s: Seq<String>) -> Seq<Seq<char>> {
    s.map_values(|n: String| n@)
}

/// Appending a manifest row appends its view.
pub broadcast proof fn lemma_manifest_view_push(s: Seq<ImportManifestEntry>, e: ImportManifestEntry)
    ensures
        #[trigger] manifest_view(s.push(e)) == manifest_view(s).push(e@),
{
    assert(manifest_view(s.push(e)) =~= manifest_view(s).push(e@));
}

/// Appending an export name appends its view.
pub broadcast proof fn lemma_names_view_push(s: Seq<String>, n: String)
    ensures
        #[trigger] names_view(s.push(n)) == names_view(s).push(n@),
{
    assert(names_view(s.push(n)) =~= names_view(s).push(n@));
}

} // verus!
