//! The manifest-driven strip algorithm: stub every import a manifest names,
//! then remove every export a companion list names, failing fast on the
//! first name that does not match.

use crate::manifest::ImportEntryV;
use crate::manifest::ImportKeyV;
use crate::manifest::ImportManifestEntry;
use crate::manifest::RequirementLevel;
use crate::manifest::StripError;
use crate::manifest::manifest_view;
use crate::manifest::names_view;
use crate::wasm::fid_traps;
use crate::wasm::find_import_func;
use crate::wasm::import_fid_is;
use crate::wasm::module_exports;
use crate::wasm::module_imports;
use crate::wasm::module_ok;
use crate::wasm::remove_export_func;
use crate::wasm::stub_import_func;
use vstd::prelude::*;
use walrus::FunctionId;
use walrus::Module;

verus! {

/// Whether one manifest entry, met while the module's function imports are
/// `imports`, aborts the stub pass: a `Required` entry fails when its key is
/// absent, an `Optional` entry when its key is present (the unimplemented
/// combination).
pub open spec fn entry_fails(imports: Set<ImportKeyV>, e: ImportEntryV) -> bool {
    match e.1 {
        RequirementLevel::Required => !imports.contains(e.0),
        RequirementLevel::Optional => imports.contains(e.0),
    }
}

/// The function imports left after one manifest entry is processed: stubbing
/// a matched `Required` entry deletes its import entry; every other case
/// leaves the import table alone.
pub open spec fn step_import(imports: Set<ImportKeyV>, e: ImportEntryV) -> Set<ImportKeyV> {
    if e.1 == RequirementLevel::Required && imports.contains(e.0) {
        imports.remove(e.0)
    } else {
        imports
    }
}

/// The function imports left after the first `j` manifest entries are
/// processed, in manifest order.
pub open spec fn imports_after(imports: Set<ImportKeyV>, entries: Seq<ImportEntryV>, j: int) -> Set<
    ImportKeyV,
>
    decreases j,
{
    if j <= 0 {
        imports
    } else {
        step_import(imports_after(imports, entries, j - 1), entries[j - 1])
    }
}

/// No entry among the first `j` aborts the stub pass.
pub open spec fn stub_prefix_ok(
    imports: Set<ImportKeyV>,
    entries: Seq<ImportEntryV>,
    j: int,
) -> bool {
    forall|k: int|
        0 <= k < j ==> !entry_fails(#[trigger] imports_after(imports, entries, k), entries[k])
}

/// The whole stub pass runs to completion on a module whose function
/// imports are `imports`.
pub open spec fn stub_ok(imports: Set<ImportKeyV>, entries: Seq<ImportEntryV>) -> bool {
    stub_prefix_ok(imports, entries, entries.len() as int)
}

/// Entry `j` is the first to abort the stub pass.
pub open spec fn stub_fails_at(
    imports: Set<ImportKeyV>,
    entries: Seq<ImportEntryV>,
    j: int,
) -> bool {
    &&& 0 <= j < entries.len()
    &&& stub_prefix_ok(imports, entries, j)
    &&& entry_fails(imports_after(imports, entries, j), entries[j])
}

/// The error owed for an aborting entry: a missing `Required` entry is
/// reported as a missing required import, a matched `Optional` entry as the
/// unsupported requirement level, each naming the entry's own interface and
/// function.
pub open spec fn stub_error_for(e: StripError, entry: ImportEntryV) -> bool {
    match entry.1 {
        RequirementLevel::Required => e matches StripError::MissingRequiredImport {
            interface,
            function,
        } && interface@ == entry.0.0 && function@ == entry.0.1,
        RequirementLevel::Optional => e matches StripError::UnsupportedRequirementLevel {
            interface,
            function,
        } && interface@ == entry.0.0 && function@ == entry.0.1,
    }
}

/// The import `key` of `m0` has been stubbed in `m1`: the function its
/// import entry referred to is now a local body that traps unconditionally,
/// whatever arguments a caller passes.
pub open spec fn stubbed_import(m0: Module, m1: Module, key: ImportKeyV) -> bool {
    exists|fid: FunctionId| #[trigger] import_fid_is(m0, key.0, key.1, fid) && fid_traps(m1, fid)
}

/// Every `Required` entry among the first `j` has been stubbed.
pub open spec fn required_stubbed_upto(
    m0: Module,
    m1: Module,
    entries: Seq<ImportEntryV>,
    j: int,
) -> bool {
    forall|k: int|
        0 <= k < j && (#[trigger] entries[k]).1 == RequirementLevel::Required ==> stubbed_import(
            m0,
            m1,
            entries[k].0,
        )
}

/// What a completed stub pass did to the module: every entry was processed
/// in manifest order, every `Required` entry's import is now a trap, and the
/// import table lost exactly the stubbed keys.
pub open spec fn stub_spec_ok(m0: Module, m1: Module, entries: Seq<ImportEntryV>) -> bool {
    &&& stub_ok(module_imports(m0), entries)
    &&& module_imports(m1) == imports_after(module_imports(m0), entries, entries.len() as int)
    &&& required_stubbed_upto(m0, m1, entries, entries.len() as int)
}

/// What an aborted stub pass did: processing stopped at the first failing
/// entry `j`, the error names that entry, entries before `j` were stubbed as
/// on success, and entries from `j` on were left unprocessed.
pub open spec fn stub_spec_err_at(
    m0: Module,
    m1: Module,
    entries: Seq<ImportEntryV>,
    e: StripError,
    j: int,
) -> bool {
    &&& stub_fails_at(module_imports(m0), entries, j)
    &&& stub_error_for(e, entries[j])
    &&& module_imports(m1) == imports_after(module_imports(m0), entries, j)
    &&& required_stubbed_upto(m0, m1, entries, j)
}

/// An aborted stub pass, at whichever entry failed first.
pub open spec fn stub_spec_err(m0: Module, m1: Module, entries: Seq<ImportEntryV>, e: StripError) -> bool {
    exists|j: int| #[trigger] stub_spec_err_at(m0, m1, entries, e, j)
}

/// Replace the body of every import the manifest requires with an
/// unconditional trap, in manifest order, aborting on the first entry that
/// does not match the module. On success every `Required` import traps; on
/// failure the module keeps the stubs already applied and the entries after
/// the failing one are untouched. The export table is never touched.
pub fn stub_imports(module: &mut Module, manifest: &Vec<ImportManifestEntry>) -> (r: Result<
    (),
    StripError,
>)
    requires
        module_ok(*old(module)),
    ensures
        module_ok(*final (module)),
        module_exports(*final (module)) == module_exports(*old(module)),
        r is Ok <==> stub_ok(module_imports(*old(module)), manifest_view(manifest@)),
        r is Ok ==> stub_spec_ok(*old(module), *final (module), manifest_view(manifest@)),
        r matches Err(e) ==> stub_spec_err(
            *old(module),
            *final (module),
            manifest_view(manifest@),
            e,
        ),
{
    let ghost entries = manifest_view(manifest@);
    let ghost imps0 = module_imports(*old(module));
    let mut i: usize = 0;
    while i < manifest.len()
        invariant
            module_ok(*module),
            0 <= i <= manifest.len(),
            entries == manifest_view(manifest@),
            imps0 == module_imports(*old(module)),
            entries.len() == manifest@.len(),
            module_imports(*module) == imports_after(imps0, entries, i as int),
            module_exports(*module) == module_exports(*old(module)),
            stub_prefix_ok(imps0, entries, i as int),
            required_stubbed_upto(*old(module), *module, entries, i as int),
            forall|i2: Seq<char>, f2: Seq<char>, g: FunctionId|
                module_imports(*module).contains((i2, f2)) ==> #[trigger] import_fid_is(
                    *module,
                    i2,
                    f2,
                    g,
                ) == import_fid_is(*old(module), i2, f2, g),
        decreases manifest.len() - i,
    {
        let entry = &manifest[i];
        let ghost pre = *module;
        match entry.requirement {
            RequirementLevel::Required => {
                match find_import_func(
                    module,
                    entry.func.interface.as_str(),
                    entry.func.function.as_str(),
                ) {
                    Some(fid) => {
                        stub_import_func(
                            module,
                            fid,
                            entry.func.interface.as_str(),
                            entry.func.function.as_str(),
                        );
                        proof {
                            assert(imports_after(imps0, entries, i + 1) == step_import(
                                imports_after(imps0, entries, i as int),
                                entries[i as int],
                            ));
                            assert(import_fid_is(*old(module), entry@.0.0, entry@.0.1, fid));
                            assert(stubbed_import(*old(module), *module, entries[i as int].0));
                            assert forall|k: int|
                                0 <= k < i + 1 && (#[trigger] entries[k]).1
                                    == RequirementLevel::Required implies stubbed_import(
                                *old(module),
                                *module,
                                entries[k].0,
                            ) by {
                                if k < i {
                                    let g = choose|g: FunctionId|
                                        #[trigger] import_fid_is(
                                            *old(module),
                                            entries[k].0.0,
                                            entries[k].0.1,
                                            g,
                                        ) && fid_traps(pre, g);
                                    assert(fid_traps(*module, g));
                                }
                            }
                        }
                        i = i + 1;
                    },
                    None => {
                        let err = StripError::MissingRequiredImport {
                            interface: entry.func.interface.clone(),
                            function: entry.func.function.clone(),
                        };
                        proof {
                            assert(entry_fails(imports_after(imps0, entries, i as int), entries[i as int]));
                            assert(stub_fails_at(imps0, entries, i as int));
                            assert(stub_spec_err_at(*old(module), *module, entries, err, i as int));
                        }
                        return Err(err);
                    },
                }
            },
            RequirementLevel::Optional => {
                match find_import_func(
                    module,
                    entry.func.interface.as_str(),
                    entry.func.function.as_str(),
                ) {
                    Some(_) => {
                        let err = StripError::UnsupportedRequirementLevel {
                            interface: entry.func.interface.clone(),
                            function: entry.func.function.clone(),
                        };
                        proof {
                            assert(entry_fails(imports_after(imps0, entries, i as int), entries[i as int]));
                            assert(stub_fails_at(imps0, entries, i as int));
                            assert(stub_spec_err_at(*old(module), *module, entries, err, i as int));
                        }
                        return Err(err);
                    },
                    None => {
                        proof {
                            assert(imports_after(imps0, entries, i + 1) == step_import(
                                imports_after(imps0, entries, i as int),
                                entries[i as int],
                            ));
                        }
                        i = i + 1;
                    },
                }
            },
        }
    }
    Ok(())
}

/// The exports left after one name of the list is processed: a present name
/// is removed, an absent one (which aborts the pass) leaves the table alone.
pub open spec fn step_export(exports: Set<Seq<char>>, n: Seq<char>) -> Set<Seq<char>> {
    if exports.contains(n) {
        exports.remove(n)
    } else {
        exports
    }
}

/// The exports left after the first `j` names of the list are processed, in
/// list order.
pub open spec fn exports_after(exports: Set<Seq<char>>, names: Seq<Seq<char>>, j: int) -> Set<
    Seq<char>,
>
    decreases j,
{
    if j <= 0 {
        exports
    } else {
        step_export(exports_after(exports, names, j - 1), names[j - 1])
    }
}

/// Each of the first `j` names is present when its turn comes.
pub open spec fn prune_prefix_ok(
    exports: Set<Seq<char>>,
    names: Seq<Seq<char>>,
    j: int,
) -> bool {
    forall|k: int|
        0 <= k < j ==> (#[trigger] exports_after(exports, names, k)).contains(names[k])
}

/// The whole prune pass runs to completion on a module whose exports are
/// `exports`.
pub open spec fn prune_ok(exports: Set<Seq<char>>, names: Seq<Seq<char>>) -> bool {
    prune_prefix_ok(exports, names, names.len() as int)
}

/// Name `j` is the first the prune pass misses.
pub open spec fn prune_fails_at(
    exports: Set<Seq<char>>,
    names: Seq<Seq<char>>,
    j: int,
) -> bool {
    &&& 0 <= j < names.len()
    &&& prune_prefix_ok(exports, names, j)
    &&& !exports_after(exports, names, j).contains(names[j])
}

/// What an aborted prune pass did: processing stopped at the first missing
/// name `j`, the error names it, the names before `j` were removed, and the
/// names from `j` on were left unprocessed.
pub open spec fn prune_spec_err_at(
    m0: Module,
    m1: Module,
    names: Seq<Seq<char>>,
    e: StripError,
    j: int,
) -> bool {
    &&& prune_fails_at(module_exports(m0), names, j)
    &&& e matches StripError::MissingExpectedExport { name } && name@ == names[j]
    &&& module_exports(m1) == exports_after(module_exports(m0), names, j)
}

/// An aborted prune pass, at whichever name was missed first.
pub open spec fn prune_spec_err(m0: Module, m1: Module, names: Seq<Seq<char>>, e: StripError) -> bool {
    exists|j: int| #[trigger] prune_spec_err_at(m0, m1, names, e, j)
}

/// Remove every export binding the list names, in list order, aborting on
/// the first name with no binding. Only the export table is touched: the
/// import table, and every function body, stays as it was.
pub fn prune_exports(module: &mut Module, export_names: &Vec<String>) -> (r: Result<
    (),
    StripError,
>)
    requires
        module_ok(*old(module)),
    ensures
        module_ok(*final (module)),
        module_imports(*final (module)) == module_imports(*old(module)),
        forall|g: FunctionId| #[trigger] fid_traps(*final (module), g) == fid_traps(
            *old(module),
            g,
        ),
        r is Ok <==> prune_ok(module_exports(*old(module)), names_view(export_names@)),
        r is Ok ==> module_exports(*final (module)) == exports_after(
            module_exports(*old(module)),
            names_view(export_names@),
            export_names@.len() as int,
        ),
        r matches Err(e) ==> prune_spec_err(
            *old(module),
            *final (module),
            names_view(export_names@),
            e,
        ),
{
    let ghost names = names_view(export_names@);
    let ghost exps0 = module_exports(*old(module));
    let mut i: usize = 0;
    while i < export_names.len()
        invariant
            module_ok(*module),
            0 <= i <= export_names.len(),
            names == names_view(export_names@),
            exps0 == module_exports(*old(module)),
            names.len() == export_names@.len(),
            module_exports(*module) == exports_after(exps0, names, i as int),
            module_imports(*module) == module_imports(*old(module)),
            prune_prefix_ok(exps0, names, i as int),
            forall|g: FunctionId| #[trigger] fid_traps(*module, g) == fid_traps(*old(module), g),
        decreases export_names.len() - i,
    {
        let name = &export_names[i];
        let ghost pre = *module;
        let removed = remove_export_func(module, name.as_str());
        if removed {
            proof {
                assert(exports_after(exps0, names, i + 1) == step_export(
                    exports_after(exps0, names, i as int),
                    names[i as int],
                ));
                assert forall|g: FunctionId| #[trigger]
                    fid_traps(*module, g) == fid_traps(*old(module), g) by {
                    assert(fid_traps(pre, g) == fid_traps(*old(module), g));
                }
            }
            i = i + 1;
        } else {
            let err = StripError::MissingExpectedExport { name: name.clone() };
            proof {
                assert(prune_fails_at(exps0, names, i as int));
                assert(prune_spec_err_at(*old(module), *module, names, err, i as int));
            }
            return Err(err);
        }
    }
    Ok(())
}

/// Processing manifest entries only ever deletes imports: the import table
/// after more entries is a subset of the table after fewer.
pub proof fn lemma_imports_after_subset(
    imports: Set<ImportKeyV>,
    entries: Seq<ImportEntryV>,
    j1: int,
    j2: int,
)
    requires
        0 <= j1 <= j2,
    ensures
        imports_after(imports, entries, j2).subset_of(imports_after(imports, entries, j1)),
    decreases j2 - j1,
{
    if j1 < j2 {
        lemma_imports_after_subset(imports, entries, j1, j2 - 1);
    }
}

/// Law: a completed stub pass leaves no `Required` entry's key in the
/// import table — the import entry is deleted when its body is replaced by
/// the trap.
pub proof fn lemma_stub_removes_required(
    imports: Set<ImportKeyV>,
    entries: Seq<ImportEntryV>,
    k: int,
)
    requires
        stub_ok(imports, entries),
        0 <= k < entries.len(),
        entries[k].1 == RequirementLevel::Required,
    ensures
        !imports_after(imports, entries, entries.len() as int).contains(entries[k].0),
{
    assert(!entry_fails(imports_after(imports, entries, k), entries[k]));
    assert(imports_after(imports, entries, k + 1) == step_import(
        imports_after(imports, entries, k),
        entries[k],
    ));
    lemma_imports_after_subset(imports, entries, k + 1, entries.len() as int);
}

/// A manifest without `Required` entries never changes the import table.
pub proof fn lemma_stub_optional_identity(
    imports: Set<ImportKeyV>,
    entries: Seq<ImportEntryV>,
    j: int,
)
    requires
        0 <= j <= entries.len(),
        forall|k: int|
            0 <= k < entries.len() ==> (#[trigger] entries[k]).1 != RequirementLevel::Required,
    ensures
        imports_after(imports, entries, j) == imports,
    decreases j,
{
    if j > 0 {
        lemma_stub_optional_identity(imports, entries, j - 1);
    }
}

/// The export table after `j` names is the original minus exactly the first
/// `j` names, whether or not each was present when its turn came.
pub proof fn lemma_exports_after_difference(
    exports: Set<Seq<char>>,
    names: Seq<Seq<char>>,
    j: int,
)
    requires
        0 <= j <= names.len(),
    ensures
        exports_after(exports, names, j) == exports.difference(names.take(j).to_set()),
    decreases j,
{
    if j <= 0 {
        assert(names.take(0).to_set() =~= Set::empty());
        assert(exports.difference(names.take(0).to_set()) =~= exports);
    } else {
        lemma_exports_after_difference(exports, names, j - 1);
        assert forall|a: Seq<char>|
            names.take(j).to_set().contains(a) <==> (names.take(j - 1).to_set().contains(a) || a
                == names[j - 1]) by {
            if names.take(j).contains(a) {
                let i = choose|i: int| 0 <= i < j && #[trigger] names.take(j)[i] == a;
                if i < j - 1 {
                    assert(names.take(j - 1)[i] == a);
                }
            }
            if names.take(j - 1).contains(a) {
                let i = choose|i: int| 0 <= i < j - 1 && #[trigger] names.take(j - 1)[i] == a;
                assert(names.take(j)[i] == a);
            }
            assert(names.take(j)[j - 1] == names[j - 1]);
        }
        assert(exports_after(exports, names, j) =~= exports.difference(names.take(j).to_set()));
    }
}

/// Law: the prune pass removes exactly the named exports — the resulting
/// export set is the original set minus the set of listed names.
pub proof fn lemma_prune_removes_exactly(exports: Set<Seq<char>>, names: Seq<Seq<char>>)
    ensures
        exports_after(exports, names, names.len() as int) == exports.difference(names.to_set()),
{
    lemma_exports_after_difference(exports, names, names.len() as int);
    assert(names.take(names.len() as int) =~= names);
}

/// Law: after a completed prune pass over a non-empty list, running the
/// prune pass again fails at the very first name — its export binding is
/// already gone.
pub proof fn lemma_reprune_fails_first(exports: Set<Seq<char>>, names: Seq<Seq<char>>)
    requires
        prune_ok(exports, names),
        names.len() > 0,
    ensures
        prune_fails_at(exports_after(exports, names, names.len() as int), names, 0),
{
    lemma_prune_removes_exactly(exports, names);
    let exports1 = exports_after(exports, names, names.len() as int);
    assert(exports_after(exports, names, 0).contains(names[0]));
    assert(names.to_set().contains(names[0]));
    assert(!exports1.contains(names[0]));
    assert(exports_after(exports1, names, 0) == exports1);
}

/// Law: a successful strip of a capability family with a non-empty export
/// list is not idempotent — a second run over the same manifests cannot
/// succeed. When the manifest holds a `Required` entry the second stub pass
/// already fails (the import entry was deleted with the stubbing); when it
/// holds none, the second stub pass goes through unchanged and the second
/// prune pass fails at the first name, whose export is already gone.
pub proof fn lemma_strip_twice_fails(
    imports: Set<ImportKeyV>,
    exports: Set<Seq<char>>,
    entries: Seq<ImportEntryV>,
    names: Seq<Seq<char>>,
)
    requires
        stub_ok(imports, entries),
        prune_ok(exports, names),
        names.len() > 0,
    ensures
        !(stub_ok(imports_after(imports, entries, entries.len() as int), entries) && prune_ok(
            exports_after(exports, names, names.len() as int),
            names,
        )),
        (forall|k: int|
            0 <= k < entries.len() ==> (#[trigger] entries[k]).1 != RequirementLevel::Required)
            ==> stub_ok(imports_after(imports, entries, entries.len() as int), entries)
            && prune_fails_at(exports_after(exports, names, names.len() as int), names, 0),
{
    let imports1 = imports_after(imports, entries, entries.len() as int);
    let exports1 = exports_after(exports, names, names.len() as int);
    lemma_reprune_fails_first(exports, names);
    if prune_ok(exports1, names) {
        assert(exports_after(exports1, names, 0).contains(names[0]));
        assert(false);
    }
    if exists|k: int|
        0 <= k < entries.len() && (#[trigger] entries[k]).1 == RequirementLevel::Required {
        let k = choose|k: int|
            0 <= k < entries.len() && (#[trigger] entries[k]).1 == RequirementLevel::Required;
        lemma_stub_removes_required(imports, entries, k);
        if stub_ok(imports1, entries) {
            assert(!entry_fails(imports_after(imports1, entries, k), entries[k]));
            lemma_imports_after_subset(imports1, entries, 0, k);
            assert(imports_after(imports1, entries, 0) == imports1);
            assert(false);
        }
    } else {
        lemma_stub_optional_identity(imports, entries, entries.len() as int);
    }
}

/// Strip one capability family: stub the imports its manifest names, and
/// only when every one of them is stubbed, prune the exports its list
/// names. Stubbing first is load-bearing: once the pass succeeds, any
/// internal caller that still reaches one of those functions traps, whether
/// or not an export path to it was listed. If stubbing fails the export
/// table is never touched, and whichever pass fails leaves the module with
/// the mutations already applied; there is no rollback.
pub fn strip_capability(
    module: &mut Module,
    import_manifest: &Vec<ImportManifestEntry>,
    export_names: &Vec<String>,
) -> (r: Result<(), StripError>)
    requires
        module_ok(*old(module)),
    ensures
        module_ok(*final (module)),
        r is Ok <==> (stub_ok(module_imports(*old(module)), manifest_view(import_manifest@))
            && prune_ok(module_exports(*old(module)), names_view(export_names@))),
        r is Ok ==> stub_spec_ok(*old(module), *final (module), manifest_view(import_manifest@))
            && module_exports(*final (module)) == exports_after(
            module_exports(*old(module)),
            names_view(export_names@),
            export_names@.len() as int,
        ),
        r matches Err(e) ==> if !stub_ok(
            module_imports(*old(module)),
            manifest_view(import_manifest@),
        ) {
            stub_spec_err(*old(module), *final (module), manifest_view(import_manifest@), e)
                && module_exports(*final (module)) == module_exports(*old(module))
        } else {
            stub_spec_ok(*old(module), *final (module), manifest_view(import_manifest@))
                && prune_spec_err(*old(module), *final (module), names_view(export_names@), e)
        },
{
    let ghost entries = manifest_view(import_manifest@);
    match stub_imports(module, import_manifest) {
        Err(e) => Err(e),
        Ok(()) => {
            let ghost mid = *module;
            let ghost names = names_view(export_names@);
            let r = prune_exports(module, export_names);
            proof {
                assert(module_imports(*module) == module_imports(mid));
                if r is Err {
                    let e = r->Err_0;
                    let j = choose|j: int| #[trigger] prune_spec_err_at(mid, *module, names, e, j);
                    assert(prune_spec_err_at(*old(module), *module, names, e, j));
                }
                assert forall|k: int|
                    0 <= k < entries.len() && (#[trigger] entries[k]).1
                        == RequirementLevel::Required implies stubbed_import(
                    *old(module),
                    *module,
                    entries[k].0,
                ) by {
                    let g = choose|g: FunctionId|
                        #[trigger] import_fid_is(*old(module), entries[k].0.0, entries[k].0.1, g)
                            && fid_traps(mid, g);
                    assert(fid_traps(*module, g) == fid_traps(mid, g));
                }
            }
            r
        },
    }
}

} // verus!

