//! The boundary to the module binary representation, which the `walrus`
//! crate owns. Everything the strip logic knows of a `walrus::Module` it
//! knows through the names and contracts in this file; the rest of the crate
//! is verified against them.
//!
//! The model: a module's function imports are a set of `(interface,
//! function)` keys, its exports a set of names. Replacing an import with a
//! trap removes the import entry (the function itself stays, under the same
//! id, as a local body that traps), and removing an export deletes only the
//! export binding.

use vstd::prelude::*;
use walrus::FunctionId;
use walrus::Module;

verus! {

#[verifier::external_type_specification]
#[verifier::external_body]
pub struct ExModule(Module);

#[verifier::external_type_specification]
#[verifier::external_body]
pub struct ExFunction(walrus::Function);

#[verifier::external_type_specification]
#[verifier::external_body]
#[verifier::reject_recursive_types(T)]
pub struct ExId<T>(id_arena::Id<T>);

/// The `(module, name)` keys under which `m`'s import table lists a function
/// import; exactly the keys `walrus::ModuleImports::get_func` finds.
pub uninterp spec fn module_imports(m: Module) -> Set<(Seq<char>, Seq<char>)>;

/// The names in `m`'s export table; exactly the names
/// `walrus::ModuleExports::remove` finds.
pub uninterp spec fn module_exports(m: Module) -> Set<Seq<char>>;

/// The consistent state that `walrus`'s own parser and builder methods keep
/// a module's tables in, as far as the contracts below lean on it: distinct
/// function imports refer to distinct function ids, a function import's
/// target function records that it is imported, function imports carry
/// pairwise distinct `(module, name)` keys, and export names are pairwise
/// distinct. A module parsed from a valid binary (which names each export
/// once) without duplicate function imports satisfies this, and the
/// operations below preserve it.
pub uninterp spec fn module_ok(m: Module) -> bool;

/// Holds when `m`'s import table lists the function import `(interface,
/// function)` and that entry's target is the function `fid`.
pub uninterp spec fn import_fid_is(
    m: Module,
    interface: Seq<char>,
    function: Seq<char>,
    fid: FunctionId,
) -> bool;

/// Holds when `m`'s function `fid` is a local function whose body is a
/// single unconditional-trap instruction: any call of it, with any
/// arguments, aborts the calling context before reading a parameter or
/// producing a value.
pub uninterp spec fn fid_traps(m: Module, fid: FunctionId) -> bool;

/// Relies on `walrus::ModuleImports::get_func`: searches the import table
/// for a function import whose module and name strings equal the given pair
/// exactly, and returns its function id; `Err` exactly when no function
/// import carries that key.
#[verifier::external_body]
pub(crate) fn find_import_func(m: &Module, interface: &str, function: &str) -> (r: Option<
    FunctionId,
>)
    requires
        module_ok(*m),
    ensures
        r is Some <==> module_imports(*m).contains((interface@, function@)),
        r matches Some(fid) ==> import_fid_is(*m, interface@, function@, fid),
{
    m.imports.get_func(interface, function).ok()
}

/// Relies on `walrus::Module::replace_imported_func`, with a builder that
/// appends a single `unreachable` instruction: the import entry for `fid` is
/// deleted, and the function keeps its id and declared type but becomes a
/// local function whose whole body is that trap. Nothing else in the module
/// changes; under the requires below the call cannot fail.
#[verifier::external_body]
pub(crate) fn stub_import_func(m: &mut Module, fid: FunctionId, interface: &str, function: &str)
    requires
        module_ok(*old(m)),
        import_fid_is(*old(m), interface@, function@, fid),
    ensures
        module_ok(*final (m)),
        module_imports(*final (m)) == module_imports(*old(m)).remove((interface@, function@)),
        module_exports(*final (m)) == module_exports(*old(m)),
        fid_traps(*final (m), fid),
        forall|g: FunctionId|
            g != fid ==> #[trigger] fid_traps(*final (m), g) == fid_traps(*old(m), g),
        forall|i2: Seq<char>, f2: Seq<char>, g: FunctionId|
            (i2, f2) != (interface@, function@) ==> #[trigger] import_fid_is(
                *final (m),
                i2,
                f2,
                g,
            ) == import_fid_is(*old(m), i2, f2, g),
{
    let _ = m.replace_imported_func(fid, |(body, _)| {
        body.unreachable();
    });
}

/// Relies on `walrus::ModuleExports::remove`: deletes the export binding
/// with the given name and returns whether one existed; on `false` the
/// module is untouched, and in either case only the export table can change.
#[verifier::external_body]
pub(crate) fn remove_export_func(m: &mut Module, name: &str) -> (r: bool)
    requires
        module_ok(*old(m)),
    ensures
        module_ok(*final (m)),
        r == module_exports(*old(m)).contains(name@),
        r ==> module_exports(*final (m)) == module_exports(*old(m)).remove(name@),
        module_imports(*final (m)) == module_imports(*old(m)),
        forall|g: FunctionId| #[trigger] fid_traps(*final (m), g) == fid_traps(*old(m), g),
        forall|i2: Seq<char>, f2: Seq<char>, g: FunctionId| #[trigger] import_fid_is(
            *final (m),
            i2,
            f2,
            g,
        ) == import_fid_is(*old(m), i2, f2, g),
        !r ==> *final (m) == *old(m),
{
    m.exports.remove(name).is_ok()
}

} // verus!
