//! The manifest-driven algorithm, exercised on small hand-built modules.

use capstrip::manifest::ImportManifestEntry;
use capstrip::manifest::QualifiedFunctionRef;
use capstrip::manifest::RequirementLevel;
use capstrip::manifest::StripError;
use capstrip::strip::prune_exports;
use capstrip::strip::strip_capability;
use capstrip::strip::stub_imports;
use walrus::FunctionId;
use walrus::Module;

fn entry(interface: &str, function: &str, requirement: RequirementLevel) -> ImportManifestEntry {
    ImportManifestEntry {
        func: QualifiedFunctionRef {
            interface: interface.to_string(),
            function: function.to_string(),
        },
        requirement,
    }
}

fn add_import(module: &mut Module, interface: &str, function: &str) -> FunctionId {
    let ty = module.types.add(&[], &[]);
    let (fid, _) = module.add_import_func(interface, function, ty);
    fid
}

fn has_import(module: &Module, interface: &str, function: &str) -> bool {
    module.imports.get_func(interface, function).is_ok()
}

fn is_trap(module: &Module, fid: FunctionId) -> bool {
    match &module.funcs.get(fid).kind {
        walrus::FunctionKind::Local(lf) => {
            let block = lf.block(lf.entry_block());
            block.instrs.len() == 1
                && matches!(block.instrs[0].0, walrus::ir::Instr::Unreachable(_))
        }
        _ => false,
    }
}

fn export_names(module: &Module) -> Vec<String> {
    let mut names: Vec<String> = module.exports.iter().map(|e| e.name.clone()).collect();
    names.sort();
    names
}

#[test]
fn stub_required_present_traps() {
    let mut module = Module::default();
    let fa = add_import(&mut module, "ns/a", "f");
    let fb = add_import(&mut module, "ns/a", "g");
    module.exports.add("ns/a#f", fa);
    let manifest = vec![
        entry("ns/a", "f", RequirementLevel::Required),
        entry("ns/a", "g", RequirementLevel::Required),
    ];
    let r = stub_imports(&mut module, &manifest);
    assert!(r.is_ok());
    // both bodies trap regardless of arguments; the import entries are gone
    assert!(is_trap(&module, fa));
    assert!(is_trap(&module, fb));
    assert!(!has_import(&module, "ns/a", "f"));
    assert!(!has_import(&module, "ns/a", "g"));
    // the export table is never touched by the stub pass
    assert_eq!(export_names(&module), vec!["ns/a#f".to_string()]);
}

#[test]
fn stub_missing_required_fails_fast() {
    let mut module = Module::default();
    let fa = add_import(&mut module, "ns/a", "f");
    let fc = add_import(&mut module, "ns/a", "h");
    let manifest = vec![
        entry("ns/a", "f", RequirementLevel::Required),
        entry("ns/a", "g", RequirementLevel::Required),
        entry("ns/a", "h", RequirementLevel::Required),
    ];
    let r = stub_imports(&mut module, &manifest);
    match r {
        Err(StripError::MissingRequiredImport { interface, function }) => {
            assert_eq!(interface, "ns/a");
            assert_eq!(function, "g");
        }
        other => panic!("expected MissingRequiredImport, got {:?}", other),
    }
    // the entry before the failing one was processed, the one after was not
    assert!(is_trap(&module, fa));
    assert!(!is_trap(&module, fc));
    assert!(has_import(&module, "ns/a", "h"));
}

#[test]
fn stub_optional_absent_tolerated() {
    let mut module = Module::default();
    let fa = add_import(&mut module, "ns/a", "f");
    let manifest = vec![
        entry("ns/a", "missing", RequirementLevel::Optional),
        entry("ns/a", "f", RequirementLevel::Required),
    ];
    let r = stub_imports(&mut module, &manifest);
    assert!(r.is_ok());
    assert!(is_trap(&module, fa));
}

#[test]
fn stub_optional_present_is_fault() {
    let mut module = Module::default();
    let fa = add_import(&mut module, "ns/a", "f");
    let manifest = vec![entry("ns/a", "f", RequirementLevel::Optional)];
    let r = stub_imports(&mut module, &manifest);
    match r {
        Err(StripError::UnsupportedRequirementLevel { interface, function }) => {
            assert_eq!(interface, "ns/a");
            assert_eq!(function, "f");
        }
        other => panic!("expected UnsupportedRequirementLevel, got {:?}", other),
    }
    // the matched import is left as it was
    assert!(!is_trap(&module, fa));
    assert!(has_import(&module, "ns/a", "f"));
}

#[test]
fn prune_removes_exactly_the_named_exports() {
    let mut module = Module::default();
    let fa = add_import(&mut module, "ns/a", "f");
    module.exports.add("x", fa);
    module.exports.add("y", fa);
    module.exports.add("z", fa);
    let names = vec!["x".to_string(), "z".to_string()];
    let r = prune_exports(&mut module, &names);
    assert!(r.is_ok());
    assert_eq!(export_names(&module), vec!["y".to_string()]);
    // only the export bindings go; the import table and the function stay
    assert!(has_import(&module, "ns/a", "f"));
    assert!(!is_trap(&module, fa));
}

#[test]
fn prune_missing_name_fails_fast() {
    let mut module = Module::default();
    let fa = add_import(&mut module, "ns/a", "f");
    module.exports.add("x", fa);
    module.exports.add("y", fa);
    let names = vec!["w".to_string(), "y".to_string()];
    let r = prune_exports(&mut module, &names);
    match r {
        Err(StripError::MissingExpectedExport { name }) => assert_eq!(name, "w"),
        other => panic!("expected MissingExpectedExport, got {:?}", other),
    }
    // names after the failing one are left unprocessed
    assert_eq!(export_names(&module), vec!["x".to_string(), "y".to_string()]);
}

#[test]
fn prune_duplicate_name_fails_on_second() {
    let mut module = Module::default();
    let fa = add_import(&mut module, "ns/a", "f");
    module.exports.add("x", fa);
    let names = vec!["x".to_string(), "x".to_string()];
    let r = prune_exports(&mut module, &names);
    match r {
        Err(StripError::MissingExpectedExport { name }) => assert_eq!(name, "x"),
        other => panic!("expected MissingExpectedExport, got {:?}", other),
    }
    assert!(export_names(&module).is_empty());
}

#[test]
fn strip_one_family_end_to_end() {
    // manifest [("ns/a","f",Required)]; module has the import and the export
    let mut module = Module::default();
    let fa = add_import(&mut module, "ns/a", "f");
    let fb = add_import(&mut module, "ns/b", "other");
    module.exports.add("ns/a#f", fa);
    module.exports.add("ns/b#other", fb);
    let manifest = vec![entry("ns/a", "f", RequirementLevel::Required)];
    let names = vec!["ns/a#f".to_string()];
    let r = strip_capability(&mut module, &manifest, &names);
    assert!(r.is_ok());
    // the stubbed function still exists under its id, with its type, but
    // its body is a trap; its import entry is deleted with the stubbing
    assert!(is_trap(&module, fa));
    assert!(!has_import(&module, "ns/a", "f"));
    // the named export is gone; everything else is untouched
    assert_eq!(export_names(&module), vec!["ns/b#other".to_string()]);
    assert!(has_import(&module, "ns/b", "other"));
    assert!(!is_trap(&module, fb));
}

#[test]
fn strip_missing_import_leaves_exports_alone() {
    // manifest requires ("ns/a","g"); the module has no such import
    let mut module = Module::default();
    let fa = add_import(&mut module, "ns/a", "f");
    module.exports.add("ns/a#f", fa);
    let manifest = vec![entry("ns/a", "g", RequirementLevel::Required)];
    let names = vec!["ns/a#f".to_string()];
    let r = strip_capability(&mut module, &manifest, &names);
    match r {
        Err(StripError::MissingRequiredImport { interface, function }) => {
            assert_eq!(interface, "ns/a");
            assert_eq!(function, "g");
        }
        other => panic!("expected MissingRequiredImport, got {:?}", other),
    }
    // the export table is unchanged from the original
    assert_eq!(export_names(&module), vec!["ns/a#f".to_string()]);
}

#[test]
fn strip_twice_fails_on_required_import() {
    let mut module = Module::default();
    let fa = add_import(&mut module, "ns/a", "f");
    module.exports.add("ns/a#f", fa);
    let manifest = vec![entry("ns/a", "f", RequirementLevel::Required)];
    let names = vec!["ns/a#f".to_string()];
    assert!(strip_capability(&mut module, &manifest, &names).is_ok());
    // stubbing deleted the import entry, so the second stub pass misses it
    let r = strip_capability(&mut module, &manifest, &names);
    match r {
        Err(StripError::MissingRequiredImport { interface, function }) => {
            assert_eq!(interface, "ns/a");
            assert_eq!(function, "f");
        }
        other => panic!("expected MissingRequiredImport, got {:?}", other),
    }
}

#[test]
fn strip_twice_fails_on_pruned_export() {
    // with no Required entry the second stub pass goes through unchanged,
    // and the second prune pass misses the already-removed export
    let mut module = Module::default();
    let fa = add_import(&mut module, "ns/a", "f");
    module.exports.add("ns/a#f", fa);
    let manifest = vec![entry("ns/a", "absent", RequirementLevel::Optional)];
    let names = vec!["ns/a#f".to_string()];
    assert!(strip_capability(&mut module, &manifest, &names).is_ok());
    let r = strip_capability(&mut module, &manifest, &names);
    match r {
        Err(StripError::MissingExpectedExport { name }) => assert_eq!(name, "ns/a#f"),
        other => panic!("expected MissingExpectedExport, got {:?}", other),
    }
}

#[test]
fn empty_manifests_succeed_and_change_nothing() {
    let mut module = Module::default();
    let fa = add_import(&mut module, "ns/a", "f");
    module.exports.add("ns/a#f", fa);
    let r = strip_capability(&mut module, &Vec::new(), &Vec::new());
    assert!(r.is_ok());
    assert!(has_import(&module, "ns/a", "f"));
    assert_eq!(export_names(&module), vec!["ns/a#f".to_string()]);
}
