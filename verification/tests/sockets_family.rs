//! The sockets capability family, exercised with its real manifest tables.

use capstrip::manifest::RequirementLevel;
use capstrip::manifest::StripError;
use capstrip::sockets::strip_sockets_virt;
use capstrip::sockets::stub_sockets_virt;
use capstrip::sockets::wasi_sockets_export_names;
use capstrip::sockets::wasi_sockets_import_manifest;
use walrus::FunctionId;
use walrus::Module;

fn is_trap(module: &Module, fid: FunctionId) -> bool {
    match &module.funcs.get(fid).kind {
        walrus::FunctionKind::Local(lf) => {
            let block = lf.block(lf.entry_block());
            block.instrs.len() == 1
                && matches!(block.instrs[0].0, walrus::ir::Instr::Unreachable(_))
        }
        _ => false,
    }
}

/// A module holding every import the sockets manifest names and every
/// export its list names, plus one unrelated import and export.
fn full_sockets_module() -> (Module, Vec<FunctionId>, FunctionId) {
    let mut module = Module::default();
    let mut fids = Vec::new();
    for entry in wasi_sockets_import_manifest() {
        let ty = module.types.add(&[], &[]);
        let (fid, _) = module.add_import_func(&entry.func.interface, &entry.func.function, ty);
        fids.push(fid);
    }
    let ty = module.types.add(&[], &[]);
    let (other, _) = module.add_import_func("ns/other", "keep", ty);
    for name in wasi_sockets_export_names() {
        module.exports.add(&name, other);
    }
    module.exports.add("ns/other#keep", other);
    (module, fids, other)
}

#[test]
fn sockets_manifest_shape() {
    let manifest = wasi_sockets_import_manifest();
    assert_eq!(manifest.len(), 49);
    assert!(manifest.iter().all(|e| e.requirement == RequirementLevel::Required));
    assert_eq!(
        manifest[0].func.interface,
        "wasi:sockets/ip-name-lookup@0.2.0-rc-2023-10-18"
    );
    assert_eq!(manifest[0].func.function, "resolve-addresses");
    // destructors are mangled [resource-drop] on the import side
    assert!(manifest
        .iter()
        .any(|e| e.func.function == "[resource-drop]tcp-socket"));

    let exports = wasi_sockets_export_names();
    assert_eq!(exports.len(), 49);
    // ... and [dtor] on the export side
    assert!(exports.contains(&"wasi:sockets/tcp@0.2.0-rc-2023-10-18#[dtor]tcp-socket".to_string()));
    assert!(exports
        .contains(&"wasi:sockets/udp@0.2.0-rc-2023-10-18#[method]udp-socket.send".to_string()));
}

#[test]
fn stub_sockets_traps_every_import() {
    let (mut module, fids, other) = full_sockets_module();
    let r = stub_sockets_virt(&mut module);
    assert!(r.is_ok());
    for fid in fids {
        assert!(is_trap(&module, fid));
    }
    assert!(!is_trap(&module, other));
    // the export table is untouched by the stub pass
    assert_eq!(module.exports.iter().count(), 50);
}

#[test]
fn stub_sockets_missing_import_names_it() {
    let mut module = Module::default();
    // every import but the very first of the manifest
    for entry in wasi_sockets_import_manifest().into_iter().skip(1) {
        let ty = module.types.add(&[], &[]);
        module.add_import_func(&entry.func.interface, &entry.func.function, ty);
    }
    let r = stub_sockets_virt(&mut module);
    match r {
        Err(StripError::MissingRequiredImport { interface, function }) => {
            assert_eq!(interface, "wasi:sockets/ip-name-lookup@0.2.0-rc-2023-10-18");
            assert_eq!(function, "resolve-addresses");
        }
        other => panic!("expected MissingRequiredImport, got {:?}", other),
    }
}

#[test]
fn strip_sockets_end_to_end() {
    let (mut module, fids, _) = full_sockets_module();
    let r = strip_sockets_virt(&mut module);
    assert!(r.is_ok());
    for fid in fids {
        assert!(is_trap(&module, fid));
    }
    // exactly the unrelated export survives
    let names: Vec<String> = module.exports.iter().map(|e| e.name.clone()).collect();
    assert_eq!(names, vec!["ns/other#keep".to_string()]);
    // and the unrelated import survives
    assert!(module.imports.get_func("ns/other", "keep").is_ok());
}

#[test]
fn strip_sockets_missing_export_aborts_prune() {
    let (mut module, _, _) = full_sockets_module();
    // remove one listed export beforehand; the prune pass must miss it
    let victim = &wasi_sockets_export_names()[10];
    module.exports.remove(victim).unwrap();
    let r = strip_sockets_virt(&mut module);
    match r {
        Err(StripError::MissingExpectedExport { name }) => assert_eq!(&name, victim),
        other => panic!("expected MissingExpectedExport, got {:?}", other),
    }
}
