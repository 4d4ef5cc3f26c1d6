//! The sockets capability family: the manifest of WASI socket imports and
//! the list of socket exports, and the entry points that strip them from a
//! module.
//!
//! The tables are data, not logic: one row per guest-visible function, with
//! the exact interface string (semantic version included) and the function's
//! mangled name. Destructor functions are mangled `[resource-drop]` on the
//! import side but `[dtor]` on the export side; keeping the two tables in
//! step is a manifest-authoring responsibility.

use crate::manifest::ImportEntryV;
use crate::manifest::ImportManifestEntry;
use crate::manifest::QualifiedFunctionRef;
use crate::manifest::RequirementLevel;
use crate::manifest::StripError;
use crate::manifest::lemma_manifest_view_push;
use crate::manifest::lemma_names_view_push;
use crate::manifest::manifest_view;
use crate::manifest::names_view;
use crate::strip::exports_after;
use crate::strip::prune_ok;
use crate::strip::prune_spec_err;
use crate::strip::strip_capability;
use crate::strip::stub_imports;
use crate::strip::stub_ok;
use crate::strip::stub_spec_err;
use crate::strip::stub_spec_ok;
use crate::wasm::module_exports;
use crate::wasm::module_imports;
use crate::wasm::module_ok;
use vstd::prelude::*;
use vstd::string::StringExecFns;
use walrus::Module;

verus! {

/// A required import of the ip-name-lookup interface.
pub open spec fn ip_req(function: Seq<char>) -> ImportEntryV {
    ((("wasi:sockets/ip-name-lookup@0.2.0-rc-2023-10-18")@, function), RequirementLevel::Required)
}

/// A required import of the tcp interface.
pub open spec fn tcp_req(function: Seq<char>) -> ImportEntryV {
    ((("wasi:sockets/tcp@0.2.0-rc-2023-10-18")@, function), RequirementLevel::Required)
}

/// A required import of the udp interface.
pub open spec fn udp_req(function: Seq<char>) -> ImportEntryV {
    ((("wasi:sockets/udp@0.2.0-rc-2023-10-18")@, function), RequirementLevel::Required)
}

/// The socket imports WASI exposes, in manifest order; each one is required
/// to be present in a module this capability family is stripped from.
pub open spec fn wasi_sockets_import_entries() -> Seq<ImportEntryV> {
    Seq::empty()
        .push(ip_req(("resolve-addresses")@))
        .push(ip_req(("[method]resolve-address-stream.resolve-next-address")@))
        .push(ip_req(("[resource-drop]resolve-address-stream")@))
        .push(ip_req(("[method]resolve-address-stream.subscribe")@))
        .push(tcp_req(("[method]tcp-socket.start-bind")@))
        .push(tcp_req(("[method]tcp-socket.finish-bind")@))
        .push(tcp_req(("[method]tcp-socket.start-connect")@))
        .push(tcp_req(("[method]tcp-socket.finish-connect")@))
        .push(tcp_req(("[method]tcp-socket.start-listen")@))
        .push(tcp_req(("[method]tcp-socket.finish-listen")@))
        .push(tcp_req(("[method]tcp-socket.accept")@))
        .push(tcp_req(("[method]tcp-socket.local-address")@))
        .push(tcp_req(("[method]tcp-socket.remote-address")@))
        .push(tcp_req(("[method]tcp-socket.address-family")@))
        .push(tcp_req(("[method]tcp-socket.ipv6-only")@))
        .push(tcp_req(("[method]tcp-socket.set-ipv6-only")@))
        .push(tcp_req(("[method]tcp-socket.set-listen-backlog-size")@))
        .push(tcp_req(("[method]tcp-socket.keep-alive")@))
        .push(tcp_req(("[method]tcp-socket.set-keep-alive")@))
        .push(tcp_req(("[method]tcp-socket.no-delay")@))
        .push(tcp_req(("[method]tcp-socket.set-no-delay")@))
        .push(tcp_req(("[method]tcp-socket.unicast-hop-limit")@))
        .push(tcp_req(("[method]tcp-socket.set-unicast-hop-limit")@))
        .push(tcp_req(("[method]tcp-socket.receive-buffer-size")@))
        .push(tcp_req(("[method]tcp-socket.set-receive-buffer-size")@))
        .push(tcp_req(("[method]tcp-socket.send-buffer-size")@))
        .push(tcp_req(("[method]tcp-socket.set-send-buffer-size")@))
        .push(tcp_req(("[method]tcp-socket.subscribe")@))
        .push(tcp_req(("[method]tcp-socket.shutdown")@))
        .push(tcp_req(("[resource-drop]tcp-socket")@))
        .push(udp_req(("[method]udp-socket.start-bind")@))
        .push(udp_req(("[method]udp-socket.finish-bind")@))
        .push(udp_req(("[method]udp-socket.start-connect")@))
        .push(udp_req(("[method]udp-socket.finish-connect")@))
        .push(udp_req(("[method]udp-socket.receive")@))
        .push(udp_req(("[method]udp-socket.send")@))
        .push(udp_req(("[method]udp-socket.local-address")@))
        .push(udp_req(("[method]udp-socket.remote-address")@))
        .push(udp_req(("[method]udp-socket.address-family")@))
        .push(udp_req(("[method]udp-socket.ipv6-only")@))
        .push(udp_req(("[method]udp-socket.set-ipv6-only")@))
        .push(udp_req(("[method]udp-socket.unicast-hop-limit")@))
        .push(udp_req(("[method]udp-socket.set-unicast-hop-limit")@))
        .push(udp_req(("[method]udp-socket.receive-buffer-size")@))
        .push(udp_req(("[method]udp-socket.set-receive-buffer-size")@))
        .push(udp_req(("[method]udp-socket.send-buffer-size")@))
        .push(udp_req(("[method]udp-socket.set-send-buffer-size")@))
        .push(udp_req(("[method]udp-socket.subscribe")@))
        .push(udp_req(("[resource-drop]udp-socket")@))
}

/// The exported socket functions, by fully qualified name, in list order.
pub open spec fn wasi_sockets_export_list() -> Seq<Seq<char>> {
    Seq::<Seq<char>>::empty()
        .push(("wasi:sockets/ip-name-lookup@0.2.0-rc-2023-10-18#resolve-addresses")@)
        .push(("wasi:sockets/ip-name-lookup@0.2.0-rc-2023-10-18#[method]resolve-address-stream.resolve-next-address")@)
        .push(("wasi:sockets/ip-name-lookup@0.2.0-rc-2023-10-18#[dtor]resolve-address-stream")@)
        .push(("wasi:sockets/ip-name-lookup@0.2.0-rc-2023-10-18#[method]resolve-address-stream.subscribe")@)
        .push(("wasi:sockets/tcp@0.2.0-rc-2023-10-18#[method]tcp-socket.start-bind")@)
        .push(("wasi:sockets/tcp@0.2.0-rc-2023-10-18#[method]tcp-socket.finish-bind")@)
        .push(("wasi:sockets/tcp@0.2.0-rc-2023-10-18#[method]tcp-socket.start-connect")@)
        .push(("wasi:sockets/tcp@0.2.0-rc-2023-10-18#[method]tcp-socket.finish-connect")@)
        .push(("wasi:sockets/tcp@0.2.0-rc-2023-10-18#[method]tcp-socket.start-listen")@)
        .push(("wasi:sockets/tcp@0.2.0-rc-2023-10-18#[method]tcp-socket.finish-listen")@)
        .push(("wasi:sockets/tcp@0.2.0-rc-2023-10-18#[method]tcp-socket.accept")@)
        .push(("wasi:sockets/tcp@0.2.0-rc-2023-10-18#[method]tcp-socket.local-address")@)
        .push(("wasi:sockets/tcp@0.2.0-rc-2023-10-18#[method]tcp-socket.remote-address")@)
        .push(("wasi:sockets/tcp@0.2.0-rc-2023-10-18#[method]tcp-socket.address-family")@)
        .push(("wasi:sockets/tcp@0.2.0-rc-2023-10-18#[method]tcp-socket.ipv6-only")@)
        .push(("wasi:sockets/tcp@0.2.0-rc-2023-10-18#[method]tcp-socket.set-ipv6-only")@)
        .push(("wasi:sockets/tcp@0.2.0-rc-2023-10-18#[method]tcp-socket.set-listen-backlog-size")@)
        .push(("wasi:sockets/tcp@0.2.0-rc-2023-10-18#[method]tcp-socket.keep-alive")@)
        .push(("wasi:sockets/tcp@0.2.0-rc-2023-10-18#[method]tcp-socket.set-keep-alive")@)
        .push(("wasi:sockets/tcp@0.2.0-rc-2023-10-18#[method]tcp-socket.no-delay")@)
        .push(("wasi:sockets/tcp@0.2.0-rc-2023-10-18#[method]tcp-socket.set-no-delay")@)
        .push(("wasi:sockets/tcp@0.2.0-rc-2023-10-18#[method]tcp-socket.unicast-hop-limit")@)
        .push(("wasi:sockets/tcp@0.2.0-rc-2023-10-18#[method]tcp-socket.set-unicast-hop-limit")@)
        .push(("wasi:sockets/tcp@0.2.0-rc-2023-10-18#[method]tcp-socket.receive-buffer-size")@)
        .push(("wasi:sockets/tcp@0.2.0-rc-2023-10-18#[method]tcp-socket.set-receive-buffer-size")@)
        .push(("wasi:sockets/tcp@0.2.0-rc-2023-10-18#[method]tcp-socket.send-buffer-size")@)
        .push(("wasi:sockets/tcp@0.2.0-rc-2023-10-18#[method]tcp-socket.set-send-buffer-size")@)
        .push(("wasi:sockets/tcp@0.2.0-rc-2023-10-18#[method]tcp-socket.subscribe")@)
        .push(("wasi:sockets/tcp@0.2.0-rc-2023-10-18#[method]tcp-socket.shutdown")@)
        .push(("wasi:sockets/tcp@0.2.0-rc-2023-10-18#[dtor]tcp-socket")@)
        .push(("wasi:sockets/udp@0.2.0-rc-2023-10-18#[method]udp-socket.start-bind")@)
        .push(("wasi:sockets/udp@0.2.0-rc-2023-10-18#[method]udp-socket.finish-bind")@)
        .push(("wasi:sockets/udp@0.2.0-rc-2023-10-18#[method]udp-socket.start-connect")@)
        .push(("wasi:sockets/udp@0.2.0-rc-2023-10-18#[method]udp-socket.finish-connect")@)
        .push(("wasi:sockets/udp@0.2.0-rc-2023-10-18#[method]udp-socket.receive")@)
        .push(("wasi:sockets/udp@0.2.0-rc-2023-10-18#[method]udp-socket.send")@)
        .push(("wasi:sockets/udp@0.2.0-rc-2023-10-18#[method]udp-socket.local-address")@)
        .push(("wasi:sockets/udp@0.2.0-rc-2023-10-18#[method]udp-socket.remote-address")@)
        .push(("wasi:sockets/udp@0.2.0-rc-2023-10-18#[method]udp-socket.address-family")@)
        .push(("wasi:sockets/udp@0.2.0-rc-2023-10-18#[method]udp-socket.ipv6-only")@)
        .push(("wasi:sockets/udp@0.2.0-rc-2023-10-18#[method]udp-socket.set-ipv6-only")@)
        .push(("wasi:sockets/udp@0.2.0-rc-2023-10-18#[method]udp-socket.unicast-hop-limit")@)
        .push(("wasi:sockets/udp@0.2.0-rc-2023-10-18#[method]udp-socket.set-unicast-hop-limit")@)
        .push(("wasi:sockets/udp@0.2.0-rc-2023-10-18#[method]udp-socket.receive-buffer-size")@)
        .push(("wasi:sockets/udp@0.2.0-rc-2023-10-18#[method]udp-socket.set-receive-buffer-size")@)
        .push(("wasi:sockets/udp@0.2.0-rc-2023-10-18#[method]udp-socket.send-buffer-size")@)
        .push(("wasi:sockets/udp@0.2.0-rc-2023-10-18#[method]udp-socket.set-send-buffer-size")@)
        .push(("wasi:sockets/udp@0.2.0-rc-2023-10-18#[method]udp-socket.subscribe")@)
        .push(("wasi:sockets/udp@0.2.0-rc-2023-10-18#[dtor]udp-socket")@)
}

fn req_entry(interface: &str, function: &str) -> (e: ImportManifestEntry)
    ensures
        e@ == (((interface@, function@), RequirementLevel::Required)),
{
    ImportManifestEntry {
        func: QualifiedFunctionRef {
            interface: String::from_str(interface),
            function: String::from_str(function),
        },
        requirement: RequirementLevel::Required,
    }
}

fn ip_entry(function: &str) -> (e: ImportManifestEntry)
    ensures
        e@ == ip_req(function@),
{
    req_entry("wasi:sockets/ip-name-lookup@0.2.0-rc-2023-10-18", function)
}

fn tcp_entry(function: &str) -> (e: ImportManifestEntry)
    ensures
        e@ == tcp_req(function@),
{
    req_entry("wasi:sockets/tcp@0.2.0-rc-2023-10-18", function)
}

fn udp_entry(function: &str) -> (e: ImportManifestEntry)
    ensures
        e@ == udp_req(function@),
{
    req_entry("wasi:sockets/udp@0.2.0-rc-2023-10-18", function)
}

/// The import manifest for the sockets capability family.
#[verifier::rlimit(100)]
pub fn wasi_sockets_import_manifest() -> (v: Vec<ImportManifestEntry>)
    ensures
        manifest_view(v@) == wasi_sockets_import_entries(),
{
    let mut v: Vec<ImportManifestEntry> = Vec::new();
    v.push(ip_entry("resolve-addresses"));
    v.push(ip_entry("[method]resolve-address-stream.resolve-next-address"));
    v.push(ip_entry("[resource-drop]resolve-address-stream"));
    v.push(ip_entry("[method]resolve-address-stream.subscribe"));
    v.push(tcp_entry("[method]tcp-socket.start-bind"));
    v.push(tcp_entry("[method]tcp-socket.finish-bind"));
    v.push(tcp_entry("[method]tcp-socket.start-connect"));
    v.push(tcp_entry("[method]tcp-socket.finish-connect"));
    v.push(tcp_entry("[method]tcp-socket.start-listen"));
    v.push(tcp_entry("[method]tcp-socket.finish-listen"));
    v.push(tcp_entry("[method]tcp-socket.accept"));
    v.push(tcp_entry("[method]tcp-socket.local-address"));
    v.push(tcp_entry("[method]tcp-socket.remote-address"));
    v.push(tcp_entry("[method]tcp-socket.address-family"));
    v.push(tcp_entry("[method]tcp-socket.ipv6-only"));
    v.push(tcp_entry("[method]tcp-socket.set-ipv6-only"));
    v.push(tcp_entry("[method]tcp-socket.set-listen-backlog-size"));
    v.push(tcp_entry("[method]tcp-socket.keep-alive"));
    v.push(tcp_entry("[method]tcp-socket.set-keep-alive"));
    v.push(tcp_entry("[method]tcp-socket.no-delay"));
    v.push(tcp_entry("[method]tcp-socket.set-no-delay"));
    v.push(tcp_entry("[method]tcp-socket.unicast-hop-limit"));
    v.push(tcp_entry("[method]tcp-socket.set-unicast-hop-limit"));
    v.push(tcp_entry("[method]tcp-socket.receive-buffer-size"));
    v.push(tcp_entry("[method]tcp-socket.set-receive-buffer-size"));
    v.push(tcp_entry("[method]tcp-socket.send-buffer-size"));
    v.push(tcp_entry("[method]tcp-socket.set-send-buffer-size"));
    v.push(tcp_entry("[method]tcp-socket.subscribe"));
    v.push(tcp_entry("[method]tcp-socket.shutdown"));
    v.push(tcp_entry("[resource-drop]tcp-socket"));
    v.push(udp_entry("[method]udp-socket.start-bind"));
    v.push(udp_entry("[method]udp-socket.finish-bind"));
    v.push(udp_entry("[method]udp-socket.start-connect"));
    v.push(udp_entry("[method]udp-socket.finish-connect"));
    v.push(udp_entry("[method]udp-socket.receive"));
    v.push(udp_entry("[method]udp-socket.send"));
    v.push(udp_entry("[method]udp-socket.local-address"));
    v.push(udp_entry("[method]udp-socket.remote-address"));
    v.push(udp_entry("[method]udp-socket.address-family"));
    v.push(udp_entry("[method]udp-socket.ipv6-only"));
    v.push(udp_entry("[method]udp-socket.set-ipv6-only"));
    v.push(udp_entry("[method]udp-socket.unicast-hop-limit"));
    v.push(udp_entry("[method]udp-socket.set-unicast-hop-limit"));
    v.push(udp_entry("[method]udp-socket.receive-buffer-size"));
    v.push(udp_entry("[method]udp-socket.set-receive-buffer-size"));
    v.push(udp_entry("[method]udp-socket.send-buffer-size"));
    v.push(udp_entry("[method]udp-socket.set-send-buffer-size"));
    v.push(udp_entry("[method]udp-socket.subscribe"));
    v.push(udp_entry("[resource-drop]udp-socket"));
    proof {
        broadcast use lemma_manifest_view_push;

        assert(manifest_view(v@) == wasi_sockets_import_entries());
    }
    v
}

/// The export list for the sockets capability family.
#[verifier::rlimit(100)]
pub fn wasi_sockets_export_names() -> (v: Vec<String>)
    ensures
        names_view(v@) == wasi_sockets_export_list(),
{
    let mut v: Vec<String> = Vec::new();
    v.push(String::from_str("wasi:sockets/ip-name-lookup@0.2.0-rc-2023-10-18#resolve-addresses"));
    v.push(String::from_str("wasi:sockets/ip-name-lookup@0.2.0-rc-2023-10-18#[method]resolve-address-stream.resolve-next-address"));
    v.push(String::from_str("wasi:sockets/ip-name-lookup@0.2.0-rc-2023-10-18#[dtor]resolve-address-stream"));
    v.push(String::from_str("wasi:sockets/ip-name-lookup@0.2.0-rc-2023-10-18#[method]resolve-address-stream.subscribe"));
    v.push(String::from_str("wasi:sockets/tcp@0.2.0-rc-2023-10-18#[method]tcp-socket.start-bind"));
    v.push(String::from_str("wasi:sockets/tcp@0.2.0-rc-2023-10-18#[method]tcp-socket.finish-bind"));
    v.push(String::from_str("wasi:sockets/tcp@0.2.0-rc-2023-10-18#[method]tcp-socket.start-connect"));
    v.push(String::from_str("wasi:sockets/tcp@0.2.0-rc-2023-10-18#[method]tcp-socket.finish-connect"));
    v.push(String::from_str("wasi:sockets/tcp@0.2.0-rc-2023-10-18#[method]tcp-socket.start-listen"));
    v.push(String::from_str("wasi:sockets/tcp@0.2.0-rc-2023-10-18#[method]tcp-socket.finish-listen"));
    v.push(String::from_str("wasi:sockets/tcp@0.2.0-rc-2023-10-18#[method]tcp-socket.accept"));
    v.push(String::from_str("wasi:sockets/tcp@0.2.0-rc-2023-10-18#[method]tcp-socket.local-address"));
    v.push(String::from_str("wasi:sockets/tcp@0.2.0-rc-2023-10-18#[method]tcp-socket.remote-address"));
    v.push(String::from_str("wasi:sockets/tcp@0.2.0-rc-2023-10-18#[method]tcp-socket.address-family"));
    v.push(String::from_str("wasi:sockets/tcp@0.2.0-rc-2023-10-18#[method]tcp-socket.ipv6-only"));
    v.push(String::from_str("wasi:sockets/tcp@0.2.0-rc-2023-10-18#[method]tcp-socket.set-ipv6-only"));
    v.push(String::from_str("wasi:sockets/tcp@0.2.0-rc-2023-10-18#[method]tcp-socket.set-listen-backlog-size"));
    v.push(String::from_str("wasi:sockets/tcp@0.2.0-rc-2023-10-18#[method]tcp-socket.keep-alive"));
    v.push(String::from_str("wasi:sockets/tcp@0.2.0-rc-2023-10-18#[method]tcp-socket.set-keep-alive"));
    v.push(String::from_str("wasi:sockets/tcp@0.2.0-rc-2023-10-18#[method]tcp-socket.no-delay"));
    v.push(String::from_str("wasi:sockets/tcp@0.2.0-rc-2023-10-18#[method]tcp-socket.set-no-delay"));
    v.push(String::from_str("wasi:sockets/tcp@0.2.0-rc-2023-10-18#[method]tcp-socket.unicast-hop-limit"));
    v.push(String::from_str("wasi:sockets/tcp@0.2.0-rc-2023-10-18#[method]tcp-socket.set-unicast-hop-limit"));
    v.push(String::from_str("wasi:sockets/tcp@0.2.0-rc-2023-10-18#[method]tcp-socket.receive-buffer-size"));
    v.push(String::from_str("wasi:sockets/tcp@0.2.0-rc-2023-10-18#[method]tcp-socket.set-receive-buffer-size"));
    v.push(String::from_str("wasi:sockets/tcp@0.2.0-rc-2023-10-18#[method]tcp-socket.send-buffer-size"));
    v.push(String::from_str("wasi:sockets/tcp@0.2.0-rc-2023-10-18#[method]tcp-socket.set-send-buffer-size"));
    v.push(String::from_str("wasi:sockets/tcp@0.2.0-rc-2023-10-18#[method]tcp-socket.subscribe"));
    v.push(String::from_str("wasi:sockets/tcp@0.2.0-rc-2023-10-18#[method]tcp-socket.shutdown"));
    v.push(String::from_str("wasi:sockets/tcp@0.2.0-rc-2023-10-18#[dtor]tcp-socket"));
    v.push(String::from_str("wasi:sockets/udp@0.2.0-rc-2023-10-18#[method]udp-socket.start-bind"));
    v.push(String::from_str("wasi:sockets/udp@0.2.0-rc-2023-10-18#[method]udp-socket.finish-bind"));
    v.push(String::from_str("wasi:sockets/udp@0.2.0-rc-2023-10-18#[method]udp-socket.start-connect"));
    v.push(String::from_str("wasi:sockets/udp@0.2.0-rc-2023-10-18#[method]udp-socket.finish-connect"));
    v.push(String::from_str("wasi:sockets/udp@0.2.0-rc-2023-10-18#[method]udp-socket.receive"));
    v.push(String::from_str("wasi:sockets/udp@0.2.0-rc-2023-10-18#[method]udp-socket.send"));
    v.push(String::from_str("wasi:sockets/udp@0.2.0-rc-2023-10-18#[method]udp-socket.local-address"));
    v.push(String::from_str("wasi:sockets/udp@0.2.0-rc-2023-10-18#[method]udp-socket.remote-address"));
    v.push(String::from_str("wasi:sockets/udp@0.2.0-rc-2023-10-18#[method]udp-socket.address-family"));
    v.push(String::from_str("wasi:sockets/udp@0.2.0-rc-2023-10-18#[method]udp-socket.ipv6-only"));
    v.push(String::from_str("wasi:sockets/udp@0.2.0-rc-2023-10-18#[method]udp-socket.set-ipv6-only"));
    v.push(String::from_str("wasi:sockets/udp@0.2.0-rc-2023-10-18#[method]udp-socket.unicast-hop-limit"));
    v.push(String::from_str("wasi:sockets/udp@0.2.0-rc-2023-10-18#[method]udp-socket.set-unicast-hop-limit"));
    v.push(String::from_str("wasi:sockets/udp@0.2.0-rc-2023-10-18#[method]udp-socket.receive-buffer-size"));
    v.push(String::from_str("wasi:sockets/udp@0.2.0-rc-2023-10-18#[method]udp-socket.set-receive-buffer-size"));
    v.push(String::from_str("wasi:sockets/udp@0.2.0-rc-2023-10-18#[method]udp-socket.send-buffer-size"));
    v.push(String::from_str("wasi:sockets/udp@0.2.0-rc-2023-10-18#[method]udp-socket.set-send-buffer-size"));
    v.push(String::from_str("wasi:sockets/udp@0.2.0-rc-2023-10-18#[method]udp-socket.subscribe"));
    v.push(String::from_str("wasi:sockets/udp@0.2.0-rc-2023-10-18#[dtor]udp-socket"));
    proof {
        broadcast use lemma_names_view_push;

        assert(names_view(v@) == wasi_sockets_export_list());
    }
    v
}

/// Replace every imported WASI socket function's body with an unconditional
/// trap, failing fast on the first required import the module lacks.
pub fn stub_sockets_virt(module: &mut Module) -> (r: Result<(), StripError>)
    requires
        module_ok(*old(module)),
    ensures
        module_ok(*final (module)),
        module_exports(*final (module)) == module_exports(*old(module)),
        r is Ok <==> stub_ok(module_imports(*old(module)), wasi_sockets_import_entries()),
        r is Ok ==> stub_spec_ok(*old(module), *final (module), wasi_sockets_import_entries()),
        r matches Err(e) ==> stub_spec_err(
            *old(module),
            *final (module),
            wasi_sockets_import_entries(),
            e,
        ),
{
    let manifest = wasi_sockets_import_manifest();
    stub_imports(module, &manifest)
}

/// Strip the sockets capability family: stub every socket import, and only
/// when all of them are stubbed, remove every exported socket function.
pub fn strip_sockets_virt(module: &mut Module) -> (r: Result<(), StripError>)
    requires
        module_ok(*old(module)),
    ensures
        module_ok(*final (module)),
        r is Ok <==> (stub_ok(module_imports(*old(module)), wasi_sockets_import_entries())
            && prune_ok(module_exports(*old(module)), wasi_sockets_export_list())),
        r is Ok ==> stub_spec_ok(*old(module), *final (module), wasi_sockets_import_entries())
            && module_exports(*final (module)) == exports_after(
            module_exports(*old(module)),
            wasi_sockets_export_list(),
            wasi_sockets_export_list().len() as int,
        ),
        r matches Err(e) ==> if !stub_ok(
            module_imports(*old(module)),
            wasi_sockets_import_entries(),
        ) {
            stub_spec_err(*old(module), *final (module), wasi_sockets_import_entries(), e)
                && module_exports(*final (module)) == module_exports(*old(module))
        } else {
            stub_spec_ok(*old(module), *final (module), wasi_sockets_import_entries())
                && prune_spec_err(*old(module), *final (module), wasi_sockets_export_list(), e)
        },
{
    let manifest = wasi_sockets_import_manifest();
    let exports = wasi_sockets_export_names();
    strip_capability(module, &manifest, &exports)
}

} // verus!
