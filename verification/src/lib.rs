//! Capability virtualization for compiled WebAssembly modules.
//!
//! A module declares the host capabilities it needs as imports and the
//! functions it offers as exports. This crate disables one capability family
//! (here: sockets) without recompiling the guest code: every import named by a
//! manifest is replaced by an unconditional trap, and every export named by a
//! companion list is removed. Lookup is by exact qualified name, and a missing
//! required name aborts the whole operation at once.

pub mod manifest;
pub mod sockets;
pub mod strip;
pub mod wasm;
