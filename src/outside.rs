//! The engine's types that the library's contracts speak of, and what is
//! relied on of the engine's functions that verified code calls directly.

use vstd::prelude::*;

verus! {

/// The engine's table of host-owned values, opaque here; see `live_handles`.
#[verifier::external_type_specification]
#[verifier::external_body]
pub struct ExResourceTable(wasmtime::component::ResourceTable);

/// A compiled-code engine, carried through opaque.
#[verifier::external_type_specification]
#[verifier::external_body]
pub struct ExEngine(wasmtime::Engine);

/// The error type of the engine's fallible calls, carried through opaque.
#[verifier::external_type_specification]
#[verifier::external_body]
pub struct ExAnyhowError(anyhow::Error);

/// The OS-capability context, carried through opaque.
#[verifier::external_type_specification]
#[verifier::external_body]
pub struct ExWasiCtx(wasmtime_wasi::WasiCtx);

/// The import-resolution registry, carried through opaque.
#[verifier::external_type_specification]
#[verifier::external_body]
#[verifier::reject_recursive_types(T)]
pub struct ExLinker<T>(wasmtime::component::Linker<T>);

/// The per-session store, carried through opaque.
#[verifier::external_type_specification]
#[verifier::external_body]
#[verifier::reject_recursive_types(T)]
pub struct ExStore<T>(wasmtime::Store<T>);

/// The handles that are live in a resource table: those that `push` handed
/// out and that `delete` has not freed since.
pub uninterp spec fn live_handles(t: wasmtime::component::ResourceTable) -> Set<u32>;

/// The handles of a resource table whose entries have child entries.
pub uninterp spec fn parent_handles(t: wasmtime::component::ResourceTable) -> Set<u32>;

/// Relies on `ResourceTable::new`: a new table holds no entry.
pub assume_specification[ wasmtime::component::ResourceTable::new ]() -> (r: wasmtime::component::ResourceTable)
    ensures
        live_handles(r) == Set::<u32>::empty(),
        parent_handles(r) == Set::<u32>::empty(),
;

/// Relies on `Linker::new`: an empty linker for components of `engine`.
pub assume_specification<T>[ wasmtime::component::Linker::<T>::new ](engine: &wasmtime::Engine) -> wasmtime::component::Linker<T>;

/// Relies on `Store::new`: a store for `engine` that owns `data`.
pub assume_specification<T>[ wasmtime::Store::<T>::new ](engine: &wasmtime::Engine, data: T) -> wasmtime::Store<T>;

} // verus!
