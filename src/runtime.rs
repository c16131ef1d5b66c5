//! Assembling an engine, a linker and a store around one capability provider.

use vstd::prelude::*;
use wasmtime::component::{Linker, ResourceTable};
use wasmtime::{Engine, Store};
use wasmtime_wasi::{WasiCtx, WasiView};
use crate::outside::{live_handles, parent_handles};

verus! {

/// The per-store state that host functions run against: the resource table,
/// the OS-capability context and the caller's capability provider.
pub struct RuntimeView<T: NestedView> {
    pub table: ResourceTable,
    pub ctx: WasiCtx,
    pub nested_view: T,
}

impl<T: NestedView> RuntimeView<T> {
    /// A view around `nested_view` with an empty resource table and an
    /// OS-capability context that inherits the host's standard streams.
    pub fn new(nested_view: T) -> (r: Self)
        ensures
            r.nested_view == nested_view,
            live_handles(r.table) == Set::<u32>::empty(),
            parent_handles(r.table) == Set::<u32>::empty(),
    {
        let table = ResourceTable::new();
        let ctx = stdio_ctx();
        RuntimeView { table, ctx, nested_view }
    }
}

impl<T: Send + NestedView> WasiView for RuntimeView<T> {
    /// The resource table, lent out for the length of one host call.
    fn table(&mut self) -> (r: &mut ResourceTable)
        ensures
            *r == old(self).table,
            final(self).table == *final(r),
            final(self).ctx == old(self).ctx,
            final(self).nested_view == old(self).nested_view,
    {
        &mut self.table
    }

    /// The OS-capability context, lent out without touching the table.
    fn ctx(&mut self) -> (r: &mut WasiCtx)
        ensures
            *r == old(self).ctx,
            final(self).ctx == *final(r),
            final(self).table == old(self).table,
            final(self).nested_view == old(self).nested_view,
    {
        &mut self.ctx
    }
}

/// A capability provider: it installs the host interfaces it implements into
/// the linker of the runtime that will own it.
pub trait NestedView: Send + Sized {
    fn add_all_to_linker(&mut self, linker: &mut Linker<RuntimeView<Self>>) -> Result<(), anyhow::Error>;
}

/// An engine, a linker bound to it, and a store holding the provider.
#[verifier::reject_recursive_types(T)]
pub struct Runtime<T: NestedView> {
    pub engine: Engine,
    pub linker: Linker<RuntimeView<T>>,
    pub store: Store<RuntimeView<T>>,
}

/// Why a runtime could not be built.
#[derive(Debug)]
pub enum BuildError {
    /// The engine refused its configuration.
    EngineConfig(anyhow::Error),
    /// The OS-capability interfaces could not be installed.
    CapabilityInstall(anyhow::Error),
    /// The provider's registration failed, for instance on a name that is
    /// already bound.
    Link(anyhow::Error),
}

/// Relies on `WasiCtxBuilder`: a context whose standard streams are the host's.
#[verifier::external_body]
fn stdio_ctx() -> WasiCtx {
    wasmtime_wasi::WasiCtxBuilder::new().inherit_stdio().build()
}

/// Relies on `Engine::new`, with a `Config` that has the component model and
/// asynchronous execution switched on or off as asked.
#[verifier::external_body]
fn new_engine(component_model: bool, async_execution: bool) -> Result<Engine, anyhow::Error> {
    let mut config = wasmtime::Config::new();
    config.wasm_component_model(component_model);
    config.async_support(async_execution);
    Engine::new(&config)
}

/// Relies on `wasmtime_wasi::add_to_linker_async`: installs the OS-capability
/// interfaces into `linker`.
#[verifier::external_body]
fn install_os_capabilities<T: NestedView>(linker: &mut Linker<RuntimeView<T>>) -> Result<(), anyhow::Error> {
    wasmtime_wasi::add_to_linker_async(linker)
}

/// Builds a runtime around `nested_view`.
///
/// The engine runs components asynchronously. When `with_wasi` holds, the
/// OS-capability interfaces are installed before the provider registers its
/// own, so a provider that claims one of their names fails with `Link`. The
/// first failure is returned and no store is built.
pub fn runtime<T: NestedView>(with_wasi: bool, nested_view: T) -> (r: Result<Runtime<T>, BuildError>)
    ensures
        (r matches Err(BuildError::CapabilityInstall(_))) ==> with_wasi,
{
    let mut nested_view = nested_view;
    let engine = match new_engine(true, true) {
        Ok(e) => e,
        Err(e) => return Err(BuildError::EngineConfig(e)),
    };
    let mut linker: Linker<RuntimeView<T>> = Linker::new(&engine);
    if with_wasi {
        if let Err(e) = install_os_capabilities(&mut linker) {
            return Err(BuildError::CapabilityInstall(e));
        }
    }
    if let Err(e) = nested_view.add_all_to_linker(&mut linker) {
        return Err(BuildError::Link(e));
    }
    let view = RuntimeView::new(nested_view);
    let store = Store::new(&engine, view);
    Ok(Runtime { engine, linker, store })
}

} // verus!
