use runtime_host::runtime::{runtime, BuildError, NestedView, RuntimeView};
use runtime_host::table::{get, insert, TableError};
use wasmtime::component::{Component, Linker};

struct Quiet;

impl NestedView for Quiet {
    fn add_all_to_linker(&mut self, _linker: &mut Linker<RuntimeView<Self>>) -> anyhow::Result<()> {
        Ok(())
    }
}

/// Claims an interface name of the OS-capability layer.
struct Clashing;

impl NestedView for Clashing {
    fn add_all_to_linker(&mut self, linker: &mut Linker<RuntimeView<Self>>) -> anyhow::Result<()> {
        linker.instance("wasi:cli/environment@0.2.0")?;
        Ok(())
    }
}

struct Greeter {
    message: String,
}

impl NestedView for Greeter {
    fn add_all_to_linker(&mut self, _linker: &mut Linker<RuntimeView<Self>>) -> anyhow::Result<()> {
        Ok(())
    }
}

const NEEDS_ENVIRONMENT: &str = r#"
(component
  (import "wasi:cli/environment@0.2.0" (instance
    (export "initial-cwd" (func))
  ))
)
"#;

#[test]
fn builds_with_and_without_os_capabilities() {
    assert!(runtime(true, Quiet).is_ok());
    assert!(runtime(false, Quiet).is_ok());
}

#[test]
fn reserved_name_collides_when_os_capabilities_installed() {
    let r = runtime(true, Clashing);
    assert!(matches!(r, Err(BuildError::Link(_))));
    let again = runtime(true, Clashing);
    assert!(matches!(again, Err(BuildError::Link(_))));
}

#[test]
fn reserved_name_is_free_without_os_capabilities() {
    assert!(runtime(false, Clashing).is_ok());
}

#[test]
fn missing_os_capabilities_fail_instantiation() {
    let rt = runtime(false, Quiet).expect("Failed to build runtime");
    let component = Component::new(&rt.engine, NEEDS_ENVIRONMENT).expect("component text");
    assert!(rt.linker.instantiate_pre(&component).is_err());
}

#[test]
fn provider_is_kept_in_the_store() {
    let rt = runtime(true, Greeter { message: "Hello, World!".to_string() }).unwrap();
    assert_eq!(rt.store.data().nested_view.message, "Hello, World!");
}

#[test]
fn view_starts_with_empty_table() {
    let mut view = RuntimeView::new(Quiet);
    assert!(matches!(get::<u32>(&view.table, 0), Err(TableError::NotFound)));
    let h = insert(&mut view.table, 3u32).unwrap();
    assert_eq!(*get::<u32>(&view.table, h).unwrap(), 3);
}
