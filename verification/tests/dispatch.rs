//! Call dispatch and its uniform error classification, arity by arity.

use wasm_scripting::calls::ScriptCallError;
use wasm_scripting::engine::WasmerStore;
use wasm_scripting::registry::ScriptRegistry;
use wasm_scripting::values::WasmValue;

const ADD_ONE: &str = r#"(module (func (export "main") (param i32) (result i32)
    local.get 0
    i32.const 1
    i32.add))"#;

const BOOM: &str = r#"(module (func (export "boom") unreachable))"#;

const FLOATY: &str = r#"(module (func (export "half") (param f32) (result f32)
    local.get 0))"#;

fn wat_bytes(text: &str) -> Vec<u8> {
    wat::parse_str(text).expect("well-formed text module")
}

fn instantiated_registry(text: &str, handle: u64) -> (ScriptRegistry, WasmerStore) {
    let mut store = WasmerStore::new();
    let mut registry = ScriptRegistry::new();
    registry.load(handle, "module_under_test".to_string(), wat_bytes(text));
    registry
        .compile_if_loaded(&store, handle)
        .expect("valid module compiles");
    let imports = wasmer::Imports::new();
    let published = registry
        .instantiate_if_compiled(&mut store, handle, &imports)
        .expect("linking with no imports succeeds");
    assert!(published);
    (registry, store)
}

#[test]
fn call_main_returns_incremented() {
    let (registry, mut store) = instantiated_registry(ADD_ONE, 1);
    let r = registry.call_if_instantiated_1(&mut store, 1, "main", WasmValue::I32(0));
    assert_eq!(r, Ok(vec![WasmValue::I32(1)]));
}

#[test]
fn call_missing_fn_is_export_error() {
    let (registry, mut store) = instantiated_registry(ADD_ONE, 1);
    let r = registry.call_if_instantiated_1(&mut store, 1, "missing_fn", WasmValue::I32(0));
    assert_eq!(r, Err(ScriptCallError::ExportMissingOrMismatched));
}

#[test]
fn missing_export_uniform_across_arities() {
    let (registry, mut store) = instantiated_registry(ADD_ONE, 1);
    let v = WasmValue::I32(7);
    let results = vec![
        registry.call_if_instantiated_0(&mut store, 1, "nope"),
        registry.call_if_instantiated_1(&mut store, 1, "nope", v),
        registry.call_if_instantiated_2(&mut store, 1, "nope", v, v),
        registry.call_if_instantiated_3(&mut store, 1, "nope", v, v, v),
        registry.call_if_instantiated_4(&mut store, 1, "nope", v, v, v, v),
        registry.call_if_instantiated_5(&mut store, 1, "nope", v, v, v, v, v),
    ];
    for r in results {
        assert_eq!(r, Err(ScriptCallError::ExportMissingOrMismatched));
    }
}

#[test]
fn arity_mismatch_is_export_error() {
    let (registry, mut store) = instantiated_registry(ADD_ONE, 1);
    let v = WasmValue::I32(7);
    let r = registry.call_if_instantiated_2(&mut store, 1, "main", v, v);
    assert_eq!(r, Err(ScriptCallError::ExportMissingOrMismatched));
    let r = registry.call_if_instantiated_0(&mut store, 1, "main");
    assert_eq!(r, Err(ScriptCallError::ExportMissingOrMismatched));
}

#[test]
fn kind_mismatch_is_export_error() {
    let (registry, mut store) = instantiated_registry(ADD_ONE, 1);
    let r = registry.call_if_instantiated_1(&mut store, 1, "main", WasmValue::I64(0));
    assert_eq!(r, Err(ScriptCallError::ExportMissingOrMismatched));
}

#[test]
fn uncarriable_signature_is_export_error() {
    let (registry, mut store) = instantiated_registry(FLOATY, 1);
    let r = registry.call_if_instantiated_1(&mut store, 1, "half", WasmValue::I32(0));
    assert_eq!(r, Err(ScriptCallError::ExportMissingOrMismatched));
}

#[test]
fn unknown_handle_is_not_loaded() {
    let (registry, mut store) = instantiated_registry(ADD_ONE, 1);
    let r = registry.call_if_instantiated_0(&mut store, 99, "main");
    assert_eq!(r, Err(ScriptCallError::AssetNotLoaded));
}

#[test]
fn uninstantiated_stages_are_not_yet_instantiated() {
    let mut store = WasmerStore::new();
    let mut registry = ScriptRegistry::new();
    registry.load(4, "add_one".to_string(), wat_bytes(ADD_ONE));
    let r = registry.call_if_instantiated_1(&mut store, 4, "main", WasmValue::I32(0));
    assert_eq!(r, Err(ScriptCallError::NotYetInstantiated));
    registry
        .compile_if_loaded(&store, 4)
        .expect("valid module compiles");
    let r = registry.call_if_instantiated_1(&mut store, 4, "main", WasmValue::I32(0));
    assert_eq!(r, Err(ScriptCallError::NotYetInstantiated));
}

#[test]
fn trap_is_runtime_error_and_instance_survives() {
    let (registry, mut store) = instantiated_registry(BOOM, 1);
    let first = registry.call_if_instantiated_0(&mut store, 1, "boom");
    assert!(matches!(first, Err(ScriptCallError::TrapOrRuntimeError(_))));
    let second = registry.call_if_instantiated_0(&mut store, 1, "boom");
    assert!(matches!(second, Err(ScriptCallError::TrapOrRuntimeError(_))));
}

#[test]
fn call_with_foreign_store_is_runtime_error_and_never_runs() {
    let (registry, _own_store) = instantiated_registry(ADD_ONE, 1);
    let mut other_store = WasmerStore::new();
    let r = registry.call_if_instantiated_1(&mut other_store, 1, "main", WasmValue::I32(0));
    assert!(matches!(r, Err(ScriptCallError::TrapOrRuntimeError(_))));
}

#[test]
fn pure_call_twice_gives_identical_results() {
    let (registry, mut store) = instantiated_registry(ADD_ONE, 1);
    let first = registry.call_if_instantiated_1(&mut store, 1, "main", WasmValue::I32(41));
    let second = registry.call_if_instantiated_1(&mut store, 1, "main", WasmValue::I32(41));
    assert_eq!(first, Ok(vec![WasmValue::I32(42)]));
    assert_eq!(first, second);
}
