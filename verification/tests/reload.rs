//! Hot reload: one reload event drives every consumer onto the new module,
//! and a broken reload never silently reverts to the old behavior.

use wasm_scripting::calls::ScriptCallError;
use wasm_scripting::engine::WasmerStore;
use wasm_scripting::registry::ScriptRegistry;
use wasm_scripting::tracker::AssetEvent;
use wasm_scripting::values::WasmValue;

const V1: &str = r#"(module (func (export "main") (param i32) (result i32)
    local.get 0
    i32.const 1
    i32.add))"#;

const V2: &str = r#"(module (func (export "main") (param i32) (result i32)
    local.get 0
    i32.const 2
    i32.add))"#;

fn wat_bytes(text: &str) -> Vec<u8> {
    wat::parse_str(text).expect("well-formed text module")
}

#[test]
fn reload_reaches_every_consumer() {
    let mut store = WasmerStore::new();
    let mut registry = ScriptRegistry::new();
    let handle = 7u64;
    let imports = wasmer::Imports::new();
    let refs_a = vec![handle];
    let refs_b = vec![handle];

    // First tick: the asset is created and two consumer types pick it up.
    registry.load(handle, "counter".to_string(), wat_bytes(V1));
    let events = vec![AssetEvent::Created { handle }];
    assert!(registry.compile_wasm_scripts(&store, &events).is_empty());
    let errors =
        registry.instantiate_wasm_component_scripts(&mut store, &events, &refs_a, &refs_a, &imports);
    assert!(errors.is_empty());
    let r = registry.call_if_instantiated_1(&mut store, handle, "main", WasmValue::I32(0));
    assert_eq!(r, Ok(vec![WasmValue::I32(1)]));

    // Reload tick: new bytes arrive, both consumer types run their passes.
    registry.load(handle, "counter".to_string(), wat_bytes(V2));
    let events = vec![AssetEvent::Modified { handle }];
    assert!(registry.compile_wasm_scripts(&store, &events).is_empty());
    let none_added: Vec<u64> = Vec::new();
    let errors = registry
        .instantiate_wasm_component_scripts(&mut store, &events, &refs_a, &none_added, &imports);
    assert!(errors.is_empty());
    let r = registry.call_if_instantiated_1(&mut store, handle, "main", WasmValue::I32(0));
    assert_eq!(r, Ok(vec![WasmValue::I32(2)]));
    let errors = registry
        .instantiate_wasm_component_scripts(&mut store, &events, &refs_b, &none_added, &imports);
    assert!(errors.is_empty());
    let r = registry.call_if_instantiated_1(&mut store, handle, "main", WasmValue::I32(0));
    assert_eq!(r, Ok(vec![WasmValue::I32(2)]));
}

#[test]
fn broken_reload_never_reverts_to_old_behavior() {
    let mut store = WasmerStore::new();
    let mut registry = ScriptRegistry::new();
    let handle = 8u64;
    let imports = wasmer::Imports::new();
    let refs = vec![handle];

    registry.load(handle, "counter".to_string(), wat_bytes(V1));
    let events = vec![AssetEvent::Created { handle }];
    assert!(registry.compile_wasm_scripts(&store, &events).is_empty());
    registry.instantiate_wasm_component_scripts(&mut store, &events, &refs, &refs, &imports);
    let r = registry.call_if_instantiated_1(&mut store, handle, "main", WasmValue::I32(0));
    assert_eq!(r, Ok(vec![WasmValue::I32(1)]));

    // The reload carries rejected bytes: the script stays un-instantiated and
    // the old instance is gone; calls skip instead of running stale code.
    registry.load(handle, "counter".to_string(), vec![0xde, 0xad, 0xbe, 0xef]);
    let events = vec![AssetEvent::Modified { handle }];
    let errors = registry.compile_wasm_scripts(&store, &events);
    assert_eq!(errors.len(), 1);
    assert_eq!(errors[0].name, "counter".to_string());
    let none_added: Vec<u64> = Vec::new();
    registry.instantiate_wasm_component_scripts(&mut store, &events, &refs, &none_added, &imports);
    let r = registry.call_if_instantiated_1(&mut store, handle, "main", WasmValue::I32(0));
    assert_eq!(r, Err(ScriptCallError::NotYetInstantiated));
}

#[test]
fn resource_script_reinstantiates_on_reload() {
    let mut store = WasmerStore::new();
    let mut registry = ScriptRegistry::new();
    let handle = 9u64;
    let imports = wasmer::Imports::new();

    registry.load(handle, "singleton".to_string(), wat_bytes(V1));
    registry
        .compile_if_loaded(&store, handle)
        .expect("valid module compiles");
    assert_eq!(
        registry.instantiate_if_compiled(&mut store, handle, &imports),
        Ok(true)
    );
    let r = registry.call_if_instantiated_1(&mut store, handle, "main", WasmValue::I32(0));
    assert_eq!(r, Ok(vec![WasmValue::I32(1)]));

    registry.load(handle, "singleton".to_string(), wat_bytes(V2));
    let events = vec![AssetEvent::Modified { handle }];
    assert!(registry.compile_wasm_scripts(&store, &events).is_empty());
    let published = registry
        .instantiate_wasm_resource_scripts(&mut store, &events, Some(handle), &imports)
        .expect("relinking succeeds");
    assert!(published);
    let r = registry.call_if_instantiated_1(&mut store, handle, "main", WasmValue::I32(0));
    assert_eq!(r, Ok(vec![WasmValue::I32(2)]));

    // A consumer that has not picked a script yet does nothing.
    let skipped = registry
        .instantiate_wasm_resource_scripts(&mut store, &events, None, &imports)
        .expect("nothing to do");
    assert!(!skipped);
}

#[test]
fn unknown_handle_is_reported_missing() {
    let mut store = WasmerStore::new();
    let mut registry = ScriptRegistry::new();
    let imports = wasmer::Imports::new();
    let r = registry.instantiate_if_compiled(&mut store, 42, &imports);
    assert!(r.is_err());
}
