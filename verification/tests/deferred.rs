//! Deferred commands: proposed during a call, visible to the world only after
//! the flush, in proposal order.

use std::sync::{Arc, Mutex};

use wasm_scripting::commands::ScriptCommandQueue;
use wasm_scripting::engine::WasmerStore;
use wasm_scripting::registry::ScriptRegistry;
use wasm_scripting::values::WasmValue;

const SPAWNER: &str = r#"(module
    (import "env" "enqueue" (func $e (param i32)))
    (func (export "run") (param i32) local.get 0 call $e))"#;

fn wat_bytes(text: &str) -> Vec<u8> {
    wat::parse_str(text).expect("well-formed text module")
}

#[test]
fn flush_hands_over_in_fifo_order() {
    let mut q: ScriptCommandQueue<i64> = ScriptCommandQueue::new();
    q.enqueue(1);
    q.enqueue(2);
    q.enqueue(3);
    assert_eq!(q.len(), 3);
    let drained = q.flush();
    assert_eq!(drained, vec![1, 2, 3]);
    assert_eq!(q.len(), 0);
    assert!(q.flush().is_empty());
}

#[test]
fn default_queue_is_empty() {
    let q: ScriptCommandQueue<i64> = Default::default();
    assert_eq!(q.len(), 0);
}

#[test]
fn deferred_command_applies_only_at_flush() {
    let queue = Arc::new(Mutex::new(ScriptCommandQueue::<i64>::new()));
    let mut store = WasmerStore::new();
    let mut registry = ScriptRegistry::new();
    registry.load(3, "spawner".to_string(), wat_bytes(SPAWNER));
    registry
        .compile_if_loaded(&store, 3)
        .expect("valid module compiles");

    let mut imports = wasmer::Imports::new();
    let inner = Arc::clone(&queue);
    let host_enqueue = wasmer::Function::new_typed(&mut store.0, move |x: i32| {
        inner.lock().unwrap().enqueue(x as i64);
    });
    imports.define("env", "enqueue", host_enqueue);
    assert_eq!(
        registry.instantiate_if_compiled(&mut store, 3, &imports),
        Ok(true)
    );

    let mut world: Vec<i64> = Vec::new();
    let r = registry.call_if_instantiated_1(&mut store, 3, "run", WasmValue::I32(11));
    assert_eq!(r, Ok(vec![]));

    // Proposed during the call, but the world must not reflect it yet.
    assert!(world.is_empty());
    assert_eq!(queue.lock().unwrap().len(), 1);

    // After the flush the world reflects it, exactly once.
    for command in queue.lock().unwrap().flush() {
        world.push(command);
    }
    assert_eq!(world, vec![11]);
    assert_eq!(queue.lock().unwrap().len(), 0);
}
