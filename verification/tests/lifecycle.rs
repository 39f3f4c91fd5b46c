//! The script lifecycle against the real engine: load, compile, instantiate.

use wasm_scripting::engine::WasmerStore;
use wasm_scripting::script::{WasmAssetLoader, WasmScript, WatAssetLoader};

const ADD_ONE: &str = r#"(module (func (export "main") (param i32) (result i32)
    local.get 0
    i32.const 1
    i32.add))"#;

fn wat_bytes(text: &str) -> Vec<u8> {
    wat::parse_str(text).expect("well-formed text module")
}

#[test]
fn load_keeps_name_and_stage() {
    let script = WasmScript::load("gravity".to_string(), vec![1, 2, 3]);
    assert_eq!(script.name(), "gravity".to_string());
    assert!(script.is_loaded());
    assert!(!script.is_compiled());
    assert!(!script.is_instantiated());
}

#[test]
fn wasm_loader_wraps_bytes() {
    let loader = WasmAssetLoader;
    assert_eq!(loader.extensions(), "wasm");
    let script = loader.load("raw".to_string(), wat_bytes(ADD_ONE));
    assert!(script.is_loaded());
    assert_eq!(script.name(), "raw".to_string());
}

#[test]
fn wat_loader_converts_text() {
    let loader = WatAssetLoader;
    assert_eq!(loader.extensions(), "wat");
    let script = loader
        .load("add_one".to_string(), ADD_ONE.as_bytes().to_vec())
        .expect("well-formed text module");
    assert!(script.is_loaded());
    assert_eq!(script.name(), "add_one".to_string());
}

#[test]
fn wat_loader_rejects_bad_text() {
    let loader = WatAssetLoader;
    let r = loader.load("broken".to_string(), b"(modul".to_vec());
    assert!(r.is_err());
}

#[test]
fn compile_valid_bytes_reaches_compiled() {
    let store = WasmerStore::new();
    let mut script = WasmScript::load("add_one".to_string(), wat_bytes(ADD_ONE));
    script.compile(&store).expect("valid module compiles");
    assert!(script.is_compiled());
    assert_eq!(script.name(), "add_one".to_string());
}

#[test]
fn compile_invalid_bytes_reports_and_stays_loaded() {
    let store = WasmerStore::new();
    let mut script = WasmScript::load("broken".to_string(), vec![0xff, 0xfe, 0x00, 0x01]);
    let err = script.compile(&store).expect_err("invalid bytes are rejected");
    assert_eq!(err.name, "broken".to_string());
    assert!(!err.message.is_empty());
    assert!(script.is_loaded());
}

#[test]
fn compile_same_bytes_twice_both_succeed() {
    let store = WasmerStore::new();
    let bytes = wat_bytes(ADD_ONE);
    let mut first = WasmScript::load("a".to_string(), bytes.clone());
    let mut second = WasmScript::load("b".to_string(), bytes);
    assert!(first.compile(&store).is_ok());
    assert!(second.compile(&store).is_ok());
    assert!(first.is_compiled());
    assert!(second.is_compiled());
}

#[test]
fn instantiate_compiled_script_with_no_imports() {
    let mut store = WasmerStore::new();
    let mut script = WasmScript::load("add_one".to_string(), wat_bytes(ADD_ONE));
    script.compile(&store).expect("valid module compiles");
    let imports = wasmer::Imports::new();
    assert!(script.instantiate_if_compiled(&mut store, &imports));
    assert!(script.is_instantiated());
    assert_eq!(script.name(), "add_one".to_string());
}

#[test]
fn instantiate_skips_raw_script() {
    let mut store = WasmerStore::new();
    let mut script = WasmScript::load("add_one".to_string(), wat_bytes(ADD_ONE));
    let imports = wasmer::Imports::new();
    assert!(!script.instantiate_if_compiled(&mut store, &imports));
    assert!(script.is_loaded());
}

#[test]
fn instantiate_fails_on_missing_import() {
    let mut store = WasmerStore::new();
    let needs_import = r#"(module
        (import "env" "notify" (func $n (param i32)))
        (func (export "run") (param i32) local.get 0 call $n))"#;
    let mut script = WasmScript::load("needs_import".to_string(), wat_bytes(needs_import));
    script.compile(&store).expect("valid module compiles");
    let imports = wasmer::Imports::new();
    assert!(!script.instantiate_if_compiled(&mut store, &imports));
    assert!(script.is_compiled());
}
