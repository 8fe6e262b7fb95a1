use componentize::encode::encode_component;
use componentize::encode::encode_component_default_adapter;
use componentize::error::EncodeError;

/// A small command-style module: it exports a function that adds two
/// numbers, together with the `_start` entry point and the memory that
/// the preview 1 adapter expects, and it uses one preview 1 import.
fn add_module() -> Vec<u8> {
    wat::parse_str(
        r#"(module
            (import "wasi_snapshot_preview1" "proc_exit" (func $proc_exit (param i32)))
            (memory (export "memory") 1)
            (func (export "add") (param i32 i32) (result i32)
                local.get 0
                local.get 1
                i32.add)
            (func (export "_start")
                i32.const 0
                call $proc_exit))"#,
    )
    .unwrap()
}

fn assert_valid_component(bytes: &[u8]) {
    let mut validator =
        wasmparser::Validator::new_with_features(wasmparser::WasmFeatures::all());
    validator.validate_all(bytes).unwrap();
}

#[test]
fn default_adapter_composes_command_module() {
    let module = add_module();
    let result = encode_component_default_adapter(&module);
    let component = match result {
        Ok(bytes) => bytes,
        Err(e) => panic!("encoding failed: {:?}", e),
    };
    assert_valid_component(&component);
    assert_ne!(component, module);
    assert_eq!(&component[0..4], b"\0asm");
}

#[test]
fn malformed_module_reports_decode() {
    let module: Vec<u8> = vec![1, 2, 3, 4];
    let result = encode_component_default_adapter(&module);
    assert!(matches!(result, Err(EncodeError::Decode)), "got {:?}", result);
}

#[test]
fn empty_module_bytes_report_decode() {
    let module: Vec<u8> = Vec::new();
    let result = encode_component_default_adapter(&module);
    assert!(matches!(result, Err(EncodeError::Decode)), "got {:?}", result);
}

#[test]
fn garbage_adapter_reports_mismatch() {
    let module = add_module();
    let adapter: Vec<u8> = b"not an adapter".to_vec();
    let result = encode_component(
        &module,
        wasi_preview1_component_adapter_provider::WASI_SNAPSHOT_PREVIEW1_ADAPTER_NAME,
        &adapter,
    );
    assert!(
        matches!(result, Err(EncodeError::AdapterMismatch)),
        "got {:?}",
        result
    );
}

#[test]
fn adapter_under_unexpected_name_fails() {
    let module = add_module();
    let adapter =
        wasi_preview1_component_adapter_provider::WASI_SNAPSHOT_PREVIEW1_COMMAND_ADAPTER.to_vec();
    let result = encode_component(&module, "wasi_other_namespace", &adapter);
    match result {
        Err(EncodeError::Validation) => {}
        other => panic!("got {:?}", other.map(|b| b.len())),
    }
}

#[test]
fn same_inputs_give_identical_bytes() {
    let module = add_module();
    let first = encode_component_default_adapter(&module).unwrap();
    let second = encode_component_default_adapter(&module).unwrap();
    assert_eq!(first, second);
}

#[test]
fn default_matches_explicit_provider_adapter() {
    let module = add_module();
    let adapter =
        wasi_preview1_component_adapter_provider::WASI_SNAPSHOT_PREVIEW1_COMMAND_ADAPTER.to_vec();
    let explicit = encode_component(
        &module,
        wasi_preview1_component_adapter_provider::WASI_SNAPSHOT_PREVIEW1_ADAPTER_NAME,
        &adapter,
    )
    .unwrap();
    let defaulted = encode_component_default_adapter(&module).unwrap();
    assert_eq!(explicit, defaulted);
}

#[test]
fn messages_name_each_failure() {
    assert_eq!(
        EncodeError::Decode.message(),
        "input does not decode as a core wasm module"
    );
    assert_eq!(
        EncodeError::AdapterMismatch.message(),
        "adapter was not accepted under the expected name"
    );
    assert_eq!(
        EncodeError::Validation.message(),
        "composed component failed encoding or validation"
    );
}
