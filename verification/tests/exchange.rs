use guest_exchange::engine::{Engine, ExchangeError, ExportKind, FALLBACK_BASE};
use wasmer::sys::NativeEngineExt;

/// A store whose memories are allocated dynamically, page by page, instead
/// of reserving the full 32-bit address range up front.
fn test_store() -> wasmer::Store {
    let mut engine = wasmer::Engine::default();
    engine.set_tunables(wasmer::sys::BaseTunables {
        static_memory_bound: wasmer::Pages(0),
        static_memory_offset_guard_size: 0,
        dynamic_memory_offset_guard_size: 0,
    });
    wasmer::Store::new(engine)
}

fn instantiate(wat: &str) -> (wasmer::Store, wasmer::Instance) {
    let mut store = test_store();
    let module = wasmer::Module::new(&store, wat).expect("test module must compile");
    let imports = wasmer::Imports::new();
    let instance =
        wasmer::Instance::new(&mut store, &module, &imports).expect("test module must instantiate");
    (store, instance)
}

fn engine_for(wat: &str) -> Engine {
    let (store, instance) = instantiate(wat);
    Engine::from_instance(store, &instance).expect("exports must be present")
}

/// A guest that echoes the request: it writes a descriptor at 1048576 whose
/// length is the request's length prefix and whose pointer is the request
/// payload, and returns the descriptor's address.
const ECHO_GUEST: &str = r#"
(module
  (memory (export "memory") 20)
  (func (export "main") (param i32) (result i32)
    (i32.store (i32.const 1048576) (i32.load (local.get 0)))
    (i32.store (i32.const 1048580) (i32.add (local.get 0) (i32.const 4)))
    (i32.const 1048576)))
"#;

#[test]
fn envelope_written_into_guest_memory() {
    let mut engine = engine_for(ECHO_GUEST);
    assert_eq!(engine.base_address(), FALLBACK_BASE);
    let payload = vec![9u8, 8, 7];
    engine.grow_for(payload.len() as u64 + 4).expect("growth must succeed");
    engine.place_request(&payload).expect("the envelope must fit after growth");
    let base = u64::from(engine.base_address());
    let written = engine.read(base, 7).expect("the envelope must be readable back");
    assert_eq!(written, vec![3, 0, 0, 0, 9, 8, 7]);
}

#[test]
fn growth_adds_whole_pages() {
    let mut engine = engine_for(ECHO_GUEST);
    let before = engine.memory_size();
    engine.grow_for(100).expect("growth must succeed");
    let after = engine.memory_size();
    assert_eq!(after, before + 65536);
    assert!(after >= before + 100);
    engine.grow_for(65537).expect("growth must succeed");
    assert_eq!(engine.memory_size(), after + 2 * 65536);
}

#[test]
fn truncated_placement_rejected() {
    let mut engine = engine_for(ECHO_GUEST);
    // Skip the growth step and ask for more than the current memory holds.
    let size = engine.memory_size();
    let payload = vec![1u8; (size - u64::from(FALLBACK_BASE)) as usize];
    let result = engine.place_request(&payload);
    assert!(matches!(result, Err(ExchangeError::OutOfBounds { .. })));
    // Nothing was written: the memory kept its size and the engine its use.
    assert_eq!(engine.memory_size(), size);
    assert!(engine.ready());
}

#[test]
fn bytes_round_trip_through_guest() {
    let mut engine = engine_for(ECHO_GUEST);
    let payload = b"hello guest".to_vec();
    let out = engine.run_bytes(&payload).expect("the echo exchange must succeed");
    assert_eq!(out, payload);
    assert!(engine.ready());
}

#[test]
fn response_descriptor_resolved_exactly() {
    let mut engine = engine_for(ECHO_GUEST);
    let payload = vec![5u8, 6, 7, 8];
    engine.run_bytes(&payload).expect("the echo exchange must succeed");
    // The echo guest leaves its descriptor at 1048576: length 4, pointer to
    // the payload inside the request envelope.
    let descriptor = engine.read(1048576, 8).expect("the descriptor must be readable");
    let base = engine.base_address();
    let mut expected = vec![4u8, 0, 0, 0];
    expected.extend((base + 4).to_le_bytes());
    assert_eq!(descriptor, expected);
    let located = engine.resolve_response(1048576).expect("the descriptor must resolve");
    assert_eq!(located, payload);
}

#[test]
fn value_round_trip_through_guest() {
    let mut engine = engine_for(ECHO_GUEST);
    let mut record = serde_json::Map::new();
    record.insert("name".to_string(), serde_json::Value::String("James".to_string()));
    record.insert("age".to_string(), serde_json::Value::from(50u32));
    record.insert("money".to_string(), serde_json::Value::from(50.60f64));
    let input = serde_json::Value::Object(record);
    let output = engine.run(&input).expect("the echo exchange must succeed");
    assert_eq!(output, input);
    // The engine stays usable after a completed call and may run again.
    assert!(engine.ready());
    let second = engine.run(&serde_json::Value::from(7u32)).expect("a second call must succeed");
    assert_eq!(second, serde_json::Value::from(7u32));
}

#[test]
fn heap_start_export_chooses_base() {
    let wat = r#"
(module
  (memory (export "memory") 3)
  (global (export "__heap_base") i32 (i32.const 131072))
  (func (export "main") (param i32) (result i32)
    (i32.store (i32.const 1024) (i32.load (local.get 0)))
    (i32.store (i32.const 1028) (i32.add (local.get 0) (i32.const 4)))
    (i32.const 1024)))
"#;
    let mut engine = engine_for(wat);
    assert_eq!(engine.base_address(), 131072);
    let out = engine.run_bytes(&vec![1u8, 2, 3]).expect("the echo exchange must succeed");
    assert_eq!(out, vec![1, 2, 3]);
}

#[test]
fn high_heap_start_read_unsigned() {
    // A 32-bit heap-start marker is an address: a value with the top bit
    // set is taken unsigned, not as a negative number to fall back from.
    let wat = r#"
(module
  (memory (export "memory") 2)
  (global (export "__heap_base") i32 (i32.const -65536))
  (func (export "main") (param i32) (result i32)
    (i32.const 0)))
"#;
    let engine = engine_for(wat);
    assert_eq!(engine.base_address(), 0xFFFF0000u32);
}

#[test]
fn foreign_store_rejected() {
    // An instance whose exports live in another store can never be driven:
    // the pairing is refused at construction, before any memory operation.
    let (_home_store, instance) = instantiate(ECHO_GUEST);
    let other_store = test_store();
    let result = Engine::from_instance(other_store, &instance);
    assert!(matches!(result, Err(ExchangeError::StoreMismatch)));
}

#[test]
fn missing_entry_point_reported() {
    let (store, instance) = instantiate(r#"(module (memory (export "memory") 1))"#);
    let result = Engine::from_instance(store, &instance);
    assert!(matches!(
        result,
        Err(ExchangeError::MissingExport { export: ExportKind::EntryPoint })
    ));
}

#[test]
fn missing_memory_reported() {
    let wat = r#"(module (func (export "main") (param i32) (result i32) (i32.const 0)))"#;
    let (store, instance) = instantiate(wat);
    let result = Engine::from_instance(store, &instance);
    assert!(matches!(
        result,
        Err(ExchangeError::MissingExport { export: ExportKind::LinearMemory })
    ));
}

#[test]
fn two_results_rejected() {
    let wat = r#"
(module
  (memory (export "memory") 20)
  (func (export "main") (param i32) (result i32 i32)
    (i32.const 1)
    (i32.const 2)))
"#;
    let mut engine = engine_for(wat);
    let result = engine.run_bytes(&vec![1u8]);
    assert!(matches!(result, Err(ExchangeError::UnexpectedResultShape { arity: 2 })));
    assert!(!engine.ready());
}

#[test]
fn non_integer_result_rejected() {
    let wat = r#"
(module
  (memory (export "memory") 20)
  (func (export "main") (param i32) (result f32)
    (f32.const 1)))
"#;
    let mut engine = engine_for(wat);
    let result = engine.run_bytes(&vec![1u8]);
    assert!(matches!(result, Err(ExchangeError::UnexpectedResultShape { arity: 1 })));
    assert!(!engine.ready());
}

#[test]
fn trapping_guest_spends_the_engine() {
    let wat = r#"
(module
  (memory (export "memory") 20)
  (func (export "main") (param i32) (result i32)
    unreachable))
"#;
    let mut engine = engine_for(wat);
    let result = engine.run_bytes(&vec![1u8]);
    assert!(matches!(result, Err(ExchangeError::Trap { .. })));
    // A failed call leaves the guest memory in an undefined state: the
    // engine refuses further exchanges and must be discarded.
    assert!(!engine.ready());
}

#[test]
fn descriptor_out_of_bounds_rejected() {
    let wat = r#"
(module
  (memory (export "memory") 20)
  (func (export "main") (param i32) (result i32)
    (i32.const 99999999)))
"#;
    let mut engine = engine_for(wat);
    let result = engine.run_bytes(&vec![1u8]);
    assert!(matches!(result, Err(ExchangeError::MalformedResponse { .. })));
    assert!(!engine.ready());
}

#[test]
fn payload_out_of_bounds_rejected() {
    // A descriptor inside the memory whose pointer field reaches past its
    // end: the first resolution step succeeds, the second must fail.
    let wat = r#"
(module
  (memory (export "memory") 20)
  (func (export "main") (param i32) (result i32)
    (i32.store (i32.const 64) (i32.const 16))
    (i32.store (i32.const 68) (i32.const 99999999))
    (i32.const 64)))
"#;
    let mut engine = engine_for(wat);
    let result = engine.run_bytes(&vec![1u8]);
    assert!(matches!(
        result,
        Err(ExchangeError::MalformedResponse { pointer: 99999999, length: 16, .. })
    ));
}

#[test]
fn tax_record_scenario() {
    // The illustrative schema: {name:"James", age:50, money:50.60} yields
    // {name:"James", taxes:253.0}, the tax computed in single precision.
    let taxes = 50u32 as f32 * 50.60f32 * 0.10f32;
    assert_eq!(taxes, 253.0f32);

    let mut expected_record = serde_json::Map::new();
    expected_record.insert("name".to_string(), serde_json::Value::String("James".to_string()));
    expected_record.insert("taxes".to_string(), serde_json::Value::from(f64::from(taxes)));
    let expected = serde_json::Value::Object(expected_record);
    let canned = rmp_serde::to_vec(&expected).expect("the canned response must encode");
    let escaped: String = canned.iter().map(|b| format!("\\{b:02x}")).collect();
    let wat = format!(
        r#"
(module
  (memory (export "memory") 20)
  (data (i32.const 4096) "{escaped}")
  (func (export "main") (param i32) (result i32)
    (i32.store (i32.const 64) (i32.const {len}))
    (i32.store (i32.const 68) (i32.const 4096))
    (i32.const 64)))
"#,
        len = canned.len()
    );
    let mut engine = engine_for(&wat);

    let mut record = serde_json::Map::new();
    record.insert("name".to_string(), serde_json::Value::String("James".to_string()));
    record.insert("age".to_string(), serde_json::Value::from(50u32));
    record.insert("money".to_string(), serde_json::Value::from(50.60f64));
    let input = serde_json::Value::Object(record);
    let output = engine.run(&input).expect("the tax exchange must succeed");
    assert_eq!(output, expected);
}
