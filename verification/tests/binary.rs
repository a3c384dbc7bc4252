use programs::binary::{ExportTable, Import, MemoryType, WasmBinary};
use programs::error::ModuleError;
use programs::module::ModuleMod;
use programs::types::{Export, ExportKind, FunctionType, GlobalInit, Value, ValueType};

fn memory(initial: u64, maximum: Option<u64>) -> MemoryType {
    MemoryType { initial, maximum, memory64: false, shared: false }
}

fn import(offset: u32) -> Import {
    Import { module: "env".to_owned(), name: "host".to_owned(), offset }
}

/// Two signatures, one imported function and two functions of its own.
fn sample() -> WasmBinary {
    let mut binary = WasmBinary::new();
    binary.types.push(FunctionType::new(vec![ValueType::I32], vec![]));
    binary.types.push(FunctionType::new(
        vec![ValueType::I64, ValueType::F64],
        vec![ValueType::I32],
    ));
    binary.imports.push(import(1));
    binary.functions.push(0);
    binary.functions.push(7);
    binary.names.functions.insert(9, "ghost".to_owned());
    binary
}

#[test]
fn binary_limit_heap_caps_an_unbounded_memory_then_refuses_a_smaller_limit() {
    let mut binary = WasmBinary::new();
    binary.memories.push(memory(2, None));
    assert_eq!(binary.limit_heap(10), Ok(()));
    assert_eq!(binary.memories[0].maximum, Some(10));
    assert_eq!(
        binary.limit_heap(1),
        Err(ModuleError::MemoryBoundViolation { minimum: 2, limit: 1 })
    );
    assert_eq!(binary.memories[0], memory(2, Some(10)));
}

#[test]
fn binary_limit_heap_keeps_a_smaller_maximum() {
    let mut binary = WasmBinary::new();
    binary.memories.push(MemoryType { initial: 1, maximum: Some(4), memory64: true, shared: true });
    assert_eq!(binary.limit_heap(10), Ok(()));
    assert_eq!(
        binary.memories[0],
        MemoryType { initial: 1, maximum: Some(4), memory64: true, shared: true }
    );
}

#[test]
fn binary_limit_heap_lowers_a_larger_maximum() {
    let mut binary = WasmBinary::new();
    binary.memories.push(memory(3, Some(1 << 40)));
    assert_eq!(binary.limit_heap(3), Ok(()));
    assert_eq!(binary.memories[0].maximum, Some(3));
}

#[test]
fn binary_limit_heap_refuses_a_minimum_above_the_old_maximum() {
    let mut binary = WasmBinary::new();
    binary.memories.push(memory(5, Some(4)));
    assert_eq!(
        binary.limit_heap(10),
        Err(ModuleError::MemoryBoundViolation { minimum: 5, limit: 4 })
    );
    assert_eq!(binary.memories[0], memory(5, Some(4)));
}

#[test]
fn binary_limit_heap_does_nothing_without_memory() {
    let mut binary = WasmBinary::new();
    assert_eq!(binary.limit_heap(0), Ok(()));
    assert!(binary.memories.is_empty());
}

#[test]
fn binary_limit_heap_refuses_several_memories_whatever_the_limit() {
    for limit in [0, 1, 10, u32::MAX] {
        let mut binary = WasmBinary::new();
        binary.memories.push(memory(1, None));
        binary.memories.push(memory(1, Some(2)));
        assert_eq!(binary.limit_heap(limit), Err(ModuleError::UnsupportedMultiMemory));
        assert_eq!(binary.memories, vec![memory(1, None), memory(1, Some(2))]);
    }
}

#[test]
fn binary_add_global_exports_a_fresh_global() {
    let mut binary = WasmBinary::new();
    binary.globals.push(Value::I32(5));
    let index = binary.add_global("cost_left", ValueType::I64, GlobalInit::I64Const(0));
    assert_eq!(index, Ok(1));
    assert_eq!(binary.globals, vec![Value::I32(5), Value::I64(0)]);
    assert_eq!(
        binary.exports.get("cost_left"),
        Some(Export { kind: ExportKind::Global, index: 1 })
    );
    assert_eq!(binary.exports.len(), 1);
}

#[test]
fn binary_add_global_rejects_a_duplicate_name() {
    let mut binary = WasmBinary::new();
    assert_eq!(binary.add_global("depth", ValueType::I32, GlobalInit::I32Const(7)), Ok(0));
    assert_eq!(
        binary.add_global("depth", ValueType::I32, GlobalInit::I32Const(8)),
        Err(ModuleError::DuplicateExport { name: "depth".to_owned() })
    );
    assert_eq!(binary.globals, vec![Value::I32(7)]);
    assert_eq!(binary.exports.len(), 1);
}

#[test]
fn binary_add_global_holds_a_negative_constant_by_its_bits() {
    let mut binary = WasmBinary::new();
    assert_eq!(binary.add_global("a", ValueType::I32, GlobalInit::I32Const(-1)), Ok(0));
    assert_eq!(binary.add_global("b", ValueType::I64, GlobalInit::I64Const(-2)), Ok(1));
    assert_eq!(binary.globals, vec![Value::I32(u32::MAX), Value::I64(u64::MAX - 1)]);
}

#[test]
fn binary_add_global_refuses_other_constants_before_it_looks_at_the_name() {
    let mut binary = WasmBinary::new();
    assert_eq!(binary.add_global("taken", ValueType::I32, GlobalInit::I32Const(0)), Ok(0));
    for init in [GlobalInit::V128Const(1), GlobalInit::RefNullConst] {
        for name in ["taken", "free"] {
            assert_eq!(
                binary.add_global(name, ValueType::V128, init),
                Err(ModuleError::UnsupportedInitializer { init })
            );
        }
    }
    assert_eq!(binary.globals.len(), 1);
    assert_eq!(binary.exports.len(), 1);
}

#[test]
fn binary_get_signature_answers_by_index() {
    let binary = sample();
    assert_eq!(binary.get_signature(0), Ok(FunctionType::new(vec![ValueType::I32], vec![])));
    assert_eq!(
        binary.get_signature(1),
        Ok(FunctionType::new(vec![ValueType::I64, ValueType::F64], vec![ValueType::I32]))
    );
    assert_eq!(binary.get_signature(2), Err(ModuleError::MissingSignature { index: 2 }));
    assert_eq!(
        binary.get_signature(u32::MAX),
        Err(ModuleError::MissingSignature { index: u32::MAX })
    );
}

#[test]
fn binary_get_function_counts_imports_first() {
    let binary = sample();
    assert_eq!(
        binary.get_function(0),
        Ok(FunctionType::new(vec![ValueType::I64, ValueType::F64], vec![ValueType::I32]))
    );
    assert_eq!(binary.get_function(1), Ok(FunctionType::new(vec![ValueType::I32], vec![])));
    assert_eq!(binary.get_function(2), Err(ModuleError::MissingSignature { index: 7 }));
}

#[test]
fn binary_get_function_reports_a_missing_function_with_its_name() {
    let binary = sample();
    assert_eq!(
        binary.get_function(3),
        Err(ModuleError::MissingFunction { index: 3, function_name: None })
    );
    assert_eq!(
        binary.get_function(9),
        Err(ModuleError::MissingFunction { index: 9, function_name: Some("ghost".to_owned()) })
    );
}

#[test]
fn binary_move_start_function_exports_the_start_function() {
    let mut binary = sample();
    binary.start = Some(2);
    binary.exports.insert("memory".to_owned(), Export { kind: ExportKind::Memory, index: 0 });
    assert_eq!(binary.move_start_function("entry"), Ok(()));
    assert_eq!(binary.start, None);
    assert_eq!(binary.exports.get("entry"), Some(Export { kind: ExportKind::Func, index: 2 }));
    assert_eq!(binary.exports.get("memory"), Some(Export { kind: ExportKind::Memory, index: 0 }));
    assert_eq!(binary.exports.len(), 2);
    assert_eq!(binary.names.functions.get(&2), Some(&"entry".to_owned()));
}

#[test]
fn binary_move_start_function_does_nothing_without_a_start_function() {
    let mut binary = sample();
    binary.exports.insert("memory".to_owned(), Export { kind: ExportKind::Memory, index: 0 });
    assert_eq!(binary.move_start_function("entry"), Ok(()));
    assert_eq!(binary.start, None);
    assert_eq!(binary.exports.get("entry"), None);
    assert_eq!(binary.exports.len(), 1);
    assert_eq!(binary.names.functions.len(), 1);
}

#[test]
fn binary_move_start_function_refuses_a_name_in_use() {
    let prior = Export { kind: ExportKind::Func, index: 1 };
    for start in [Some(2), None] {
        let mut binary = sample();
        binary.start = start;
        binary.exports.insert("entry".to_owned(), prior);
        assert_eq!(
            binary.move_start_function("entry"),
            Err(ModuleError::NameCollision { name: "entry".to_owned(), prior })
        );
        assert_eq!(binary.start, start);
        assert_eq!(binary.exports.get("entry"), Some(prior));
        assert_eq!(binary.names.functions.len(), 1);
    }
}

#[test]
fn export_table_keeps_each_name_once() {
    let mut table = ExportTable::new();
    let first = Export { kind: ExportKind::Table, index: 4 };
    let second = Export { kind: ExportKind::Global, index: 6 };
    assert_eq!(table.len(), 0);
    assert!(!table.contains_key("x"));
    assert_eq!(table.insert("x".to_owned(), first), None);
    assert_eq!(table.insert("y".to_owned(), first), None);
    assert_eq!(table.insert("x".to_owned(), second), Some(first));
    assert_eq!(table.len(), 2);
    assert!(table.contains_key("x"));
    assert_eq!(table.get("x"), Some(second));
    assert_eq!(table.get("y"), Some(first));
    assert_eq!(table.get(""), None);
}
