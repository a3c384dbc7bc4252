use programs::error::ModuleError;
use programs::info::{engine_type, value_type};
use programs::module::ModuleMod;
use programs::types::{Export, ExportKind, FunctionType, GlobalInit, ValueType};
use wasmer_types::{
    ExportIndex, FunctionIndex, GlobalIndex, GlobalType, MemoryIndex, MemoryType, ModuleInfo,
    Mutability, Pages, SignatureIndex, Type,
};

/// Two signatures and three functions, the last with a signature that the
/// module lacks.
fn sample() -> ModuleInfo {
    let mut info = ModuleInfo::new();
    info.signatures.push(wasmer_types::FunctionType::new(vec![Type::I32], vec![]));
    info.signatures.push(wasmer_types::FunctionType::new(
        vec![Type::I64, Type::F64, Type::V128],
        vec![Type::FuncRef, Type::ExternRef, Type::F32],
    ));
    info.functions.push(SignatureIndex::from_u32(1));
    info.functions.push(SignatureIndex::from_u32(0));
    info.functions.push(SignatureIndex::from_u32(7));
    info.num_imported_functions = 1;
    info.function_names.insert(FunctionIndex::from_u32(9), "ghost".to_owned());
    info
}

fn with_memory(minimum: u32, maximum: Option<u32>) -> ModuleInfo {
    let mut info = ModuleInfo::new();
    info.memories.push(MemoryType::new(minimum, maximum, true));
    info
}

fn memory(info: &ModuleInfo, index: u32) -> MemoryType {
    info.memories[MemoryIndex::from_u32(index)]
}

#[test]
fn value_types_keep_their_names() {
    let pairs = [
        (Type::I32, ValueType::I32),
        (Type::I64, ValueType::I64),
        (Type::F32, ValueType::F32),
        (Type::F64, ValueType::F64),
        (Type::V128, ValueType::V128),
        (Type::ExternRef, ValueType::ExternRef),
        (Type::FuncRef, ValueType::FuncRef),
        (Type::ExceptionRef, ValueType::ExceptionRef),
    ];
    for (engine, library) in pairs {
        assert_eq!(value_type(engine), library);
        assert_eq!(engine_type(library), engine);
    }
}

#[test]
fn info_limit_heap_caps_an_unbounded_memory_then_refuses_a_smaller_limit() {
    let mut info = with_memory(2, None);
    assert_eq!(info.limit_heap(10), Ok(()));
    assert_eq!(memory(&info, 0), MemoryType::new(2, Some(10), true));
    assert_eq!(
        info.limit_heap(1),
        Err(ModuleError::MemoryBoundViolation { minimum: 2, limit: 1 })
    );
    assert_eq!(memory(&info, 0), MemoryType::new(2, Some(10), true));
}

#[test]
fn info_limit_heap_keeps_a_smaller_maximum_and_lowers_a_larger_one() {
    let mut info = with_memory(1, Some(4));
    assert_eq!(info.limit_heap(10), Ok(()));
    assert_eq!(memory(&info, 0).maximum, Some(Pages(4)));
    assert_eq!(info.limit_heap(3), Ok(()));
    assert_eq!(memory(&info, 0).maximum, Some(Pages(3)));
    assert_eq!(memory(&info, 0).minimum, Pages(1));
}

#[test]
fn info_limit_heap_refuses_a_minimum_above_the_old_maximum() {
    let mut info = with_memory(5, Some(4));
    assert_eq!(
        info.limit_heap(10),
        Err(ModuleError::MemoryBoundViolation { minimum: 5, limit: 4 })
    );
    assert_eq!(memory(&info, 0), MemoryType::new(5, Some(4), true));
}

#[test]
fn info_limit_heap_does_nothing_without_memory() {
    let mut info = ModuleInfo::new();
    assert_eq!(info.limit_heap(0), Ok(()));
    assert_eq!(info.memories.len(), 0);
}

#[test]
fn info_limit_heap_refuses_several_memories_whatever_the_limit() {
    for limit in [0, 1, 10, u32::MAX] {
        let mut info = with_memory(1, None);
        info.memories.push(MemoryType::new(1, Some(2), false));
        assert_eq!(info.limit_heap(limit), Err(ModuleError::UnsupportedMultiMemory));
        assert_eq!(memory(&info, 0), MemoryType::new(1, None, true));
        assert_eq!(memory(&info, 1), MemoryType::new(1, Some(2), false));
    }
}

#[test]
fn info_add_global_exports_a_fresh_mutable_global() {
    let mut info = ModuleInfo::new();
    info.globals.push(GlobalType::new(Type::I32, Mutability::Const));
    info.num_imported_globals = 1;
    let index = info.add_global("cost_left", ValueType::I64, GlobalInit::I64Const(0));
    assert_eq!(index, Ok(1));
    assert_eq!(info.globals.len(), 2);
    assert_eq!(
        info.globals[GlobalIndex::from_u32(1)],
        GlobalType::new(Type::I64, Mutability::Var)
    );
    assert_eq!(
        info.global_initializers.values().copied().collect::<Vec<_>>(),
        vec![wasmer_types::GlobalInit::I64Const(0)]
    );
    assert_eq!(
        info.exports.get("cost_left"),
        Some(&ExportIndex::Global(GlobalIndex::from_u32(1)))
    );
    assert_eq!(info.exports.len(), 1);
}

#[test]
fn info_add_global_rejects_a_duplicate_name() {
    let mut info = ModuleInfo::new();
    assert_eq!(info.add_global("depth", ValueType::I32, GlobalInit::I32Const(-7)), Ok(0));
    assert_eq!(
        info.add_global("depth", ValueType::I32, GlobalInit::I32Const(8)),
        Err(ModuleError::DuplicateExport { name: "depth".to_owned() })
    );
    assert_eq!(info.globals.len(), 1);
    assert_eq!(info.exports.len(), 1);
    assert_eq!(
        info.global_initializers.values().copied().collect::<Vec<_>>(),
        vec![wasmer_types::GlobalInit::I32Const(-7)]
    );
}

#[test]
fn info_add_global_holds_every_constant() {
    let mut info = ModuleInfo::new();
    let bits = 0x0102_0304_0506_0708_090a_0b0c_0d0e_0f10_u128;
    assert_eq!(info.add_global("wide", ValueType::V128, GlobalInit::V128Const(bits)), Ok(0));
    assert_eq!(info.add_global("none", ValueType::FuncRef, GlobalInit::RefNullConst), Ok(1));
    assert_eq!(
        info.global_initializers.values().copied().collect::<Vec<_>>(),
        vec![
            wasmer_types::GlobalInit::V128Const(wasmer_types::V128::from(bits.to_le_bytes())),
            wasmer_types::GlobalInit::RefNullConst,
        ]
    );
    assert_eq!(
        info.globals.values().copied().collect::<Vec<_>>(),
        vec![
            GlobalType::new(Type::V128, Mutability::Var),
            GlobalType::new(Type::FuncRef, Mutability::Var),
        ]
    );
}

#[test]
fn info_get_signature_answers_by_index() {
    let info = sample();
    assert_eq!(info.get_signature(0), Ok(FunctionType::new(vec![ValueType::I32], vec![])));
    assert_eq!(
        info.get_signature(1),
        Ok(FunctionType::new(
            vec![ValueType::I64, ValueType::F64, ValueType::V128],
            vec![ValueType::FuncRef, ValueType::ExternRef, ValueType::F32],
        ))
    );
    assert_eq!(info.get_signature(2), Err(ModuleError::MissingSignature { index: 2 }));
    assert_eq!(
        info.get_signature(u32::MAX),
        Err(ModuleError::MissingSignature { index: u32::MAX })
    );
}

#[test]
fn info_get_function_answers_through_the_signature() {
    let info = sample();
    assert_eq!(info.get_function(1), Ok(FunctionType::new(vec![ValueType::I32], vec![])));
    assert_eq!(info.get_function(0).map(|ty| ty.inputs.len()), Ok(3));
    assert_eq!(info.get_function(2), Err(ModuleError::MissingSignature { index: 7 }));
}

#[test]
fn info_get_function_reports_a_missing_function_with_its_name() {
    let info = sample();
    assert_eq!(
        info.get_function(3),
        Err(ModuleError::MissingFunction { index: 3, function_name: None })
    );
    assert_eq!(
        info.get_function(9),
        Err(ModuleError::MissingFunction { index: 9, function_name: Some("ghost".to_owned()) })
    );
    assert_eq!(
        info.get_function(u32::MAX),
        Err(ModuleError::MissingFunction { index: u32::MAX, function_name: None })
    );
}

#[test]
fn info_move_start_function_exports_the_start_function() {
    let mut info = sample();
    info.start_function = Some(FunctionIndex::from_u32(2));
    info.exports.insert("memory".to_owned(), ExportIndex::Memory(MemoryIndex::from_u32(0)));
    assert_eq!(info.move_start_function("entry"), Ok(()));
    assert_eq!(info.start_function, None);
    assert_eq!(
        info.exports.get("entry"),
        Some(&ExportIndex::Function(FunctionIndex::from_u32(2)))
    );
    assert_eq!(
        info.exports.get("memory"),
        Some(&ExportIndex::Memory(MemoryIndex::from_u32(0)))
    );
    assert_eq!(info.exports.len(), 2);
    assert_eq!(info.function_names.get(&FunctionIndex::from_u32(2)), Some(&"entry".to_owned()));
    assert_eq!(info.function_names.len(), 2);
}

#[test]
fn info_move_start_function_does_nothing_without_a_start_function() {
    let mut info = sample();
    info.exports.insert("memory".to_owned(), ExportIndex::Memory(MemoryIndex::from_u32(0)));
    let before = info.clone();
    assert_eq!(info.move_start_function("entry"), Ok(()));
    assert_eq!(info, before);
}

#[test]
fn info_move_start_function_refuses_a_name_in_use() {
    for start in [Some(FunctionIndex::from_u32(2)), None] {
        let mut info = sample();
        info.start_function = start;
        info.exports.insert("entry".to_owned(), ExportIndex::Global(GlobalIndex::from_u32(5)));
        let before = info.clone();
        assert_eq!(
            info.move_start_function("entry"),
            Err(ModuleError::NameCollision {
                name: "entry".to_owned(),
                prior: Export { kind: ExportKind::Global, index: 5 },
            })
        );
        assert_eq!(info, before);
    }
}

#[test]
fn info_name_collision_tells_the_kind_of_the_prior_export() {
    let priors = [
        (ExportIndex::Function(FunctionIndex::from_u32(1)), ExportKind::Func, 1),
        (ExportIndex::Table(wasmer_types::TableIndex::from_u32(2)), ExportKind::Table, 2),
        (ExportIndex::Memory(MemoryIndex::from_u32(3)), ExportKind::Memory, 3),
        (ExportIndex::Global(GlobalIndex::from_u32(4)), ExportKind::Global, 4),
        (ExportIndex::Tag(wasmer_types::TagIndex::from_u32(5)), ExportKind::Tag, 5),
    ];
    for (engine, kind, index) in priors {
        let mut info = ModuleInfo::new();
        info.exports.insert("entry".to_owned(), engine);
        assert_eq!(
            info.move_start_function("entry"),
            Err(ModuleError::NameCollision {
                name: "entry".to_owned(),
                prior: Export { kind, index },
            })
        );
    }
}
