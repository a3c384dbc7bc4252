//! A module as a compiling engine holds it: `wasmer_types::ModuleInfo`.
//!
//! The engine's metadata stays what it is. Verus sees it through the names
//! below, one for each of its tables that instrumentation reads or changes,
//! and through one small function for each of the engine's calls. What those
//! functions claim is believed, not proved: each says in its comment which
//! call it makes and what it claims of it. The module operations are proved
//! from those claims.

use vstd::prelude::*;
use wasmer_types::{
    ExportIndex, FunctionIndex, GlobalIndex, MemoryIndex, ModuleInfo, SignatureIndex, TableIndex,
    TagIndex, Type,
};
use crate::error::{outcome, ModuleError};
use crate::module::ModuleMod;
use crate::shape::ModuleShape;
use crate::types::{
    Export, ExportKind, FunctionType, GlobalInit, MemoryBounds, SignatureView, ValueType,
};

verus! {

/// The engine's metadata of a module.
#[verifier::external_type_specification]
#[verifier::external_body]
pub struct ExModuleInfo(ModuleInfo);

/// The engine's value types: an enum without fields, which Verus reads as
/// it is.
#[verifier::external_type_specification]
pub struct ExType(Type);

/// `exports`: what each exported name resolves to.
pub uninterp spec fn info_exports(m: ModuleInfo) -> Map<Seq<char>, Export>;

/// `globals`: the type of each global and whether it is mutable, by global
/// index.
pub uninterp spec fn info_globals(m: ModuleInfo) -> Seq<(ValueType, bool)>;

/// `global_initializers`: what each global that the module defines starts
/// from, in their order; `None` stands for an initializer that
/// [`GlobalInit`] does not offer.
pub uninterp spec fn info_initializers(m: ModuleInfo) -> Seq<Option<GlobalInit>>;

/// `signatures`, by signature index.
pub uninterp spec fn info_signatures(m: ModuleInfo) -> Seq<SignatureView>;

/// `functions`: the signature index of each function, by function index.
pub uninterp spec fn info_functions(m: ModuleInfo) -> Seq<u32>;

/// `function_names`: the names of the functions that have one.
pub uninterp spec fn info_function_names(m: ModuleInfo) -> Map<u32, Seq<char>>;

/// `start_function`.
pub uninterp spec fn info_start(m: ModuleInfo) -> Option<u32>;

/// `memories`: the minimum and the maximum of each memory, in pages, and
/// whether it is shared between threads.
pub uninterp spec fn info_memories(m: ModuleInfo) -> Seq<(u32, Option<u32>, bool)>;

/// The tables of a [`ModuleInfo`] that instrumentation reads or changes.
pub ghost struct InfoTables {
    pub exports: Map<Seq<char>, Export>,
    pub globals: Seq<(ValueType, bool)>,
    pub initializers: Seq<Option<GlobalInit>>,
    pub signatures: Seq<SignatureView>,
    pub functions: Seq<u32>,
    pub function_names: Map<u32, Seq<char>>,
    pub start: Option<u32>,
    pub memories: Seq<(u32, Option<u32>, bool)>,
}

/// All the tables of `m` together.
pub open spec fn tables(m: ModuleInfo) -> InfoTables {
    InfoTables {
        exports: info_exports(m),
        globals: info_globals(m),
        initializers: info_initializers(m),
        signatures: info_signatures(m),
        functions: info_functions(m),
        function_names: info_function_names(m),
        start: info_start(m),
        memories: info_memories(m),
    }
}

/// The entry of a map for a key, if it has one.
pub open spec fn entry<K, V>(map: Map<K, V>, key: K) -> Option<V> {
    if map.dom().contains(key) {
        Some(map[key])
    } else {
        None
    }
}

/// The item of a sequence at an index, if it has one.
pub open spec fn item<V>(items: Seq<V>, index: u32) -> Option<V> {
    if index < items.len() {
        Some(items[index as int])
    } else {
        None
    }
}

/// The library's name for an engine value type.
pub open spec fn type_view(ty: Type) -> ValueType {
    match ty {
        Type::I32 => ValueType::I32,
        Type::I64 => ValueType::I64,
        Type::F32 => ValueType::F32,
        Type::F64 => ValueType::F64,
        Type::V128 => ValueType::V128,
        Type::ExternRef => ValueType::ExternRef,
        Type::FuncRef => ValueType::FuncRef,
        Type::ExceptionRef => ValueType::ExceptionRef,
    }
}

/// The library's name for an engine value type.
pub fn value_type(ty: Type) -> (res: ValueType)
    ensures
        res == type_view(ty),
{
    match ty {
        Type::I32 => ValueType::I32,
        Type::I64 => ValueType::I64,
        Type::F32 => ValueType::F32,
        Type::F64 => ValueType::F64,
        Type::V128 => ValueType::V128,
        Type::ExternRef => ValueType::ExternRef,
        Type::FuncRef => ValueType::FuncRef,
        Type::ExceptionRef => ValueType::ExceptionRef,
    }
}

/// The engine's value type of that name.
pub fn engine_type(ty: ValueType) -> (res: Type)
    ensures
        type_view(res) == ty,
{
    match ty {
        ValueType::I32 => Type::I32,
        ValueType::I64 => Type::I64,
        ValueType::F32 => Type::F32,
        ValueType::F64 => Type::F64,
        ValueType::V128 => Type::V128,
        ValueType::ExternRef => Type::ExternRef,
        ValueType::FuncRef => Type::FuncRef,
        ValueType::ExceptionRef => Type::ExceptionRef,
    }
}

/// `IndexMap::get` on `exports`: the entry for `name`, if there is one.
#[verifier::external_body]
fn export_at(m: &ModuleInfo, name: &str) -> (res: Option<Export>)
    ensures
        res == entry(info_exports(*m), name@),
{
    let (kind, index) = match *m.exports.get(name)? {
        ExportIndex::Function(i) => (ExportKind::Func, i.as_u32()),
        ExportIndex::Table(i) => (ExportKind::Table, i.as_u32()),
        ExportIndex::Memory(i) => (ExportKind::Memory, i.as_u32()),
        ExportIndex::Global(i) => (ExportKind::Global, i.as_u32()),
        ExportIndex::Tag(i) => (ExportKind::Tag, i.as_u32()),
    };
    Some(Export { kind, index })
}

/// `IndexMap::insert` on `exports`: `name` resolves to `export` afterwards,
/// whether or not it was exported before, and nothing else changes. The
/// engine's indices stop short of `u32::MAX`.
#[verifier::external_body]
fn insert_export(m: &mut ModuleInfo, name: &str, export: Export)
    requires
        export.index < u32::MAX,
    ensures
        tables(*final(m)) == (InfoTables {
            exports: info_exports(*old(m)).insert(name@, export),
            ..tables(*old(m))
        }),
{
    let i = export.index;
    let index = match export.kind {
        ExportKind::Func => ExportIndex::Function(FunctionIndex::from_u32(i)),
        ExportKind::Table => ExportIndex::Table(TableIndex::from_u32(i)),
        ExportKind::Memory => ExportIndex::Memory(MemoryIndex::from_u32(i)),
        ExportKind::Global => ExportIndex::Global(GlobalIndex::from_u32(i)),
        ExportKind::Tag => ExportIndex::Tag(TagIndex::from_u32(i)),
    };
    m.exports.insert(name.to_owned(), index);
}

/// `PrimaryMap::len` on `globals`.
#[verifier::external_body]
fn global_count(m: &ModuleInfo) -> (res: usize)
    ensures
        res == info_globals(*m).len(),
{
    m.globals.len()
}

/// `PrimaryMap::push` on `globals`: appends a global of type `ty` and
/// returns its index, which is the number of globals before. The engine's
/// indices stop short of `u32::MAX`.
#[verifier::external_body]
fn push_global(m: &mut ModuleInfo, ty: Type, mutable: bool) -> (res: u32)
    requires
        info_globals(*old(m)).len() < u32::MAX,
    ensures
        res == info_globals(*old(m)).len(),
        tables(*final(m)) == (InfoTables {
            globals: info_globals(*old(m)).push((type_view(ty), mutable)),
            ..tables(*old(m))
        }),
{
    let mutability = wasmer_types::Mutability::from(mutable);
    m.globals.push(wasmer_types::GlobalType::new(ty, mutability)).as_u32()
}

/// `PrimaryMap::push` on `global_initializers`: appends `init`. A 128-bit
/// constant is handed over as its sixteen bytes, lowest first.
#[verifier::external_body]
fn push_initializer(m: &mut ModuleInfo, init: GlobalInit)
    requires
        info_initializers(*old(m)).len() < u32::MAX,
    ensures
        tables(*final(m)) == (InfoTables {
            initializers: info_initializers(*old(m)).push(Some(init)),
            ..tables(*old(m))
        }),
{
    let init = match init {
        GlobalInit::I32Const(x) => wasmer_types::GlobalInit::I32Const(x),
        GlobalInit::I64Const(x) => wasmer_types::GlobalInit::I64Const(x),
        GlobalInit::V128Const(x) => wasmer_types::GlobalInit::V128Const(x.to_le_bytes().into()),
        GlobalInit::RefNullConst => wasmer_types::GlobalInit::RefNullConst,
    };
    m.global_initializers.push(init);
}

/// `PrimaryMap::get` on `signatures`: the signature with index `sig`, if
/// there is one, its types by their library names.
#[verifier::external_body]
fn signature_at(m: &ModuleInfo, sig: u32) -> (res: Option<FunctionType>)
    requires
        sig < u32::MAX,
    ensures
        res is Some <==> sig < info_signatures(*m).len(),
        res matches Some(ty) ==> ty@ == info_signatures(*m)[sig as int],
{
    let found = m.signatures.get(SignatureIndex::from_u32(sig))?;
    let inputs = found.params().iter().map(|ty| value_type(*ty)).collect();
    let outputs = found.results().iter().map(|ty| value_type(*ty)).collect();
    Some(FunctionType { inputs, outputs })
}

/// `PrimaryMap::get` on `functions`: the signature index of function
/// `func`, if there is such a function.
#[verifier::external_body]
fn function_at(m: &ModuleInfo, func: u32) -> (res: Option<u32>)
    requires
        func < u32::MAX,
    ensures
        res == item(info_functions(*m), func),
{
    let sig = m.functions.get(FunctionIndex::from_u32(func))?;
    Some(sig.as_u32())
}

/// `HashMap::get` on `function_names`: the name of function `func`, if it
/// has one.
#[verifier::external_body]
fn function_name_at(m: &ModuleInfo, func: u32) -> (res: Option<String>)
    requires
        func < u32::MAX,
    ensures
        res is Some <==> info_function_names(*m).dom().contains(func),
        res matches Some(name) ==> name@ == info_function_names(*m)[func],
{
    m.function_names.get(&FunctionIndex::from_u32(func)).cloned()
}

/// `HashMap::insert` on `function_names`: function `func` has the name
/// `name` afterwards, and nothing else changes.
#[verifier::external_body]
fn insert_function_name(m: &mut ModuleInfo, func: u32, name: &str)
    requires
        func < u32::MAX,
    ensures
        tables(*final(m)) == (InfoTables {
            function_names: info_function_names(*old(m)).insert(func, name@),
            ..tables(*old(m))
        }),
{
    m.function_names.insert(FunctionIndex::from_u32(func), name.to_owned());
}

/// `Option::take` on `start_function`: returns the start function and
/// leaves the module without one.
#[verifier::external_body]
fn take_start(m: &mut ModuleInfo) -> (res: Option<u32>)
    ensures
        res == info_start(*old(m)),
        tables(*final(m)) == (InfoTables { start: None, ..tables(*old(m)) }),
{
    let start = m.start_function.take()?;
    Some(start.as_u32())
}

/// `PrimaryMap::len` on `memories`.
#[verifier::external_body]
fn memory_count(m: &ModuleInfo) -> (res: usize)
    ensures
        res == info_memories(*m).len(),
{
    m.memories.len()
}

/// `PrimaryMap::get` on `memories`: the minimum and the maximum of memory
/// `index` and whether it is shared, if there is such a memory.
#[verifier::external_body]
fn memory_at(m: &ModuleInfo, index: u32) -> (res: Option<(u32, Option<u32>, bool)>)
    requires
        index < u32::MAX,
    ensures
        res == item(info_memories(*m), index),
{
    let found = m.memories.get(MemoryIndex::from_u32(index))?;
    Some((found.minimum.0, found.maximum.map(|pages| pages.0), found.shared))
}

/// `PrimaryMap::index_mut` on `memories`, and an assignment to the
/// memory's `maximum`: memory `index` has the maximum `maximum` afterwards,
/// and nothing else changes.
#[verifier::external_body]
fn set_memory_maximum(m: &mut ModuleInfo, index: u32, maximum: u32)
    requires
        index < info_memories(*old(m)).len(),
        index < u32::MAX,
    ensures
        tables(*final(m)) == (InfoTables {
            memories: info_memories(*old(m)).update(
                index as int,
                (
                    info_memories(*old(m))[index as int].0,
                    Some(maximum),
                    info_memories(*old(m))[index as int].2,
                ),
            ),
            ..tables(*old(m))
        }),
{
    let memory = &mut m.memories[MemoryIndex::from_u32(index)];
    memory.maximum = Some(wasmer_types::Pages(maximum));
}

/// The bounds of a memory of the engine, which counts pages in 32 bits.
pub open spec fn bounds_of(memory: (u32, Option<u32>, bool)) -> MemoryBounds {
    MemoryBounds {
        minimum: memory.0 as u64,
        maximum: match memory.1 {
            Some(maximum) => Some(maximum as u64),
            None => None,
        },
    }
}

/// A memory of the engine with its maximum capped at `limit` pages.
pub open spec fn capped_memory(memory: (u32, Option<u32>, bool), limit: u32) -> (
    u32,
    Option<u32>,
    bool,
) {
    (memory.0, Some(ModuleShape::capped(bounds_of(memory), limit) as u32), memory.2)
}

impl ModuleMod for ModuleInfo {
    open spec fn shape(&self) -> ModuleShape {
        ModuleShape {
            signatures: info_signatures(*self),
            functions: info_functions(*self),
            function_names: info_function_names(*self),
            globals: info_globals(*self).map_values(|global: (ValueType, bool)| global.0),
            exports: info_exports(*self),
            start: info_start(*self),
            memories: info_memories(*self).map_values(
                |memory: (u32, Option<u32>, bool)| bounds_of(memory),
            ),
        }
    }

    /// The engine's indices have 32 bits and stop short of `u32::MAX`: no
    /// table is longer than that, and `u32::MAX` is no function.
    open spec fn wf(&self) -> bool {
        &&& info_signatures(*self).len() <= u32::MAX
        &&& info_functions(*self).len() <= u32::MAX
        &&& info_globals(*self).len() <= u32::MAX
        &&& info_initializers(*self).len() <= info_globals(*self).len()
        &&& info_start(*self) != Some(u32::MAX)
        &&& !info_function_names(*self).dom().contains(u32::MAX)
    }

    /// The engine's metadata holds every constant, and a global of the type
    /// it was asked for: the outcome is that of [`ModuleShape::add_global`]
    /// whatever `init` is. The new global is mutable.
    fn add_global(&mut self, name: &str, ty: ValueType, init: GlobalInit) -> (res: Result<
        u32,
        ModuleError,
    >)
        ensures
            (final(self).shape(), outcome(res)) == old(self).shape().add_global(name@, ty),
            res is Err ==> tables(*final(self)) == tables(*old(self)),
            res is Ok ==> tables(*final(self)) == (InfoTables {
                exports: final(self).shape().exports,
                globals: info_globals(*old(self)).push((ty, true)),
                initializers: info_initializers(*old(self)).push(Some(init)),
                ..tables(*old(self))
            }),
    {
        if export_at(self, name).is_some() {
            return Err(ModuleError::DuplicateExport { name: name.to_owned() });
        }
        if global_count(self) >= u32::MAX as usize {
            return Err(ModuleError::TooManyGlobals);
        }
        let index = push_global(self, engine_type(ty), true);
        insert_export(self, name, Export { kind: ExportKind::Global, index });
        push_initializer(self, init);
        proof {
            assert(final(self).shape().globals =~= old(self).shape().globals.push(ty));
        }
        Ok(index)
    }

    fn get_signature(&self, sig: u32) -> (res: Result<FunctionType, ModuleError>) {
        if sig == u32::MAX {
            return Err(ModuleError::MissingSignature { index: sig });
        }
        match signature_at(self, sig) {
            Some(ty) => Ok(ty),
            None => Err(ModuleError::MissingSignature { index: sig }),
        }
    }

    fn get_function(&self, func: u32) -> (res: Result<FunctionType, ModuleError>) {
        if func == u32::MAX {
            return Err(ModuleError::MissingFunction { index: func, function_name: None });
        }
        match function_at(self, func) {
            Some(sig) => self.get_signature(sig),
            None => {
                let function_name = function_name_at(self, func);
                Err(ModuleError::MissingFunction { index: func, function_name })
            },
        }
    }

    /// Nothing but the start function, the exports and the function names
    /// changes, and a failure changes nothing.
    fn move_start_function(&mut self, name: &str) -> (res: Result<(), ModuleError>)
        ensures
            tables(*final(self)) == (InfoTables {
                exports: final(self).shape().exports,
                function_names: final(self).shape().function_names,
                start: final(self).shape().start,
                ..tables(*old(self))
            }),
    {
        if let Some(prior) = export_at(self, name) {
            return Err(ModuleError::NameCollision { name: name.to_owned(), prior });
        }
        if let Some(start) = take_start(self) {
            insert_export(self, name, Export { kind: ExportKind::Func, index: start });
            insert_function_name(self, start, name);
        }
        Ok(())
    }

    /// Only the memory's maximum changes, and a failure changes nothing.
    fn limit_heap(&mut self, limit: u32) -> (res: Result<(), ModuleError>)
        ensures
            res is Err ==> tables(*final(self)) == tables(*old(self)),
            tables(*final(self)) == (InfoTables {
                memories: info_memories(*final(self)),
                ..tables(*old(self))
            }),
            info_memories(*final(self)).len() == info_memories(*old(self)).len(),
            res is Ok ==> forall|i: int|
                0 <= i < info_memories(*old(self)).len() ==> #[trigger] info_memories(
                    *final(self),
                )[i] == capped_memory(info_memories(*old(self))[i], limit),
    {
        if memory_count(self) > 1 {
            return Err(ModuleError::UnsupportedMultiMemory);
        }
        if let Some((minimum, maximum, _)) = memory_at(self, 0) {
            let bound = match maximum {
                Some(maximum) => if maximum <= limit {
                    maximum
                } else {
                    limit
                },
                None => limit,
            };
            if minimum > bound {
                let (minimum, limit) = (minimum as u64, bound as u64);
                return Err(ModuleError::MemoryBoundViolation { minimum, limit });
            }
            set_memory_maximum(self, 0, bound);
            proof {
                assert(final(self).shape().memories =~= seq![
                    MemoryBounds { minimum: minimum as u64, maximum: Some(bound as u64) },
                ]);
            }
        }
        Ok(())
    }
}

} // verus!
