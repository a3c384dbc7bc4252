//! A module as parsed from its binary format.

use std::collections::HashMap;
use vstd::prelude::*;
use crate::error::{outcome, ModuleError};
use crate::module::ModuleMod;
use crate::shape::ModuleShape;
use crate::types::{
    Export, ExportKind, FunctionType, GlobalInit, MemoryBounds, Value, ValueType,
};

verus! {

broadcast use vstd::std_specs::hash::group_hash_axioms;

/// An imported function: where it comes from and its signature index.
#[derive(Debug)]
pub struct Import {
    pub module: String,
    pub name: String,
    pub offset: u32,
}

/// A linear memory as the binary declares it, sizes in pages.
#[derive(Clone, Copy, Debug, PartialEq, Eq, Structural)]
pub struct MemoryType {
    pub initial: u64,
    pub maximum: Option<u64>,
    pub memory64: bool,
    pub shared: bool,
}

impl MemoryType {
    /// The bounds that the memory declares.
    pub open spec fn bounds(self) -> MemoryBounds {
        MemoryBounds { minimum: self.initial, maximum: self.maximum }
    }
}

/// The names that the binary records.
#[derive(Debug)]
pub struct NameSection {
    pub module: String,
    pub functions: HashMap<u32, String>,
}

#[derive(Debug)]
struct ExportEntry {
    name: String,
    export: Export,
}

/// The exports of a binary: each name once, with what it resolves to.
#[derive(Debug)]
pub struct ExportTable {
    entries: Vec<ExportEntry>,
}

/// Whether entry `i` of `entries` has the name `name`.
spec fn named(entries: Seq<ExportEntry>, name: Seq<char>, i: int) -> bool {
    0 <= i < entries.len() && entries[i].name@ == name
}

spec fn distinct(entries: Seq<ExportEntry>) -> bool {
    forall|i: int, j: int, name: Seq<char>|
        #[trigger] named(entries, name, i) && #[trigger] named(entries, name, j) ==> i == j
}

impl View for ExportTable {
    type V = Map<Seq<char>, Export>;

    closed spec fn view(&self) -> Map<Seq<char>, Export> {
        let entries = self.entries@;
        Map::new(
            |name: Seq<char>| exists|i: int| named(entries, name, i),
            |name: Seq<char>| entries[choose|i: int| named(entries, name, i)].export,
        )
    }
}

impl ExportTable {
    /// No name occurs twice among the entries.
    pub closed spec fn wf(&self) -> bool {
        distinct(self.entries@)
    }

    /// A table without exports.
    pub fn new() -> (res: ExportTable)
        ensures
            res.wf(),
            res@ == Map::<Seq<char>, Export>::empty(),
    {
        let res = ExportTable { entries: Vec::new() };
        assert(res@ =~= Map::<Seq<char>, Export>::empty());
        res
    }

    /// The place of `name` among the entries.
    fn find(&self, name: &str) -> (res: Option<usize>)
        ensures
            match res {
                Some(i) => named(self.entries@, name@, i as int),
                None => forall|i: int| !named(self.entries@, name@, i),
            },
    {
        let key = name.to_owned();
        let mut i: usize = 0;
        while i < self.entries.len()
            invariant
                i <= self.entries.len(),
                key@ == name@,
                forall|j: int| 0 <= j < i ==> !named(self.entries@, name@, j),
            decreases self.entries.len() - i,
        {
            if self.entries[i].name == key {
                return Some(i);
            }
            i = i + 1;
        }
        None
    }

    /// What `name` resolves to, if it is exported.
    pub fn get(&self, name: &str) -> (res: Option<Export>)
        requires
            self.wf(),
        ensures
            res == (if self@.dom().contains(name@) {
                Some(self@[name@])
            } else {
                None
            }),
    {
        match self.find(name) {
            Some(i) => {
                assert(named(self.entries@, name@, i as int));
                Some(self.entries[i].export)
            },
            None => None,
        }
    }

    /// Whether `name` is exported.
    pub fn contains_key(&self, name: &str) -> (res: bool)
        requires
            self.wf(),
        ensures
            res == self@.dom().contains(name@),
    {
        self.get(name).is_some()
    }

    /// The number of exports.
    pub fn len(&self) -> (res: usize)
        requires
            self.wf(),
        ensures
            res == self@.dom().len(),
            self@.dom().finite(),
    {
        proof {
            lemma_names_counted(self.entries@);
            assert(self@.dom() =~= names_of(self.entries@));
        }
        self.entries.len()
    }

    /// Lets `name` resolve to `export`, and returns what it resolved to
    /// before.
    pub fn insert(&mut self, name: String, export: Export) -> (prior: Option<Export>)
        requires
            old(self).wf(),
        ensures
            final(self).wf(),
            final(self)@ == old(self)@.insert(name@, export),
            prior == (if old(self)@.dom().contains(name@) {
                Some(old(self)@[name@])
            } else {
                None
            }),
    {
        let ghost before = self.entries@;
        let ghost key = name@;
        match self.find(name.as_str()) {
            Some(i) => {
                assert(named(before, key, i as int));
                let prior = self.entries[i].export;
                self.entries.set(i, ExportEntry { name, export });
                proof {
                    let after = self.entries@;
                    assert forall|n: Seq<char>, j: int| named(after, n, j) <==> named(
                        before,
                        n,
                        j,
                    ) by {}
                    assert(distinct(after));
                    assert(named(after, key, i as int));
                    assert(self@ =~= old(self)@.insert(key, export));
                }
                Some(prior)
            },
            None => {
                self.entries.push(ExportEntry { name, export });
                proof {
                    let after = self.entries@;
                    let last = before.len() as int;
                    assert forall|n: Seq<char>, j: int| named(after, n, j) <==> (named(before, n, j)
                        || (j == last && n == key)) by {}
                    assert(distinct(after));
                    assert(named(after, key, last));
                    assert(self@ =~= old(self)@.insert(key, export));
                }
                None
            },
        }
    }
}

/// A module as parsed from its binary format: the parts that
/// instrumentation reads and changes.
#[derive(Debug)]
pub struct WasmBinary {
    /// The signatures, by signature index.
    pub types: Vec<FunctionType>,
    /// The imported functions; they take the first function indices.
    pub imports: Vec<Import>,
    /// The signature index of each function that the module defines.
    pub functions: Vec<u32>,
    pub memories: Vec<MemoryType>,
    /// The globals, each with the value it starts from.
    pub globals: Vec<Value>,
    pub exports: ExportTable,
    /// The function that runs at instantiation, if there is one.
    pub start: Option<u32>,
    pub names: NameSection,
}

impl WasmBinary {
    /// The signature index of each function: the imported ones first.
    pub open spec fn function_signatures(self) -> Seq<u32> {
        self.imports@.map_values(|import: Import| import.offset) + self.functions@
    }

    /// The binary without the parts that `add_global` changes.
    pub open spec fn same_but_globals(self, other: WasmBinary) -> bool {
        &&& self.types == other.types
        &&& self.imports == other.imports
        &&& self.functions == other.functions
        &&& self.memories == other.memories
        &&& self.start == other.start
        &&& self.names == other.names
    }

    /// A binary without contents.
    pub fn new() -> (res: WasmBinary)
        ensures
            res.wf(),
            res.types@.len() == 0,
            res.imports@.len() == 0,
            res.functions@.len() == 0,
            res.memories@.len() == 0,
            res.globals@.len() == 0,
            res.exports@ == Map::<Seq<char>, Export>::empty(),
            res.start is None,
            res.names.module@.len() == 0,
            res.names.functions@ == Map::<u32, String>::empty(),
    {
        WasmBinary {
            types: Vec::new(),
            imports: Vec::new(),
            functions: Vec::new(),
            memories: Vec::new(),
            globals: Vec::new(),
            exports: ExportTable::new(),
            start: None,
            names: NameSection { module: String::new(), functions: HashMap::new() },
        }
    }
}

impl ModuleMod for WasmBinary {
    open spec fn shape(&self) -> ModuleShape {
        ModuleShape {
            signatures: self.types@.map_values(|ty: FunctionType| ty@),
            functions: self.function_signatures(),
            function_names: self.names.functions@.map_values(|name: String| name@),
            globals: self.globals@.map_values(|value: Value| value.ty()),
            exports: self.exports@,
            start: self.start,
            memories: self.memories@.map_values(|memory: MemoryType| memory.bounds()),
        }
    }

    open spec fn wf(&self) -> bool {
        self.exports.wf()
    }

    /// The binary holds integer constants only, and takes the global's type
    /// from the constant: any other constant is refused before the name is
    /// looked at.
    fn add_global(&mut self, name: &str, ty: ValueType, init: GlobalInit) -> (res: Result<
        u32,
        ModuleError,
    >)
        ensures
            !init.is_integer() ==> res == Err::<u32, ModuleError>(
                ModuleError::UnsupportedInitializer { init },
            ),
            init.is_integer() ==> (final(self).shape(), outcome(res)) == old(
                self,
            ).shape().add_global(name@, Value::of_init(init).ty()),
            res is Ok ==> final(self).globals@ == old(self).globals@.push(Value::of_init(init)),
            res is Err ==> *final(self) == *old(self),
            final(self).same_but_globals(*old(self)),
    {
        let global = match init {
            GlobalInit::I32Const(x) => Value::I32(
                #[verifier::truncate]
                (x as u32),
            ),
            GlobalInit::I64Const(x) => Value::I64(
                #[verifier::truncate]
                (x as u64),
            ),
            _ => {
                return Err(ModuleError::UnsupportedInitializer { init });
            },
        };
        if self.exports.contains_key(name) {
            return Err(ModuleError::DuplicateExport { name: name.to_owned() });
        }
        if self.globals.len() >= u32::MAX as usize {
            return Err(ModuleError::TooManyGlobals);
        }
        let index = self.globals.len() as u32;
        self.exports.insert(name.to_owned(), Export { kind: ExportKind::Global, index });
        self.globals.push(global);
        proof {
            assert(final(self).shape().globals =~= old(self).shape().globals.push(global.ty()));
        }
        Ok(index)
    }

    fn get_signature(&self, sig: u32) -> (res: Result<FunctionType, ModuleError>) {
        let index = sig as usize;
        if index < self.types.len() {
            Ok(self.types[index].clone())
        } else {
            Err(ModuleError::MissingSignature { index: sig })
        }
    }

    fn get_function(&self, func: u32) -> (res: Result<FunctionType, ModuleError>) {
        let index = func as usize;
        let sig = if index < self.imports.len() {
            Some(self.imports[index].offset)
        } else if index - self.imports.len() < self.functions.len() {
            Some(self.functions[index - self.imports.len()])
        } else {
            None
        };
        match sig {
            Some(sig) => self.get_signature(sig),
            None => {
                let function_name = match self.names.functions.get(&func) {
                    Some(name) => Some(name.clone()),
                    None => None,
                };
                Err(ModuleError::MissingFunction { index: func, function_name })
            },
        }
    }

    /// Nothing but the start function, the exports and the function names
    /// changes, and a failure changes nothing.
    fn move_start_function(&mut self, name: &str) -> (res: Result<(), ModuleError>)
        ensures
            res is Err ==> *final(self) == *old(self),
            final(self).types == old(self).types,
            final(self).imports == old(self).imports,
            final(self).functions == old(self).functions,
            final(self).memories == old(self).memories,
            final(self).globals == old(self).globals,
            final(self).names.module == old(self).names.module,
    {
        if let Some(prior) = self.exports.get(name) {
            return Err(ModuleError::NameCollision { name: name.to_owned(), prior });
        }
        if let Some(start) = self.start.take() {
            self.exports.insert(name.to_owned(), Export { kind: ExportKind::Func, index: start });
            self.names.functions.insert(start, name.to_owned());
            proof {
                assert(final(self).shape().function_names =~= old(
                    self,
                ).shape().function_names.insert(start, name@));
            }
        }
        Ok(())
    }

    /// Only the memory's maximum changes, and a failure changes nothing.
    fn limit_heap(&mut self, limit: u32) -> (res: Result<(), ModuleError>)
        ensures
            res is Err ==> *final(self) == *old(self),
            final(self).types == old(self).types,
            final(self).imports == old(self).imports,
            final(self).functions == old(self).functions,
            final(self).globals == old(self).globals,
            final(self).exports == old(self).exports,
            final(self).start == old(self).start,
            final(self).names == old(self).names,
            final(self).memories@.len() == old(self).memories@.len(),
            forall|i: int|
                0 <= i < old(self).memories@.len() ==> {
                    &&& (#[trigger] final(self).memories@[i]).initial == old(
                        self,
                    ).memories@[i].initial
                    &&& final(self).memories@[i].memory64 == old(self).memories@[i].memory64
                    &&& final(self).memories@[i].shared == old(self).memories@[i].shared
                    &&& res is Ok ==> final(self).memories@[i].maximum == Some(
                        ModuleShape::capped(old(self).memories@[i].bounds(), limit),
                    )
                },
    {
        if self.memories.len() > 1 {
            return Err(ModuleError::UnsupportedMultiMemory);
        }
        if self.memories.len() == 1 {
            let memory = self.memories[0];
            let limit = limit as u64;
            let bound = match memory.maximum {
                Some(maximum) => if maximum <= limit {
                    maximum
                } else {
                    limit
                },
                None => limit,
            };
            if memory.initial > bound {
                return Err(
                    ModuleError::MemoryBoundViolation { minimum: memory.initial, limit: bound },
                );
            }
            self.memories.set(
                0,
                MemoryType {
                    initial: memory.initial,
                    maximum: Some(bound),
                    memory64: memory.memory64,
                    shared: memory.shared,
                },
            );
            proof {
                assert(final(self).shape().memories =~= seq![
                    MemoryBounds { minimum: memory.initial, maximum: Some(bound) },
                ]);
            }
        }
        Ok(())
    }
}

/// The names of `entries`, as a set.
spec fn names_of(entries: Seq<ExportEntry>) -> Set<Seq<char>> {
    Set::new(|name: Seq<char>| exists|i: int| named(entries, name, i))
}

/// Entries with distinct names have as many names as there are entries.
proof fn lemma_names_counted(entries: Seq<ExportEntry>)
    requires
        distinct(entries),
    ensures
        names_of(entries).finite(),
        names_of(entries).len() == entries.len(),
    decreases entries.len(),
{
    if entries.len() == 0 {
        assert(names_of(entries) =~= Set::<Seq<char>>::empty());
    } else {
        let front = entries.drop_last();
        let last = entries.last();
        let n = entries.len() - 1;
        assert forall|name: Seq<char>, i: int| named(front, name, i) implies named(
            entries,
            name,
            i,
        ) by {}
        assert(distinct(front));
        lemma_names_counted(front);
        assert(named(entries, last.name@, n));
        assert(!names_of(front).contains(last.name@)) by {
            if names_of(front).contains(last.name@) {
                let i = choose|i: int| named(front, last.name@, i);
                assert(named(entries, last.name@, i));
            }
        }
        assert(names_of(entries) =~= names_of(front).insert(last.name@)) by {
            assert forall|name: Seq<char>| names_of(entries).contains(name) implies names_of(
                front,
            ).insert(last.name@).contains(name) by {
                let i = choose|i: int| named(entries, name, i);
                if i < n {
                    assert(named(front, name, i));
                }
            }
        }
    }
}

} // verus!
