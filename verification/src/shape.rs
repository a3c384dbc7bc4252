//! The model of a module, and what each module operation does to it.

use vstd::prelude::*;
use crate::error::ErrorView;
use crate::types::{Export, ExportKind, MemoryBounds, SignatureView, ValueType};

verus! {

/// What can be observed of a module, whatever holds it.
pub ghost struct ModuleShape {
    /// The signatures, by signature index.
    pub signatures: Seq<SignatureView>,
    /// The signature index of each function, by function index: the imported
    /// functions first, then those that the module defines.
    pub functions: Seq<u32>,
    /// The names of the functions that have one.
    pub function_names: Map<u32, Seq<char>>,
    /// The type of each global, by global index.
    pub globals: Seq<ValueType>,
    /// What each exported name resolves to.
    pub exports: Map<Seq<char>, Export>,
    /// The function that runs at instantiation, if there is one.
    pub start: Option<u32>,
    /// The bounds of each linear memory.
    pub memories: Seq<MemoryBounds>,
}

/// The smaller of two page counts.
pub open spec fn smaller(a: u64, b: u64) -> u64 {
    if a <= b {
        a
    } else {
        b
    }
}

impl ModuleShape {
    /// The maximum that `limit_heap(limit)` gives a memory with the bounds
    /// `memory`.
    pub open spec fn capped(memory: MemoryBounds, limit: u32) -> u64 {
        match memory.maximum {
            Some(maximum) => smaller(maximum, limit as u64),
            None => limit as u64,
        }
    }

    /// The module with one more global of type `ty`, exported as `name`.
    pub open spec fn with_global(self, name: Seq<char>, ty: ValueType) -> ModuleShape {
        ModuleShape {
            globals: self.globals.push(ty),
            exports: self.exports.insert(
                name,
                Export { kind: ExportKind::Global, index: self.globals.len() as u32 },
            ),
            ..self
        }
    }

    /// `add_global(name, ty, _)`: the module afterwards, and the index of the
    /// new global or the failure. An index has 32 bits and stops short of
    /// `u32::MAX`.
    pub open spec fn add_global(self, name: Seq<char>, ty: ValueType) -> (
        ModuleShape,
        Result<u32, ErrorView>,
    ) {
        if self.exports.dom().contains(name) {
            (self, Err(ErrorView::DuplicateExport { name }))
        } else if self.globals.len() >= u32::MAX {
            (self, Err(ErrorView::TooManyGlobals))
        } else {
            (self.with_global(name, ty), Ok(self.globals.len() as u32))
        }
    }

    /// `get_signature(sig)`.
    pub open spec fn get_signature(self, sig: u32) -> Result<SignatureView, ErrorView> {
        if sig < self.signatures.len() {
            Ok(self.signatures[sig as int])
        } else {
            Err(ErrorView::MissingSignature { index: sig })
        }
    }

    /// The name of function `func`, where the module records one.
    pub open spec fn function_name(self, func: u32) -> Option<Seq<char>> {
        if self.function_names.dom().contains(func) {
            Some(self.function_names[func])
        } else {
            None
        }
    }

    /// `get_function(func)`.
    pub open spec fn get_function(self, func: u32) -> Result<SignatureView, ErrorView> {
        if func < self.functions.len() {
            self.get_signature(self.functions[func as int])
        } else {
            Err(ErrorView::MissingFunction { index: func, function_name: self.function_name(func) })
        }
    }

    /// The module with its start function `start` no longer implicit, but
    /// exported and named as `name`.
    pub open spec fn with_start_exported(self, name: Seq<char>, start: u32) -> ModuleShape {
        ModuleShape {
            start: None,
            exports: self.exports.insert(name, Export { kind: ExportKind::Func, index: start }),
            function_names: self.function_names.insert(start, name),
            ..self
        }
    }

    /// `move_start_function(name)`: the module afterwards, and the failure if
    /// there is one.
    pub open spec fn move_start_function(self, name: Seq<char>) -> (
        ModuleShape,
        Result<(), ErrorView>,
    ) {
        if self.exports.dom().contains(name) {
            (self, Err(ErrorView::NameCollision { name, prior: self.exports[name] }))
        } else {
            match self.start {
                Some(start) => (self.with_start_exported(name, start), Ok(())),
                None => (self, Ok(())),
            }
        }
    }

    /// `limit_heap(limit)`: the module afterwards, and the failure if there
    /// is one.
    pub open spec fn limit_heap(self, limit: u32) -> (ModuleShape, Result<(), ErrorView>) {
        if self.memories.len() > 1 {
            (self, Err(ErrorView::UnsupportedMultiMemory))
        } else if self.memories.len() == 0 {
            (self, Ok(()))
        } else {
            let MemoryBounds { minimum, maximum } = self.memories[0];
            let limit = Self::capped(self.memories[0], limit);
            if minimum > limit {
                (self, Err(ErrorView::MemoryBoundViolation { minimum, limit }))
            } else {
                (
                    ModuleShape {
                        memories: seq![MemoryBounds { minimum, maximum: Some(limit) }],
                        ..self
                    },
                    Ok(()),
                )
            }
        }
    }
}

} // verus!
