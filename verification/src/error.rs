//! The failures of the module operations and of the passes built from them.

use vstd::prelude::*;
use crate::types::{Export, GlobalInit};

verus! {

/// Why an operation on a module failed.
#[derive(Debug, PartialEq, Eq)]
pub enum ModuleError {
    /// A global was to be exported under a name that is already exported.
    DuplicateExport { name: String },
    /// The start function was to be exported under a name that is already
    /// exported; `prior` is what the name resolves to.
    NameCollision { name: String, prior: Export },
    /// No signature has this index.
    MissingSignature { index: u32 },
    /// No function has this index; `function_name` is the function's name
    /// where the module records one.
    MissingFunction { index: u32, function_name: Option<String> },
    /// The module has as many globals as have an index.
    TooManyGlobals,
    /// The module declares more than one linear memory.
    UnsupportedMultiMemory,
    /// The memory's minimum size exceeds the maximum that the limit leaves.
    MemoryBoundViolation { minimum: u64, limit: u64 },
    /// The module representation cannot hold a global that starts from this
    /// constant.
    UnsupportedInitializer { init: GlobalInit },
}

/// The model of a [`ModuleError`]: the same failures, with texts as
/// sequences of characters.
pub ghost enum ErrorView {
    DuplicateExport { name: Seq<char> },
    NameCollision { name: Seq<char>, prior: Export },
    MissingSignature { index: u32 },
    MissingFunction { index: u32, function_name: Option<Seq<char>> },
    TooManyGlobals,
    UnsupportedMultiMemory,
    MemoryBoundViolation { minimum: u64, limit: u64 },
    UnsupportedInitializer { init: GlobalInit },
}

impl View for ModuleError {
    type V = ErrorView;

    open spec fn view(&self) -> ErrorView {
        match *self {
            ModuleError::DuplicateExport { name } => ErrorView::DuplicateExport { name: name@ },
            ModuleError::NameCollision { name, prior } => ErrorView::NameCollision {
                name: name@,
                prior,
            },
            ModuleError::MissingSignature { index } => ErrorView::MissingSignature { index },
            ModuleError::MissingFunction { index, function_name } => ErrorView::MissingFunction {
                index,
                function_name: match function_name {
                    Some(n) => Some(n@),
                    None => None,
                },
            },
            ModuleError::TooManyGlobals => ErrorView::TooManyGlobals,
            ModuleError::UnsupportedMultiMemory => ErrorView::UnsupportedMultiMemory,
            ModuleError::MemoryBoundViolation { minimum, limit } => {
                ErrorView::MemoryBoundViolation { minimum, limit }
            },
            ModuleError::UnsupportedInitializer { init } => ErrorView::UnsupportedInitializer {
                init,
            },
        }
    }
}

/// The model of an operation's result: the value as it is, the failure by
/// its view.
pub open spec fn outcome<T>(res: Result<T, ModuleError>) -> Result<T, ErrorView> {
    match res {
        Ok(v) => Ok(v),
        Err(e) => Err(e@),
    }
}

} // verus!
