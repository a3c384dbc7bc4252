//! The two passes that change nothing but the module as a whole.

use vstd::prelude::*;
use crate::error::{ErrorView, ModuleError};
use crate::middleware::{DefaultFuncMiddleware, Middleware, Pass};
use crate::module::ModuleMod;
use crate::shape::ModuleShape;

verus! {

/// Exports the start function under a name, in place of running it at
/// instantiation.
#[derive(Debug)]
pub struct StartMover {
    /// The name that the start function is exported under.
    pub name: String,
}

impl Pass for StartMover {
    open spec fn label() -> Seq<char> {
        "start mover"@
    }

    open spec fn updated(&self, module: ModuleShape) -> Result<ModuleShape, ErrorView> {
        let (after, res) = module.move_start_function(self.name@);
        match res {
            Ok(_) => Ok(after),
            Err(e) => Err(e),
        }
    }
}

impl<M: ModuleMod> Middleware<M> for StartMover {
    type FM<'a> = DefaultFuncMiddleware;

    open spec fn worker<'a>(&self, func_index: u32) -> Result<Self::FM<'a>, ErrorView> {
        Ok(DefaultFuncMiddleware)
    }

    fn update_module(&self, module: &mut M) -> (res: Result<(), ModuleError>) {
        module.move_start_function(self.name.as_str())
    }

    fn instrument<'a>(&self, func_index: u32) -> (res: Result<Self::FM<'a>, ModuleError>) {
        Ok(DefaultFuncMiddleware)
    }

    fn name(&self) -> (res: &'static str) {
        "start mover"
    }
}

/// Caps the module's memory at a number of pages.
#[derive(Debug)]
pub struct HeapBound {
    /// The most pages that the memory may grow to.
    pub limit: u32,
}

impl Pass for HeapBound {
    open spec fn label() -> Seq<char> {
        "heap bound"@
    }

    open spec fn updated(&self, module: ModuleShape) -> Result<ModuleShape, ErrorView> {
        let (after, res) = module.limit_heap(self.limit);
        match res {
            Ok(_) => Ok(after),
            Err(e) => Err(e),
        }
    }
}

impl<M: ModuleMod> Middleware<M> for HeapBound {
    type FM<'a> = DefaultFuncMiddleware;

    open spec fn worker<'a>(&self, func_index: u32) -> Result<Self::FM<'a>, ErrorView> {
        Ok(DefaultFuncMiddleware)
    }

    fn update_module(&self, module: &mut M) -> (res: Result<(), ModuleError>) {
        module.limit_heap(self.limit)
    }

    fn instrument<'a>(&self, func_index: u32) -> (res: Result<Self::FM<'a>, ModuleError>) {
        Ok(DefaultFuncMiddleware)
    }

    fn name(&self) -> (res: &'static str) {
        "heap bound"
    }
}

} // verus!
