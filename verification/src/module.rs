//! The operations that a module representation offers to the passes.

use vstd::prelude::*;
use crate::error::{outcome, ErrorView, ModuleError};
use crate::shape::ModuleShape;
use crate::types::{FunctionType, GlobalInit, SignatureView, ValueType};

verus! {

/// Whether `res` is the answer `expected`, signature and failure each by its
/// view: what `get_signature` and `get_function` ensure.
pub open spec fn answers(
    res: Result<FunctionType, ModuleError>,
    expected: Result<SignatureView, ErrorView>,
) -> bool {
    match res {
        Ok(ty) => expected == Ok::<_, ErrorView>(ty@),
        Err(e) => expected == Err::<SignatureView, _>(e@),
    }
}

/// A module that can be instrumented.
///
/// Every operation is stated over [`ModuleShape`], so that two
/// representations of one module answer alike and are changed alike.
pub trait ModuleMod {
    /// What can be observed of the module.
    spec fn shape(&self) -> ModuleShape;

    /// What the representation needs of its own contents.
    spec fn wf(&self) -> bool;

    /// Adds a mutable global of type `ty` that starts from `init`, exports it
    /// as `name`, and returns its index; fails where `name` is exported
    /// already, or where no index is left. With an integer constant of type
    /// `ty` the outcome is that of [`ModuleShape::add_global`]; a failure
    /// leaves the module as it was.
    fn add_global(&mut self, name: &str, ty: ValueType, init: GlobalInit) -> (res: Result<
        u32,
        ModuleError,
    >)
        requires
            old(self).wf(),
        ensures
            final(self).wf(),
            init.is_integer() && init.has_type(ty) ==> (final(self).shape(), outcome(res)) == old(
                self,
            ).shape().add_global(name@, ty),
            res is Err ==> final(self).shape() == old(self).shape(),
    ;

    /// The signature with index `sig`.
    fn get_signature(&self, sig: u32) -> (res: Result<FunctionType, ModuleError>)
        requires
            self.wf(),
        ensures
            answers(res, self.shape().get_signature(sig)),
    ;

    /// The signature of the function with index `func`.
    fn get_function(&self, func: u32) -> (res: Result<FunctionType, ModuleError>)
        requires
            self.wf(),
        ensures
            answers(res, self.shape().get_function(func)),
    ;

    /// Exports the start function as `name` and names it so, in place of
    /// running it at instantiation; does nothing where the module has no
    /// start function; fails where `name` is exported already.
    fn move_start_function(&mut self, name: &str) -> (res: Result<(), ModuleError>)
        requires
            old(self).wf(),
        ensures
            final(self).wf(),
            (final(self).shape(), outcome(res)) == old(self).shape().move_start_function(name@),
    ;

    /// Caps the maximum of the module's memory at `limit` pages; fails where
    /// the module has several memories, or where the memory's minimum exceeds
    /// the new maximum.
    fn limit_heap(&mut self, limit: u32) -> (res: Result<(), ModuleError>)
        requires
            old(self).wf(),
        ensures
            final(self).wf(),
            (final(self).shape(), outcome(res)) == old(self).shape().limit_heap(limit),
    ;
}

} // verus!
