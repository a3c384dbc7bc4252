//! What holds of the module operations, on every module.

use vstd::prelude::*;
use crate::error::{outcome, ErrorView, ModuleError};
use crate::middleware::{updates, Pass};
use crate::module::{answers, ModuleMod};
use crate::shape::ModuleShape;
use crate::types::{Export, ExportKind, FunctionType, GlobalInit, ValueType};

verus! {

/// Two representations that show the same module are left showing the same
/// module by `add_global`, and give the same index or the same failure,
/// where the global starts from an integer constant of its type.
pub proof fn parity_of_add_global<A: ModuleMod, B: ModuleMod>(
    a: A,
    a_after: A,
    a_res: Result<u32, ModuleError>,
    b: B,
    b_after: B,
    b_res: Result<u32, ModuleError>,
    name: Seq<char>,
    ty: ValueType,
    init: GlobalInit,
)
    requires
        a.shape() == b.shape(),
        init.is_integer(),
        init.has_type(ty),
        (a_after.shape(), outcome(a_res)) == a.shape().add_global(name, ty),
        (b_after.shape(), outcome(b_res)) == b.shape().add_global(name, ty),
    ensures
        a_after.shape() == b_after.shape(),
        outcome(a_res) == outcome(b_res),
{
}

/// Two representations that show the same module answer `get_signature`
/// and `get_function` alike.
pub proof fn parity_of_lookups<A: ModuleMod, B: ModuleMod>(
    a: A,
    a_sig: Result<FunctionType, ModuleError>,
    a_func: Result<FunctionType, ModuleError>,
    b: B,
    b_sig: Result<FunctionType, ModuleError>,
    b_func: Result<FunctionType, ModuleError>,
    sig: u32,
    func: u32,
)
    requires
        a.shape() == b.shape(),
        answers(a_sig, a.shape().get_signature(sig)),
        answers(b_sig, b.shape().get_signature(sig)),
        answers(a_func, a.shape().get_function(func)),
        answers(b_func, b.shape().get_function(func)),
    ensures
        a_sig is Ok <==> b_sig is Ok,
        a_sig is Ok ==> a_sig->Ok_0@ == b_sig->Ok_0@,
        a_sig is Err ==> a_sig->Err_0@ == b_sig->Err_0@,
        a_func is Ok <==> b_func is Ok,
        a_func is Ok ==> a_func->Ok_0@ == b_func->Ok_0@,
        a_func is Err ==> a_func->Err_0@ == b_func->Err_0@,
{
}

/// Two representations that show the same module are left showing the same
/// module by `move_start_function`, and fail alike.
pub proof fn parity_of_move_start_function<A: ModuleMod, B: ModuleMod>(
    a: A,
    a_after: A,
    a_res: Result<(), ModuleError>,
    b: B,
    b_after: B,
    b_res: Result<(), ModuleError>,
    name: Seq<char>,
)
    requires
        a.shape() == b.shape(),
        (a_after.shape(), outcome(a_res)) == a.shape().move_start_function(name),
        (b_after.shape(), outcome(b_res)) == b.shape().move_start_function(name),
    ensures
        a_after.shape() == b_after.shape(),
        outcome(a_res) == outcome(b_res),
{
}

/// Two representations that show the same module are left showing the same
/// module by `limit_heap`, and fail alike.
pub proof fn parity_of_limit_heap<A: ModuleMod, B: ModuleMod>(
    a: A,
    a_after: A,
    a_res: Result<(), ModuleError>,
    b: B,
    b_after: B,
    b_res: Result<(), ModuleError>,
    limit: u32,
)
    requires
        a.shape() == b.shape(),
        (a_after.shape(), outcome(a_res)) == a.shape().limit_heap(limit),
        (b_after.shape(), outcome(b_res)) == b.shape().limit_heap(limit),
    ensures
        a_after.shape() == b_after.shape(),
        outcome(a_res) == outcome(b_res),
{
}

/// A pass leaves two representations that show the same module showing the
/// same module, or fails on both alike.
pub proof fn parity_of_passes<T: Pass, A: ModuleMod, B: ModuleMod>(
    pass: T,
    a: A,
    a_after: A,
    a_res: Result<(), ModuleError>,
    b: B,
    b_after: B,
    b_res: Result<(), ModuleError>,
)
    requires
        a.shape() == b.shape(),
        updates(&pass, a.shape(), a_res, a_after.shape()),
        updates(&pass, b.shape(), b_res, b_after.shape()),
    ensures
        outcome(a_res) == outcome(b_res),
        a_res is Ok ==> a_after.shape() == b_after.shape(),
{
}

/// After an `add_global` that succeeded, a second `add_global` with the same
/// name fails as a duplicate export and leaves the module, and so the number
/// of its globals, as it was.
pub proof fn duplicate_global_is_rejected(
    module: ModuleShape,
    name: Seq<char>,
    first: ValueType,
    second: ValueType,
)
    requires
        module.add_global(name, first).1 is Ok,
    ensures
        ({
            let once = module.add_global(name, first).0;
            let twice = once.add_global(name, second);
            &&& twice.1 == Err::<u32, ErrorView>(ErrorView::DuplicateExport { name })
            &&& twice.0 == once
            &&& twice.0.globals.len() == once.globals.len()
        }),
{
}

/// On a module without a start function, `move_start_function` with a name
/// that is not exported succeeds and changes nothing.
pub proof fn start_relocation_without_start(module: ModuleShape, name: Seq<char>)
    requires
        module.start is None,
        !module.exports.dom().contains(name),
    ensures
        module.move_start_function(name) == (module, Ok::<(), ErrorView>(())),
{
}

/// `move_start_function` succeeds exactly where the name is not exported
/// yet. On a module whose start function is `start`, the module is then left
/// without a start function, the name resolves to the function `start`, that
/// function has the name, and every other export is as before.
pub proof fn start_relocation_exports_start(module: ModuleShape, name: Seq<char>, start: u32)
    requires
        module.start == Some(start),
    ensures
        ({
            let (after, res) = module.move_start_function(name);
            &&& res is Ok <==> !module.exports.dom().contains(name)
            &&& res is Ok ==> {
                &&& after.start is None
                &&& after.exports.dom().contains(name)
                &&& after.exports[name] == Export { kind: ExportKind::Func, index: start }
                &&& after.function_names.dom().contains(start)
                &&& after.function_names[start] == name
                &&& forall|other: Seq<char>|
                    other != name ==> (after.exports.dom().contains(other)
                        <==> module.exports.dom().contains(other)) && after.exports[other]
                        == module.exports[other]
            }
            &&& res is Err ==> after == module
        }),
{
}

/// On a module with one memory, `limit_heap(limit)` finds the new maximum as
/// the smaller of the old maximum and `limit`, or `limit` where the memory
/// had no maximum: never above `limit` nor above the old maximum. Where the
/// minimum exceeds it, the call fails and changes nothing; else that is the
/// memory's maximum afterwards, and its minimum is as before.
pub proof fn heap_limit_on_one_memory(module: ModuleShape, limit: u32)
    requires
        module.memories.len() == 1,
    ensures
        ({
            let memory = module.memories[0];
            let bound = ModuleShape::capped(memory, limit);
            let (after, res) = module.limit_heap(limit);
            &&& bound <= limit
            &&& memory.maximum matches Some(maximum) ==> bound <= maximum && (bound == maximum
                || bound == limit)
            &&& memory.maximum is None ==> bound == limit
            &&& memory.minimum > bound ==> {
                &&& res == Err::<(), ErrorView>(
                    ErrorView::MemoryBoundViolation { minimum: memory.minimum, limit: bound },
                )
                &&& after == module
            }
            &&& memory.minimum <= bound ==> {
                &&& res is Ok
                &&& after.memories.len() == 1
                &&& after.memories[0].maximum == Some(bound)
                &&& after.memories[0].minimum == memory.minimum
            }
        }),
{
}

/// A second `limit_heap` never raises the maximum that the first one left.
pub proof fn heap_limit_never_grows(module: ModuleShape, first: u32, second: u32)
    requires
        module.memories.len() == 1,
        module.limit_heap(first).1 is Ok,
    ensures
        ({
            let once = module.limit_heap(first).0;
            let twice = once.limit_heap(second).0;
            &&& once.memories.len() == 1
            &&& twice.memories.len() == 1
            &&& twice.memories[0].maximum matches Some(later)
            &&& once.memories[0].maximum matches Some(earlier)
            &&& later <= earlier
        }),
{
}

/// On a module without memory, `limit_heap` succeeds and changes nothing.
pub proof fn heap_limit_without_memory(module: ModuleShape, limit: u32)
    requires
        module.memories.len() == 0,
    ensures
        module.limit_heap(limit) == (module, Ok::<(), ErrorView>(())),
{
}

/// On a module with two memories or more, `limit_heap` fails whatever the
/// limit is, and changes nothing.
pub proof fn several_memories_are_rejected(module: ModuleShape, limit: u32)
    requires
        module.memories.len() >= 2,
    ensures
        module.limit_heap(limit) == (
            module,
            Err::<(), ErrorView>(ErrorView::UnsupportedMultiMemory),
        ),
{
}

} // verus!
