//! Plain values that describe the parts of a module.

use vstd::prelude::*;

verus! {

/// The type of a WebAssembly value.
#[derive(Clone, Copy, Debug, PartialEq, Eq, Structural)]
pub enum ValueType {
    I32,
    I64,
    F32,
    F64,
    V128,
    ExternRef,
    FuncRef,
    ExceptionRef,
}

/// What kind of entity an export names.
#[derive(Clone, Copy, Debug, PartialEq, Eq, Structural)]
pub enum ExportKind {
    Func,
    Table,
    Memory,
    Global,
    Tag,
}

/// What an export name resolves to: an entity of some kind, by its index.
#[derive(Clone, Copy, Debug, PartialEq, Eq, Structural)]
pub struct Export {
    pub kind: ExportKind,
    pub index: u32,
}

/// A constant that a new global starts from.
///
/// Floating-point constants and initializers that refer to other entities of
/// the module are not offered.
#[derive(Clone, Copy, Debug, PartialEq, Eq, Structural)]
pub enum GlobalInit {
    I32Const(i32),
    I64Const(i64),
    V128Const(u128),
    RefNullConst,
}

impl GlobalInit {
    /// Whether a global of type `ty` can start from this constant.
    pub open spec fn has_type(self, ty: ValueType) -> bool {
        match self {
            GlobalInit::I32Const(_) => ty == ValueType::I32,
            GlobalInit::I64Const(_) => ty == ValueType::I64,
            GlobalInit::V128Const(_) => ty == ValueType::V128,
            GlobalInit::RefNullConst => ty == ValueType::ExternRef || ty == ValueType::FuncRef
                || ty == ValueType::ExceptionRef,
        }
    }

    /// Whether this is an integer constant, the kind that every module
    /// representation can hold.
    pub open spec fn is_integer(self) -> bool {
        self is I32Const || self is I64Const
    }
}

/// A WebAssembly value, as plain bits: an integer as unsigned, a
/// floating-point number by its bits, a reference by its kind alone.
#[derive(Clone, Copy, Debug, PartialEq, Eq, Structural)]
pub enum Value {
    I32(u32),
    I64(u64),
    F32(u32),
    F64(u64),
    V128(u128),
    ExternRef,
    FuncRef,
    ExceptionRef,
}

impl Value {
    /// The type of the value.
    pub open spec fn ty(self) -> ValueType {
        match self {
            Value::I32(_) => ValueType::I32,
            Value::I64(_) => ValueType::I64,
            Value::F32(_) => ValueType::F32,
            Value::F64(_) => ValueType::F64,
            Value::V128(_) => ValueType::V128,
            Value::ExternRef => ValueType::ExternRef,
            Value::FuncRef => ValueType::FuncRef,
            Value::ExceptionRef => ValueType::ExceptionRef,
        }
    }

    /// The value that an integer constant stands for: the same bits, read as
    /// unsigned.
    pub open spec fn of_init(init: GlobalInit) -> Value
        recommends
            init.is_integer(),
    {
        match init {
            GlobalInit::I32Const(x) => Value::I32(x as u32),
            GlobalInit::I64Const(x) => Value::I64(x as u64),
            _ => Value::I32(0),
        }
    }
}

/// The bounds of a linear memory, in pages.
#[derive(Clone, Copy, Debug, PartialEq, Eq, Structural)]
pub struct MemoryBounds {
    pub minimum: u64,
    pub maximum: Option<u64>,
}

/// The model of a signature: parameter types, then result types.
pub ghost struct SignatureView {
    pub inputs: Seq<ValueType>,
    pub outputs: Seq<ValueType>,
}

/// A function signature: ordered parameter types and ordered result types.
#[derive(Debug, PartialEq, Eq)]
pub struct FunctionType {
    pub inputs: Vec<ValueType>,
    pub outputs: Vec<ValueType>,
}

impl View for FunctionType {
    type V = SignatureView;

    open spec fn view(&self) -> SignatureView {
        SignatureView { inputs: self.inputs@, outputs: self.outputs@ }
    }
}

/// A copy of a list of value types.
fn copy_types(types: &Vec<ValueType>) -> (res: Vec<ValueType>)
    ensures
        res@ == types@,
{
    let mut res: Vec<ValueType> = Vec::new();
    let mut i: usize = 0;
    while i < types.len()
        invariant
            i <= types.len(),
            res@ == types@.subrange(0, i as int),
        decreases types.len() - i,
    {
        res.push(types[i]);
        i = i + 1;
    }
    assert(types@.subrange(0, types.len() as int) == types@);
    res
}

impl FunctionType {
    pub fn new(inputs: Vec<ValueType>, outputs: Vec<ValueType>) -> (res: FunctionType)
        ensures
            res.inputs == inputs,
            res.outputs == outputs,
    {
        FunctionType { inputs, outputs }
    }
}

impl Clone for FunctionType {
    fn clone(&self) -> (res: FunctionType)
        ensures
            res@ == self@,
    {
        FunctionType { inputs: copy_types(&self.inputs), outputs: copy_types(&self.outputs) }
    }
}

} // verus!
