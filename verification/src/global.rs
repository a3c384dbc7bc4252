//! Reading and writing the exported globals of an instantiated module.

use vstd::prelude::*;
use wasmer::{Instance, Store};
use crate::types::{Value, ValueType};

verus! {

/// An instantiated module of the engine.
#[verifier::external_type_specification]
#[verifier::external_body]
pub struct ExInstance(Instance);

/// The engine's store: it holds the values of the globals.
#[verifier::external_type_specification]
#[verifier::external_body]
pub struct ExStore(Store);

/// The type of the global that `instance` exports as `name` and whether it
/// is mutable, or `None` where it exports no global under that name.
pub uninterp spec fn exported_global_type(instance: Instance, name: Seq<char>) -> Option<
    (ValueType, bool),
>;

/// Whether the globals that `instance` exports belong to `store`.
pub uninterp spec fn instance_lives_in(instance: Instance, store: Store) -> bool;

/// What `store` holds for the global that `instance` exports as `name`.
pub uninterp spec fn stored_global(store: Store, instance: Instance, name: Seq<char>) -> Value;

/// `Exports::get_global` and then `Global::get`: the value of the global
/// that `instance` exports as `name`, which has the global's type. Reading
/// changes no global and moves no instance. Without such an export, or with
/// a store that the global does not belong to, the engine panics.
#[verifier::external_body]
fn read_global(instance: &Instance, store: &mut Store, name: &str) -> (res: Value)
    requires
        exported_global_type(*instance, name@) is Some,
        instance_lives_in(*instance, *old(store)),
    ensures
        res == stored_global(*old(store), *instance, name@),
        res.ty() == exported_global_type(*instance, name@)->Some_0.0,
        forall|i: Instance, n: Seq<char>|
            #[trigger] stored_global(*final(store), i, n) == stored_global(*old(store), i, n),
        forall|i: Instance| #[trigger]
            instance_lives_in(i, *final(store)) == instance_lives_in(i, *old(store)),
{
    match instance.exports.get_global(name).unwrap().get(store) {
        wasmer::Value::I32(x) => Value::I32(x as u32),
        wasmer::Value::I64(x) => Value::I64(x as u64),
        wasmer::Value::F32(x) => Value::F32(x.to_bits()),
        wasmer::Value::F64(x) => Value::F64(x.to_bits()),
        wasmer::Value::V128(x) => Value::V128(x),
        wasmer::Value::ExternRef(_) => Value::ExternRef,
        wasmer::Value::FuncRef(_) => Value::FuncRef,
        wasmer::Value::ExceptionRef(_) => Value::ExceptionRef,
    }
}

/// `Exports::get_global` and then `Global::set`: the global that `instance`
/// exports as `name` holds `value` afterwards, and no instance moves. The
/// engine refuses a global that is not mutable or has another type, and
/// panics without such an export or with a store that the global does not
/// belong to.
#[verifier::external_body]
fn write_global(instance: &Instance, store: &mut Store, name: &str, value: Value)
    requires
        exported_global_type(*instance, name@) == Some((value.ty(), true)),
        instance_lives_in(*instance, *old(store)),
        value is I32 || value is I64 || value is V128,
    ensures
        stored_global(*final(store), *instance, name@) == value,
        forall|i: Instance| #[trigger]
            instance_lives_in(i, *final(store)) == instance_lives_in(i, *old(store)),
{
    let value = match value {
        Value::I32(x) => wasmer::Value::I32(x as i32),
        Value::I64(x) => wasmer::Value::I64(x as i64),
        Value::V128(x) => wasmer::Value::V128(x),
        _ => return,
    };
    instance.exports.get_global(name).unwrap().set(store, value).unwrap();
}

/// A host type that a global's value can be read as.
pub trait FromValue: Sized {
    /// The host value that `value` reads as, if it has the right type.
    spec fn read(value: Value) -> Option<Self>;

    fn from_value(value: Value) -> (res: Option<Self>)
        ensures
            res == Self::read(value),
    ;
}

/// A host type that can be written to a global: an integer.
pub trait IntoValue: Sized {
    /// The value that the host value is written as.
    spec fn written(self) -> Value;

    fn into_value(self) -> (res: Value)
        ensures
            res == self.written(),
            res is I32 || res is I64,
    ;
}

impl FromValue for u32 {
    open spec fn read(value: Value) -> Option<u32> {
        match value {
            Value::I32(bits) => Some(bits),
            _ => None,
        }
    }

    fn from_value(value: Value) -> (res: Option<u32>) {
        match value {
            Value::I32(bits) => Some(bits),
            _ => None,
        }
    }
}

impl FromValue for i32 {
    open spec fn read(value: Value) -> Option<i32> {
        match value {
            Value::I32(bits) => Some(bits as i32),
            _ => None,
        }
    }

    fn from_value(value: Value) -> (res: Option<i32>) {
        match value {
            Value::I32(bits) => Some(
                #[verifier::truncate]
                (bits as i32),
            ),
            _ => None,
        }
    }
}

impl FromValue for u64 {
    open spec fn read(value: Value) -> Option<u64> {
        match value {
            Value::I64(bits) => Some(bits),
            _ => None,
        }
    }

    fn from_value(value: Value) -> (res: Option<u64>) {
        match value {
            Value::I64(bits) => Some(bits),
            _ => None,
        }
    }
}

impl FromValue for i64 {
    open spec fn read(value: Value) -> Option<i64> {
        match value {
            Value::I64(bits) => Some(bits as i64),
            _ => None,
        }
    }

    fn from_value(value: Value) -> (res: Option<i64>) {
        match value {
            Value::I64(bits) => Some(
                #[verifier::truncate]
                (bits as i64),
            ),
            _ => None,
        }
    }
}

impl IntoValue for u32 {
    open spec fn written(self) -> Value {
        Value::I32(self)
    }

    fn into_value(self) -> (res: Value) {
        Value::I32(self)
    }
}

impl IntoValue for i32 {
    open spec fn written(self) -> Value {
        Value::I32(self as u32)
    }

    fn into_value(self) -> (res: Value) {
        Value::I32(
            #[verifier::truncate]
            (self as u32),
        )
    }
}

impl IntoValue for u64 {
    open spec fn written(self) -> Value {
        Value::I64(self)
    }

    fn into_value(self) -> (res: Value) {
        Value::I64(self)
    }
}

impl IntoValue for i64 {
    open spec fn written(self) -> Value {
        Value::I64(self as u64)
    }

    fn into_value(self) -> (res: Value) {
        Value::I64(
            #[verifier::truncate]
            (self as u64),
        )
    }
}

/// An integer that was written as a value reads back as itself.
pub proof fn written_integer_reads_back(a: u32, b: i32, c: u64, d: i64)
    ensures
        u32::read(a.written()) == Some(a),
        i32::read(b.written()) == Some(b),
        u64::read(c.written()) == Some(c),
        i64::read(d.written()) == Some(d),
{
    assert((b as u32) as i32 == b) by (bit_vector);
    assert((d as u64) as i64 == d) by (bit_vector);
}

/// Typed access to the exported globals of an instance, for the host to
/// exchange values with the guest.
///
/// A name that the instance exports no global under, and a global of
/// another type than the host asks for, are mistakes of the host and not of
/// the guest: the contracts leave them out.
pub trait GlobalMod: Sized {
    /// The type of the global exported as `name` and whether it is mutable,
    /// or `None` where no global is exported under that name.
    spec fn global_type(&self, name: Seq<char>) -> Option<(ValueType, bool)>;

    /// Whether the exported globals belong to `store`.
    spec fn lives_in(&self, store: Store) -> bool;

    /// What `store` holds for the global exported as `name`.
    spec fn global_value(&self, store: Store, name: Seq<char>) -> Value;

    /// The value of the global exported as `name`, read as a `T`.
    fn get_global<T: FromValue>(&self, store: &mut Store, name: &str) -> (res: T)
        requires
            self.global_type(name@) is Some,
            self.lives_in(*old(store)),
            T::read(self.global_value(*old(store), name@)) is Some,
        ensures
            T::read(self.global_value(*old(store), name@)) == Some(res),
            self.lives_in(*final(store)),
            forall|n: Seq<char>| #[trigger]
                self.global_value(*final(store), n) == self.global_value(*old(store), n),
    ;

    /// Writes `value` to the global exported as `name`, which is mutable and
    /// has the type of `value`.
    fn set_global<T: IntoValue>(&mut self, store: &mut Store, name: &str, value: T)
        requires
            old(self).global_type(name@) == Some((value.written().ty(), true)),
            old(self).lives_in(*old(store)),
        ensures
            *final(self) == *old(self),
            final(self).global_value(*final(store), name@) == value.written(),
            final(self).lives_in(*final(store)),
    ;
}

impl GlobalMod for Instance {
    open spec fn global_type(&self, name: Seq<char>) -> Option<(ValueType, bool)> {
        exported_global_type(*self, name)
    }

    open spec fn lives_in(&self, store: Store) -> bool {
        instance_lives_in(*self, store)
    }

    open spec fn global_value(&self, store: Store, name: Seq<char>) -> Value {
        stored_global(store, *self, name)
    }

    fn get_global<T: FromValue>(&self, store: &mut Store, name: &str) -> (res: T) {
        let value = read_global(self, store, name);
        T::from_value(value).unwrap()
    }

    fn set_global<T: IntoValue>(&mut self, store: &mut Store, name: &str, value: T) {
        write_global(self, store, name, value.into_value());
    }
}

} // verus!
