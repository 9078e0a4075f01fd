//! The payload of a heap object.
use vstd::prelude::*;
use crate::compiled_code::{CompiledCode, RcCompiledCode};
use crate::object_pointer::{pointers_valid, ObjectPointer};

verus! {

/// What an object carries. Every object has exactly one of these.
///
/// A float is held as its IEEE-754 binary64 bit pattern, a file as the token
/// by which the host knows the open file, and a thread as its index in the
/// machine's thread table.
pub enum ObjectValue {
    Plain,
    Integer(i64),
    Float(u64),
    String(String),
    Array(Vec<ObjectPointer>),
    File(u64),
    Thread(usize),
    CompiledCode(RcCompiledCode),
    Error(String),
}

/// The mathematical value of an [`ObjectValue`].
pub enum Value {
    Plain,
    Integer(i64),
    Float(u64),
    String(Seq<char>),
    Array(Seq<ObjectPointer>),
    File(u64),
    Thread(usize),
    CompiledCode(CompiledCode),
    Error(Seq<char>),
}

impl View for ObjectValue {
    type V = Value;

    open spec fn view(&self) -> Value {
        match *self {
            ObjectValue::Plain => Value::Plain,
            ObjectValue::Integer(value) => Value::Integer(value),
            ObjectValue::Float(bits) => Value::Float(bits),
            ObjectValue::String(text) => Value::String(text@),
            ObjectValue::Array(items) => Value::Array(items@),
            ObjectValue::File(token) => Value::File(token),
            ObjectValue::Thread(thread) => Value::Thread(thread),
            ObjectValue::CompiledCode(code) => Value::CompiledCode(*code),
            ObjectValue::Error(text) => Value::Error(text@),
        }
    }
}

impl Value {
    /// Whether the handles in the value address existing objects and threads.
    pub open spec fn wf(self, objects: nat, threads: nat) -> bool {
        match self {
            Value::Array(items) => pointers_valid(items, objects),
            Value::Thread(thread) => thread < threads,
            _ => true,
        }
    }

    /// Whether a value alone makes an object count as true: zero, the empty
    /// string, the empty array and errors do not.
    pub open spec fn truthy(self) -> bool {
        match self {
            Value::Integer(value) => value != 0,
            Value::Float(bits) => !float_is_zero(bits),
            Value::String(text) => text.len() != 0,
            Value::Array(items) => items.len() != 0,
            Value::Error(_) => false,
            _ => true,
        }
    }
}

/// Whether a binary64 bit pattern is positive or negative zero.
pub open spec fn float_is_zero(bits: u64) -> bool {
    bits == 0 || bits == 0x8000_0000_0000_0000u64
}

pub fn none() -> (value: ObjectValue)
    ensures
        value@ == Value::Plain,
{
    ObjectValue::Plain
}

pub fn integer(value: i64) -> (result: ObjectValue)
    ensures
        result@ == Value::Integer(value),
{
    ObjectValue::Integer(value)
}

/// A float value from its IEEE-754 binary64 bit pattern.
pub fn float(bits: u64) -> (result: ObjectValue)
    ensures
        result@ == Value::Float(bits),
{
    ObjectValue::Float(bits)
}

pub fn string(text: String) -> (result: ObjectValue)
    ensures
        result@ == Value::String(text@),
{
    ObjectValue::String(text)
}

pub fn array(items: Vec<ObjectPointer>) -> (result: ObjectValue)
    ensures
        result@ == Value::Array(items@),
{
    ObjectValue::Array(items)
}

/// A file value from the token by which the host knows the open file.
pub fn file(token: u64) -> (result: ObjectValue)
    ensures
        result@ == Value::File(token),
{
    ObjectValue::File(token)
}

pub fn thread(index: usize) -> (result: ObjectValue)
    ensures
        result@ == Value::Thread(index),
{
    ObjectValue::Thread(index)
}

pub fn compiled_code(code: RcCompiledCode) -> (result: ObjectValue)
    ensures
        result@ == Value::CompiledCode(*code),
{
    ObjectValue::CompiledCode(code)
}

pub fn error(text: String) -> (result: ObjectValue)
    ensures
        result@ == Value::Error(text@),
{
    ObjectValue::Error(text)
}

impl ObjectValue {
    pub fn is_integer(&self) -> (result: bool)
        ensures
            result == (self@ is Integer),
    {
        match self {
            ObjectValue::Integer(_) => true,
            _ => false,
        }
    }

    pub fn is_float(&self) -> (result: bool)
        ensures
            result == (self@ is Float),
    {
        match self {
            ObjectValue::Float(_) => true,
            _ => false,
        }
    }

    pub fn is_string(&self) -> (result: bool)
        ensures
            result == (self@ is String),
    {
        match self {
            ObjectValue::String(_) => true,
            _ => false,
        }
    }

    pub fn is_array(&self) -> (result: bool)
        ensures
            result == (self@ is Array),
    {
        match self {
            ObjectValue::Array(_) => true,
            _ => false,
        }
    }

    pub fn is_file(&self) -> (result: bool)
        ensures
            result == (self@ is File),
    {
        match self {
            ObjectValue::File(_) => true,
            _ => false,
        }
    }

    pub fn is_thread(&self) -> (result: bool)
        ensures
            result == (self@ is Thread),
    {
        match self {
            ObjectValue::Thread(_) => true,
            _ => false,
        }
    }

    pub fn is_compiled_code(&self) -> (result: bool)
        ensures
            result == (self@ is CompiledCode),
    {
        match self {
            ObjectValue::CompiledCode(_) => true,
            _ => false,
        }
    }

    pub fn is_error(&self) -> (result: bool)
        ensures
            result == (self@ is Error),
    {
        match self {
            ObjectValue::Error(_) => true,
            _ => false,
        }
    }

    /// Whether the value alone makes an object count as true.
    pub fn truthy(&self) -> (result: bool)
        ensures
            result == self@.truthy(),
    {
        match self {
            ObjectValue::Integer(value) => *value != 0,
            ObjectValue::Float(bits) => !(*bits == 0 || *bits == 0x8000_0000_0000_0000u64),
            ObjectValue::String(text) => !text.as_str().is_empty(),
            ObjectValue::Array(items) => items.len() != 0,
            ObjectValue::Error(_) => false,
            _ => true,
        }
    }
}

} // verus!
