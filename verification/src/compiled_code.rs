//! Compiled code: the immutable unit of execution.
use vstd::prelude::*;
use std::sync::Arc;
use crate::instruction::Instruction;
use crate::virtual_machine_result::{Failure, Fatal, FatalSpec};

verus! {

/// A shared compiled code.
pub type RcCompiledCode = Arc<CompiledCode>;

/// A function-like unit: instructions, the literal pools they index, and the
/// code objects nested in it.
///
/// Float literals are held as IEEE-754 binary64 bit patterns.
pub struct CompiledCode {
    pub name: String,
    pub file: String,
    pub line: usize,
    pub required_arguments: usize,
    pub private: bool,
    pub instructions: Vec<Instruction>,
    pub integer_literals: Vec<i64>,
    pub float_literals: Vec<u64>,
    pub string_literals: Vec<String>,
    pub code_objects: Vec<RcCompiledCode>,
}

/// The compiled code behind a shared handle.
pub open spec fn shared(code: &RcCompiledCode) -> CompiledCode {
    **code
}

/// `Arc::clone`: another handle to the same shared value.
#[verifier::external_body]
pub(crate) fn share(code: &RcCompiledCode) -> (shared: RcCompiledCode)
    ensures
        shared == *code,
{
    code.clone()
}

impl CompiledCode {
    /// A public code without literals that takes no arguments.
    pub fn new(name: String, file: String, line: usize, instructions: Vec<Instruction>) -> (code:
        CompiledCode)
        ensures
            code.name == name,
            code.file == file,
            code.line == line,
            code.instructions == instructions,
            code.required_arguments == 0,
            !code.private,
            code.integer_literals@.len() == 0,
            code.float_literals@.len() == 0,
            code.string_literals@.len() == 0,
            code.code_objects@.len() == 0,
    {
        CompiledCode {
            name,
            file,
            line,
            required_arguments: 0,
            private: false,
            instructions,
            integer_literals: Vec::new(),
            float_literals: Vec::new(),
            string_literals: Vec::new(),
            code_objects: Vec::new(),
        }
    }

    pub fn add_integer_literal(&mut self, value: i64)
        ensures
            final(self).integer_literals@ == old(self).integer_literals@.push(value),
            final(self).same_except_literals(*old(self)),
            final(self).float_literals == old(self).float_literals,
            final(self).string_literals == old(self).string_literals,
            final(self).code_objects == old(self).code_objects,
    {
        self.integer_literals.push(value);
    }

    /// Adds a float literal, given as its IEEE-754 binary64 bit pattern.
    pub fn add_float_literal(&mut self, bits: u64)
        ensures
            final(self).float_literals@ == old(self).float_literals@.push(bits),
            final(self).same_except_literals(*old(self)),
            final(self).integer_literals == old(self).integer_literals,
            final(self).string_literals == old(self).string_literals,
            final(self).code_objects == old(self).code_objects,
    {
        self.float_literals.push(bits);
    }

    pub fn add_string_literal(&mut self, value: String)
        ensures
            final(self).string_literals@ == old(self).string_literals@.push(value),
            final(self).same_except_literals(*old(self)),
            final(self).integer_literals == old(self).integer_literals,
            final(self).float_literals == old(self).float_literals,
            final(self).code_objects == old(self).code_objects,
    {
        self.string_literals.push(value);
    }

    pub fn add_code_object(&mut self, code: RcCompiledCode)
        ensures
            final(self).code_objects@ == old(self).code_objects@.push(code),
            final(self).same_except_literals(*old(self)),
            final(self).integer_literals == old(self).integer_literals,
            final(self).float_literals == old(self).float_literals,
            final(self).string_literals == old(self).string_literals,
    {
        self.code_objects.push(code);
    }

    /// Whether `self` and `other` agree on everything but the literal pools.
    pub open spec fn same_except_literals(&self, other: CompiledCode) -> bool {
        &&& self.name == other.name
        &&& self.file == other.file
        &&& self.line == other.line
        &&& self.required_arguments == other.required_arguments
        &&& self.private == other.private
        &&& self.instructions == other.instructions
    }

    pub fn is_private(&self) -> (private: bool)
        ensures
            private == self.private,
    {
        self.private
    }

    pub open spec fn spec_integer(&self, index: usize) -> Result<i64, FatalSpec> {
        if index < self.integer_literals@.len() {
            Ok(self.integer_literals@[index as int])
        } else {
            Err(Failure::UndefinedIntegerLiteral(index))
        }
    }

    /// The integer literal at `index`.
    pub fn integer(&self, index: usize) -> (result: Result<i64, Fatal>)
        ensures
            self.spec_integer(index) matches Ok(value) ==> result == Ok::<i64, Fatal>(value),
            self.spec_integer(index) matches Err(error) ==> result is Err && result->Err_0@
                == error,
    {
        if index < self.integer_literals.len() {
            Ok(self.integer_literals[index])
        } else {
            Err(Failure::UndefinedIntegerLiteral(index))
        }
    }

    pub open spec fn spec_float(&self, index: usize) -> Result<u64, FatalSpec> {
        if index < self.float_literals@.len() {
            Ok(self.float_literals@[index as int])
        } else {
            Err(Failure::UndefinedFloatLiteral(index))
        }
    }

    /// The bit pattern of the float literal at `index`.
    pub fn float(&self, index: usize) -> (result: Result<u64, Fatal>)
        ensures
            self.spec_float(index) matches Ok(value) ==> result == Ok::<u64, Fatal>(value),
            self.spec_float(index) matches Err(error) ==> result is Err && result->Err_0@
                == error,
    {
        if index < self.float_literals.len() {
            Ok(self.float_literals[index])
        } else {
            Err(Failure::UndefinedFloatLiteral(index))
        }
    }

    pub open spec fn spec_string(&self, index: usize) -> Result<Seq<char>, FatalSpec> {
        if index < self.string_literals@.len() {
            Ok(self.string_literals@[index as int]@)
        } else {
            Err(Failure::UndefinedStringLiteral(index))
        }
    }

    /// The string literal at `index`.
    pub fn string(&self, index: usize) -> (result: Result<&String, Fatal>)
        ensures
            self.spec_string(index) matches Ok(value) ==> result is Ok && result->Ok_0@ == value,
            self.spec_string(index) matches Err(error) ==> result is Err && result->Err_0@
                == error,
    {
        if index < self.string_literals.len() {
            Ok(&self.string_literals[index])
        } else {
            Err(Failure::UndefinedStringLiteral(index))
        }
    }

    pub open spec fn spec_code_object(&self, index: usize) -> Result<CompiledCode, FatalSpec> {
        if index < self.code_objects@.len() {
            Ok(*self.code_objects@[index as int])
        } else {
            Err(Failure::UndefinedCodeObject(index))
        }
    }

    /// The nested code object at `index`.
    pub fn code_object(&self, index: usize) -> (result: Result<RcCompiledCode, Fatal>)
        ensures
            self.spec_code_object(index) matches Ok(value) ==> result is Ok && *result->Ok_0
                == value,
            self.spec_code_object(index) matches Err(error) ==> result is Err && result->Err_0@
                == error,
    {
        if index < self.code_objects.len() {
            Ok(share(&self.code_objects[index]))
        } else {
            Err(Failure::UndefinedCodeObject(index))
        }
    }
}

} // verus!
