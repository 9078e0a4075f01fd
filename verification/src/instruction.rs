//! Instructions: an opcode and its integer arguments.
use vstd::prelude::*;
use crate::virtual_machine_result::{Failure, Fatal, FatalSpec};

verus! {

/// The operations of the machine.
#[derive(Clone, Copy, Debug, PartialEq, Eq, Structural)]
pub enum InstructionType {
    SetInteger,
    SetFloat,
    SetString,
    SetObject,
    SetArray,
    SetName,
    GetIntegerPrototype,
    GetFloatPrototype,
    GetStringPrototype,
    GetArrayPrototype,
    GetThreadPrototype,
    GetTruePrototype,
    GetFalsePrototype,
    GetMethodPrototype,
    GetCompiledCodePrototype,
    SetTrue,
    SetFalse,
    SetLocal,
    GetLocal,
    SetConst,
    GetConst,
    SetAttr,
    GetAttr,
    SetCompiledCode,
    Send,
    Return,
    GotoIfFalse,
    GotoIfTrue,
    Goto,
    DefMethod,
    DefLiteralMethod,
    RunCode,
    GetToplevel,
    IsError,
    ErrorToString,
    IntegerAdd,
    IntegerDiv,
    IntegerMul,
    IntegerSub,
    IntegerMod,
    IntegerToFloat,
    IntegerToString,
    IntegerBitwiseAnd,
    IntegerBitwiseOr,
    IntegerBitwiseXor,
    IntegerShiftLeft,
    IntegerShiftRight,
    IntegerSmaller,
    IntegerGreater,
    IntegerEquals,
    StartThread,
    FloatAdd,
    FloatMul,
    FloatDiv,
    FloatSub,
    FloatMod,
    FloatToInteger,
    FloatToString,
    FloatSmaller,
    FloatGreater,
    FloatEquals,
    ArrayInsert,
    ArrayAt,
    ArrayRemove,
    ArrayLength,
    ArrayClear,
    StringToLower,
    StringToUpper,
    StringEquals,
    StringToBytes,
    StringFromBytes,
    StringLength,
    StringSize,
    StdoutWrite,
    StderrWrite,
    StdinRead,
    StdinReadLine,
    FileOpen,
    FileWrite,
    FileRead,
    FileReadLine,
    FileFlush,
    FileSize,
    FileSeek,
    RunFileFast,
}

/// One instruction of a compiled code: what to do, on which arguments, and
/// where in the source it came from.
///
/// What an argument means (a register, a literal index, a count, a jump
/// target) is fixed by the opcode.
#[derive(Clone, Debug)]
pub struct Instruction {
    pub instruction_type: InstructionType,
    pub arguments: Vec<usize>,
    pub line: usize,
    pub column: usize,
}

impl Instruction {
    pub fn new(
        instruction_type: InstructionType,
        arguments: Vec<usize>,
        line: usize,
        column: usize,
    ) -> (instruction: Instruction)
        ensures
            instruction.instruction_type == instruction_type,
            instruction.arguments == arguments,
            instruction.line == line,
            instruction.column == column,
    {
        Instruction { instruction_type, arguments, line, column }
    }

    /// The argument at `index`, or the error that reports it missing.
    pub open spec fn spec_arg(&self, index: usize) -> Result<usize, FatalSpec> {
        if index < self.arguments@.len() {
            Ok(self.arguments@[index as int])
        } else {
            Err(Failure::MissingArgument(index))
        }
    }

    /// Fetches the argument at `index`.
    pub fn arg(&self, index: usize) -> (result: Result<usize, Fatal>)
        ensures
            self.spec_arg(index) matches Ok(value) ==> result == Ok::<usize, Fatal>(value),
            self.spec_arg(index) matches Err(error) ==> result is Err && result->Err_0@ == error,
    {
        if index < self.arguments.len() {
            Ok(self.arguments[index])
        } else {
            Err(Failure::MissingArgument(index))
        }
    }
}

} // verus!
