//! Handlers for returning and branching, and for the error objects that
//! programs branch on.
use vstd::prelude::*;
use crate::instruction::Instruction;
use crate::memory_manager::{string_prototype, truthy};
use crate::object_pointer::ObjectPointer;
use crate::object_value;
use crate::object_value::Value;
use crate::state::{done, lemma_register_valid, MachineState};
use crate::virtual_machine::VirtualMachine;
use crate::virtual_machine_result::{
    agrees, EmptyResult, FatalSpec, IntegerResult, OptionIntegerResult, OptionObjectResult,
};

verus! {

/// `Return slot`: what the register holds, which may be nothing.
pub open spec fn return_value(state: MachineState, thread: int, instruction: Instruction) -> Result<
    Option<ObjectPointer>,
    FatalSpec,
> {
    match instruction.spec_arg(0) {
        Err(error) => Err(error),
        Ok(slot) => Ok(state.threads[thread].register(slot)),
    }
}

/// `Goto target`: the target.
pub open spec fn goto(instruction: Instruction) -> Result<usize, FatalSpec> {
    instruction.spec_arg(0)
}

/// `GotoIfFalse target, condition`: the target if the register is unset or
/// holds an object that does not count as true.
pub open spec fn goto_if_false(
    state: MachineState,
    thread: int,
    instruction: Instruction,
) -> Result<Option<usize>, FatalSpec> {
    match (instruction.spec_arg(0), instruction.spec_arg(1)) {
        (Err(error), _) => Err(error),
        (_, Err(error)) => Err(error),
        (Ok(target), Ok(slot)) => match state.threads[thread].register(slot) {
            Some(object) => if truthy(state.heap, object) {
                Ok(None)
            } else {
                Ok(Some(target))
            },
            None => Ok(Some(target)),
        },
    }
}

/// `GotoIfTrue target, condition`: the target if the register holds an
/// object that counts as true.
pub open spec fn goto_if_true(state: MachineState, thread: int, instruction: Instruction) -> Result<
    Option<usize>,
    FatalSpec,
> {
    match (instruction.spec_arg(0), instruction.spec_arg(1)) {
        (Err(error), _) => Err(error),
        (_, Err(error)) => Err(error),
        (Ok(target), Ok(slot)) => match state.threads[thread].register(slot) {
            Some(object) => if truthy(state.heap, object) {
                Ok(Some(target))
            } else {
                Ok(None)
            },
            None => Ok(None),
        },
    }
}

/// `IsError slot, object`: binds `slot` to the true object if the object
/// holds an error, and to the false object if not.
pub open spec fn is_error(state: MachineState, thread: int, instruction: Instruction) -> Result<
    MachineState,
    FatalSpec,
> {
    match (instruction.spec_arg(0), state.operand(thread, instruction, 1)) {
        (Err(error), _) => Err(error),
        (_, Err(error)) => Err(error),
        (Ok(slot), Ok(object)) => Ok(
            state.bind_flag(thread, slot, state.object(object).value is Error),
        ),
    }
}

/// `ErrorToString slot, error`: binds `slot` to a new string object that
/// holds the text of the error.
pub open spec fn error_to_string(
    state: MachineState,
    thread: int,
    instruction: Instruction,
) -> Result<MachineState, FatalSpec> {
    match (instruction.spec_arg(0), state.operand(thread, instruction, 1)) {
        (Err(error), _) => Err(error),
        (_, Err(error)) => Err(error),
        (Ok(slot), Ok(object)) => match state.error_of(object) {
            Err(error) => Err(error),
            Ok(text) => Ok(
                state.bind_new(thread, slot, Value::String(text), Some(string_prototype())),
            ),
        },
    }
}

impl VirtualMachine {
    /// What a register of the thread's innermost frame holds, if it was written.
    pub fn get_register_option(&self, thread: usize, slot: usize) -> (object: Option<ObjectPointer>)
        requires
            self@.wf(),
            self@.has_thread(thread as int),
        ensures
            object == self@.threads[thread as int].register(slot),
            object matches Some(pointer) ==> self@.valid(pointer),
    {
        proof {
            lemma_register_valid(self@, thread as int, slot);
        }
        assert(self@.threads[thread as int].wf(self@.heap.len()));
        self.contexts[thread].get_register_option(slot)
    }

    /// `Return slot`.
    pub fn ins_return(&self, thread: usize, instruction: &Instruction) -> (result:
        OptionObjectResult)
        requires
            self@.wf(),
            self@.has_thread(thread as int),
        ensures
            agrees(result, return_value(self@, thread as int, *instruction)),
            result matches Ok(Some(object)) ==> self@.valid(object),
    {
        let slot = instruction.arg(0)?;
        Ok(self.get_register_option(thread, slot))
    }

    /// `Goto target`.
    pub fn ins_goto(&self, instruction: &Instruction) -> (result: IntegerResult)
        ensures
            agrees(result, goto(*instruction)),
    {
        let target = instruction.arg(0)?;
        Ok(target)
    }

    /// `GotoIfFalse target, condition`.
    pub fn ins_goto_if_false(&self, thread: usize, instruction: &Instruction) -> (result:
        OptionIntegerResult)
        requires
            self@.wf(),
            self@.has_thread(thread as int),
        ensures
            agrees(result, goto_if_false(self@, thread as int, *instruction)),
    {
        let target = instruction.arg(0)?;
        let slot = instruction.arg(1)?;
        let matched = match self.get_register_option(thread, slot) {
            Some(object) => {
                if self.memory_manager.truthy(object) {
                    None
                } else {
                    Some(target)
                }
            },
            None => Some(target),
        };
        Ok(matched)
    }

    /// `GotoIfTrue target, condition`.
    pub fn ins_goto_if_true(&self, thread: usize, instruction: &Instruction) -> (result:
        OptionIntegerResult)
        requires
            self@.wf(),
            self@.has_thread(thread as int),
        ensures
            agrees(result, goto_if_true(self@, thread as int, *instruction)),
    {
        let target = instruction.arg(0)?;
        let slot = instruction.arg(1)?;
        let matched = match self.get_register_option(thread, slot) {
            Some(object) => {
                if self.memory_manager.truthy(object) {
                    Some(target)
                } else {
                    None
                }
            },
            None => None,
        };
        Ok(matched)
    }

    /// `IsError slot, object`.
    pub fn ins_is_error(&mut self, thread: usize, instruction: &Instruction) -> (result:
        EmptyResult)
        requires
            old(self)@.wf(),
            old(self)@.has_thread(thread as int),
        ensures
            final(self)@.wf(),
            done(
                old(self)@,
                final(self)@,
                result,
                is_error(old(self)@, thread as int, *instruction),
            ),
    {
        let slot = instruction.arg(0)?;
        let object = self.operand(thread, instruction, 1)?;
        let flag = self.object(object).value.is_error();
        self.set_register_flag(thread, slot, flag);
        Ok(())
    }

    /// `ErrorToString slot, error`.
    pub fn ins_error_to_string(&mut self, thread: usize, instruction: &Instruction) -> (result:
        EmptyResult)
        requires
            old(self)@.wf(),
            old(self)@.has_thread(thread as int),
        ensures
            final(self)@.wf(),
            done(
                old(self)@,
                final(self)@,
                result,
                error_to_string(old(self)@, thread as int, *instruction),
            ),
    {
        let slot = instruction.arg(0)?;
        let object = self.operand(thread, instruction, 1)?;
        let text = self.error_value(object)?.clone();
        let prototype = self.string_prototype();
        self.set_register_new(thread, slot, object_value::string(text), prototype);
        Ok(())
    }
}

} // verus!
