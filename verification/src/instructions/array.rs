//! Handlers for arrays. Positions count from zero.
use vstd::prelude::*;
use crate::instruction::Instruction;
use crate::memory_manager::integer_prototype;
use crate::object::ObjectState;
use crate::object_value;
use crate::object_value::Value;
use crate::state::{done, MachineState};
use crate::text::{count_to_integer, saturated};
use crate::virtual_machine::VirtualMachine;
use crate::virtual_machine_result::{EmptyResult, Failure, FatalSpec};

verus! {

/// `ArrayInsert array, index, value`: inserts the object in register
/// `value` before position `index` of the array, or appends it when
/// `index` is the length of the array.
pub open spec fn array_insert(state: MachineState, thread: int, instruction: Instruction) -> Result<
    MachineState,
    FatalSpec,
> {
    match (
        state.operand(thread, instruction, 0),
        instruction.spec_arg(1),
        state.operand(thread, instruction, 2),
    ) {
        (Err(error), _, _) => Err(error),
        (_, Err(error), _) => Err(error),
        (_, _, Err(error)) => Err(error),
        (Ok(array), Ok(index), Ok(item)) => match state.array_of(array) {
            Err(error) => Err(error),
            Ok(items) => if index > items.len() {
                Err(Failure::IndexOutOfBounds(index))
            } else {
                Ok(
                    state.with_object(
                        array,
                        ObjectState {
                            value: Value::Array(items.insert(index as int, item)),
                            ..state.object(array)
                        },
                    ),
                )
            },
        },
    }
}

/// `ArrayAt slot, array, index`: binds `slot` to the item at position `index`.
pub open spec fn array_at(state: MachineState, thread: int, instruction: Instruction) -> Result<
    MachineState,
    FatalSpec,
> {
    match (
        instruction.spec_arg(0),
        state.operand(thread, instruction, 1),
        instruction.spec_arg(2),
    ) {
        (Err(error), _, _) => Err(error),
        (_, Err(error), _) => Err(error),
        (_, _, Err(error)) => Err(error),
        (Ok(slot), Ok(array), Ok(index)) => match state.array_of(array) {
            Err(error) => Err(error),
            Ok(items) => if index >= items.len() {
                Err(Failure::IndexOutOfBounds(index))
            } else {
                Ok(state.bind(thread, slot, items[index as int]))
            },
        },
    }
}

/// `ArrayRemove slot, array, index`: removes the item at position `index`
/// from the array and binds `slot` to it.
pub open spec fn array_remove(state: MachineState, thread: int, instruction: Instruction) -> Result<
    MachineState,
    FatalSpec,
> {
    match (
        instruction.spec_arg(0),
        state.operand(thread, instruction, 1),
        instruction.spec_arg(2),
    ) {
        (Err(error), _, _) => Err(error),
        (_, Err(error), _) => Err(error),
        (_, _, Err(error)) => Err(error),
        (Ok(slot), Ok(array), Ok(index)) => match state.array_of(array) {
            Err(error) => Err(error),
            Ok(items) => if index >= items.len() {
                Err(Failure::IndexOutOfBounds(index))
            } else {
                Ok(
                    state.with_object(
                        array,
                        ObjectState {
                            value: Value::Array(items.remove(index as int)),
                            ..state.object(array)
                        },
                    ).bind(thread, slot, items[index as int]),
                )
            },
        },
    }
}

/// `ArrayLength slot, array`: binds `slot` to a new integer object that
/// holds the number of items.
pub open spec fn array_length(state: MachineState, thread: int, instruction: Instruction) -> Result<
    MachineState,
    FatalSpec,
> {
    match (instruction.spec_arg(0), state.operand(thread, instruction, 1)) {
        (Err(error), _) => Err(error),
        (_, Err(error)) => Err(error),
        (Ok(slot), Ok(array)) => match state.array_of(array) {
            Err(error) => Err(error),
            Ok(items) => Ok(
                state.bind_new(
                    thread,
                    slot,
                    Value::Integer(saturated(items.len())),
                    Some(integer_prototype()),
                ),
            ),
        },
    }
}

/// `ArrayClear array`: removes every item from the array.
pub open spec fn array_clear(state: MachineState, thread: int, instruction: Instruction) -> Result<
    MachineState,
    FatalSpec,
> {
    match state.operand(thread, instruction, 0) {
        Err(error) => Err(error),
        Ok(array) => match state.array_of(array) {
            Err(error) => Err(error),
            Ok(items) => Ok(
                state.with_object(
                    array,
                    ObjectState { value: Value::Array(Seq::empty()), ..state.object(array) },
                ),
            ),
        },
    }
}

impl VirtualMachine {

    /// `ArrayInsert array, index, value`.
    pub fn ins_array_insert(&mut self, thread: usize, instruction: &Instruction) -> (result:
        EmptyResult)
        requires
            old(self)@.wf(),
            old(self)@.has_thread(thread as int),
        ensures
            final(self)@.wf(),
            done(
                old(self)@,
                final(self)@,
                result,
                array_insert(old(self)@, thread as int, *instruction),
            ),
    {
        let array = self.operand(thread, instruction, 0)?;
        let index = instruction.arg(1)?;
        let item = self.operand(thread, instruction, 2)?;
        let length = self.array_value(array)?.len();
        if index > length {
            return Err(Failure::IndexOutOfBounds(index));
        }
        self.array_insert(array, index, item);
        Ok(())
    }

    /// `ArrayAt slot, array, index`.
    pub fn ins_array_at(&mut self, thread: usize, instruction: &Instruction) -> (result:
        EmptyResult)
        requires
            old(self)@.wf(),
            old(self)@.has_thread(thread as int),
        ensures
            final(self)@.wf(),
            done(
                old(self)@,
                final(self)@,
                result,
                array_at(old(self)@, thread as int, *instruction),
            ),
    {
        let slot = instruction.arg(0)?;
        let array = self.operand(thread, instruction, 1)?;
        let index = instruction.arg(2)?;
        let items = self.array_value(array)?;
        if index >= items.len() {
            return Err(Failure::IndexOutOfBounds(index));
        }
        let item = items[index];
        self.set_register(thread, slot, item);
        Ok(())
    }

    /// `ArrayRemove slot, array, index`.
    pub fn ins_array_remove(&mut self, thread: usize, instruction: &Instruction) -> (result:
        EmptyResult)
        requires
            old(self)@.wf(),
            old(self)@.has_thread(thread as int),
        ensures
            final(self)@.wf(),
            done(
                old(self)@,
                final(self)@,
                result,
                array_remove(old(self)@, thread as int, *instruction),
            ),
    {
        let slot = instruction.arg(0)?;
        let array = self.operand(thread, instruction, 1)?;
        let index = instruction.arg(2)?;
        let length = self.array_value(array)?.len();
        if index >= length {
            return Err(Failure::IndexOutOfBounds(index));
        }
        let item = self.array_remove(array, index);
        self.set_register(thread, slot, item);
        Ok(())
    }

    /// `ArrayLength slot, array`.
    pub fn ins_array_length(&mut self, thread: usize, instruction: &Instruction) -> (result:
        EmptyResult)
        requires
            old(self)@.wf(),
            old(self)@.has_thread(thread as int),
        ensures
            final(self)@.wf(),
            done(
                old(self)@,
                final(self)@,
                result,
                array_length(old(self)@, thread as int, *instruction),
            ),
    {
        let slot = instruction.arg(0)?;
        let array = self.operand(thread, instruction, 1)?;
        let length = self.array_value(array)?.len();
        let prototype = self.integer_prototype();
        self.set_register_new(
            thread,
            slot,
            object_value::integer(count_to_integer(length)),
            prototype,
        );
        Ok(())
    }

    /// `ArrayClear array`.
    pub fn ins_array_clear(&mut self, thread: usize, instruction: &Instruction) -> (result:
        EmptyResult)
        requires
            old(self)@.wf(),
            old(self)@.has_thread(thread as int),
        ensures
            final(self)@.wf(),
            done(
                old(self)@,
                final(self)@,
                result,
                array_clear(old(self)@, thread as int, *instruction),
            ),
    {
        let array = self.operand(thread, instruction, 0)?;
        let _ = self.array_value(array)?;
        self.set_array(array, Vec::new());
        Ok(())
    }
}

} // verus!
