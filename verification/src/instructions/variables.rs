//! Handlers for local variables, constants and attributes.
use vstd::prelude::*;
use crate::compiled_code::CompiledCode;
use crate::instruction::Instruction;
use crate::object::ObjectState;
use crate::state::{done, MachineState};
use crate::virtual_machine::VirtualMachine;
use crate::virtual_machine_result::{EmptyResult, Failure, FatalSpec};

verus! {

/// `SetLocal index, source`: assigns the object in register `source` to the
/// local variable at `index`, which must exist.
pub open spec fn set_local(state: MachineState, thread: int, instruction: Instruction) -> Result<
    MachineState,
    FatalSpec,
> {
    match (instruction.spec_arg(0), state.operand(thread, instruction, 1)) {
        (Err(error), _) => Err(error),
        (_, Err(error)) => Err(error),
        (Ok(index), Ok(object)) => state.set_local(thread, index, object),
    }
}

/// `GetLocal slot, index`: binds `slot` to the local variable at `index`.
pub open spec fn get_local(state: MachineState, thread: int, instruction: Instruction) -> Result<
    MachineState,
    FatalSpec,
> {
    match (instruction.spec_arg(0), instruction.spec_arg(1)) {
        (Err(error), _) => Err(error),
        (_, Err(error)) => Err(error),
        (Ok(slot), Ok(index)) => match state.threads[thread].get_local(index) {
            Err(error) => Err(error),
            Ok(object) => Ok(state.bind(thread, slot, object)),
        },
    }
}

/// `SetConst target, source, name`: sets the constant that the string
/// literal names, on the object in `target`, to the object in `source`.
pub open spec fn set_const(
    state: MachineState,
    thread: int,
    code: CompiledCode,
    instruction: Instruction,
) -> Result<MachineState, FatalSpec> {
    match (
        instruction.spec_arg(2),
        state.operand(thread, instruction, 0),
        state.operand(thread, instruction, 1),
    ) {
        (Err(error), _, _) => Err(error),
        (_, Err(error), _) => Err(error),
        (_, _, Err(error)) => Err(error),
        (Ok(index), Ok(target), Ok(source)) => match code.spec_string(index) {
            Err(error) => Err(error),
            Ok(name) => Ok(
                state.with_object(
                    target,
                    ObjectState {
                        constants: state.object(target).constants.insert(name, source),
                        ..state.object(target)
                    },
                ),
            ),
        },
    }
}

/// `GetConst slot, source, name`: binds `slot` to the constant that the
/// string literal names on the object in `source`.
pub open spec fn get_const(
    state: MachineState,
    thread: int,
    code: CompiledCode,
    instruction: Instruction,
) -> Result<MachineState, FatalSpec> {
    match (
        instruction.spec_arg(0),
        state.operand(thread, instruction, 1),
        instruction.spec_arg(2),
    ) {
        (Err(error), _, _) => Err(error),
        (_, Err(error), _) => Err(error),
        (_, _, Err(error)) => Err(error),
        (Ok(slot), Ok(source), Ok(index)) => match code.spec_string(index) {
            Err(error) => Err(error),
            Ok(name) => if state.object(source).constants.contains_key(name) {
                Ok(state.bind(thread, slot, state.object(source).constants[name]))
            } else {
                Err(Failure::UndefinedConstant(name))
            },
        },
    }
}

/// `SetAttr target, source, name`: sets the attribute that the string in
/// register `name` names, on the object in `target`, to the object in `source`.
pub open spec fn set_attr(state: MachineState, thread: int, instruction: Instruction) -> Result<
    MachineState,
    FatalSpec,
> {
    match (
        state.operand(thread, instruction, 0),
        state.operand(thread, instruction, 1),
        state.operand(thread, instruction, 2),
    ) {
        (Err(error), _, _) => Err(error),
        (_, Err(error), _) => Err(error),
        (_, _, Err(error)) => Err(error),
        (Ok(target), Ok(source), Ok(name_object)) => match state.string_of(name_object) {
            Err(error) => Err(error),
            Ok(name) => Ok(
                state.with_object(
                    target,
                    ObjectState {
                        attributes: state.object(target).attributes.insert(name, source),
                        ..state.object(target)
                    },
                ),
            ),
        },
    }
}

/// `GetAttr slot, source, name`: binds `slot` to the attribute that the
/// string in register `name` names on the object in `source`.
pub open spec fn get_attr(state: MachineState, thread: int, instruction: Instruction) -> Result<
    MachineState,
    FatalSpec,
> {
    match (
        instruction.spec_arg(0),
        state.operand(thread, instruction, 1),
        state.operand(thread, instruction, 2),
    ) {
        (Err(error), _, _) => Err(error),
        (_, Err(error), _) => Err(error),
        (_, _, Err(error)) => Err(error),
        (Ok(slot), Ok(source), Ok(name_object)) => match state.string_of(name_object) {
            Err(error) => Err(error),
            Ok(name) => if state.object(source).attributes.contains_key(name) {
                Ok(state.bind(thread, slot, state.object(source).attributes[name]))
            } else {
                Err(Failure::UndefinedAttribute(name))
            },
        },
    }
}

impl VirtualMachine {
    /// `SetLocal index, source`.
    pub fn ins_set_local(&mut self, thread: usize, instruction: &Instruction) -> (result:
        EmptyResult)
        requires
            old(self)@.wf(),
            old(self)@.has_thread(thread as int),
        ensures
            final(self)@.wf(),
            done(
                old(self)@,
                final(self)@,
                result,
                set_local(old(self)@, thread as int, *instruction),
            ),
    {
        let index = instruction.arg(0)?;
        let object = self.operand(thread, instruction, 1)?;
        self.set_local(thread, index, object)
    }

    /// `GetLocal slot, index`.
    pub fn ins_get_local(&mut self, thread: usize, instruction: &Instruction) -> (result:
        EmptyResult)
        requires
            old(self)@.wf(),
            old(self)@.has_thread(thread as int),
        ensures
            final(self)@.wf(),
            done(
                old(self)@,
                final(self)@,
                result,
                get_local(old(self)@, thread as int, *instruction),
            ),
    {
        let slot = instruction.arg(0)?;
        let index = instruction.arg(1)?;
        let object = self.get_local(thread, index)?;
        self.set_register(thread, slot, object);
        Ok(())
    }

    /// `SetConst target, source, name`.
    pub fn ins_set_const(
        &mut self,
        thread: usize,
        code: &CompiledCode,
        instruction: &Instruction,
    ) -> (result: EmptyResult)
        requires
            old(self)@.wf(),
            old(self)@.has_thread(thread as int),
        ensures
            final(self)@.wf(),
            done(
                old(self)@,
                final(self)@,
                result,
                set_const(old(self)@, thread as int, *code, *instruction),
            ),
    {
        let index = instruction.arg(2)?;
        let target = self.operand(thread, instruction, 0)?;
        let source = self.operand(thread, instruction, 1)?;
        let name = code.string(index)?.clone();
        self.add_constant(target, name, source);
        Ok(())
    }

    /// `GetConst slot, source, name`.
    pub fn ins_get_const(
        &mut self,
        thread: usize,
        code: &CompiledCode,
        instruction: &Instruction,
    ) -> (result: EmptyResult)
        requires
            old(self)@.wf(),
            old(self)@.has_thread(thread as int),
        ensures
            final(self)@.wf(),
            done(
                old(self)@,
                final(self)@,
                result,
                get_const(old(self)@, thread as int, *code, *instruction),
            ),
    {
        let slot = instruction.arg(0)?;
        let source = self.operand(thread, instruction, 1)?;
        let index = instruction.arg(2)?;
        let name = code.string(index)?;
        assert(self@.heap[source.0 as int].wf(
            source.0 as int,
            self@.heap.len(),
            self@.threads.len(),
        ));
        match self.object(source).constants.get(name) {
            Some(object) => {
                self.set_register(thread, slot, object);
                Ok(())
            },
            None => Err(Failure::UndefinedConstant(name.clone())),
        }
    }

    /// `SetAttr target, source, name`.
    pub fn ins_set_attr(&mut self, thread: usize, instruction: &Instruction) -> (result:
        EmptyResult)
        requires
            old(self)@.wf(),
            old(self)@.has_thread(thread as int),
        ensures
            final(self)@.wf(),
            done(
                old(self)@,
                final(self)@,
                result,
                set_attr(old(self)@, thread as int, *instruction),
            ),
    {
        let target = self.operand(thread, instruction, 0)?;
        let source = self.operand(thread, instruction, 1)?;
        let name_object = self.operand(thread, instruction, 2)?;
        let name = self.string_value(name_object)?.clone();
        self.add_attribute(target, name, source);
        Ok(())
    }

    /// `GetAttr slot, source, name`.
    pub fn ins_get_attr(&mut self, thread: usize, instruction: &Instruction) -> (result:
        EmptyResult)
        requires
            old(self)@.wf(),
            old(self)@.has_thread(thread as int),
        ensures
            final(self)@.wf(),
            done(
                old(self)@,
                final(self)@,
                result,
                get_attr(old(self)@, thread as int, *instruction),
            ),
    {
        let slot = instruction.arg(0)?;
        let source = self.operand(thread, instruction, 1)?;
        let name_object = self.operand(thread, instruction, 2)?;
        let name = self.string_value(name_object)?;
        assert(self@.heap[source.0 as int].wf(
            source.0 as int,
            self@.heap.len(),
            self@.threads.len(),
        ));
        match self.object(source).attributes.get(name) {
            Some(object) => {
                self.set_register(thread, slot, object);
                Ok(())
            },
            None => Err(Failure::UndefinedAttribute(name.clone())),
        }
    }
}

} // verus!
