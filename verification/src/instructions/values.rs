//! Handlers that construct values and bind them to registers.
use vstd::prelude::*;
use crate::compiled_code::CompiledCode;
use crate::instruction::Instruction;
use crate::memory_manager::{
    array_prototype, compiled_code_prototype, false_object, float_prototype, integer_prototype,
    string_prototype, true_object,
};
use crate::object::ObjectState;
use crate::object_value;
use crate::object_value::Value;
use crate::state::{done, MachineState};
use crate::virtual_machine::VirtualMachine;
use crate::virtual_machine_result::{EmptyResult, FatalSpec};

verus! {

/// `SetInteger slot, literal`: binds `slot` to a new integer object that
/// holds the integer literal.
pub open spec fn set_integer(
    state: MachineState,
    thread: int,
    code: CompiledCode,
    instruction: Instruction,
) -> Result<MachineState, FatalSpec> {
    match (instruction.spec_arg(0), instruction.spec_arg(1)) {
        (Err(error), _) => Err(error),
        (_, Err(error)) => Err(error),
        (Ok(slot), Ok(index)) => match code.spec_integer(index) {
            Err(error) => Err(error),
            Ok(value) => Ok(
                state.bind_new(thread, slot, Value::Integer(value), Some(integer_prototype())),
            ),
        },
    }
}

/// `SetFloat slot, literal`: binds `slot` to a new float object that holds
/// the float literal.
pub open spec fn set_float(
    state: MachineState,
    thread: int,
    code: CompiledCode,
    instruction: Instruction,
) -> Result<MachineState, FatalSpec> {
    match (instruction.spec_arg(0), instruction.spec_arg(1)) {
        (Err(error), _) => Err(error),
        (_, Err(error)) => Err(error),
        (Ok(slot), Ok(index)) => match code.spec_float(index) {
            Err(error) => Err(error),
            Ok(bits) => Ok(
                state.bind_new(thread, slot, Value::Float(bits), Some(float_prototype())),
            ),
        },
    }
}

/// `SetString slot, literal`: binds `slot` to a new string object that
/// holds the string literal.
pub open spec fn set_string(
    state: MachineState,
    thread: int,
    code: CompiledCode,
    instruction: Instruction,
) -> Result<MachineState, FatalSpec> {
    match (instruction.spec_arg(0), instruction.spec_arg(1)) {
        (Err(error), _) => Err(error),
        (_, Err(error)) => Err(error),
        (Ok(slot), Ok(index)) => match code.spec_string(index) {
            Err(error) => Err(error),
            Ok(text) => Ok(
                state.bind_new(thread, slot, Value::String(text), Some(string_prototype())),
            ),
        },
    }
}

/// `SetCompiledCode slot, index`: binds `slot` to a new object that wraps
/// the nested code object.
pub open spec fn set_compiled_code(
    state: MachineState,
    thread: int,
    code: CompiledCode,
    instruction: Instruction,
) -> Result<MachineState, FatalSpec> {
    match (instruction.spec_arg(0), instruction.spec_arg(1)) {
        (Err(error), _) => Err(error),
        (_, Err(error)) => Err(error),
        (Ok(slot), Ok(index)) => match code.spec_code_object(index) {
            Err(error) => Err(error),
            Ok(nested) => Ok(
                state.bind_new(
                    thread,
                    slot,
                    Value::CompiledCode(nested),
                    Some(compiled_code_prototype()),
                ),
            ),
        },
    }
}

/// `SetTrue slot`: binds `slot` to the true object.
pub open spec fn set_true(state: MachineState, thread: int, instruction: Instruction) -> Result<
    MachineState,
    FatalSpec,
> {
    match instruction.spec_arg(0) {
        Err(error) => Err(error),
        Ok(slot) => Ok(state.bind(thread, slot, true_object())),
    }
}

/// `SetFalse slot`: binds `slot` to the false object.
pub open spec fn set_false(state: MachineState, thread: int, instruction: Instruction) -> Result<
    MachineState,
    FatalSpec,
> {
    match instruction.spec_arg(0) {
        Err(error) => Err(error),
        Ok(slot) => Ok(state.bind(thread, slot, false_object())),
    }
}

/// `SetObject slot [, prototype]`: binds `slot` to a new plain object. With
/// a second argument, the object in that register becomes its prototype.
pub open spec fn set_object(state: MachineState, thread: int, instruction: Instruction) -> Result<
    MachineState,
    FatalSpec,
> {
    match instruction.spec_arg(0) {
        Err(error) => Err(error),
        Ok(slot) => if instruction.arguments@.len() > 1 {
            match state.operand(thread, instruction, 1) {
                Err(error) => Err(error),
                Ok(prototype) => Ok(state.bind_new(thread, slot, Value::Plain, Some(prototype))),
            }
        } else {
            Ok(state.bind_new(thread, slot, Value::Plain, None))
        },
    }
}

/// `SetArray slot, count, value...`: binds `slot` to a new array of the
/// objects in the `count` registers that follow.
pub open spec fn set_array(state: MachineState, thread: int, instruction: Instruction) -> Result<
    MachineState,
    FatalSpec,
> {
    match (instruction.spec_arg(0), instruction.spec_arg(1)) {
        (Err(error), _) => Err(error),
        (_, Err(error)) => Err(error),
        (Ok(slot), Ok(count)) => match state.collect_arguments(thread, instruction, 2, count) {
            Err(error) => Err(error),
            Ok(items) => Ok(
                state.bind_new(thread, slot, Value::Array(items), Some(array_prototype())),
            ),
        },
    }
}

/// `SetName object, literal`: names the object in the register after the
/// string literal.
pub open spec fn set_name(
    state: MachineState,
    thread: int,
    code: CompiledCode,
    instruction: Instruction,
) -> Result<MachineState, FatalSpec> {
    match (instruction.spec_arg(1), state.operand(thread, instruction, 0)) {
        (Err(error), _) => Err(error),
        (_, Err(error)) => Err(error),
        (Ok(index), Ok(object)) => match code.spec_string(index) {
            Err(error) => Err(error),
            Ok(name) => Ok(
                state.with_object(
                    object,
                    ObjectState { name: Some(name), ..state.object(object) },
                ),
            ),
        },
    }
}

impl VirtualMachine {
    /// `SetInteger slot, literal`.
    pub fn ins_set_integer(
        &mut self,
        thread: usize,
        code: &CompiledCode,
        instruction: &Instruction,
    ) -> (result: EmptyResult)
        requires
            old(self)@.wf(),
            old(self)@.has_thread(thread as int),
        ensures
            final(self)@.wf(),
            done(
                old(self)@,
                final(self)@,
                result,
                set_integer(old(self)@, thread as int, *code, *instruction),
            ),
    {
        let slot = instruction.arg(0)?;
        let index = instruction.arg(1)?;
        let value = code.integer(index)?;
        let prototype = self.integer_prototype();
        self.set_register_new(thread, slot, object_value::integer(value), prototype);
        Ok(())
    }

    /// `SetFloat slot, literal`.
    pub fn ins_set_float(
        &mut self,
        thread: usize,
        code: &CompiledCode,
        instruction: &Instruction,
    ) -> (result: EmptyResult)
        requires
            old(self)@.wf(),
            old(self)@.has_thread(thread as int),
        ensures
            final(self)@.wf(),
            done(
                old(self)@,
                final(self)@,
                result,
                set_float(old(self)@, thread as int, *code, *instruction),
            ),
    {
        let slot = instruction.arg(0)?;
        let index = instruction.arg(1)?;
        let bits = code.float(index)?;
        let prototype = self.float_prototype();
        self.set_register_new(thread, slot, object_value::float(bits), prototype);
        Ok(())
    }

    /// `SetString slot, literal`.
    pub fn ins_set_string(
        &mut self,
        thread: usize,
        code: &CompiledCode,
        instruction: &Instruction,
    ) -> (result: EmptyResult)
        requires
            old(self)@.wf(),
            old(self)@.has_thread(thread as int),
        ensures
            final(self)@.wf(),
            done(
                old(self)@,
                final(self)@,
                result,
                set_string(old(self)@, thread as int, *code, *instruction),
            ),
    {
        let slot = instruction.arg(0)?;
        let index = instruction.arg(1)?;
        let text = code.string(index)?.clone();
        let prototype = self.string_prototype();
        self.set_register_new(thread, slot, object_value::string(text), prototype);
        Ok(())
    }

    /// `SetCompiledCode slot, index`.
    pub fn ins_set_compiled_code(
        &mut self,
        thread: usize,
        code: &CompiledCode,
        instruction: &Instruction,
    ) -> (result: EmptyResult)
        requires
            old(self)@.wf(),
            old(self)@.has_thread(thread as int),
        ensures
            final(self)@.wf(),
            done(
                old(self)@,
                final(self)@,
                result,
                set_compiled_code(old(self)@, thread as int, *code, *instruction),
            ),
    {
        let slot = instruction.arg(0)?;
        let index = instruction.arg(1)?;
        let nested = code.code_object(index)?;
        let prototype = self.compiled_code_prototype();
        self.set_register_new(thread, slot, object_value::compiled_code(nested), prototype);
        Ok(())
    }

    /// `SetTrue slot`.
    pub fn ins_set_true(&mut self, thread: usize, instruction: &Instruction) -> (result:
        EmptyResult)
        requires
            old(self)@.wf(),
            old(self)@.has_thread(thread as int),
        ensures
            final(self)@.wf(),
            done(
                old(self)@,
                final(self)@,
                result,
                set_true(old(self)@, thread as int, *instruction),
            ),
    {
        let slot = instruction.arg(0)?;
        let object = self.true_object();
        self.set_register(thread, slot, object);
        Ok(())
    }

    /// `SetFalse slot`.
    pub fn ins_set_false(&mut self, thread: usize, instruction: &Instruction) -> (result:
        EmptyResult)
        requires
            old(self)@.wf(),
            old(self)@.has_thread(thread as int),
        ensures
            final(self)@.wf(),
            done(
                old(self)@,
                final(self)@,
                result,
                set_false(old(self)@, thread as int, *instruction),
            ),
    {
        let slot = instruction.arg(0)?;
        let object = self.false_object();
        self.set_register(thread, slot, object);
        Ok(())
    }
    /// `SetObject slot [, prototype]`.
    pub fn ins_set_object(&mut self, thread: usize, instruction: &Instruction) -> (result:
        EmptyResult)
        requires
            old(self)@.wf(),
            old(self)@.has_thread(thread as int),
        ensures
            final(self)@.wf(),
            done(
                old(self)@,
                final(self)@,
                result,
                set_object(old(self)@, thread as int, *instruction),
            ),
    {
        let slot = instruction.arg(0)?;
        let mut object = self.memory_manager.new_object(object_value::none());
        if instruction.arguments.len() > 1 {
            let prototype = self.operand(thread, instruction, 1)?;
            object.prototype = Some(prototype);
        }
        let pointer = self.allocate_prepared(object);
        self.set_register(thread, slot, pointer);
        Ok(())
    }

    /// `SetArray slot, count, value...`.
    pub fn ins_set_array(&mut self, thread: usize, instruction: &Instruction) -> (result:
        EmptyResult)
        requires
            old(self)@.wf(),
            old(self)@.has_thread(thread as int),
        ensures
            final(self)@.wf(),
            done(
                old(self)@,
                final(self)@,
                result,
                set_array(old(self)@, thread as int, *instruction),
            ),
    {
        let slot = instruction.arg(0)?;
        let count = instruction.arg(1)?;
        let items = self.collect_arguments(thread, instruction, 2, count)?;
        let prototype = self.array_prototype();
        self.set_register_new(thread, slot, object_value::array(items), prototype);
        Ok(())
    }

    /// `SetName object, literal`.
    pub fn ins_set_name(
        &mut self,
        thread: usize,
        code: &CompiledCode,
        instruction: &Instruction,
    ) -> (result: EmptyResult)
        requires
            old(self)@.wf(),
            old(self)@.has_thread(thread as int),
        ensures
            final(self)@.wf(),
            done(
                old(self)@,
                final(self)@,
                result,
                set_name(old(self)@, thread as int, *code, *instruction),
            ),
    {
        let index = instruction.arg(1)?;
        let object = self.operand(thread, instruction, 0)?;
        let name = code.string(index)?.clone();
        self.set_name(object, name);
        Ok(())
    }
}

} // verus!
