//! Handlers that define methods and call code.
use vstd::prelude::*;
use crate::compiled_code::{CompiledCode, RcCompiledCode};
use crate::instruction::Instruction;
use crate::memory_manager::{
    lemma_lookup_method_valid, lookup_method, method_prototype, next_pointer,
};
use crate::object::ObjectState;
use crate::object_pointer::ObjectPointer;
use crate::object_value;
use crate::object_value::Value;
use crate::state::{done, MachineState};
use crate::virtual_machine::VirtualMachine;
use crate::virtual_machine_result::{EmptyResult, Failure, FatalSpec};

verus! {

impl MachineState {
    /// The state after a method object for `code` has been allocated and
    /// installed on `receiver` under `name`.
    pub open spec fn define_method(
        self,
        receiver: ObjectPointer,
        name: Seq<char>,
        code: CompiledCode,
    ) -> MachineState {
        let allocated = self.allocate(Value::CompiledCode(code), Some(method_prototype()));
        allocated.with_object(
            receiver,
            ObjectState {
                methods: allocated.object(receiver).methods.insert(name, next_pointer(self.heap)),
                ..allocated.object(receiver)
            },
        )
    }
}

/// `DefMethod receiver, name, code`: allocates a method object for the
/// compiled code in register `code` and installs it on the receiver under
/// the name that the string in register `name` holds.
pub open spec fn def_method(state: MachineState, thread: int, instruction: Instruction) -> Result<
    MachineState,
    FatalSpec,
> {
    match (
        state.operand(thread, instruction, 0),
        state.operand(thread, instruction, 1),
        state.operand(thread, instruction, 2),
    ) {
        (Err(error), _, _) => Err(error),
        (_, Err(error), _) => Err(error),
        (_, _, Err(error)) => Err(error),
        (Ok(receiver), Ok(name_object), Ok(code_object)) => match (
            state.string_of(name_object),
            state.code_of(code_object),
        ) {
            (Err(error), _) => Err(error),
            (_, Err(error)) => Err(error),
            (Ok(name), Ok(code)) => Ok(state.define_method(receiver, name, code)),
        },
    }
}

/// `DefLiteralMethod receiver, name, code`: as `DefMethod`, with the name
/// from the string literals and the code from the nested code objects.
pub open spec fn def_literal_method(
    state: MachineState,
    thread: int,
    code: CompiledCode,
    instruction: Instruction,
) -> Result<MachineState, FatalSpec> {
    match (
        state.operand(thread, instruction, 0),
        instruction.spec_arg(1),
        instruction.spec_arg(2),
    ) {
        (Err(error), _, _) => Err(error),
        (_, Err(error), _) => Err(error),
        (_, _, Err(error)) => Err(error),
        (Ok(receiver), Ok(name_index), Ok(code_index)) => match (
            code.spec_string(name_index),
            code.spec_code_object(code_index),
        ) {
            (Err(error), _) => Err(error),
            (_, Err(error)) => Err(error),
            (Ok(name), Ok(method_code)) => Ok(state.define_method(receiver, name, method_code)),
        },
    }
}

/// `Send slot, receiver, name, allow_private, count, argument...`: resolves
/// the method that the string literal names through the receiver's
/// prototype chain and enters a frame for it, with the receiver as the
/// first local and the objects in the `count` registers that follow as the
/// next. What the method returns goes to `slot`.
pub open spec fn send(
    state: MachineState,
    thread: int,
    code: CompiledCode,
    instruction: Instruction,
) -> Result<MachineState, FatalSpec> {
    match (
        instruction.spec_arg(0),
        state.operand(thread, instruction, 1),
        instruction.spec_arg(2),
        instruction.spec_arg(3),
        instruction.spec_arg(4),
    ) {
        (Err(error), _, _, _, _) => Err(error),
        (_, Err(error), _, _, _) => Err(error),
        (_, _, Err(error), _, _) => Err(error),
        (_, _, _, Err(error), _) => Err(error),
        (_, _, _, _, Err(error)) => Err(error),
        (
            Ok(slot),
            Ok(receiver),
            Ok(name_index),
            Ok(allow_private),
            Ok(count),
        ) => match code.spec_string(name_index) {
            Err(error) => Err(error),
            Ok(name) => match lookup_method(state.heap, receiver, name) {
                None => Err(Failure::UndefinedMethod(name)),
                Some(method) => match state.code_of(method) {
                    Err(error) => Err(error),
                    Ok(method_code) => if method_code.private && allow_private == 0 {
                        Err(Failure::PrivateMethod(name))
                    } else {
                        match state.collect_arguments(thread, instruction, 5, count) {
                            Err(error) => Err(error),
                            Ok(arguments) => if arguments.len()
                                != method_code.required_arguments {
                                Err(
                                    Failure::ArgumentCount {
                                        name,
                                        required: method_code.required_arguments,
                                        given: arguments.len() as usize,
                                    },
                                )
                            } else {
                                Ok(
                                    state.enter(
                                        thread,
                                        method_code,
                                        arguments.insert(0, receiver),
                                        Some(slot),
                                    ),
                                )
                            },
                        }
                    },
                },
            },
        },
    }
}

/// `RunCode slot, code, count, argument...`: enters a frame for the
/// compiled code in register `code`, with the objects in the registers that
/// follow as its first locals; the integer in register `count` says how
/// many. What the code returns goes to `slot`.
pub open spec fn run_code(state: MachineState, thread: int, instruction: Instruction) -> Result<
    MachineState,
    FatalSpec,
> {
    match (
        instruction.spec_arg(0),
        state.operand(thread, instruction, 1),
        state.operand(thread, instruction, 2),
    ) {
        (Err(error), _, _) => Err(error),
        (_, Err(error), _) => Err(error),
        (_, _, Err(error)) => Err(error),
        (Ok(slot), Ok(code_object), Ok(count_object)) => match (
            state.code_of(code_object),
            state.integer_of(count_object),
        ) {
            (Err(error), _) => Err(error),
            (_, Err(error)) => Err(error),
            (Ok(code), Ok(count)) => if count < 0 || count > usize::MAX {
                Err(Failure::InvalidCount(count))
            } else {
                match state.collect_arguments(thread, instruction, 3, count as usize) {
                    Err(error) => Err(error),
                    Ok(arguments) => Ok(state.enter(thread, code, arguments, Some(slot))),
                }
            },
        },
    }
}

impl VirtualMachine {
    /// Allocates a method object for `code` and installs it on `receiver`.
    fn define_method(
        &mut self,
        receiver: ObjectPointer,
        name: String,
        code: RcCompiledCode,
    )
        requires
            old(self)@.wf(),
            old(self)@.valid(receiver),
        ensures
            final(self)@ == old(self)@.define_method(receiver, name@, *code),
            final(self)@.wf(),
    {
        let prototype = self.method_prototype();
        let method = self.allocate(object_value::compiled_code(code), prototype);
        self.add_method(receiver, name, method);
    }

    /// `DefMethod receiver, name, code`.
    pub fn ins_def_method(&mut self, thread: usize, instruction: &Instruction) -> (result:
        EmptyResult)
        requires
            old(self)@.wf(),
            old(self)@.has_thread(thread as int),
        ensures
            final(self)@.wf(),
            done(
                old(self)@,
                final(self)@,
                result,
                def_method(old(self)@, thread as int, *instruction),
            ),
    {
        let receiver = self.operand(thread, instruction, 0)?;
        let name_object = self.operand(thread, instruction, 1)?;
        let code_object = self.operand(thread, instruction, 2)?;
        let name = self.string_value(name_object)?.clone();
        let code = self.code_value(code_object)?;
        self.define_method(receiver, name, code);
        Ok(())
    }

    /// `DefLiteralMethod receiver, name, code`.
    pub fn ins_def_literal_method(
        &mut self,
        thread: usize,
        code: &CompiledCode,
        instruction: &Instruction,
    ) -> (result: EmptyResult)
        requires
            old(self)@.wf(),
            old(self)@.has_thread(thread as int),
        ensures
            final(self)@.wf(),
            done(
                old(self)@,
                final(self)@,
                result,
                def_literal_method(old(self)@, thread as int, *code, *instruction),
            ),
    {
        let receiver = self.operand(thread, instruction, 0)?;
        let name_index = instruction.arg(1)?;
        let code_index = instruction.arg(2)?;
        let name = code.string(name_index)?.clone();
        let method_code = code.code_object(code_index)?;
        self.define_method(receiver, name, method_code);
        Ok(())
    }

    /// `Send slot, receiver, name, allow_private, count, argument...`.
    pub fn ins_send(
        &mut self,
        thread: usize,
        code: &CompiledCode,
        instruction: &Instruction,
    ) -> (result: EmptyResult)
        requires
            old(self)@.wf(),
            old(self)@.has_thread(thread as int),
        ensures
            final(self)@.wf(),
            done(
                old(self)@,
                final(self)@,
                result,
                send(old(self)@, thread as int, *code, *instruction),
            ),
    {
        let slot = instruction.arg(0)?;
        let receiver = self.operand(thread, instruction, 1)?;
        let name_index = instruction.arg(2)?;
        let allow_private = instruction.arg(3)?;
        let count = instruction.arg(4)?;
        let name = code.string(name_index)?;
        proof {
            lemma_lookup_method_valid(self@.heap, self@.threads.len(), receiver, name@);
        }
        let method = match self.memory_manager.lookup_method(receiver, name) {
            Some(method) => method,
            None => {
                return Err(Failure::UndefinedMethod(name.clone()));
            },
        };
        let method_code = self.code_value(method)?;
        if method_code.is_private() && allow_private == 0 {
            return Err(Failure::PrivateMethod(name.clone()));
        }
        let mut arguments = self.collect_arguments(thread, instruction, 5, count)?;
        if arguments.len() != method_code.required_arguments {
            return Err(
                Failure::ArgumentCount {
                    name: name.clone(),
                    required: method_code.required_arguments,
                    given: arguments.len(),
                },
            );
        }
        // The receiver is the first local of the method.
        arguments.insert(0, receiver);
        self.run_code(thread, method_code, arguments, Some(slot));
        Ok(())
    }

    /// `RunCode slot, code, count, argument...`.
    pub fn ins_run_code(&mut self, thread: usize, instruction: &Instruction) -> (result:
        EmptyResult)
        requires
            old(self)@.wf(),
            old(self)@.has_thread(thread as int),
        ensures
            final(self)@.wf(),
            done(
                old(self)@,
                final(self)@,
                result,
                run_code(old(self)@, thread as int, *instruction),
            ),
    {
        let slot = instruction.arg(0)?;
        let code_object = self.operand(thread, instruction, 1)?;
        let count_object = self.operand(thread, instruction, 2)?;
        let code = self.code_value(code_object)?;
        let count = self.integer_value(count_object)?;
        if count < 0 || count as u64 > usize::MAX as u64 {
            return Err(Failure::InvalidCount(count));
        }
        let arguments = self.collect_arguments(thread, instruction, 3, count as usize)?;
        self.run_code(thread, code, arguments, Some(slot));
        Ok(())
    }
}

} // verus!
