//! Handlers that bind a register to one of the machine's singleton objects.
use vstd::prelude::*;
use crate::instruction::Instruction;
use crate::memory_manager::{
    array_prototype, compiled_code_prototype, false_prototype, float_prototype,
    integer_prototype, method_prototype, string_prototype, thread_prototype, top_level,
    true_prototype,
};
use crate::object_pointer::ObjectPointer;
use crate::state::{done, MachineState};
use crate::virtual_machine::VirtualMachine;
use crate::virtual_machine_result::{EmptyResult, FatalSpec};

verus! {

/// Binds the register that the first argument names to `object`.
pub open spec fn get_singleton(
    state: MachineState,
    thread: int,
    instruction: Instruction,
    object: ObjectPointer,
) -> Result<MachineState, FatalSpec> {
    match instruction.spec_arg(0) {
        Err(error) => Err(error),
        Ok(slot) => Ok(state.bind(thread, slot, object)),
    }
}

impl VirtualMachine {
    /// Binds the register that the first argument names to an object of the heap.
    fn get_singleton(
        &mut self,
        thread: usize,
        instruction: &Instruction,
        object: ObjectPointer,
    ) -> (result: EmptyResult)
        requires
            old(self)@.wf(),
            old(self)@.has_thread(thread as int),
            old(self)@.valid(object),
        ensures
            final(self)@.wf(),
            done(
                old(self)@,
                final(self)@,
                result,
                get_singleton(old(self)@, thread as int, *instruction, object),
            ),
    {
        let slot = instruction.arg(0)?;
        self.set_register(thread, slot, object);
        Ok(())
    }

    /// `GetIntegerPrototype slot`.
    pub fn ins_get_integer_prototype(
        &mut self,
        thread: usize,
        instruction: &Instruction,
    ) -> (result: EmptyResult)
        requires
            old(self)@.wf(),
            old(self)@.has_thread(thread as int),
        ensures
            final(self)@.wf(),
            done(
                old(self)@,
                final(self)@,
                result,
                get_singleton(old(self)@, thread as int, *instruction, integer_prototype()),
            ),
    {
        let object = self.integer_prototype();
        self.get_singleton(thread, instruction, object)
    }

    /// `GetFloatPrototype slot`.
    pub fn ins_get_float_prototype(&mut self, thread: usize, instruction: &Instruction) -> (result:
        EmptyResult)
        requires
            old(self)@.wf(),
            old(self)@.has_thread(thread as int),
        ensures
            final(self)@.wf(),
            done(
                old(self)@,
                final(self)@,
                result,
                get_singleton(old(self)@, thread as int, *instruction, float_prototype()),
            ),
    {
        let object = self.float_prototype();
        self.get_singleton(thread, instruction, object)
    }

    /// `GetStringPrototype slot`.
    pub fn ins_get_string_prototype(&mut self, thread: usize, instruction: &Instruction) -> (result:
        EmptyResult)
        requires
            old(self)@.wf(),
            old(self)@.has_thread(thread as int),
        ensures
            final(self)@.wf(),
            done(
                old(self)@,
                final(self)@,
                result,
                get_singleton(old(self)@, thread as int, *instruction, string_prototype()),
            ),
    {
        let object = self.string_prototype();
        self.get_singleton(thread, instruction, object)
    }

    /// `GetArrayPrototype slot`.
    pub fn ins_get_array_prototype(&mut self, thread: usize, instruction: &Instruction) -> (result:
        EmptyResult)
        requires
            old(self)@.wf(),
            old(self)@.has_thread(thread as int),
        ensures
            final(self)@.wf(),
            done(
                old(self)@,
                final(self)@,
                result,
                get_singleton(old(self)@, thread as int, *instruction, array_prototype()),
            ),
    {
        let object = self.array_prototype();
        self.get_singleton(thread, instruction, object)
    }

    /// `GetThreadPrototype slot`.
    pub fn ins_get_thread_prototype(&mut self, thread: usize, instruction: &Instruction) -> (result:
        EmptyResult)
        requires
            old(self)@.wf(),
            old(self)@.has_thread(thread as int),
        ensures
            final(self)@.wf(),
            done(
                old(self)@,
                final(self)@,
                result,
                get_singleton(old(self)@, thread as int, *instruction, thread_prototype()),
            ),
    {
        let object = self.thread_prototype();
        self.get_singleton(thread, instruction, object)
    }

    /// `GetTruePrototype slot`.
    pub fn ins_get_true_prototype(&mut self, thread: usize, instruction: &Instruction) -> (result:
        EmptyResult)
        requires
            old(self)@.wf(),
            old(self)@.has_thread(thread as int),
        ensures
            final(self)@.wf(),
            done(
                old(self)@,
                final(self)@,
                result,
                get_singleton(old(self)@, thread as int, *instruction, true_prototype()),
            ),
    {
        let object = self.true_prototype();
        self.get_singleton(thread, instruction, object)
    }

    /// `GetFalsePrototype slot`.
    pub fn ins_get_false_prototype(&mut self, thread: usize, instruction: &Instruction) -> (result:
        EmptyResult)
        requires
            old(self)@.wf(),
            old(self)@.has_thread(thread as int),
        ensures
            final(self)@.wf(),
            done(
                old(self)@,
                final(self)@,
                result,
                get_singleton(old(self)@, thread as int, *instruction, false_prototype()),
            ),
    {
        let object = self.false_prototype();
        self.get_singleton(thread, instruction, object)
    }

    /// `GetMethodPrototype slot`.
    pub fn ins_get_method_prototype(&mut self, thread: usize, instruction: &Instruction) -> (result:
        EmptyResult)
        requires
            old(self)@.wf(),
            old(self)@.has_thread(thread as int),
        ensures
            final(self)@.wf(),
            done(
                old(self)@,
                final(self)@,
                result,
                get_singleton(old(self)@, thread as int, *instruction, method_prototype()),
            ),
    {
        let object = self.method_prototype();
        self.get_singleton(thread, instruction, object)
    }

    /// `GetCompiledCodePrototype slot`.
    pub fn ins_get_compiled_code_prototype(
        &mut self,
        thread: usize,
        instruction: &Instruction,
    ) -> (result: EmptyResult)
        requires
            old(self)@.wf(),
            old(self)@.has_thread(thread as int),
        ensures
            final(self)@.wf(),
            done(
                old(self)@,
                final(self)@,
                result,
                get_singleton(old(self)@, thread as int, *instruction, compiled_code_prototype()),
            ),
    {
        let object = self.compiled_code_prototype();
        self.get_singleton(thread, instruction, object)
    }

    /// `GetToplevel slot`: binds `slot` to the top-level object.
    pub fn ins_get_toplevel(&mut self, thread: usize, instruction: &Instruction) -> (result:
        EmptyResult)
        requires
            old(self)@.wf(),
            old(self)@.has_thread(thread as int),
        ensures
            final(self)@.wf(),
            done(
                old(self)@,
                final(self)@,
                result,
                get_singleton(old(self)@, thread as int, *instruction, top_level()),
            ),
    {
        let object = self.top_level();
        self.get_singleton(thread, instruction, object)
    }
}

} // verus!
