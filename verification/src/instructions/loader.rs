//! Handlers that load code and start threads.
use vstd::prelude::*;
use crate::compiled_code::{CompiledCode, RcCompiledCode};
use crate::host::Request;
use crate::instruction::Instruction;
use crate::memory_manager::next_pointer;
use crate::object_pointer::ObjectPointer;
use crate::state::{done, handled, MachineState};
use crate::virtual_machine::VirtualMachine;
use crate::virtual_machine_result::{EmptyResult, Fatal, FatalSpec};

verus! {

/// `RunFileFast slot, path`: if the file that the string literal names has
/// been run, nothing; else records that it has, and asks the host to parse
/// it. The code that comes back is entered with no arguments, and what it
/// returns goes to `slot`.
pub open spec fn run_file_fast(
    state: MachineState,
    thread: int,
    code: CompiledCode,
    instruction: Instruction,
) -> Result<MachineState, FatalSpec> {
    match (instruction.spec_arg(0), instruction.spec_arg(1)) {
        (Err(error), _) => Err(error),
        (_, Err(error)) => Err(error),
        (Ok(slot), Ok(index)) => match code.spec_string(index) {
            Err(error) => Err(error),
            Ok(path) => if state.executed.contains(path) {
                Ok(state)
            } else {
                Ok(state.mark_executed(path).wait(thread, Request::ParseFile { slot, path }))
            },
        },
    }
}

/// `StartThread slot, code`: creates a thread for the nested code object
/// and binds `slot` to the object that wraps it. Yields the index of the
/// new thread.
pub open spec fn start_thread(
    state: MachineState,
    thread: int,
    code: CompiledCode,
    instruction: Instruction,
) -> Result<(MachineState, usize), FatalSpec> {
    match (instruction.spec_arg(0), instruction.spec_arg(1)) {
        (Err(error), _) => Err(error),
        (_, Err(error)) => Err(error),
        (Ok(slot), Ok(index)) => match code.spec_code_object(index) {
            Err(error) => Err(error),
            Ok(thread_code) => Ok(
                (
                    state.spawn(thread_code, false).bind(thread, slot, next_pointer(state.heap)),
                    state.threads.len() as usize,
                ),
            ),
        },
    }
}

impl VirtualMachine {
    /// `RunFileFast slot, path`.
    pub fn ins_run_file_fast(
        &mut self,
        thread: usize,
        code: &CompiledCode,
        instruction: &Instruction,
    ) -> (result: EmptyResult)
        requires
            old(self)@.wf(),
            old(self)@.has_thread(thread as int),
        ensures
            final(self)@.wf(),
            done(
                old(self)@,
                final(self)@,
                result,
                run_file_fast(old(self)@, thread as int, *code, *instruction),
            ),
    {
        let slot = instruction.arg(0)?;
        let index = instruction.arg(1)?;
        let path = code.string(index)?;
        if self.has_executed(path) {
            return Ok(());
        }
        self.mark_executed(path.clone());
        self.suspend(thread, Request::ParseFile { slot, path: path.clone() });
        Ok(())
    }

    /// `StartThread slot, code`.
    pub fn ins_start_thread(
        &mut self,
        thread: usize,
        code: &CompiledCode,
        instruction: &Instruction,
    ) -> (result: Result<usize, Fatal>)
        requires
            old(self)@.wf(),
            old(self)@.has_thread(thread as int),
        ensures
            final(self)@.wf(),
            handled(
                old(self)@,
                final(self)@,
                result,
                start_thread(old(self)@, thread as int, *code, *instruction),
            ),
    {
        let slot = instruction.arg(0)?;
        let index = instruction.arg(1)?;
        let thread_code = code.code_object(index)?;
        let (started, thread_object) = self.start_thread(thread_code);
        self.set_register(thread, slot, thread_object);
        Ok(started)
    }

    /// Creates a thread that is about to run `code`. The host is to run it;
    /// until it does, the thread has not executed anything.
    pub fn start_thread(&mut self, code: RcCompiledCode) -> (created: (
        usize,
        ObjectPointer,
    ))
        requires
            old(self)@.wf(),
        ensures
            final(self)@ == old(self)@.spawn(*code, false),
            final(self)@.wf(),
            created.0 == old(self)@.threads.len(),
            created.1 == next_pointer(old(self)@.heap),
            final(self)@.has_thread(created.0 as int),
            final(self)@.valid(created.1),
    {
        self.allocate_thread(code, false)
    }
}

} // verus!
