//! The handler for writing to standard output.
use vstd::prelude::*;
use crate::compiled_code::CompiledCode;
use crate::host::Request;
use crate::instruction::Instruction;
use crate::instructions::string::string_operand;
use crate::state::{done, MachineState};
use crate::virtual_machine::VirtualMachine;
use crate::virtual_machine_result::{EmptyResult, FatalSpec};

verus! {

/// `StdoutWrite slot, string`: asks the host to write the text to standard
/// output. The answer, the number of bytes written, becomes a new integer
/// object in `slot`; a failure becomes an error object.
pub open spec fn stdout_write_spec(
    state: MachineState,
    thread: int,
    instruction: Instruction,
) -> Result<MachineState, FatalSpec> {
    match string_operand(state, thread, instruction) {
        Err(error) => Err(error),
        Ok((slot, text)) => Ok(state.wait(thread, Request::StdoutWrite { slot, text })),
    }
}

/// Writes a string to standard output.
///
/// The instruction has two arguments: the register that receives the
/// result, and the register that holds the string to write. The result is
/// an integer, the number of bytes written, or an error object. The
/// compiled code that the instruction belongs to is not looked at.
pub fn stdout_write(
    machine: &mut VirtualMachine,
    thread: usize,
    _code: &CompiledCode,
    instruction: &Instruction,
) -> (result: EmptyResult)
    requires
        old(machine)@.wf(),
        old(machine)@.has_thread(thread as int),
    ensures
        final(machine)@.wf(),
        done(
            old(machine)@,
            final(machine)@,
            result,
            stdout_write_spec(old(machine)@, thread as int, *instruction),
        ),
{
    let slot = instruction.arg(0)?;
    let object = machine.operand(thread, instruction, 1)?;
    let text = machine.string_value(object)?.clone();
    machine.suspend(thread, Request::StdoutWrite { slot, text });
    Ok(())
}

impl VirtualMachine {
    /// `StdoutWrite slot, string`.
    pub fn ins_stdout_write(
        &mut self,
        thread: usize,
        code: &CompiledCode,
        instruction: &Instruction,
    ) -> (result: EmptyResult)
        requires
            old(self)@.wf(),
            old(self)@.has_thread(thread as int),
        ensures
            final(self)@.wf(),
            done(
                old(self)@,
                final(self)@,
                result,
                stdout_write_spec(old(self)@, thread as int, *instruction),
            ),
    {
        stdout_write(self, thread, code, instruction)
    }
}

} // verus!
