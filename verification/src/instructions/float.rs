//! Handlers for floats. The machine checks the operands; the host computes.
use vstd::prelude::*;
use crate::host::{FloatComparison, FloatOperation, Request};
use crate::instruction::Instruction;
use crate::state::{done, MachineState};
use crate::virtual_machine::VirtualMachine;
use crate::virtual_machine_result::{agrees, EmptyResult, Fatal, FatalSpec};

verus! {

/// The slot and the bits of the floats in the registers that arguments 1 and 2 name.
pub open spec fn float_operands(
    state: MachineState,
    thread: int,
    instruction: Instruction,
) -> Result<(usize, u64, u64), FatalSpec> {
    match (
        instruction.spec_arg(0),
        state.operand(thread, instruction, 1),
        state.operand(thread, instruction, 2),
    ) {
        (Err(error), _, _) => Err(error),
        (_, Err(error), _) => Err(error),
        (_, _, Err(error)) => Err(error),
        (Ok(slot), Ok(receiver), Ok(argument)) => match (
            state.float_of(receiver),
            state.float_of(argument),
        ) {
            (Err(error), _) => Err(error),
            (_, Err(error)) => Err(error),
            (Ok(left), Ok(right)) => Ok((slot, left, right)),
        },
    }
}

/// The slot and the bits of the float in the register that argument 1 names.
pub open spec fn float_operand(
    state: MachineState,
    thread: int,
    instruction: Instruction,
) -> Result<(usize, u64), FatalSpec> {
    match (instruction.spec_arg(0), state.operand(thread, instruction, 1)) {
        (Err(error), _) => Err(error),
        (_, Err(error)) => Err(error),
        (Ok(slot), Ok(object)) => match state.float_of(object) {
            Err(error) => Err(error),
            Ok(value) => Ok((slot, value)),
        },
    }
}

/// `slot, receiver, argument`: asks the host to compute the operation on
/// the two floats. The answer becomes a new float object in `slot`.
pub open spec fn float_arithmetic(
    state: MachineState,
    thread: int,
    instruction: Instruction,
    operation: FloatOperation,
) -> Result<MachineState, FatalSpec> {
    match float_operands(state, thread, instruction) {
        Err(error) => Err(error),
        Ok((slot, left, right)) => Ok(
            state.wait(thread, Request::FloatArithmetic { slot, operation, left, right }),
        ),
    }
}

/// `slot, receiver, argument`: asks the host to compare the two floats.
/// The answer decides whether `slot` receives the true or the false object.
pub open spec fn float_compare(
    state: MachineState,
    thread: int,
    instruction: Instruction,
    comparison: FloatComparison,
) -> Result<MachineState, FatalSpec> {
    match float_operands(state, thread, instruction) {
        Err(error) => Err(error),
        Ok((slot, left, right)) => Ok(
            state.wait(thread, Request::FloatCompare { slot, comparison, left, right }),
        ),
    }
}

/// `FloatToInteger slot, float`: asks the host to truncate the float
/// toward zero. The answer becomes a new integer object in `slot`.
pub open spec fn float_to_integer(
    state: MachineState,
    thread: int,
    instruction: Instruction,
) -> Result<MachineState, FatalSpec> {
    match float_operand(state, thread, instruction) {
        Err(error) => Err(error),
        Ok((slot, value)) => Ok(state.wait(thread, Request::FloatToInteger { slot, value })),
    }
}

/// `FloatToString slot, float`: asks the host to format the float. The
/// answer becomes a new string object in `slot`.
pub open spec fn float_to_string(
    state: MachineState,
    thread: int,
    instruction: Instruction,
) -> Result<MachineState, FatalSpec> {
    match float_operand(state, thread, instruction) {
        Err(error) => Err(error),
        Ok((slot, value)) => Ok(state.wait(thread, Request::FloatToString { slot, value })),
    }
}

impl VirtualMachine {
    /// Reads the slot and the two float operands of an instruction.
    fn float_operands(&self, thread: usize, instruction: &Instruction) -> (result: Result<
        (usize, u64, u64),
        Fatal,
    >)
        requires
            self@.wf(),
            self@.has_thread(thread as int),
        ensures
            agrees(result, float_operands(self@, thread as int, *instruction)),
    {
        let slot = instruction.arg(0)?;
        let receiver = self.operand(thread, instruction, 1)?;
        let argument = self.operand(thread, instruction, 2)?;
        let left = self.float_value(receiver)?;
        let right = self.float_value(argument)?;
        Ok((slot, left, right))
    }

    /// Reads the slot and the float operand of an instruction.
    fn float_operand(&self, thread: usize, instruction: &Instruction) -> (result: Result<
        (usize, u64),
        Fatal,
    >)
        requires
            self@.wf(),
            self@.has_thread(thread as int),
        ensures
            agrees(result, float_operand(self@, thread as int, *instruction)),
    {
        let slot = instruction.arg(0)?;
        let object = self.operand(thread, instruction, 1)?;
        let value = self.float_value(object)?;
        Ok((slot, value))
    }

    /// Runs an instruction that computes a float from two floats.
    fn float_arithmetic(
        &mut self,
        thread: usize,
        instruction: &Instruction,
        operation: FloatOperation,
    ) -> (result: EmptyResult)
        requires
            old(self)@.wf(),
            old(self)@.has_thread(thread as int),
        ensures
            final(self)@.wf(),
            done(
                old(self)@,
                final(self)@,
                result,
                float_arithmetic(old(self)@, thread as int, *instruction, operation),
            ),
    {
        let (slot, left, right) = self.float_operands(thread, instruction)?;
        self.suspend(thread, Request::FloatArithmetic { slot, operation, left, right });
        Ok(())
    }

    /// Runs an instruction that compares two floats.
    fn float_compare(
        &mut self,
        thread: usize,
        instruction: &Instruction,
        comparison: FloatComparison,
    ) -> (result: EmptyResult)
        requires
            old(self)@.wf(),
            old(self)@.has_thread(thread as int),
        ensures
            final(self)@.wf(),
            done(
                old(self)@,
                final(self)@,
                result,
                float_compare(old(self)@, thread as int, *instruction, comparison),
            ),
    {
        let (slot, left, right) = self.float_operands(thread, instruction)?;
        self.suspend(thread, Request::FloatCompare { slot, comparison, left, right });
        Ok(())
    }

    /// `FloatAdd slot, receiver, argument`.
    pub fn ins_float_add(&mut self, thread: usize, instruction: &Instruction) -> (result:
        EmptyResult)
        requires
            old(self)@.wf(),
            old(self)@.has_thread(thread as int),
        ensures
            final(self)@.wf(),
            done(
                old(self)@,
                final(self)@,
                result,
                float_arithmetic(old(self)@, thread as int, *instruction, FloatOperation::Add),
            ),
    {
        self.float_arithmetic(thread, instruction, FloatOperation::Add)
    }

    /// `FloatMul slot, receiver, argument`.
    pub fn ins_float_mul(&mut self, thread: usize, instruction: &Instruction) -> (result:
        EmptyResult)
        requires
            old(self)@.wf(),
            old(self)@.has_thread(thread as int),
        ensures
            final(self)@.wf(),
            done(
                old(self)@,
                final(self)@,
                result,
                float_arithmetic(old(self)@, thread as int, *instruction, FloatOperation::Mul),
            ),
    {
        self.float_arithmetic(thread, instruction, FloatOperation::Mul)
    }

    /// `FloatDiv slot, receiver, argument`.
    pub fn ins_float_div(&mut self, thread: usize, instruction: &Instruction) -> (result:
        EmptyResult)
        requires
            old(self)@.wf(),
            old(self)@.has_thread(thread as int),
        ensures
            final(self)@.wf(),
            done(
                old(self)@,
                final(self)@,
                result,
                float_arithmetic(old(self)@, thread as int, *instruction, FloatOperation::Div),
            ),
    {
        self.float_arithmetic(thread, instruction, FloatOperation::Div)
    }

    /// `FloatSub slot, receiver, argument`.
    pub fn ins_float_sub(&mut self, thread: usize, instruction: &Instruction) -> (result:
        EmptyResult)
        requires
            old(self)@.wf(),
            old(self)@.has_thread(thread as int),
        ensures
            final(self)@.wf(),
            done(
                old(self)@,
                final(self)@,
                result,
                float_arithmetic(old(self)@, thread as int, *instruction, FloatOperation::Sub),
            ),
    {
        self.float_arithmetic(thread, instruction, FloatOperation::Sub)
    }

    /// `FloatMod slot, receiver, argument`.
    pub fn ins_float_mod(&mut self, thread: usize, instruction: &Instruction) -> (result:
        EmptyResult)
        requires
            old(self)@.wf(),
            old(self)@.has_thread(thread as int),
        ensures
            final(self)@.wf(),
            done(
                old(self)@,
                final(self)@,
                result,
                float_arithmetic(old(self)@, thread as int, *instruction, FloatOperation::Mod),
            ),
    {
        self.float_arithmetic(thread, instruction, FloatOperation::Mod)
    }

    /// `FloatSmaller slot, receiver, argument`.
    pub fn ins_float_smaller(&mut self, thread: usize, instruction: &Instruction) -> (result:
        EmptyResult)
        requires
            old(self)@.wf(),
            old(self)@.has_thread(thread as int),
        ensures
            final(self)@.wf(),
            done(
                old(self)@,
                final(self)@,
                result,
                float_compare(old(self)@, thread as int, *instruction, FloatComparison::Smaller),
            ),
    {
        self.float_compare(thread, instruction, FloatComparison::Smaller)
    }

    /// `FloatGreater slot, receiver, argument`.
    pub fn ins_float_greater(&mut self, thread: usize, instruction: &Instruction) -> (result:
        EmptyResult)
        requires
            old(self)@.wf(),
            old(self)@.has_thread(thread as int),
        ensures
            final(self)@.wf(),
            done(
                old(self)@,
                final(self)@,
                result,
                float_compare(old(self)@, thread as int, *instruction, FloatComparison::Greater),
            ),
    {
        self.float_compare(thread, instruction, FloatComparison::Greater)
    }

    /// `FloatEquals slot, receiver, argument`.
    pub fn ins_float_equals(&mut self, thread: usize, instruction: &Instruction) -> (result:
        EmptyResult)
        requires
            old(self)@.wf(),
            old(self)@.has_thread(thread as int),
        ensures
            final(self)@.wf(),
            done(
                old(self)@,
                final(self)@,
                result,
                float_compare(old(self)@, thread as int, *instruction, FloatComparison::Equals),
            ),
    {
        self.float_compare(thread, instruction, FloatComparison::Equals)
    }

    /// `FloatToInteger slot, float`.
    pub fn ins_float_to_integer(&mut self, thread: usize, instruction: &Instruction) -> (result:
        EmptyResult)
        requires
            old(self)@.wf(),
            old(self)@.has_thread(thread as int),
        ensures
            final(self)@.wf(),
            done(
                old(self)@,
                final(self)@,
                result,
                float_to_integer(old(self)@, thread as int, *instruction),
            ),
    {
        let (slot, value) = self.float_operand(thread, instruction)?;
        self.suspend(thread, Request::FloatToInteger { slot, value });
        Ok(())
    }

    /// `FloatToString slot, float`.
    pub fn ins_float_to_string(&mut self, thread: usize, instruction: &Instruction) -> (result:
        EmptyResult)
        requires
            old(self)@.wf(),
            old(self)@.has_thread(thread as int),
        ensures
            final(self)@.wf(),
            done(
                old(self)@,
                final(self)@,
                result,
                float_to_string(old(self)@, thread as int, *instruction),
            ),
    {
        let (slot, value) = self.float_operand(thread, instruction)?;
        self.suspend(thread, Request::FloatToString { slot, value });
        Ok(())
    }
}

} // verus!
