//! Handlers for integer arithmetic, comparison and conversion.
use vstd::prelude::*;
use crate::host::Request;
use crate::instruction::Instruction;
use crate::memory_manager::{integer_prototype, string_prototype};
use crate::object_value;
use crate::object_value::Value;
use crate::state::{done, MachineState};
use crate::text::{decimal, integer_to_string};
use crate::virtual_machine::VirtualMachine;
use crate::virtual_machine_result::{agrees, EmptyResult, Failure, Fatal, FatalSpec};

verus! {

/// An operation on two integers that yields an integer.
#[derive(Clone, Copy, Debug, PartialEq, Eq, Structural)]
pub enum IntegerOperation {
    Add,
    Div,
    Mul,
    Sub,
    Mod,
    BitwiseAnd,
    BitwiseOr,
    BitwiseXor,
    ShiftLeft,
    ShiftRight,
}

/// A comparison of two integers.
#[derive(Clone, Copy, Debug, PartialEq, Eq, Structural)]
pub enum IntegerComparison {
    Smaller,
    Greater,
    Equals,
}

/// The 64-bit two's-complement integer that is congruent to `value` modulo 2^64.
pub open spec fn wrap(value: int) -> i64 {
    let residue = value % 0x1_0000_0000_0000_0000;
    if residue > i64::MAX {
        (residue - 0x1_0000_0000_0000_0000) as i64
    } else {
        residue as i64
    }
}

/// The quotient of `dividend` by a `divisor` other than zero, rounded toward zero.
pub open spec fn quotient(dividend: int, divisor: int) -> int {
    if dividend >= 0 && divisor > 0 {
        dividend / divisor
    } else if dividend < 0 && divisor < 0 {
        (-dividend) / (-divisor)
    } else if dividend < 0 {
        -((-dividend) / divisor)
    } else {
        -(dividend / (-divisor))
    }
}

/// What is left of `dividend` after `quotient(dividend, divisor)` times
/// `divisor` is taken away. Its sign is that of the dividend.
pub open spec fn remainder(dividend: int, divisor: int) -> int {
    if dividend >= 0 && divisor > 0 {
        dividend % divisor
    } else if dividend < 0 && divisor < 0 {
        -((-dividend) % (-divisor))
    } else if dividend < 0 {
        -((-dividend) % divisor)
    } else {
        dividend % (-divisor)
    }
}

/// The result of an integer operation: wrapping arithmetic, division and
/// remainder that round toward zero and reject a zero divisor, and shifts
/// that reject a distance outside of `0..64`.
pub open spec fn integer_operation(operation: IntegerOperation, left: i64, right: i64) -> Result<
    i64,
    FatalSpec,
> {
    match operation {
        IntegerOperation::Add => Ok(wrap(left + right)),
        IntegerOperation::Sub => Ok(wrap(left - right)),
        IntegerOperation::Mul => Ok(wrap(left * right)),
        IntegerOperation::Div => if right == 0 {
            Err(Failure::DivisionByZero)
        } else {
            Ok(wrap(quotient(left as int, right as int)))
        },
        IntegerOperation::Mod => if right == 0 {
            Err(Failure::DivisionByZero)
        } else {
            Ok(wrap(remainder(left as int, right as int)))
        },
        IntegerOperation::BitwiseAnd => Ok(left & right),
        IntegerOperation::BitwiseOr => Ok(left | right),
        IntegerOperation::BitwiseXor => Ok(left ^ right),
        IntegerOperation::ShiftLeft => if 0 <= right < 64 {
            Ok(left << (right as u32))
        } else {
            Err(Failure::InvalidShift(right))
        },
        IntegerOperation::ShiftRight => if 0 <= right < 64 {
            Ok(left >> (right as u32))
        } else {
            Err(Failure::InvalidShift(right))
        },
    }
}

/// The outcome of an integer comparison.
pub open spec fn integer_comparison(comparison: IntegerComparison, left: i64, right: i64) -> bool {
    match comparison {
        IntegerComparison::Smaller => left < right,
        IntegerComparison::Greater => left > right,
        IntegerComparison::Equals => left == right,
    }
}

/// Division that rounds toward zero satisfies the division identity, and
/// the remainder is smaller than the divisor and has the sign of the dividend.
pub proof fn lemma_division_identity(dividend: int, divisor: int)
    requires
        divisor != 0,
    ensures
        dividend == divisor * quotient(dividend, divisor) + remainder(dividend, divisor),
        dividend >= 0 ==> 0 <= remainder(dividend, divisor),
        dividend <= 0 ==> remainder(dividend, divisor) <= 0,
        divisor > 0 ==> -divisor < remainder(dividend, divisor) < divisor,
        divisor < 0 ==> divisor < remainder(dividend, divisor) < -divisor,
{
    let a = if dividend < 0 {
        -dividend
    } else {
        dividend
    };
    let b = if divisor < 0 {
        -divisor
    } else {
        divisor
    };
    vstd::arithmetic::div_mod::lemma_fundamental_div_mod(a, b);
    vstd::arithmetic::div_mod::lemma_mod_bound(a, b);
    assert(a == b * (a / b) + a % b);
    assert(dividend == divisor * quotient(dividend, divisor) + remainder(dividend, divisor))
        by (nonlinear_arith)
        requires
            a == b * (a / b) + a % b,
            a == if dividend < 0 {
                -dividend
            } else {
                dividend
            },
            b == if divisor < 0 {
                -divisor
            } else {
                divisor
            },
            divisor != 0,
            quotient(dividend, divisor) == if (dividend >= 0) == (divisor > 0) {
                a / b
            } else {
                -(a / b)
            },
            remainder(dividend, divisor) == if dividend >= 0 {
                a % b
            } else {
                -(a % b)
            },
    ;
}

/// Wrapping leaves an integer that fits in 64 bits as it is, and any
/// integer congruent to itself modulo 2^64.
pub proof fn lemma_wrap_congruent(value: int)
    ensures
        (wrap(value) - value) % 0x1_0000_0000_0000_0000 == 0,
        i64::MIN <= value <= i64::MAX ==> wrap(value) == value,
{
}

/// Computes an integer operation.
pub fn compute_integer(operation: IntegerOperation, left: i64, right: i64) -> (result: Result<
    i64,
    Fatal,
>)
    ensures
        agrees(result, integer_operation(operation, left, right)),
{
    match operation {
        IntegerOperation::Add => Ok(left.wrapping_add(right)),
        IntegerOperation::Sub => Ok(left.wrapping_sub(right)),
        IntegerOperation::Mul => Ok(left.wrapping_mul(right)),
        IntegerOperation::Div => {
            if right == 0 {
                Err(Failure::DivisionByZero)
            } else {
                match left.checked_div(right) {
                    Some(value) => Ok(value),
                    None => Ok(i64::MIN),
                }
            }
        },
        IntegerOperation::Mod => {
            if right == 0 {
                Err(Failure::DivisionByZero)
            } else {
                match left.checked_rem(right) {
                    Some(value) => Ok(value),
                    None => Ok(0),
                }
            }
        },
        IntegerOperation::BitwiseAnd => Ok(left & right),
        IntegerOperation::BitwiseOr => Ok(left | right),
        IntegerOperation::BitwiseXor => Ok(left ^ right),
        IntegerOperation::ShiftLeft => {
            if 0 <= right && right < 64 {
                Ok(left.wrapping_shl(right as u32))
            } else {
                Err(Failure::InvalidShift(right))
            }
        },
        IntegerOperation::ShiftRight => {
            if 0 <= right && right < 64 {
                Ok(left.wrapping_shr(right as u32))
            } else {
                Err(Failure::InvalidShift(right))
            }
        },
    }
}

/// Decides an integer comparison.
pub fn compare_integers(comparison: IntegerComparison, left: i64, right: i64) -> (result: bool)
    ensures
        result == integer_comparison(comparison, left, right),
{
    match comparison {
        IntegerComparison::Smaller => left < right,
        IntegerComparison::Greater => left > right,
        IntegerComparison::Equals => left == right,
    }
}

/// The integers in the registers that arguments 1 and 2 name.
pub open spec fn integer_operands(
    state: MachineState,
    thread: int,
    instruction: Instruction,
) -> Result<(usize, i64, i64), FatalSpec> {
    match (
        instruction.spec_arg(0),
        state.operand(thread, instruction, 1),
        state.operand(thread, instruction, 2),
    ) {
        (Err(error), _, _) => Err(error),
        (_, Err(error), _) => Err(error),
        (_, _, Err(error)) => Err(error),
        (Ok(slot), Ok(receiver), Ok(argument)) => match (
            state.integer_of(receiver),
            state.integer_of(argument),
        ) {
            (Err(error), _) => Err(error),
            (_, Err(error)) => Err(error),
            (Ok(left), Ok(right)) => Ok((slot, left, right)),
        },
    }
}

/// `slot, receiver, argument`: binds `slot` to a new integer object that
/// holds the result of the operation on the two integers.
pub open spec fn integer_binary(
    state: MachineState,
    thread: int,
    instruction: Instruction,
    operation: IntegerOperation,
) -> Result<MachineState, FatalSpec> {
    match integer_operands(state, thread, instruction) {
        Err(error) => Err(error),
        Ok((slot, left, right)) => match integer_operation(operation, left, right) {
            Err(error) => Err(error),
            Ok(value) => Ok(
                state.bind_new(thread, slot, Value::Integer(value), Some(integer_prototype())),
            ),
        },
    }
}

/// `slot, receiver, argument`: binds `slot` to the true or the false
/// object, as the comparison of the two integers turns out.
pub open spec fn integer_compare(
    state: MachineState,
    thread: int,
    instruction: Instruction,
    comparison: IntegerComparison,
) -> Result<MachineState, FatalSpec> {
    match integer_operands(state, thread, instruction) {
        Err(error) => Err(error),
        Ok((slot, left, right)) => Ok(
            state.bind_flag(thread, slot, integer_comparison(comparison, left, right)),
        ),
    }
}

/// `IntegerToString slot, integer`: binds `slot` to a new string object
/// that holds the integer in decimal.
pub open spec fn integer_to_string_spec(
    state: MachineState,
    thread: int,
    instruction: Instruction,
) -> Result<MachineState, FatalSpec> {
    match (instruction.spec_arg(0), state.operand(thread, instruction, 1)) {
        (Err(error), _) => Err(error),
        (_, Err(error)) => Err(error),
        (Ok(slot), Ok(object)) => match state.integer_of(object) {
            Err(error) => Err(error),
            Ok(value) => Ok(
                state.bind_new(
                    thread,
                    slot,
                    Value::String(decimal(value as int)),
                    Some(string_prototype()),
                ),
            ),
        },
    }
}

/// `IntegerToFloat slot, integer`: asks the host for the float nearest to
/// the integer.
pub open spec fn integer_to_float(
    state: MachineState,
    thread: int,
    instruction: Instruction,
) -> Result<MachineState, FatalSpec> {
    match (instruction.spec_arg(0), state.operand(thread, instruction, 1)) {
        (Err(error), _) => Err(error),
        (_, Err(error)) => Err(error),
        (Ok(slot), Ok(object)) => match state.integer_of(object) {
            Err(error) => Err(error),
            Ok(value) => Ok(state.wait(thread, Request::IntegerToFloat { slot, integer: value })),
        },
    }
}

impl VirtualMachine {
    /// Reads the slot and the two integer operands of an instruction.
    fn integer_operands(&self, thread: usize, instruction: &Instruction) -> (result: Result<
        (usize, i64, i64),
        Fatal,
    >)
        requires
            self@.wf(),
            self@.has_thread(thread as int),
        ensures
            agrees(result, integer_operands(self@, thread as int, *instruction)),
    {
        let slot = instruction.arg(0)?;
        let receiver = self.operand(thread, instruction, 1)?;
        let argument = self.operand(thread, instruction, 2)?;
        let left = self.integer_value(receiver)?;
        let right = self.integer_value(argument)?;
        Ok((slot, left, right))
    }

    /// Runs an instruction that computes an integer from two integers.
    fn integer_binary(
        &mut self,
        thread: usize,
        instruction: &Instruction,
        operation: IntegerOperation,
    ) -> (result: EmptyResult)
        requires
            old(self)@.wf(),
            old(self)@.has_thread(thread as int),
        ensures
            final(self)@.wf(),
            done(
                old(self)@,
                final(self)@,
                result,
                integer_binary(old(self)@, thread as int, *instruction, operation),
            ),
    {
        let (slot, left, right) = self.integer_operands(thread, instruction)?;
        let value = compute_integer(operation, left, right)?;
        let prototype = self.integer_prototype();
        self.set_register_new(thread, slot, object_value::integer(value), prototype);
        Ok(())
    }

    /// Runs an instruction that compares two integers.
    fn integer_compare(
        &mut self,
        thread: usize,
        instruction: &Instruction,
        comparison: IntegerComparison,
    ) -> (result: EmptyResult)
        requires
            old(self)@.wf(),
            old(self)@.has_thread(thread as int),
        ensures
            final(self)@.wf(),
            done(
                old(self)@,
                final(self)@,
                result,
                integer_compare(old(self)@, thread as int, *instruction, comparison),
            ),
    {
        let (slot, left, right) = self.integer_operands(thread, instruction)?;
        self.set_register_flag(thread, slot, compare_integers(comparison, left, right));
        Ok(())
    }

    /// `IntegerAdd slot, receiver, argument`.
    pub fn ins_integer_add(&mut self, thread: usize, instruction: &Instruction) -> (result:
        EmptyResult)
        requires
            old(self)@.wf(),
            old(self)@.has_thread(thread as int),
        ensures
            final(self)@.wf(),
            done(
                old(self)@,
                final(self)@,
                result,
                integer_binary(old(self)@, thread as int, *instruction, IntegerOperation::Add),
            ),
    {
        self.integer_binary(thread, instruction, IntegerOperation::Add)
    }

    /// `IntegerDiv slot, receiver, argument`.
    pub fn ins_integer_div(&mut self, thread: usize, instruction: &Instruction) -> (result:
        EmptyResult)
        requires
            old(self)@.wf(),
            old(self)@.has_thread(thread as int),
        ensures
            final(self)@.wf(),
            done(
                old(self)@,
                final(self)@,
                result,
                integer_binary(old(self)@, thread as int, *instruction, IntegerOperation::Div),
            ),
    {
        self.integer_binary(thread, instruction, IntegerOperation::Div)
    }

    /// `IntegerMul slot, receiver, argument`.
    pub fn ins_integer_mul(&mut self, thread: usize, instruction: &Instruction) -> (result:
        EmptyResult)
        requires
            old(self)@.wf(),
            old(self)@.has_thread(thread as int),
        ensures
            final(self)@.wf(),
            done(
                old(self)@,
                final(self)@,
                result,
                integer_binary(old(self)@, thread as int, *instruction, IntegerOperation::Mul),
            ),
    {
        self.integer_binary(thread, instruction, IntegerOperation::Mul)
    }

    /// `IntegerSub slot, receiver, argument`.
    pub fn ins_integer_sub(&mut self, thread: usize, instruction: &Instruction) -> (result:
        EmptyResult)
        requires
            old(self)@.wf(),
            old(self)@.has_thread(thread as int),
        ensures
            final(self)@.wf(),
            done(
                old(self)@,
                final(self)@,
                result,
                integer_binary(old(self)@, thread as int, *instruction, IntegerOperation::Sub),
            ),
    {
        self.integer_binary(thread, instruction, IntegerOperation::Sub)
    }

    /// `IntegerMod slot, receiver, argument`.
    pub fn ins_integer_mod(&mut self, thread: usize, instruction: &Instruction) -> (result:
        EmptyResult)
        requires
            old(self)@.wf(),
            old(self)@.has_thread(thread as int),
        ensures
            final(self)@.wf(),
            done(
                old(self)@,
                final(self)@,
                result,
                integer_binary(old(self)@, thread as int, *instruction, IntegerOperation::Mod),
            ),
    {
        self.integer_binary(thread, instruction, IntegerOperation::Mod)
    }

    /// `IntegerBitwiseAnd slot, receiver, argument`.
    pub fn ins_integer_bitwise_and(&mut self, thread: usize, instruction: &Instruction) -> (result:
        EmptyResult)
        requires
            old(self)@.wf(),
            old(self)@.has_thread(thread as int),
        ensures
            final(self)@.wf(),
            done(
                old(self)@,
                final(self)@,
                result,
                integer_binary(
                    old(self)@,
                    thread as int,
                    *instruction,
                    IntegerOperation::BitwiseAnd,
                ),
            ),
    {
        self.integer_binary(thread, instruction, IntegerOperation::BitwiseAnd)
    }

    /// `IntegerBitwiseOr slot, receiver, argument`.
    pub fn ins_integer_bitwise_or(&mut self, thread: usize, instruction: &Instruction) -> (result:
        EmptyResult)
        requires
            old(self)@.wf(),
            old(self)@.has_thread(thread as int),
        ensures
            final(self)@.wf(),
            done(
                old(self)@,
                final(self)@,
                result,
                integer_binary(
                    old(self)@,
                    thread as int,
                    *instruction,
                    IntegerOperation::BitwiseOr,
                ),
            ),
    {
        self.integer_binary(thread, instruction, IntegerOperation::BitwiseOr)
    }

    /// `IntegerBitwiseXor slot, receiver, argument`.
    pub fn ins_integer_bitwise_xor(&mut self, thread: usize, instruction: &Instruction) -> (result:
        EmptyResult)
        requires
            old(self)@.wf(),
            old(self)@.has_thread(thread as int),
        ensures
            final(self)@.wf(),
            done(
                old(self)@,
                final(self)@,
                result,
                integer_binary(
                    old(self)@,
                    thread as int,
                    *instruction,
                    IntegerOperation::BitwiseXor,
                ),
            ),
    {
        self.integer_binary(thread, instruction, IntegerOperation::BitwiseXor)
    }

    /// `IntegerShiftLeft slot, receiver, argument`.
    pub fn ins_integer_shift_left(&mut self, thread: usize, instruction: &Instruction) -> (result:
        EmptyResult)
        requires
            old(self)@.wf(),
            old(self)@.has_thread(thread as int),
        ensures
            final(self)@.wf(),
            done(
                old(self)@,
                final(self)@,
                result,
                integer_binary(
                    old(self)@,
                    thread as int,
                    *instruction,
                    IntegerOperation::ShiftLeft,
                ),
            ),
    {
        self.integer_binary(thread, instruction, IntegerOperation::ShiftLeft)
    }

    /// `IntegerShiftRight slot, receiver, argument`.
    pub fn ins_integer_shift_right(&mut self, thread: usize, instruction: &Instruction) -> (result:
        EmptyResult)
        requires
            old(self)@.wf(),
            old(self)@.has_thread(thread as int),
        ensures
            final(self)@.wf(),
            done(
                old(self)@,
                final(self)@,
                result,
                integer_binary(
                    old(self)@,
                    thread as int,
                    *instruction,
                    IntegerOperation::ShiftRight,
                ),
            ),
    {
        self.integer_binary(thread, instruction, IntegerOperation::ShiftRight)
    }

    /// `IntegerSmaller slot, receiver, argument`.
    pub fn ins_integer_smaller(&mut self, thread: usize, instruction: &Instruction) -> (result:
        EmptyResult)
        requires
            old(self)@.wf(),
            old(self)@.has_thread(thread as int),
        ensures
            final(self)@.wf(),
            done(
                old(self)@,
                final(self)@,
                result,
                integer_compare(
                    old(self)@,
                    thread as int,
                    *instruction,
                    IntegerComparison::Smaller,
                ),
            ),
    {
        self.integer_compare(thread, instruction, IntegerComparison::Smaller)
    }

    /// `IntegerGreater slot, receiver, argument`.
    pub fn ins_integer_greater(&mut self, thread: usize, instruction: &Instruction) -> (result:
        EmptyResult)
        requires
            old(self)@.wf(),
            old(self)@.has_thread(thread as int),
        ensures
            final(self)@.wf(),
            done(
                old(self)@,
                final(self)@,
                result,
                integer_compare(
                    old(self)@,
                    thread as int,
                    *instruction,
                    IntegerComparison::Greater,
                ),
            ),
    {
        self.integer_compare(thread, instruction, IntegerComparison::Greater)
    }

    /// `IntegerEquals slot, receiver, argument`.
    pub fn ins_integer_equals(&mut self, thread: usize, instruction: &Instruction) -> (result:
        EmptyResult)
        requires
            old(self)@.wf(),
            old(self)@.has_thread(thread as int),
        ensures
            final(self)@.wf(),
            done(
                old(self)@,
                final(self)@,
                result,
                integer_compare(old(self)@, thread as int, *instruction, IntegerComparison::Equals),
            ),
    {
        self.integer_compare(thread, instruction, IntegerComparison::Equals)
    }

    /// `IntegerToString slot, integer`.
    pub fn ins_integer_to_string(&mut self, thread: usize, instruction: &Instruction) -> (result:
        EmptyResult)
        requires
            old(self)@.wf(),
            old(self)@.has_thread(thread as int),
        ensures
            final(self)@.wf(),
            done(
                old(self)@,
                final(self)@,
                result,
                integer_to_string_spec(old(self)@, thread as int, *instruction),
            ),
    {
        let slot = instruction.arg(0)?;
        let object = self.operand(thread, instruction, 1)?;
        let value = self.integer_value(object)?;
        let prototype = self.string_prototype();
        self.set_register_new(
            thread,
            slot,
            object_value::string(integer_to_string(value)),
            prototype,
        );
        Ok(())
    }

    /// `IntegerToFloat slot, integer`.
    pub fn ins_integer_to_float(&mut self, thread: usize, instruction: &Instruction) -> (result:
        EmptyResult)
        requires
            old(self)@.wf(),
            old(self)@.has_thread(thread as int),
        ensures
            final(self)@.wf(),
            done(
                old(self)@,
                final(self)@,
                result,
                integer_to_float(old(self)@, thread as int, *instruction),
            ),
    {
        let slot = instruction.arg(0)?;
        let object = self.operand(thread, instruction, 1)?;
        let value = self.integer_value(object)?;
        self.suspend(thread, Request::IntegerToFloat { slot, integer: value });
        Ok(())
    }
}

} // verus!
