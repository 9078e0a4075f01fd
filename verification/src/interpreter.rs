//! The dispatch loop: what one instruction does, what one step of a thread
//! does, and what running a thread for a number of steps does.
use vstd::prelude::*;
use crate::compiled_code::CompiledCode;
use crate::host::{FloatComparison, FloatOperation};
use crate::instruction::{Instruction, InstructionType};
use crate::instructions::integer::{IntegerComparison, IntegerOperation};
use crate::instructions::{
    array, float, flow, integer, io, loader, methods, prototypes, stdout, string, values, variables,
};
use crate::memory_manager::{
    array_prototype, compiled_code_prototype, false_prototype, float_prototype,
    integer_prototype, method_prototype, string_prototype, thread_prototype, top_level,
    true_prototype,
};
use crate::object_pointer::ObjectPointer;
use crate::state::{done, MachineState};
use crate::virtual_machine::VirtualMachine;
use crate::virtual_machine_result::{EmptyResult, Fatal, FatalSpec};

verus! {

/// How far a thread has come.
#[derive(Clone, Copy, Debug, PartialEq, Eq, Structural)]
pub enum Progress {
    /// The thread can take another step.
    Running,
    /// The thread has created the thread at this index, which the host is
    /// to run, and can take another step.
    Started(usize),
    /// The thread waits for the host to answer its request.
    Waiting,
    /// The thread has ended, with this value.
    Finished(Option<ObjectPointer>),
}

/// What an instruction that neither returns, jumps nor starts a thread
/// makes of the machine.
pub open spec fn effect(
    state: MachineState,
    thread: int,
    code: CompiledCode,
    instruction: Instruction,
) -> Result<MachineState, FatalSpec> {
    match instruction.instruction_type {
        InstructionType::SetInteger => values::set_integer(state, thread, code, instruction),
        InstructionType::SetFloat => values::set_float(state, thread, code, instruction),
        InstructionType::SetString => values::set_string(state, thread, code, instruction),
        InstructionType::SetObject => values::set_object(state, thread, instruction),
        InstructionType::SetArray => values::set_array(state, thread, instruction),
        InstructionType::SetName => values::set_name(state, thread, code, instruction),
        InstructionType::GetIntegerPrototype => prototypes::get_singleton(
            state,
            thread,
            instruction,
            integer_prototype(),
        ),
        InstructionType::GetFloatPrototype => prototypes::get_singleton(
            state,
            thread,
            instruction,
            float_prototype(),
        ),
        InstructionType::GetStringPrototype => prototypes::get_singleton(
            state,
            thread,
            instruction,
            string_prototype(),
        ),
        InstructionType::GetArrayPrototype => prototypes::get_singleton(
            state,
            thread,
            instruction,
            array_prototype(),
        ),
        InstructionType::GetThreadPrototype => prototypes::get_singleton(
            state,
            thread,
            instruction,
            thread_prototype(),
        ),
        InstructionType::GetTruePrototype => prototypes::get_singleton(
            state,
            thread,
            instruction,
            true_prototype(),
        ),
        InstructionType::GetFalsePrototype => prototypes::get_singleton(
            state,
            thread,
            instruction,
            false_prototype(),
        ),
        InstructionType::GetMethodPrototype => prototypes::get_singleton(
            state,
            thread,
            instruction,
            method_prototype(),
        ),
        InstructionType::GetCompiledCodePrototype => prototypes::get_singleton(
            state,
            thread,
            instruction,
            compiled_code_prototype(),
        ),
        InstructionType::SetTrue => values::set_true(state, thread, instruction),
        InstructionType::SetFalse => values::set_false(state, thread, instruction),
        InstructionType::SetLocal => variables::set_local(state, thread, instruction),
        InstructionType::GetLocal => variables::get_local(state, thread, instruction),
        InstructionType::SetConst => variables::set_const(state, thread, code, instruction),
        InstructionType::GetConst => variables::get_const(state, thread, code, instruction),
        InstructionType::SetAttr => variables::set_attr(state, thread, instruction),
        InstructionType::GetAttr => variables::get_attr(state, thread, instruction),
        InstructionType::SetCompiledCode => values::set_compiled_code(
            state,
            thread,
            code,
            instruction,
        ),
        InstructionType::Send => methods::send(state, thread, code, instruction),
        InstructionType::DefMethod => methods::def_method(state, thread, instruction),
        InstructionType::DefLiteralMethod => methods::def_literal_method(
            state,
            thread,
            code,
            instruction,
        ),
        InstructionType::RunCode => methods::run_code(state, thread, instruction),
        InstructionType::GetToplevel => prototypes::get_singleton(
            state,
            thread,
            instruction,
            top_level(),
        ),
        InstructionType::IsError => flow::is_error(state, thread, instruction),
        InstructionType::ErrorToString => flow::error_to_string(state, thread, instruction),
        InstructionType::IntegerAdd => integer::integer_binary(
            state,
            thread,
            instruction,
            IntegerOperation::Add,
        ),
        InstructionType::IntegerDiv => integer::integer_binary(
            state,
            thread,
            instruction,
            IntegerOperation::Div,
        ),
        InstructionType::IntegerMul => integer::integer_binary(
            state,
            thread,
            instruction,
            IntegerOperation::Mul,
        ),
        InstructionType::IntegerSub => integer::integer_binary(
            state,
            thread,
            instruction,
            IntegerOperation::Sub,
        ),
        InstructionType::IntegerMod => integer::integer_binary(
            state,
            thread,
            instruction,
            IntegerOperation::Mod,
        ),
        InstructionType::IntegerToFloat => integer::integer_to_float(state, thread, instruction),
        InstructionType::IntegerToString => integer::integer_to_string_spec(
            state,
            thread,
            instruction,
        ),
        InstructionType::IntegerBitwiseAnd => integer::integer_binary(
            state,
            thread,
            instruction,
            IntegerOperation::BitwiseAnd,
        ),
        InstructionType::IntegerBitwiseOr => integer::integer_binary(
            state,
            thread,
            instruction,
            IntegerOperation::BitwiseOr,
        ),
        InstructionType::IntegerBitwiseXor => integer::integer_binary(
            state,
            thread,
            instruction,
            IntegerOperation::BitwiseXor,
        ),
        InstructionType::IntegerShiftLeft => integer::integer_binary(
            state,
            thread,
            instruction,
            IntegerOperation::ShiftLeft,
        ),
        InstructionType::IntegerShiftRight => integer::integer_binary(
            state,
            thread,
            instruction,
            IntegerOperation::ShiftRight,
        ),
        InstructionType::IntegerSmaller => integer::integer_compare(
            state,
            thread,
            instruction,
            IntegerComparison::Smaller,
        ),
        InstructionType::IntegerGreater => integer::integer_compare(
            state,
            thread,
            instruction,
            IntegerComparison::Greater,
        ),
        InstructionType::IntegerEquals => integer::integer_compare(
            state,
            thread,
            instruction,
            IntegerComparison::Equals,
        ),
        InstructionType::FloatAdd => float::float_arithmetic(
            state,
            thread,
            instruction,
            FloatOperation::Add,
        ),
        InstructionType::FloatMul => float::float_arithmetic(
            state,
            thread,
            instruction,
            FloatOperation::Mul,
        ),
        InstructionType::FloatDiv => float::float_arithmetic(
            state,
            thread,
            instruction,
            FloatOperation::Div,
        ),
        InstructionType::FloatSub => float::float_arithmetic(
            state,
            thread,
            instruction,
            FloatOperation::Sub,
        ),
        InstructionType::FloatMod => float::float_arithmetic(
            state,
            thread,
            instruction,
            FloatOperation::Mod,
        ),
        InstructionType::FloatToInteger => float::float_to_integer(state, thread, instruction),
        InstructionType::FloatToString => float::float_to_string(state, thread, instruction),
        InstructionType::FloatSmaller => float::float_compare(
            state,
            thread,
            instruction,
            FloatComparison::Smaller,
        ),
        InstructionType::FloatGreater => float::float_compare(
            state,
            thread,
            instruction,
            FloatComparison::Greater,
        ),
        InstructionType::FloatEquals => float::float_compare(
            state,
            thread,
            instruction,
            FloatComparison::Equals,
        ),
        InstructionType::ArrayInsert => array::array_insert(state, thread, instruction),
        InstructionType::ArrayAt => array::array_at(state, thread, instruction),
        InstructionType::ArrayRemove => array::array_remove(state, thread, instruction),
        InstructionType::ArrayLength => array::array_length(state, thread, instruction),
        InstructionType::ArrayClear => array::array_clear(state, thread, instruction),
        InstructionType::StringToLower => string::string_to_lower(state, thread, instruction),
        InstructionType::StringToUpper => string::string_to_upper(state, thread, instruction),
        InstructionType::StringEquals => string::string_equals(state, thread, instruction),
        InstructionType::StringToBytes => string::string_to_bytes(state, thread, instruction),
        InstructionType::StringFromBytes => string::string_from_bytes(state, thread, instruction),
        InstructionType::StringLength => string::string_length(state, thread, instruction),
        InstructionType::StringSize => string::string_size(state, thread, instruction),
        InstructionType::StdoutWrite => stdout::stdout_write_spec(state, thread, instruction),
        InstructionType::StderrWrite => io::stderr_write(state, thread, instruction),
        InstructionType::StdinRead => io::stdin_read(state, thread, instruction),
        InstructionType::StdinReadLine => io::stdin_read_line(state, thread, instruction),
        InstructionType::FileOpen => io::file_open(state, thread, instruction),
        InstructionType::FileWrite => io::file_write(state, thread, instruction),
        InstructionType::FileRead => io::file_read(state, thread, instruction),
        InstructionType::FileReadLine => io::file_read_line(state, thread, instruction),
        InstructionType::FileFlush => io::file_flush(state, thread, instruction),
        InstructionType::FileSize => io::file_size(state, thread, instruction),
        InstructionType::FileSeek => io::file_seek(state, thread, instruction),
        InstructionType::RunFileFast => loader::run_file_fast(state, thread, code, instruction),
        InstructionType::Return
        | InstructionType::Goto
        | InstructionType::GotoIfFalse
        | InstructionType::GotoIfTrue
        | InstructionType::StartThread => Ok(state),
    }
}

/// What an instruction makes of the machine, and how far the thread is
/// after it. `Return` records the value of a register as what the frame
/// returns and goes on; the frame ends when it has no instruction left.
pub open spec fn execute(
    state: MachineState,
    thread: int,
    code: CompiledCode,
    instruction: Instruction,
) -> Result<(MachineState, Progress), FatalSpec> {
    match instruction.instruction_type {
        InstructionType::Return => match flow::return_value(state, thread, instruction) {
            Err(error) => Err(error),
            Ok(value) => Ok((state.record_return(thread, value), Progress::Running)),
        },
        InstructionType::Goto => match flow::goto(instruction) {
            Err(error) => Err(error),
            Ok(target) => Ok((state.jump(thread, target), Progress::Running)),
        },
        InstructionType::GotoIfFalse => match flow::goto_if_false(state, thread, instruction) {
            Err(error) => Err(error),
            Ok(target) => Ok((state.branch(thread, target), Progress::Running)),
        },
        InstructionType::GotoIfTrue => match flow::goto_if_true(state, thread, instruction) {
            Err(error) => Err(error),
            Ok(target) => Ok((state.branch(thread, target), Progress::Running)),
        },
        InstructionType::StartThread => match loader::start_thread(
            state,
            thread,
            code,
            instruction,
        ) {
            Err(error) => Err(error),
            Ok((after, started)) => Ok((after, Progress::Started(started))),
        },
        _ => match effect(state, thread, code, instruction) {
            Err(error) => Err(error),
            Ok(after) => Ok(
                (
                    after,
                    if after.threads[thread].pending is Some {
                        Progress::Waiting
                    } else {
                        Progress::Running
                    },
                ),
            ),
        },
    }
}

/// What one step of a thread makes of the machine, and how far the thread
/// is after it, or the fatal error that the step met.
///
/// A thread that was asked to stop ends with no value. A thread that waits
/// keeps waiting. A frame that has no instruction left ends: the thread
/// ends with it if it is the only frame, and else the calling frame goes
/// on. Otherwise the frame moves past its next instruction and executes it.
pub open spec fn step(state: MachineState, thread: int) -> (
    MachineState,
    Result<Progress, FatalSpec>,
) {
    let current = state.threads[thread];
    let frame = current.current();
    if current.should_stop {
        (state.unwind(thread), Ok(Progress::Finished(None)))
    } else if current.pending is Some {
        (state, Ok(Progress::Waiting))
    } else if frame.index >= frame.code.instructions@.len() {
        if current.frames.len() == 1 {
            (state, Ok(Progress::Finished(frame.return_value)))
        } else {
            (state.leave(thread), Ok(Progress::Running))
        }
    } else {
        let advanced = state.jump(thread, (frame.index + 1) as usize);
        match execute(advanced, thread, frame.code, frame.code.instructions@[frame.index as int]) {
            Ok((after, progress)) => (after, Ok(progress)),
            Err(error) => (advanced, Err(error)),
        }
    }
}

/// What up to `fuel` steps of a thread make of the machine: steps are
/// taken for as long as the thread can take another and has started no
/// thread.
pub open spec fn run(state: MachineState, thread: int, fuel: nat) -> (
    MachineState,
    Result<Progress, FatalSpec>,
)
    decreases fuel,
{
    if fuel == 0 {
        (state, Ok(Progress::Running))
    } else {
        let (after, outcome) = step(state, thread);
        if outcome == Ok::<Progress, FatalSpec>(Progress::Running) {
            run(after, thread, (fuel - 1) as nat)
        } else {
            (after, outcome)
        }
    }
}

/// Whether an executable outcome is the one a specification states.
pub open spec fn outcome_agrees(
    result: Result<Progress, Fatal>,
    expected: Result<Progress, FatalSpec>,
) -> bool {
    match expected {
        Ok(progress) => result == Ok::<Progress, Fatal>(progress),
        Err(error) => result is Err && result->Err_0@ == error,
    }
}

impl VirtualMachine {
    /// Runs an instruction that neither returns, jumps nor starts a thread.
    fn effect(&mut self, thread: usize, code: &CompiledCode, instruction: &Instruction) -> (result:
        EmptyResult)
        requires
            old(self)@.wf(),
            old(self)@.has_thread(thread as int),
        ensures
            final(self)@.wf(),
            done(
                old(self)@,
                final(self)@,
                result,
                effect(old(self)@, thread as int, *code, *instruction),
            ),
    {
        match instruction.instruction_type {
            InstructionType::SetInteger => self.ins_set_integer(thread, code, instruction),
            InstructionType::SetFloat => self.ins_set_float(thread, code, instruction),
            InstructionType::SetString => self.ins_set_string(thread, code, instruction),
            InstructionType::SetObject => self.ins_set_object(thread, instruction),
            InstructionType::SetArray => self.ins_set_array(thread, instruction),
            InstructionType::SetName => self.ins_set_name(thread, code, instruction),
            InstructionType::GetIntegerPrototype => self.ins_get_integer_prototype(
                thread,
                instruction,
            ),
            InstructionType::GetFloatPrototype => self.ins_get_float_prototype(thread, instruction),
            InstructionType::GetStringPrototype => self.ins_get_string_prototype(
                thread,
                instruction,
            ),
            InstructionType::GetArrayPrototype => self.ins_get_array_prototype(thread, instruction),
            InstructionType::GetThreadPrototype => self.ins_get_thread_prototype(
                thread,
                instruction,
            ),
            InstructionType::GetTruePrototype => self.ins_get_true_prototype(thread, instruction),
            InstructionType::GetFalsePrototype => self.ins_get_false_prototype(thread, instruction),
            InstructionType::GetMethodPrototype => self.ins_get_method_prototype(
                thread,
                instruction,
            ),
            InstructionType::GetCompiledCodePrototype => self.ins_get_compiled_code_prototype(
                thread,
                instruction,
            ),
            InstructionType::SetTrue => self.ins_set_true(thread, instruction),
            InstructionType::SetFalse => self.ins_set_false(thread, instruction),
            InstructionType::SetLocal => self.ins_set_local(thread, instruction),
            InstructionType::GetLocal => self.ins_get_local(thread, instruction),
            InstructionType::SetConst => self.ins_set_const(thread, code, instruction),
            InstructionType::GetConst => self.ins_get_const(thread, code, instruction),
            InstructionType::SetAttr => self.ins_set_attr(thread, instruction),
            InstructionType::GetAttr => self.ins_get_attr(thread, instruction),
            InstructionType::SetCompiledCode => self.ins_set_compiled_code(
                thread,
                code,
                instruction,
            ),
            InstructionType::Send => self.ins_send(thread, code, instruction),
            InstructionType::DefMethod => self.ins_def_method(thread, instruction),
            InstructionType::DefLiteralMethod => self.ins_def_literal_method(
                thread,
                code,
                instruction,
            ),
            InstructionType::RunCode => self.ins_run_code(thread, instruction),
            InstructionType::GetToplevel => self.ins_get_toplevel(thread, instruction),
            InstructionType::IsError => self.ins_is_error(thread, instruction),
            InstructionType::ErrorToString => self.ins_error_to_string(thread, instruction),
            InstructionType::IntegerAdd => self.ins_integer_add(thread, instruction),
            InstructionType::IntegerDiv => self.ins_integer_div(thread, instruction),
            InstructionType::IntegerMul => self.ins_integer_mul(thread, instruction),
            InstructionType::IntegerSub => self.ins_integer_sub(thread, instruction),
            InstructionType::IntegerMod => self.ins_integer_mod(thread, instruction),
            InstructionType::IntegerToFloat => self.ins_integer_to_float(thread, instruction),
            InstructionType::IntegerToString => self.ins_integer_to_string(thread, instruction),
            InstructionType::IntegerBitwiseAnd => self.ins_integer_bitwise_and(thread, instruction),
            InstructionType::IntegerBitwiseOr => self.ins_integer_bitwise_or(thread, instruction),
            InstructionType::IntegerBitwiseXor => self.ins_integer_bitwise_xor(thread, instruction),
            InstructionType::IntegerShiftLeft => self.ins_integer_shift_left(thread, instruction),
            InstructionType::IntegerShiftRight => self.ins_integer_shift_right(thread, instruction),
            InstructionType::IntegerSmaller => self.ins_integer_smaller(thread, instruction),
            InstructionType::IntegerGreater => self.ins_integer_greater(thread, instruction),
            InstructionType::IntegerEquals => self.ins_integer_equals(thread, instruction),
            InstructionType::FloatAdd => self.ins_float_add(thread, instruction),
            InstructionType::FloatMul => self.ins_float_mul(thread, instruction),
            InstructionType::FloatDiv => self.ins_float_div(thread, instruction),
            InstructionType::FloatSub => self.ins_float_sub(thread, instruction),
            InstructionType::FloatMod => self.ins_float_mod(thread, instruction),
            InstructionType::FloatToInteger => self.ins_float_to_integer(thread, instruction),
            InstructionType::FloatToString => self.ins_float_to_string(thread, instruction),
            InstructionType::FloatSmaller => self.ins_float_smaller(thread, instruction),
            InstructionType::FloatGreater => self.ins_float_greater(thread, instruction),
            InstructionType::FloatEquals => self.ins_float_equals(thread, instruction),
            InstructionType::ArrayInsert => self.ins_array_insert(thread, instruction),
            InstructionType::ArrayAt => self.ins_array_at(thread, instruction),
            InstructionType::ArrayRemove => self.ins_array_remove(thread, instruction),
            InstructionType::ArrayLength => self.ins_array_length(thread, instruction),
            InstructionType::ArrayClear => self.ins_array_clear(thread, instruction),
            InstructionType::StringToLower => self.ins_string_to_lower(thread, instruction),
            InstructionType::StringToUpper => self.ins_string_to_upper(thread, instruction),
            InstructionType::StringEquals => self.ins_string_equals(thread, instruction),
            InstructionType::StringToBytes => self.ins_string_to_bytes(thread, instruction),
            InstructionType::StringFromBytes => self.ins_string_from_bytes(thread, instruction),
            InstructionType::StringLength => self.ins_string_length(thread, instruction),
            InstructionType::StringSize => self.ins_string_size(thread, instruction),
            InstructionType::StdoutWrite => self.ins_stdout_write(thread, code, instruction),
            InstructionType::StderrWrite => self.ins_stderr_write(thread, instruction),
            InstructionType::StdinRead => self.ins_stdin_read(thread, instruction),
            InstructionType::StdinReadLine => self.ins_stdin_read_line(thread, instruction),
            InstructionType::FileOpen => self.ins_file_open(thread, instruction),
            InstructionType::FileWrite => self.ins_file_write(thread, instruction),
            InstructionType::FileRead => self.ins_file_read(thread, instruction),
            InstructionType::FileReadLine => self.ins_file_read_line(thread, instruction),
            InstructionType::FileFlush => self.ins_file_flush(thread, instruction),
            InstructionType::FileSize => self.ins_file_size(thread, instruction),
            InstructionType::FileSeek => self.ins_file_seek(thread, instruction),
            InstructionType::RunFileFast => self.ins_run_file_fast(thread, code, instruction),
            InstructionType::Return
            | InstructionType::Goto
            | InstructionType::GotoIfFalse
            | InstructionType::GotoIfTrue
            | InstructionType::StartThread => Ok(()),
        }
    }

    /// Executes one instruction on a thread.
    pub fn execute(
        &mut self,
        thread: usize,
        code: &CompiledCode,
        instruction: &Instruction,
    ) -> (result: Result<Progress, Fatal>)
        requires
            old(self)@.wf(),
            old(self)@.has_thread(thread as int),
        ensures
            final(self)@.wf(),
            final(self)@.threads.len() >= old(self)@.threads.len(),
            match execute(old(self)@, thread as int, *code, *instruction) {
                Ok((state, progress)) => result == Ok::<Progress, Fatal>(progress) && final(self)@
                    == state,
                Err(error) => result is Err && result->Err_0@ == error && final(self)@ == old(
                    self,
                )@,
            },
    {
        match instruction.instruction_type {
            InstructionType::Return => {
                let value = self.ins_return(thread, instruction)?;
                self.record_return(thread, value);
                Ok(Progress::Running)
            },
            InstructionType::Goto => {
                let target = self.ins_goto(instruction)?;
                self.jump(thread, target);
                Ok(Progress::Running)
            },
            InstructionType::GotoIfFalse => {
                let target = self.ins_goto_if_false(thread, instruction)?;
                self.branch(thread, target);
                Ok(Progress::Running)
            },
            InstructionType::GotoIfTrue => {
                let target = self.ins_goto_if_true(thread, instruction)?;
                self.branch(thread, target);
                Ok(Progress::Running)
            },
            InstructionType::StartThread => {
                let started = self.ins_start_thread(thread, code, instruction)?;
                Ok(Progress::Started(started))
            },
            _ => {
                self.effect(thread, code, instruction)?;
                if self.contexts[thread].pending.is_some() {
                    Ok(Progress::Waiting)
                } else {
                    Ok(Progress::Running)
                }
            },
        }
    }

    /// Takes a conditional branch, if there is a target and it is not
    /// behind the next instruction.
    fn branch(&mut self, thread: usize, target: Option<usize>)
        requires
            old(self)@.wf(),
            old(self)@.has_thread(thread as int),
        ensures
            final(self)@ == old(self)@.branch(thread as int, target),
            final(self)@.wf(),
    {
        assert(self@.threads[thread as int].wf(self@.heap.len()));
        match target {
            Some(index) => {
                if index >= self.contexts[thread].current().index {
                    self.jump(thread, index);
                }
            },
            None => {},
        }
    }

    /// Takes one step of a thread: one iteration of the dispatch loop.
    pub fn step(&mut self, thread: usize) -> (result: Result<Progress, Fatal>)
        requires
            old(self)@.wf(),
            old(self)@.has_thread(thread as int),
        ensures
            final(self)@.wf(),
            final(self)@.threads.len() >= old(self)@.threads.len(),
            final(self)@ == step(old(self)@, thread as int).0,
            outcome_agrees(result, step(old(self)@, thread as int).1),
            result matches Ok(Progress::Finished(Some(object))) ==> final(self)@.valid(object),
    {
        assert(self@.threads[thread as int].wf(self@.heap.len()));
        assert(self@.threads[thread as int].current().wf(self@.heap.len()));
        if self.contexts[thread].should_stop() {
            self.unwind(thread);
            return Ok(Progress::Finished(None));
        }
        if self.contexts[thread].pending.is_some() {
            return Ok(Progress::Waiting);
        }
        let frame = self.contexts[thread].current();
        let index = frame.index;
        let code = frame.code();
        if index >= code.instructions.len() {
            if self.contexts[thread].depth() == 1 {
                return Ok(Progress::Finished(frame.return_value));
            }
            self.leave(thread);
            return Ok(Progress::Running);
        }
        // The frame moves on before the instruction runs, so that a jump
        // can overwrite where it goes next.
        self.jump(thread, index + 1);
        self.execute(thread, &code, &code.instructions[index])
    }

    /// Takes steps of a thread for as long as it can take another and has
    /// started no thread, but `fuel` steps at most.
    pub fn run(&mut self, thread: usize, fuel: usize) -> (result: Result<Progress, Fatal>)
        requires
            old(self)@.wf(),
            old(self)@.has_thread(thread as int),
        ensures
            final(self)@.wf(),
            final(self)@.threads.len() >= old(self)@.threads.len(),
            final(self)@ == run(old(self)@, thread as int, fuel as nat).0,
            outcome_agrees(result, run(old(self)@, thread as int, fuel as nat).1),
            result matches Ok(Progress::Finished(Some(object))) ==> final(self)@.valid(object),
    {
        let mut left = fuel;
        while left > 0
            invariant
                self@.wf(),
                self@.has_thread(thread as int),
                self@.threads.len() >= old(self)@.threads.len(),
                run(self@, thread as int, left as nat) == run(
                    old(self)@,
                    thread as int,
                    fuel as nat,
                ),
            decreases left,
        {
            let outcome = self.step(thread);
            match outcome {
                Ok(Progress::Running) => {},
                _ => {
                    return outcome;
                },
            }
            left = left - 1;
        }
        Ok(Progress::Running)
    }
}

} // verus!
