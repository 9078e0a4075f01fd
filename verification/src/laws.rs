//! What holds of every execution.
use vstd::prelude::*;
use vstd::utf8::{decode_utf8, encode_utf8, valid_utf8};
use crate::compiled_code::CompiledCode;
use crate::host::{FloatComparison, FloatOperation, ReplySpec, RequestSpec};
use crate::instruction::{Instruction, InstructionType};
use crate::instructions::frames::{
    advances, allocates, binds, lemma_array_at, lemma_array_clear, lemma_array_insert,
    lemma_array_length, lemma_array_remove, lemma_def_literal_method, lemma_def_method,
    lemma_error_to_string, lemma_file_flush, lemma_file_open, lemma_file_read, lemma_file_read_line,
    lemma_file_seek, lemma_file_size, lemma_file_write, lemma_float_arithmetic, lemma_float_compare,
    lemma_float_to_integer, lemma_float_to_string, lemma_get_attr, lemma_get_const, lemma_get_local,
    lemma_get_singleton, lemma_integer_binary, lemma_integer_compare, lemma_integer_to_float,
    lemma_integer_to_string, lemma_is_error, lemma_run_code, lemma_run_file_fast, lemma_send,
    lemma_set_array, lemma_set_attr, lemma_set_compiled_code, lemma_set_const, lemma_set_false,
    lemma_set_float, lemma_set_integer, lemma_set_local, lemma_set_name, lemma_set_object,
    lemma_set_string, lemma_set_true, lemma_stderr_write, lemma_stdin_read, lemma_stdin_read_line,
    lemma_stdout_write, lemma_string_equals, lemma_string_from_bytes, lemma_string_length,
    lemma_string_size, lemma_string_to_bytes, lemma_string_to_lower, lemma_string_to_upper,
};
use crate::instructions::integer::{IntegerComparison, IntegerOperation};
use crate::instructions::{integer, loader, string};
use crate::interpreter::{effect, execute, run, step, Progress};
use crate::lifecycle::{answer, resume, run_thread};
use crate::memory_manager::{
    heap_wf, lookup_method, Heap,
};
use crate::memory_manager::{
    array_prototype, compiled_code_prototype, false_prototype, file_prototype, float_prototype,
    integer_prototype, method_prototype, string_prototype, thread_prototype, top_level,
    true_prototype,
};
use crate::object::ObjectState;
use crate::object_pointer::ObjectPointer;
use crate::object_value::Value;
use crate::state::MachineState;
use crate::text::low_byte;
use crate::virtual_machine_result::FatalSpec;

verus! {

/// An instruction that neither returns, jumps nor starts a thread changes
/// only the heap, its own thread and the files that have been run.
pub proof fn lemma_effect_advances(
    state: MachineState,
    thread: int,
    code: CompiledCode,
    instruction: Instruction,
)
    requires
        state.has_thread(thread),
        state.threads[thread].frames.len() > 0,
    ensures
        effect(state, thread, code, instruction) matches Ok(after) ==> advances(
            state,
            after,
            thread,
        ),
{
    match instruction.instruction_type {
        InstructionType::SetInteger => {
            lemma_set_integer(state, thread, code, instruction);
        },
        InstructionType::SetFloat => {
            lemma_set_float(state, thread, code, instruction);
        },
        InstructionType::SetString => {
            lemma_set_string(state, thread, code, instruction);
        },
        InstructionType::SetObject => {
            lemma_set_object(state, thread, instruction);
        },
        InstructionType::SetArray => {
            lemma_set_array(state, thread, instruction);
        },
        InstructionType::SetName => {
            lemma_set_name(state, thread, code, instruction);
        },
        InstructionType::GetIntegerPrototype => {
            lemma_get_singleton(state, thread, instruction, integer_prototype());
        },
        InstructionType::GetFloatPrototype => {
            lemma_get_singleton(state, thread, instruction, float_prototype());
        },
        InstructionType::GetStringPrototype => {
            lemma_get_singleton(state, thread, instruction, string_prototype());
        },
        InstructionType::GetArrayPrototype => {
            lemma_get_singleton(state, thread, instruction, array_prototype());
        },
        InstructionType::GetThreadPrototype => {
            lemma_get_singleton(state, thread, instruction, thread_prototype());
        },
        InstructionType::GetTruePrototype => {
            lemma_get_singleton(state, thread, instruction, true_prototype());
        },
        InstructionType::GetFalsePrototype => {
            lemma_get_singleton(state, thread, instruction, false_prototype());
        },
        InstructionType::GetMethodPrototype => {
            lemma_get_singleton(state, thread, instruction, method_prototype());
        },
        InstructionType::GetCompiledCodePrototype => {
            lemma_get_singleton(state, thread, instruction, compiled_code_prototype());
        },
        InstructionType::GetToplevel => {
            lemma_get_singleton(state, thread, instruction, top_level());
        },
        InstructionType::SetTrue => {
            lemma_set_true(state, thread, instruction);
        },
        InstructionType::SetFalse => {
            lemma_set_false(state, thread, instruction);
        },
        InstructionType::SetLocal => {
            lemma_set_local(state, thread, instruction);
        },
        InstructionType::GetLocal => {
            lemma_get_local(state, thread, instruction);
        },
        InstructionType::SetConst => {
            lemma_set_const(state, thread, code, instruction);
        },
        InstructionType::GetConst => {
            lemma_get_const(state, thread, code, instruction);
        },
        InstructionType::SetAttr => {
            lemma_set_attr(state, thread, instruction);
        },
        InstructionType::GetAttr => {
            lemma_get_attr(state, thread, instruction);
        },
        InstructionType::SetCompiledCode => {
            lemma_set_compiled_code(state, thread, code, instruction);
        },
        InstructionType::Send => {
            lemma_send(state, thread, code, instruction);
        },
        InstructionType::DefMethod => {
            lemma_def_method(state, thread, instruction);
        },
        InstructionType::DefLiteralMethod => {
            lemma_def_literal_method(state, thread, code, instruction);
        },
        InstructionType::RunCode => {
            lemma_run_code(state, thread, instruction);
        },
        InstructionType::IsError => {
            lemma_is_error(state, thread, instruction);
        },
        InstructionType::ErrorToString => {
            lemma_error_to_string(state, thread, instruction);
        },
        InstructionType::IntegerAdd => {
            lemma_integer_binary(state, thread, instruction, IntegerOperation::Add);
        },
        InstructionType::IntegerDiv => {
            lemma_integer_binary(state, thread, instruction, IntegerOperation::Div);
        },
        InstructionType::IntegerMul => {
            lemma_integer_binary(state, thread, instruction, IntegerOperation::Mul);
        },
        InstructionType::IntegerSub => {
            lemma_integer_binary(state, thread, instruction, IntegerOperation::Sub);
        },
        InstructionType::IntegerMod => {
            lemma_integer_binary(state, thread, instruction, IntegerOperation::Mod);
        },
        InstructionType::IntegerBitwiseAnd => {
            lemma_integer_binary(state, thread, instruction, IntegerOperation::BitwiseAnd);
        },
        InstructionType::IntegerBitwiseOr => {
            lemma_integer_binary(state, thread, instruction, IntegerOperation::BitwiseOr);
        },
        InstructionType::IntegerBitwiseXor => {
            lemma_integer_binary(state, thread, instruction, IntegerOperation::BitwiseXor);
        },
        InstructionType::IntegerShiftLeft => {
            lemma_integer_binary(state, thread, instruction, IntegerOperation::ShiftLeft);
        },
        InstructionType::IntegerShiftRight => {
            lemma_integer_binary(state, thread, instruction, IntegerOperation::ShiftRight);
        },
        InstructionType::IntegerToFloat => {
            lemma_integer_to_float(state, thread, instruction);
        },
        InstructionType::IntegerToString => {
            lemma_integer_to_string(state, thread, instruction);
        },
        InstructionType::IntegerSmaller => {
            lemma_integer_compare(state, thread, instruction, IntegerComparison::Smaller);
        },
        InstructionType::IntegerGreater => {
            lemma_integer_compare(state, thread, instruction, IntegerComparison::Greater);
        },
        InstructionType::IntegerEquals => {
            lemma_integer_compare(state, thread, instruction, IntegerComparison::Equals);
        },
        InstructionType::FloatAdd => {
            lemma_float_arithmetic(state, thread, instruction, FloatOperation::Add);
        },
        InstructionType::FloatMul => {
            lemma_float_arithmetic(state, thread, instruction, FloatOperation::Mul);
        },
        InstructionType::FloatDiv => {
            lemma_float_arithmetic(state, thread, instruction, FloatOperation::Div);
        },
        InstructionType::FloatSub => {
            lemma_float_arithmetic(state, thread, instruction, FloatOperation::Sub);
        },
        InstructionType::FloatMod => {
            lemma_float_arithmetic(state, thread, instruction, FloatOperation::Mod);
        },
        InstructionType::FloatToInteger => {
            lemma_float_to_integer(state, thread, instruction);
        },
        InstructionType::FloatToString => {
            lemma_float_to_string(state, thread, instruction);
        },
        InstructionType::FloatSmaller => {
            lemma_float_compare(state, thread, instruction, FloatComparison::Smaller);
        },
        InstructionType::FloatGreater => {
            lemma_float_compare(state, thread, instruction, FloatComparison::Greater);
        },
        InstructionType::FloatEquals => {
            lemma_float_compare(state, thread, instruction, FloatComparison::Equals);
        },
        InstructionType::ArrayInsert => {
            lemma_array_insert(state, thread, instruction);
        },
        InstructionType::ArrayAt => {
            lemma_array_at(state, thread, instruction);
        },
        InstructionType::ArrayRemove => {
            lemma_array_remove(state, thread, instruction);
        },
        InstructionType::ArrayLength => {
            lemma_array_length(state, thread, instruction);
        },
        InstructionType::ArrayClear => {
            lemma_array_clear(state, thread, instruction);
        },
        InstructionType::StringToLower => {
            lemma_string_to_lower(state, thread, instruction);
        },
        InstructionType::StringToUpper => {
            lemma_string_to_upper(state, thread, instruction);
        },
        InstructionType::StringEquals => {
            lemma_string_equals(state, thread, instruction);
        },
        InstructionType::StringToBytes => {
            lemma_string_to_bytes(state, thread, instruction);
        },
        InstructionType::StringFromBytes => {
            lemma_string_from_bytes(state, thread, instruction);
        },
        InstructionType::StringLength => {
            lemma_string_length(state, thread, instruction);
        },
        InstructionType::StringSize => {
            lemma_string_size(state, thread, instruction);
        },
        InstructionType::StdoutWrite => {
            lemma_stdout_write(state, thread, instruction);
        },
        InstructionType::StderrWrite => {
            lemma_stderr_write(state, thread, instruction);
        },
        InstructionType::StdinRead => {
            lemma_stdin_read(state, thread, instruction);
        },
        InstructionType::StdinReadLine => {
            lemma_stdin_read_line(state, thread, instruction);
        },
        InstructionType::FileOpen => {
            lemma_file_open(state, thread, instruction);
        },
        InstructionType::FileWrite => {
            lemma_file_write(state, thread, instruction);
        },
        InstructionType::FileRead => {
            lemma_file_read(state, thread, instruction);
        },
        InstructionType::FileReadLine => {
            lemma_file_read_line(state, thread, instruction);
        },
        InstructionType::FileFlush => {
            lemma_file_flush(state, thread, instruction);
        },
        InstructionType::FileSize => {
            lemma_file_size(state, thread, instruction);
        },
        InstructionType::FileSeek => {
            lemma_file_seek(state, thread, instruction);
        },
        InstructionType::RunFileFast => {
            lemma_run_file_fast(state, thread, code, instruction);
        },
        _ => {},
    }
}

/// Whether `after` is what one step of the thread can make of `before`:
/// the machine has failed in both or in neither, no file that has been run
/// is forgotten, no other thread has changed, and the thread still has its
/// first frame, which still runs the same code.
pub open spec fn proceeds(before: MachineState, after: MachineState, thread: int) -> bool {
    &&& after.failed == before.failed
    &&& after.threads.len() >= before.threads.len()
    &&& before.executed.subset_of(after.executed)
    &&& forall|other: int|
        0 <= other < before.threads.len() && other != thread ==> after.threads[other]
            == before.threads[other]
    &&& after.threads[thread].frames.len() > 0
    &&& after.threads[thread].frames[0].code == before.threads[thread].frames[0].code
    &&& after.threads[thread].main == before.threads[thread].main
    &&& after.threads[thread].value == before.threads[thread].value
    &&& after.threads[thread].object == before.threads[thread].object
}

/// Whether the first frame of the thread has recorded the same return
/// value in both states.
pub open spec fn same_base_return(before: MachineState, after: MachineState, thread: int) -> bool {
    after.threads[thread].frames[0].return_value == before.threads[thread].frames[0].return_value
}

/// An instruction changes no other thread, keeps the first frame of its
/// own, and only `Return` in the first frame changes what that frame returns.
pub proof fn lemma_execute_proceeds(
    state: MachineState,
    thread: int,
    code: CompiledCode,
    instruction: Instruction,
)
    requires
        state.has_thread(thread),
        state.threads[thread].frames.len() > 0,
    ensures
        execute(state, thread, code, instruction) matches Ok((after, progress)) ==> {
            &&& proceeds(state, after, thread)
            &&& !(progress is Finished)
            &&& instruction.instruction_type != InstructionType::Return
                || state.threads[thread].frames.len() > 1 ==> same_base_return(
                state,
                after,
                thread,
            )
        },
{
    lemma_effect_advances(state, thread, code, instruction);
}

/// A step changes no other thread, keeps the first frame of its own, and
/// changes what that frame returns only by a `Return` in that frame. A
/// thread that ends, ends with what its first frame has recorded, or with
/// nothing if it was asked to stop.
pub proof fn lemma_step_proceeds(state: MachineState, thread: int)
    requires
        state.has_thread(thread),
        state.threads[thread].frames.len() > 0,
    ensures
        proceeds(state, step(state, thread).0, thread),
        next_is_return(state, thread) || same_base_return(state, step(state, thread).0, thread),
        step(state, thread).1 matches Ok(Progress::Finished(value)) ==> value is None
            || value == state.threads[thread].frames[0].return_value,
{
    let current = state.threads[thread];
    let frame = current.current();
    if !current.should_stop && current.pending is None && frame.index
        < frame.code.instructions@.len() {
        let advanced = state.jump(thread, (frame.index + 1) as usize);
        lemma_execute_proceeds(
            advanced,
            thread,
            frame.code,
            frame.code.instructions@[frame.index as int],
        );
    }
}

/// Whether the next step of the thread executes a `Return` in its first frame.
pub open spec fn next_is_return(state: MachineState, thread: int) -> bool {
    let frame = state.threads[thread].current();
    &&& state.threads[thread].frames.len() == 1
    &&& frame.index < frame.code.instructions@.len()
    &&& frame.code.instructions@[frame.index as int].instruction_type == InstructionType::Return
}

/// Whether a code has no `Return` among its instructions.
pub open spec fn has_no_return(code: CompiledCode) -> bool {
    forall|i: int|
        0 <= i < code.instructions@.len() ==> (#[trigger] code.instructions@[i]).instruction_type
            != InstructionType::Return
}

/// A thread whose code has no `Return` ends without a value: however many
/// steps it takes, and whatever the code calls, if the thread ends, it
/// ends with nothing.
pub proof fn lemma_no_return_no_value(state: MachineState, thread: int, fuel: nat)
    requires
        state.has_thread(thread),
        state.threads[thread].frames.len() > 0,
        has_no_return(state.threads[thread].frames[0].code),
        state.threads[thread].frames[0].return_value is None,
    ensures
        run(state, thread, fuel).1 matches Ok(Progress::Finished(value)) ==> value is None,
    decreases fuel,
{
    if fuel > 0 {
        lemma_step_proceeds(state, thread);
        let (after, outcome) = step(state, thread);
        if outcome == Ok::<Progress, FatalSpec>(Progress::Running) {
            lemma_no_return_no_value(after, thread, (fuel - 1) as nat);
        }
    }
}

/// A thread that was asked to stop before it took a step executes
/// nothing: its next step ends it without a value and leaves the machine
/// as it was.
pub proof fn lemma_stopped_thread_executes_nothing(state: MachineState, thread: int, fuel: nat)
    requires
        state.has_thread(thread),
        state.threads[thread].should_stop,
        state.threads[thread].frames.len() == 1,
        state.threads[thread].pending is None,
        fuel > 0,
    ensures
        step(state, thread) == (state, Ok::<Progress, FatalSpec>(Progress::Finished(None))),
        run(state, thread, fuel) == (state, Ok::<Progress, FatalSpec>(Progress::Finished(None))),
{
    assert(state.threads[thread].frames.take(1) =~= state.threads[thread].frames);
    assert(state.unwind(thread) =~~= state);
}

/// A thread that is asked to stop ends at its next step, without a value,
/// and nothing but its own frames and request has changed.
pub proof fn lemma_stop_ends_thread(state: MachineState, thread: int)
    requires
        state.has_thread(thread),
        state.threads[thread].should_stop,
    ensures
        step(state, thread).1 == Ok::<Progress, FatalSpec>(Progress::Finished(None)),
        step(state, thread).0 == state.unwind(thread),
        step(state, thread).0.heap == state.heap,
{
}

/// Running a thread changes no other thread, forgets no file that has
/// been run, and does not change whether the machine has failed.
pub proof fn lemma_run_proceeds(state: MachineState, thread: int, fuel: nat)
    requires
        state.has_thread(thread),
        state.threads[thread].frames.len() > 0,
    ensures
        proceeds(state, run(state, thread, fuel).0, thread),
    decreases fuel,
{
    if fuel > 0 {
        lemma_step_proceeds(state, thread);
        let (after, outcome) = step(state, thread);
        if outcome == Ok::<Progress, FatalSpec>(Progress::Running) {
            lemma_run_proceeds(after, thread, (fuel - 1) as nat);
        }
    }
}

/// An answer from the host changes no other thread, forgets no file that
/// has been run, and does not change whether the machine has failed.
pub proof fn lemma_resume_proceeds(state: MachineState, thread: int, reply: ReplySpec)
    requires
        state.has_thread(thread),
        state.threads[thread].frames.len() > 0,
    ensures
        resume(state, thread, reply) matches Ok(after) ==> proceeds(state, after, thread),
{
}

/// A fatal error makes the machine fail, and a machine that has failed
/// stays failed: neither running a thread, whether it ends, fails or goes
/// on, nor an answer from the host makes a failed machine succeed.
pub proof fn lemma_failure_is_permanent(
    state: MachineState,
    thread: int,
    fuel: nat,
    reply: ReplySpec,
)
    requires
        state.has_thread(thread),
        state.threads[thread].frames.len() > 0,
    ensures
        run_thread(state, thread, fuel).1 is Err ==> run_thread(state, thread, fuel).0.failed,
        state.failed ==> run_thread(state, thread, fuel).0.failed,
        run_thread(state, thread, fuel).1 is Ok ==> run_thread(state, thread, fuel).0.failed
            == state.failed,
        resume(state, thread, reply) matches Ok(after) ==> after.failed == state.failed,
        state.fail(thread).failed,
        state.finish(thread, None).failed == state.failed,
        state.stop_all().failed == state.failed,
{
    lemma_run_proceeds(state, thread, fuel);
    lemma_resume_proceeds(state, thread, reply);
}

/// The files that have been run are never forgotten: neither running a
/// thread nor an answer from the host takes a path out of the set.
pub proof fn lemma_executed_files_grow(
    state: MachineState,
    thread: int,
    fuel: nat,
    reply: ReplySpec,
)
    requires
        state.has_thread(thread),
        state.threads[thread].frames.len() > 0,
    ensures
        state.executed.subset_of(run_thread(state, thread, fuel).0.executed),
        resume(state, thread, reply) matches Ok(after) ==> state.executed.subset_of(
            after.executed,
        ),
{
    lemma_run_proceeds(state, thread, fuel);
    lemma_resume_proceeds(state, thread, reply);
}

/// A file is run at most once: `RunFileFast` records the path before it
/// asks for the file, and on any later state, in any thread, the same
/// instruction asks for nothing and changes nothing.
pub proof fn lemma_file_runs_once(
    state: MachineState,
    thread: int,
    later: MachineState,
    later_thread: int,
    code: CompiledCode,
    instruction: Instruction,
)
    requires
        loader::run_file_fast(state, thread, code, instruction) is Ok,
        loader::run_file_fast(state, thread, code, instruction)->Ok_0.executed.subset_of(
            later.executed,
        ),
    ensures
        loader::run_file_fast(later, later_thread, code, instruction) == Ok::<
            MachineState,
            FatalSpec,
        >(later),
{
    let path = code.spec_string(instruction.spec_arg(1)->Ok_0)->Ok_0;
    let after = loader::run_file_fast(state, thread, code, instruction)->Ok_0;
    assert(after.executed.contains(path));
    assert(later.executed.contains(path));
}

/// The instructions that, when they succeed, have bound the register that
/// their first argument names, at once and without the host.
pub open spec fn sets_register(operation: InstructionType) -> bool {
    match operation {
        InstructionType::SetInteger
        | InstructionType::SetFloat
        | InstructionType::SetString
        | InstructionType::SetObject
        | InstructionType::SetArray
        | InstructionType::GetIntegerPrototype
        | InstructionType::GetFloatPrototype
        | InstructionType::GetStringPrototype
        | InstructionType::GetArrayPrototype
        | InstructionType::GetThreadPrototype
        | InstructionType::GetTruePrototype
        | InstructionType::GetFalsePrototype
        | InstructionType::GetMethodPrototype
        | InstructionType::GetCompiledCodePrototype
        | InstructionType::GetToplevel
        | InstructionType::SetTrue
        | InstructionType::SetFalse
        | InstructionType::GetLocal
        | InstructionType::GetConst
        | InstructionType::GetAttr
        | InstructionType::SetCompiledCode
        | InstructionType::IsError
        | InstructionType::ErrorToString
        | InstructionType::IntegerAdd
        | InstructionType::IntegerDiv
        | InstructionType::IntegerMul
        | InstructionType::IntegerSub
        | InstructionType::IntegerMod
        | InstructionType::IntegerBitwiseAnd
        | InstructionType::IntegerBitwiseOr
        | InstructionType::IntegerBitwiseXor
        | InstructionType::IntegerShiftLeft
        | InstructionType::IntegerShiftRight
        | InstructionType::IntegerToString
        | InstructionType::IntegerSmaller
        | InstructionType::IntegerGreater
        | InstructionType::IntegerEquals
        | InstructionType::ArrayAt
        | InstructionType::ArrayRemove
        | InstructionType::ArrayLength
        | InstructionType::StringToLower
        | InstructionType::StringToUpper
        | InstructionType::StringEquals
        | InstructionType::StringToBytes
        | InstructionType::StringFromBytes
        | InstructionType::StringLength
        | InstructionType::StringSize => true,
        _ => false,
    }
}

/// The prototype of the object that an instruction allocates for its
/// register, for the instructions that always allocate one.
pub open spec fn allocated_prototype(operation: InstructionType) -> Option<ObjectPointer> {
    match operation {
        InstructionType::SetInteger
        | InstructionType::IntegerAdd
        | InstructionType::IntegerDiv
        | InstructionType::IntegerMul
        | InstructionType::IntegerSub
        | InstructionType::IntegerMod
        | InstructionType::IntegerBitwiseAnd
        | InstructionType::IntegerBitwiseOr
        | InstructionType::IntegerBitwiseXor
        | InstructionType::IntegerShiftLeft
        | InstructionType::IntegerShiftRight
        | InstructionType::ArrayLength
        | InstructionType::StringLength
        | InstructionType::StringSize => Some(integer_prototype()),
        InstructionType::SetFloat => Some(float_prototype()),
        InstructionType::SetString
        | InstructionType::ErrorToString
        | InstructionType::IntegerToString
        | InstructionType::StringToLower
        | InstructionType::StringToUpper => Some(string_prototype()),
        InstructionType::SetArray
        | InstructionType::StringToBytes => Some(array_prototype()),
        InstructionType::SetCompiledCode => Some(compiled_code_prototype()),
        _ => None,
    }
}

/// An instruction that sets a register sets the register that its first
/// argument names, and changes no other register, no other frame and no
/// other thread.
pub proof fn lemma_sets_only_its_register(
    state: MachineState,
    thread: int,
    code: CompiledCode,
    instruction: Instruction,
)
    requires
        state.has_thread(thread),
        state.threads[thread].frames.len() > 0,
        sets_register(instruction.instruction_type),
    ensures
        effect(state, thread, code, instruction) matches Ok(after) ==> instruction.arguments@.len()
            > 0 && binds(state, after, thread, instruction.arguments@[0]),
{
    match instruction.instruction_type {
        InstructionType::SetInteger => {
            lemma_set_integer(state, thread, code, instruction);
        },
        InstructionType::SetFloat => {
            lemma_set_float(state, thread, code, instruction);
        },
        InstructionType::SetString => {
            lemma_set_string(state, thread, code, instruction);
        },
        InstructionType::SetObject => {
            lemma_set_object(state, thread, instruction);
        },
        InstructionType::SetArray => {
            lemma_set_array(state, thread, instruction);
        },
        InstructionType::GetIntegerPrototype => {
            lemma_get_singleton(state, thread, instruction, integer_prototype());
        },
        InstructionType::GetFloatPrototype => {
            lemma_get_singleton(state, thread, instruction, float_prototype());
        },
        InstructionType::GetStringPrototype => {
            lemma_get_singleton(state, thread, instruction, string_prototype());
        },
        InstructionType::GetArrayPrototype => {
            lemma_get_singleton(state, thread, instruction, array_prototype());
        },
        InstructionType::GetThreadPrototype => {
            lemma_get_singleton(state, thread, instruction, thread_prototype());
        },
        InstructionType::GetTruePrototype => {
            lemma_get_singleton(state, thread, instruction, true_prototype());
        },
        InstructionType::GetFalsePrototype => {
            lemma_get_singleton(state, thread, instruction, false_prototype());
        },
        InstructionType::GetMethodPrototype => {
            lemma_get_singleton(state, thread, instruction, method_prototype());
        },
        InstructionType::GetCompiledCodePrototype => {
            lemma_get_singleton(state, thread, instruction, compiled_code_prototype());
        },
        InstructionType::GetToplevel => {
            lemma_get_singleton(state, thread, instruction, top_level());
        },
        InstructionType::SetTrue => {
            lemma_set_true(state, thread, instruction);
        },
        InstructionType::SetFalse => {
            lemma_set_false(state, thread, instruction);
        },
        InstructionType::GetLocal => {
            lemma_get_local(state, thread, instruction);
        },
        InstructionType::GetConst => {
            lemma_get_const(state, thread, code, instruction);
        },
        InstructionType::GetAttr => {
            lemma_get_attr(state, thread, instruction);
        },
        InstructionType::SetCompiledCode => {
            lemma_set_compiled_code(state, thread, code, instruction);
        },
        InstructionType::IsError => {
            lemma_is_error(state, thread, instruction);
        },
        InstructionType::ErrorToString => {
            lemma_error_to_string(state, thread, instruction);
        },
        InstructionType::IntegerAdd => {
            lemma_integer_binary(state, thread, instruction, IntegerOperation::Add);
        },
        InstructionType::IntegerDiv => {
            lemma_integer_binary(state, thread, instruction, IntegerOperation::Div);
        },
        InstructionType::IntegerMul => {
            lemma_integer_binary(state, thread, instruction, IntegerOperation::Mul);
        },
        InstructionType::IntegerSub => {
            lemma_integer_binary(state, thread, instruction, IntegerOperation::Sub);
        },
        InstructionType::IntegerMod => {
            lemma_integer_binary(state, thread, instruction, IntegerOperation::Mod);
        },
        InstructionType::IntegerBitwiseAnd => {
            lemma_integer_binary(state, thread, instruction, IntegerOperation::BitwiseAnd);
        },
        InstructionType::IntegerBitwiseOr => {
            lemma_integer_binary(state, thread, instruction, IntegerOperation::BitwiseOr);
        },
        InstructionType::IntegerBitwiseXor => {
            lemma_integer_binary(state, thread, instruction, IntegerOperation::BitwiseXor);
        },
        InstructionType::IntegerShiftLeft => {
            lemma_integer_binary(state, thread, instruction, IntegerOperation::ShiftLeft);
        },
        InstructionType::IntegerShiftRight => {
            lemma_integer_binary(state, thread, instruction, IntegerOperation::ShiftRight);
        },
        InstructionType::IntegerToString => {
            lemma_integer_to_string(state, thread, instruction);
        },
        InstructionType::IntegerSmaller => {
            lemma_integer_compare(state, thread, instruction, IntegerComparison::Smaller);
        },
        InstructionType::IntegerGreater => {
            lemma_integer_compare(state, thread, instruction, IntegerComparison::Greater);
        },
        InstructionType::IntegerEquals => {
            lemma_integer_compare(state, thread, instruction, IntegerComparison::Equals);
        },
        InstructionType::ArrayAt => {
            lemma_array_at(state, thread, instruction);
        },
        InstructionType::ArrayRemove => {
            lemma_array_remove(state, thread, instruction);
        },
        InstructionType::ArrayLength => {
            lemma_array_length(state, thread, instruction);
        },
        InstructionType::StringToLower => {
            lemma_string_to_lower(state, thread, instruction);
        },
        InstructionType::StringToUpper => {
            lemma_string_to_upper(state, thread, instruction);
        },
        InstructionType::StringEquals => {
            lemma_string_equals(state, thread, instruction);
        },
        InstructionType::StringToBytes => {
            lemma_string_to_bytes(state, thread, instruction);
        },
        InstructionType::StringFromBytes => {
            lemma_string_from_bytes(state, thread, instruction);
        },
        InstructionType::StringLength => {
            lemma_string_length(state, thread, instruction);
        },
        InstructionType::StringSize => {
            lemma_string_size(state, thread, instruction);
        },
        _ => {},
    }
}

/// The object that an instruction allocates for its register is the
/// newest of the heap and has the prototype that matches its kind: the
/// singleton of the machine for integers, floats, strings, arrays or
/// compiled code.
pub proof fn lemma_allocated_prototype(
    state: MachineState,
    thread: int,
    code: CompiledCode,
    instruction: Instruction,
)
    requires
        state.has_thread(thread),
        state.threads[thread].frames.len() > 0,
        allocated_prototype(instruction.instruction_type) is Some,
    ensures
        effect(state, thread, code, instruction) matches Ok(after) ==> instruction.arguments@.len()
            > 0 && allocates(
            after,
            thread,
            instruction.arguments@[0],
            allocated_prototype(instruction.instruction_type)->Some_0,
        ),
{
    match instruction.instruction_type {
        InstructionType::SetInteger => {
            lemma_set_integer(state, thread, code, instruction);
        },
        InstructionType::SetFloat => {
            lemma_set_float(state, thread, code, instruction);
        },
        InstructionType::SetString => {
            lemma_set_string(state, thread, code, instruction);
        },
        InstructionType::SetArray => {
            lemma_set_array(state, thread, instruction);
        },
        InstructionType::SetCompiledCode => {
            lemma_set_compiled_code(state, thread, code, instruction);
        },
        InstructionType::ErrorToString => {
            lemma_error_to_string(state, thread, instruction);
        },
        InstructionType::IntegerAdd => {
            lemma_integer_binary(state, thread, instruction, IntegerOperation::Add);
        },
        InstructionType::IntegerDiv => {
            lemma_integer_binary(state, thread, instruction, IntegerOperation::Div);
        },
        InstructionType::IntegerMul => {
            lemma_integer_binary(state, thread, instruction, IntegerOperation::Mul);
        },
        InstructionType::IntegerSub => {
            lemma_integer_binary(state, thread, instruction, IntegerOperation::Sub);
        },
        InstructionType::IntegerMod => {
            lemma_integer_binary(state, thread, instruction, IntegerOperation::Mod);
        },
        InstructionType::IntegerBitwiseAnd => {
            lemma_integer_binary(state, thread, instruction, IntegerOperation::BitwiseAnd);
        },
        InstructionType::IntegerBitwiseOr => {
            lemma_integer_binary(state, thread, instruction, IntegerOperation::BitwiseOr);
        },
        InstructionType::IntegerBitwiseXor => {
            lemma_integer_binary(state, thread, instruction, IntegerOperation::BitwiseXor);
        },
        InstructionType::IntegerShiftLeft => {
            lemma_integer_binary(state, thread, instruction, IntegerOperation::ShiftLeft);
        },
        InstructionType::IntegerShiftRight => {
            lemma_integer_binary(state, thread, instruction, IntegerOperation::ShiftRight);
        },
        InstructionType::IntegerToString => {
            lemma_integer_to_string(state, thread, instruction);
        },
        InstructionType::ArrayLength => {
            lemma_array_length(state, thread, instruction);
        },
        InstructionType::StringToLower => {
            lemma_string_to_lower(state, thread, instruction);
        },
        InstructionType::StringToUpper => {
            lemma_string_to_upper(state, thread, instruction);
        },
        InstructionType::StringToBytes => {
            lemma_string_to_bytes(state, thread, instruction);
        },
        InstructionType::StringLength => {
            lemma_string_length(state, thread, instruction);
        },
        InstructionType::StringSize => {
            lemma_string_size(state, thread, instruction);
        },
        _ => {},
    }
}

/// An integer instruction on two integers binds its register to a new
/// integer object that holds the result of the operation: the sum, the
/// difference or the product wrapped to 64 bits, the quotient or the
/// remainder of the division that rounds toward zero, or the bits combined.
pub proof fn lemma_integer_result(
    state: MachineState,
    thread: int,
    instruction: Instruction,
    operation: IntegerOperation,
)
    requires
        state.has_thread(thread),
        state.threads[thread].frames.len() > 0,
        state.heap.len() <= usize::MAX,
        integer::integer_operands(state, thread, instruction) is Ok,
        integer::integer_operation(
            operation,
            integer::integer_operands(state, thread, instruction)->Ok_0.1,
            integer::integer_operands(state, thread, instruction)->Ok_0.2,
        ) is Ok,
    ensures
        integer::integer_binary(state, thread, instruction, operation) matches Ok(after) && {
            let (slot, left, right) = integer::integer_operands(state, thread, instruction)->Ok_0;
            let object = after.threads[thread].current().registers[slot];
            &&& after.threads[thread].current().registers.contains_key(slot)
            &&& after.valid(object)
            &&& after.object(object).value == Value::Integer(
                integer::integer_operation(operation, left, right)->Ok_0,
            )
        },
{
}

/// The objects that `StringToBytes` allocates hold the bytes it was given.
proof fn lemma_bytes_of_consecutive(state: MachineState, base: nat, bytes: Seq<u8>, count: nat)
    requires
        count <= bytes.len(),
        base + bytes.len() <= usize::MAX,
        state.heap.len() >= base + bytes.len(),
        forall|i: int|
            0 <= i < bytes.len() ==> (#[trigger] state.heap[base + i]).value == Value::Integer(
                bytes[i] as i64,
            ),
    ensures
        string::bytes_of(state, string::consecutive(base, count)) == Ok::<Seq<u8>, FatalSpec>(
            bytes.take(count as int),
        ),
    decreases count,
{
    let pointers = string::consecutive(base, count);
    if count == 0 {
        assert(bytes.take(0) =~= Seq::<u8>::empty());
    } else {
        lemma_bytes_of_consecutive(state, base, bytes, (count - 1) as nat);
        assert(pointers.drop_last() =~= string::consecutive(base, (count - 1) as nat));
        assert(pointers.last() == ObjectPointer((base + count - 1) as usize));
        assert(state.heap[base + (count - 1)].value == Value::Integer(bytes[count - 1] as i64));
        assert(low_byte(bytes[count - 1] as i64) == bytes[count - 1]);
        assert(bytes.take(count as int) =~= bytes.take(count - 1).push(bytes[count - 1]));
    }
}

/// Bytes and back is the identity: when `StringToBytes` has put the bytes
/// of a string in a register, `StringFromBytes` on that register binds its
/// own register to a new string object that holds the text of the string.
pub proof fn lemma_bytes_round_trip(
    state: MachineState,
    thread: int,
    to_bytes: Instruction,
    from_bytes: Instruction,
)
    requires
        state.has_thread(thread),
        state.threads[thread].frames.len() > 0,
        string::string_operand(state, thread, to_bytes) is Ok,
        from_bytes.arguments@.len() >= 2,
        from_bytes.arguments@[1] == to_bytes.arguments@[0],
        state.heap.len() + encode_utf8(
            string::string_operand(state, thread, to_bytes)->Ok_0.1,
        ).len() < usize::MAX,
    ensures
        string::string_to_bytes(state, thread, to_bytes) matches Ok(middle)
            && string::string_from_bytes(middle, thread, from_bytes) matches Ok(after) && {
            let slot = from_bytes.arguments@[0];
            let object = after.threads[thread].current().registers[slot];
            &&& after.threads[thread].current().registers.contains_key(slot)
            &&& after.valid(object)
            &&& after.object(object).value == Value::String(
                string::string_operand(state, thread, to_bytes)->Ok_0.1,
            )
        },
{
    let (slot, text) = string::string_operand(state, thread, to_bytes)->Ok_0;
    let bytes = encode_utf8(text);
    let base = state.heap.len();
    let middle = string::string_to_bytes(state, thread, to_bytes)->Ok_0;
    let array = ObjectPointer((base + bytes.len()) as usize);
    assert(middle.threads[thread].current().registers[slot] == array);
    assert(middle.heap[(base + bytes.len()) as int].value == Value::Array(
        string::consecutive(base, bytes.len()),
    ));
    assert forall|i: int| 0 <= i < bytes.len() implies (#[trigger] middle.heap[base + i]).value
        == Value::Integer(bytes[i] as i64) by {
        assert(middle.heap[base + i] == string::byte_objects(bytes)[i]);
    }
    lemma_bytes_of_consecutive(middle, base, bytes, bytes.len());
    assert(bytes.take(bytes.len() as int) =~= bytes);
    vstd::utf8::encode_utf8_valid_utf8(text);
    vstd::utf8::encode_utf8_decode_utf8(text);
}

/// Bytes and back is the identity on texts: the UTF-8 encoding of a text
/// is valid, and decodes to the text.
pub proof fn lemma_text_round_trip(text: Seq<char>)
    ensures
        valid_utf8(encode_utf8(text)),
        decode_utf8(encode_utf8(text)) == text,
{
    vstd::utf8::encode_utf8_valid_utf8(text);
    vstd::utf8::encode_utf8_decode_utf8(text);
}

/// An answer from the host that is not parsed code sets the register that
/// the request names, and changes no other register, no other frame and
/// no other thread but for the request, which is taken from the thread.
pub proof fn lemma_answer_sets_only_its_register(
    state: MachineState,
    thread: int,
    request: RequestSpec,
    reply: ReplySpec,
)
    requires
        state.has_thread(thread),
        state.threads[thread].frames.len() > 0,
        !(reply is Code),
    ensures
        answer(state, thread, request, reply) matches Ok(after) ==> binds(
            state,
            after,
            thread,
            request.slot(),
        ),
{
}

/// The object that is allocated for an answer from the host has the
/// prototype that matches the answer: the singleton of the machine for
/// integers, strings, files or floats. The object allocated for a failure
/// is an error object, which has no prototype.
pub proof fn lemma_answer_prototype(
    state: MachineState,
    thread: int,
    request: RequestSpec,
    reply: ReplySpec,
)
    requires
        state.has_thread(thread),
        state.threads[thread].frames.len() > 0,
    ensures
        answer(state, thread, request, reply) matches Ok(after) ==> match reply {
            ReplySpec::Integer(_) => allocates(after, thread, request.slot(), integer_prototype()),
            ReplySpec::Text(_) => allocates(after, thread, request.slot(), string_prototype()),
            ReplySpec::File(_) => allocates(after, thread, request.slot(), file_prototype()),
            ReplySpec::Float(_) => allocates(after, thread, request.slot(), float_prototype()),
            ReplySpec::Error(error) => after.heap.len() > 0 && after.heap.last()
                == ObjectState::fresh(Value::Error(error.text()), None),
            _ => true,
        },
{
}

/// The object that is installed as a method has the method prototype and
/// wraps the code it was defined with.
pub proof fn lemma_method_prototype(
    state: MachineState,
    receiver: ObjectPointer,
    name: Seq<char>,
    code: CompiledCode,
)
    requires
        state.valid(receiver),
        state.heap.len() <= usize::MAX,
    ensures
        ({
            let after = state.define_method(receiver, name, code);
            let method = after.object(receiver).methods[name];
            &&& after.object(receiver).methods.contains_key(name)
            &&& after.valid(method)
            &&& after.object(method).prototype == Some(method_prototype())
            &&& after.object(method).value == Value::CompiledCode(code)
        }),
{
}

/// The object that wraps a new thread has the thread prototype, is pinned,
/// and is listed among the live threads; the thread has not taken a step,
/// and was not asked to stop.
pub proof fn lemma_thread_prototype(state: MachineState, code: CompiledCode, main: bool)
    requires
        state.heap.len() <= usize::MAX,
        state.threads.len() <= usize::MAX,
    ensures
        ({
            let after = state.spawn(code, main);
            let thread = after.threads.last();
            &&& thread.object matches Some(object) && after.valid(object) && after.object(
                object,
            ).prototype == Some(thread_prototype()) && after.object(object).pinned
                && after.object(object).value == Value::Thread(state.threads.len() as usize)
                && after.live.last() == object
            &&& thread.main == main
            &&& !thread.should_stop
            &&& thread.frames.len() == 1
            &&& thread.current().index == 0
            &&& thread.current().code == code
        }),
{
}

/// On a well-formed heap, a method is resolved through the whole
/// prototype chain of the receiver: it is the receiver's own method of that
/// name if it has one, and else what the name resolves to on its
/// prototype. The chain ends, since a prototype is older than the object
/// that links to it; an object without a prototype ends it.
pub proof fn lemma_method_lookup_walks_the_chain(
    heap: Heap,
    threads: nat,
    receiver: ObjectPointer,
    name: Seq<char>,
)
    requires
        heap_wf(heap, threads),
        receiver.0 < heap.len(),
    ensures
        heap[receiver.0 as int].prototype matches Some(prototype) ==> prototype.0 < receiver.0,
        lookup_method(heap, receiver, name) == (if heap[receiver.0 as int].methods.contains_key(
            name,
        ) {
            Some(heap[receiver.0 as int].methods[name])
        } else {
            match heap[receiver.0 as int].prototype {
                Some(prototype) => lookup_method(heap, prototype, name),
                None => None,
            }
        }),
{
    assert(heap[receiver.0 as int].wf(receiver.0 as int, heap.len(), threads));
}

/// A frame that is entered starts with no register set and with exactly
/// the arguments as its locals, so that nothing of the calling frame can
/// be read in it; the calling frame is kept as it was, below it.
pub proof fn lemma_entered_frame_is_fresh(
    state: MachineState,
    thread: int,
    code: CompiledCode,
    arguments: Seq<ObjectPointer>,
    result_slot: Option<usize>,
)
    requires
        state.has_thread(thread),
    ensures
        ({
            let before = state.threads[thread];
            let after = state.enter(thread, code, arguments, result_slot).threads[thread];
            &&& after.frames.len() == before.frames.len() + 1
            &&& after.frames.drop_last() == before.frames
            &&& after.current().registers == Map::<usize, ObjectPointer>::empty()
            &&& after.current().locals == arguments
            &&& after.current().code == code
            &&& after.current().index == 0
            &&& after.current().return_value is None
            &&& forall|slot: usize| after.register(slot) is None
        }),
{
    let before = state.threads[thread];
    let after = state.enter(thread, code, arguments, result_slot).threads[thread];
    assert(after.frames.drop_last() =~= before.frames);
}

/// A frame that ends hands the value it recorded to the register that its
/// call named, in the frame that called it, and to no other register; the
/// frames below are as they were.
pub proof fn lemma_left_frame_hands_its_value_over(state: MachineState, thread: int)
    requires
        state.has_thread(thread),
        state.threads[thread].frames.len() > 1,
    ensures
        ({
            let before = state.threads[thread];
            let caller = before.frames[before.frames.len() - 2];
            let after = state.leave(thread).threads[thread];
            &&& after.frames.len() == before.frames.len() - 1
            &&& forall|i: int|
                0 <= i < after.frames.len() - 1 ==> after.frames[i] == before.frames[i]
            &&& after.current().registers == (match (
                before.current().return_value,
                before.current().result_slot,
            ) {
                (Some(value), Some(slot)) => caller.registers.insert(slot, value),
                _ => caller.registers,
            })
            &&& after.current().locals == caller.locals
            &&& after.current().index == caller.index
            &&& after.current().return_value == caller.return_value
        }),
{
}

} // verus!
