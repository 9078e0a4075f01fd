//! What each instruction leaves alone: one lemma for the specification of
//! each handler, from which the laws of the machine are put together.
use vstd::prelude::*;
use crate::compiled_code::CompiledCode;
use crate::host::{FloatComparison, FloatOperation};
use crate::instruction::Instruction;
use crate::instructions::integer::{IntegerComparison, IntegerOperation};
use crate::instructions::{
    array, float, flow, integer, io, loader, methods, prototypes, stdout, string, values, variables,
};
use crate::memory_manager::{
    array_prototype, compiled_code_prototype, integer_prototype, string_prototype,
    float_prototype,
};
use crate::object_pointer::ObjectPointer;
use crate::state::MachineState;
use crate::thread::ThreadState;

verus! {

/// Whether `after` is what a thread can be after one of its instructions
/// has run on `before`: the frames below the innermost are the same, the
/// innermost has the same code, return value and result slot, and the
/// thread has the same flags, value and object.
pub open spec fn continues(before: ThreadState, after: ThreadState) -> bool {
    &&& after.frames.len() >= before.frames.len()
    &&& forall|i: int| 0 <= i < before.frames.len() - 1 ==> after.frames[i] == before.frames[i]
    &&& after.frames[before.frames.len() - 1].code == before.current().code
    &&& after.frames[before.frames.len() - 1].return_value == before.current().return_value
    &&& after.frames[before.frames.len() - 1].result_slot == before.current().result_slot
    &&& after.should_stop == before.should_stop
    &&& after.main == before.main
    &&& after.value == before.value
    &&& after.object == before.object
}

/// Whether `after` differs from `before` only in what an instruction of
/// the thread may change: the heap, the thread itself, and the files that
/// have been run, which only grow.
pub open spec fn advances(before: MachineState, after: MachineState, thread: int) -> bool {
    &&& after.failed == before.failed
    &&& after.live == before.live
    &&& after.threads.len() == before.threads.len()
    &&& before.executed.subset_of(after.executed)
    &&& forall|other: int|
        0 <= other < before.threads.len() && other != thread ==> after.threads[other]
            == before.threads[other]
    &&& continues(before.threads[thread], after.threads[thread])
}

/// Whether `after` differs from `before`, in its threads, only in that
/// `slot` of the innermost frame of the thread is bound.
pub open spec fn binds(
    before: MachineState,
    after: MachineState,
    thread: int,
    slot: usize,
) -> bool {
    &&& after.threads[thread].current().registers.contains_key(slot)
    &&& after.threads == before.threads.update(
        thread,
        before.threads[thread].set_register(
            slot,
            after.threads[thread].current().registers[slot],
        ),
    )
}

/// Whether `slot` of the innermost frame of the thread holds the newest
/// object of the heap, and that object has the given prototype.
pub open spec fn allocates(
    after: MachineState,
    thread: int,
    slot: usize,
    prototype: ObjectPointer,
) -> bool {
    &&& after.heap.len() > 0
    &&& after.heap.last().prototype == Some(prototype)
    &&& after.heap.len() - 1 <= usize::MAX ==> after.threads[thread].current().registers[slot].0
        == after.heap.len() - 1
}

/// What `values::set_integer` leaves alone,
/// and the register it binds to the object it allocates.
pub proof fn lemma_set_integer(
    state: MachineState,
    thread: int,
    code: CompiledCode,
    instruction: Instruction,
)
    requires
        state.has_thread(thread),
        state.threads[thread].frames.len() > 0,
    ensures
        values::set_integer(state, thread, code, instruction) matches Ok(after) ==> {
            &&& advances(state, after, thread)
            &&& instruction.arguments@.len() > 0
            &&& binds(state, after, thread, instruction.arguments@[0])
            &&& allocates(after, thread, instruction.arguments@[0], integer_prototype())
        },
{
}

/// What `values::set_float` leaves alone,
/// and the register it binds to the object it allocates.
pub proof fn lemma_set_float(
    state: MachineState,
    thread: int,
    code: CompiledCode,
    instruction: Instruction,
)
    requires
        state.has_thread(thread),
        state.threads[thread].frames.len() > 0,
    ensures
        values::set_float(state, thread, code, instruction) matches Ok(after) ==> {
            &&& advances(state, after, thread)
            &&& instruction.arguments@.len() > 0
            &&& binds(state, after, thread, instruction.arguments@[0])
            &&& allocates(after, thread, instruction.arguments@[0], float_prototype())
        },
{
}

/// What `values::set_string` leaves alone,
/// and the register it binds to the object it allocates.
pub proof fn lemma_set_string(
    state: MachineState,
    thread: int,
    code: CompiledCode,
    instruction: Instruction,
)
    requires
        state.has_thread(thread),
        state.threads[thread].frames.len() > 0,
    ensures
        values::set_string(state, thread, code, instruction) matches Ok(after) ==> {
            &&& advances(state, after, thread)
            &&& instruction.arguments@.len() > 0
            &&& binds(state, after, thread, instruction.arguments@[0])
            &&& allocates(after, thread, instruction.arguments@[0], string_prototype())
        },
{
}

/// What `values::set_object` leaves alone, and the register it binds.
pub proof fn lemma_set_object(state: MachineState, thread: int, instruction: Instruction)
    requires
        state.has_thread(thread),
        state.threads[thread].frames.len() > 0,
    ensures
        values::set_object(state, thread, instruction) matches Ok(after) ==> {
            &&& advances(state, after, thread)
            &&& instruction.arguments@.len() > 0
            &&& binds(state, after, thread, instruction.arguments@[0])
        },
{
}

/// What `values::set_array` leaves alone,
/// and the register it binds to the object it allocates.
pub proof fn lemma_set_array(state: MachineState, thread: int, instruction: Instruction)
    requires
        state.has_thread(thread),
        state.threads[thread].frames.len() > 0,
    ensures
        values::set_array(state, thread, instruction) matches Ok(after) ==> {
            &&& advances(state, after, thread)
            &&& instruction.arguments@.len() > 0
            &&& binds(state, after, thread, instruction.arguments@[0])
            &&& allocates(after, thread, instruction.arguments@[0], array_prototype())
        },
{
}

/// What `values::set_name` leaves alone.
pub proof fn lemma_set_name(
    state: MachineState,
    thread: int,
    code: CompiledCode,
    instruction: Instruction,
)
    requires
        state.has_thread(thread),
        state.threads[thread].frames.len() > 0,
    ensures
        values::set_name(state, thread, code, instruction) matches Ok(after) ==> {
            &&& advances(state, after, thread)
        },
{
}

/// What `prototypes::get_singleton` leaves alone, and the register it binds.
pub proof fn lemma_get_singleton(
    state: MachineState,
    thread: int,
    instruction: Instruction,
    object: ObjectPointer,
)
    requires
        state.has_thread(thread),
        state.threads[thread].frames.len() > 0,
    ensures
        prototypes::get_singleton(state, thread, instruction, object) matches Ok(after) ==> {
            &&& advances(state, after, thread)
            &&& instruction.arguments@.len() > 0
            &&& binds(state, after, thread, instruction.arguments@[0])
        },
{
}

/// What `values::set_true` leaves alone, and the register it binds.
pub proof fn lemma_set_true(state: MachineState, thread: int, instruction: Instruction)
    requires
        state.has_thread(thread),
        state.threads[thread].frames.len() > 0,
    ensures
        values::set_true(state, thread, instruction) matches Ok(after) ==> {
            &&& advances(state, after, thread)
            &&& instruction.arguments@.len() > 0
            &&& binds(state, after, thread, instruction.arguments@[0])
        },
{
}

/// What `values::set_false` leaves alone, and the register it binds.
pub proof fn lemma_set_false(state: MachineState, thread: int, instruction: Instruction)
    requires
        state.has_thread(thread),
        state.threads[thread].frames.len() > 0,
    ensures
        values::set_false(state, thread, instruction) matches Ok(after) ==> {
            &&& advances(state, after, thread)
            &&& instruction.arguments@.len() > 0
            &&& binds(state, after, thread, instruction.arguments@[0])
        },
{
}

/// What `variables::set_local` leaves alone.
pub proof fn lemma_set_local(state: MachineState, thread: int, instruction: Instruction)
    requires
        state.has_thread(thread),
        state.threads[thread].frames.len() > 0,
    ensures
        variables::set_local(state, thread, instruction) matches Ok(after) ==> {
            &&& advances(state, after, thread)
        },
{
}

/// What `variables::get_local` leaves alone, and the register it binds.
pub proof fn lemma_get_local(state: MachineState, thread: int, instruction: Instruction)
    requires
        state.has_thread(thread),
        state.threads[thread].frames.len() > 0,
    ensures
        variables::get_local(state, thread, instruction) matches Ok(after) ==> {
            &&& advances(state, after, thread)
            &&& instruction.arguments@.len() > 0
            &&& binds(state, after, thread, instruction.arguments@[0])
        },
{
}

/// What `variables::set_const` leaves alone.
pub proof fn lemma_set_const(
    state: MachineState,
    thread: int,
    code: CompiledCode,
    instruction: Instruction,
)
    requires
        state.has_thread(thread),
        state.threads[thread].frames.len() > 0,
    ensures
        variables::set_const(state, thread, code, instruction) matches Ok(after) ==> {
            &&& advances(state, after, thread)
        },
{
}

/// What `variables::get_const` leaves alone, and the register it binds.
pub proof fn lemma_get_const(
    state: MachineState,
    thread: int,
    code: CompiledCode,
    instruction: Instruction,
)
    requires
        state.has_thread(thread),
        state.threads[thread].frames.len() > 0,
    ensures
        variables::get_const(state, thread, code, instruction) matches Ok(after) ==> {
            &&& advances(state, after, thread)
            &&& instruction.arguments@.len() > 0
            &&& binds(state, after, thread, instruction.arguments@[0])
        },
{
}

/// What `variables::set_attr` leaves alone.
pub proof fn lemma_set_attr(state: MachineState, thread: int, instruction: Instruction)
    requires
        state.has_thread(thread),
        state.threads[thread].frames.len() > 0,
    ensures
        variables::set_attr(state, thread, instruction) matches Ok(after) ==> {
            &&& advances(state, after, thread)
        },
{
}

/// What `variables::get_attr` leaves alone, and the register it binds.
pub proof fn lemma_get_attr(state: MachineState, thread: int, instruction: Instruction)
    requires
        state.has_thread(thread),
        state.threads[thread].frames.len() > 0,
    ensures
        variables::get_attr(state, thread, instruction) matches Ok(after) ==> {
            &&& advances(state, after, thread)
            &&& instruction.arguments@.len() > 0
            &&& binds(state, after, thread, instruction.arguments@[0])
        },
{
}

/// What `values::set_compiled_code` leaves alone,
/// and the register it binds to the object it allocates.
pub proof fn lemma_set_compiled_code(
    state: MachineState,
    thread: int,
    code: CompiledCode,
    instruction: Instruction,
)
    requires
        state.has_thread(thread),
        state.threads[thread].frames.len() > 0,
    ensures
        values::set_compiled_code(state, thread, code, instruction) matches Ok(after) ==> {
            &&& advances(state, after, thread)
            &&& instruction.arguments@.len() > 0
            &&& binds(state, after, thread, instruction.arguments@[0])
            &&& allocates(after, thread, instruction.arguments@[0], compiled_code_prototype())
        },
{
}

/// What `methods::send` leaves alone.
pub proof fn lemma_send(
    state: MachineState,
    thread: int,
    code: CompiledCode,
    instruction: Instruction,
)
    requires
        state.has_thread(thread),
        state.threads[thread].frames.len() > 0,
    ensures
        methods::send(state, thread, code, instruction) matches Ok(after) ==> {
            &&& advances(state, after, thread)
        },
{
}

/// What `methods::def_method` leaves alone.
pub proof fn lemma_def_method(state: MachineState, thread: int, instruction: Instruction)
    requires
        state.has_thread(thread),
        state.threads[thread].frames.len() > 0,
    ensures
        methods::def_method(state, thread, instruction) matches Ok(after) ==> {
            &&& advances(state, after, thread)
        },
{
}

/// What `methods::def_literal_method` leaves alone.
pub proof fn lemma_def_literal_method(
    state: MachineState,
    thread: int,
    code: CompiledCode,
    instruction: Instruction,
)
    requires
        state.has_thread(thread),
        state.threads[thread].frames.len() > 0,
    ensures
        methods::def_literal_method(state, thread, code, instruction) matches Ok(after) ==> {
            &&& advances(state, after, thread)
        },
{
}

/// What `methods::run_code` leaves alone.
pub proof fn lemma_run_code(state: MachineState, thread: int, instruction: Instruction)
    requires
        state.has_thread(thread),
        state.threads[thread].frames.len() > 0,
    ensures
        methods::run_code(state, thread, instruction) matches Ok(after) ==> {
            &&& advances(state, after, thread)
        },
{
}

/// What `flow::is_error` leaves alone, and the register it binds.
pub proof fn lemma_is_error(state: MachineState, thread: int, instruction: Instruction)
    requires
        state.has_thread(thread),
        state.threads[thread].frames.len() > 0,
    ensures
        flow::is_error(state, thread, instruction) matches Ok(after) ==> {
            &&& advances(state, after, thread)
            &&& instruction.arguments@.len() > 0
            &&& binds(state, after, thread, instruction.arguments@[0])
        },
{
}

/// What `flow::error_to_string` leaves alone,
/// and the register it binds to the object it allocates.
pub proof fn lemma_error_to_string(state: MachineState, thread: int, instruction: Instruction)
    requires
        state.has_thread(thread),
        state.threads[thread].frames.len() > 0,
    ensures
        flow::error_to_string(state, thread, instruction) matches Ok(after) ==> {
            &&& advances(state, after, thread)
            &&& instruction.arguments@.len() > 0
            &&& binds(state, after, thread, instruction.arguments@[0])
            &&& allocates(after, thread, instruction.arguments@[0], string_prototype())
        },
{
}

/// What `integer::integer_binary` leaves alone,
/// and the register it binds to the object it allocates.
pub proof fn lemma_integer_binary(
    state: MachineState,
    thread: int,
    instruction: Instruction,
    operation: IntegerOperation,
)
    requires
        state.has_thread(thread),
        state.threads[thread].frames.len() > 0,
    ensures
        integer::integer_binary(state, thread, instruction, operation) matches Ok(after) ==> {
            &&& advances(state, after, thread)
            &&& instruction.arguments@.len() > 0
            &&& binds(state, after, thread, instruction.arguments@[0])
            &&& allocates(after, thread, instruction.arguments@[0], integer_prototype())
        },
{
}

/// What `integer::integer_to_float` leaves alone.
pub proof fn lemma_integer_to_float(state: MachineState, thread: int, instruction: Instruction)
    requires
        state.has_thread(thread),
        state.threads[thread].frames.len() > 0,
    ensures
        integer::integer_to_float(state, thread, instruction) matches Ok(after) ==> {
            &&& advances(state, after, thread)
        },
{
}

/// What `integer::integer_to_string_spec` leaves alone,
/// and the register it binds to the object it allocates.
pub proof fn lemma_integer_to_string(state: MachineState, thread: int, instruction: Instruction)
    requires
        state.has_thread(thread),
        state.threads[thread].frames.len() > 0,
    ensures
        integer::integer_to_string_spec(state, thread, instruction) matches Ok(after) ==> {
            &&& advances(state, after, thread)
            &&& instruction.arguments@.len() > 0
            &&& binds(state, after, thread, instruction.arguments@[0])
            &&& allocates(after, thread, instruction.arguments@[0], string_prototype())
        },
{
}

/// What `integer::integer_compare` leaves alone, and the register it binds.
pub proof fn lemma_integer_compare(
    state: MachineState,
    thread: int,
    instruction: Instruction,
    comparison: IntegerComparison,
)
    requires
        state.has_thread(thread),
        state.threads[thread].frames.len() > 0,
    ensures
        integer::integer_compare(state, thread, instruction, comparison) matches Ok(after) ==> {
            &&& advances(state, after, thread)
            &&& instruction.arguments@.len() > 0
            &&& binds(state, after, thread, instruction.arguments@[0])
        },
{
}

/// What `float::float_arithmetic` leaves alone.
pub proof fn lemma_float_arithmetic(
    state: MachineState,
    thread: int,
    instruction: Instruction,
    operation: FloatOperation,
)
    requires
        state.has_thread(thread),
        state.threads[thread].frames.len() > 0,
    ensures
        float::float_arithmetic(state, thread, instruction, operation) matches Ok(after) ==> {
            &&& advances(state, after, thread)
        },
{
}

/// What `float::float_to_integer` leaves alone.
pub proof fn lemma_float_to_integer(state: MachineState, thread: int, instruction: Instruction)
    requires
        state.has_thread(thread),
        state.threads[thread].frames.len() > 0,
    ensures
        float::float_to_integer(state, thread, instruction) matches Ok(after) ==> {
            &&& advances(state, after, thread)
        },
{
}

/// What `float::float_to_string` leaves alone.
pub proof fn lemma_float_to_string(state: MachineState, thread: int, instruction: Instruction)
    requires
        state.has_thread(thread),
        state.threads[thread].frames.len() > 0,
    ensures
        float::float_to_string(state, thread, instruction) matches Ok(after) ==> {
            &&& advances(state, after, thread)
        },
{
}

/// What `float::float_compare` leaves alone.
pub proof fn lemma_float_compare(
    state: MachineState,
    thread: int,
    instruction: Instruction,
    comparison: FloatComparison,
)
    requires
        state.has_thread(thread),
        state.threads[thread].frames.len() > 0,
    ensures
        float::float_compare(state, thread, instruction, comparison) matches Ok(after) ==> {
            &&& advances(state, after, thread)
        },
{
}

/// What `array::array_insert` leaves alone.
pub proof fn lemma_array_insert(state: MachineState, thread: int, instruction: Instruction)
    requires
        state.has_thread(thread),
        state.threads[thread].frames.len() > 0,
    ensures
        array::array_insert(state, thread, instruction) matches Ok(after) ==> {
            &&& advances(state, after, thread)
        },
{
}

/// What `array::array_at` leaves alone, and the register it binds.
pub proof fn lemma_array_at(state: MachineState, thread: int, instruction: Instruction)
    requires
        state.has_thread(thread),
        state.threads[thread].frames.len() > 0,
    ensures
        array::array_at(state, thread, instruction) matches Ok(after) ==> {
            &&& advances(state, after, thread)
            &&& instruction.arguments@.len() > 0
            &&& binds(state, after, thread, instruction.arguments@[0])
        },
{
}

/// What `array::array_remove` leaves alone, and the register it binds.
pub proof fn lemma_array_remove(state: MachineState, thread: int, instruction: Instruction)
    requires
        state.has_thread(thread),
        state.threads[thread].frames.len() > 0,
    ensures
        array::array_remove(state, thread, instruction) matches Ok(after) ==> {
            &&& advances(state, after, thread)
            &&& instruction.arguments@.len() > 0
            &&& binds(state, after, thread, instruction.arguments@[0])
        },
{
}

/// What `array::array_length` leaves alone,
/// and the register it binds to the object it allocates.
pub proof fn lemma_array_length(state: MachineState, thread: int, instruction: Instruction)
    requires
        state.has_thread(thread),
        state.threads[thread].frames.len() > 0,
    ensures
        array::array_length(state, thread, instruction) matches Ok(after) ==> {
            &&& advances(state, after, thread)
            &&& instruction.arguments@.len() > 0
            &&& binds(state, after, thread, instruction.arguments@[0])
            &&& allocates(after, thread, instruction.arguments@[0], integer_prototype())
        },
{
}

/// What `array::array_clear` leaves alone.
pub proof fn lemma_array_clear(state: MachineState, thread: int, instruction: Instruction)
    requires
        state.has_thread(thread),
        state.threads[thread].frames.len() > 0,
    ensures
        array::array_clear(state, thread, instruction) matches Ok(after) ==> {
            &&& advances(state, after, thread)
        },
{
}

/// What `string::string_to_lower` leaves alone,
/// and the register it binds to the object it allocates.
pub proof fn lemma_string_to_lower(state: MachineState, thread: int, instruction: Instruction)
    requires
        state.has_thread(thread),
        state.threads[thread].frames.len() > 0,
    ensures
        string::string_to_lower(state, thread, instruction) matches Ok(after) ==> {
            &&& advances(state, after, thread)
            &&& instruction.arguments@.len() > 0
            &&& binds(state, after, thread, instruction.arguments@[0])
            &&& allocates(after, thread, instruction.arguments@[0], string_prototype())
        },
{
}

/// What `string::string_to_upper` leaves alone,
/// and the register it binds to the object it allocates.
pub proof fn lemma_string_to_upper(state: MachineState, thread: int, instruction: Instruction)
    requires
        state.has_thread(thread),
        state.threads[thread].frames.len() > 0,
    ensures
        string::string_to_upper(state, thread, instruction) matches Ok(after) ==> {
            &&& advances(state, after, thread)
            &&& instruction.arguments@.len() > 0
            &&& binds(state, after, thread, instruction.arguments@[0])
            &&& allocates(after, thread, instruction.arguments@[0], string_prototype())
        },
{
}

/// What `string::string_equals` leaves alone, and the register it binds.
pub proof fn lemma_string_equals(state: MachineState, thread: int, instruction: Instruction)
    requires
        state.has_thread(thread),
        state.threads[thread].frames.len() > 0,
    ensures
        string::string_equals(state, thread, instruction) matches Ok(after) ==> {
            &&& advances(state, after, thread)
            &&& instruction.arguments@.len() > 0
            &&& binds(state, after, thread, instruction.arguments@[0])
        },
{
}

/// What `string::string_to_bytes` leaves alone,
/// and the register it binds to the object it allocates.
pub proof fn lemma_string_to_bytes(state: MachineState, thread: int, instruction: Instruction)
    requires
        state.has_thread(thread),
        state.threads[thread].frames.len() > 0,
    ensures
        string::string_to_bytes(state, thread, instruction) matches Ok(after) ==> {
            &&& advances(state, after, thread)
            &&& instruction.arguments@.len() > 0
            &&& binds(state, after, thread, instruction.arguments@[0])
            &&& allocates(after, thread, instruction.arguments@[0], array_prototype())
        },
{
}

/// What `string::string_from_bytes` leaves alone, and the register it binds.
pub proof fn lemma_string_from_bytes(state: MachineState, thread: int, instruction: Instruction)
    requires
        state.has_thread(thread),
        state.threads[thread].frames.len() > 0,
    ensures
        string::string_from_bytes(state, thread, instruction) matches Ok(after) ==> {
            &&& advances(state, after, thread)
            &&& instruction.arguments@.len() > 0
            &&& binds(state, after, thread, instruction.arguments@[0])
        },
{
}

/// What `string::string_length` leaves alone,
/// and the register it binds to the object it allocates.
pub proof fn lemma_string_length(state: MachineState, thread: int, instruction: Instruction)
    requires
        state.has_thread(thread),
        state.threads[thread].frames.len() > 0,
    ensures
        string::string_length(state, thread, instruction) matches Ok(after) ==> {
            &&& advances(state, after, thread)
            &&& instruction.arguments@.len() > 0
            &&& binds(state, after, thread, instruction.arguments@[0])
            &&& allocates(after, thread, instruction.arguments@[0], integer_prototype())
        },
{
}

/// What `string::string_size` leaves alone,
/// and the register it binds to the object it allocates.
pub proof fn lemma_string_size(state: MachineState, thread: int, instruction: Instruction)
    requires
        state.has_thread(thread),
        state.threads[thread].frames.len() > 0,
    ensures
        string::string_size(state, thread, instruction) matches Ok(after) ==> {
            &&& advances(state, after, thread)
            &&& instruction.arguments@.len() > 0
            &&& binds(state, after, thread, instruction.arguments@[0])
            &&& allocates(after, thread, instruction.arguments@[0], integer_prototype())
        },
{
}

/// What `stdout::stdout_write_spec` leaves alone.
pub proof fn lemma_stdout_write(state: MachineState, thread: int, instruction: Instruction)
    requires
        state.has_thread(thread),
        state.threads[thread].frames.len() > 0,
    ensures
        stdout::stdout_write_spec(state, thread, instruction) matches Ok(after) ==> {
            &&& advances(state, after, thread)
        },
{
}

/// What `io::stderr_write` leaves alone.
pub proof fn lemma_stderr_write(state: MachineState, thread: int, instruction: Instruction)
    requires
        state.has_thread(thread),
        state.threads[thread].frames.len() > 0,
    ensures
        io::stderr_write(state, thread, instruction) matches Ok(after) ==> {
            &&& advances(state, after, thread)
        },
{
}

/// What `io::stdin_read` leaves alone.
pub proof fn lemma_stdin_read(state: MachineState, thread: int, instruction: Instruction)
    requires
        state.has_thread(thread),
        state.threads[thread].frames.len() > 0,
    ensures
        io::stdin_read(state, thread, instruction) matches Ok(after) ==> {
            &&& advances(state, after, thread)
        },
{
}

/// What `io::stdin_read_line` leaves alone.
pub proof fn lemma_stdin_read_line(state: MachineState, thread: int, instruction: Instruction)
    requires
        state.has_thread(thread),
        state.threads[thread].frames.len() > 0,
    ensures
        io::stdin_read_line(state, thread, instruction) matches Ok(after) ==> {
            &&& advances(state, after, thread)
        },
{
}

/// What `io::file_open` leaves alone.
pub proof fn lemma_file_open(state: MachineState, thread: int, instruction: Instruction)
    requires
        state.has_thread(thread),
        state.threads[thread].frames.len() > 0,
    ensures
        io::file_open(state, thread, instruction) matches Ok(after) ==> {
            &&& advances(state, after, thread)
        },
{
}

/// What `io::file_write` leaves alone.
pub proof fn lemma_file_write(state: MachineState, thread: int, instruction: Instruction)
    requires
        state.has_thread(thread),
        state.threads[thread].frames.len() > 0,
    ensures
        io::file_write(state, thread, instruction) matches Ok(after) ==> {
            &&& advances(state, after, thread)
        },
{
}

/// What `io::file_read` leaves alone.
pub proof fn lemma_file_read(state: MachineState, thread: int, instruction: Instruction)
    requires
        state.has_thread(thread),
        state.threads[thread].frames.len() > 0,
    ensures
        io::file_read(state, thread, instruction) matches Ok(after) ==> {
            &&& advances(state, after, thread)
        },
{
}

/// What `io::file_read_line` leaves alone.
pub proof fn lemma_file_read_line(state: MachineState, thread: int, instruction: Instruction)
    requires
        state.has_thread(thread),
        state.threads[thread].frames.len() > 0,
    ensures
        io::file_read_line(state, thread, instruction) matches Ok(after) ==> {
            &&& advances(state, after, thread)
        },
{
}

/// What `io::file_flush` leaves alone.
pub proof fn lemma_file_flush(state: MachineState, thread: int, instruction: Instruction)
    requires
        state.has_thread(thread),
        state.threads[thread].frames.len() > 0,
    ensures
        io::file_flush(state, thread, instruction) matches Ok(after) ==> {
            &&& advances(state, after, thread)
        },
{
}

/// What `io::file_size` leaves alone.
pub proof fn lemma_file_size(state: MachineState, thread: int, instruction: Instruction)
    requires
        state.has_thread(thread),
        state.threads[thread].frames.len() > 0,
    ensures
        io::file_size(state, thread, instruction) matches Ok(after) ==> {
            &&& advances(state, after, thread)
        },
{
}

/// What `io::file_seek` leaves alone.
pub proof fn lemma_file_seek(state: MachineState, thread: int, instruction: Instruction)
    requires
        state.has_thread(thread),
        state.threads[thread].frames.len() > 0,
    ensures
        io::file_seek(state, thread, instruction) matches Ok(after) ==> {
            &&& advances(state, after, thread)
        },
{
}

/// What `loader::run_file_fast` leaves alone.
pub proof fn lemma_run_file_fast(
    state: MachineState,
    thread: int,
    code: CompiledCode,
    instruction: Instruction,
)
    requires
        state.has_thread(thread),
        state.threads[thread].frames.len() > 0,
    ensures
        loader::run_file_fast(state, thread, code, instruction) matches Ok(after) ==> {
            &&& advances(state, after, thread)
        },
{
}

} // verus!
