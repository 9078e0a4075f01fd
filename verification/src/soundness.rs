//! The machine stays well formed: whatever runs, every handle in the
//! machine refers to an object of its heap, every thread has a frame, and
//! every prototype is older than the objects that link to it.
use vstd::prelude::*;
use crate::call_frame::FrameState;
use crate::compiled_code::CompiledCode;
use crate::host::{FloatComparison, FloatOperation, ReplySpec, RequestSpec};
use crate::instruction::{Instruction, InstructionType};
use crate::instructions::integer::{IntegerComparison, IntegerOperation};
use crate::instructions::{
    array, float, flow, integer, io, loader, methods, prototypes, stdout, string, values, variables,
};
use crate::interpreter::{effect, execute, run, step, Progress};
use crate::laws::lemma_effect_advances;
use crate::lifecycle::{lemma_retire_wf, lemma_stop_listed_wf, resume, run_thread};
use crate::memory_manager::{
    array_prototype, compiled_code_prototype, false_prototype, float_prototype,
    integer_prototype, lemma_lookup_method_valid, lookup_method, method_prototype, next_pointer,
    string_prototype, thread_prototype, top_level, true_prototype, Heap,
};
use crate::object::ObjectState;
use crate::object_pointer::{pointers_valid, ObjectPointer};
use crate::object_value::Value;
use crate::state::{
    lemma_bind_wf, lemma_enter_wf, lemma_jump_wf, lemma_leave_wf, lemma_push_object_wf,
    lemma_record_return_wf, lemma_register_valid, lemma_same_frames_wf, lemma_spawn_wf,
    lemma_unwind_wf, lemma_with_current_wf, lemma_with_object_wf, lemma_with_thread_wf,
    MachineState,
};
use crate::thread::ThreadState;
use crate::virtual_machine_result::FatalSpec;

verus! {

/// Every object of a well-formed machine is well formed.
pub broadcast proof fn lemma_object_wf(state: MachineState, object: ObjectPointer)
    requires
        state.wf(),
        state.valid(object),
    ensures
        (#[trigger] state.object(object)).wf(
            object.0 as int,
            state.heap.len(),
            state.threads.len(),
        ),
{
    assert(state.heap[object.0 as int].wf(object.0 as int, state.heap.len(), state.threads.len()));
}

/// Every thread of a well-formed machine is well formed, and so is its
/// innermost frame.
pub broadcast proof fn lemma_thread_wf(state: MachineState, thread: int)
    requires
        state.wf(),
        state.has_thread(thread),
    ensures
        (#[trigger] state.threads[thread]).wf(state.heap.len()),
        state.threads[thread].current().wf(state.heap.len()),
{
    assert(state.threads[thread].wf(state.heap.len()));
    assert(state.threads[thread].current().wf(state.heap.len()));
}

/// An operand that was read is an object of the heap.
pub broadcast proof fn lemma_operand_valid(
    state: MachineState,
    thread: int,
    instruction: Instruction,
    position: usize,
)
    requires
        state.wf(),
        state.has_thread(thread),
    ensures
        (#[trigger] state.operand(thread, instruction, position)) matches Ok(object)
            ==> state.valid(object),
{
    if instruction.spec_arg(position) is Ok {
        lemma_register_valid(state, thread, instruction.spec_arg(position)->Ok_0);
    }
}

/// The arguments that were collected are objects of the heap.
pub broadcast proof fn lemma_collected_valid(
    state: MachineState,
    thread: int,
    instruction: Instruction,
    offset: usize,
    amount: usize,
)
    requires
        state.wf(),
        state.has_thread(thread),
    ensures
        (#[trigger] state.collect_arguments(thread, instruction, offset, amount)) matches Ok(
            objects,
        ) ==> pointers_valid(objects, state.heap.len()),
    decreases amount,
{
    if amount > 0 {
        lemma_collected_valid(state, thread, instruction, offset, (amount - 1) as usize);
        lemma_operand_valid(state, thread, instruction, (offset + amount - 1) as usize);
    }
}

/// A method that was found is an object of the heap.
pub broadcast proof fn lemma_method_valid(
    state: MachineState,
    receiver: ObjectPointer,
    name: Seq<char>,
)
    requires
        state.wf(),
    ensures
        (#[trigger] lookup_method(state.heap, receiver, name)) matches Some(method)
            ==> state.valid(method),
{
    lemma_lookup_method_valid(state.heap, state.threads.len(), receiver, name);
}

/// The object that is allocated next is an object of the heap once it is.
pub broadcast proof fn lemma_next_pointer_valid(heap: Heap, object: ObjectState)
    ensures
        next_pointer(heap).0 < (#[trigger] heap.push(object)).len(),
{
}

/// Binding a register to an object of the heap keeps the machine well formed.
pub broadcast proof fn lemma_bind_keeps_wf(
    state: MachineState,
    thread: int,
    slot: usize,
    object: ObjectPointer,
)
    requires
        state.wf(),
        state.has_thread(thread),
        state.valid(object),
    ensures
        (#[trigger] state.bind(thread, slot, object)).wf(),
{
    lemma_bind_wf(state, thread, slot, object);
}

/// Allocating an object that refers to objects of the heap keeps the
/// machine well formed.
pub broadcast proof fn lemma_allocate_keeps_wf(
    state: MachineState,
    value: Value,
    prototype: Option<ObjectPointer>,
)
    requires
        state.wf(),
        value.wf(state.heap.len(), state.threads.len()),
        prototype matches Some(object) ==> state.valid(object),
    ensures
        (#[trigger] state.allocate(value, prototype)).wf(),
{
    lemma_push_object_wf(state, ObjectState::fresh(value, prototype));
}

/// Replacing an object by a well-formed one keeps the machine well formed.
pub broadcast proof fn lemma_with_object_keeps_wf(
    state: MachineState,
    object: ObjectPointer,
    value: ObjectState,
)
    requires
        state.wf(),
        state.valid(object),
        value.wf(object.0 as int, state.heap.len(), state.threads.len()),
    ensures
        (#[trigger] state.with_object(object, value)).wf(),
{
    lemma_with_object_wf(state, object, value);
}

/// Assigning an object of the heap to a local keeps the machine well formed.
pub broadcast proof fn lemma_set_local_keeps_wf(
    state: MachineState,
    thread: int,
    index: usize,
    object: ObjectPointer,
)
    requires
        state.wf(),
        state.has_thread(thread),
        state.valid(object),
    ensures
        (#[trigger] state.set_local(thread, index, object)) matches Ok(after) ==> after.wf(),
{
    let before = state.threads[thread];
    lemma_thread_wf(state, thread);
    if index < before.current().locals.len() {
        lemma_with_current_wf(
            before,
            FrameState {
                locals: before.current().locals.update(index as int, object),
                ..before.current()
            },
            state.heap.len(),
        );
        lemma_with_thread_wf(state, thread, before.set_local(index, object));
    }
}

/// Entering a frame whose arguments are objects of the heap keeps the
/// machine well formed.
pub broadcast proof fn lemma_enter_keeps_wf(
    state: MachineState,
    thread: int,
    code: CompiledCode,
    arguments: Seq<ObjectPointer>,
    result_slot: Option<usize>,
)
    requires
        state.wf(),
        state.has_thread(thread),
        pointers_valid(arguments, state.heap.len()),
    ensures
        (#[trigger] state.enter(thread, code, arguments, result_slot)).wf(),
{
    lemma_enter_wf(state, thread, code, arguments, result_slot);
}

/// Leaving a request with a thread keeps the machine well formed.
pub broadcast proof fn lemma_wait_keeps_wf(state: MachineState, thread: int, request: RequestSpec)
    requires
        state.wf(),
        state.has_thread(thread),
    ensures
        (#[trigger] state.wait(thread, request)).wf(),
{
    lemma_thread_wf(state, thread);
    lemma_same_frames_wf(
        state,
        thread,
        ThreadState { pending: Some(request), ..state.threads[thread] },
    );
}

/// Recording a file keeps the machine well formed.
pub broadcast proof fn lemma_mark_executed_keeps_wf(state: MachineState, path: Seq<char>)
    requires
        state.wf(),
    ensures
        (#[trigger] state.mark_executed(path)).wf(),
{
    let after = state.mark_executed(path);
    assert forall|t: int| 0 <= t < after.threads.len() implies (#[trigger] after.threads[t]).wf(
        after.heap.len(),
    ) by {
        assert(state.threads[t].wf(state.heap.len()));
    }
}

/// Creating a thread keeps the machine well formed.
pub broadcast proof fn lemma_spawn_keeps_wf(state: MachineState, code: CompiledCode, main: bool)
    requires
        state.wf(),
    ensures
        (#[trigger] state.spawn(code, main)).wf(),
        state.spawn(code, main).valid(next_pointer(state.heap)),
        state.spawn(code, main).threads.len() == state.threads.len() + 1,
{
    lemma_spawn_wf(state, code, main);
}

/// Moving within a frame keeps the machine well formed.
pub broadcast proof fn lemma_jump_keeps_wf(state: MachineState, thread: int, index: usize)
    requires
        state.wf(),
        state.has_thread(thread),
    ensures
        (#[trigger] state.jump(thread, index)).wf(),
{
    lemma_jump_wf(state, thread, index);
}

/// Recording an object of the heap as what a frame returns keeps the
/// machine well formed.
pub broadcast proof fn lemma_record_return_keeps_wf(
    state: MachineState,
    thread: int,
    value: Option<ObjectPointer>,
)
    requires
        state.wf(),
        state.has_thread(thread),
        value matches Some(object) ==> state.valid(object),
    ensures
        (#[trigger] state.record_return(thread, value)).wf(),
{
    lemma_record_return_wf(state, thread, value);
}

/// Leaving a frame keeps the machine well formed.
pub broadcast proof fn lemma_leave_keeps_wf(state: MachineState, thread: int)
    requires
        state.wf(),
        state.has_thread(thread),
        state.threads[thread].frames.len() > 1,
    ensures
        (#[trigger] state.leave(thread)).wf(),
{
    lemma_leave_wf(state, thread);
}

/// Dropping the frames of a thread keeps the machine well formed.
pub broadcast proof fn lemma_unwind_keeps_wf(state: MachineState, thread: int)
    requires
        state.wf(),
        state.has_thread(thread),
    ensures
        (#[trigger] state.unwind(thread)).wf(),
{
    lemma_unwind_wf(state, thread);
}

pub broadcast group group_keeps_wf {
    lemma_object_wf,
    lemma_thread_wf,
    lemma_operand_valid,
    lemma_collected_valid,
    lemma_method_valid,
    lemma_next_pointer_valid,
    lemma_bind_keeps_wf,
    lemma_allocate_keeps_wf,
    lemma_with_object_keeps_wf,
    lemma_set_local_keeps_wf,
    lemma_enter_keeps_wf,
    lemma_wait_keeps_wf,
    lemma_mark_executed_keeps_wf,
    lemma_spawn_keeps_wf,
    lemma_jump_keeps_wf,
    lemma_record_return_keeps_wf,
    lemma_leave_keeps_wf,
    lemma_unwind_keeps_wf,
}

proof fn lemma_set_integer_wf(
    state: MachineState,
    thread: int,
    code: CompiledCode,
    instruction: Instruction,
)
    requires
        state.wf(),
        state.has_thread(thread),
    ensures
        values::set_integer(state, thread, code, instruction) matches Ok(after) ==> after.wf(),
{
    broadcast use group_keeps_wf;

}

proof fn lemma_set_float_wf(
    state: MachineState,
    thread: int,
    code: CompiledCode,
    instruction: Instruction,
)
    requires
        state.wf(),
        state.has_thread(thread),
    ensures
        values::set_float(state, thread, code, instruction) matches Ok(after) ==> after.wf(),
{
    broadcast use group_keeps_wf;

}

proof fn lemma_set_string_wf(
    state: MachineState,
    thread: int,
    code: CompiledCode,
    instruction: Instruction,
)
    requires
        state.wf(),
        state.has_thread(thread),
    ensures
        values::set_string(state, thread, code, instruction) matches Ok(after) ==> after.wf(),
{
    broadcast use group_keeps_wf;

}

proof fn lemma_set_object_wf(state: MachineState, thread: int, instruction: Instruction)
    requires
        state.wf(),
        state.has_thread(thread),
    ensures
        values::set_object(state, thread, instruction) matches Ok(after) ==> after.wf(),
{
    broadcast use group_keeps_wf;

}

proof fn lemma_set_array_wf(state: MachineState, thread: int, instruction: Instruction)
    requires
        state.wf(),
        state.has_thread(thread),
    ensures
        values::set_array(state, thread, instruction) matches Ok(after) ==> after.wf(),
{
    broadcast use group_keeps_wf;

}

proof fn lemma_set_name_wf(
    state: MachineState,
    thread: int,
    code: CompiledCode,
    instruction: Instruction,
)
    requires
        state.wf(),
        state.has_thread(thread),
    ensures
        values::set_name(state, thread, code, instruction) matches Ok(after) ==> after.wf(),
{
    broadcast use group_keeps_wf;

}

proof fn lemma_get_singleton_wf(
    state: MachineState,
    thread: int,
    instruction: Instruction,
    object: ObjectPointer,
)
    requires
        state.wf(),
        state.has_thread(thread),
        state.valid(object),
    ensures
        prototypes::get_singleton(
            state,
            thread,
            instruction,
            object,
        ) matches Ok(after) ==> after.wf(),
{
    broadcast use group_keeps_wf;

}

proof fn lemma_set_true_wf(state: MachineState, thread: int, instruction: Instruction)
    requires
        state.wf(),
        state.has_thread(thread),
    ensures
        values::set_true(state, thread, instruction) matches Ok(after) ==> after.wf(),
{
    broadcast use group_keeps_wf;

}

proof fn lemma_set_false_wf(state: MachineState, thread: int, instruction: Instruction)
    requires
        state.wf(),
        state.has_thread(thread),
    ensures
        values::set_false(state, thread, instruction) matches Ok(after) ==> after.wf(),
{
    broadcast use group_keeps_wf;

}

proof fn lemma_set_local_wf(state: MachineState, thread: int, instruction: Instruction)
    requires
        state.wf(),
        state.has_thread(thread),
    ensures
        variables::set_local(state, thread, instruction) matches Ok(after) ==> after.wf(),
{
    broadcast use group_keeps_wf;

}

proof fn lemma_get_local_wf(state: MachineState, thread: int, instruction: Instruction)
    requires
        state.wf(),
        state.has_thread(thread),
    ensures
        variables::get_local(state, thread, instruction) matches Ok(after) ==> after.wf(),
{
    broadcast use group_keeps_wf;

}

proof fn lemma_set_const_wf(
    state: MachineState,
    thread: int,
    code: CompiledCode,
    instruction: Instruction,
)
    requires
        state.wf(),
        state.has_thread(thread),
    ensures
        variables::set_const(state, thread, code, instruction) matches Ok(after) ==> after.wf(),
{
    broadcast use group_keeps_wf;

}

proof fn lemma_get_const_wf(
    state: MachineState,
    thread: int,
    code: CompiledCode,
    instruction: Instruction,
)
    requires
        state.wf(),
        state.has_thread(thread),
    ensures
        variables::get_const(state, thread, code, instruction) matches Ok(after) ==> after.wf(),
{
    broadcast use group_keeps_wf;

}

proof fn lemma_set_attr_wf(state: MachineState, thread: int, instruction: Instruction)
    requires
        state.wf(),
        state.has_thread(thread),
    ensures
        variables::set_attr(state, thread, instruction) matches Ok(after) ==> after.wf(),
{
    broadcast use group_keeps_wf;

}

proof fn lemma_get_attr_wf(state: MachineState, thread: int, instruction: Instruction)
    requires
        state.wf(),
        state.has_thread(thread),
    ensures
        variables::get_attr(state, thread, instruction) matches Ok(after) ==> after.wf(),
{
    broadcast use group_keeps_wf;

}

proof fn lemma_set_compiled_code_wf(
    state: MachineState,
    thread: int,
    code: CompiledCode,
    instruction: Instruction,
)
    requires
        state.wf(),
        state.has_thread(thread),
    ensures
        values::set_compiled_code(
            state,
            thread,
            code,
            instruction,
        ) matches Ok(after) ==> after.wf(),
{
    broadcast use group_keeps_wf;

}

proof fn lemma_send_wf(
    state: MachineState,
    thread: int,
    code: CompiledCode,
    instruction: Instruction,
)
    requires
        state.wf(),
        state.has_thread(thread),
    ensures
        methods::send(state, thread, code, instruction) matches Ok(after) ==> after.wf(),
{
    broadcast use group_keeps_wf;

}

proof fn lemma_def_method_wf(state: MachineState, thread: int, instruction: Instruction)
    requires
        state.wf(),
        state.has_thread(thread),
    ensures
        methods::def_method(state, thread, instruction) matches Ok(after) ==> after.wf(),
{
    broadcast use group_keeps_wf;

}

proof fn lemma_def_literal_method_wf(
    state: MachineState,
    thread: int,
    code: CompiledCode,
    instruction: Instruction,
)
    requires
        state.wf(),
        state.has_thread(thread),
    ensures
        methods::def_literal_method(
            state,
            thread,
            code,
            instruction,
        ) matches Ok(after) ==> after.wf(),
{
    broadcast use group_keeps_wf;

}

proof fn lemma_run_code_wf(state: MachineState, thread: int, instruction: Instruction)
    requires
        state.wf(),
        state.has_thread(thread),
    ensures
        methods::run_code(state, thread, instruction) matches Ok(after) ==> after.wf(),
{
    broadcast use group_keeps_wf;

}

proof fn lemma_is_error_wf(state: MachineState, thread: int, instruction: Instruction)
    requires
        state.wf(),
        state.has_thread(thread),
    ensures
        flow::is_error(state, thread, instruction) matches Ok(after) ==> after.wf(),
{
    broadcast use group_keeps_wf;

}

proof fn lemma_error_to_string_wf(state: MachineState, thread: int, instruction: Instruction)
    requires
        state.wf(),
        state.has_thread(thread),
    ensures
        flow::error_to_string(state, thread, instruction) matches Ok(after) ==> after.wf(),
{
    broadcast use group_keeps_wf;

}

proof fn lemma_integer_binary_wf(
    state: MachineState,
    thread: int,
    instruction: Instruction,
    operation: IntegerOperation,
)
    requires
        state.wf(),
        state.has_thread(thread),
    ensures
        integer::integer_binary(
            state,
            thread,
            instruction,
            operation,
        ) matches Ok(after) ==> after.wf(),
{
    broadcast use group_keeps_wf;

}

proof fn lemma_integer_to_float_wf(state: MachineState, thread: int, instruction: Instruction)
    requires
        state.wf(),
        state.has_thread(thread),
    ensures
        integer::integer_to_float(state, thread, instruction) matches Ok(after) ==> after.wf(),
{
    broadcast use group_keeps_wf;

}

proof fn lemma_integer_to_string_wf(state: MachineState, thread: int, instruction: Instruction)
    requires
        state.wf(),
        state.has_thread(thread),
    ensures
        integer::integer_to_string_spec(
            state,
            thread,
            instruction,
        ) matches Ok(after) ==> after.wf(),
{
    broadcast use group_keeps_wf;

}

proof fn lemma_integer_compare_wf(
    state: MachineState,
    thread: int,
    instruction: Instruction,
    comparison: IntegerComparison,
)
    requires
        state.wf(),
        state.has_thread(thread),
    ensures
        integer::integer_compare(
            state,
            thread,
            instruction,
            comparison,
        ) matches Ok(after) ==> after.wf(),
{
    broadcast use group_keeps_wf;

}

proof fn lemma_float_arithmetic_wf(
    state: MachineState,
    thread: int,
    instruction: Instruction,
    operation: FloatOperation,
)
    requires
        state.wf(),
        state.has_thread(thread),
    ensures
        float::float_arithmetic(
            state,
            thread,
            instruction,
            operation,
        ) matches Ok(after) ==> after.wf(),
{
    broadcast use group_keeps_wf;

}

proof fn lemma_float_to_integer_wf(state: MachineState, thread: int, instruction: Instruction)
    requires
        state.wf(),
        state.has_thread(thread),
    ensures
        float::float_to_integer(state, thread, instruction) matches Ok(after) ==> after.wf(),
{
    broadcast use group_keeps_wf;

}

proof fn lemma_float_to_string_wf(state: MachineState, thread: int, instruction: Instruction)
    requires
        state.wf(),
        state.has_thread(thread),
    ensures
        float::float_to_string(state, thread, instruction) matches Ok(after) ==> after.wf(),
{
    broadcast use group_keeps_wf;

}

proof fn lemma_float_compare_wf(
    state: MachineState,
    thread: int,
    instruction: Instruction,
    comparison: FloatComparison,
)
    requires
        state.wf(),
        state.has_thread(thread),
    ensures
        float::float_compare(
            state,
            thread,
            instruction,
            comparison,
        ) matches Ok(after) ==> after.wf(),
{
    broadcast use group_keeps_wf;

}

proof fn lemma_array_insert_wf(state: MachineState, thread: int, instruction: Instruction)
    requires
        state.wf(),
        state.has_thread(thread),
    ensures
        array::array_insert(state, thread, instruction) matches Ok(after) ==> after.wf(),
{
    broadcast use group_keeps_wf;

}

proof fn lemma_array_at_wf(state: MachineState, thread: int, instruction: Instruction)
    requires
        state.wf(),
        state.has_thread(thread),
    ensures
        array::array_at(state, thread, instruction) matches Ok(after) ==> after.wf(),
{
    broadcast use group_keeps_wf;

}

proof fn lemma_array_remove_wf(state: MachineState, thread: int, instruction: Instruction)
    requires
        state.wf(),
        state.has_thread(thread),
    ensures
        array::array_remove(state, thread, instruction) matches Ok(after) ==> after.wf(),
{
    broadcast use group_keeps_wf;

}

proof fn lemma_array_length_wf(state: MachineState, thread: int, instruction: Instruction)
    requires
        state.wf(),
        state.has_thread(thread),
    ensures
        array::array_length(state, thread, instruction) matches Ok(after) ==> after.wf(),
{
    broadcast use group_keeps_wf;

}

proof fn lemma_array_clear_wf(state: MachineState, thread: int, instruction: Instruction)
    requires
        state.wf(),
        state.has_thread(thread),
    ensures
        array::array_clear(state, thread, instruction) matches Ok(after) ==> after.wf(),
{
    broadcast use group_keeps_wf;

}

proof fn lemma_string_to_lower_wf(state: MachineState, thread: int, instruction: Instruction)
    requires
        state.wf(),
        state.has_thread(thread),
    ensures
        string::string_to_lower(state, thread, instruction) matches Ok(after) ==> after.wf(),
{
    broadcast use group_keeps_wf;

}

proof fn lemma_string_to_upper_wf(state: MachineState, thread: int, instruction: Instruction)
    requires
        state.wf(),
        state.has_thread(thread),
    ensures
        string::string_to_upper(state, thread, instruction) matches Ok(after) ==> after.wf(),
{
    broadcast use group_keeps_wf;

}

proof fn lemma_string_equals_wf(state: MachineState, thread: int, instruction: Instruction)
    requires
        state.wf(),
        state.has_thread(thread),
    ensures
        string::string_equals(state, thread, instruction) matches Ok(after) ==> after.wf(),
{
    broadcast use group_keeps_wf;

}

proof fn lemma_string_to_bytes_wf(state: MachineState, thread: int, instruction: Instruction)
    requires
        state.wf(),
        state.has_thread(thread),
    ensures
        string::string_to_bytes(state, thread, instruction) matches Ok(after) ==> after.wf(),
{
    broadcast use group_keeps_wf;

}

proof fn lemma_string_from_bytes_wf(state: MachineState, thread: int, instruction: Instruction)
    requires
        state.wf(),
        state.has_thread(thread),
    ensures
        string::string_from_bytes(state, thread, instruction) matches Ok(after) ==> after.wf(),
{
    broadcast use group_keeps_wf;

}

proof fn lemma_string_length_wf(state: MachineState, thread: int, instruction: Instruction)
    requires
        state.wf(),
        state.has_thread(thread),
    ensures
        string::string_length(state, thread, instruction) matches Ok(after) ==> after.wf(),
{
    broadcast use group_keeps_wf;

}

proof fn lemma_string_size_wf(state: MachineState, thread: int, instruction: Instruction)
    requires
        state.wf(),
        state.has_thread(thread),
    ensures
        string::string_size(state, thread, instruction) matches Ok(after) ==> after.wf(),
{
    broadcast use group_keeps_wf;

}

proof fn lemma_stdout_write_wf(state: MachineState, thread: int, instruction: Instruction)
    requires
        state.wf(),
        state.has_thread(thread),
    ensures
        stdout::stdout_write_spec(state, thread, instruction) matches Ok(after) ==> after.wf(),
{
    broadcast use group_keeps_wf;

}

proof fn lemma_stderr_write_wf(state: MachineState, thread: int, instruction: Instruction)
    requires
        state.wf(),
        state.has_thread(thread),
    ensures
        io::stderr_write(state, thread, instruction) matches Ok(after) ==> after.wf(),
{
    broadcast use group_keeps_wf;

}

proof fn lemma_stdin_read_wf(state: MachineState, thread: int, instruction: Instruction)
    requires
        state.wf(),
        state.has_thread(thread),
    ensures
        io::stdin_read(state, thread, instruction) matches Ok(after) ==> after.wf(),
{
    broadcast use group_keeps_wf;

}

proof fn lemma_stdin_read_line_wf(state: MachineState, thread: int, instruction: Instruction)
    requires
        state.wf(),
        state.has_thread(thread),
    ensures
        io::stdin_read_line(state, thread, instruction) matches Ok(after) ==> after.wf(),
{
    broadcast use group_keeps_wf;

}

proof fn lemma_file_open_wf(state: MachineState, thread: int, instruction: Instruction)
    requires
        state.wf(),
        state.has_thread(thread),
    ensures
        io::file_open(state, thread, instruction) matches Ok(after) ==> after.wf(),
{
    broadcast use group_keeps_wf;

}

proof fn lemma_file_write_wf(state: MachineState, thread: int, instruction: Instruction)
    requires
        state.wf(),
        state.has_thread(thread),
    ensures
        io::file_write(state, thread, instruction) matches Ok(after) ==> after.wf(),
{
    broadcast use group_keeps_wf;

}

proof fn lemma_file_read_wf(state: MachineState, thread: int, instruction: Instruction)
    requires
        state.wf(),
        state.has_thread(thread),
    ensures
        io::file_read(state, thread, instruction) matches Ok(after) ==> after.wf(),
{
    broadcast use group_keeps_wf;

}

proof fn lemma_file_read_line_wf(state: MachineState, thread: int, instruction: Instruction)
    requires
        state.wf(),
        state.has_thread(thread),
    ensures
        io::file_read_line(state, thread, instruction) matches Ok(after) ==> after.wf(),
{
    broadcast use group_keeps_wf;

}

proof fn lemma_file_flush_wf(state: MachineState, thread: int, instruction: Instruction)
    requires
        state.wf(),
        state.has_thread(thread),
    ensures
        io::file_flush(state, thread, instruction) matches Ok(after) ==> after.wf(),
{
    broadcast use group_keeps_wf;

}

proof fn lemma_file_size_wf(state: MachineState, thread: int, instruction: Instruction)
    requires
        state.wf(),
        state.has_thread(thread),
    ensures
        io::file_size(state, thread, instruction) matches Ok(after) ==> after.wf(),
{
    broadcast use group_keeps_wf;

}

proof fn lemma_file_seek_wf(state: MachineState, thread: int, instruction: Instruction)
    requires
        state.wf(),
        state.has_thread(thread),
    ensures
        io::file_seek(state, thread, instruction) matches Ok(after) ==> after.wf(),
{
    broadcast use group_keeps_wf;

}

proof fn lemma_run_file_fast_wf(
    state: MachineState,
    thread: int,
    code: CompiledCode,
    instruction: Instruction,
)
    requires
        state.wf(),
        state.has_thread(thread),
    ensures
        loader::run_file_fast(state, thread, code, instruction) matches Ok(after) ==> after.wf(),
{
    broadcast use group_keeps_wf;

}

/// An instruction that neither returns, jumps nor starts a thread keeps
/// the machine well formed.
pub proof fn lemma_effect_wf(
    state: MachineState,
    thread: int,
    code: CompiledCode,
    instruction: Instruction,
)
    requires
        state.wf(),
        state.has_thread(thread),
    ensures
        effect(state, thread, code, instruction) matches Ok(after) ==> after.wf(),
{
    match instruction.instruction_type {
        InstructionType::SetInteger => {
            lemma_set_integer_wf(state, thread, code, instruction);
        },
        InstructionType::SetFloat => {
            lemma_set_float_wf(state, thread, code, instruction);
        },
        InstructionType::SetString => {
            lemma_set_string_wf(state, thread, code, instruction);
        },
        InstructionType::SetObject => {
            lemma_set_object_wf(state, thread, instruction);
        },
        InstructionType::SetArray => {
            lemma_set_array_wf(state, thread, instruction);
        },
        InstructionType::SetName => {
            lemma_set_name_wf(state, thread, code, instruction);
        },
        InstructionType::GetIntegerPrototype => {
            lemma_get_singleton_wf(state, thread, instruction, integer_prototype());
        },
        InstructionType::GetFloatPrototype => {
            lemma_get_singleton_wf(state, thread, instruction, float_prototype());
        },
        InstructionType::GetStringPrototype => {
            lemma_get_singleton_wf(state, thread, instruction, string_prototype());
        },
        InstructionType::GetArrayPrototype => {
            lemma_get_singleton_wf(state, thread, instruction, array_prototype());
        },
        InstructionType::GetThreadPrototype => {
            lemma_get_singleton_wf(state, thread, instruction, thread_prototype());
        },
        InstructionType::GetTruePrototype => {
            lemma_get_singleton_wf(state, thread, instruction, true_prototype());
        },
        InstructionType::GetFalsePrototype => {
            lemma_get_singleton_wf(state, thread, instruction, false_prototype());
        },
        InstructionType::GetMethodPrototype => {
            lemma_get_singleton_wf(state, thread, instruction, method_prototype());
        },
        InstructionType::GetCompiledCodePrototype => {
            lemma_get_singleton_wf(state, thread, instruction, compiled_code_prototype());
        },
        InstructionType::GetToplevel => {
            lemma_get_singleton_wf(state, thread, instruction, top_level());
        },
        InstructionType::SetTrue => {
            lemma_set_true_wf(state, thread, instruction);
        },
        InstructionType::SetFalse => {
            lemma_set_false_wf(state, thread, instruction);
        },
        InstructionType::SetLocal => {
            lemma_set_local_wf(state, thread, instruction);
        },
        InstructionType::GetLocal => {
            lemma_get_local_wf(state, thread, instruction);
        },
        InstructionType::SetConst => {
            lemma_set_const_wf(state, thread, code, instruction);
        },
        InstructionType::GetConst => {
            lemma_get_const_wf(state, thread, code, instruction);
        },
        InstructionType::SetAttr => {
            lemma_set_attr_wf(state, thread, instruction);
        },
        InstructionType::GetAttr => {
            lemma_get_attr_wf(state, thread, instruction);
        },
        InstructionType::SetCompiledCode => {
            lemma_set_compiled_code_wf(state, thread, code, instruction);
        },
        InstructionType::Send => {
            lemma_send_wf(state, thread, code, instruction);
        },
        InstructionType::DefMethod => {
            lemma_def_method_wf(state, thread, instruction);
        },
        InstructionType::DefLiteralMethod => {
            lemma_def_literal_method_wf(state, thread, code, instruction);
        },
        InstructionType::RunCode => {
            lemma_run_code_wf(state, thread, instruction);
        },
        InstructionType::IsError => {
            lemma_is_error_wf(state, thread, instruction);
        },
        InstructionType::ErrorToString => {
            lemma_error_to_string_wf(state, thread, instruction);
        },
        InstructionType::IntegerAdd => {
            lemma_integer_binary_wf(state, thread, instruction, IntegerOperation::Add);
        },
        InstructionType::IntegerDiv => {
            lemma_integer_binary_wf(state, thread, instruction, IntegerOperation::Div);
        },
        InstructionType::IntegerMul => {
            lemma_integer_binary_wf(state, thread, instruction, IntegerOperation::Mul);
        },
        InstructionType::IntegerSub => {
            lemma_integer_binary_wf(state, thread, instruction, IntegerOperation::Sub);
        },
        InstructionType::IntegerMod => {
            lemma_integer_binary_wf(state, thread, instruction, IntegerOperation::Mod);
        },
        InstructionType::IntegerBitwiseAnd => {
            lemma_integer_binary_wf(state, thread, instruction, IntegerOperation::BitwiseAnd);
        },
        InstructionType::IntegerBitwiseOr => {
            lemma_integer_binary_wf(state, thread, instruction, IntegerOperation::BitwiseOr);
        },
        InstructionType::IntegerBitwiseXor => {
            lemma_integer_binary_wf(state, thread, instruction, IntegerOperation::BitwiseXor);
        },
        InstructionType::IntegerShiftLeft => {
            lemma_integer_binary_wf(state, thread, instruction, IntegerOperation::ShiftLeft);
        },
        InstructionType::IntegerShiftRight => {
            lemma_integer_binary_wf(state, thread, instruction, IntegerOperation::ShiftRight);
        },
        InstructionType::IntegerToFloat => {
            lemma_integer_to_float_wf(state, thread, instruction);
        },
        InstructionType::IntegerToString => {
            lemma_integer_to_string_wf(state, thread, instruction);
        },
        InstructionType::IntegerSmaller => {
            lemma_integer_compare_wf(state, thread, instruction, IntegerComparison::Smaller);
        },
        InstructionType::IntegerGreater => {
            lemma_integer_compare_wf(state, thread, instruction, IntegerComparison::Greater);
        },
        InstructionType::IntegerEquals => {
            lemma_integer_compare_wf(state, thread, instruction, IntegerComparison::Equals);
        },
        InstructionType::FloatAdd => {
            lemma_float_arithmetic_wf(state, thread, instruction, FloatOperation::Add);
        },
        InstructionType::FloatMul => {
            lemma_float_arithmetic_wf(state, thread, instruction, FloatOperation::Mul);
        },
        InstructionType::FloatDiv => {
            lemma_float_arithmetic_wf(state, thread, instruction, FloatOperation::Div);
        },
        InstructionType::FloatSub => {
            lemma_float_arithmetic_wf(state, thread, instruction, FloatOperation::Sub);
        },
        InstructionType::FloatMod => {
            lemma_float_arithmetic_wf(state, thread, instruction, FloatOperation::Mod);
        },
        InstructionType::FloatToInteger => {
            lemma_float_to_integer_wf(state, thread, instruction);
        },
        InstructionType::FloatToString => {
            lemma_float_to_string_wf(state, thread, instruction);
        },
        InstructionType::FloatSmaller => {
            lemma_float_compare_wf(state, thread, instruction, FloatComparison::Smaller);
        },
        InstructionType::FloatGreater => {
            lemma_float_compare_wf(state, thread, instruction, FloatComparison::Greater);
        },
        InstructionType::FloatEquals => {
            lemma_float_compare_wf(state, thread, instruction, FloatComparison::Equals);
        },
        InstructionType::ArrayInsert => {
            lemma_array_insert_wf(state, thread, instruction);
        },
        InstructionType::ArrayAt => {
            lemma_array_at_wf(state, thread, instruction);
        },
        InstructionType::ArrayRemove => {
            lemma_array_remove_wf(state, thread, instruction);
        },
        InstructionType::ArrayLength => {
            lemma_array_length_wf(state, thread, instruction);
        },
        InstructionType::ArrayClear => {
            lemma_array_clear_wf(state, thread, instruction);
        },
        InstructionType::StringToLower => {
            lemma_string_to_lower_wf(state, thread, instruction);
        },
        InstructionType::StringToUpper => {
            lemma_string_to_upper_wf(state, thread, instruction);
        },
        InstructionType::StringEquals => {
            lemma_string_equals_wf(state, thread, instruction);
        },
        InstructionType::StringToBytes => {
            lemma_string_to_bytes_wf(state, thread, instruction);
        },
        InstructionType::StringFromBytes => {
            lemma_string_from_bytes_wf(state, thread, instruction);
        },
        InstructionType::StringLength => {
            lemma_string_length_wf(state, thread, instruction);
        },
        InstructionType::StringSize => {
            lemma_string_size_wf(state, thread, instruction);
        },
        InstructionType::StdoutWrite => {
            lemma_stdout_write_wf(state, thread, instruction);
        },
        InstructionType::StderrWrite => {
            lemma_stderr_write_wf(state, thread, instruction);
        },
        InstructionType::StdinRead => {
            lemma_stdin_read_wf(state, thread, instruction);
        },
        InstructionType::StdinReadLine => {
            lemma_stdin_read_line_wf(state, thread, instruction);
        },
        InstructionType::FileOpen => {
            lemma_file_open_wf(state, thread, instruction);
        },
        InstructionType::FileWrite => {
            lemma_file_write_wf(state, thread, instruction);
        },
        InstructionType::FileRead => {
            lemma_file_read_wf(state, thread, instruction);
        },
        InstructionType::FileReadLine => {
            lemma_file_read_line_wf(state, thread, instruction);
        },
        InstructionType::FileFlush => {
            lemma_file_flush_wf(state, thread, instruction);
        },
        InstructionType::FileSize => {
            lemma_file_size_wf(state, thread, instruction);
        },
        InstructionType::FileSeek => {
            lemma_file_seek_wf(state, thread, instruction);
        },
        InstructionType::RunFileFast => {
            lemma_run_file_fast_wf(state, thread, code, instruction);
        },
        _ => {},
    }
}

/// Every instruction keeps the machine well formed.
pub proof fn lemma_execute_wf(
    state: MachineState,
    thread: int,
    code: CompiledCode,
    instruction: Instruction,
)
    requires
        state.wf(),
        state.has_thread(thread),
    ensures
        execute(state, thread, code, instruction) matches Ok((after, _)) ==> after.wf()
            && after.has_thread(thread),
{
    broadcast use group_keeps_wf;

    lemma_effect_wf(state, thread, code, instruction);
    lemma_effect_advances(state, thread, code, instruction);
}

/// Every step of a thread keeps the machine well formed: every handle in
/// it refers to an object of its heap, every thread has a frame, and every
/// prototype is older than the objects that link to it, so that no
/// prototype chain has a cycle.
pub proof fn lemma_step_wf(state: MachineState, thread: int)
    requires
        state.wf(),
        state.has_thread(thread),
    ensures
        step(state, thread).0.wf(),
        step(state, thread).0.has_thread(thread),
{
    broadcast use group_keeps_wf;

    let current = state.threads[thread];
    let frame = current.current();
    if !current.should_stop && current.pending is None && frame.index
        < frame.code.instructions@.len() {
        let advanced = state.jump(thread, (frame.index + 1) as usize);
        lemma_execute_wf(
            advanced,
            thread,
            frame.code,
            frame.code.instructions@[frame.index as int],
        );
    }
}

/// Running a thread keeps the machine well formed.
pub proof fn lemma_run_wf(state: MachineState, thread: int, fuel: nat)
    requires
        state.wf(),
        state.has_thread(thread),
    ensures
        run(state, thread, fuel).0.wf(),
        run(state, thread, fuel).0.has_thread(thread),
        run(state, thread, fuel).1 matches Ok(Progress::Finished(Some(value))) ==> run(
            state,
            thread,
            fuel,
        ).0.valid(value),
    decreases fuel,
{
    broadcast use group_keeps_wf;

    if fuel > 0 {
        lemma_step_wf(state, thread);
        let (after, outcome) = step(state, thread);
        if outcome == Ok::<Progress, FatalSpec>(Progress::Running) {
            lemma_run_wf(after, thread, (fuel - 1) as nat);
        }
    }
}

/// An answer from the host keeps the machine well formed.
pub proof fn lemma_resume_wf(state: MachineState, thread: int, reply: ReplySpec)
    requires
        state.wf(),
        state.has_thread(thread),
    ensures
        resume(state, thread, reply) matches Ok(after) ==> after.wf(),
{
    broadcast use group_keeps_wf;

    lemma_same_frames_wf(
        state,
        thread,
        ThreadState { pending: None, ..state.threads[thread] },
    );
}

/// Running a thread, and ending it when it ends or fails, keeps the
/// machine well formed.
pub proof fn lemma_run_thread_wf(state: MachineState, thread: int, fuel: nat)
    requires
        state.wf(),
        state.has_thread(thread),
    ensures
        run_thread(state, thread, fuel).0.wf(),
{
    broadcast use group_keeps_wf;

    lemma_run_wf(state, thread, fuel);
    let (after, outcome) = run(state, thread, fuel);
    lemma_retire_wf(after, thread);
    let retired = after.retire(thread);
    match outcome {
        Ok(Progress::Finished(value)) => {
            lemma_same_frames_wf(
                retired,
                thread,
                ThreadState { value, ..retired.threads[thread] },
            );
        },
        Ok(_) => {},
        Err(_) => {
            let failed = MachineState { failed: true, ..retired };
            assert forall|t: int| 0 <= t < failed.threads.len() implies (
            #[trigger] failed.threads[t]).wf(failed.heap.len()) by {
                assert(retired.threads[t].wf(retired.heap.len()));
            }
            lemma_stop_listed_wf(failed, failed.live.len() as int);
        },
    }
}

} // verus!
