//! The mathematical state of a virtual machine, and the operations on it
//! from which the meaning of every instruction is built.
use vstd::prelude::*;
use crate::call_frame::FrameState;
use crate::compiled_code::CompiledCode;
use crate::host::RequestSpec;
use crate::instruction::Instruction;
use crate::memory_manager::{
    false_object, heap_wf, initial_heap, lemma_allocate_wf, lemma_more_threads_wf,
    lemma_update_wf, next_pointer, thread_prototype, true_object, Heap,
};
use crate::object::ObjectState;
use crate::object_pointer::{pointers_valid, ObjectPointer};
use crate::object_value::Value;
use crate::thread::ThreadState;
use crate::virtual_machine_result::{Failure, Fatal, FatalSpec, Kind};

verus! {

/// Everything a virtual machine is, as mathematics.
#[verifier::ext_equal]
pub struct MachineState {
    /// The objects, in allocation order.
    pub heap: Heap,
    /// The threads, in the order they were created.
    pub threads: Seq<ThreadState>,
    /// The thread objects of the threads that have not ended.
    pub live: Seq<ObjectPointer>,
    /// Whether a fatal error has occurred.
    pub failed: bool,
    /// The paths of the files that have been run.
    pub executed: Set<Seq<char>>,
}

impl MachineState {
    /// The state of a machine that has not run anything.
    pub open spec fn initial() -> MachineState {
        MachineState {
            heap: initial_heap(),
            threads: Seq::empty(),
            live: Seq::empty(),
            failed: false,
            executed: Set::empty(),
        }
    }

    /// Whether the heap and the threads are well formed and refer only to
    /// objects and threads that exist.
    pub open spec fn wf(self) -> bool {
        &&& heap_wf(self.heap, self.threads.len())
        &&& forall|t: int|
            0 <= t < self.threads.len() ==> (#[trigger] self.threads[t]).wf(self.heap.len())
        &&& pointers_valid(self.live, self.heap.len())
    }

    pub open spec fn has_thread(self, thread: int) -> bool {
        0 <= thread < self.threads.len()
    }

    pub open spec fn valid(self, object: ObjectPointer) -> bool {
        object.0 < self.heap.len()
    }

    pub open spec fn object(self, object: ObjectPointer) -> ObjectState {
        self.heap[object.0 as int]
    }

    pub open spec fn with_thread(self, thread: int, state: ThreadState) -> MachineState {
        MachineState { threads: self.threads.update(thread, state), ..self }
    }

    pub open spec fn with_object(self, object: ObjectPointer, state: ObjectState) -> MachineState {
        MachineState { heap: self.heap.update(object.0 as int, state), ..self }
    }

    /// The object in the register that the argument at `position` names.
    pub open spec fn operand(
        self,
        thread: int,
        instruction: Instruction,
        position: usize,
    ) -> Result<ObjectPointer, FatalSpec> {
        match instruction.spec_arg(position) {
            Ok(slot) => self.threads[thread].get_register(slot),
            Err(error) => Err(error),
        }
    }

    /// The state after `slot` of the thread's innermost frame is written.
    pub open spec fn bind(self, thread: int, slot: usize, object: ObjectPointer) -> MachineState {
        self.with_thread(thread, self.threads[thread].set_register(slot, object))
    }

    /// The state after an object is allocated. Its handle is
    /// `next_pointer(self.heap)`.
    pub open spec fn allocate(
        self,
        value: Value,
        prototype: Option<ObjectPointer>,
    ) -> MachineState {
        MachineState { heap: self.heap.push(ObjectState::fresh(value, prototype)), ..self }
    }

    /// The state after an object is allocated and `slot` is bound to it.
    pub open spec fn bind_new(
        self,
        thread: int,
        slot: usize,
        value: Value,
        prototype: Option<ObjectPointer>,
    ) -> MachineState {
        self.allocate(value, prototype).bind(thread, slot, next_pointer(self.heap))
    }

    /// The state after `slot` is bound to the true or the false object.
    pub open spec fn bind_flag(self, thread: int, slot: usize, flag: bool) -> MachineState {
        self.bind(
            thread,
            slot,
            if flag {
                true_object()
            } else {
                false_object()
            },
        )
    }

    /// The state after the thread has entered a frame for `code` with the
    /// arguments as its first locals.
    pub open spec fn enter(
        self,
        thread: int,
        code: CompiledCode,
        arguments: Seq<ObjectPointer>,
        result_slot: Option<usize>,
    ) -> MachineState {
        self.with_thread(
            thread,
            self.threads[thread].push_call_frame(
                FrameState { locals: arguments, ..FrameState::from_code(code, result_slot) },
            ),
        )
    }

    /// The integer that an object holds, or the error that reports that it holds none.
    pub open spec fn integer_of(self, object: ObjectPointer) -> Result<i64, FatalSpec> {
        match self.object(object).value {
            Value::Integer(value) => Ok(value),
            _ => Err(Failure::TypeMismatch(Kind::Integer)),
        }
    }

    /// The bits of the float that an object holds.
    pub open spec fn float_of(self, object: ObjectPointer) -> Result<u64, FatalSpec> {
        match self.object(object).value {
            Value::Float(bits) => Ok(bits),
            _ => Err(Failure::TypeMismatch(Kind::Float)),
        }
    }

    /// The text of the string that an object holds.
    pub open spec fn string_of(self, object: ObjectPointer) -> Result<Seq<char>, FatalSpec> {
        match self.object(object).value {
            Value::String(text) => Ok(text),
            _ => Err(Failure::TypeMismatch(Kind::String)),
        }
    }

    /// The items of the array that an object holds.
    pub open spec fn array_of(self, object: ObjectPointer) -> Result<
        Seq<ObjectPointer>,
        FatalSpec,
    > {
        match self.object(object).value {
            Value::Array(items) => Ok(items),
            _ => Err(Failure::TypeMismatch(Kind::Array)),
        }
    }

    /// The token of the file that an object holds.
    pub open spec fn file_of(self, object: ObjectPointer) -> Result<u64, FatalSpec> {
        match self.object(object).value {
            Value::File(token) => Ok(token),
            _ => Err(Failure::TypeMismatch(Kind::File)),
        }
    }

    /// The compiled code that an object wraps.
    pub open spec fn code_of(self, object: ObjectPointer) -> Result<CompiledCode, FatalSpec> {
        match self.object(object).value {
            Value::CompiledCode(code) => Ok(code),
            _ => Err(Failure::TypeMismatch(Kind::CompiledCode)),
        }
    }

    /// The text of the error that an object holds.
    pub open spec fn error_of(self, object: ObjectPointer) -> Result<Seq<char>, FatalSpec> {
        match self.object(object).value {
            Value::Error(text) => Ok(text),
            _ => Err(Failure::TypeMismatch(Kind::Error)),
        }
    }

    /// The state after a local variable of the thread's innermost frame is
    /// assigned, or the error that reports that there is no such local.
    pub open spec fn set_local(self, thread: int, index: usize, object: ObjectPointer) -> Result<
        MachineState,
        FatalSpec,
    > {
        if index < self.threads[thread].current().locals.len() {
            Ok(self.with_thread(thread, self.threads[thread].set_local(index, object)))
        } else {
            Err(Failure::UndefinedLocal(index))
        }
    }

    /// The objects in the registers that the `amount` arguments from
    /// position `offset` on name, or the first error that reading them meets.
    pub open spec fn collect_arguments(
        self,
        thread: int,
        instruction: Instruction,
        offset: usize,
        amount: usize,
    ) -> Result<Seq<ObjectPointer>, FatalSpec>
        decreases amount,
    {
        if amount == 0 {
            Ok(Seq::empty())
        } else {
            match self.collect_arguments(thread, instruction, offset, (amount - 1) as usize) {
                Err(error) => Err(error),
                Ok(objects) => match self.operand(
                    thread,
                    instruction,
                    (offset + amount - 1) as usize,
                ) {
                    Err(error) => Err(error),
                    Ok(object) => Ok(objects.push(object)),
                },
            }
        }
    }

    /// The state after a thread for `code` has been created: the thread is
    /// the last of the thread table, and a new pinned object, the last of
    /// the heap, wraps it and is listed among the live threads.
    pub open spec fn spawn(self, code: CompiledCode, main: bool) -> MachineState {
        MachineState {
            heap: self.heap.push(
                ObjectState {
                    pinned: true,
                    ..ObjectState::fresh(
                        Value::Thread(self.threads.len() as usize),
                        Some(thread_prototype()),
                    )
                },
            ),
            threads: self.threads.push(
                ThreadState {
                    object: Some(next_pointer(self.heap)),
                    ..ThreadState::from_code(code, main)
                },
            ),
            live: self.live.push(next_pointer(self.heap)),
            ..self
        }
    }

    /// The state after a path has been added to the files that have been run.
    pub open spec fn mark_executed(self, path: Seq<char>) -> MachineState {
        MachineState { executed: self.executed.insert(path), ..self }
    }

    /// The state after the thread's innermost frame has moved to the
    /// instruction at `index`.
    pub open spec fn jump(self, thread: int, index: usize) -> MachineState {
        self.with_thread(thread, self.threads[thread].set_index(index))
    }

    /// The state after a conditional branch: the innermost frame moves to
    /// the target if there is one and it is not behind the next instruction.
    pub open spec fn branch(self, thread: int, target: Option<usize>) -> MachineState {
        match target {
            Some(index) => if index >= self.threads[thread].current().index {
                self.jump(thread, index)
            } else {
                self
            },
            None => self,
        }
    }

    /// The state after the thread's innermost frame has recorded the value
    /// it returns.
    pub open spec fn record_return(
        self,
        thread: int,
        value: Option<ObjectPointer>,
    ) -> MachineState {
        self.with_thread(thread, self.threads[thread].set_return_value(value))
    }

    /// The state after the thread has left its innermost frame: the value
    /// the frame recorded, if any, is in the register of the calling frame
    /// that the call named.
    pub open spec fn leave(self, thread: int) -> MachineState {
        let frame = self.threads[thread].current();
        let popped = self.threads[thread].pop_call_frame();
        match (frame.return_value, frame.result_slot) {
            (Some(value), Some(slot)) => self.with_thread(thread, popped.set_register(slot, value)),
            _ => self.with_thread(thread, popped),
        }
    }

    /// The state after the thread has dropped every frame but its first and
    /// the request it waited on.
    pub open spec fn unwind(self, thread: int) -> MachineState {
        self.with_thread(
            thread,
            ThreadState {
                frames: self.threads[thread].frames.take(1),
                pending: None,
                ..self.threads[thread]
            },
        )
    }

    /// The state after the thread has left a request for the host.
    pub open spec fn wait(self, thread: int, request: RequestSpec) -> MachineState {
        self.with_thread(
            thread,
            ThreadState { pending: Some(request), ..self.threads[thread] },
        )
    }
}

/// Whether a handler did what its specification states: on success the
/// machine is in the stated state, and on a fatal error it is unchanged and
/// the error is the stated one.
pub open spec fn handled<A>(
    before: MachineState,
    after: MachineState,
    result: Result<A, Fatal>,
    expected: Result<(MachineState, A), FatalSpec>,
) -> bool {
    match expected {
        Ok((state, value)) => result == Ok::<A, Fatal>(value) && after == state,
        Err(error) => result is Err && result->Err_0@ == error && after == before,
    }
}

/// Whether a handler that yields nothing did what its specification states.
pub open spec fn done(
    before: MachineState,
    after: MachineState,
    result: Result<(), Fatal>,
    expected: Result<MachineState, FatalSpec>,
) -> bool {
    match expected {
        Ok(state) => result is Ok && after == state,
        Err(error) => result is Err && result->Err_0@ == error && after == before,
    }
}

/// Once reading an argument fails, reading more arguments fails the same way.
pub proof fn lemma_collect_fails(
    state: MachineState,
    thread: int,
    instruction: Instruction,
    offset: usize,
    taken: usize,
    amount: usize,
)
    requires
        taken < amount,
        state.collect_arguments(thread, instruction, offset, taken) is Ok,
        offset + taken <= usize::MAX,
        state.operand(thread, instruction, (offset + taken) as usize) is Err,
    ensures
        state.collect_arguments(thread, instruction, offset, amount) == Err::<
            Seq<ObjectPointer>,
            FatalSpec,
        >(state.operand(thread, instruction, (offset + taken) as usize)->Err_0),
    decreases amount - taken,
{
    if amount > taken + 1 {
        lemma_collect_fails(state, thread, instruction, offset, taken, (amount - 1) as usize);
    }
}

/// A frame that refers only to existing objects still does when the heap grows.
pub proof fn lemma_frame_wf_grows(frame: FrameState, objects: nat, more: nat)
    requires
        frame.wf(objects),
        objects <= more,
    ensures
        frame.wf(more),
{
}

/// A thread that refers only to existing objects still does when the heap grows.
pub proof fn lemma_thread_wf_grows(thread: ThreadState, objects: nat, more: nat)
    requires
        thread.wf(objects),
        objects <= more,
    ensures
        thread.wf(more),
{
    assert forall|i: int| 0 <= i < thread.frames.len() implies (#[trigger] thread.frames[i]).wf(
        more,
    ) by {
        lemma_frame_wf_grows(thread.frames[i], objects, more);
    }
}

/// Allocating a well-formed object keeps a machine well formed.
pub proof fn lemma_push_object_wf(state: MachineState, object: ObjectState)
    requires
        state.wf(),
        object.wf(state.heap.len() as int, state.heap.len() + 1, state.threads.len()),
    ensures
        (MachineState { heap: state.heap.push(object), ..state }).wf(),
{
    let after = MachineState { heap: state.heap.push(object), ..state };
    lemma_allocate_wf(state.heap, state.threads.len(), object);
    assert forall|t: int| 0 <= t < after.threads.len() implies (#[trigger] after.threads[t]).wf(
        after.heap.len(),
    ) by {
        lemma_thread_wf_grows(state.threads[t], state.heap.len(), after.heap.len());
    }
}

/// Replacing an object by a well-formed one keeps a machine well formed.
pub proof fn lemma_with_object_wf(state: MachineState, object: ObjectPointer, value: ObjectState)
    requires
        state.wf(),
        state.valid(object),
        value.wf(object.0 as int, state.heap.len(), state.threads.len()),
    ensures
        state.with_object(object, value).wf(),
{
    lemma_update_wf(state.heap, state.threads.len(), object.0 as int, value);
    let after = state.with_object(object, value);
    assert forall|t: int| 0 <= t < after.threads.len() implies (#[trigger] after.threads[t]).wf(
        after.heap.len(),
    ) by {
        assert(state.threads[t].wf(state.heap.len()));
    }
}

/// Replacing a thread by a well-formed one keeps a machine well formed.
pub proof fn lemma_with_thread_wf(state: MachineState, thread: int, value: ThreadState)
    requires
        state.wf(),
        state.has_thread(thread),
        value.wf(state.heap.len()),
    ensures
        state.with_thread(thread, value).wf(),
{
    let after = state.with_thread(thread, value);
    assert forall|t: int| 0 <= t < after.threads.len() implies (#[trigger] after.threads[t]).wf(
        after.heap.len(),
    ) by {
        if t != thread {
            assert(state.threads[t].wf(state.heap.len()));
        }
    }
}

/// Replacing the innermost frame by a well-formed one keeps a thread well formed.
pub proof fn lemma_with_current_wf(thread: ThreadState, frame: FrameState, objects: nat)
    requires
        thread.wf(objects),
        frame.wf(objects),
    ensures
        thread.with_current(frame).wf(objects),
{
    let after = thread.with_current(frame);
    assert forall|i: int| 0 <= i < after.frames.len() implies (#[trigger] after.frames[i]).wf(
        objects,
    ) by {
        if i != thread.frames.len() - 1 {
            assert(thread.frames[i].wf(objects));
        }
    }
}

/// Binding a register to an existing object keeps a machine well formed.
pub proof fn lemma_bind_wf(state: MachineState, thread: int, slot: usize, object: ObjectPointer)
    requires
        state.wf(),
        state.has_thread(thread),
        state.valid(object),
    ensures
        state.bind(thread, slot, object).wf(),
{
    let before = state.threads[thread];
    assert(before.wf(state.heap.len()));
    assert(before.current().wf(state.heap.len()));
    let frame = FrameState {
        registers: before.current().registers.insert(slot, object),
        ..before.current()
    };
    lemma_with_current_wf(before, frame, state.heap.len());
    lemma_with_thread_wf(state, thread, before.set_register(slot, object));
}

/// A register that was read holds an existing object.
pub proof fn lemma_register_valid(state: MachineState, thread: int, slot: usize)
    requires
        state.wf(),
        state.has_thread(thread),
    ensures
        state.threads[thread].register(slot) matches Some(object) ==> state.valid(object),
{
    let current = state.threads[thread];
    assert(current.wf(state.heap.len()));
    assert(current.current().wf(state.heap.len()));
}

/// Entering a frame whose arguments exist keeps a machine well formed.
pub proof fn lemma_enter_wf(
    state: MachineState,
    thread: int,
    code: CompiledCode,
    arguments: Seq<ObjectPointer>,
    result_slot: Option<usize>,
)
    requires
        state.wf(),
        state.has_thread(thread),
        pointers_valid(arguments, state.heap.len()),
    ensures
        state.enter(thread, code, arguments, result_slot).wf(),
{
    let before = state.threads[thread];
    let frame = FrameState { locals: arguments, ..FrameState::from_code(code, result_slot) };
    let after = before.push_call_frame(frame);
    assert(before.wf(state.heap.len()));
    assert forall|i: int| 0 <= i < after.frames.len() implies (#[trigger] after.frames[i]).wf(
        state.heap.len(),
    ) by {
        if i < before.frames.len() {
            assert(before.frames[i].wf(state.heap.len()));
        }
    }
    lemma_with_thread_wf(state, thread, after);
}

/// Creating a thread keeps a machine well formed.
pub proof fn lemma_spawn_wf(state: MachineState, code: CompiledCode, main: bool)
    requires
        state.wf(),
    ensures
        state.spawn(code, main).wf(),
{
    let after = state.spawn(code, main);
    let object = ObjectState {
        pinned: true,
        ..ObjectState::fresh(Value::Thread(state.threads.len() as usize), Some(thread_prototype()))
    };
    lemma_more_threads_wf(state.heap, state.threads.len(), state.threads.len() + 1);
    lemma_allocate_wf(state.heap, state.threads.len() + 1, object);
    assert forall|t: int| 0 <= t < after.threads.len() implies (#[trigger] after.threads[t]).wf(
        after.heap.len(),
    ) by {
        if t < state.threads.len() {
            lemma_thread_wf_grows(state.threads[t], state.heap.len(), after.heap.len());
        } else {
            let thread = after.threads[t];
            assert forall|i: int| 0 <= i < thread.frames.len() implies (
            #[trigger] thread.frames[i]).wf(after.heap.len()) by {}
        }
    }
    assert forall|i: int| 0 <= i < after.live.len() implies (#[trigger] after.live[i]).0
        < after.heap.len() by {
        if i < state.live.len() {
            assert(state.live[i].0 < state.heap.len());
        }
    }
}

/// Changing a thread's flags, value or request keeps a machine well formed.
pub proof fn lemma_same_frames_wf(state: MachineState, thread: int, value: ThreadState)
    requires
        state.wf(),
        state.has_thread(thread),
        value.frames == state.threads[thread].frames,
        value.value matches Some(object) ==> state.valid(object),
        value.object matches Some(object) ==> state.valid(object),
    ensures
        state.with_thread(thread, value).wf(),
{
    let before = state.threads[thread];
    assert(before.wf(state.heap.len()));
    assert forall|i: int| 0 <= i < value.frames.len() implies (#[trigger] value.frames[i]).wf(
        state.heap.len(),
    ) by {
        assert(before.frames[i].wf(state.heap.len()));
    }
    lemma_with_thread_wf(state, thread, value);
}

/// Moving within the innermost frame keeps a machine well formed.
pub proof fn lemma_jump_wf(state: MachineState, thread: int, index: usize)
    requires
        state.wf(),
        state.has_thread(thread),
    ensures
        state.jump(thread, index).wf(),
{
    let before = state.threads[thread];
    assert(before.wf(state.heap.len()));
    assert(before.current().wf(state.heap.len()));
    lemma_with_current_wf(before, FrameState { index, ..before.current() }, state.heap.len());
    lemma_with_thread_wf(state, thread, before.set_index(index));
}

/// Recording an existing object as the value a frame returns keeps a
/// machine well formed.
pub proof fn lemma_record_return_wf(state: MachineState, thread: int, value: Option<ObjectPointer>)
    requires
        state.wf(),
        state.has_thread(thread),
        value matches Some(object) ==> state.valid(object),
    ensures
        state.record_return(thread, value).wf(),
{
    let before = state.threads[thread];
    assert(before.wf(state.heap.len()));
    assert(before.current().wf(state.heap.len()));
    lemma_with_current_wf(
        before,
        FrameState { return_value: value, ..before.current() },
        state.heap.len(),
    );
    lemma_with_thread_wf(state, thread, before.set_return_value(value));
}

/// Leaving a frame that is not the only one keeps a machine well formed.
pub proof fn lemma_leave_wf(state: MachineState, thread: int)
    requires
        state.wf(),
        state.has_thread(thread),
        state.threads[thread].frames.len() > 1,
    ensures
        state.leave(thread).wf(),
{
    let before = state.threads[thread];
    let frame = before.current();
    let popped = before.pop_call_frame();
    assert(before.wf(state.heap.len()));
    assert(frame.wf(state.heap.len()));
    assert forall|i: int| 0 <= i < popped.frames.len() implies (#[trigger] popped.frames[i]).wf(
        state.heap.len(),
    ) by {
        assert(before.frames[i].wf(state.heap.len()));
    }
    assert(popped.wf(state.heap.len()));
    match (frame.return_value, frame.result_slot) {
        (Some(value), Some(slot)) => {
            assert(popped.current().wf(state.heap.len()));
            lemma_with_current_wf(
                popped,
                FrameState {
                    registers: popped.current().registers.insert(slot, value),
                    ..popped.current()
                },
                state.heap.len(),
            );
            lemma_with_thread_wf(state, thread, popped.set_register(slot, value));
        },
        _ => {
            lemma_with_thread_wf(state, thread, popped);
        },
    }
}

/// Dropping every frame but the first keeps a machine well formed.
pub proof fn lemma_unwind_wf(state: MachineState, thread: int)
    requires
        state.wf(),
        state.has_thread(thread),
    ensures
        state.unwind(thread).wf(),
{
    let before = state.threads[thread];
    let after = ThreadState { frames: before.frames.take(1), pending: None, ..before };
    assert(before.wf(state.heap.len()));
    assert forall|i: int| 0 <= i < after.frames.len() implies (#[trigger] after.frames[i]).wf(
        state.heap.len(),
    ) by {
        assert(before.frames[i].wf(state.heap.len()));
    }
    lemma_with_thread_wf(state, thread, after);
}

} // verus!
