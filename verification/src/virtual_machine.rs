//! The virtual machine: its state, and the operations the instruction
//! handlers are made of.
use vstd::prelude::*;
use crate::call_frame::{CallFrame, FrameState};
use crate::compiled_code::{share, shared, RcCompiledCode};
use crate::host::Request;
use crate::instruction::Instruction;
use crate::memory_manager::{
    array_prototype, compiled_code_prototype, false_object, false_prototype, file_prototype,
    float_prototype, integer_prototype, method_prototype, next_pointer,
    string_prototype, thread_prototype, top_level, true_object, true_prototype, MemoryManager,
};
use crate::object::{Object, ObjectState};
use crate::object_pointer::{pointers_valid, ObjectPointer};
use crate::object_value::{ObjectValue, Value};
use crate::state::{
    done, lemma_bind_wf, lemma_enter_wf, lemma_jump_wf, lemma_leave_wf, lemma_push_object_wf,
    lemma_record_return_wf, lemma_register_valid, lemma_spawn_wf, lemma_unwind_wf,
    lemma_collect_fails, lemma_with_current_wf, lemma_with_object_wf, lemma_with_thread_wf,
    MachineState,
};
use crate::thread::{Thread, ThreadState};
use crate::thread_list::ThreadList;
use crate::virtual_machine_result::{agrees, Failure, Fatal, FatalSpec, Kind};

verus! {

/// The set of paths that a list of paths holds.
pub open spec fn executed_set(files: Seq<String>) -> Set<Seq<char>> {
    Set::new(
        |path: Seq<char>| exists|i: int| 0 <= i < files.len() && (#[trigger] files[i])@ == path,
    )
}

/// A single virtual machine. Machines share nothing, so any number of them
/// can run in one process.
pub struct VirtualMachine {
    /// The heap.
    pub memory_manager: MemoryManager,
    /// Every thread the machine has created, by index.
    pub contexts: Vec<Thread>,
    /// The thread objects of the threads that have not ended.
    pub threads: ThreadList,
    /// Whether a fatal error has occurred.
    pub exit_status: Result<(), ()>,
    /// The paths of the files that have been run.
    pub executed_files: Vec<String>,
}

impl View for VirtualMachine {
    type V = MachineState;

    open spec fn view(&self) -> MachineState {
        MachineState {
            heap: self.memory_manager@,
            threads: self.contexts@.map_values(|thread: Thread| thread@),
            live: self.threads@,
            failed: self.exit_status is Err,
            executed: executed_set(self.executed_files@),
        }
    }
}

impl VirtualMachine {
    /// A machine that has not run anything.
    pub fn new() -> (machine: VirtualMachine)
        ensures
            machine@ == MachineState::initial(),
            machine@.wf(),
    {
        let machine = VirtualMachine {
            memory_manager: MemoryManager::new(),
            contexts: Vec::new(),
            threads: ThreadList::new(),
            exit_status: Ok(()),
            executed_files: Vec::new(),
        };
        assert(machine@ =~~= MachineState::initial());
        machine
    }

    pub fn integer_prototype(&self) -> (object: ObjectPointer)
        requires
            self@.wf(),
        ensures
            object == integer_prototype(),
            self@.valid(object),
    {
        self.memory_manager.integer_prototype()
    }

    pub fn float_prototype(&self) -> (object: ObjectPointer)
        requires
            self@.wf(),
        ensures
            object == float_prototype(),
            self@.valid(object),
    {
        self.memory_manager.float_prototype()
    }

    pub fn string_prototype(&self) -> (object: ObjectPointer)
        requires
            self@.wf(),
        ensures
            object == string_prototype(),
            self@.valid(object),
    {
        self.memory_manager.string_prototype()
    }

    pub fn array_prototype(&self) -> (object: ObjectPointer)
        requires
            self@.wf(),
        ensures
            object == array_prototype(),
            self@.valid(object),
    {
        self.memory_manager.array_prototype()
    }

    pub fn thread_prototype(&self) -> (object: ObjectPointer)
        requires
            self@.wf(),
        ensures
            object == thread_prototype(),
            self@.valid(object),
    {
        self.memory_manager.thread_prototype()
    }

    pub fn true_prototype(&self) -> (object: ObjectPointer)
        requires
            self@.wf(),
        ensures
            object == true_prototype(),
            self@.valid(object),
    {
        self.memory_manager.true_prototype()
    }

    pub fn false_prototype(&self) -> (object: ObjectPointer)
        requires
            self@.wf(),
        ensures
            object == false_prototype(),
            self@.valid(object),
    {
        self.memory_manager.false_prototype()
    }

    pub fn file_prototype(&self) -> (object: ObjectPointer)
        requires
            self@.wf(),
        ensures
            object == file_prototype(),
            self@.valid(object),
    {
        self.memory_manager.file_prototype()
    }

    pub fn method_prototype(&self) -> (object: ObjectPointer)
        requires
            self@.wf(),
        ensures
            object == method_prototype(),
            self@.valid(object),
    {
        self.memory_manager.method_prototype()
    }

    pub fn compiled_code_prototype(&self) -> (object: ObjectPointer)
        requires
            self@.wf(),
        ensures
            object == compiled_code_prototype(),
            self@.valid(object),
    {
        self.memory_manager.compiled_code_prototype()
    }

    pub fn false_object(&self) -> (object: ObjectPointer)
        requires
            self@.wf(),
        ensures
            object == false_object(),
            self@.valid(object),
    {
        self.memory_manager.false_object()
    }

    pub fn true_object(&self) -> (object: ObjectPointer)
        requires
            self@.wf(),
        ensures
            object == true_object(),
            self@.valid(object),
    {
        self.memory_manager.true_object()
    }

    pub fn top_level(&self) -> (object: ObjectPointer)
        requires
            self@.wf(),
        ensures
            object == top_level(),
            self@.valid(object),
    {
        self.memory_manager.top_level()
    }

    /// The object behind a handle.
    pub fn object(&self, pointer: ObjectPointer) -> (object: &Object)
        requires
            self@.valid(pointer),
        ensures
            object@ == self@.object(pointer),
    {
        self.memory_manager.object(pointer)
    }

    /// Allocates an object with the given value and prototype.
    pub fn allocate(&mut self, value: ObjectValue, prototype: ObjectPointer) -> (pointer:
        ObjectPointer)
        requires
            old(self)@.wf(),
            old(self)@.valid(prototype),
            value@.wf(old(self)@.heap.len(), old(self)@.threads.len()),
        ensures
            final(self)@ == old(self)@.allocate(value@, Some(prototype)),
            final(self)@.wf(),
            pointer == next_pointer(old(self)@.heap),
            final(self)@.valid(pointer),
    {
        proof {
            lemma_push_object_wf(self@, ObjectState::fresh(value@, Some(prototype)));
        }
        let pointer = self.memory_manager.allocate(value, prototype);
        assert(self@ =~~= old(self)@.allocate(value@, Some(prototype)));
        pointer
    }

    /// Allocates an error object: an error value and no prototype.
    pub fn allocate_error(&mut self, text: String) -> (pointer: ObjectPointer)
        requires
            old(self)@.wf(),
        ensures
            final(self)@ == old(self)@.allocate(Value::Error(text@), None),
            final(self)@.wf(),
            pointer == next_pointer(old(self)@.heap),
            final(self)@.valid(pointer),
    {
        proof {
            lemma_push_object_wf(self@, ObjectState::fresh(Value::Error(text@), None));
        }
        let pointer = self.memory_manager.allocate_error(text);
        assert(self@ =~~= old(self)@.allocate(Value::Error(text@), None));
        pointer
    }

    /// Reads the register that the argument at `position` names.
    pub fn operand(&self, thread: usize, instruction: &Instruction, position: usize) -> (result:
        Result<ObjectPointer, Fatal>)
        requires
            self@.wf(),
            self@.has_thread(thread as int),
        ensures
            agrees(result, self@.operand(thread as int, *instruction, position)),
            result matches Ok(object) ==> self@.valid(object),
    {
        let slot = instruction.arg(position)?;
        proof {
            lemma_register_valid(self@, thread as int, slot);
        }
        assert(self@.threads[thread as int].wf(self@.heap.len()));
        self.contexts[thread].get_register(slot)
    }

    /// Writes a register of the thread's innermost frame.
    pub fn set_register(&mut self, thread: usize, slot: usize, object: ObjectPointer)
        requires
            old(self)@.wf(),
            old(self)@.has_thread(thread as int),
            old(self)@.valid(object),
        ensures
            final(self)@ == old(self)@.bind(thread as int, slot, object),
            final(self)@.wf(),
    {
        proof {
            lemma_bind_wf(self@, thread as int, slot, object);
        }
        assert(self@.threads[thread as int].wf(self@.heap.len()));
        self.contexts[thread].set_register(slot, object);
        assert(self@ =~~= old(self)@.bind(thread as int, slot, object));
    }

    /// Allocates an object and writes it to a register.
    pub fn set_register_new(
        &mut self,
        thread: usize,
        slot: usize,
        value: ObjectValue,
        prototype: ObjectPointer,
    )
        requires
            old(self)@.wf(),
            old(self)@.has_thread(thread as int),
            old(self)@.valid(prototype),
            value@.wf(old(self)@.heap.len(), old(self)@.threads.len()),
        ensures
            final(self)@ == old(self)@.bind_new(thread as int, slot, value@, Some(prototype)),
            final(self)@.wf(),
    {
        let object = self.allocate(value, prototype);
        self.set_register(thread, slot, object);
    }

    /// Allocates an error object and writes it to a register.
    pub fn set_register_error(&mut self, thread: usize, slot: usize, text: String)
        requires
            old(self)@.wf(),
            old(self)@.has_thread(thread as int),
        ensures
            final(self)@ == old(self)@.bind_new(thread as int, slot, Value::Error(text@), None),
            final(self)@.wf(),
    {
        let object = self.allocate_error(text);
        self.set_register(thread, slot, object);
    }

    /// Writes the true or the false object to a register.
    pub fn set_register_flag(&mut self, thread: usize, slot: usize, flag: bool)
        requires
            old(self)@.wf(),
            old(self)@.has_thread(thread as int),
        ensures
            final(self)@ == old(self)@.bind_flag(thread as int, slot, flag),
            final(self)@.wf(),
    {
        let object = if flag {
            self.true_object()
        } else {
            self.false_object()
        };
        self.set_register(thread, slot, object);
    }

    /// The integer that an object holds.
    pub fn integer_value(&self, object: ObjectPointer) -> (result: Result<i64, Fatal>)
        requires
            self@.valid(object),
        ensures
            agrees(result, self@.integer_of(object)),
    {
        match &self.object(object).value {
            ObjectValue::Integer(value) => Ok(*value),
            _ => Err(Failure::TypeMismatch(Kind::Integer)),
        }
    }

    /// The bits of the float that an object holds.
    pub fn float_value(&self, object: ObjectPointer) -> (result: Result<u64, Fatal>)
        requires
            self@.valid(object),
        ensures
            agrees(result, self@.float_of(object)),
    {
        match &self.object(object).value {
            ObjectValue::Float(bits) => Ok(*bits),
            _ => Err(Failure::TypeMismatch(Kind::Float)),
        }
    }

    /// The string that an object holds.
    pub fn string_value(&self, object: ObjectPointer) -> (result: Result<&String, Fatal>)
        requires
            self@.valid(object),
        ensures
            self@.string_of(object) matches Ok(text) ==> result is Ok && result->Ok_0@ == text,
            self@.string_of(object) matches Err(error) ==> result is Err && result->Err_0@
                == error,
    {
        match &self.object(object).value {
            ObjectValue::String(text) => Ok(text),
            _ => Err(Failure::TypeMismatch(Kind::String)),
        }
    }

    /// The items of the array that an object holds.
    pub fn array_value(&self, object: ObjectPointer) -> (result: Result<&Vec<ObjectPointer>, Fatal>)
        requires
            self@.wf(),
            self@.valid(object),
        ensures
            self@.array_of(object) matches Ok(items) ==> result is Ok && result->Ok_0@ == items
                && pointers_valid(items, self@.heap.len()),
            self@.array_of(object) matches Err(error) ==> result is Err && result->Err_0@
                == error,
    {
        assert(self@.heap[object.0 as int].wf(
            object.0 as int,
            self@.heap.len(),
            self@.threads.len(),
        ));
        match &self.object(object).value {
            ObjectValue::Array(items) => Ok(items),
            _ => Err(Failure::TypeMismatch(Kind::Array)),
        }
    }

    /// The token of the file that an object holds.
    pub fn file_value(&self, object: ObjectPointer) -> (result: Result<u64, Fatal>)
        requires
            self@.valid(object),
        ensures
            agrees(result, self@.file_of(object)),
    {
        match &self.object(object).value {
            ObjectValue::File(token) => Ok(*token),
            _ => Err(Failure::TypeMismatch(Kind::File)),
        }
    }

    /// The compiled code that an object wraps.
    pub fn code_value(&self, object: ObjectPointer) -> (result: Result<RcCompiledCode, Fatal>)
        requires
            self@.valid(object),
        ensures
            self@.code_of(object) matches Ok(code) ==> result is Ok && *result->Ok_0 == code,
            self@.code_of(object) matches Err(error) ==> result is Err && result->Err_0@ == error,
    {
        match &self.object(object).value {
            ObjectValue::CompiledCode(code) => Ok(share(code)),
            _ => Err(Failure::TypeMismatch(Kind::CompiledCode)),
        }
    }

    /// The text of the error that an object holds.
    pub fn error_value(&self, object: ObjectPointer) -> (result: Result<&String, Fatal>)
        requires
            self@.valid(object),
        ensures
            self@.error_of(object) matches Ok(text) ==> result is Ok && result->Ok_0@ == text,
            self@.error_of(object) matches Err(error) ==> result is Err && result->Err_0@ == error,
    {
        match &self.object(object).value {
            ObjectValue::Error(text) => Ok(text),
            _ => Err(Failure::TypeMismatch(Kind::Error)),
        }
    }

    /// Puts an object that the caller built on the heap.
    pub fn allocate_prepared(&mut self, object: Object) -> (pointer: ObjectPointer)
        requires
            old(self)@.wf(),
            object@.wf(
                old(self)@.heap.len() as int,
                old(self)@.heap.len() + 1,
                old(self)@.threads.len(),
            ),
        ensures
            final(self)@ == (MachineState { heap: old(self)@.heap.push(object@), ..old(self)@ }),
            final(self)@.wf(),
            pointer == next_pointer(old(self)@.heap),
            final(self)@.valid(pointer),
    {
        proof {
            lemma_push_object_wf(self@, object@);
        }
        let pointer = self.memory_manager.allocate_prepared(object);
        assert(self@ =~~= (MachineState { heap: old(self)@.heap.push(object@), ..old(self)@ }));
        pointer
    }

    /// Gives an object a name for diagnostics.
    pub fn set_name(&mut self, object: ObjectPointer, name: String)
        requires
            old(self)@.wf(),
            old(self)@.valid(object),
        ensures
            final(self)@ == old(self)@.with_object(
                object,
                ObjectState { name: Some(name@), ..old(self)@.object(object) },
            ),
            final(self)@.wf(),
    {
        proof {
            assert(self@.heap[object.0 as int].wf(
                object.0 as int,
                self@.heap.len(),
                self@.threads.len(),
            ));
            lemma_with_object_wf(
                self@,
                object,
                ObjectState { name: Some(name@), ..self@.object(object) },
            );
        }
        self.memory_manager.set_name(object, name);
        assert(self@ =~~= old(self)@.with_object(
            object,
            ObjectState { name: Some(name@), ..old(self)@.object(object) },
        ));
    }

    /// Installs a method on an object.
    pub fn add_method(&mut self, object: ObjectPointer, name: String, method: ObjectPointer)
        requires
            old(self)@.wf(),
            old(self)@.valid(object),
            old(self)@.valid(method),
        ensures
            final(self)@ == old(self)@.with_object(
                object,
                ObjectState {
                    methods: old(self)@.object(object).methods.insert(name@, method),
                    ..old(self)@.object(object)
                },
            ),
            final(self)@.wf(),
    {
        proof {
            assert(self@.heap[object.0 as int].wf(
                object.0 as int,
                self@.heap.len(),
                self@.threads.len(),
            ));
            lemma_with_object_wf(
                self@,
                object,
                ObjectState {
                    methods: self@.object(object).methods.insert(name@, method),
                    ..self@.object(object)
                },
            );
        }
        self.memory_manager.add_method(object, name, method);
        assert(self@ =~~= old(self)@.with_object(
            object,
            ObjectState {
                methods: old(self)@.object(object).methods.insert(name@, method),
                ..old(self)@.object(object)
            },
        ));
    }

    /// Sets an attribute of an object.
    pub fn add_attribute(&mut self, object: ObjectPointer, name: String, value: ObjectPointer)
        requires
            old(self)@.wf(),
            old(self)@.valid(object),
            old(self)@.valid(value),
        ensures
            final(self)@ == old(self)@.with_object(
                object,
                ObjectState {
                    attributes: old(self)@.object(object).attributes.insert(name@, value),
                    ..old(self)@.object(object)
                },
            ),
            final(self)@.wf(),
    {
        proof {
            assert(self@.heap[object.0 as int].wf(
                object.0 as int,
                self@.heap.len(),
                self@.threads.len(),
            ));
            lemma_with_object_wf(
                self@,
                object,
                ObjectState {
                    attributes: self@.object(object).attributes.insert(name@, value),
                    ..self@.object(object)
                },
            );
        }
        self.memory_manager.add_attribute(object, name, value);
        assert(self@ =~~= old(self)@.with_object(
            object,
            ObjectState {
                attributes: old(self)@.object(object).attributes.insert(name@, value),
                ..old(self)@.object(object)
            },
        ));
    }

    /// Sets a constant of an object.
    pub fn add_constant(&mut self, object: ObjectPointer, name: String, value: ObjectPointer)
        requires
            old(self)@.wf(),
            old(self)@.valid(object),
            old(self)@.valid(value),
        ensures
            final(self)@ == old(self)@.with_object(
                object,
                ObjectState {
                    constants: old(self)@.object(object).constants.insert(name@, value),
                    ..old(self)@.object(object)
                },
            ),
            final(self)@.wf(),
    {
        proof {
            assert(self@.heap[object.0 as int].wf(
                object.0 as int,
                self@.heap.len(),
                self@.threads.len(),
            ));
            lemma_with_object_wf(
                self@,
                object,
                ObjectState {
                    constants: self@.object(object).constants.insert(name@, value),
                    ..self@.object(object)
                },
            );
        }
        self.memory_manager.add_constant(object, name, value);
        assert(self@ =~~= old(self)@.with_object(
            object,
            ObjectState {
                constants: old(self)@.object(object).constants.insert(name@, value),
                ..old(self)@.object(object)
            },
        ));
    }

    /// Replaces the items of an array object.
    pub fn set_array(&mut self, object: ObjectPointer, items: Vec<ObjectPointer>)
        requires
            old(self)@.wf(),
            old(self)@.valid(object),
            pointers_valid(items@, old(self)@.heap.len()),
        ensures
            final(self)@ == old(self)@.with_object(
                object,
                ObjectState { value: Value::Array(items@), ..old(self)@.object(object) },
            ),
            final(self)@.wf(),
    {
        proof {
            assert(self@.heap[object.0 as int].wf(
                object.0 as int,
                self@.heap.len(),
                self@.threads.len(),
            ));
            lemma_with_object_wf(
                self@,
                object,
                ObjectState { value: Value::Array(items@), ..self@.object(object) },
            );
        }
        self.memory_manager.set_array(object, items);
        assert(self@ =~~= old(self)@.with_object(
            object,
            ObjectState { value: Value::Array(items@), ..old(self)@.object(object) },
        ));
    }

    /// The local variable at `index` of the thread's innermost frame.
    pub fn get_local(&self, thread: usize, index: usize) -> (result: Result<ObjectPointer, Fatal>)
        requires
            self@.wf(),
            self@.has_thread(thread as int),
        ensures
            agrees(result, self@.threads[thread as int].get_local(index)),
            result matches Ok(object) ==> self@.valid(object),
    {
        assert(self@.threads[thread as int].wf(self@.heap.len()));
        assert(self@.threads[thread as int].current().wf(self@.heap.len()));
        self.contexts[thread].get_local(index)
    }

    /// Assigns the local variable at `index` of the thread's innermost frame.
    pub fn set_local(&mut self, thread: usize, index: usize, object: ObjectPointer) -> (result:
        Result<(), Fatal>)
        requires
            old(self)@.wf(),
            old(self)@.has_thread(thread as int),
            old(self)@.valid(object),
        ensures
            final(self)@.wf(),
            done(
                old(self)@,
                final(self)@,
                result,
                old(self)@.set_local(thread as int, index, object),
            ),
    {
        let ghost before = self@.threads[thread as int];
        assert(before.wf(self@.heap.len()));
        assert(before.current().wf(self@.heap.len()));
        let result = self.contexts[thread].set_local(index, object);
        proof {
            if result is Ok {
                lemma_with_current_wf(
                    before,
                    FrameState {
                        locals: before.current().locals.update(index as int, object),
                        ..before.current()
                    },
                    old(self)@.heap.len(),
                );
                lemma_with_thread_wf(old(self)@, thread as int, before.set_local(index, object));
                assert(self@ =~~= old(self)@.with_thread(
                    thread as int,
                    before.set_local(index, object),
                ));
            } else {
                assert(self@ =~~= old(self)@);
            }
        }
        result
    }

    /// Reads the registers that the `amount` arguments from position
    /// `offset` on name.
    pub fn collect_arguments(
        &self,
        thread: usize,
        instruction: &Instruction,
        offset: usize,
        amount: usize,
    ) -> (result: Result<Vec<ObjectPointer>, Fatal>)
        requires
            self@.wf(),
            self@.has_thread(thread as int),
        ensures
            self@.collect_arguments(thread as int, *instruction, offset, amount) matches Ok(
                objects,
            ) ==> result is Ok && result->Ok_0@ == objects && pointers_valid(
                objects,
                self@.heap.len(),
            ),
            self@.collect_arguments(thread as int, *instruction, offset, amount) matches Err(
                error,
            ) ==> result is Err && result->Err_0@ == error,
    {
        let mut objects: Vec<ObjectPointer> = Vec::new();
        let mut taken: usize = 0;
        while taken < amount
            invariant
                self@.wf(),
                self@.has_thread(thread as int),
                taken <= amount,
                self@.collect_arguments(thread as int, *instruction, offset, taken) == Ok::<
                    Seq<ObjectPointer>,
                    FatalSpec,
                >(objects@),
                pointers_valid(objects@, self@.heap.len()),
                taken > 0 ==> offset + taken - 1 < instruction.arguments@.len(),
            decreases amount - taken,
        {
            let count = instruction.arguments.len();
            assert(offset + taken <= usize::MAX) by {
                if taken > 0 {
                    assert(offset + taken - 1 < count);
                }
            }
            match self.operand(thread, instruction, offset + taken) {
                Ok(object) => {
                    objects.push(object);
                },
                Err(error) => {
                    proof {
                        lemma_collect_fails(
                            self@,
                            thread as int,
                            *instruction,
                            offset,
                            taken,
                            amount,
                        );
                    }
                    return Err(error);
                },
            }
            taken = taken + 1;
        }
        Ok(objects)
    }

    /// Leaves a request for the host with the thread, which then waits.
    pub fn suspend(&mut self, thread: usize, request: Request<String>)
        requires
            old(self)@.wf(),
            old(self)@.has_thread(thread as int),
        ensures
            final(self)@ == old(self)@.wait(thread as int, request@),
            final(self)@.wf(),
    {
        let ghost before = self@.threads[thread as int];
        assert(before.wf(self@.heap.len()));
        self.contexts[thread].pending = Some(request);
        proof {
            let after = ThreadState { pending: Some(request@), ..before };
            assert forall|i: int| 0 <= i < after.frames.len() implies (
            #[trigger] after.frames[i]).wf(old(self)@.heap.len()) by {
                assert(before.frames[i].wf(old(self)@.heap.len()));
            }
            lemma_with_thread_wf(old(self)@, thread as int, after);
            assert(self@ =~~= old(self)@.wait(thread as int, request@));
        }
    }

    /// Inserts an item into an array object, before position `index`.
    pub fn array_insert(&mut self, object: ObjectPointer, index: usize, item: ObjectPointer)
        requires
            old(self)@.wf(),
            old(self)@.valid(object),
            old(self)@.valid(item),
            old(self)@.object(object).value is Array,
            index <= old(self)@.object(object).value->Array_0.len(),
        ensures
            final(self)@ == old(self)@.with_object(
                object,
                ObjectState {
                    value: Value::Array(
                        old(self)@.object(object).value->Array_0.insert(index as int, item),
                    ),
                    ..old(self)@.object(object)
                },
            ),
            final(self)@.wf(),
    {
        proof {
            let before = self@.object(object);
            let items = before.value->Array_0;
            assert(before.wf(object.0 as int, self@.heap.len(), self@.threads.len()));
            let after = items.insert(index as int, item);
            assert forall|i: int| 0 <= i < after.len() implies (#[trigger] after[i]).0
                < self@.heap.len() by {
                if i < index {
                    assert(after[i] == items[i]);
                } else if i > index {
                    assert(after[i] == items[i - 1]);
                }
            }
            lemma_with_object_wf(
                self@,
                object,
                ObjectState { value: Value::Array(after), ..before },
            );
        }
        self.memory_manager.array_insert(object, index, item);
        assert(self@ =~~= old(self)@.with_object(
            object,
            ObjectState {
                value: Value::Array(
                    old(self)@.object(object).value->Array_0.insert(index as int, item),
                ),
                ..old(self)@.object(object)
            },
        ));
    }

    /// Removes the item at position `index` from an array object.
    pub fn array_remove(&mut self, object: ObjectPointer, index: usize) -> (item: ObjectPointer)
        requires
            old(self)@.wf(),
            old(self)@.valid(object),
            old(self)@.object(object).value is Array,
            index < old(self)@.object(object).value->Array_0.len(),
        ensures
            item == old(self)@.object(object).value->Array_0[index as int],
            final(self)@ == old(self)@.with_object(
                object,
                ObjectState {
                    value: Value::Array(
                        old(self)@.object(object).value->Array_0.remove(index as int),
                    ),
                    ..old(self)@.object(object)
                },
            ),
            final(self)@.wf(),
            final(self)@.valid(item),
    {
        proof {
            let before = self@.object(object);
            let items = before.value->Array_0;
            assert(before.wf(object.0 as int, self@.heap.len(), self@.threads.len()));
            assert(items[index as int].0 < self@.heap.len());
            let after = items.remove(index as int);
            assert forall|i: int| 0 <= i < after.len() implies (#[trigger] after[i]).0
                < self@.heap.len() by {
                if i < index {
                    assert(after[i] == items[i]);
                } else {
                    assert(after[i] == items[i + 1]);
                }
            }
            lemma_with_object_wf(
                self@,
                object,
                ObjectState { value: Value::Array(after), ..before },
            );
        }
        let item = self.memory_manager.array_remove(object, index);
        assert(self@ =~~= old(self)@.with_object(
            object,
            ObjectState {
                value: Value::Array(
                    old(self)@.object(object).value->Array_0.remove(index as int),
                ),
                ..old(self)@.object(object)
            },
        ));
        item
    }

    /// Enters a new call frame for `code` on the thread, with the arguments
    /// as its first locals. When the frame ends, the value it returns, if
    /// any, goes to `result_slot` of the frame that is now innermost.
    pub fn run_code(
        &mut self,
        thread: usize,
        code: RcCompiledCode,
        arguments: Vec<ObjectPointer>,
        result_slot: Option<usize>,
    )
        requires
            old(self)@.wf(),
            old(self)@.has_thread(thread as int),
            pointers_valid(arguments@, old(self)@.heap.len()),
        ensures
            final(self)@ == old(self)@.enter(thread as int, *code, arguments@, result_slot),
            final(self)@.wf(),
    {
        let ghost entered = shared(&code);
        proof {
            lemma_enter_wf(self@, thread as int, entered, arguments@, result_slot);
        }
        let mut frame = CallFrame::from_code(code, result_slot);
        frame.locals = arguments;
        self.contexts[thread].push_call_frame(frame);
        assert(self@ =~~= old(self)@.enter(thread as int, *code, arguments@, result_slot));
    }

    /// Creates a thread that is about to run `code`, and the object that
    /// wraps it. Returns the index of the thread and the object.
    pub fn allocate_thread(&mut self, code: RcCompiledCode, main_thread: bool) -> (created: (
        usize,
        ObjectPointer,
    ))
        requires
            old(self)@.wf(),
        ensures
            final(self)@ == old(self)@.spawn(*code, main_thread),
            final(self)@.wf(),
            created.0 == old(self)@.threads.len(),
            created.1 == next_pointer(old(self)@.heap),
            final(self)@.has_thread(created.0 as int),
            final(self)@.valid(created.1),
    {
        let ghost started = shared(&code);
        let index = self.contexts.len();
        let mut vm_thread = Thread::from_code(code);
        if main_thread {
            vm_thread.set_main();
        }
        let thread_object = self.memory_manager.allocate_thread(index);
        vm_thread.object = Some(thread_object);
        self.contexts.push(vm_thread);
        self.threads.add(thread_object);
        proof {
            lemma_spawn_wf(old(self)@, started, main_thread);
            assert(self@ =~~= old(self)@.spawn(started, main_thread));
        }
        (index, thread_object)
    }

    /// Whether the file at `path` has been run.
    pub fn has_executed(&self, path: &String) -> (found: bool)
        ensures
            found == self@.executed.contains(path@),
    {
        let mut i: usize = 0;
        while i < self.executed_files.len()
            invariant
                i <= self.executed_files@.len(),
                forall|j: int| 0 <= j < i ==> (#[trigger] self.executed_files@[j])@ != path@,
            decreases self.executed_files@.len() - i,
        {
            if self.executed_files[i] == *path {
                return true;
            }
            i = i + 1;
        }
        false
    }

    /// Records that the file at `path` has been run.
    pub fn mark_executed(&mut self, path: String)
        requires
            old(self)@.wf(),
        ensures
            final(self)@ == old(self)@.mark_executed(path@),
            final(self)@.wf(),
    {
        self.executed_files.push(path);
        proof {
            let before = old(self).executed_files@;
            let after = self.executed_files@;
            assert forall|other: Seq<char>|
                executed_set(after).contains(other) <==> executed_set(before).insert(
                    path@,
                ).contains(other) by {
                if executed_set(after).contains(other) {
                    let i = choose|i: int| 0 <= i < after.len() && (#[trigger] after[i])@ == other;
                    if i < before.len() {
                        assert(before[i]@ == other);
                    }
                }
                if executed_set(before).contains(other) {
                    let i = choose|i: int|
                        0 <= i < before.len() && (#[trigger] before[i])@ == other;
                    assert(after[i]@ == other);
                }
                if other == path@ {
                    assert(after[before.len() as int]@ == other);
                }
            }
            assert(self@ =~~= old(self)@.mark_executed(path@));
        }
    }

    /// Moves the thread's innermost frame to the instruction at `index`.
    pub fn jump(&mut self, thread: usize, index: usize)
        requires
            old(self)@.wf(),
            old(self)@.has_thread(thread as int),
        ensures
            final(self)@ == old(self)@.jump(thread as int, index),
            final(self)@.wf(),
    {
        proof {
            lemma_jump_wf(self@, thread as int, index);
        }
        assert(self@.threads[thread as int].wf(self@.heap.len()));
        self.contexts[thread].set_index(index);
        assert(self@ =~~= old(self)@.jump(thread as int, index));
    }

    /// Records the value that the thread's innermost frame returns.
    pub fn record_return(&mut self, thread: usize, value: Option<ObjectPointer>)
        requires
            old(self)@.wf(),
            old(self)@.has_thread(thread as int),
            value matches Some(object) ==> old(self)@.valid(object),
        ensures
            final(self)@ == old(self)@.record_return(thread as int, value),
            final(self)@.wf(),
    {
        proof {
            lemma_record_return_wf(self@, thread as int, value);
        }
        assert(self@.threads[thread as int].wf(self@.heap.len()));
        self.contexts[thread].set_return_value(value);
        assert(self@ =~~= old(self)@.record_return(thread as int, value));
    }

    /// Leaves the thread's innermost frame and hands the value it recorded
    /// to the calling frame.
    pub fn leave(&mut self, thread: usize)
        requires
            old(self)@.wf(),
            old(self)@.has_thread(thread as int),
            old(self)@.threads[thread as int].frames.len() > 1,
        ensures
            final(self)@ == old(self)@.leave(thread as int),
            final(self)@.wf(),
    {
        proof {
            lemma_leave_wf(self@, thread as int);
        }
        let frame = self.contexts[thread].current();
        let value = frame.return_value;
        let slot = frame.result_slot;
        self.contexts[thread].pop_call_frame();
        match (value, slot) {
            (Some(value), Some(slot)) => {
                self.contexts[thread].set_register(slot, value);
            },
            _ => {},
        }
        assert(self@ =~~= old(self)@.leave(thread as int));
    }

    /// Drops every frame of the thread but its first, and the request it
    /// waited on.
    pub fn unwind(&mut self, thread: usize)
        requires
            old(self)@.wf(),
            old(self)@.has_thread(thread as int),
        ensures
            final(self)@ == old(self)@.unwind(thread as int),
            final(self)@.wf(),
    {
        proof {
            lemma_unwind_wf(self@, thread as int);
        }
        assert(self@.threads[thread as int].wf(self@.heap.len()));
        self.contexts[thread].frames.truncate(1);
        self.contexts[thread].pending = None;
        assert(self@ =~~= old(self)@.unwind(thread as int));
    }
}

} // verus!
