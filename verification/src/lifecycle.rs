//! The life of a thread: starting it, answering its requests, and what
//! happens when it ends or fails.
use vstd::prelude::*;
use crate::compiled_code::RcCompiledCode;
use crate::errors::error_text;
use crate::host::{
    first_line, take_first_line, Expectation, Reply, ReplySpec, Request, RequestSpec,
};
use crate::interpreter::{run, Progress};
use crate::memory_manager::{
    file_prototype, float_prototype, integer_prototype, string_prototype, true_object,
};
use crate::object::ObjectState;
use crate::object_pointer::{pointers_valid, ObjectPointer};
use crate::object_value;
use crate::object_value::{ObjectValue, Value};
use crate::report::{render_report, report};
use crate::state::{done, lemma_same_frames_wf, lemma_with_object_wf, MachineState};
use crate::thread::ThreadState;
use crate::thread_list::without;
use crate::virtual_machine::VirtualMachine;
use crate::virtual_machine_result::{Failure, Fatal, FatalSpec};

verus! {

/// What the answer to a request makes of the machine.
///
/// A reply of the expected shape becomes the result of the instruction
/// that asked: a new object of the matching prototype in the register the
/// request names, the true or the false object, or, for parsed code, a new
/// frame. A failure of input or output becomes an error object in that
/// register; a failure to parse is fatal. Any other reply is a fatal error.
pub open spec fn answer(
    state: MachineState,
    thread: int,
    request: RequestSpec,
    reply: ReplySpec,
) -> Result<MachineState, FatalSpec> {
    let slot = request.slot();
    match reply {
        ReplySpec::Error(error) => if request.recoverable() {
            Ok(state.bind_new(thread, slot, Value::Error(error.text()), None))
        } else {
            Err(Failure::UnexpectedReply)
        },
        ReplySpec::Failed(detail) => match request {
            Request::ParseFile { path, .. } => Err(Failure::ParseFailure { path, detail }),
            _ => Err(Failure::UnexpectedReply),
        },
        ReplySpec::Integer(value) => if request.expectation() == Expectation::Integer {
            Ok(state.bind_new(thread, slot, Value::Integer(value), Some(integer_prototype())))
        } else {
            Err(Failure::UnexpectedReply)
        },
        ReplySpec::Text(text) => if request.expectation() == Expectation::Text {
            Ok(state.bind_new(thread, slot, Value::String(text), Some(string_prototype())))
        } else {
            Err(Failure::UnexpectedReply)
        },
        ReplySpec::Bytes(bytes) => if request.expectation() == Expectation::Bytes {
            Ok(state.bind_text(thread, slot, first_line(bytes)))
        } else {
            Err(Failure::UnexpectedReply)
        },
        ReplySpec::File(token) => if request.expectation() == Expectation::File {
            Ok(state.bind_new(thread, slot, Value::File(token), Some(file_prototype())))
        } else {
            Err(Failure::UnexpectedReply)
        },
        ReplySpec::Done => if request.expectation() == Expectation::Done {
            Ok(state.bind(thread, slot, true_object()))
        } else {
            Err(Failure::UnexpectedReply)
        },
        ReplySpec::Float(bits) => if request.expectation() == Expectation::Float {
            Ok(state.bind_new(thread, slot, Value::Float(bits), Some(float_prototype())))
        } else {
            Err(Failure::UnexpectedReply)
        },
        ReplySpec::Flag(flag) => if request.expectation() == Expectation::Flag {
            Ok(state.bind_flag(thread, slot, flag))
        } else {
            Err(Failure::UnexpectedReply)
        },
        ReplySpec::Code(code) => if request.expectation() == Expectation::Code {
            Ok(state.enter(thread, code, Seq::empty(), Some(slot)))
        } else {
            Err(Failure::UnexpectedReply)
        },
    }
}

impl MachineState {
    /// The state after the thread's request has been taken from it.
    pub open spec fn clear_pending(self, thread: int) -> MachineState {
        self.with_thread(thread, ThreadState { pending: None, ..self.threads[thread] })
    }

    /// Whether `object` is the heap object that wraps the thread.
    pub open spec fn wraps(self, object: ObjectPointer, thread: int) -> bool {
        self.valid(object) && self.object(object).value is Thread && self.object(
            object,
        ).value->Thread_0 == thread
    }

    /// Whether one of the first `count` live thread objects wraps the thread.
    pub open spec fn listed_before(self, count: int, thread: int) -> bool {
        exists|i: int| 0 <= i < count && self.wraps(#[trigger] self.live[i], thread)
    }

    /// The state after the threads that the first `count` live thread
    /// objects wrap have been asked to stop.
    pub open spec fn stop_listed(self, count: int) -> MachineState {
        MachineState {
            threads: Seq::new(
                self.threads.len(),
                |t: int|
                    if self.listed_before(count, t) {
                        ThreadState { should_stop: true, ..self.threads[t] }
                    } else {
                        self.threads[t]
                    },
            ),
            ..self
        }
    }

    /// The state after every live thread has been asked to stop.
    pub open spec fn stop_all(self) -> MachineState {
        self.stop_listed(self.live.len() as int)
    }

    /// The state after the thread's object has been taken off the list of
    /// live threads and unpinned.
    pub open spec fn retire(self, thread: int) -> MachineState {
        match self.threads[thread].object {
            Some(object) => MachineState {
                live: without(self.live, object),
                heap: self.heap.update(
                    object.0 as int,
                    ObjectState { pinned: false, ..self.object(object) },
                ),
                ..self
            },
            None => self,
        }
    }

    /// The state after the thread has ended with a value.
    pub open spec fn finish(self, thread: int, value: Option<ObjectPointer>) -> MachineState {
        let retired = self.retire(thread);
        retired.with_thread(thread, ThreadState { value, ..retired.threads[thread] })
    }

    /// The state after the thread has met a fatal error: the machine has
    /// failed, and every other live thread has been asked to stop.
    pub open spec fn fail(self, thread: int) -> MachineState {
        (MachineState { failed: true, ..self.retire(thread) }).stop_all()
    }
}

/// What the host's answer to the request that a thread waits on makes of
/// the machine. A thread that does not wait expects no answer.
pub open spec fn resume(state: MachineState, thread: int, reply: ReplySpec) -> Result<
    MachineState,
    FatalSpec,
> {
    match state.threads[thread].pending {
        None => Err(Failure::UnexpectedReply),
        Some(request) => answer(state.clear_pending(thread), thread, request, reply),
    }
}

/// What running a thread for up to `fuel` steps makes of the machine, with
/// what is due when the thread ends or fails: the text of the outcome is
/// the report for standard error.
pub open spec fn run_thread(state: MachineState, thread: int, fuel: nat) -> (
    MachineState,
    Result<Progress, Seq<char>>,
) {
    let (after, outcome) = run(state, thread, fuel);
    match outcome {
        Ok(Progress::Finished(value)) => (
            after.finish(thread, value),
            Ok(Progress::Finished(value)),
        ),
        Ok(progress) => (after, Ok(progress)),
        Err(error) => (after.fail(thread), Err(report(error, after.threads[thread].frames))),
    }
}

/// Removing a thread object from the live list leaves a list of existing objects.
pub proof fn lemma_without_valid(live: Seq<ObjectPointer>, object: ObjectPointer, objects: nat)
    requires
        pointers_valid(live, objects),
    ensures
        pointers_valid(without(live, object), objects),
{
    live.index_of_first_ensures(object);
    match live.index_of_first(object) {
        Some(position) => {
            let after = live.remove(position);
            assert forall|i: int| 0 <= i < after.len() implies (#[trigger] after[i]).0
                < objects by {
                if i < position {
                    assert(after[i] == live[i]);
                } else {
                    assert(after[i] == live[i + 1]);
                }
            }
        },
        None => {},
    }
}

/// Retiring a thread keeps a machine well formed.
pub proof fn lemma_retire_wf(state: MachineState, thread: int)
    requires
        state.wf(),
        state.has_thread(thread),
    ensures
        state.retire(thread).wf(),
{
    assert(state.threads[thread].wf(state.heap.len()));
    match state.threads[thread].object {
        Some(object) => {
            assert(state.heap[object.0 as int].wf(
                object.0 as int,
                state.heap.len(),
                state.threads.len(),
            ));
            lemma_with_object_wf(
                state,
                object,
                ObjectState { pinned: false, ..state.object(object) },
            );
            lemma_without_valid(state.live, object, state.heap.len());
        },
        None => {},
    }
}

/// Asking threads to stop keeps a machine well formed.
pub proof fn lemma_stop_listed_wf(state: MachineState, count: int)
    requires
        state.wf(),
    ensures
        state.stop_listed(count).wf(),
{
    let after = state.stop_listed(count);
    assert forall|t: int| 0 <= t < after.threads.len() implies (#[trigger] after.threads[t]).wf(
        after.heap.len(),
    ) by {
        let before = state.threads[t];
        assert(before.wf(state.heap.len()));
        assert forall|i: int| 0 <= i < after.threads[t].frames.len() implies (
        #[trigger] after.threads[t].frames[i]).wf(state.heap.len()) by {
            assert(before.frames[i].wf(state.heap.len()));
        }
    }
}

/// Asking the threads of one more live thread object to stop changes the
/// thread that the object wraps, and no other.
pub proof fn lemma_stop_listed_next(state: MachineState, count: int)
    requires
        state.wf(),
        0 <= count < state.live.len(),
    ensures
        state.stop_listed(count + 1).threads == (match state.object(state.live[count]).value {
            Value::Thread(thread) => state.stop_listed(count).threads.update(
                thread as int,
                ThreadState {
                    should_stop: true,
                    ..state.stop_listed(count).threads[thread as int]
                },
            ),
            _ => state.stop_listed(count).threads,
        }),
{
    let object = state.live[count];
    let before = state.stop_listed(count).threads;
    let after = state.stop_listed(count + 1).threads;
    assert(state.valid(object));
    assert(state.heap[object.0 as int].wf(object.0 as int, state.heap.len(), state.threads.len()));
    let expected = match state.object(object).value {
        Value::Thread(thread) => before.update(
            thread as int,
            ThreadState { should_stop: true, ..before[thread as int] },
        ),
        _ => before,
    };
    assert forall|t: int| 0 <= t < after.len() implies after[t] == expected[t] by {
        if state.listed_before(count, t) {
            let k = choose|k: int| 0 <= k < count && state.wraps(#[trigger] state.live[k], t);
            assert(state.wraps(state.live[k], t));
            assert(state.listed_before(count + 1, t));
        }
        if state.wraps(object, t) {
            assert(state.wraps(state.live[count], t));
            assert(state.listed_before(count + 1, t));
        }
        if state.listed_before(count + 1, t) && !state.listed_before(count, t) {
            let k = choose|k: int| 0 <= k < count + 1 && state.wraps(#[trigger] state.live[k], t);
            if k < count {
                assert(state.wraps(state.live[k], t));
                assert(false);
            }
            assert(state.wraps(object, t));
        }
    }
    assert(after =~= expected);
}

impl VirtualMachine {
    /// Takes the thread's request from it.
    fn clear_pending(&mut self, thread: usize)
        requires
            old(self)@.wf(),
            old(self)@.has_thread(thread as int),
        ensures
            final(self)@ == old(self)@.clear_pending(thread as int),
            final(self)@.wf(),
    {
        proof {
            let before = self@.threads[thread as int];
            assert(before.wf(self@.heap.len()));
            lemma_same_frames_wf(self@, thread as int, ThreadState { pending: None, ..before });
        }
        self.contexts[thread].pending = None;
        assert(self@ =~~= old(self)@.clear_pending(thread as int));
    }

    /// Hands the host's answer to the thread that waits for it. The thread
    /// can then take its next step.
    pub fn resume(&mut self, thread: usize, reply: Reply) -> (result: Result<(), Fatal>)
        requires
            old(self)@.wf(),
            old(self)@.has_thread(thread as int),
        ensures
            final(self)@.wf(),
            final(self)@.threads.len() == old(self)@.threads.len(),
            done(old(self)@, final(self)@, result, resume(old(self)@, thread as int, reply@)),
    {
        let (slot, expectation, recoverable, parsed_path) = match &self.contexts[thread].pending {
            None => {
                return Err(Failure::UnexpectedReply);
            },
            Some(request) => (
                request.get_slot(),
                request.get_expectation(),
                request.is_recoverable(),
                match request {
                    Request::ParseFile { path, .. } => Some(path.clone()),
                    _ => None,
                },
            ),
        };
        match reply {
            Reply::Error(error) => {
                if !recoverable {
                    return Err(Failure::UnexpectedReply);
                }
                self.clear_pending(thread);
                self.set_register_error(thread, slot, error_text(error.code()));
            },
            Reply::Failed(detail) => {
                match parsed_path {
                    Some(path) => {
                        return Err(Failure::ParseFailure { path, detail });
                    },
                    None => {
                        return Err(Failure::UnexpectedReply);
                    },
                }
            },
            Reply::Integer(value) => {
                if expectation != Expectation::Integer {
                    return Err(Failure::UnexpectedReply);
                }
                self.clear_pending(thread);
                let prototype = self.integer_prototype();
                self.set_register_new(thread, slot, object_value::integer(value), prototype);
            },
            Reply::Text(text) => {
                if expectation != Expectation::Text {
                    return Err(Failure::UnexpectedReply);
                }
                self.clear_pending(thread);
                let prototype = self.string_prototype();
                self.set_register_new(thread, slot, object_value::string(text), prototype);
            },
            Reply::Bytes(bytes) => {
                if expectation != Expectation::Bytes {
                    return Err(Failure::UnexpectedReply);
                }
                self.clear_pending(thread);
                self.set_register_text(thread, slot, take_first_line(bytes));
            },
            Reply::File(token) => {
                if expectation != Expectation::File {
                    return Err(Failure::UnexpectedReply);
                }
                self.clear_pending(thread);
                let prototype = self.file_prototype();
                self.set_register_new(thread, slot, object_value::file(token), prototype);
            },
            Reply::Done => {
                if expectation != Expectation::Done {
                    return Err(Failure::UnexpectedReply);
                }
                self.clear_pending(thread);
                let object = self.true_object();
                self.set_register(thread, slot, object);
            },
            Reply::Float(bits) => {
                if expectation != Expectation::Float {
                    return Err(Failure::UnexpectedReply);
                }
                self.clear_pending(thread);
                let prototype = self.float_prototype();
                self.set_register_new(thread, slot, object_value::float(bits), prototype);
            },
            Reply::Flag(flag) => {
                if expectation != Expectation::Flag {
                    return Err(Failure::UnexpectedReply);
                }
                self.clear_pending(thread);
                self.set_register_flag(thread, slot, flag);
            },
            Reply::Code(code) => {
                if expectation != Expectation::Code {
                    return Err(Failure::UnexpectedReply);
                }
                self.clear_pending(thread);
                self.run_code(thread, code, Vec::new(), Some(slot));
            },
        }
        Ok(())
    }

    /// Creates the main thread, which is about to run `code`, and returns
    /// its index.
    pub fn start(&mut self, code: RcCompiledCode) -> (thread: usize)
        requires
            old(self)@.wf(),
        ensures
            final(self)@ == old(self)@.spawn(*code, true),
            final(self)@.wf(),
            thread == old(self)@.threads.len(),
            final(self)@.has_thread(thread as int),
    {
        let (thread, _) = self.allocate_thread(code, true);
        thread
    }

    /// Whether no fatal error has occurred.
    pub fn exit_status(&self) -> (status: Result<(), ()>)
        ensures
            status is Err == self@.failed,
    {
        match self.exit_status {
            Ok(_) => Ok(()),
            Err(_) => Err(()),
        }
    }

    /// Asks every live thread to stop.
    pub fn stop(&mut self)
        requires
            old(self)@.wf(),
        ensures
            final(self)@ == old(self)@.stop_all(),
            final(self)@.wf(),
    {
        let mut i: usize = 0;
        assert(self@ =~~= old(self)@.stop_listed(0));
        while i < self.threads.len()
            invariant
                old(self)@.wf(),
                i <= old(self)@.live.len(),
                self@ == old(self)@.stop_listed(i as int),
            decreases old(self)@.live.len() - i,
        {
            proof {
                lemma_stop_listed_wf(old(self)@, i as int);
            }
            proof {
                lemma_stop_listed_next(old(self)@, i as int);
            }
            let object = self.threads.threads[i];
            match &self.object(object).value {
                ObjectValue::Thread(thread) => {
                    let thread = *thread;
                    assert(old(self)@.heap[object.0 as int].wf(
                        object.0 as int,
                        old(self)@.heap.len(),
                        old(self)@.threads.len(),
                    ));
                    self.contexts[thread].stop();
                    assert(self@ =~~= old(self)@.stop_listed(i + 1));
                },
                _ => {
                    assert(self@ =~~= old(self)@.stop_listed(i + 1));
                },
            }
            i = i + 1;
        }
        proof {
            lemma_stop_listed_wf(old(self)@, old(self)@.live.len() as int);
        }
    }

    /// Takes the thread's object off the list of live threads and unpins it.
    fn retire(&mut self, thread: usize)
        requires
            old(self)@.wf(),
            old(self)@.has_thread(thread as int),
        ensures
            final(self)@ == old(self)@.retire(thread as int),
            final(self)@.wf(),
    {
        proof {
            lemma_retire_wf(self@, thread as int);
        }
        assert(self@.threads[thread as int].wf(self@.heap.len()));
        match self.contexts[thread].object {
            Some(object) => {
                self.threads.remove(object);
                self.memory_manager.unpin(object);
                assert(self@ =~~= old(self)@.retire(thread as int));
            },
            None => {},
        }
    }

    /// Ends a thread with the value that its code returned.
    pub fn finish_thread(&mut self, thread: usize, value: Option<ObjectPointer>)
        requires
            old(self)@.wf(),
            old(self)@.has_thread(thread as int),
            value matches Some(object) ==> old(self)@.valid(object),
        ensures
            final(self)@ == old(self)@.finish(thread as int, value),
            final(self)@.wf(),
    {
        self.retire(thread);
        proof {
            let before = self@.threads[thread as int];
            assert(before.wf(self@.heap.len()));
            lemma_same_frames_wf(self@, thread as int, ThreadState { value, ..before });
        }
        self.contexts[thread].set_value(value);
        assert(self@ =~~= old(self)@.finish(thread as int, value));
    }

    /// Records a fatal error: the machine has failed from now on. Returns
    /// the report for standard error, the message and the thread's backtrace.
    pub fn error(&mut self, thread: usize, failure: &Fatal) -> (text: String)
        requires
            old(self)@.wf(),
            old(self)@.has_thread(thread as int),
        ensures
            final(self)@ == (MachineState { failed: true, ..old(self)@ }),
            final(self)@.wf(),
            text@ == report(failure@, old(self)@.threads[thread as int].frames),
    {
        self.exit_status = Err(());
        assert(self@ =~~= (MachineState { failed: true, ..old(self)@ }));
        render_report(failure, &self.contexts[thread].frames)
    }

    /// Ends a thread that met a fatal error, and asks the others to stop.
    /// Returns the report for standard error.
    pub fn fail_thread(&mut self, thread: usize, failure: &Fatal) -> (text: String)
        requires
            old(self)@.wf(),
            old(self)@.has_thread(thread as int),
        ensures
            final(self)@ == old(self)@.fail(thread as int),
            final(self)@.wf(),
            text@ == report(failure@, old(self)@.threads[thread as int].frames),
    {
        self.retire(thread);
        let text = self.error(thread, failure);
        self.stop();
        text
    }

    /// Runs a thread for up to `fuel` steps, and does what is due when it
    /// ends or fails. The text that comes with a failure is the report for
    /// standard error.
    pub fn run_thread(&mut self, thread: usize, fuel: usize) -> (result: Result<Progress, String>)
        requires
            old(self)@.wf(),
            old(self)@.has_thread(thread as int),
        ensures
            final(self)@.wf(),
            final(self)@ == run_thread(old(self)@, thread as int, fuel as nat).0,
            match run_thread(old(self)@, thread as int, fuel as nat).1 {
                Ok(progress) => result == Ok::<Progress, String>(progress),
                Err(text) => result is Err && result->Err_0@ == text,
            },
    {
        match self.run(thread, fuel) {
            Ok(Progress::Finished(value)) => {
                self.finish_thread(thread, value);
                Ok(Progress::Finished(value))
            },
            Ok(progress) => Ok(progress),
            Err(failure) => Err(self.fail_thread(thread, &failure)),
        }
    }
}

} // verus!
