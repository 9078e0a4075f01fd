//! Threads: a stack of call frames and the flags that govern its execution.
use vstd::prelude::*;
use crate::call_frame::{CallFrame, FrameState};
use crate::compiled_code::{CompiledCode, RcCompiledCode};
use crate::host::{Request, RequestSpec};
use crate::object_pointer::ObjectPointer;
use crate::virtual_machine_result::{Failure, Fatal, FatalSpec};

verus! {

/// An execution context. The innermost call frame is the last of `frames`,
/// and a thread always has at least one frame.
pub struct Thread {
    pub frames: Vec<CallFrame>,
    /// Set to ask the thread to end at its next step.
    pub should_stop: bool,
    /// Whether this is the thread the machine was started on.
    pub main: bool,
    /// What the thread's code returned, once it has ended.
    pub value: Option<ObjectPointer>,
    /// The request the thread waits on, if it waits.
    pub pending: Option<Request<String>>,
    /// The heap object that wraps the thread, if it has one.
    pub object: Option<ObjectPointer>,
}

/// The mathematical value of a [`Thread`].
#[verifier::ext_equal]
pub struct ThreadState {
    pub frames: Seq<FrameState>,
    pub should_stop: bool,
    pub main: bool,
    pub value: Option<ObjectPointer>,
    pub pending: Option<RequestSpec>,
    pub object: Option<ObjectPointer>,
}

impl View for Thread {
    type V = ThreadState;

    open spec fn view(&self) -> ThreadState {
        ThreadState {
            frames: self.frames@.map_values(|frame: CallFrame| frame@),
            should_stop: self.should_stop,
            main: self.main,
            value: self.value,
            pending: match self.pending {
                Some(request) => Some(request@),
                None => None,
            },
            object: self.object,
        }
    }
}

impl ThreadState {
    /// A thread that is about to run the first instruction of `code`.
    pub open spec fn from_code(code: CompiledCode, main: bool) -> ThreadState {
        ThreadState {
            frames: seq![FrameState::from_code(code, None)],
            should_stop: false,
            main,
            value: None,
            pending: None,
            object: None,
        }
    }

    /// Whether the thread has a frame and refers only to the first `objects` heap cells.
    pub open spec fn wf(self, objects: nat) -> bool {
        &&& self.frames.len() > 0
        &&& forall|i: int| 0 <= i < self.frames.len() ==> (#[trigger] self.frames[i]).wf(objects)
        &&& self.value matches Some(value) ==> value.0 < objects
        &&& self.object matches Some(object) ==> object.0 < objects
    }

    /// The innermost frame.
    pub open spec fn current(self) -> FrameState {
        self.frames.last()
    }

    /// The thread with its innermost frame replaced.
    pub open spec fn with_current(self, frame: FrameState) -> ThreadState {
        ThreadState { frames: self.frames.update(self.frames.len() - 1, frame), ..self }
    }

    /// What `slot` of the innermost frame holds.
    pub open spec fn register(self, slot: usize) -> Option<ObjectPointer> {
        if self.current().registers.contains_key(slot) {
            Some(self.current().registers[slot])
        } else {
            None
        }
    }

    /// What `slot` holds, or the error that reports it unset.
    pub open spec fn get_register(self, slot: usize) -> Result<ObjectPointer, FatalSpec> {
        match self.register(slot) {
            Some(object) => Ok(object),
            None => Err(Failure::UndefinedRegister(slot)),
        }
    }

    /// The local variable at `index`, or the error that reports it out of range.
    pub open spec fn get_local(self, index: usize) -> Result<ObjectPointer, FatalSpec> {
        if index < self.current().locals.len() {
            Ok(self.current().locals[index as int])
        } else {
            Err(Failure::UndefinedLocal(index))
        }
    }

    pub open spec fn set_register(self, slot: usize, object: ObjectPointer) -> ThreadState {
        self.with_current(
            FrameState {
                registers: self.current().registers.insert(slot, object),
                ..self.current()
            },
        )
    }

    pub open spec fn add_local(self, object: ObjectPointer) -> ThreadState {
        self.with_current(
            FrameState { locals: self.current().locals.push(object), ..self.current() },
        )
    }

    pub open spec fn set_local(self, index: usize, object: ObjectPointer) -> ThreadState {
        self.with_current(
            FrameState {
                locals: self.current().locals.update(index as int, object),
                ..self.current()
            },
        )
    }

    pub open spec fn set_index(self, index: usize) -> ThreadState {
        self.with_current(FrameState { index, ..self.current() })
    }

    pub open spec fn set_return_value(self, value: Option<ObjectPointer>) -> ThreadState {
        self.with_current(FrameState { return_value: value, ..self.current() })
    }

    pub open spec fn push_call_frame(self, frame: FrameState) -> ThreadState {
        ThreadState { frames: self.frames.push(frame), ..self }
    }

    pub open spec fn pop_call_frame(self) -> ThreadState {
        ThreadState { frames: self.frames.drop_last(), ..self }
    }
}

impl Thread {
    /// A thread that is about to run the first instruction of `code`.
    pub fn from_code(code: RcCompiledCode) -> (thread: Thread)
        ensures
            thread@ == ThreadState::from_code(*code, false),
    {
        let mut frames: Vec<CallFrame> = Vec::new();
        frames.push(CallFrame::from_code(code, None));
        let thread = Thread {
            frames,
            should_stop: false,
            main: false,
            value: None,
            pending: None,
            object: None,
        };
        assert(thread@ =~= ThreadState::from_code(*code, false));
        thread
    }

    /// Marks the thread as the one the machine was started on.
    pub fn set_main(&mut self)
        ensures
            final(self)@ == (ThreadState { main: true, ..old(self)@ }),
    {
        self.main = true;
    }

    pub fn is_main(&self) -> (main: bool)
        ensures
            main == self@.main,
    {
        self.main
    }

    pub fn should_stop(&self) -> (stop: bool)
        ensures
            stop == self@.should_stop,
    {
        self.should_stop
    }

    /// Asks the thread to end at its next step.
    pub fn stop(&mut self)
        ensures
            final(self)@ == (ThreadState { should_stop: true, ..old(self)@ }),
    {
        self.should_stop = true;
    }

    /// Records what the thread's code returned.
    pub fn set_value(&mut self, value: Option<ObjectPointer>)
        ensures
            final(self)@ == (ThreadState { value, ..old(self)@ }),
    {
        self.value = value;
    }

    /// The number of call frames.
    pub fn depth(&self) -> (depth: usize)
        ensures
            depth == self@.frames.len(),
    {
        self.frames.len()
    }

    /// The innermost frame.
    pub fn current(&self) -> (frame: &CallFrame)
        requires
            self@.frames.len() > 0,
        ensures
            frame@ == self@.current(),
    {
        &self.frames[self.frames.len() - 1]
    }

    /// What `slot` of the innermost frame holds, if it was written.
    pub fn get_register_option(&self, slot: usize) -> (object: Option<ObjectPointer>)
        requires
            self@.frames.len() > 0,
        ensures
            object == self@.register(slot),
    {
        let frame = &self.frames[self.frames.len() - 1];
        match frame.registers.get(&slot) {
            Some(object) => Some(*object),
            None => None,
        }
    }

    /// What `slot` of the innermost frame holds.
    pub fn get_register(&self, slot: usize) -> (result: Result<ObjectPointer, Fatal>)
        requires
            self@.frames.len() > 0,
        ensures
            self@.get_register(slot) matches Ok(object) ==> result == Ok::<ObjectPointer, Fatal>(
                object,
            ),
            self@.get_register(slot) matches Err(error) ==> result is Err && result->Err_0@
                == error,
    {
        match self.get_register_option(slot) {
            Some(object) => Ok(object),
            None => Err(Failure::UndefinedRegister(slot)),
        }
    }

    /// Writes `slot` of the innermost frame.
    pub fn set_register(&mut self, slot: usize, object: ObjectPointer)
        requires
            old(self)@.frames.len() > 0,
        ensures
            final(self)@ == old(self)@.set_register(slot, object),
    {
        let top = self.frames.len() - 1;
        self.frames[top].registers.insert(slot, object);
        assert(self@ =~~= old(self)@.set_register(slot, object));
    }

    /// The local variable at `index` of the innermost frame.
    pub fn get_local(&self, index: usize) -> (result: Result<ObjectPointer, Fatal>)
        requires
            self@.frames.len() > 0,
        ensures
            self@.get_local(index) matches Ok(object) ==> result == Ok::<ObjectPointer, Fatal>(
                object,
            ),
            self@.get_local(index) matches Err(error) ==> result is Err && result->Err_0@ == error,
    {
        let frame = &self.frames[self.frames.len() - 1];
        if index < frame.locals.len() {
            Ok(frame.locals[index])
        } else {
            Err(Failure::UndefinedLocal(index))
        }
    }

    /// Appends a local variable to the innermost frame.
    pub fn add_local(&mut self, object: ObjectPointer)
        requires
            old(self)@.frames.len() > 0,
        ensures
            final(self)@ == old(self)@.add_local(object),
    {
        let top = self.frames.len() - 1;
        self.frames[top].locals.push(object);
        assert(self@ =~~= old(self)@.add_local(object));
    }

    /// Assigns the local variable at `index` of the innermost frame.
    pub fn set_local(&mut self, index: usize, object: ObjectPointer) -> (result: Result<(), Fatal>)
        requires
            old(self)@.frames.len() > 0,
        ensures
            index < old(self)@.current().locals.len() ==> result is Ok && final(self)@ == old(
                self,
            )@.set_local(index, object),
            index >= old(self)@.current().locals.len() ==> result is Err && result->Err_0@
                == Failure::<Seq<char>>::UndefinedLocal(index) && final(self)@ == old(self)@,
    {
        let top = self.frames.len() - 1;
        if index < self.frames[top].locals.len() {
            self.frames[top].locals[index] = object;
            assert(self@ =~~= old(self)@.set_local(index, object));
            Ok(())
        } else {
            Err(Failure::UndefinedLocal(index))
        }
    }

    /// Moves the innermost frame to the instruction at `index`.
    pub fn set_index(&mut self, index: usize)
        requires
            old(self)@.frames.len() > 0,
        ensures
            final(self)@ == old(self)@.set_index(index),
    {
        let top = self.frames.len() - 1;
        self.frames[top].index = index;
        assert(self@ =~~= old(self)@.set_index(index));
    }

    /// Records the value that the innermost frame returns.
    pub fn set_return_value(&mut self, value: Option<ObjectPointer>)
        requires
            old(self)@.frames.len() > 0,
        ensures
            final(self)@ == old(self)@.set_return_value(value),
    {
        let top = self.frames.len() - 1;
        self.frames[top].return_value = value;
        assert(self@ =~~= old(self)@.set_return_value(value));
    }

    /// Enters a new innermost frame.
    pub fn push_call_frame(&mut self, frame: CallFrame)
        ensures
            final(self)@ == old(self)@.push_call_frame(frame@),
    {
        self.frames.push(frame);
        assert(self@ =~~= old(self)@.push_call_frame(frame@));
    }

    /// Leaves the innermost frame, which must not be the only one.
    pub fn pop_call_frame(&mut self)
        requires
            old(self)@.frames.len() > 1,
        ensures
            final(self)@ == old(self)@.pop_call_frame(),
    {
        self.frames.pop();
        assert(self@ =~~= old(self)@.pop_call_frame());
    }
}

} // verus!
