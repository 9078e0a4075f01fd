//! Call frames: one invocation of a compiled code.
use vstd::prelude::*;
use std::collections::HashMap;
use crate::compiled_code::{share, CompiledCode, RcCompiledCode};
use crate::object_pointer::{pointers_valid, ObjectPointer};

verus! {

/// One invocation of a compiled code: where it is in its instructions, its
/// registers and locals, the value its last `Return` recorded, and the
/// register of the caller that receives that value.
pub struct CallFrame {
    pub code: RcCompiledCode,
    pub index: usize,
    pub registers: HashMap<usize, ObjectPointer>,
    pub locals: Vec<ObjectPointer>,
    pub return_value: Option<ObjectPointer>,
    pub result_slot: Option<usize>,
}

/// The mathematical value of a [`CallFrame`].
#[verifier::ext_equal]
pub struct FrameState {
    pub code: CompiledCode,
    pub index: usize,
    pub registers: Map<usize, ObjectPointer>,
    pub locals: Seq<ObjectPointer>,
    pub return_value: Option<ObjectPointer>,
    pub result_slot: Option<usize>,
}

impl View for CallFrame {
    type V = FrameState;

    open spec fn view(&self) -> FrameState {
        FrameState {
            code: *self.code,
            index: self.index,
            registers: self.registers@,
            locals: self.locals@,
            return_value: self.return_value,
            result_slot: self.result_slot,
        }
    }
}

impl FrameState {
    /// The frame of a code that is about to run its first instruction.
    pub open spec fn from_code(code: CompiledCode, result_slot: Option<usize>) -> FrameState {
        FrameState {
            code,
            index: 0,
            registers: Map::empty(),
            locals: Seq::empty(),
            return_value: None,
            result_slot,
        }
    }

    /// Whether every object the frame refers to is one of the first `objects` heap cells.
    pub open spec fn wf(self, objects: nat) -> bool {
        &&& forall|slot: usize|
            self.registers.contains_key(slot) ==> (#[trigger] self.registers[slot]).0 < objects
        &&& pointers_valid(self.locals, objects)
        &&& self.return_value matches Some(value) ==> value.0 < objects
    }
}

impl CallFrame {
    /// The frame of a code that is about to run its first instruction. The
    /// value the code returns goes to `result_slot` of the calling frame.
    pub fn from_code(code: RcCompiledCode, result_slot: Option<usize>) -> (frame: CallFrame)
        ensures
            frame@ == FrameState::from_code(*code, result_slot),
    {
        let frame = CallFrame {
            code,
            index: 0,
            registers: HashMap::new(),
            locals: Vec::new(),
            return_value: None,
            result_slot,
        };
        assert(frame@ =~= FrameState::from_code(*code, result_slot));
        frame
    }

    /// The declared name of the code that the frame runs.
    pub fn name(&self) -> (name: &String)
        ensures
            *name == self@.code.name,
    {
        &self.code.name
    }

    /// The source file of the code that the frame runs.
    pub fn file(&self) -> (file: &String)
        ensures
            *file == self@.code.file,
    {
        &self.code.file
    }

    /// The source line of the code that the frame runs.
    pub fn line(&self) -> (line: usize)
        ensures
            line == self@.code.line,
    {
        self.code.line
    }

    /// Another handle to the code that the frame runs.
    pub fn code(&self) -> (code: RcCompiledCode)
        ensures
            *code == self@.code,
    {
        share(&self.code)
    }
}

} // verus!
