//! Handlers for strings.
use vstd::prelude::*;
use vstd::string::StrSliceExecFns;
use vstd::utf8::{decode_utf8, encode_utf8, valid_utf8};
use crate::errors::{error_text, STRING_INVALID_UTF8};
use crate::instruction::Instruction;
use crate::memory_manager::{array_prototype, integer_prototype, string_prototype};
use crate::object::ObjectState;
use crate::object_pointer::{pointers_valid, ObjectPointer};
use crate::object_value;
use crate::object_value::Value;
use crate::state::{done, MachineState};
use crate::text::{
    count_to_integer, integer_to_byte, low_byte, lowercase, saturated, string_from_utf8,
    to_lowercase, to_uppercase, uppercase,
};
use crate::virtual_machine::VirtualMachine;
use crate::virtual_machine_result::{EmptyResult, Fatal, FatalSpec};

verus! {

/// The slot and the text of the string in the register that argument 1 names.
pub open spec fn string_operand(
    state: MachineState,
    thread: int,
    instruction: Instruction,
) -> Result<(usize, Seq<char>), FatalSpec> {
    match (instruction.spec_arg(0), state.operand(thread, instruction, 1)) {
        (Err(error), _) => Err(error),
        (_, Err(error)) => Err(error),
        (Ok(slot), Ok(object)) => match state.string_of(object) {
            Err(error) => Err(error),
            Ok(text) => Ok((slot, text)),
        },
    }
}

/// `StringToLower slot, string`: binds `slot` to a new string object that
/// holds the text in lowercase.
pub open spec fn string_to_lower(
    state: MachineState,
    thread: int,
    instruction: Instruction,
) -> Result<MachineState, FatalSpec> {
    match string_operand(state, thread, instruction) {
        Err(error) => Err(error),
        Ok((slot, text)) => Ok(
            state.bind_new(thread, slot, Value::String(lowercase(text)), Some(string_prototype())),
        ),
    }
}

/// `StringToUpper slot, string`: binds `slot` to a new string object that
/// holds the text in uppercase.
pub open spec fn string_to_upper(
    state: MachineState,
    thread: int,
    instruction: Instruction,
) -> Result<MachineState, FatalSpec> {
    match string_operand(state, thread, instruction) {
        Err(error) => Err(error),
        Ok((slot, text)) => Ok(
            state.bind_new(thread, slot, Value::String(uppercase(text)), Some(string_prototype())),
        ),
    }
}

/// `StringEquals slot, receiver, argument`: binds `slot` to the true
/// object if the two strings hold the same text, and to the false object
/// if not.
pub open spec fn string_equals(
    state: MachineState,
    thread: int,
    instruction: Instruction,
) -> Result<MachineState, FatalSpec> {
    match (
        instruction.spec_arg(0),
        state.operand(thread, instruction, 1),
        state.operand(thread, instruction, 2),
    ) {
        (Err(error), _, _) => Err(error),
        (_, Err(error), _) => Err(error),
        (_, _, Err(error)) => Err(error),
        (Ok(slot), Ok(receiver), Ok(argument)) => match (
            state.string_of(receiver),
            state.string_of(argument),
        ) {
            (Err(error), _) => Err(error),
            (_, Err(error)) => Err(error),
            (Ok(left), Ok(right)) => Ok(state.bind_flag(thread, slot, left == right)),
        },
    }
}

/// `StringLength slot, string`: binds `slot` to a new integer object that
/// holds the number of characters.
pub open spec fn string_length(
    state: MachineState,
    thread: int,
    instruction: Instruction,
) -> Result<MachineState, FatalSpec> {
    match string_operand(state, thread, instruction) {
        Err(error) => Err(error),
        Ok((slot, text)) => Ok(
            state.bind_new(
                thread,
                slot,
                Value::Integer(saturated(text.len())),
                Some(integer_prototype()),
            ),
        ),
    }
}

/// `StringSize slot, string`: binds `slot` to a new integer object that
/// holds the number of bytes of the text in UTF-8.
pub open spec fn string_size(state: MachineState, thread: int, instruction: Instruction) -> Result<
    MachineState,
    FatalSpec,
> {
    match string_operand(state, thread, instruction) {
        Err(error) => Err(error),
        Ok((slot, text)) => Ok(
            state.bind_new(
                thread,
                slot,
                Value::Integer(saturated(encode_utf8(text).len())),
                Some(integer_prototype()),
            ),
        ),
    }
}

/// One new integer object for each byte.
pub open spec fn byte_objects(bytes: Seq<u8>) -> Seq<ObjectState> {
    Seq::new(
        bytes.len(),
        |i: int| ObjectState::fresh(Value::Integer(bytes[i] as i64), Some(integer_prototype())),
    )
}

/// The handles of `count` objects allocated in a row on a heap of `base` objects.
pub open spec fn consecutive(base: nat, count: nat) -> Seq<ObjectPointer> {
    Seq::new(count, |i: int| ObjectPointer((base + i) as usize))
}

/// `StringToBytes slot, string`: allocates an integer object for each byte
/// of the text in UTF-8, in order, and binds `slot` to a new array of them.
pub open spec fn string_to_bytes(
    state: MachineState,
    thread: int,
    instruction: Instruction,
) -> Result<MachineState, FatalSpec> {
    match string_operand(state, thread, instruction) {
        Err(error) => Err(error),
        Ok((slot, text)) => {
            let bytes = encode_utf8(text);
            let filled = MachineState { heap: state.heap + byte_objects(bytes), ..state };
            Ok(
                filled.bind_new(
                    thread,
                    slot,
                    Value::Array(consecutive(state.heap.len(), bytes.len())),
                    Some(array_prototype()),
                ),
            )
        },
    }
}

/// The low bytes of the integers that the objects hold, or the error that
/// reports the first object that holds no integer.
pub open spec fn bytes_of(state: MachineState, items: Seq<ObjectPointer>) -> Result<
    Seq<u8>,
    FatalSpec,
>
    decreases items.len(),
{
    if items.len() == 0 {
        Ok(Seq::empty())
    } else {
        match bytes_of(state, items.drop_last()) {
            Err(error) => Err(error),
            Ok(bytes) => match state.integer_of(items.last()) {
                Err(error) => Err(error),
                Ok(value) => Ok(bytes.push(low_byte(value))),
            },
        }
    }
}

/// Once an object holds no integer, no longer list of objects yields bytes.
pub proof fn lemma_bytes_of_fails(state: MachineState, items: Seq<ObjectPointer>, position: int)
    requires
        0 <= position < items.len(),
        bytes_of(state, items.take(position)) is Ok,
        state.integer_of(items[position]) is Err,
    ensures
        bytes_of(state, items) == Err::<Seq<u8>, FatalSpec>(
            state.integer_of(items[position])->Err_0,
        ),
    decreases items.len(),
{
    if position == items.len() - 1 {
        assert(items.drop_last() =~= items.take(position));
    } else {
        assert(items.drop_last().take(position) =~= items.take(position));
        lemma_bytes_of_fails(state, items.drop_last(), position);
    }
}

/// `StringFromBytes slot, array`: binds `slot` to a new string object that
/// holds the text that the bytes in the array encode, or, if they are not
/// valid UTF-8, to a new error object.
pub open spec fn string_from_bytes(
    state: MachineState,
    thread: int,
    instruction: Instruction,
) -> Result<MachineState, FatalSpec> {
    match (instruction.spec_arg(0), state.operand(thread, instruction, 1)) {
        (Err(error), _) => Err(error),
        (_, Err(error)) => Err(error),
        (Ok(slot), Ok(array)) => match state.array_of(array) {
            Err(error) => Err(error),
            Ok(items) => match bytes_of(state, items) {
                Err(error) => Err(error),
                Ok(bytes) => Ok(state.bind_text(thread, slot, bytes)),
            },
        },
    }
}

impl MachineState {
    /// The state after `slot` is bound to a new string object that holds
    /// the text that the bytes encode, or, if they are not valid UTF-8, to a
    /// new error object.
    pub open spec fn bind_text(self, thread: int, slot: usize, bytes: Seq<u8>) -> MachineState {
        if valid_utf8(bytes) {
            self.bind_new(thread, slot, Value::String(decode_utf8(bytes)), Some(string_prototype()))
        } else {
            self.bind_new(thread, slot, Value::Error(STRING_INVALID_UTF8@), None)
        }
    }
}

impl VirtualMachine {
    /// Reads the slot and the string operand of an instruction.
    fn string_operand(&self, thread: usize, instruction: &Instruction) -> (result: Result<
        (usize, &String),
        Fatal,
    >)
        requires
            self@.wf(),
            self@.has_thread(thread as int),
        ensures
            string_operand(self@, thread as int, *instruction) matches Ok((slot, text))
                ==> result is Ok && result->Ok_0.0 == slot && result->Ok_0.1@ == text,
            string_operand(self@, thread as int, *instruction) matches Err(error) ==> result is Err
                && result->Err_0@ == error,
    {
        let slot = instruction.arg(0)?;
        let object = self.operand(thread, instruction, 1)?;
        let text = self.string_value(object)?;
        Ok((slot, text))
    }

    /// Binds a register to the text that the bytes encode, or to an error
    /// object if they are not valid UTF-8.
    pub fn set_register_text(&mut self, thread: usize, slot: usize, bytes: Vec<u8>)
        requires
            old(self)@.wf(),
            old(self)@.has_thread(thread as int),
        ensures
            final(self)@ == old(self)@.bind_text(thread as int, slot, bytes@),
            final(self)@.wf(),
    {
        match string_from_utf8(bytes) {
            Some(text) => {
                let prototype = self.string_prototype();
                self.set_register_new(thread, slot, object_value::string(text), prototype);
            },
            None => {
                self.set_register_error(thread, slot, error_text(STRING_INVALID_UTF8));
            },
        }
    }

    /// `StringToLower slot, string`.
    pub fn ins_string_to_lower(&mut self, thread: usize, instruction: &Instruction) -> (result:
        EmptyResult)
        requires
            old(self)@.wf(),
            old(self)@.has_thread(thread as int),
        ensures
            final(self)@.wf(),
            done(
                old(self)@,
                final(self)@,
                result,
                string_to_lower(old(self)@, thread as int, *instruction),
            ),
    {
        let (slot, text) = self.string_operand(thread, instruction)?;
        let lower = to_lowercase(text);
        let prototype = self.string_prototype();
        self.set_register_new(thread, slot, object_value::string(lower), prototype);
        Ok(())
    }

    /// `StringToUpper slot, string`.
    pub fn ins_string_to_upper(&mut self, thread: usize, instruction: &Instruction) -> (result:
        EmptyResult)
        requires
            old(self)@.wf(),
            old(self)@.has_thread(thread as int),
        ensures
            final(self)@.wf(),
            done(
                old(self)@,
                final(self)@,
                result,
                string_to_upper(old(self)@, thread as int, *instruction),
            ),
    {
        let (slot, text) = self.string_operand(thread, instruction)?;
        let upper = to_uppercase(text);
        let prototype = self.string_prototype();
        self.set_register_new(thread, slot, object_value::string(upper), prototype);
        Ok(())
    }

    /// `StringEquals slot, receiver, argument`.
    pub fn ins_string_equals(&mut self, thread: usize, instruction: &Instruction) -> (result:
        EmptyResult)
        requires
            old(self)@.wf(),
            old(self)@.has_thread(thread as int),
        ensures
            final(self)@.wf(),
            done(
                old(self)@,
                final(self)@,
                result,
                string_equals(old(self)@, thread as int, *instruction),
            ),
    {
        let slot = instruction.arg(0)?;
        let receiver = self.operand(thread, instruction, 1)?;
        let argument = self.operand(thread, instruction, 2)?;
        let left = self.string_value(receiver)?;
        let right = self.string_value(argument)?;
        let equal = *left == *right;
        self.set_register_flag(thread, slot, equal);
        Ok(())
    }

    /// `StringLength slot, string`.
    pub fn ins_string_length(&mut self, thread: usize, instruction: &Instruction) -> (result:
        EmptyResult)
        requires
            old(self)@.wf(),
            old(self)@.has_thread(thread as int),
        ensures
            final(self)@.wf(),
            done(
                old(self)@,
                final(self)@,
                result,
                string_length(old(self)@, thread as int, *instruction),
            ),
    {
        let (slot, text) = self.string_operand(thread, instruction)?;
        let length = text.as_str().unicode_len();
        let prototype = self.integer_prototype();
        self.set_register_new(
            thread,
            slot,
            object_value::integer(count_to_integer(length)),
            prototype,
        );
        Ok(())
    }

    /// `StringSize slot, string`.
    pub fn ins_string_size(&mut self, thread: usize, instruction: &Instruction) -> (result:
        EmptyResult)
        requires
            old(self)@.wf(),
            old(self)@.has_thread(thread as int),
        ensures
            final(self)@.wf(),
            done(
                old(self)@,
                final(self)@,
                result,
                string_size(old(self)@, thread as int, *instruction),
            ),
    {
        let (slot, text) = self.string_operand(thread, instruction)?;
        let size = text.as_str().as_bytes().len();
        let prototype = self.integer_prototype();
        self.set_register_new(
            thread,
            slot,
            object_value::integer(count_to_integer(size)),
            prototype,
        );
        Ok(())
    }

    /// `StringToBytes slot, string`.
    pub fn ins_string_to_bytes(&mut self, thread: usize, instruction: &Instruction) -> (result:
        EmptyResult)
        requires
            old(self)@.wf(),
            old(self)@.has_thread(thread as int),
        ensures
            final(self)@.wf(),
            done(
                old(self)@,
                final(self)@,
                result,
                string_to_bytes(old(self)@, thread as int, *instruction),
            ),
    {
        let (slot, text) = self.string_operand(thread, instruction)?;
        let bytes = text.as_str().as_bytes_vec();
        let ghost base = self@.heap.len();
        let mut items: Vec<ObjectPointer> = Vec::new();
        let mut i: usize = 0;
        while i < bytes.len()
            invariant
                i <= bytes@.len(),
                self@.wf(),
                self@ == (MachineState {
                    heap: old(self)@.heap + byte_objects(bytes@.take(i as int)),
                    ..old(self)@
                }),
                items@ == consecutive(base, i as nat),
                pointers_valid(items@, self@.heap.len()),
                base == old(self)@.heap.len(),
            decreases bytes@.len() - i,
        {
            let prototype = self.integer_prototype();
            let ghost before = self@;
            let pointer = self.allocate(object_value::integer(bytes[i] as i64), prototype);
            items.push(pointer);
            proof {
                assert(byte_objects(bytes@.take(i + 1)) =~= byte_objects(
                    bytes@.take(i as int),
                ).push(
                    ObjectState::fresh(Value::Integer(bytes@[i as int] as i64), Some(prototype)),
                ));
                assert(self@.heap =~= old(self)@.heap + byte_objects(bytes@.take(i + 1)));
                assert(items@ =~= consecutive(base, (i + 1) as nat));
            }
            i = i + 1;
        }
        assert(bytes@.take(i as int) =~= bytes@);
        let prototype = self.array_prototype();
        self.set_register_new(thread, slot, object_value::array(items), prototype);
        Ok(())
    }

    /// `StringFromBytes slot, array`.
    #[verifier::loop_isolation(false)]
    pub fn ins_string_from_bytes(&mut self, thread: usize, instruction: &Instruction) -> (result:
        EmptyResult)
        requires
            old(self)@.wf(),
            old(self)@.has_thread(thread as int),
        ensures
            final(self)@.wf(),
            done(
                old(self)@,
                final(self)@,
                result,
                string_from_bytes(old(self)@, thread as int, *instruction),
            ),
    {
        let slot = instruction.arg(0)?;
        let array = self.operand(thread, instruction, 1)?;
        let items = self.array_value(array)?;
        let mut bytes: Vec<u8> = Vec::new();
        let mut i: usize = 0;
        while i < items.len()
            invariant
                i <= items@.len(),
                pointers_valid(items@, self@.heap.len()),
                bytes_of(self@, items@.take(i as int)) == Ok::<Seq<u8>, FatalSpec>(bytes@),
            decreases items@.len() - i,
        {
            assert(items@.take(i + 1).drop_last() =~= items@.take(i as int));
            match self.integer_value(items[i]) {
                Ok(value) => {
                    bytes.push(integer_to_byte(value));
                },
                Err(error) => {
                    proof {
                        lemma_bytes_of_fails(self@, items@, i as int);
                    }
                    return Err(error);
                },
            }
            i = i + 1;
        }
        assert(items@.take(i as int) =~= items@);
        self.set_register_text(thread, slot, bytes);
        Ok(())
    }
}

} // verus!
