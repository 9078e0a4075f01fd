//! Handlers for standard error, standard input and files. The machine
//! checks the operands; the host reads and writes.
use vstd::prelude::*;
use crate::errors::{error_text, IO_INVALID_OPEN_MODE};
use crate::host::{OpenMode, Request};
use crate::instruction::Instruction;
use crate::instructions::string::string_operand;
use crate::object_value::Value;
use crate::state::{done, MachineState};
use crate::virtual_machine::VirtualMachine;
use crate::virtual_machine_result::{agrees, EmptyResult, Failure, Fatal, FatalSpec};

verus! {

/// The initial capacity of a reading buffer: the integer in the register
/// that the argument at `position` names, or zero if the instruction has
/// no such argument.
pub open spec fn read_capacity(
    state: MachineState,
    thread: int,
    instruction: Instruction,
    position: usize,
) -> Result<usize, FatalSpec> {
    if position < instruction.arguments@.len() {
        match state.operand(thread, instruction, position) {
            Err(error) => Err(error),
            Ok(object) => match state.integer_of(object) {
                Err(error) => Err(error),
                Ok(size) => if size < 0 || size > usize::MAX {
                    Err(Failure::InvalidCount(size))
                } else {
                    Ok(size as usize)
                },
            },
        }
    } else {
        Ok(0)
    }
}

/// The slot and the token of the file in the register that argument 1 names.
pub open spec fn file_operand(state: MachineState, thread: int, instruction: Instruction) -> Result<
    (usize, u64),
    FatalSpec,
> {
    match (instruction.spec_arg(0), state.operand(thread, instruction, 1)) {
        (Err(error), _) => Err(error),
        (_, Err(error)) => Err(error),
        (Ok(slot), Ok(object)) => match state.file_of(object) {
            Err(error) => Err(error),
            Ok(file) => Ok((slot, file)),
        },
    }
}

/// What a mode string asks for, if it is one of the six modes.
pub open spec fn open_mode(mode: Seq<char>) -> Option<OpenMode> {
    if mode == "r"@ {
        Some(OpenMode { read: true, write: false, truncate: false, create: false, append: false })
    } else if mode == "r+"@ {
        Some(OpenMode { read: true, write: true, truncate: true, create: true, append: false })
    } else if mode == "w"@ {
        Some(OpenMode { read: false, write: true, truncate: true, create: true, append: false })
    } else if mode == "w+"@ {
        Some(OpenMode { read: true, write: true, truncate: true, create: true, append: false })
    } else if mode == "a"@ {
        Some(OpenMode { read: false, write: false, truncate: false, create: true, append: true })
    } else if mode == "a+"@ {
        Some(OpenMode { read: true, write: false, truncate: false, create: true, append: true })
    } else {
        None
    }
}

/// Reads a mode string.
pub fn parse_open_mode(mode: &String) -> (parsed: Option<OpenMode>)
    ensures
        parsed == open_mode(mode@),
{
    if *mode == "r".to_owned() {
        Some(OpenMode { read: true, write: false, truncate: false, create: false, append: false })
    } else if *mode == "r+".to_owned() {
        Some(OpenMode { read: true, write: true, truncate: true, create: true, append: false })
    } else if *mode == "w".to_owned() {
        Some(OpenMode { read: false, write: true, truncate: true, create: true, append: false })
    } else if *mode == "w+".to_owned() {
        Some(OpenMode { read: true, write: true, truncate: true, create: true, append: false })
    } else if *mode == "a".to_owned() {
        Some(OpenMode { read: false, write: false, truncate: false, create: true, append: true })
    } else if *mode == "a+".to_owned() {
        Some(OpenMode { read: true, write: false, truncate: false, create: true, append: true })
    } else {
        None
    }
}

/// `StderrWrite slot, string`: asks the host to write the text to standard error.
pub open spec fn stderr_write(state: MachineState, thread: int, instruction: Instruction) -> Result<
    MachineState,
    FatalSpec,
> {
    match string_operand(state, thread, instruction) {
        Err(error) => Err(error),
        Ok((slot, text)) => Ok(state.wait(thread, Request::StderrWrite { slot, text })),
    }
}

/// `StdinRead slot [, size]`: asks the host to read standard input to its end.
pub open spec fn stdin_read(state: MachineState, thread: int, instruction: Instruction) -> Result<
    MachineState,
    FatalSpec,
> {
    match instruction.spec_arg(0) {
        Err(error) => Err(error),
        Ok(slot) => match read_capacity(state, thread, instruction, 1) {
            Err(error) => Err(error),
            Ok(capacity) => Ok(state.wait(thread, Request::StdinRead { slot, capacity })),
        },
    }
}

/// `StdinReadLine slot`: asks the host to read a line of standard input.
pub open spec fn stdin_read_line(
    state: MachineState,
    thread: int,
    instruction: Instruction,
) -> Result<MachineState, FatalSpec> {
    match instruction.spec_arg(0) {
        Err(error) => Err(error),
        Ok(slot) => Ok(state.wait(thread, Request::StdinReadLine { slot })),
    }
}

/// `FileOpen slot, path, mode`: asks the host to open the file at the path
/// in the way the mode string says. A mode string that is none of the six
/// modes makes `slot` an error object at once, and nothing is asked.
pub open spec fn file_open(state: MachineState, thread: int, instruction: Instruction) -> Result<
    MachineState,
    FatalSpec,
> {
    match (
        instruction.spec_arg(0),
        state.operand(thread, instruction, 1),
        state.operand(thread, instruction, 2),
    ) {
        (Err(error), _, _) => Err(error),
        (_, Err(error), _) => Err(error),
        (_, _, Err(error)) => Err(error),
        (Ok(slot), Ok(path_object), Ok(mode_object)) => match (
            state.string_of(path_object),
            state.string_of(mode_object),
        ) {
            (Err(error), _) => Err(error),
            (_, Err(error)) => Err(error),
            (Ok(path), Ok(mode)) => match open_mode(mode) {
                None => Ok(
                    state.bind_new(thread, slot, Value::Error(IO_INVALID_OPEN_MODE@), None),
                ),
                Some(mode) => Ok(state.wait(thread, Request::FileOpen { slot, path, mode })),
            },
        },
    }
}

/// `FileWrite slot, file, string`: asks the host to write the text to the file.
pub open spec fn file_write(state: MachineState, thread: int, instruction: Instruction) -> Result<
    MachineState,
    FatalSpec,
> {
    match (
        instruction.spec_arg(0),
        state.operand(thread, instruction, 1),
        state.operand(thread, instruction, 2),
    ) {
        (Err(error), _, _) => Err(error),
        (_, Err(error), _) => Err(error),
        (_, _, Err(error)) => Err(error),
        (Ok(slot), Ok(file_object), Ok(text_object)) => match (
            state.file_of(file_object),
            state.string_of(text_object),
        ) {
            (Err(error), _) => Err(error),
            (_, Err(error)) => Err(error),
            (Ok(file), Ok(text)) => Ok(state.wait(thread, Request::FileWrite { slot, file, text })),
        },
    }
}

/// `FileRead slot, file [, size]`: asks the host to read the file to its end.
pub open spec fn file_read(state: MachineState, thread: int, instruction: Instruction) -> Result<
    MachineState,
    FatalSpec,
> {
    match file_operand(state, thread, instruction) {
        Err(error) => Err(error),
        Ok((slot, file)) => match read_capacity(state, thread, instruction, 2) {
            Err(error) => Err(error),
            Ok(capacity) => Ok(state.wait(thread, Request::FileRead { slot, file, capacity })),
        },
    }
}

/// `FileReadLine slot, file`: asks the host to read a line of the file.
pub open spec fn file_read_line(
    state: MachineState,
    thread: int,
    instruction: Instruction,
) -> Result<MachineState, FatalSpec> {
    match file_operand(state, thread, instruction) {
        Err(error) => Err(error),
        Ok((slot, file)) => Ok(state.wait(thread, Request::FileReadLine { slot, file })),
    }
}

/// `FileFlush slot, file`: asks the host to flush the file.
pub open spec fn file_flush(state: MachineState, thread: int, instruction: Instruction) -> Result<
    MachineState,
    FatalSpec,
> {
    match file_operand(state, thread, instruction) {
        Err(error) => Err(error),
        Ok((slot, file)) => Ok(state.wait(thread, Request::FileFlush { slot, file })),
    }
}

/// `FileSize slot, file`: asks the host for the size of the file.
pub open spec fn file_size(state: MachineState, thread: int, instruction: Instruction) -> Result<
    MachineState,
    FatalSpec,
> {
    match file_operand(state, thread, instruction) {
        Err(error) => Err(error),
        Ok((slot, file)) => Ok(state.wait(thread, Request::FileSize { slot, file })),
    }
}

/// `FileSeek slot, file, offset`: asks the host to move the file's cursor
/// to the offset from the start that the integer in register `offset`
/// gives, which must not be negative.
pub open spec fn file_seek(state: MachineState, thread: int, instruction: Instruction) -> Result<
    MachineState,
    FatalSpec,
> {
    match (
        instruction.spec_arg(0),
        state.operand(thread, instruction, 1),
        state.operand(thread, instruction, 2),
    ) {
        (Err(error), _, _) => Err(error),
        (_, Err(error), _) => Err(error),
        (_, _, Err(error)) => Err(error),
        (Ok(slot), Ok(file_object), Ok(offset_object)) => match (
            state.file_of(file_object),
            state.integer_of(offset_object),
        ) {
            (Err(error), _) => Err(error),
            (_, Err(error)) => Err(error),
            (Ok(file), Ok(offset)) => if offset < 0 {
                Err(Failure::InvalidCount(offset))
            } else {
                Ok(state.wait(thread, Request::FileSeek { slot, file, offset: offset as u64 }))
            },
        },
    }
}

impl VirtualMachine {
    /// Reads the initial capacity of a reading buffer.
    fn read_capacity(&self, thread: usize, instruction: &Instruction, position: usize) -> (result:
        Result<usize, Fatal>)
        requires
            self@.wf(),
            self@.has_thread(thread as int),
        ensures
            agrees(result, read_capacity(self@, thread as int, *instruction, position)),
    {
        if position < instruction.arguments.len() {
            let object = self.operand(thread, instruction, position)?;
            let size = self.integer_value(object)?;
            if size < 0 || size as u64 > usize::MAX as u64 {
                return Err(Failure::InvalidCount(size));
            }
            Ok(size as usize)
        } else {
            Ok(0)
        }
    }

    /// Reads the slot and the file operand of an instruction.
    fn file_operand(&self, thread: usize, instruction: &Instruction) -> (result: Result<
        (usize, u64),
        Fatal,
    >)
        requires
            self@.wf(),
            self@.has_thread(thread as int),
        ensures
            agrees(result, file_operand(self@, thread as int, *instruction)),
    {
        let slot = instruction.arg(0)?;
        let object = self.operand(thread, instruction, 1)?;
        let file = self.file_value(object)?;
        Ok((slot, file))
    }

    /// `StderrWrite slot, string`.
    pub fn ins_stderr_write(&mut self, thread: usize, instruction: &Instruction) -> (result:
        EmptyResult)
        requires
            old(self)@.wf(),
            old(self)@.has_thread(thread as int),
        ensures
            final(self)@.wf(),
            done(
                old(self)@,
                final(self)@,
                result,
                stderr_write(old(self)@, thread as int, *instruction),
            ),
    {
        let slot = instruction.arg(0)?;
        let object = self.operand(thread, instruction, 1)?;
        let text = self.string_value(object)?.clone();
        self.suspend(thread, Request::StderrWrite { slot, text });
        Ok(())
    }

    /// `StdinRead slot [, size]`.
    pub fn ins_stdin_read(&mut self, thread: usize, instruction: &Instruction) -> (result:
        EmptyResult)
        requires
            old(self)@.wf(),
            old(self)@.has_thread(thread as int),
        ensures
            final(self)@.wf(),
            done(
                old(self)@,
                final(self)@,
                result,
                stdin_read(old(self)@, thread as int, *instruction),
            ),
    {
        let slot = instruction.arg(0)?;
        let capacity = self.read_capacity(thread, instruction, 1)?;
        self.suspend(thread, Request::StdinRead { slot, capacity });
        Ok(())
    }

    /// `StdinReadLine slot`.
    pub fn ins_stdin_read_line(&mut self, thread: usize, instruction: &Instruction) -> (result:
        EmptyResult)
        requires
            old(self)@.wf(),
            old(self)@.has_thread(thread as int),
        ensures
            final(self)@.wf(),
            done(
                old(self)@,
                final(self)@,
                result,
                stdin_read_line(old(self)@, thread as int, *instruction),
            ),
    {
        let slot = instruction.arg(0)?;
        self.suspend(thread, Request::StdinReadLine { slot });
        Ok(())
    }

    /// `FileOpen slot, path, mode`.
    pub fn ins_file_open(&mut self, thread: usize, instruction: &Instruction) -> (result:
        EmptyResult)
        requires
            old(self)@.wf(),
            old(self)@.has_thread(thread as int),
        ensures
            final(self)@.wf(),
            done(
                old(self)@,
                final(self)@,
                result,
                file_open(old(self)@, thread as int, *instruction),
            ),
    {
        let slot = instruction.arg(0)?;
        let path_object = self.operand(thread, instruction, 1)?;
        let mode_object = self.operand(thread, instruction, 2)?;
        let path = self.string_value(path_object)?.clone();
        let mode = self.string_value(mode_object)?;
        match parse_open_mode(mode) {
            Some(mode) => {
                self.suspend(thread, Request::FileOpen { slot, path, mode });
            },
            None => {
                self.set_register_error(thread, slot, error_text(IO_INVALID_OPEN_MODE));
            },
        }
        Ok(())
    }

    /// `FileWrite slot, file, string`.
    pub fn ins_file_write(&mut self, thread: usize, instruction: &Instruction) -> (result:
        EmptyResult)
        requires
            old(self)@.wf(),
            old(self)@.has_thread(thread as int),
        ensures
            final(self)@.wf(),
            done(
                old(self)@,
                final(self)@,
                result,
                file_write(old(self)@, thread as int, *instruction),
            ),
    {
        let slot = instruction.arg(0)?;
        let file_object = self.operand(thread, instruction, 1)?;
        let text_object = self.operand(thread, instruction, 2)?;
        let file = self.file_value(file_object)?;
        let text = self.string_value(text_object)?.clone();
        self.suspend(thread, Request::FileWrite { slot, file, text });
        Ok(())
    }

    /// `FileRead slot, file [, size]`.
    pub fn ins_file_read(&mut self, thread: usize, instruction: &Instruction) -> (result:
        EmptyResult)
        requires
            old(self)@.wf(),
            old(self)@.has_thread(thread as int),
        ensures
            final(self)@.wf(),
            done(
                old(self)@,
                final(self)@,
                result,
                file_read(old(self)@, thread as int, *instruction),
            ),
    {
        let (slot, file) = self.file_operand(thread, instruction)?;
        let capacity = self.read_capacity(thread, instruction, 2)?;
        self.suspend(thread, Request::FileRead { slot, file, capacity });
        Ok(())
    }

    /// `FileReadLine slot, file`.
    pub fn ins_file_read_line(&mut self, thread: usize, instruction: &Instruction) -> (result:
        EmptyResult)
        requires
            old(self)@.wf(),
            old(self)@.has_thread(thread as int),
        ensures
            final(self)@.wf(),
            done(
                old(self)@,
                final(self)@,
                result,
                file_read_line(old(self)@, thread as int, *instruction),
            ),
    {
        let (slot, file) = self.file_operand(thread, instruction)?;
        self.suspend(thread, Request::FileReadLine { slot, file });
        Ok(())
    }

    /// `FileFlush slot, file`.
    pub fn ins_file_flush(&mut self, thread: usize, instruction: &Instruction) -> (result:
        EmptyResult)
        requires
            old(self)@.wf(),
            old(self)@.has_thread(thread as int),
        ensures
            final(self)@.wf(),
            done(
                old(self)@,
                final(self)@,
                result,
                file_flush(old(self)@, thread as int, *instruction),
            ),
    {
        let (slot, file) = self.file_operand(thread, instruction)?;
        self.suspend(thread, Request::FileFlush { slot, file });
        Ok(())
    }

    /// `FileSize slot, file`.
    pub fn ins_file_size(&mut self, thread: usize, instruction: &Instruction) -> (result:
        EmptyResult)
        requires
            old(self)@.wf(),
            old(self)@.has_thread(thread as int),
        ensures
            final(self)@.wf(),
            done(
                old(self)@,
                final(self)@,
                result,
                file_size(old(self)@, thread as int, *instruction),
            ),
    {
        let (slot, file) = self.file_operand(thread, instruction)?;
        self.suspend(thread, Request::FileSize { slot, file });
        Ok(())
    }

    /// `FileSeek slot, file, offset`.
    pub fn ins_file_seek(&mut self, thread: usize, instruction: &Instruction) -> (result:
        EmptyResult)
        requires
            old(self)@.wf(),
            old(self)@.has_thread(thread as int),
        ensures
            final(self)@.wf(),
            done(
                old(self)@,
                final(self)@,
                result,
                file_seek(old(self)@, thread as int, *instruction),
            ),
    {
        let slot = instruction.arg(0)?;
        let file_object = self.operand(thread, instruction, 1)?;
        let offset_object = self.operand(thread, instruction, 2)?;
        let file = self.file_value(file_object)?;
        let offset = self.integer_value(offset_object)?;
        if offset < 0 {
            return Err(Failure::InvalidCount(offset));
        }
        self.suspend(thread, Request::FileSeek { slot, file, offset: offset as u64 });
        Ok(())
    }
}

} // verus!
