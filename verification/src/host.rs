//! What the machine asks of its host, and what the host answers.
//!
//! The machine never touches the standard streams, the filesystem, the
//! bytecode parser or floating-point hardware. An instruction that needs one
//! of them checks its operands, leaves a [`Request`] with its thread, and the
//! thread waits. The host performs the request and hands the [`Reply`] to
//! `resume`, which stores the result as the instruction prescribes.
use vstd::prelude::*;
use crate::compiled_code::{CompiledCode, RcCompiledCode};
use crate::errors::IoError;

verus! {

/// How a file is to be opened.
#[derive(Clone, Copy, Debug, PartialEq, Eq, Structural)]
pub struct OpenMode {
    pub read: bool,
    pub write: bool,
    pub truncate: bool,
    pub create: bool,
    pub append: bool,
}

/// An arithmetic operation on two floats.
#[derive(Clone, Copy, Debug, PartialEq, Eq, Structural)]
pub enum FloatOperation {
    Add,
    Sub,
    Mul,
    Div,
    Mod,
}

/// A comparison of two floats.
#[derive(Clone, Copy, Debug, PartialEq, Eq, Structural)]
pub enum FloatComparison {
    Smaller,
    Greater,
    Equals,
}

/// Work for the host. `slot` is the register that receives the result.
///
/// `T` is the representation of text: `String` in executable code and
/// `Seq<char>` in specifications. Floats travel as IEEE-754 binary64 bit
/// patterns and files as the tokens the host gave them.
#[derive(Clone, Debug, PartialEq, Eq)]
pub enum Request<T> {
    /// Write the text to standard output and flush; answer with the number of bytes written.
    StdoutWrite { slot: usize, text: T },
    /// Write the text to standard error; answer with the number of bytes written.
    StderrWrite { slot: usize, text: T },
    /// Read standard input to its end into a buffer of the given initial capacity.
    StdinRead { slot: usize, capacity: usize },
    /// Read standard input through the first line feed.
    StdinReadLine { slot: usize },
    /// Open the file at `path`; answer with a token for it.
    FileOpen { slot: usize, path: T, mode: OpenMode },
    /// Write the text to the file; answer with the number of bytes written.
    FileWrite { slot: usize, file: u64, text: T },
    /// Read the file to its end into a buffer of the given initial capacity.
    FileRead { slot: usize, file: u64, capacity: usize },
    /// Read bytes of the file through the first line feed.
    FileReadLine { slot: usize, file: u64 },
    /// Flush the file.
    FileFlush { slot: usize, file: u64 },
    /// Answer with the size of the file in bytes.
    FileSize { slot: usize, file: u64 },
    /// Move the file's cursor to `offset` bytes from its start; answer with the new position.
    FileSeek { slot: usize, file: u64, offset: u64 },
    /// Parse the bytecode file at `path`.
    ParseFile { slot: usize, path: T },
    /// Compute `left operation right`.
    FloatArithmetic { slot: usize, operation: FloatOperation, left: u64, right: u64 },
    /// Decide `left comparison right`.
    FloatCompare { slot: usize, comparison: FloatComparison, left: u64, right: u64 },
    /// Truncate the float toward zero.
    FloatToInteger { slot: usize, value: u64 },
    /// Format the float as the shortest text that reads back as the same float.
    FloatToString { slot: usize, value: u64 },
    /// Convert the integer to the nearest float.
    IntegerToFloat { slot: usize, integer: i64 },
}

/// A request as specifications state it.
pub type RequestSpec = Request<Seq<char>>;

impl View for Request<String> {
    type V = Request<Seq<char>>;

    open spec fn view(&self) -> Request<Seq<char>> {
        match *self {
            Request::StdoutWrite { slot, text } => Request::StdoutWrite { slot, text: text@ },
            Request::StderrWrite { slot, text } => Request::StderrWrite { slot, text: text@ },
            Request::StdinRead { slot, capacity } => Request::StdinRead { slot, capacity },
            Request::StdinReadLine { slot } => Request::StdinReadLine { slot },
            Request::FileOpen { slot, path, mode } => Request::FileOpen { slot, path: path@, mode },
            Request::FileWrite { slot, file, text } => Request::FileWrite {
                slot,
                file,
                text: text@,
            },
            Request::FileRead { slot, file, capacity } => Request::FileRead {
                slot,
                file,
                capacity,
            },
            Request::FileReadLine { slot, file } => Request::FileReadLine { slot, file },
            Request::FileFlush { slot, file } => Request::FileFlush { slot, file },
            Request::FileSize { slot, file } => Request::FileSize { slot, file },
            Request::FileSeek { slot, file, offset } => Request::FileSeek { slot, file, offset },
            Request::ParseFile { slot, path } => Request::ParseFile { slot, path: path@ },
            Request::FloatArithmetic { slot, operation, left, right } => Request::FloatArithmetic {
                slot,
                operation,
                left,
                right,
            },
            Request::FloatCompare { slot, comparison, left, right } => Request::FloatCompare {
                slot,
                comparison,
                left,
                right,
            },
            Request::FloatToInteger { slot, value } => Request::FloatToInteger { slot, value },
            Request::FloatToString { slot, value } => Request::FloatToString { slot, value },
            Request::IntegerToFloat { slot, integer } => Request::IntegerToFloat { slot, integer },
        }
    }
}

/// The host's answer to a request.
pub enum Reply {
    /// A count, a size, a position or a truncated float.
    Integer(i64),
    /// Text that was read or formatted.
    Text(String),
    /// Bytes that were read.
    Bytes(Vec<u8>),
    /// The token of a file that was opened.
    File(u64),
    /// The request was carried out and has no result.
    Done,
    /// The bit pattern of a float that was computed.
    Float(u64),
    /// The outcome of a comparison.
    Flag(bool),
    /// The compiled code that a file held.
    Code(RcCompiledCode),
    /// Input or output failed.
    Error(IoError),
    /// The file could not be parsed; the text says why.
    Failed(String),
}

/// The mathematical value of a [`Reply`].
pub enum ReplySpec {
    Integer(i64),
    Text(Seq<char>),
    Bytes(Seq<u8>),
    File(u64),
    Done,
    Float(u64),
    Flag(bool),
    Code(CompiledCode),
    Error(IoError),
    Failed(Seq<char>),
}

impl View for Reply {
    type V = ReplySpec;

    open spec fn view(&self) -> ReplySpec {
        match *self {
            Reply::Integer(value) => ReplySpec::Integer(value),
            Reply::Text(text) => ReplySpec::Text(text@),
            Reply::Bytes(bytes) => ReplySpec::Bytes(bytes@),
            Reply::File(token) => ReplySpec::File(token),
            Reply::Done => ReplySpec::Done,
            Reply::Float(bits) => ReplySpec::Float(bits),
            Reply::Flag(flag) => ReplySpec::Flag(flag),
            Reply::Code(code) => ReplySpec::Code(*code),
            Reply::Error(error) => ReplySpec::Error(error),
            Reply::Failed(text) => ReplySpec::Failed(text@),
        }
    }
}

/// The shape of the reply that a request expects when it succeeds.
#[derive(Clone, Copy, Debug, PartialEq, Eq, Structural)]
pub enum Expectation {
    /// `Reply::Integer`.
    Integer,
    /// `Reply::Text`.
    Text,
    /// `Reply::Bytes`.
    Bytes,
    /// `Reply::File`.
    File,
    /// `Reply::Done`.
    Done,
    /// `Reply::Float`.
    Float,
    /// `Reply::Flag`.
    Flag,
    /// `Reply::Code`.
    Code,
}

impl<T> Request<T> {
    /// The register that receives the result.
    pub open spec fn slot(self) -> usize {
        match self {
            Request::StdoutWrite { slot, .. } => slot,
            Request::StderrWrite { slot, .. } => slot,
            Request::StdinRead { slot, .. } => slot,
            Request::StdinReadLine { slot } => slot,
            Request::FileOpen { slot, .. } => slot,
            Request::FileWrite { slot, .. } => slot,
            Request::FileRead { slot, .. } => slot,
            Request::FileReadLine { slot, .. } => slot,
            Request::FileFlush { slot, .. } => slot,
            Request::FileSize { slot, .. } => slot,
            Request::FileSeek { slot, .. } => slot,
            Request::ParseFile { slot, .. } => slot,
            Request::FloatArithmetic { slot, .. } => slot,
            Request::FloatCompare { slot, .. } => slot,
            Request::FloatToInteger { slot, .. } => slot,
            Request::FloatToString { slot, .. } => slot,
            Request::IntegerToFloat { slot, .. } => slot,
        }
    }

    /// The shape of the reply that the request expects when it succeeds.
    pub open spec fn expectation(self) -> Expectation {
        match self {
            Request::StdoutWrite { .. } => Expectation::Integer,
            Request::StderrWrite { .. } => Expectation::Integer,
            Request::StdinRead { .. } => Expectation::Text,
            Request::StdinReadLine { .. } => Expectation::Text,
            Request::FileOpen { .. } => Expectation::File,
            Request::FileWrite { .. } => Expectation::Integer,
            Request::FileRead { .. } => Expectation::Text,
            Request::FileReadLine { .. } => Expectation::Bytes,
            Request::FileFlush { .. } => Expectation::Done,
            Request::FileSize { .. } => Expectation::Integer,
            Request::FileSeek { .. } => Expectation::Integer,
            Request::ParseFile { .. } => Expectation::Code,
            Request::FloatArithmetic { .. } => Expectation::Float,
            Request::FloatCompare { .. } => Expectation::Flag,
            Request::FloatToInteger { .. } => Expectation::Integer,
            Request::FloatToString { .. } => Expectation::Text,
            Request::IntegerToFloat { .. } => Expectation::Float,
        }
    }

    /// Whether the request is for input or output, which can fail in a way
    /// that the program can recover from.
    pub open spec fn recoverable(self) -> bool {
        match self {
            Request::ParseFile { .. } => false,
            Request::FloatArithmetic { .. } => false,
            Request::FloatCompare { .. } => false,
            Request::FloatToInteger { .. } => false,
            Request::FloatToString { .. } => false,
            Request::IntegerToFloat { .. } => false,
            _ => true,
        }
    }
}

impl Request<String> {
    /// The register that receives the result.
    pub fn get_slot(&self) -> (slot: usize)
        ensures
            slot == self@.slot(),
    {
        match self {
            Request::StdoutWrite { slot, .. } => *slot,
            Request::StderrWrite { slot, .. } => *slot,
            Request::StdinRead { slot, .. } => *slot,
            Request::StdinReadLine { slot } => *slot,
            Request::FileOpen { slot, .. } => *slot,
            Request::FileWrite { slot, .. } => *slot,
            Request::FileRead { slot, .. } => *slot,
            Request::FileReadLine { slot, .. } => *slot,
            Request::FileFlush { slot, .. } => *slot,
            Request::FileSize { slot, .. } => *slot,
            Request::FileSeek { slot, .. } => *slot,
            Request::ParseFile { slot, .. } => *slot,
            Request::FloatArithmetic { slot, .. } => *slot,
            Request::FloatCompare { slot, .. } => *slot,
            Request::FloatToInteger { slot, .. } => *slot,
            Request::FloatToString { slot, .. } => *slot,
            Request::IntegerToFloat { slot, .. } => *slot,
        }
    }

    /// The shape of the reply that the request expects when it succeeds.
    pub fn get_expectation(&self) -> (expectation: Expectation)
        ensures
            expectation == self@.expectation(),
    {
        match self {
            Request::StdoutWrite { .. } => Expectation::Integer,
            Request::StderrWrite { .. } => Expectation::Integer,
            Request::StdinRead { .. } => Expectation::Text,
            Request::StdinReadLine { .. } => Expectation::Text,
            Request::FileOpen { .. } => Expectation::File,
            Request::FileWrite { .. } => Expectation::Integer,
            Request::FileRead { .. } => Expectation::Text,
            Request::FileReadLine { .. } => Expectation::Bytes,
            Request::FileFlush { .. } => Expectation::Done,
            Request::FileSize { .. } => Expectation::Integer,
            Request::FileSeek { .. } => Expectation::Integer,
            Request::ParseFile { .. } => Expectation::Code,
            Request::FloatArithmetic { .. } => Expectation::Float,
            Request::FloatCompare { .. } => Expectation::Flag,
            Request::FloatToInteger { .. } => Expectation::Integer,
            Request::FloatToString { .. } => Expectation::Text,
            Request::IntegerToFloat { .. } => Expectation::Float,
        }
    }

    /// Whether the request is for input or output.
    pub fn is_recoverable(&self) -> (recoverable: bool)
        ensures
            recoverable == self@.recoverable(),
    {
        match self {
            Request::ParseFile { .. } => false,
            Request::FloatArithmetic { .. } => false,
            Request::FloatCompare { .. } => false,
            Request::FloatToInteger { .. } => false,
            Request::FloatToString { .. } => false,
            Request::IntegerToFloat { .. } => false,
            _ => true,
        }
    }
}

/// A line of the bytes: the bytes through the first line feed, or all of
/// them if there is none.
pub open spec fn first_line(bytes: Seq<u8>) -> Seq<u8> {
    match bytes.index_of_first(10u8) {
        Some(position) => bytes.take(position + 1),
        None => bytes,
    }
}

/// Cuts the bytes off after the first line feed.
#[verifier::loop_isolation(false)]
pub fn take_first_line(bytes: Vec<u8>) -> (line: Vec<u8>)
    ensures
        line@ == first_line(bytes@),
{
    let mut bytes = bytes;
    let ghost whole = bytes@;
    let mut i: usize = 0;
    while i < bytes.len()
        invariant
            bytes@ == whole,
            i <= bytes@.len(),
            forall|j: int| 0 <= j < i ==> bytes@[j] != 10u8,
        decreases bytes@.len() - i,
    {
        if bytes[i] == 10 {
            proof {
                assert(whole[i as int] == 10u8);
                assert(whole.contains(10u8));
                whole.index_of_first_ensures(10u8);
            }
            bytes.truncate(i + 1);
            assert(bytes@ =~= whole.take(i + 1));
            return bytes;
        }
        i = i + 1;
    }
    proof {
        whole.index_of_first_ensures(10u8);
    }
    bytes
}

} // verus!
