//! The errors that end a thread, and the result types of the instruction handlers.
use vstd::prelude::*;
use crate::object_pointer::ObjectPointer;

verus! {

/// The kind of value an instruction required of an operand.
#[derive(Clone, Copy, Debug, PartialEq, Eq, Structural)]
pub enum Kind {
    Integer,
    Float,
    String,
    Array,
    File,
    CompiledCode,
    Error,
}

/// A fatal error: the reason a thread cannot continue.
///
/// `T` is the representation of text: `String` in executable code and
/// `Seq<char>` in specifications.
#[derive(Clone, Debug, PartialEq, Eq)]
pub enum Failure<T> {
    /// The instruction has no argument at this position.
    MissingArgument(usize),
    /// The integer literal pool has no entry at this index.
    UndefinedIntegerLiteral(usize),
    /// The float literal pool has no entry at this index.
    UndefinedFloatLiteral(usize),
    /// The string literal pool has no entry at this index.
    UndefinedStringLiteral(usize),
    /// The nested code-object pool has no entry at this index.
    UndefinedCodeObject(usize),
    /// The register was read before it was written.
    UndefinedRegister(usize),
    /// The local variable index is out of range.
    UndefinedLocal(usize),
    /// The object has no constant of this name.
    UndefinedConstant(T),
    /// The object has no attribute of this name.
    UndefinedAttribute(T),
    /// Neither the receiver nor any object on its prototype chain has this method.
    UndefinedMethod(T),
    /// The method is private and the call site may not call private methods.
    PrivateMethod(T),
    /// The method was called with the wrong number of arguments.
    ArgumentCount { name: T, required: usize, given: usize },
    /// An operand does not hold a value of the required kind.
    TypeMismatch(Kind),
    /// An integer was divided by zero.
    DivisionByZero,
    /// A shift distance was negative or not smaller than the width of an integer.
    InvalidShift(i64),
    /// An array index is out of bounds.
    IndexOutOfBounds(usize),
    /// A count, size or offset operand is negative or too large.
    InvalidCount(i64),
    /// The bytecode parser rejected a file.
    ParseFailure { path: T, detail: T },
    /// The host answered a request with a reply of the wrong shape, or
    /// answered when nothing was asked.
    UnexpectedReply,
}

/// A fatal error as executable code carries it.
pub type Fatal = Failure<String>;

/// A fatal error as specifications state it.
pub type FatalSpec = Failure<Seq<char>>;

impl View for Failure<String> {
    type V = Failure<Seq<char>>;

    open spec fn view(&self) -> Failure<Seq<char>> {
        match *self {
            Failure::MissingArgument(i) => Failure::MissingArgument(i),
            Failure::UndefinedIntegerLiteral(i) => Failure::UndefinedIntegerLiteral(i),
            Failure::UndefinedFloatLiteral(i) => Failure::UndefinedFloatLiteral(i),
            Failure::UndefinedStringLiteral(i) => Failure::UndefinedStringLiteral(i),
            Failure::UndefinedCodeObject(i) => Failure::UndefinedCodeObject(i),
            Failure::UndefinedRegister(i) => Failure::UndefinedRegister(i),
            Failure::UndefinedLocal(i) => Failure::UndefinedLocal(i),
            Failure::UndefinedConstant(name) => Failure::UndefinedConstant(name@),
            Failure::UndefinedAttribute(name) => Failure::UndefinedAttribute(name@),
            Failure::UndefinedMethod(name) => Failure::UndefinedMethod(name@),
            Failure::PrivateMethod(name) => Failure::PrivateMethod(name@),
            Failure::ArgumentCount { name, required, given } => Failure::ArgumentCount {
                name: name@,
                required,
                given,
            },
            Failure::TypeMismatch(kind) => Failure::TypeMismatch(kind),
            Failure::DivisionByZero => Failure::DivisionByZero,
            Failure::InvalidShift(distance) => Failure::InvalidShift(distance),
            Failure::IndexOutOfBounds(i) => Failure::IndexOutOfBounds(i),
            Failure::InvalidCount(n) => Failure::InvalidCount(n),
            Failure::ParseFailure { path, detail } => Failure::ParseFailure {
                path: path@,
                detail: detail@,
            },
            Failure::UnexpectedReply => Failure::UnexpectedReply,
        }
    }
}

/// What a handler that only changes the machine returns.
pub type EmptyResult = Result<(), Fatal>;

/// What a handler that yields an instruction index returns.
pub type IntegerResult = Result<usize, Fatal>;

/// What a handler that may yield an instruction index returns.
pub type OptionIntegerResult = Result<Option<usize>, Fatal>;

/// What a handler that may yield an object returns.
pub type OptionObjectResult = Result<Option<ObjectPointer>, Fatal>;

/// What a handler that yields a list of objects returns.
pub type ObjectVecResult = Result<Vec<ObjectPointer>, Fatal>;

/// Whether an executable result is the one a specification states: the same
/// value on success, the same error otherwise.
pub open spec fn agrees<A>(result: Result<A, Fatal>, expected: Result<A, FatalSpec>) -> bool {
    match expected {
        Ok(value) => result == Ok::<A, Fatal>(value),
        Err(error) => result is Err && result->Err_0@ == error,
    }
}

} // verus!
