//! The text of a fatal error: its message and the backtrace of the thread
//! that met it.
use vstd::prelude::*;
use vstd::string::StringExecFns;
use crate::call_frame::{CallFrame, FrameState};
use crate::text::{count_to_string, decimal, integer_to_string};
use crate::virtual_machine_result::{Failure, Fatal, FatalSpec, Kind};

verus! {

/// What a kind of value is called in a message.
pub open spec fn kind_name(kind: Kind) -> Seq<char> {
    match kind {
        Kind::Integer => "an integer"@,
        Kind::Float => "a float"@,
        Kind::String => "a string"@,
        Kind::Array => "an array"@,
        Kind::File => "a file"@,
        Kind::CompiledCode => "a compiled code"@,
        Kind::Error => "an error"@,
    }
}

/// The message of a fatal error.
pub open spec fn message(failure: FatalSpec) -> Seq<char> {
    match failure {
        Failure::MissingArgument(index) => "argument "@ + decimal(index as int) + " missing"@,
        Failure::UndefinedIntegerLiteral(index) => "undefined integer literal "@ + decimal(
            index as int,
        ),
        Failure::UndefinedFloatLiteral(index) => "undefined float literal "@ + decimal(
            index as int,
        ),
        Failure::UndefinedStringLiteral(index) => "undefined string literal "@ + decimal(
            index as int,
        ),
        Failure::UndefinedCodeObject(index) => "undefined code object "@ + decimal(index as int),
        Failure::UndefinedRegister(slot) => "undefined register "@ + decimal(slot as int),
        Failure::UndefinedLocal(index) => "undefined local variable "@ + decimal(index as int),
        Failure::UndefinedConstant(name) => "undefined constant "@ + name,
        Failure::UndefinedAttribute(name) => "undefined attribute "@ + name,
        Failure::UndefinedMethod(name) => "undefined method "@ + name,
        Failure::PrivateMethod(name) => "private method "@ + name,
        Failure::ArgumentCount { name, required, given } => name + " requires "@ + decimal(
            required as int,
        ) + " arguments, "@ + decimal(given as int) + " given"@,
        Failure::TypeMismatch(kind) => "the object is not "@ + kind_name(kind),
        Failure::DivisionByZero => "division by zero"@,
        Failure::InvalidShift(distance) => "invalid shift distance "@ + decimal(distance as int),
        Failure::IndexOutOfBounds(index) => "array index "@ + decimal(index as int)
            + " is out of bounds"@,
        Failure::InvalidCount(count) => "invalid count "@ + decimal(count as int),
        Failure::ParseFailure { path, detail } => "Failed to parse "@ + path + ": "@ + detail,
        Failure::UnexpectedReply => "unexpected reply from the host"@,
    }
}

/// The line of a backtrace for one frame.
pub open spec fn frame_line(frame: FrameState) -> Seq<char> {
    "\n"@ + frame.code.file@ + " line "@ + decimal(frame.code.line as int) + " in \""@
        + frame.code.name@ + "\""@
}

/// The backtrace of a stack of frames: a line for each, innermost first.
pub open spec fn backtrace(frames: Seq<FrameState>) -> Seq<char>
    decreases frames.len(),
{
    if frames.len() == 0 {
        Seq::empty()
    } else {
        frame_line(frames.last()) + backtrace(frames.drop_last())
    }
}

/// What is written to standard error when a thread meets a fatal error.
pub open spec fn report(failure: FatalSpec, frames: Seq<FrameState>) -> Seq<char> {
    "Fatal error:\n\n"@ + message(failure) + backtrace(frames) + "\n\n"@
}

/// The name of a kind of value, for a message.
fn render_kind(kind: Kind) -> (name: &'static str)
    ensures
        name@ == kind_name(kind),
{
    match kind {
        Kind::Integer => "an integer",
        Kind::Float => "a float",
        Kind::String => "a string",
        Kind::Array => "an array",
        Kind::File => "a file",
        Kind::CompiledCode => "a compiled code",
        Kind::Error => "an error",
    }
}

/// A text that ends in a number.
fn numbered(prefix: &'static str, number: usize) -> (text: String)
    ensures
        text@ == prefix@ + decimal(number as int),
{
    prefix.to_owned().concat(count_to_string(number).as_str())
}

/// A text that ends in a name.
fn named(prefix: &'static str, name: &String) -> (text: String)
    ensures
        text@ == prefix@ + name@,
{
    prefix.to_owned().concat(name.as_str())
}

/// Renders the message of a fatal error.
pub fn render_message(failure: &Fatal) -> (text: String)
    ensures
        text@ == message(failure@),
{
    match failure {
        Failure::MissingArgument(index) => numbered("argument ", *index).concat(" missing"),
        Failure::UndefinedIntegerLiteral(index) => numbered("undefined integer literal ", *index),
        Failure::UndefinedFloatLiteral(index) => numbered("undefined float literal ", *index),
        Failure::UndefinedStringLiteral(index) => numbered("undefined string literal ", *index),
        Failure::UndefinedCodeObject(index) => numbered("undefined code object ", *index),
        Failure::UndefinedRegister(slot) => numbered("undefined register ", *slot),
        Failure::UndefinedLocal(index) => numbered("undefined local variable ", *index),
        Failure::UndefinedConstant(name) => named("undefined constant ", name),
        Failure::UndefinedAttribute(name) => named("undefined attribute ", name),
        Failure::UndefinedMethod(name) => named("undefined method ", name),
        Failure::PrivateMethod(name) => named("private method ", name),
        Failure::ArgumentCount { name, required, given } => {
            name.clone().concat(" requires ").concat(count_to_string(*required).as_str()).concat(
                " arguments, ",
            ).concat(count_to_string(*given).as_str()).concat(" given")
        },
        Failure::TypeMismatch(kind) => "the object is not ".to_owned().concat(render_kind(*kind)),
        Failure::DivisionByZero => "division by zero".to_owned(),
        Failure::InvalidShift(distance) => "invalid shift distance ".to_owned().concat(
            integer_to_string(*distance).as_str(),
        ),
        Failure::IndexOutOfBounds(index) => numbered("array index ", *index).concat(
            " is out of bounds",
        ),
        Failure::InvalidCount(count) => "invalid count ".to_owned().concat(
            integer_to_string(*count).as_str(),
        ),
        Failure::ParseFailure { path, detail } => named("Failed to parse ", path).concat(
            ": ",
        ).concat(detail.as_str()),
        Failure::UnexpectedReply => "unexpected reply from the host".to_owned(),
    }
}

/// Renders what is written to standard error when a thread with these
/// frames meets a fatal error.
pub fn render_report(failure: &Fatal, frames: &Vec<CallFrame>) -> (text: String)
    ensures
        text@ == report(failure@, frames@.map_values(|frame: CallFrame| frame@)),
{
    let ghost states = frames@.map_values(|frame: CallFrame| frame@);
    let mut text = "Fatal error:\n\n".to_owned().concat(render_message(failure).as_str());
    let mut left: usize = frames.len();
    assert(states.take(left as int) =~= states);
    while left > 0
        invariant
            left <= frames@.len(),
            states == frames@.map_values(|frame: CallFrame| frame@),
            text@ + backtrace(states.take(left as int)) == "Fatal error:\n\n"@ + message(failure@)
                + backtrace(states),
        decreases left,
    {
        left = left - 1;
        let frame = &frames[left];
        let ghost before = text@;
        text.append("\n");
        text.append(frame.file().as_str());
        text.append(" line ");
        text.append(count_to_string(frame.line()).as_str());
        text.append(" in \"");
        text.append(frame.name().as_str());
        text.append("\"");
        proof {
            let longer = states.take(left + 1);
            assert(longer.drop_last() =~= states.take(left as int));
            assert(longer.last() == frame@);
            assert(text@ =~= before + frame_line(frame@));
            assert(backtrace(longer) == frame_line(frame@) + backtrace(states.take(left as int)));
            assert(text@ + backtrace(states.take(left as int)) =~= before + backtrace(longer));
        }
    }
    proof {
        assert(states.take(0) =~= Seq::<FrameState>::empty());
        assert(text@ + backtrace(states.take(0)) =~= text@);
    }
    text.append("\n\n");
    text
}

} // verus!
