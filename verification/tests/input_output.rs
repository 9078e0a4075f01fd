use std::sync::Arc;

use register_vm::compiled_code::CompiledCode;
use register_vm::errors::IoError;
use register_vm::host::{FloatComparison, FloatOperation, Reply, Request};
use register_vm::instruction::{Instruction, InstructionType};
use register_vm::interpreter::Progress;
use register_vm::object_pointer::ObjectPointer;
use register_vm::object_value::ObjectValue;
use register_vm::virtual_machine::VirtualMachine;
use register_vm::instruction::InstructionType::{
    FileFlush, FileOpen, FileRead, FileReadLine, FileSeek, FileSize, FileWrite, FloatAdd, IsError, Return, RunFileFast, SetFloat, SetInteger, SetString, StderrWrite, StdinRead, StdinReadLine, StdoutWrite,
};
use register_vm::errors::{error_text, IO_INVALID_OPEN_MODE, STRING_INVALID_UTF8};
use register_vm::host::{take_first_line, Expectation, OpenMode};
use register_vm::instructions::io::parse_open_mode;
use register_vm::instructions::stdout::stdout_write;
use register_vm::report::render_message;
use register_vm::virtual_machine_result::{Failure, Kind};

fn compiled_code(instructions: Vec<Instruction>) -> CompiledCode {
    CompiledCode::new("test".to_string(), "test.aeon".to_string(), 1, instructions)
}

fn ins(instruction_type: InstructionType, arguments: Vec<usize>) -> Instruction {
    Instruction::new(instruction_type, arguments, 1, 1)
}

/// A host without streams or files: it computes floats, counts the bytes it
/// is asked to write, and fails everything else.
fn reply_to(request: &Request<String>) -> Reply {
    match request {
        Request::StdoutWrite { text, .. } => Reply::Integer(text.len() as i64),
        Request::StderrWrite { text, .. } => Reply::Integer(text.len() as i64),
        Request::FloatArithmetic { operation, left, right, .. } => {
            let (left, right) = (f64::from_bits(*left), f64::from_bits(*right));
            let result = match operation {
                FloatOperation::Add => left + right,
                FloatOperation::Sub => left - right,
                FloatOperation::Mul => left * right,
                FloatOperation::Div => left / right,
                FloatOperation::Mod => left % right,
            };
            Reply::Float(result.to_bits())
        }
        Request::FloatCompare { comparison, left, right, .. } => {
            let (left, right) = (f64::from_bits(*left), f64::from_bits(*right));
            Reply::Flag(match comparison {
                FloatComparison::Smaller => left < right,
                FloatComparison::Greater => left > right,
                FloatComparison::Equals => left == right,
            })
        }
        Request::FloatToInteger { value, .. } => Reply::Integer(f64::from_bits(*value) as i64),
        Request::FloatToString { value, .. } => Reply::Text(f64::from_bits(*value).to_string()),
        Request::IntegerToFloat { integer, .. } => Reply::Float((*integer as f64).to_bits()),
        _ => Reply::Error(IoError::Other),
    }
}

/// Runs a thread to its end, answering its requests and running the
/// threads it starts to their ends as they are started.
fn run_to_end(vm: &mut VirtualMachine, thread: usize) -> Result<Option<ObjectPointer>, String> {
    for _ in 0..1000 {
        match vm.run_thread(thread, 1000)? {
            Progress::Running => {}
            Progress::Started(started) => {
                run_to_end(vm, started)?;
            }
            Progress::Waiting => {
                let reply = reply_to(vm.contexts[thread].pending.as_ref().unwrap());
                if let Err(failure) = vm.resume(thread, reply) {
                    return Err(vm.fail_thread(thread, &failure));
                }
            }
            Progress::Finished(value) => return Ok(value),
        }
    }
    panic!("the thread did not end");
}

/// Runs a code on a new machine and returns the machine and what the code returned.
fn run(code: CompiledCode) -> (VirtualMachine, Result<Option<ObjectPointer>, String>) {
    let mut vm = VirtualMachine::new();
    let thread = vm.start(Arc::new(code));
    let result = run_to_end(&mut vm, thread);
    (vm, result)
}

fn integer_in(vm: &VirtualMachine, object: ObjectPointer) -> i64 {
    match vm.object(object).value {
        ObjectValue::Integer(value) => value,
        _ => panic!("the object holds no integer"),
    }
}

fn string_in(vm: &VirtualMachine, object: ObjectPointer) -> String {
    match &vm.object(object).value {
        ObjectValue::String(text) => text.clone(),
        _ => panic!("the object holds no string"),
    }
}

fn register(vm: &VirtualMachine, thread: usize, slot: usize) -> ObjectPointer {
    vm.contexts[thread].get_register(slot).unwrap()
}

/// Runs the thread until it waits, and returns what it asks for.
fn request_of(vm: &mut VirtualMachine, thread: usize) -> Request<String> {
    assert_eq!(vm.run(thread, 1000), Ok(Progress::Waiting));
    vm.contexts[thread].pending.clone().unwrap()
}

fn started(code: CompiledCode) -> (VirtualMachine, usize) {
    let mut vm = VirtualMachine::new();
    let thread = vm.start(Arc::new(code));
    (vm, thread)
}

fn fails_with(code: CompiledCode) -> Failure<String> {
    let (mut vm, thread) = started(code);
    match vm.run(thread, 1000) {
        Err(failure) => failure,
        Ok(progress) => panic!("the thread got to {:?} without an error", progress),
    }
}

/// A code that puts the strings "out.txt" and `mode` in registers 1 and 2
/// and opens a file with them into register 3.
fn opening(mode: &str) -> CompiledCode {
    let mut code = compiled_code(vec![
        ins(SetString, vec![1, 0]),
        ins(SetString, vec![2, 1]),
        ins(FileOpen, vec![3, 1, 2]),
    ]);
    code.add_string_literal("out.txt".to_string());
    code.add_string_literal(mode.to_string());
    code.add_integer_literal(64);
    code.add_integer_literal(-1);
    code
}

/// A machine whose thread has an open file with token 9 in register 3.
fn with_file(more: Vec<Instruction>) -> (VirtualMachine, usize) {
    let mut code = opening("r+");
    code.instructions.extend(more);
    let (mut vm, thread) = started(code);
    assert_eq!(
        request_of(&mut vm, thread),
        Request::FileOpen {
            slot: 3,
            path: "out.txt".to_string(),
            mode: OpenMode { read: true, write: true, truncate: true, create: true, append: false },
        }
    );
    assert_eq!(vm.resume(thread, Reply::File(9)), Ok(()));
    (vm, thread)
}

#[test]
fn stdout_write_asks_for_the_text_and_binds_the_count() {
    let mut code = compiled_code(vec![ins(SetString, vec![1, 0]), ins(StdoutWrite, vec![2, 1])]);
    code.add_string_literal("hello\n".to_string());
    let (mut vm, thread) = started(code);

    assert_eq!(
        request_of(&mut vm, thread),
        Request::StdoutWrite { slot: 2, text: "hello\n".to_string() }
    );
    assert_eq!(vm.resume(thread, Reply::Integer(6)), Ok(()));
    assert!(vm.contexts[thread].pending.is_none());
    assert_eq!(integer_in(&vm, register(&vm, thread, 2)), 6);
    assert_eq!(vm.object(register(&vm, thread, 2)).prototype, Some(vm.integer_prototype()));
    assert_eq!(vm.run(thread, 10), Ok(Progress::Finished(None)));
}

#[test]
fn stdout_write_is_also_a_function() {
    let mut code = compiled_code(vec![ins(SetString, vec![1, 0])]);
    code.add_string_literal("hi".to_string());
    let (mut vm, thread) = started(code);
    assert_eq!(vm.run(thread, 10), Ok(Progress::Finished(None)));

    assert_eq!(stdout_write(&mut vm, thread, &compiled_code(Vec::new()), &ins(StdoutWrite, vec![4, 1])), Ok(()));
    assert_eq!(
        vm.contexts[thread].pending,
        Some(Request::StdoutWrite { slot: 4, text: "hi".to_string() })
    );

    let (mut vm, thread) = started(compiled_code(Vec::new()));
    assert_eq!(
        stdout_write(&mut vm, thread, &compiled_code(Vec::new()), &ins(StdoutWrite, vec![4, 1])),
        Err(Failure::UndefinedRegister(1))
    );
    assert_eq!(
        stdout_write(&mut vm, thread, &compiled_code(Vec::new()), &ins(StdoutWrite, vec![4])),
        Err(Failure::MissingArgument(1))
    );
    assert_eq!(
        stdout_write(&mut vm, thread, &compiled_code(Vec::new()), &ins(StdoutWrite, Vec::new())),
        Err(Failure::MissingArgument(0))
    );
    assert!(vm.contexts[thread].pending.is_none());
}

#[test]
fn a_failed_write_is_an_error_object() {
    let mut code = compiled_code(vec![
        ins(SetString, vec![1, 0]),
        ins(StderrWrite, vec![2, 1]),
        ins(IsError, vec![3, 2]),
        ins(Return, vec![3]),
    ]);
    code.add_string_literal("oops".to_string());
    let (mut vm, thread) = started(code);

    assert_eq!(
        request_of(&mut vm, thread),
        Request::StderrWrite { slot: 2, text: "oops".to_string() }
    );
    assert_eq!(vm.resume(thread, Reply::Error(IoError::BrokenPipe)), Ok(()));
    assert_eq!(vm.run(thread, 10), Ok(Progress::Finished(Some(vm.true_object()))));
    let error = register(&vm, thread, 2);
    assert_eq!(vm.object(error).prototype, None);
    assert!(matches!(&vm.object(error).value, ObjectValue::Error(text) if text == "broken pipe"));
    assert_eq!(vm.exit_status(), Ok(()));
}

#[test]
fn stdin_read_takes_its_capacity_from_a_register() {
    let mut code = compiled_code(vec![
        ins(StdinRead, vec![1]),
        ins(SetInteger, vec![2, 0]),
        ins(StdinRead, vec![3, 2]),
        ins(StdinReadLine, vec![4]),
    ]);
    code.add_integer_literal(128);
    let (mut vm, thread) = started(code);

    assert_eq!(request_of(&mut vm, thread), Request::StdinRead { slot: 1, capacity: 0 });
    assert_eq!(vm.resume(thread, Reply::Text("all of it".to_string())), Ok(()));
    assert_eq!(string_in(&vm, register(&vm, thread, 1)), "all of it");
    assert_eq!(vm.object(register(&vm, thread, 1)).prototype, Some(vm.string_prototype()));
    assert_eq!(request_of(&mut vm, thread), Request::StdinRead { slot: 3, capacity: 128 });
    assert_eq!(vm.resume(thread, Reply::Text(String::new())), Ok(()));
    assert_eq!(request_of(&mut vm, thread), Request::StdinReadLine { slot: 4 });
    assert_eq!(vm.resume(thread, Reply::Text("a line\n".to_string())), Ok(()));
    assert_eq!(string_in(&vm, register(&vm, thread, 4)), "a line\n");
}

#[test]
fn a_reading_capacity_must_be_a_count() {
    let mut code = compiled_code(vec![ins(SetInteger, vec![2, 0]), ins(StdinRead, vec![3, 2])]);
    code.add_integer_literal(-1);
    assert_eq!(fails_with(code), Failure::InvalidCount(-1));

    let mut code = compiled_code(vec![ins(SetString, vec![2, 0]), ins(StdinRead, vec![3, 2])]);
    code.add_string_literal("many".to_string());
    assert_eq!(fails_with(code), Failure::TypeMismatch(Kind::Integer));

    assert_eq!(
        fails_with(compiled_code(vec![ins(StdinRead, vec![3, 2])])),
        Failure::UndefinedRegister(2)
    );
}

#[test]
fn the_six_open_modes() {
    let mode = |read, write, truncate, create, append| OpenMode {
        read,
        write,
        truncate,
        create,
        append,
    };
    for (text, expected) in [
        ("r", mode(true, false, false, false, false)),
        ("r+", mode(true, true, true, true, false)),
        ("w", mode(false, true, true, true, false)),
        ("w+", mode(true, true, true, true, false)),
        ("a", mode(false, false, false, true, true)),
        ("a+", mode(true, false, false, true, true)),
    ] {
        assert_eq!(parse_open_mode(&text.to_string()), Some(expected));
        let (mut vm, thread) = started(opening(text));
        assert_eq!(
            request_of(&mut vm, thread),
            Request::FileOpen { slot: 3, path: "out.txt".to_string(), mode: expected }
        );
    }
    for text in ["", "rw", "R", "r +", "+", "ra", "a++"] {
        assert_eq!(parse_open_mode(&text.to_string()), None);
    }
}

#[test]
fn file_open_binds_the_file() {
    let (vm, thread) = with_file(Vec::new());
    let file = register(&vm, thread, 3);
    assert!(matches!(vm.object(file).value, ObjectValue::File(9)));
    assert_eq!(vm.object(file).prototype, Some(vm.file_prototype()));
}

#[test]
fn file_open_checks_its_operands() {
    let mut code = compiled_code(vec![ins(SetInteger, vec![1, 0]), ins(FileOpen, vec![3, 1, 1])]);
    code.add_integer_literal(1);
    assert_eq!(fails_with(code), Failure::TypeMismatch(Kind::String));
}

#[test]
fn a_file_that_cannot_be_opened_is_an_error_object() {
    let (mut vm, thread) = started(opening("r"));
    request_of(&mut vm, thread);
    assert_eq!(vm.resume(thread, Reply::Error(IoError::NotFound)), Ok(()));
    let error = register(&vm, thread, 3);
    assert!(matches!(&vm.object(error).value, ObjectValue::Error(text) if text == "not found"));
}

#[test]
fn file_requests_carry_the_token() {
    let (mut vm, thread) = with_file(vec![
        ins(FileWrite, vec![4, 3, 1]),
        ins(SetInteger, vec![5, 0]),
        ins(FileRead, vec![6, 3, 5]),
        ins(FileRead, vec![7, 3]),
        ins(FileReadLine, vec![8, 3]),
        ins(FileFlush, vec![9, 3]),
        ins(FileSize, vec![10, 3]),
        ins(FileSeek, vec![11, 3, 5]),
    ]);

    assert_eq!(
        request_of(&mut vm, thread),
        Request::FileWrite { slot: 4, file: 9, text: "out.txt".to_string() }
    );
    assert_eq!(vm.resume(thread, Reply::Integer(7)), Ok(()));
    assert_eq!(integer_in(&vm, register(&vm, thread, 4)), 7);

    assert_eq!(request_of(&mut vm, thread), Request::FileRead { slot: 6, file: 9, capacity: 64 });
    assert_eq!(vm.resume(thread, Reply::Text("contents".to_string())), Ok(()));
    assert_eq!(string_in(&vm, register(&vm, thread, 6)), "contents");
    assert_eq!(vm.object(register(&vm, thread, 6)).prototype, Some(vm.string_prototype()));

    assert_eq!(request_of(&mut vm, thread), Request::FileRead { slot: 7, file: 9, capacity: 0 });
    assert_eq!(vm.resume(thread, Reply::Error(IoError::PermissionDenied)), Ok(()));
    assert!(matches!(vm.object(register(&vm, thread, 7)).value, ObjectValue::Error(_)));

    assert_eq!(request_of(&mut vm, thread), Request::FileReadLine { slot: 8, file: 9 });
    assert_eq!(vm.resume(thread, Reply::Bytes(b"one\ntwo\n".to_vec())), Ok(()));
    assert_eq!(string_in(&vm, register(&vm, thread, 8)), "one\n");

    assert_eq!(request_of(&mut vm, thread), Request::FileFlush { slot: 9, file: 9 });
    assert_eq!(vm.resume(thread, Reply::Done), Ok(()));
    assert_eq!(register(&vm, thread, 9), vm.true_object());

    assert_eq!(request_of(&mut vm, thread), Request::FileSize { slot: 10, file: 9 });
    assert_eq!(vm.resume(thread, Reply::Integer(8)), Ok(()));
    assert_eq!(integer_in(&vm, register(&vm, thread, 10)), 8);

    assert_eq!(request_of(&mut vm, thread), Request::FileSeek { slot: 11, file: 9, offset: 64 });
    assert_eq!(vm.resume(thread, Reply::Integer(64)), Ok(()));
    assert_eq!(integer_in(&vm, register(&vm, thread, 11)), 64);

    assert_eq!(vm.run(thread, 10), Ok(Progress::Finished(None)));
}

#[test]
fn a_line_that_is_not_utf8_is_an_error_object() {
    let (mut vm, thread) = with_file(vec![ins(FileReadLine, vec![8, 3])]);
    request_of(&mut vm, thread);
    assert_eq!(vm.resume(thread, Reply::Bytes(vec![0xff, 0x0a])), Ok(()));
    let error = register(&vm, thread, 8);
    assert!(matches!(&vm.object(error).value, ObjectValue::Error(text) if text == "invalid UTF-8"));
    assert_eq!(vm.object(error).prototype, None);
}

#[test]
fn a_line_ends_with_the_first_line_feed() {
    assert_eq!(take_first_line(b"one\ntwo\n".to_vec()), b"one\n".to_vec());
    assert_eq!(take_first_line(b"\n\n".to_vec()), b"\n".to_vec());
    assert_eq!(take_first_line(b"no end".to_vec()), b"no end".to_vec());
    assert_eq!(take_first_line(Vec::new()), Vec::<u8>::new());
    assert_eq!(take_first_line(b"end\n".to_vec()), b"end\n".to_vec());
}

#[test]
fn file_operands_must_be_files() {
    for operation in [FileRead, FileReadLine, FileFlush, FileSize] {
        let mut code = compiled_code(vec![ins(SetString, vec![1, 0]), ins(operation, vec![2, 1])]);
        code.add_string_literal("out.txt".to_string());
        assert_eq!(fails_with(code), Failure::TypeMismatch(Kind::File));
    }
    let mut code = compiled_code(vec![ins(SetString, vec![1, 0]), ins(FileWrite, vec![2, 1, 1])]);
    code.add_string_literal("out.txt".to_string());
    assert_eq!(fails_with(code), Failure::TypeMismatch(Kind::File));
    let mut code = compiled_code(vec![ins(SetString, vec![1, 0]), ins(FileSeek, vec![2, 1, 1])]);
    code.add_string_literal("out.txt".to_string());
    assert_eq!(fails_with(code), Failure::TypeMismatch(Kind::File));
}

#[test]
fn file_seek_needs_an_offset_from_the_start() {
    let (mut vm, thread) = with_file(vec![ins(SetInteger, vec![5, 1]), ins(FileSeek, vec![6, 3, 5])]);
    assert_eq!(vm.run(thread, 10), Err(Failure::InvalidCount(-1)));

    let (mut vm, thread) = with_file(vec![ins(FileSeek, vec![6, 3, 1])]);
    assert_eq!(vm.run(thread, 10), Err(Failure::TypeMismatch(Kind::Integer)));

    let (mut vm, thread) = with_file(vec![ins(FileWrite, vec![6, 3, 3])]);
    assert_eq!(vm.run(thread, 10), Err(Failure::TypeMismatch(Kind::String)));
}

#[test]
fn a_reply_must_fit_the_request() {
    let (mut vm, thread) = with_file(vec![ins(FileSize, vec![4, 3])]);
    let request = request_of(&mut vm, thread);
    assert_eq!(request.get_slot(), 4);
    assert_eq!(request.get_expectation(), Expectation::Integer);
    assert!(request.is_recoverable());

    for reply in [
        Reply::Text("8".to_string()),
        Reply::Bytes(vec![8]),
        Reply::File(8),
        Reply::Done,
        Reply::Float(8),
        Reply::Flag(true),
        Reply::Code(Arc::new(compiled_code(Vec::new()))),
        Reply::Failed("no such file".to_string()),
    ] {
        assert_eq!(vm.resume(thread, reply), Err(Failure::UnexpectedReply));
        assert_eq!(vm.contexts[thread].pending, Some(Request::FileSize { slot: 4, file: 9 }));
        assert!(vm.contexts[thread].get_register(4).is_err());
    }
    assert_eq!(vm.resume(thread, Reply::Integer(8)), Ok(()));
    assert_eq!(vm.resume(thread, Reply::Integer(8)), Err(Failure::UnexpectedReply));
}

#[test]
fn a_float_request_cannot_fail() {
    let mut code = compiled_code(vec![ins(SetFloat, vec![1, 0]), ins(FloatAdd, vec![2, 1, 1])]);
    code.add_float_literal(1.0f64.to_bits());
    let (mut vm, thread) = started(code);
    let request = request_of(&mut vm, thread);

    assert_eq!(request.get_expectation(), Expectation::Float);
    assert!(!request.is_recoverable());
    assert_eq!(
        vm.resume(thread, Reply::Failed("no floats".to_string())),
        Err(Failure::UnexpectedReply)
    );
    assert_eq!(vm.resume(thread, Reply::Error(IoError::Other)), Err(Failure::UnexpectedReply));
    assert_eq!(vm.resume(thread, Reply::Integer(2)), Err(Failure::UnexpectedReply));
    assert_eq!(vm.resume(thread, Reply::Float(2.0f64.to_bits())), Ok(()));
}

/// A code that runs the file "lib.aeonc" twice and returns register 1.
fn loading() -> CompiledCode {
    let mut code = compiled_code(vec![
        ins(RunFileFast, vec![1, 0]),
        ins(RunFileFast, vec![2, 0]),
        ins(Return, vec![1]),
    ]);
    code.add_string_literal("lib.aeonc".to_string());
    code
}

#[test]
fn run_file_fast_runs_a_file_once() {
    let (mut vm, thread) = started(loading());
    assert!(!vm.has_executed(&"lib.aeonc".to_string()));

    assert_eq!(
        request_of(&mut vm, thread),
        Request::ParseFile { slot: 1, path: "lib.aeonc".to_string() }
    );
    assert!(vm.has_executed(&"lib.aeonc".to_string()));
    let mut parsed = compiled_code(vec![ins(SetInteger, vec![0, 0]), ins(Return, vec![0])]);
    parsed.add_integer_literal(11);
    assert_eq!(vm.resume(thread, Reply::Code(Arc::new(parsed))), Ok(()));
    assert_eq!(vm.contexts[thread].depth(), 2);

    // The second instruction asks for nothing: the thread runs to its end.
    let result = vm.run(thread, 100);
    let value = register(&vm, thread, 1);
    assert_eq!(result, Ok(Progress::Finished(Some(value))));
    assert_eq!(integer_in(&vm, value), 11);
    assert!(vm.contexts[thread].get_register(2).is_err());
    assert_eq!(vm.executed_files, vec!["lib.aeonc".to_string()]);
}

#[test]
fn a_file_that_does_not_parse_is_fatal() {
    let (mut vm, thread) = started(loading());
    request_of(&mut vm, thread);

    let failure = vm.resume(thread, Reply::Failed("bad magic".to_string())).unwrap_err();
    assert_eq!(
        failure,
        Failure::ParseFailure { path: "lib.aeonc".to_string(), detail: "bad magic".to_string() }
    );
    assert_eq!(render_message(&failure), "Failed to parse lib.aeonc: bad magic");

    let report = vm.fail_thread(thread, &failure);
    assert_eq!(
        report,
        "Fatal error:\n\nFailed to parse lib.aeonc: bad magic\ntest.aeon line 1 in \"test\"\n\n"
    );
    assert_eq!(vm.exit_status(), Err(()));
}

#[test]
fn a_parse_request_takes_code_or_a_reason() {
    let (mut vm, thread) = started(loading());
    let request = request_of(&mut vm, thread);

    assert_eq!(request.get_expectation(), Expectation::Code);
    assert!(!request.is_recoverable());
    assert_eq!(vm.resume(thread, Reply::Error(IoError::NotFound)), Err(Failure::UnexpectedReply));
    assert_eq!(vm.resume(thread, Reply::Integer(1)), Err(Failure::UnexpectedReply));
    assert_eq!(vm.resume(thread, Reply::Code(Arc::new(compiled_code(Vec::new())))), Ok(()));
}

#[test]
fn every_failure_of_input_or_output_has_its_text() {
    for (error, text) in [
        (IoError::NotFound, "not found"),
        (IoError::PermissionDenied, "permission denied"),
        (IoError::ConnectionRefused, "connection refused"),
        (IoError::ConnectionReset, "connection reset"),
        (IoError::ConnectionAborted, "connection aborted"),
        (IoError::NotConnected, "not connected"),
        (IoError::AddrInUse, "address in use"),
        (IoError::AddrNotAvailable, "address not available"),
        (IoError::BrokenPipe, "broken pipe"),
        (IoError::AlreadyExists, "already exists"),
        (IoError::WouldBlock, "would block"),
        (IoError::InvalidInput, "invalid input"),
        (IoError::InvalidData, "invalid data"),
        (IoError::TimedOut, "timed out"),
        (IoError::WriteZero, "write zero"),
        (IoError::Interrupted, "interrupted"),
        (IoError::UnexpectedEof, "unexpected end of file"),
        (IoError::Other, "other"),
    ] {
        assert_eq!(error.code(), text);

        let (mut vm, thread) = started(opening("r"));
        request_of(&mut vm, thread);
        assert_eq!(vm.resume(thread, Reply::Error(error)), Ok(()));
        let object = register(&vm, thread, 3);
        assert!(matches!(&vm.object(object).value, ObjectValue::Error(found) if found == text));
    }
    assert_eq!(error_text(IO_INVALID_OPEN_MODE), "invalid open mode");
    assert_eq!(error_text(STRING_INVALID_UTF8), "invalid UTF-8");
}

#[test]
fn run_file_fast_checks_its_arguments() {
    assert_eq!(
        fails_with(compiled_code(vec![ins(RunFileFast, vec![1, 0])])),
        Failure::UndefinedStringLiteral(0)
    );
    assert_eq!(
        fails_with(compiled_code(vec![ins(RunFileFast, vec![1])])),
        Failure::MissingArgument(1)
    );
}
