use std::sync::Arc;

use register_vm::compiled_code::CompiledCode;
use register_vm::errors::IoError;
use register_vm::host::{FloatComparison, FloatOperation, Reply, Request};
use register_vm::instruction::{Instruction, InstructionType};
use register_vm::interpreter::Progress;
use register_vm::object_pointer::ObjectPointer;
use register_vm::object_value::ObjectValue;
use register_vm::virtual_machine::VirtualMachine;
use register_vm::instruction::InstructionType::{
    DefLiteralMethod, GetLocal, IntegerAdd, IntegerToString, Return, Send, SetInteger, SetObject, SetString, SetTrue, StartThread, StringFromBytes, StringToBytes,
};
use register_vm::report::render_message;
use register_vm::text::parse_integer;
use register_vm::virtual_machine_result::{Failure, Kind};

fn compiled_code(instructions: Vec<Instruction>) -> CompiledCode {
    CompiledCode::new("test".to_string(), "test.aeon".to_string(), 1, instructions)
}

fn ins(instruction_type: InstructionType, arguments: Vec<usize>) -> Instruction {
    Instruction::new(instruction_type, arguments, 1, 1)
}

/// A host without streams or files: it computes floats, counts the bytes it
/// is asked to write, and fails everything else.
fn reply_to(request: &Request<String>) -> Reply {
    match request {
        Request::StdoutWrite { text, .. } => Reply::Integer(text.len() as i64),
        Request::StderrWrite { text, .. } => Reply::Integer(text.len() as i64),
        Request::FloatArithmetic { operation, left, right, .. } => {
            let (left, right) = (f64::from_bits(*left), f64::from_bits(*right));
            let result = match operation {
                FloatOperation::Add => left + right,
                FloatOperation::Sub => left - right,
                FloatOperation::Mul => left * right,
                FloatOperation::Div => left / right,
                FloatOperation::Mod => left % right,
            };
            Reply::Float(result.to_bits())
        }
        Request::FloatCompare { comparison, left, right, .. } => {
            let (left, right) = (f64::from_bits(*left), f64::from_bits(*right));
            Reply::Flag(match comparison {
                FloatComparison::Smaller => left < right,
                FloatComparison::Greater => left > right,
                FloatComparison::Equals => left == right,
            })
        }
        Request::FloatToInteger { value, .. } => Reply::Integer(f64::from_bits(*value) as i64),
        Request::FloatToString { value, .. } => Reply::Text(f64::from_bits(*value).to_string()),
        Request::IntegerToFloat { integer, .. } => Reply::Float((*integer as f64).to_bits()),
        _ => Reply::Error(IoError::Other),
    }
}

/// Runs a thread to its end, answering its requests and running the
/// threads it starts to their ends as they are started.
fn run_to_end(vm: &mut VirtualMachine, thread: usize) -> Result<Option<ObjectPointer>, String> {
    for _ in 0..1000 {
        match vm.run_thread(thread, 1000)? {
            Progress::Running => {}
            Progress::Started(started) => {
                run_to_end(vm, started)?;
            }
            Progress::Waiting => {
                let reply = reply_to(vm.contexts[thread].pending.as_ref().unwrap());
                if let Err(failure) = vm.resume(thread, reply) {
                    return Err(vm.fail_thread(thread, &failure));
                }
            }
            Progress::Finished(value) => return Ok(value),
        }
    }
    panic!("the thread did not end");
}

/// Runs a code on a new machine and returns the machine and what the code returned.
fn run(code: CompiledCode) -> (VirtualMachine, Result<Option<ObjectPointer>, String>) {
    let mut vm = VirtualMachine::new();
    let thread = vm.start(Arc::new(code));
    let result = run_to_end(&mut vm, thread);
    (vm, result)
}

fn integer_in(vm: &VirtualMachine, object: ObjectPointer) -> i64 {
    match vm.object(object).value {
        ObjectValue::Integer(value) => value,
        _ => panic!("the object holds no integer"),
    }
}

fn string_in(vm: &VirtualMachine, object: ObjectPointer) -> String {
    match &vm.object(object).value {
        ObjectValue::String(text) => text.clone(),
        _ => panic!("the object holds no string"),
    }
}

fn register(vm: &VirtualMachine, thread: usize, slot: usize) -> ObjectPointer {
    vm.contexts[thread].get_register(slot).unwrap()
}

fn started(code: CompiledCode) -> (VirtualMachine, usize) {
    let mut vm = VirtualMachine::new();
    let thread = vm.start(Arc::new(code));
    (vm, thread)
}

#[test]
fn a_new_machine_holds_the_singletons() {
    let vm = VirtualMachine::new();

    assert_eq!(vm.memory_manager.len(), 13);
    assert_eq!(vm.exit_status(), Ok(()));
    assert_eq!(vm.threads.len(), 0);
    assert!(vm.contexts.is_empty());
    assert!(vm.executed_files.is_empty());
    for index in 0..13 {
        let object = vm.object(ObjectPointer(index));
        assert!(matches!(object.value, ObjectValue::Plain));
        assert!(!object.pinned);
        assert!(object.name.is_none());
    }
    assert!(vm.memory_manager.get(ObjectPointer(12)).is_some());
    assert!(vm.memory_manager.get(ObjectPointer(13)).is_none());
}

#[test]
fn setting_a_register_changes_no_other() {
    let mut code = compiled_code(vec![
        ins(SetInteger, vec![1, 0]),
        ins(SetString, vec![2, 0]),
        ins(SetInteger, vec![1, 1]),
    ]);
    code.add_integer_literal(10);
    code.add_integer_literal(20);
    code.add_string_literal("text".to_string());
    let (mut vm, thread) = started(code);

    assert_eq!(vm.step(thread), Ok(Progress::Running));
    let first = register(&vm, thread, 1);
    assert_eq!(vm.contexts[thread].current().registers.len(), 1);

    assert_eq!(vm.step(thread), Ok(Progress::Running));
    assert_eq!(register(&vm, thread, 1), first);
    assert_eq!(vm.contexts[thread].current().registers.len(), 2);

    assert_eq!(vm.step(thread), Ok(Progress::Running));
    let second = register(&vm, thread, 1);
    assert_ne!(second, first);
    assert_eq!(integer_in(&vm, first), 10);
    assert_eq!(integer_in(&vm, second), 20);
    assert_eq!(string_in(&vm, register(&vm, thread, 2)), "text");
    assert_eq!(vm.contexts[thread].current().registers.len(), 2);
}

#[test]
fn an_allocated_object_is_the_newest_and_has_its_prototype() {
    let mut code = compiled_code(vec![ins(SetInteger, vec![1, 0]), ins(IntegerToString, vec![2, 1])]);
    code.add_integer_literal(10);
    let (mut vm, thread) = started(code);
    let before = vm.memory_manager.len();

    assert_eq!(vm.step(thread), Ok(Progress::Running));
    assert_eq!(register(&vm, thread, 1), ObjectPointer(before));
    assert_eq!(vm.memory_manager.len(), before + 1);
    assert_eq!(vm.object(ObjectPointer(before)).prototype, Some(vm.integer_prototype()));

    assert_eq!(vm.step(thread), Ok(Progress::Running));
    assert_eq!(register(&vm, thread, 2), ObjectPointer(before + 1));
    assert_eq!(vm.object(ObjectPointer(before + 1)).prototype, Some(vm.string_prototype()));
}

#[test]
fn writing_and_reading_an_integer_is_the_identity() {
    for value in [0, 1, -1, 9, 10, -10, 12345, i64::MAX, i64::MIN, i64::MIN + 1] {
        let mut code =
            compiled_code(vec![ins(SetInteger, vec![1, 0]), ins(IntegerToString, vec![2, 1])]);
        code.add_integer_literal(value);
        let (mut vm, thread) = started(code);
        assert_eq!(run_to_end(&mut vm, thread), Ok(None));

        let text = string_in(&vm, register(&vm, thread, 2));
        assert_eq!(parse_integer(&text), Some(value));
    }
}

#[test]
fn the_integer_reader_reads_decimal_numerals_only() {
    assert_eq!(parse_integer("0"), Some(0));
    assert_eq!(parse_integer("-0"), Some(0));
    assert_eq!(parse_integer("007"), Some(7));
    assert_eq!(parse_integer("9223372036854775807"), Some(i64::MAX));
    assert_eq!(parse_integer("9223372036854775808"), None);
    assert_eq!(parse_integer("-9223372036854775808"), Some(i64::MIN));
    assert_eq!(parse_integer("-9223372036854775809"), None);
    assert_eq!(parse_integer("99999999999999999999999"), None);
    assert_eq!(parse_integer(""), None);
    assert_eq!(parse_integer("-"), None);
    assert_eq!(parse_integer("+1"), None);
    assert_eq!(parse_integer("--1"), None);
    assert_eq!(parse_integer("1-"), None);
    assert_eq!(parse_integer("12a"), None);
    assert_eq!(parse_integer(" 1"), None);
    assert_eq!(parse_integer("١٢"), None);
    assert_eq!(parse_integer("1.5"), None);
}

#[test]
fn bytes_and_back_is_the_identity() {
    for text in ["", "abc", "héllo wörld", "日本語", "🦀 and \u{10ffff}", "line\nbreak\0"] {
        let mut code = compiled_code(vec![
            ins(SetString, vec![1, 0]),
            ins(StringToBytes, vec![2, 1]),
            ins(StringFromBytes, vec![3, 2]),
        ]);
        code.add_string_literal(text.to_string());
        let (mut vm, thread) = started(code);
        assert_eq!(run_to_end(&mut vm, thread), Ok(None));

        assert_eq!(string_in(&vm, register(&vm, thread, 3)), text);
        assert_ne!(register(&vm, thread, 3), register(&vm, thread, 1));
    }
}

#[test]
fn a_code_without_return_returns_nothing() {
    let mut method = compiled_code(vec![ins(GetLocal, vec![0, 0]), ins(Return, vec![0])]);
    method.required_arguments = 0;
    let mut code = compiled_code(vec![
        ins(SetObject, vec![1]),
        ins(DefLiteralMethod, vec![1, 0, 0]),
        ins(Send, vec![2, 1, 0, 0, 0]),
        ins(SetInteger, vec![3, 0]),
    ]);
    code.add_string_literal("itself".to_string());
    code.add_integer_literal(1);
    code.add_code_object(Arc::new(method));
    let (mut vm, thread) = started(code);

    assert_eq!(run_to_end(&mut vm, thread), Ok(None));
    assert_eq!(register(&vm, thread, 2), register(&vm, thread, 1));
    assert!(vm.contexts[thread].value.is_none());

    let (mut vm, thread) = started(compiled_code(Vec::new()));
    assert_eq!(vm.step(thread), Ok(Progress::Finished(None)));
}

#[test]
fn a_stopped_thread_executes_nothing() {
    let mut code = compiled_code(vec![ins(SetInteger, vec![1, 0]), ins(Return, vec![1])]);
    code.add_integer_literal(1);
    let (mut vm, thread) = started(code);
    let objects = vm.memory_manager.len();
    vm.contexts[thread].stop();

    assert_eq!(vm.run(thread, 10), Ok(Progress::Finished(None)));
    assert_eq!(vm.memory_manager.len(), objects);
    assert!(vm.contexts[thread].get_register(1).is_err());
    assert_eq!(vm.contexts[thread].current().index, 0);
    assert_eq!(vm.exit_status(), Ok(()));
}

#[test]
fn a_thread_that_is_stopped_in_a_method_drops_its_frames() {
    let mut method = compiled_code(vec![ins(SetTrue, vec![0]), ins(Return, vec![0])]);
    method.required_arguments = 0;
    let mut code = compiled_code(vec![
        ins(SetObject, vec![1]),
        ins(DefLiteralMethod, vec![1, 0, 0]),
        ins(Send, vec![2, 1, 0, 0, 0]),
        ins(Return, vec![2]),
    ]);
    code.add_string_literal("yes".to_string());
    code.add_code_object(Arc::new(method));
    let (mut vm, thread) = started(code);

    assert_eq!(vm.run(thread, 4), Ok(Progress::Running));
    assert_eq!(vm.contexts[thread].depth(), 2);
    vm.contexts[thread].stop();
    assert_eq!(vm.run_thread(thread, 10), Ok(Progress::Finished(None)));
    assert_eq!(vm.contexts[thread].depth(), 1);
    assert!(vm.contexts[thread].get_register(2).is_err());
    assert!(vm.contexts[thread].value.is_none());
}

/// A code that starts a thread and then fails.
fn failing_after_a_start() -> CompiledCode {
    let mut nested = compiled_code(vec![ins(SetInteger, vec![0, 0]), ins(Return, vec![0])]);
    nested.add_integer_literal(7);
    let mut code =
        compiled_code(vec![ins(StartThread, vec![1, 0]), ins(SetInteger, vec![2, 5])]);
    code.add_code_object(Arc::new(nested));
    code
}

#[test]
fn a_fatal_error_fails_the_machine_for_good_and_stops_the_others() {
    let (mut vm, main) = started(failing_after_a_start());

    assert_eq!(vm.run_thread(main, 10), Ok(Progress::Started(1)));
    assert_eq!(vm.threads.len(), 2);
    assert_eq!(vm.exit_status(), Ok(()));
    assert!(!vm.contexts[1].should_stop());

    let report = vm.run_thread(main, 10).unwrap_err();
    assert_eq!(
        report,
        "Fatal error:\n\nundefined integer literal 5\ntest.aeon line 1 in \"test\"\n\n"
    );
    assert_eq!(vm.exit_status(), Err(()));
    assert!(vm.contexts[1].should_stop());
    assert!(!vm.contexts[main].should_stop());
    assert_eq!(vm.threads.len(), 1);
    assert!(!vm.object(vm.contexts[main].object.unwrap()).pinned);
    assert!(vm.object(vm.contexts[1].object.unwrap()).pinned);

    // The other thread ends without running, and the machine stays failed.
    assert_eq!(vm.run_thread(1, 10), Ok(Progress::Finished(None)));
    assert!(vm.contexts[1].value.is_none());
    assert_eq!(vm.threads.len(), 0);
    assert_eq!(vm.exit_status(), Err(()));

    let mut more = compiled_code(vec![ins(SetInteger, vec![0, 0]), ins(Return, vec![0])]);
    more.add_integer_literal(1);
    let another = vm.start(Arc::new(more));
    assert!(matches!(vm.run_thread(another, 10), Ok(Progress::Finished(Some(_)))));
    assert_eq!(vm.exit_status(), Err(()));
}

#[test]
fn a_backtrace_lists_the_frames_innermost_first() {
    let mut innermost = CompiledCode::new(
        "inner".to_string(),
        "lib/inner.aeon".to_string(),
        30,
        vec![ins(IntegerAdd, vec![0, 1, 2])],
    );
    innermost.required_arguments = 0;
    let mut middle = CompiledCode::new(
        "middle".to_string(),
        "lib/middle.aeon".to_string(),
        20,
        vec![ins(GetLocal, vec![0, 0]), ins(DefLiteralMethod, vec![0, 0, 0]), ins(Send, vec![1, 0, 0, 0, 0])],
    );
    middle.add_string_literal("inner".to_string());
    middle.add_code_object(Arc::new(innermost));
    let mut code = CompiledCode::new(
        "main".to_string(),
        "main.aeon".to_string(),
        1,
        vec![
            ins(SetObject, vec![1]),
            ins(DefLiteralMethod, vec![1, 0, 0]),
            ins(Send, vec![2, 1, 0, 0, 0]),
        ],
    );
    code.add_string_literal("middle".to_string());
    code.add_code_object(Arc::new(middle));
    let (mut vm, thread) = started(code);

    assert_eq!(
        vm.run_thread(thread, 100),
        Err("Fatal error:\n\nundefined register 1\n\
lib/inner.aeon line 30 in \"inner\"\n\
lib/middle.aeon line 20 in \"middle\"\n\
main.aeon line 1 in \"main\"\n\n"
            .to_string())
    );
    assert_eq!(vm.contexts[thread].depth(), 3);
    assert_eq!(vm.contexts[thread].current().name(), "inner");
    assert_eq!(vm.contexts[thread].current().file(), "lib/inner.aeon");
    assert_eq!(vm.contexts[thread].current().line(), 30);
}

#[test]
fn every_fatal_error_has_its_message() {
    let text = |text: &str| text.to_string();
    for (failure, message) in [
        (Failure::MissingArgument(2), "argument 2 missing"),
        (Failure::UndefinedIntegerLiteral(3), "undefined integer literal 3"),
        (Failure::UndefinedFloatLiteral(4), "undefined float literal 4"),
        (Failure::UndefinedStringLiteral(5), "undefined string literal 5"),
        (Failure::UndefinedCodeObject(6), "undefined code object 6"),
        (Failure::UndefinedRegister(70), "undefined register 70"),
        (Failure::UndefinedLocal(8), "undefined local variable 8"),
        (Failure::UndefinedConstant(text("LIMIT")), "undefined constant LIMIT"),
        (Failure::UndefinedAttribute(text("size")), "undefined attribute size"),
        (Failure::UndefinedMethod(text("double")), "undefined method double"),
        (Failure::PrivateMethod(text("secret")), "private method secret"),
        (
            Failure::ArgumentCount { name: text("double"), required: 1, given: 12 },
            "double requires 1 arguments, 12 given",
        ),
        (Failure::TypeMismatch(Kind::Integer), "the object is not an integer"),
        (Failure::TypeMismatch(Kind::Float), "the object is not a float"),
        (Failure::TypeMismatch(Kind::String), "the object is not a string"),
        (Failure::TypeMismatch(Kind::Array), "the object is not an array"),
        (Failure::TypeMismatch(Kind::File), "the object is not a file"),
        (Failure::TypeMismatch(Kind::CompiledCode), "the object is not a compiled code"),
        (Failure::TypeMismatch(Kind::Error), "the object is not an error"),
        (Failure::DivisionByZero, "division by zero"),
        (Failure::InvalidShift(-64), "invalid shift distance -64"),
        (Failure::IndexOutOfBounds(9), "array index 9 is out of bounds"),
        (Failure::InvalidCount(-1), "invalid count -1"),
        (
            Failure::ParseFailure { path: text("a.aeonc"), detail: text("truncated") },
            "Failed to parse a.aeonc: truncated",
        ),
        (Failure::UnexpectedReply, "unexpected reply from the host"),
    ] {
        assert_eq!(render_message(&failure), message);
    }
}

#[test]
fn threads_are_listed_while_they_live() {
    let (mut vm, main) = started(failing_after_a_start());
    let main_object = vm.contexts[main].object.unwrap();

    assert_eq!(vm.threads.threads, vec![main_object]);
    assert!(vm.object(main_object).pinned);
    assert!(matches!(vm.object(main_object).value, ObjectValue::Thread(0)));
    assert_eq!(vm.object(main_object).prototype, Some(vm.thread_prototype()));

    assert_eq!(vm.step(main), Ok(Progress::Started(1)));
    let started_object = register(&vm, main, 1);
    assert_eq!(vm.contexts[1].object, Some(started_object));
    assert_eq!(vm.threads.threads, vec![main_object, started_object]);

    let value = match vm.run_thread(1, 10) {
        Ok(Progress::Finished(Some(value))) => value,
        other => panic!("the thread got to {:?}", other),
    };
    assert_eq!(vm.contexts[1].value, Some(value));
    assert_eq!(integer_in(&vm, value), 7);
    assert_eq!(vm.threads.threads, vec![main_object]);
    assert!(!vm.object(started_object).pinned);

    vm.stop();
    assert!(vm.contexts[main].should_stop());
    assert!(!vm.contexts[1].should_stop());
}
