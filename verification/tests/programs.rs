use std::sync::Arc;

use register_vm::compiled_code::CompiledCode;
use register_vm::errors::IoError;
use register_vm::host::{FloatComparison, FloatOperation, Reply, Request};
use register_vm::instruction::{Instruction, InstructionType};
use register_vm::interpreter::Progress;
use register_vm::object_pointer::ObjectPointer;
use register_vm::object_value::ObjectValue;
use register_vm::virtual_machine::VirtualMachine;
use register_vm::instruction::InstructionType::{
    FileOpen, GotoIfFalse, IntegerAdd, IsError, Return, SetFalse, SetInteger, SetString,
    StartThread, StringEquals, StringFromBytes, StringToBytes,
};

fn compiled_code(instructions: Vec<Instruction>) -> CompiledCode {
    CompiledCode::new("test".to_string(), "test.aeon".to_string(), 1, instructions)
}

fn ins(instruction_type: InstructionType, arguments: Vec<usize>) -> Instruction {
    Instruction::new(instruction_type, arguments, 1, 1)
}

/// A host without streams or files: it computes floats, counts the bytes it
/// is asked to write, and fails everything else.
fn reply_to(request: &Request<String>) -> Reply {
    match request {
        Request::StdoutWrite { text, .. } => Reply::Integer(text.len() as i64),
        Request::StderrWrite { text, .. } => Reply::Integer(text.len() as i64),
        Request::FloatArithmetic { operation, left, right, .. } => {
            let (left, right) = (f64::from_bits(*left), f64::from_bits(*right));
            let result = match operation {
                FloatOperation::Add => left + right,
                FloatOperation::Sub => left - right,
                FloatOperation::Mul => left * right,
                FloatOperation::Div => left / right,
                FloatOperation::Mod => left % right,
            };
            Reply::Float(result.to_bits())
        }
        Request::FloatCompare { comparison, left, right, .. } => {
            let (left, right) = (f64::from_bits(*left), f64::from_bits(*right));
            Reply::Flag(match comparison {
                FloatComparison::Smaller => left < right,
                FloatComparison::Greater => left > right,
                FloatComparison::Equals => left == right,
            })
        }
        Request::FloatToInteger { value, .. } => Reply::Integer(f64::from_bits(*value) as i64),
        Request::FloatToString { value, .. } => Reply::Text(f64::from_bits(*value).to_string()),
        Request::IntegerToFloat { integer, .. } => Reply::Float((*integer as f64).to_bits()),
        _ => Reply::Error(IoError::Other),
    }
}

/// Runs a thread to its end, answering its requests and running the
/// threads it starts to their ends as they are started.
fn run_to_end(vm: &mut VirtualMachine, thread: usize) -> Result<Option<ObjectPointer>, String> {
    for _ in 0..1000 {
        match vm.run_thread(thread, 1000)? {
            Progress::Running => {}
            Progress::Started(started) => {
                run_to_end(vm, started)?;
            }
            Progress::Waiting => {
                let reply = reply_to(vm.contexts[thread].pending.as_ref().unwrap());
                if let Err(failure) = vm.resume(thread, reply) {
                    return Err(vm.fail_thread(thread, &failure));
                }
            }
            Progress::Finished(value) => return Ok(value),
        }
    }
    panic!("the thread did not end");
}

/// Runs a code on a new machine and returns the machine and what the code returned.
fn run(code: CompiledCode) -> (VirtualMachine, Result<Option<ObjectPointer>, String>) {
    let mut vm = VirtualMachine::new();
    let thread = vm.start(Arc::new(code));
    let result = run_to_end(&mut vm, thread);
    (vm, result)
}

fn integer_in(vm: &VirtualMachine, object: ObjectPointer) -> i64 {
    match vm.object(object).value {
        ObjectValue::Integer(value) => value,
        _ => panic!("the object holds no integer"),
    }
}

fn string_in(vm: &VirtualMachine, object: ObjectPointer) -> String {
    match &vm.object(object).value {
        ObjectValue::String(text) => text.clone(),
        _ => panic!("the object holds no string"),
    }
}

fn register(vm: &VirtualMachine, thread: usize, slot: usize) -> ObjectPointer {
    vm.contexts[thread].get_register(slot).unwrap()
}

#[test]
fn set_integer_and_return() {
    let mut code = compiled_code(vec![ins(SetInteger, vec![1, 0]), ins(Return, vec![1])]);
    code.add_integer_literal(10);

    let (vm, result) = run(code);

    assert_eq!(integer_in(&vm, result.unwrap().unwrap()), 10);
    assert_eq!(vm.exit_status(), Ok(()));
}

#[test]
fn add_two_integers() {
    let mut code = compiled_code(vec![
        ins(SetInteger, vec![1, 0]),
        ins(SetInteger, vec![2, 1]),
        ins(IntegerAdd, vec![3, 1, 2]),
        ins(Return, vec![3]),
    ]);
    code.add_integer_literal(2);
    code.add_integer_literal(3);

    let (vm, result) = run(code);

    assert_eq!(integer_in(&vm, result.unwrap().unwrap()), 5);
}

fn branching_code(target: usize) -> CompiledCode {
    let mut code = compiled_code(vec![
        ins(SetInteger, vec![1, 0]),
        ins(SetFalse, vec![2]),
        ins(GotoIfFalse, vec![target, 2]),
        ins(SetInteger, vec![1, 1]),
        ins(Return, vec![1]),
    ]);
    code.add_integer_literal(1);
    code.add_integer_literal(99);
    code
}

#[test]
fn branch_skips_the_overwrite() {
    let (vm, result) = run(branching_code(4));

    assert_eq!(integer_in(&vm, result.unwrap().unwrap()), 1);
}

#[test]
fn branch_past_the_end_skips_the_return_too() {
    let mut vm = VirtualMachine::new();
    let thread = vm.start(Arc::new(branching_code(5)));

    let result = run_to_end(&mut vm, thread);

    assert_eq!(result, Ok(None));
    assert_eq!(integer_in(&vm, register(&vm, thread, 1)), 1);
}

#[test]
fn branch_not_taken_runs_the_overwrite() {
    let mut code = compiled_code(vec![
        ins(SetInteger, vec![1, 0]),
        ins(InstructionType::SetTrue, vec![2]),
        ins(GotoIfFalse, vec![4, 2]),
        ins(SetInteger, vec![1, 1]),
        ins(Return, vec![1]),
    ]);
    code.add_integer_literal(1);
    code.add_integer_literal(99);

    let (vm, result) = run(code);

    assert_eq!(integer_in(&vm, result.unwrap().unwrap()), 99);
}

#[test]
fn string_to_bytes_and_back() {
    let mut code = compiled_code(vec![
        ins(SetString, vec![1, 0]),
        ins(StringToBytes, vec![2, 1]),
        ins(StringFromBytes, vec![3, 2]),
        ins(StringEquals, vec![4, 1, 3]),
        ins(Return, vec![4]),
    ]);
    code.add_string_literal("abc".to_string());

    let (vm, result) = run(code);

    assert_eq!(result.unwrap(), Some(vm.true_object()));
}

#[test]
fn started_thread_stores_its_value() {
    let mut nested = compiled_code(vec![ins(SetInteger, vec![0, 0]), ins(Return, vec![0])]);
    nested.add_integer_literal(7);
    let mut code = compiled_code(vec![ins(StartThread, vec![1, 0])]);
    code.add_code_object(Arc::new(nested));

    let mut vm = VirtualMachine::new();
    let main = vm.start(Arc::new(code));
    let result = run_to_end(&mut vm, main);

    assert_eq!(result, Ok(None));
    let thread_object = register(&vm, main, 1);
    let started = match vm.object(thread_object).value {
        ObjectValue::Thread(index) => index,
        _ => panic!("register 1 holds no thread"),
    };
    assert_eq!(vm.object(thread_object).prototype, Some(vm.thread_prototype()));
    assert!(!vm.contexts[started].is_main());
    assert!(vm.contexts[main].is_main());
    let value = vm.contexts[started].value.unwrap();
    assert_eq!(integer_in(&vm, value), 7);
    assert!(!vm.object(thread_object).pinned);
    assert_eq!(vm.threads.len(), 0);
}

#[test]
fn invalid_open_mode_is_an_error_object() {
    let mut code = compiled_code(vec![
        ins(SetString, vec![1, 0]),
        ins(SetString, vec![2, 1]),
        ins(FileOpen, vec![3, 1, 2]),
        ins(IsError, vec![4, 3]),
        ins(Return, vec![4]),
    ]);
    code.add_string_literal("badmode".to_string());
    code.add_string_literal("zz".to_string());

    let mut vm = VirtualMachine::new();
    let thread = vm.start(Arc::new(code));
    let result = run_to_end(&mut vm, thread);

    assert_eq!(result, Ok(Some(vm.true_object())));
    assert_eq!(vm.exit_status(), Ok(()));
    let error = register(&vm, thread, 3);
    assert!(vm.object(error).prototype.is_none());
    match &vm.object(error).value {
        ObjectValue::Error(text) => assert_eq!(text, "invalid open mode"),
        _ => panic!("register 3 holds no error"),
    }
}
