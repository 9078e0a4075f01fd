use std::sync::Arc;

use register_vm::compiled_code::CompiledCode;
use register_vm::errors::IoError;
use register_vm::host::{FloatComparison, FloatOperation, Reply, Request};
use register_vm::instruction::{Instruction, InstructionType};
use register_vm::interpreter::Progress;
use register_vm::object_pointer::ObjectPointer;
use register_vm::object_value::ObjectValue;
use register_vm::virtual_machine::VirtualMachine;
use register_vm::instruction::InstructionType::{
    DefLiteralMethod, DefMethod, ErrorToString, FileOpen, FloatAdd, FloatDiv, FloatEquals, FloatGreater, FloatMod, FloatMul, FloatSmaller, FloatSub, FloatToInteger, FloatToString, GetArrayPrototype, GetAttr, GetCompiledCodePrototype, GetConst, GetFalsePrototype, GetFloatPrototype, GetIntegerPrototype, GetLocal, GetMethodPrototype, GetStringPrototype, GetThreadPrototype, GetToplevel, GetTruePrototype, Goto, GotoIfFalse, GotoIfTrue, IntegerAdd, IntegerBitwiseAnd, IntegerBitwiseOr, IntegerBitwiseXor, IntegerDiv, IntegerEquals, IntegerGreater, IntegerMod, IntegerMul, IntegerShiftLeft, IntegerShiftRight, IntegerSmaller, IntegerSub, IntegerToFloat, IntegerToString, IsError, Return, RunCode, Send, SetArray, SetAttr, SetCompiledCode, SetConst, SetFalse, SetFloat, SetInteger, SetLocal, SetName, SetObject, SetString, SetTrue,
};
use register_vm::virtual_machine_result::{Failure, Kind};

fn compiled_code(instructions: Vec<Instruction>) -> CompiledCode {
    CompiledCode::new("test".to_string(), "test.aeon".to_string(), 1, instructions)
}

fn ins(instruction_type: InstructionType, arguments: Vec<usize>) -> Instruction {
    Instruction::new(instruction_type, arguments, 1, 1)
}

/// A host without streams or files: it computes floats, counts the bytes it
/// is asked to write, and fails everything else.
fn reply_to(request: &Request<String>) -> Reply {
    match request {
        Request::StdoutWrite { text, .. } => Reply::Integer(text.len() as i64),
        Request::StderrWrite { text, .. } => Reply::Integer(text.len() as i64),
        Request::FloatArithmetic { operation, left, right, .. } => {
            let (left, right) = (f64::from_bits(*left), f64::from_bits(*right));
            let result = match operation {
                FloatOperation::Add => left + right,
                FloatOperation::Sub => left - right,
                FloatOperation::Mul => left * right,
                FloatOperation::Div => left / right,
                FloatOperation::Mod => left % right,
            };
            Reply::Float(result.to_bits())
        }
        Request::FloatCompare { comparison, left, right, .. } => {
            let (left, right) = (f64::from_bits(*left), f64::from_bits(*right));
            Reply::Flag(match comparison {
                FloatComparison::Smaller => left < right,
                FloatComparison::Greater => left > right,
                FloatComparison::Equals => left == right,
            })
        }
        Request::FloatToInteger { value, .. } => Reply::Integer(f64::from_bits(*value) as i64),
        Request::FloatToString { value, .. } => Reply::Text(f64::from_bits(*value).to_string()),
        Request::IntegerToFloat { integer, .. } => Reply::Float((*integer as f64).to_bits()),
        _ => Reply::Error(IoError::Other),
    }
}

/// Runs a thread to its end, answering its requests and running the
/// threads it starts to their ends as they are started.
fn run_to_end(vm: &mut VirtualMachine, thread: usize) -> Result<Option<ObjectPointer>, String> {
    for _ in 0..1000 {
        match vm.run_thread(thread, 1000)? {
            Progress::Running => {}
            Progress::Started(started) => {
                run_to_end(vm, started)?;
            }
            Progress::Waiting => {
                let reply = reply_to(vm.contexts[thread].pending.as_ref().unwrap());
                if let Err(failure) = vm.resume(thread, reply) {
                    return Err(vm.fail_thread(thread, &failure));
                }
            }
            Progress::Finished(value) => return Ok(value),
        }
    }
    panic!("the thread did not end");
}

/// Runs a code on a new machine and returns the machine and what the code returned.
fn run(code: CompiledCode) -> (VirtualMachine, Result<Option<ObjectPointer>, String>) {
    let mut vm = VirtualMachine::new();
    let thread = vm.start(Arc::new(code));
    let result = run_to_end(&mut vm, thread);
    (vm, result)
}

fn integer_in(vm: &VirtualMachine, object: ObjectPointer) -> i64 {
    match vm.object(object).value {
        ObjectValue::Integer(value) => value,
        _ => panic!("the object holds no integer"),
    }
}

fn string_in(vm: &VirtualMachine, object: ObjectPointer) -> String {
    match &vm.object(object).value {
        ObjectValue::String(text) => text.clone(),
        _ => panic!("the object holds no string"),
    }
}

fn register(vm: &VirtualMachine, thread: usize, slot: usize) -> ObjectPointer {
    vm.contexts[thread].get_register(slot).unwrap()
}

/// Runs a code on a new machine with `run`, which reports the fatal error itself.
fn fails_with(code: CompiledCode) -> Failure<String> {
    let mut vm = VirtualMachine::new();
    let thread = vm.start(Arc::new(code));
    for _ in 0..100 {
        match vm.run(thread, 1000) {
            Err(failure) => return failure,
            Ok(Progress::Waiting) => {
                let reply = reply_to(vm.contexts[thread].pending.as_ref().unwrap());
                if let Err(failure) = vm.resume(thread, reply) {
                    return failure;
                }
            }
            Ok(Progress::Finished(_)) => panic!("the thread ended without an error"),
            Ok(_) => {}
        }
    }
    panic!("the thread did not end");
}

/// A code that puts two integers in registers 1 and 2, applies an
/// operation to them into register 3, and returns register 3.
fn binary(operation: InstructionType, left: i64, right: i64) -> CompiledCode {
    let mut code = compiled_code(vec![
        ins(SetInteger, vec![1, 0]),
        ins(SetInteger, vec![2, 1]),
        ins(operation, vec![3, 1, 2]),
        ins(Return, vec![3]),
    ]);
    code.add_integer_literal(left);
    code.add_integer_literal(right);
    code
}

fn integer_result(operation: InstructionType, left: i64, right: i64) -> i64 {
    let (vm, result) = run(binary(operation, left, right));
    integer_in(&vm, result.unwrap().unwrap())
}

fn flag_result(operation: InstructionType, left: i64, right: i64) -> bool {
    let (vm, result) = run(binary(operation, left, right));
    let object = result.unwrap().unwrap();
    assert!(object == vm.true_object() || object == vm.false_object());
    object == vm.true_object()
}

#[test]
fn integer_arithmetic_wraps() {
    assert_eq!(integer_result(IntegerAdd, 2, 3), 5);
    assert_eq!(integer_result(IntegerAdd, i64::MAX, 1), i64::MIN);
    assert_eq!(integer_result(IntegerSub, i64::MIN, 1), i64::MAX);
    assert_eq!(integer_result(IntegerSub, 2, 3), -1);
    assert_eq!(integer_result(IntegerMul, -4, 6), -24);
    assert_eq!(integer_result(IntegerMul, i64::MAX, 2), -2);
}

#[test]
fn integer_division_rounds_toward_zero() {
    assert_eq!(integer_result(IntegerDiv, 7, 2), 3);
    assert_eq!(integer_result(IntegerDiv, -7, 2), -3);
    assert_eq!(integer_result(IntegerDiv, 7, -2), -3);
    assert_eq!(integer_result(IntegerDiv, -7, -2), 3);
    assert_eq!(integer_result(IntegerDiv, i64::MIN, -1), i64::MIN);
    assert_eq!(integer_result(IntegerMod, 7, 2), 1);
    assert_eq!(integer_result(IntegerMod, -7, 2), -1);
    assert_eq!(integer_result(IntegerMod, 7, -2), 1);
    assert_eq!(integer_result(IntegerMod, -7, -2), -1);
    assert_eq!(integer_result(IntegerMod, i64::MIN, -1), 0);
}

#[test]
fn integer_division_by_zero_is_fatal() {
    assert_eq!(fails_with(binary(IntegerDiv, 1, 0)), Failure::DivisionByZero);
    assert_eq!(fails_with(binary(IntegerMod, 1, 0)), Failure::DivisionByZero);
}

#[test]
fn integer_bits() {
    assert_eq!(integer_result(IntegerBitwiseAnd, 0b1100, 0b1010), 0b1000);
    assert_eq!(integer_result(IntegerBitwiseOr, 0b1100, 0b1010), 0b1110);
    assert_eq!(integer_result(IntegerBitwiseXor, 0b1100, 0b1010), 0b0110);
    assert_eq!(integer_result(IntegerBitwiseAnd, -1, 255), 255);
    assert_eq!(integer_result(IntegerShiftLeft, 1, 4), 16);
    assert_eq!(integer_result(IntegerShiftLeft, 1, 63), i64::MIN);
    assert_eq!(integer_result(IntegerShiftLeft, 3, 63), i64::MIN);
    assert_eq!(integer_result(IntegerShiftRight, -8, 1), -4);
    assert_eq!(integer_result(IntegerShiftRight, 16, 4), 1);
    assert_eq!(integer_result(IntegerShiftRight, 5, 0), 5);
}

#[test]
fn integer_shift_distance_must_be_in_range() {
    assert_eq!(fails_with(binary(IntegerShiftLeft, 1, 64)), Failure::InvalidShift(64));
    assert_eq!(fails_with(binary(IntegerShiftLeft, 1, -1)), Failure::InvalidShift(-1));
    assert_eq!(fails_with(binary(IntegerShiftRight, 1, 64)), Failure::InvalidShift(64));
    assert_eq!(fails_with(binary(IntegerShiftRight, 1, -3)), Failure::InvalidShift(-3));
}

#[test]
fn integer_comparisons() {
    assert!(flag_result(IntegerSmaller, 1, 2));
    assert!(!flag_result(IntegerSmaller, 2, 2));
    assert!(flag_result(IntegerGreater, 3, 2));
    assert!(!flag_result(IntegerGreater, -3, 2));
    assert!(flag_result(IntegerEquals, 2, 2));
    assert!(!flag_result(IntegerEquals, 2, -2));
}

#[test]
fn integer_operands_must_be_integers() {
    let mut code = compiled_code(vec![
        ins(SetInteger, vec![1, 0]),
        ins(SetString, vec![2, 0]),
        ins(IntegerAdd, vec![3, 1, 2]),
    ]);
    code.add_integer_literal(1);
    code.add_string_literal("one".to_string());

    assert_eq!(fails_with(code), Failure::TypeMismatch(Kind::Integer));
}

#[test]
fn unset_register_is_fatal() {
    let code = compiled_code(vec![ins(IntegerAdd, vec![3, 1, 2])]);

    assert_eq!(fails_with(code), Failure::UndefinedRegister(1));
}

#[test]
fn integer_to_string_is_decimal() {
    for (value, text) in [
        (0, "0"),
        (7, "7"),
        (-42, "-42"),
        (1000, "1000"),
        (i64::MAX, "9223372036854775807"),
        (i64::MIN, "-9223372036854775808"),
    ] {
        let mut code = compiled_code(vec![
            ins(SetInteger, vec![1, 0]),
            ins(IntegerToString, vec![2, 1]),
            ins(Return, vec![2]),
        ]);
        code.add_integer_literal(value);

        let (vm, result) = run(code);
        let object = result.unwrap().unwrap();

        assert_eq!(string_in(&vm, object), text);
        assert_eq!(vm.object(object).prototype, Some(vm.string_prototype()));
    }
}

#[test]
fn integer_to_float_asks_the_host() {
    let mut code = compiled_code(vec![
        ins(SetInteger, vec![1, 0]),
        ins(IntegerToFloat, vec![2, 1]),
        ins(Return, vec![2]),
    ]);
    code.add_integer_literal(-3);

    let mut vm = VirtualMachine::new();
    let thread = vm.start(Arc::new(code));

    assert_eq!(vm.run(thread, 10), Ok(Progress::Waiting));
    assert_eq!(
        vm.contexts[thread].pending,
        Some(Request::IntegerToFloat { slot: 2, integer: -3 })
    );
    assert_eq!(vm.run(thread, 10), Ok(Progress::Waiting));

    let result = run_to_end(&mut vm, thread).unwrap().unwrap();
    match vm.object(result).value {
        ObjectValue::Float(bits) => assert_eq!(f64::from_bits(bits), -3.0),
        _ => panic!("no float"),
    }
    assert_eq!(vm.object(result).prototype, Some(vm.float_prototype()));
}

/// A code that puts two floats in registers 1 and 2, applies an operation
/// to them into register 3, and returns register 3.
fn float_binary(operation: InstructionType, left: f64, right: f64) -> CompiledCode {
    let mut code = compiled_code(vec![
        ins(SetFloat, vec![1, 0]),
        ins(SetFloat, vec![2, 1]),
        ins(operation, vec![3, 1, 2]),
        ins(Return, vec![3]),
    ]);
    code.add_float_literal(left.to_bits());
    code.add_float_literal(right.to_bits());
    code
}

fn float_result(operation: InstructionType, left: f64, right: f64) -> f64 {
    let (vm, result) = run(float_binary(operation, left, right));
    let object = result.unwrap().unwrap();
    assert_eq!(vm.object(object).prototype, Some(vm.float_prototype()));
    match vm.object(object).value {
        ObjectValue::Float(bits) => f64::from_bits(bits),
        _ => panic!("no float"),
    }
}

#[test]
fn float_arithmetic_goes_through_the_host() {
    assert_eq!(float_result(FloatAdd, 1.5, 2.25), 3.75);
    assert_eq!(float_result(FloatSub, 1.5, 2.25), -0.75);
    assert_eq!(float_result(FloatMul, 1.5, 2.0), 3.0);
    assert_eq!(float_result(FloatDiv, 1.0, 4.0), 0.25);
    assert_eq!(float_result(FloatMod, -7.5, 2.0), -1.5);
    assert_eq!(float_result(FloatDiv, 1.0, 0.0), f64::INFINITY);
}

#[test]
fn float_requests_carry_the_operands() {
    let mut vm = VirtualMachine::new();
    let thread = vm.start(Arc::new(float_binary(FloatSub, 1.5, 2.25)));

    assert_eq!(vm.run(thread, 10), Ok(Progress::Waiting));
    assert_eq!(
        vm.contexts[thread].pending,
        Some(Request::FloatArithmetic {
            slot: 3,
            operation: FloatOperation::Sub,
            left: 1.5f64.to_bits(),
            right: 2.25f64.to_bits(),
        })
    );
}

#[test]
fn float_comparisons_go_through_the_host() {
    for (operation, left, right, expected) in [
        (FloatSmaller, 1.0, 2.0, true),
        (FloatSmaller, 2.0, 1.0, false),
        (FloatGreater, 2.0, 1.0, true),
        (FloatGreater, 1.0, 1.0, false),
        (FloatEquals, 1.0, 1.0, true),
        (FloatEquals, f64::NAN, f64::NAN, false),
    ] {
        let (vm, result) = run(float_binary(operation, left, right));
        let expected = if expected { vm.true_object() } else { vm.false_object() };
        assert_eq!(result.unwrap(), Some(expected));
    }
}

#[test]
fn float_conversions_go_through_the_host() {
    let mut code = compiled_code(vec![
        ins(SetFloat, vec![1, 0]),
        ins(FloatToInteger, vec![2, 1]),
        ins(FloatToString, vec![3, 1]),
        ins(Return, vec![2]),
    ]);
    code.add_float_literal((-2.75f64).to_bits());

    let mut vm = VirtualMachine::new();
    let thread = vm.start(Arc::new(code));
    let result = run_to_end(&mut vm, thread).unwrap().unwrap();

    assert_eq!(integer_in(&vm, result), -2);
    assert_eq!(vm.object(result).prototype, Some(vm.integer_prototype()));
    assert_eq!(string_in(&vm, register(&vm, thread, 3)), "-2.75");
}

#[test]
fn float_operands_must_be_floats() {
    let mut code = compiled_code(vec![
        ins(SetInteger, vec![1, 0]),
        ins(SetFloat, vec![2, 0]),
        ins(FloatAdd, vec![3, 1, 2]),
    ]);
    code.add_integer_literal(1);
    code.add_float_literal(1.0f64.to_bits());

    assert_eq!(fails_with(code), Failure::TypeMismatch(Kind::Float));
}

#[test]
fn literals_must_exist() {
    assert_eq!(
        fails_with(compiled_code(vec![ins(SetFloat, vec![0, 3])])),
        Failure::UndefinedFloatLiteral(3)
    );
    assert_eq!(
        fails_with(compiled_code(vec![ins(SetString, vec![0, 2])])),
        Failure::UndefinedStringLiteral(2)
    );
    assert_eq!(
        fails_with(compiled_code(vec![ins(SetCompiledCode, vec![0, 1])])),
        Failure::UndefinedCodeObject(1)
    );
}

#[test]
fn values_get_their_prototypes() {
    let mut code = compiled_code(vec![
        ins(SetInteger, vec![1, 0]),
        ins(SetFloat, vec![2, 0]),
        ins(SetString, vec![3, 0]),
        ins(SetArray, vec![4, 2, 1, 3]),
        ins(SetCompiledCode, vec![5, 0]),
        ins(SetObject, vec![6]),
        ins(SetObject, vec![7, 6]),
        ins(SetTrue, vec![8]),
        ins(SetFalse, vec![9]),
    ]);
    code.add_integer_literal(1);
    code.add_float_literal(0.5f64.to_bits());
    code.add_string_literal("text".to_string());
    code.add_code_object(Arc::new(compiled_code(Vec::new())));

    let mut vm = VirtualMachine::new();
    let thread = vm.start(Arc::new(code));
    assert_eq!(run_to_end(&mut vm, thread), Ok(None));

    let object = |slot| vm.object(register(&vm, thread, slot));
    assert_eq!(object(1).prototype, Some(vm.integer_prototype()));
    assert_eq!(object(2).prototype, Some(vm.float_prototype()));
    assert!(matches!(object(2).value, ObjectValue::Float(bits) if f64::from_bits(bits) == 0.5));
    assert_eq!(object(3).prototype, Some(vm.string_prototype()));
    assert_eq!(string_in(&vm, register(&vm, thread, 3)), "text");
    assert_eq!(object(4).prototype, Some(vm.array_prototype()));
    match &object(4).value {
        ObjectValue::Array(items) => {
            assert_eq!(items, &vec![register(&vm, thread, 1), register(&vm, thread, 3)])
        }
        _ => panic!("no array"),
    }
    assert_eq!(object(5).prototype, Some(vm.compiled_code_prototype()));
    assert!(matches!(object(5).value, ObjectValue::CompiledCode(_)));
    assert_eq!(object(6).prototype, None);
    assert!(matches!(object(6).value, ObjectValue::Plain));
    assert_eq!(object(7).prototype, Some(register(&vm, thread, 6)));
    assert_eq!(register(&vm, thread, 8), vm.true_object());
    assert_eq!(register(&vm, thread, 9), vm.false_object());
    assert_eq!(vm.object(vm.true_object()).prototype, Some(vm.true_prototype()));
    assert_eq!(vm.object(vm.false_object()).prototype, Some(vm.false_prototype()));
}

#[test]
fn set_object_needs_its_prototype_register() {
    assert_eq!(
        fails_with(compiled_code(vec![ins(SetObject, vec![1, 5])])),
        Failure::UndefinedRegister(5)
    );
}

#[test]
fn set_array_needs_all_its_values() {
    let mut code = compiled_code(vec![ins(SetInteger, vec![1, 0]), ins(SetArray, vec![2, 2, 1])]);
    code.add_integer_literal(1);
    assert_eq!(fails_with(code), Failure::MissingArgument(3));

    let mut code = compiled_code(vec![ins(SetInteger, vec![1, 0]), ins(SetArray, vec![2, 2, 1, 9])]);
    code.add_integer_literal(1);
    assert_eq!(fails_with(code), Failure::UndefinedRegister(9));
}

#[test]
fn prototype_getters_bind_the_singletons() {
    let code = compiled_code(vec![
        ins(GetIntegerPrototype, vec![0]),
        ins(GetFloatPrototype, vec![1]),
        ins(GetStringPrototype, vec![2]),
        ins(GetArrayPrototype, vec![3]),
        ins(GetThreadPrototype, vec![4]),
        ins(GetTruePrototype, vec![5]),
        ins(GetFalsePrototype, vec![6]),
        ins(GetMethodPrototype, vec![7]),
        ins(GetCompiledCodePrototype, vec![8]),
        ins(GetToplevel, vec![9]),
    ]);

    let mut vm = VirtualMachine::new();
    let thread = vm.start(Arc::new(code));
    assert_eq!(run_to_end(&mut vm, thread), Ok(None));

    let expected = [
        vm.integer_prototype(),
        vm.float_prototype(),
        vm.string_prototype(),
        vm.array_prototype(),
        vm.thread_prototype(),
        vm.true_prototype(),
        vm.false_prototype(),
        vm.method_prototype(),
        vm.compiled_code_prototype(),
        vm.top_level(),
    ];
    for (slot, object) in expected.iter().enumerate() {
        assert_eq!(register(&vm, thread, slot), *object);
    }
    for (i, first) in expected.iter().enumerate() {
        for second in expected.iter().skip(i + 1) {
            assert_ne!(first, second);
        }
    }
    assert_eq!(
        fails_with(compiled_code(vec![ins(GetToplevel, Vec::new())])),
        Failure::MissingArgument(0)
    );
}

#[test]
fn name_constants_and_attributes() {
    let mut code = compiled_code(vec![
        ins(SetObject, vec![1]),
        ins(SetName, vec![1, 0]),
        ins(SetInteger, vec![2, 0]),
        ins(SetConst, vec![1, 2, 1]),
        ins(GetConst, vec![3, 1, 1]),
        ins(SetString, vec![4, 2]),
        ins(SetAttr, vec![1, 2, 4]),
        ins(GetAttr, vec![5, 1, 4]),
        ins(SetInteger, vec![6, 1]),
        ins(SetAttr, vec![1, 6, 4]),
        ins(GetAttr, vec![7, 1, 4]),
    ]);
    code.add_string_literal("Thing".to_string());
    code.add_string_literal("LIMIT".to_string());
    code.add_string_literal("size".to_string());
    code.add_integer_literal(10);
    code.add_integer_literal(20);

    let mut vm = VirtualMachine::new();
    let thread = vm.start(Arc::new(code));
    assert_eq!(run_to_end(&mut vm, thread), Ok(None));

    let object = register(&vm, thread, 1);
    assert_eq!(vm.object(object).name, Some("Thing".to_string()));
    assert_eq!(register(&vm, thread, 3), register(&vm, thread, 2));
    assert_eq!(register(&vm, thread, 5), register(&vm, thread, 2));
    assert_eq!(register(&vm, thread, 7), register(&vm, thread, 6));
    assert_eq!(integer_in(&vm, register(&vm, thread, 7)), 20);
    assert_eq!(vm.object(object).attributes.get(&"size".to_string()), Some(register(&vm, thread, 6)));
    assert_eq!(vm.object(object).attributes.get(&"LIMIT".to_string()), None);
    assert_eq!(vm.object(object).constants.get(&"LIMIT".to_string()), Some(register(&vm, thread, 2)));
}

#[test]
fn undefined_constants_and_attributes_are_fatal() {
    let mut code = compiled_code(vec![ins(SetObject, vec![1]), ins(GetConst, vec![2, 1, 0])]);
    code.add_string_literal("LIMIT".to_string());
    assert_eq!(fails_with(code), Failure::UndefinedConstant("LIMIT".to_string()));

    let mut code = compiled_code(vec![
        ins(SetObject, vec![1]),
        ins(SetString, vec![2, 0]),
        ins(GetAttr, vec![3, 1, 2]),
    ]);
    code.add_string_literal("size".to_string());
    assert_eq!(fails_with(code), Failure::UndefinedAttribute("size".to_string()));

    let code = compiled_code(vec![ins(SetObject, vec![1]), ins(SetAttr, vec![1, 1, 1])]);
    assert_eq!(fails_with(code), Failure::TypeMismatch(Kind::String));
}

#[test]
fn locals_are_assigned_by_index() {
    let mut method = compiled_code(vec![
        ins(SetInteger, vec![0, 0]),
        ins(SetLocal, vec![1, 0]),
        ins(GetLocal, vec![1, 1]),
        ins(GetLocal, vec![2, 0]),
        ins(SetArray, vec![3, 2, 1, 2]),
        ins(Return, vec![3]),
    ]);
    method.add_integer_literal(5);
    method.required_arguments = 1;
    let mut code = compiled_code(vec![
        ins(SetObject, vec![1]),
        ins(DefLiteralMethod, vec![1, 0, 0]),
        ins(SetInteger, vec![2, 0]),
        ins(Send, vec![3, 1, 0, 0, 1, 2]),
        ins(Return, vec![3]),
    ]);
    code.add_string_literal("replace".to_string());
    code.add_integer_literal(1);
    code.add_code_object(Arc::new(method));

    let mut vm = VirtualMachine::new();
    let thread = vm.start(Arc::new(code));
    let result = run_to_end(&mut vm, thread).unwrap().unwrap();

    let items = match &vm.object(result).value {
        ObjectValue::Array(items) => items.clone(),
        _ => panic!("no array"),
    };
    assert_eq!(integer_in(&vm, items[0]), 5);
    assert_eq!(items[1], register(&vm, thread, 1));
}

#[test]
fn locals_out_of_range_are_fatal() {
    let mut code = compiled_code(vec![ins(SetInteger, vec![0, 0]), ins(SetLocal, vec![0, 0])]);
    code.add_integer_literal(5);
    assert_eq!(fails_with(code), Failure::UndefinedLocal(0));

    assert_eq!(
        fails_with(compiled_code(vec![ins(GetLocal, vec![0, 2])])),
        Failure::UndefinedLocal(2)
    );
}

/// A code that defines a method named `name` on a new object in register
/// 1, and sends it with the integer literal 0 as its only argument.
fn sending(method: CompiledCode, allow_private: usize, arguments: usize) -> CompiledCode {
    let mut send = vec![3, 1, 0, allow_private, arguments];
    for _ in 0..arguments {
        send.push(2);
    }
    let mut code = compiled_code(vec![
        ins(SetObject, vec![1]),
        ins(DefLiteralMethod, vec![1, 0, 0]),
        ins(SetInteger, vec![2, 0]),
        ins(Send, send),
        ins(Return, vec![3]),
    ]);
    code.add_string_literal("double".to_string());
    code.add_integer_literal(21);
    code.add_code_object(Arc::new(method));
    code
}

fn doubling() -> CompiledCode {
    let mut method = CompiledCode::new(
        "double".to_string(),
        "numbers.aeon".to_string(),
        7,
        vec![
            ins(GetLocal, vec![0, 1]),
            ins(IntegerAdd, vec![1, 0, 0]),
            ins(Return, vec![1]),
        ],
    );
    method.required_arguments = 1;
    method
}

#[test]
fn send_runs_the_method_and_binds_its_value() {
    let (vm, result) = run(sending(doubling(), 0, 1));

    assert_eq!(integer_in(&vm, result.unwrap().unwrap()), 42);
}

#[test]
fn send_exposes_the_receiver_as_the_first_local() {
    let mut method = compiled_code(vec![ins(GetLocal, vec![0, 0]), ins(Return, vec![0])]);
    method.required_arguments = 1;

    let mut vm = VirtualMachine::new();
    let thread = vm.start(Arc::new(sending(method, 0, 1)));
    let result = run_to_end(&mut vm, thread);

    assert_eq!(result, Ok(Some(register(&vm, thread, 1))));
}

#[test]
fn send_without_a_value_leaves_the_slot() {
    let mut method = compiled_code(Vec::new());
    method.required_arguments = 1;
    let mut code = sending(method, 0, 1);
    code.instructions.insert(0, ins(SetTrue, vec![3]));

    let (vm, result) = run(code);

    assert_eq!(result, Ok(Some(vm.true_object())));
}

#[test]
fn send_checks_the_method() {
    assert_eq!(
        fails_with(sending(doubling(), 0, 2)),
        Failure::ArgumentCount { name: "double".to_string(), required: 1, given: 2 }
    );
    assert_eq!(
        fails_with(sending(doubling(), 0, 0)),
        Failure::ArgumentCount { name: "double".to_string(), required: 1, given: 0 }
    );

    let mut private = doubling();
    private.private = true;
    assert_eq!(
        fails_with(sending(private, 0, 1)),
        Failure::PrivateMethod("double".to_string())
    );
    let mut private = doubling();
    private.private = true;
    let (vm, result) = run(sending(private, 1, 1));
    assert_eq!(integer_in(&vm, result.unwrap().unwrap()), 42);

    let mut code = compiled_code(vec![ins(SetObject, vec![1]), ins(Send, vec![3, 1, 0, 0, 0])]);
    code.add_string_literal("missing".to_string());
    assert_eq!(fails_with(code), Failure::UndefinedMethod("missing".to_string()));
}

#[test]
fn send_looks_methods_up_the_prototype_chain() {
    let mut overriding = compiled_code(vec![ins(GetLocal, vec![0, 1]), ins(Return, vec![0])]);
    overriding.required_arguments = 1;
    let mut code = compiled_code(vec![
        ins(SetObject, vec![1]),
        ins(DefLiteralMethod, vec![1, 0, 0]),
        ins(SetObject, vec![4, 1]),
        ins(SetObject, vec![5, 4]),
        ins(SetInteger, vec![2, 0]),
        ins(Send, vec![3, 5, 0, 0, 1, 2]),
        ins(DefLiteralMethod, vec![4, 0, 1]),
        ins(Send, vec![6, 5, 0, 0, 1, 2]),
        ins(Send, vec![7, 1, 0, 0, 1, 2]),
        ins(SetArray, vec![8, 3, 3, 6, 7]),
        ins(Return, vec![8]),
    ]);
    code.add_string_literal("double".to_string());
    code.add_integer_literal(21);
    code.add_code_object(Arc::new(doubling()));
    code.add_code_object(Arc::new(overriding));

    let (vm, result) = run(code);
    let items = match &vm.object(result.unwrap().unwrap()).value {
        ObjectValue::Array(items) => items.clone(),
        _ => panic!("no array"),
    };

    assert_eq!(integer_in(&vm, items[0]), 42);
    assert_eq!(integer_in(&vm, items[1]), 21);
    assert_eq!(integer_in(&vm, items[2]), 42);
}

#[test]
fn def_method_takes_name_and_code_from_registers() {
    let mut code = compiled_code(vec![
        ins(SetObject, vec![1]),
        ins(SetString, vec![2, 0]),
        ins(SetCompiledCode, vec![3, 0]),
        ins(DefMethod, vec![1, 2, 3]),
        ins(SetInteger, vec![4, 0]),
        ins(Send, vec![5, 1, 0, 0, 1, 4]),
        ins(Return, vec![5]),
    ]);
    code.add_string_literal("double".to_string());
    code.add_integer_literal(4);
    code.add_code_object(Arc::new(doubling()));

    let mut vm = VirtualMachine::new();
    let thread = vm.start(Arc::new(code));
    let result = run_to_end(&mut vm, thread).unwrap().unwrap();

    assert_eq!(integer_in(&vm, result), 8);
    let receiver = register(&vm, thread, 1);
    let method = vm.object(receiver).methods.get(&"double".to_string()).unwrap();
    assert_eq!(vm.object(method).prototype, Some(vm.method_prototype()));
    assert!(matches!(vm.object(method).value, ObjectValue::CompiledCode(_)));
    assert_ne!(method, register(&vm, thread, 3));
}

#[test]
fn def_method_checks_its_operands() {
    let mut code = compiled_code(vec![
        ins(SetObject, vec![1]),
        ins(SetCompiledCode, vec![3, 0]),
        ins(DefMethod, vec![1, 3, 3]),
    ]);
    code.add_code_object(Arc::new(doubling()));
    assert_eq!(fails_with(code), Failure::TypeMismatch(Kind::String));

    let mut code = compiled_code(vec![
        ins(SetObject, vec![1]),
        ins(SetString, vec![2, 0]),
        ins(DefMethod, vec![1, 2, 2]),
    ]);
    code.add_string_literal("double".to_string());
    assert_eq!(fails_with(code), Failure::TypeMismatch(Kind::CompiledCode));
}

#[test]
fn run_code_passes_the_arguments_as_locals() {
    let mut code = compiled_code(vec![
        ins(SetCompiledCode, vec![1, 0]),
        ins(SetInteger, vec![2, 0]),
        ins(SetInteger, vec![3, 1]),
        ins(RunCode, vec![4, 1, 2, 2, 3]),
        ins(Return, vec![4]),
    ]);
    code.add_integer_literal(2);
    code.add_integer_literal(30);
    code.add_code_object(Arc::new(compiled_code(vec![
        ins(GetLocal, vec![0, 0]),
        ins(GetLocal, vec![1, 1]),
        ins(IntegerAdd, vec![2, 0, 1]),
        ins(Return, vec![2]),
    ])));

    let (vm, result) = run(code);

    assert_eq!(integer_in(&vm, result.unwrap().unwrap()), 32);
}

#[test]
fn run_code_checks_its_operands() {
    let mut code = compiled_code(vec![
        ins(SetCompiledCode, vec![1, 0]),
        ins(SetInteger, vec![2, 0]),
        ins(RunCode, vec![4, 1, 2]),
    ]);
    code.add_integer_literal(-1);
    code.add_code_object(Arc::new(compiled_code(Vec::new())));
    assert_eq!(fails_with(code), Failure::InvalidCount(-1));

    let mut code = compiled_code(vec![ins(SetInteger, vec![2, 0]), ins(RunCode, vec![4, 2, 2])]);
    code.add_integer_literal(0);
    assert_eq!(fails_with(code), Failure::TypeMismatch(Kind::CompiledCode));
}

#[test]
fn the_last_return_wins() {
    let mut code = compiled_code(vec![
        ins(SetInteger, vec![1, 0]),
        ins(Return, vec![1]),
        ins(SetInteger, vec![2, 1]),
        ins(Return, vec![2]),
        ins(SetInteger, vec![2, 0]),
    ]);
    code.add_integer_literal(1);
    code.add_integer_literal(2);

    let (vm, result) = run(code);

    assert_eq!(integer_in(&vm, result.unwrap().unwrap()), 2);
}

#[test]
fn return_of_an_unset_register_is_no_value() {
    let (_, result) = run(compiled_code(vec![ins(Return, vec![4])]));

    assert_eq!(result, Ok(None));
}

#[test]
fn goto_replaces_the_next_index() {
    let mut code = compiled_code(vec![
        ins(SetInteger, vec![1, 0]),
        ins(Goto, vec![3]),
        ins(SetInteger, vec![1, 1]),
        ins(Return, vec![1]),
    ]);
    code.add_integer_literal(1);
    code.add_integer_literal(2);

    let (vm, result) = run(code);

    assert_eq!(integer_in(&vm, result.unwrap().unwrap()), 1);
}

#[test]
fn goto_backward_loops_until_the_fuel_is_spent() {
    let code = compiled_code(vec![ins(SetTrue, vec![1]), ins(Goto, vec![0])]);

    let mut vm = VirtualMachine::new();
    let thread = vm.start(Arc::new(code));

    assert_eq!(vm.run(thread, 1001), Ok(Progress::Running));
    assert_eq!(vm.run(thread, 0), Ok(Progress::Running));
    assert_eq!(vm.contexts[thread].current().index, 1);
}

#[test]
fn conditional_branches_go_by_truth() {
    // The code returns 1 if the branch was taken and 2 if not.
    let outcome = |branch: InstructionType, condition: Vec<Instruction>, code: &dyn Fn(&mut CompiledCode)| {
        let mut instructions = condition;
        let base = instructions.len();
        instructions.push(ins(SetInteger, vec![9, 0]));
        instructions.push(ins(branch, vec![base + 3, 1]));
        instructions.push(ins(SetInteger, vec![9, 1]));
        instructions.push(ins(Return, vec![9]));
        let mut compiled = compiled_code(instructions);
        compiled.add_integer_literal(1);
        compiled.add_integer_literal(2);
        compiled.add_integer_literal(0);
        compiled.add_string_literal(String::new());
        compiled.add_string_literal("x".to_string());
        compiled.add_float_literal(0.0f64.to_bits());
        compiled.add_float_literal((-0.0f64).to_bits());
        compiled.add_float_literal(f64::NAN.to_bits());
        code(&mut compiled);
        let (vm, result) = run(compiled);
        integer_in(&vm, result.unwrap().unwrap()) == 1
    };
    let truthy = |condition: Vec<Instruction>| {
        let taken_if_true = outcome(GotoIfTrue, condition.clone(), &|_| {});
        let taken_if_false = outcome(GotoIfFalse, condition, &|_| {});
        assert_ne!(taken_if_true, taken_if_false);
        taken_if_true
    };

    assert!(truthy(vec![ins(SetTrue, vec![1])]));
    assert!(!truthy(vec![ins(SetFalse, vec![1])]));
    assert!(truthy(vec![ins(SetInteger, vec![1, 0])]));
    assert!(!truthy(vec![ins(SetInteger, vec![1, 2])]));
    assert!(!truthy(vec![ins(SetString, vec![1, 0])]));
    assert!(truthy(vec![ins(SetString, vec![1, 1])]));
    assert!(!truthy(vec![ins(SetFloat, vec![1, 0])]));
    assert!(!truthy(vec![ins(SetFloat, vec![1, 1])]));
    assert!(truthy(vec![ins(SetFloat, vec![1, 2])]));
    assert!(!truthy(vec![ins(SetArray, vec![1, 0])]));
    assert!(truthy(vec![ins(SetTrue, vec![2]), ins(SetArray, vec![1, 1, 2])]));
    assert!(truthy(vec![ins(SetObject, vec![1])]));
    assert!(truthy(vec![ins(GetFalsePrototype, vec![1])]));
    // An error object is not true.
    assert!(!truthy(vec![
        ins(SetString, vec![2, 1]),
        ins(FileOpen, vec![1, 2, 2]),
    ]));
    // An unset register is not true, and `GotoIfFalse` branches on it.
    assert!(!outcome(GotoIfTrue, Vec::new(), &|_| {}));
    assert!(outcome(GotoIfFalse, Vec::new(), &|_| {}));
}

#[test]
fn conditional_branches_do_not_go_back() {
    let mut code = compiled_code(vec![
        ins(SetFalse, vec![1]),
        ins(SetInteger, vec![2, 0]),
        ins(GotoIfFalse, vec![0, 1]),
        ins(Return, vec![2]),
    ]);
    code.add_integer_literal(3);

    let (vm, result) = run(code);

    assert_eq!(integer_in(&vm, result.unwrap().unwrap()), 3);
}

#[test]
fn errors_are_recognised_and_read() {
    let mut code = compiled_code(vec![
        ins(SetString, vec![1, 0]),
        ins(FileOpen, vec![2, 1, 1]),
        ins(IsError, vec![3, 2]),
        ins(IsError, vec![4, 1]),
        ins(ErrorToString, vec![5, 2]),
    ]);
    code.add_string_literal("nowhere".to_string());

    let mut vm = VirtualMachine::new();
    let thread = vm.start(Arc::new(code));
    assert_eq!(run_to_end(&mut vm, thread), Ok(None));

    assert_eq!(register(&vm, thread, 3), vm.true_object());
    assert_eq!(register(&vm, thread, 4), vm.false_object());
    assert_eq!(string_in(&vm, register(&vm, thread, 5)), "invalid open mode");
    assert_eq!(
        vm.object(register(&vm, thread, 5)).prototype,
        Some(vm.string_prototype())
    );

    let mut code = compiled_code(vec![ins(SetString, vec![1, 0]), ins(ErrorToString, vec![2, 1])]);
    code.add_string_literal("fine".to_string());
    assert_eq!(fails_with(code), Failure::TypeMismatch(Kind::Error));
}
