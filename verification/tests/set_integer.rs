use std::sync::Arc;

use register_vm::compiled_code::CompiledCode;
use register_vm::instruction::{Instruction, InstructionType};
use register_vm::object_value::ObjectValue;
use register_vm::virtual_machine::VirtualMachine;
use register_vm::virtual_machine_result::Failure;

fn compiled_code(instructions: Vec<Instruction>) -> CompiledCode {
    CompiledCode::new("test".to_string(), "test".to_string(), 1, instructions)
}

fn instruction(instruction_type: InstructionType, arguments: Vec<usize>) -> Instruction {
    Instruction::new(instruction_type, arguments, 1, 1)
}

#[test]
fn test_ins_set_integer_without_arguments() {
    let mut vm = VirtualMachine::new();
    let cc = compiled_code(vec![instruction(InstructionType::SetInteger, Vec::new())]);

    let thread = vm.start(Arc::new(cc));
    let result = vm.run(thread, 10);

    assert!(result.is_err());
    assert_eq!(result, Err(Failure::MissingArgument(0)));
}

#[test]
fn test_ins_set_integer_without_literal_index() {
    let mut vm = VirtualMachine::new();
    let cc = compiled_code(vec![instruction(InstructionType::SetInteger, vec![0])]);

    let thread = vm.start(Arc::new(cc));
    let result = vm.run(thread, 10);

    assert!(result.is_err());
    assert_eq!(result, Err(Failure::MissingArgument(1)));
}

#[test]
fn test_ins_set_integer_with_undefined_literal() {
    let mut vm = VirtualMachine::new();
    let cc = compiled_code(vec![instruction(InstructionType::SetInteger, vec![0, 0])]);

    let thread = vm.start(Arc::new(cc));
    let result = vm.run(thread, 10);

    assert!(result.is_err());
    assert_eq!(result, Err(Failure::UndefinedIntegerLiteral(0)));
}

#[test]
fn test_ins_set_integer_with_valid_arguments() {
    let mut vm = VirtualMachine::new();

    let mut cc = compiled_code(vec![instruction(InstructionType::SetInteger, vec![1, 0])]);

    cc.add_integer_literal(10);

    let thread = vm.start(Arc::new(cc));
    let result = vm.run(thread, 10);

    let int_obj = vm.contexts[thread].get_register(1).unwrap();
    let value = match vm.object(int_obj).value {
        ObjectValue::Integer(value) => value,
        _ => panic!("register 1 holds no integer"),
    };

    assert!(result.is_ok());

    assert_eq!(value, 10);
}
