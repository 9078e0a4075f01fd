use std::sync::Arc;

use register_vm::call_frame::CallFrame;
use register_vm::compiled_code::CompiledCode;
use register_vm::instruction::{Instruction, InstructionType};
use register_vm::memory_manager::MemoryManager;
use register_vm::object::{NameTable, Object};
use register_vm::object_pointer::ObjectPointer;
use register_vm::object_value;
use register_vm::object_value::ObjectValue;
use register_vm::text::{count_to_integer, integer_to_byte};
use register_vm::thread::Thread;
use register_vm::thread_list::ThreadList;
use register_vm::virtual_machine_result::Failure;

fn empty_code(name: &str) -> CompiledCode {
    CompiledCode::new(name.to_string(), "objects.aeon".to_string(), 3, Vec::new())
}

#[test]
fn instruction_arguments_are_fetched_by_position() {
    let instruction = Instruction::new(InstructionType::SetArray, vec![4, 2, 8, 9], 12, 3);

    assert_eq!(instruction.instruction_type, InstructionType::SetArray);
    assert_eq!(instruction.line, 12);
    assert_eq!(instruction.column, 3);
    assert_eq!(instruction.arg(0), Ok(4));
    assert_eq!(instruction.arg(3), Ok(9));
    assert_eq!(instruction.arg(4), Err(Failure::MissingArgument(4)));
    assert_eq!(instruction.arg(usize::MAX), Err(Failure::MissingArgument(usize::MAX)));
}

#[test]
fn compiled_code_literals_are_fetched_by_index() {
    let mut code = empty_code("main");
    assert_eq!(code.name, "main");
    assert_eq!(code.file, "objects.aeon");
    assert_eq!(code.line, 3);
    assert_eq!(code.required_arguments, 0);
    assert!(!code.is_private());
    assert_eq!(code.integer(0), Err(Failure::UndefinedIntegerLiteral(0)));
    assert_eq!(code.float(0), Err(Failure::UndefinedFloatLiteral(0)));
    assert_eq!(code.string(0), Err(Failure::UndefinedStringLiteral(0)));
    assert!(matches!(code.code_object(0), Err(Failure::UndefinedCodeObject(0))));

    code.add_integer_literal(-5);
    code.add_integer_literal(6);
    code.add_float_literal(2.5f64.to_bits());
    code.add_string_literal("text".to_string());
    code.add_code_object(Arc::new(empty_code("nested")));
    code.private = true;

    assert_eq!(code.integer(0), Ok(-5));
    assert_eq!(code.integer(1), Ok(6));
    assert_eq!(code.integer(2), Err(Failure::UndefinedIntegerLiteral(2)));
    assert_eq!(code.float(0).map(f64::from_bits), Ok(2.5));
    assert_eq!(code.float(1), Err(Failure::UndefinedFloatLiteral(1)));
    assert_eq!(code.string(0), Ok(&"text".to_string()));
    assert_eq!(code.string(1), Err(Failure::UndefinedStringLiteral(1)));
    assert_eq!(code.code_object(0).ok().unwrap().name, "nested");
    assert!(matches!(code.code_object(1), Err(Failure::UndefinedCodeObject(1))));
    assert!(code.is_private());
}

#[test]
fn values_know_their_kind_and_truth() {
    let code = Arc::new(empty_code("main"));
    let values = [
        (object_value::none(), [false; 8], true),
        (object_value::integer(0), [true, false, false, false, false, false, false, false], false),
        (object_value::integer(-1), [true, false, false, false, false, false, false, false], true),
        (object_value::float(0.0f64.to_bits()), [false, true, false, false, false, false, false, false], false),
        (object_value::float(0.1f64.to_bits()), [false, true, false, false, false, false, false, false], true),
        (object_value::string(String::new()), [false, false, true, false, false, false, false, false], false),
        (object_value::string("0".to_string()), [false, false, true, false, false, false, false, false], true),
        (object_value::array(Vec::new()), [false, false, false, true, false, false, false, false], false),
        (object_value::array(vec![ObjectPointer(0)]), [false, false, false, true, false, false, false, false], true),
        (object_value::file(3), [false, false, false, false, true, false, false, false], true),
        (object_value::thread(0), [false, false, false, false, false, true, false, false], true),
        (object_value::compiled_code(code), [false, false, false, false, false, false, true, false], true),
        (object_value::error("bad".to_string()), [false, false, false, false, false, false, false, true], false),
    ];
    for (value, kinds, truthy) in values {
        assert_eq!(
            [
                value.is_integer(),
                value.is_float(),
                value.is_string(),
                value.is_array(),
                value.is_file(),
                value.is_thread(),
                value.is_compiled_code(),
                value.is_error(),
            ],
            kinds
        );
        assert_eq!(value.truthy(), truthy);
    }
}

#[test]
fn a_name_table_maps_names_to_their_last_binding() {
    let mut table = NameTable::new();
    let name = |name: &str| name.to_string();
    assert_eq!(table.get(&name("a")), None);

    table.set(name("a"), ObjectPointer(1));
    table.set(name("b"), ObjectPointer(2));
    table.set(name("a"), ObjectPointer(3));
    table.set(name(""), ObjectPointer(4));

    assert_eq!(table.get(&name("a")), Some(ObjectPointer(3)));
    assert_eq!(table.get(&name("b")), Some(ObjectPointer(2)));
    assert_eq!(table.get(&name("")), Some(ObjectPointer(4)));
    assert_eq!(table.get(&name("A")), None);
    assert_eq!(table.entries.len(), 3);
}

#[test]
fn the_memory_manager_allocates_in_order() {
    let mut memory = MemoryManager::new();
    assert_eq!(memory.len(), 13);

    let integer = memory.allocate(object_value::integer(5), memory.integer_prototype());
    let error = memory.allocate_error("bad".to_string());
    let prepared = memory.allocate_prepared(memory.new_object(object_value::none()));
    let thread = memory.allocate_thread(0);

    assert_eq!(
        [integer, error, prepared, thread],
        [ObjectPointer(13), ObjectPointer(14), ObjectPointer(15), ObjectPointer(16)]
    );
    assert_eq!(memory.object(integer).prototype, Some(memory.integer_prototype()));
    assert!(memory.object(error).prototype.is_none());
    assert!(matches!(&memory.object(error).value, ObjectValue::Error(text) if text == "bad"));
    assert!(memory.object(prepared).prototype.is_none());
    assert!(memory.object(thread).pinned);
    assert_eq!(memory.object(thread).prototype, Some(memory.thread_prototype()));
    memory.unpin(thread);
    assert!(!memory.object(thread).pinned);

    assert!(memory.truthy(integer));
    assert!(!memory.truthy(error));
    assert!(memory.truthy(memory.true_object()));
    assert!(!memory.truthy(memory.false_object()));
    assert!(memory.truthy(memory.top_level()));

    memory.set_name(prepared, "Thing".to_string());
    memory.add_method(prepared, "m".to_string(), integer);
    memory.add_attribute(prepared, "a".to_string(), error);
    memory.add_constant(prepared, "C".to_string(), thread);
    assert_eq!(memory.object(prepared).name, Some("Thing".to_string()));
    assert_eq!(memory.lookup_method(prepared, &"m".to_string()), Some(integer));
    assert_eq!(memory.lookup_method(prepared, &"a".to_string()), None);
    assert_eq!(memory.lookup_method(ObjectPointer(99), &"m".to_string()), None);
    assert_eq!(memory.object(prepared).attributes.get(&"a".to_string()), Some(error));
    assert_eq!(memory.object(prepared).constants.get(&"C".to_string()), Some(thread));

    let child = memory.allocate(object_value::none(), prepared);
    assert_eq!(memory.lookup_method(child, &"m".to_string()), Some(integer));
    memory.add_method(child, "m".to_string(), error);
    assert_eq!(memory.lookup_method(child, &"m".to_string()), Some(error));
    assert_eq!(memory.lookup_method(prepared, &"m".to_string()), Some(integer));

    let array = memory.allocate(object_value::array(vec![integer]), memory.array_prototype());
    memory.array_insert(array, 0, error);
    memory.array_insert(array, 2, thread);
    assert!(matches!(
        &memory.object(array).value,
        ObjectValue::Array(items) if items == &vec![error, integer, thread]
    ));
    assert_eq!(memory.array_remove(array, 1), integer);
    memory.set_array(array, vec![thread]);
    assert!(matches!(&memory.object(array).value, ObjectValue::Array(items) if items == &vec![thread]));
}

#[test]
fn a_new_object_has_nothing_but_its_value() {
    let object = Object::new(object_value::integer(1), Some(ObjectPointer(1)));

    assert!(matches!(object.value, ObjectValue::Integer(1)));
    assert_eq!(object.prototype, Some(ObjectPointer(1)));
    assert!(object.methods.entries.is_empty());
    assert!(object.attributes.entries.is_empty());
    assert!(object.constants.entries.is_empty());
    assert!(object.name.is_none());
    assert!(!object.pinned);
}

#[test]
fn a_thread_reads_and_writes_its_innermost_frame() {
    let mut thread = Thread::from_code(Arc::new(empty_code("main")));
    assert_eq!(thread.depth(), 1);
    assert!(!thread.is_main());
    assert!(!thread.should_stop());
    assert!(thread.value.is_none());
    assert!(thread.pending.is_none());
    assert!(thread.object.is_none());
    assert_eq!(thread.current().name(), "main");
    assert_eq!(thread.current().index, 0);

    assert_eq!(thread.get_register(2), Err(Failure::UndefinedRegister(2)));
    assert_eq!(thread.get_register_option(2), None);
    thread.set_register(2, ObjectPointer(5));
    thread.set_register(usize::MAX, ObjectPointer(6));
    thread.set_register(2, ObjectPointer(7));
    assert_eq!(thread.get_register(2), Ok(ObjectPointer(7)));
    assert_eq!(thread.get_register_option(usize::MAX), Some(ObjectPointer(6)));

    assert_eq!(thread.get_local(0), Err(Failure::UndefinedLocal(0)));
    assert_eq!(thread.set_local(0, ObjectPointer(1)), Err(Failure::UndefinedLocal(0)));
    thread.add_local(ObjectPointer(1));
    thread.add_local(ObjectPointer(2));
    assert_eq!(thread.set_local(1, ObjectPointer(3)), Ok(()));
    assert_eq!(thread.set_local(2, ObjectPointer(3)), Err(Failure::UndefinedLocal(2)));
    assert_eq!(thread.get_local(0), Ok(ObjectPointer(1)));
    assert_eq!(thread.get_local(1), Ok(ObjectPointer(3)));

    thread.push_call_frame(CallFrame::from_code(Arc::new(empty_code("inner")), Some(4)));
    assert_eq!(thread.depth(), 2);
    assert_eq!(thread.current().name(), "inner");
    assert_eq!(thread.current().file(), "objects.aeon");
    assert_eq!(thread.current().line(), 3);
    assert_eq!(thread.current().code().name, "inner");
    assert_eq!(thread.current().result_slot, Some(4));
    assert_eq!(thread.get_register(2), Err(Failure::UndefinedRegister(2)));
    assert_eq!(thread.get_local(0), Err(Failure::UndefinedLocal(0)));
    thread.set_index(3);
    thread.set_return_value(Some(ObjectPointer(9)));
    assert_eq!(thread.current().index, 3);
    assert_eq!(thread.current().return_value, Some(ObjectPointer(9)));
    thread.pop_call_frame();
    assert_eq!(thread.current().index, 0);
    assert_eq!(thread.current().return_value, None);
    assert_eq!(thread.get_register(2), Ok(ObjectPointer(7)));

    thread.set_main();
    thread.stop();
    thread.set_value(Some(ObjectPointer(2)));
    assert!(thread.is_main());
    assert!(thread.should_stop());
    assert_eq!(thread.value, Some(ObjectPointer(2)));
}

#[test]
fn a_thread_list_holds_what_was_added_and_not_removed() {
    let mut list = ThreadList::new();
    assert_eq!(list.len(), 0);
    list.remove(ObjectPointer(1));

    list.add(ObjectPointer(1));
    list.add(ObjectPointer(2));
    list.add(ObjectPointer(3));
    list.remove(ObjectPointer(2));
    list.remove(ObjectPointer(9));

    assert_eq!(list.threads, vec![ObjectPointer(1), ObjectPointer(3)]);
    assert_eq!(list.len(), 2);
}

#[test]
fn counts_and_bytes_are_converted() {
    assert_eq!(count_to_integer(0), 0);
    assert_eq!(count_to_integer(12), 12);
    assert_eq!(count_to_integer(usize::MAX), i64::MAX);
    assert_eq!(integer_to_byte(0), 0);
    assert_eq!(integer_to_byte(255), 255);
    assert_eq!(integer_to_byte(256), 0);
    assert_eq!(integer_to_byte(-1), 255);
    assert_eq!(integer_to_byte(i64::MIN), 0);
    assert_eq!(integer_to_byte(i64::MAX), 255);
}
