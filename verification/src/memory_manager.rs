//! The heap of a virtual machine and its singleton objects.
use vstd::prelude::*;
use crate::object::{Object, ObjectState};
use crate::object_pointer::ObjectPointer;
use crate::object_value::{ObjectValue, Value};

verus! {

/// The mathematical value of a heap: the objects in allocation order.
pub type Heap = Seq<ObjectState>;

/// The number of objects that every heap starts with.
pub open spec fn singletons() -> nat {
    13
}

/// The object that code outside any other object runs on.
pub open spec fn top_level() -> ObjectPointer {
    ObjectPointer(0)
}

pub open spec fn integer_prototype() -> ObjectPointer {
    ObjectPointer(1)
}

pub open spec fn float_prototype() -> ObjectPointer {
    ObjectPointer(2)
}

pub open spec fn string_prototype() -> ObjectPointer {
    ObjectPointer(3)
}

pub open spec fn array_prototype() -> ObjectPointer {
    ObjectPointer(4)
}

pub open spec fn thread_prototype() -> ObjectPointer {
    ObjectPointer(5)
}

pub open spec fn true_prototype() -> ObjectPointer {
    ObjectPointer(6)
}

pub open spec fn false_prototype() -> ObjectPointer {
    ObjectPointer(7)
}

pub open spec fn file_prototype() -> ObjectPointer {
    ObjectPointer(8)
}

pub open spec fn method_prototype() -> ObjectPointer {
    ObjectPointer(9)
}

pub open spec fn compiled_code_prototype() -> ObjectPointer {
    ObjectPointer(10)
}

pub open spec fn true_object() -> ObjectPointer {
    ObjectPointer(11)
}

pub open spec fn false_object() -> ObjectPointer {
    ObjectPointer(12)
}

/// The heap of a machine that has not run anything: the top-level object,
/// the ten prototypes, and the true and false objects linked to theirs.
pub open spec fn initial_heap() -> Heap {
    Seq::new(
        singletons(),
        |i: int|
            if i == true_object().0 {
                ObjectState::fresh(Value::Plain, Some(true_prototype()))
            } else if i == false_object().0 {
                ObjectState::fresh(Value::Plain, Some(false_prototype()))
            } else {
                ObjectState::fresh(Value::Plain, None)
            },
    )
}

/// Whether a heap holds the singletons and every object in it is well formed.
pub open spec fn heap_wf(heap: Heap, threads: nat) -> bool {
    &&& heap.len() >= singletons()
    &&& forall|i: int| 0 <= i < heap.len() ==> (#[trigger] heap[i]).wf(i, heap.len(), threads)
}

/// The heap after one more object has been allocated.
pub open spec fn heap_allocate(heap: Heap, value: Value, prototype: Option<ObjectPointer>) -> Heap {
    heap.push(ObjectState::fresh(value, prototype))
}

/// The handle that the next allocation returns.
pub open spec fn next_pointer(heap: Heap) -> ObjectPointer {
    ObjectPointer(heap.len() as usize)
}

/// The method that `name` resolves to on `receiver`: its own, or else the
/// one its prototype resolves the name to.
pub open spec fn lookup_method(heap: Heap, receiver: ObjectPointer, name: Seq<char>) -> Option<
    ObjectPointer,
>
    decreases receiver.0,
{
    if receiver.0 >= heap.len() {
        None
    } else if heap[receiver.0 as int].methods.contains_key(name) {
        Some(heap[receiver.0 as int].methods[name])
    } else {
        match heap[receiver.0 as int].prototype {
            Some(prototype) => if prototype.0 < receiver.0 {
                lookup_method(heap, prototype, name)
            } else {
                None
            },
            None => None,
        }
    }
}

/// Whether an object counts as true: it is not the false object, and its
/// value is not zero, empty or an error.
pub open spec fn truthy(heap: Heap, object: ObjectPointer) -> bool {
    object != false_object() && heap[object.0 as int].value.truthy()
}

/// A method found on a well-formed heap is an object of that heap.
pub proof fn lemma_lookup_method_valid(
    heap: Heap,
    threads: nat,
    receiver: ObjectPointer,
    name: Seq<char>,
)
    requires
        heap_wf(heap, threads),
    ensures
        lookup_method(heap, receiver, name) matches Some(method) ==> method.0 < heap.len(),
    decreases receiver.0,
{
    if receiver.0 < heap.len() && !heap[receiver.0 as int].methods.contains_key(name) {
        match heap[receiver.0 as int].prototype {
            Some(prototype) => {
                if prototype.0 < receiver.0 {
                    lemma_lookup_method_valid(heap, threads, prototype, name);
                }
            },
            None => {},
        }
    }
}

/// Allocating a well-formed object keeps a heap well formed.
pub proof fn lemma_allocate_wf(heap: Heap, threads: nat, object: ObjectState)
    requires
        heap_wf(heap, threads),
        object.wf(heap.len() as int, heap.len() + 1, threads),
    ensures
        heap_wf(heap.push(object), threads),
{
    let after = heap.push(object);
    assert forall|i: int| 0 <= i < after.len() implies (#[trigger] after[i]).wf(
        i,
        after.len(),
        threads,
    ) by {
        if i < heap.len() {
            assert(heap[i].wf(i, heap.len(), threads));
        }
    }
}

/// A well-formed heap stays well formed when threads are added.
pub proof fn lemma_more_threads_wf(heap: Heap, threads: nat, more: nat)
    requires
        heap_wf(heap, threads),
        threads <= more,
    ensures
        heap_wf(heap, more),
{
    assert forall|i: int| 0 <= i < heap.len() implies (#[trigger] heap[i]).wf(
        i,
        heap.len(),
        more,
    ) by {
        assert(heap[i].wf(i, heap.len(), threads));
    }
}

/// Replacing an object by a well-formed one keeps a heap well formed.
pub proof fn lemma_update_wf(heap: Heap, threads: nat, position: int, object: ObjectState)
    requires
        heap_wf(heap, threads),
        0 <= position < heap.len(),
        object.wf(position, heap.len(), threads),
    ensures
        heap_wf(heap.update(position, object), threads),
{
    let after = heap.update(position, object);
    assert forall|i: int| 0 <= i < after.len() implies (#[trigger] after[i]).wf(
        i,
        after.len(),
        threads,
    ) by {
        if i != position {
            assert(heap[i].wf(i, heap.len(), threads));
        }
    }
}

/// The heap of one virtual machine. Objects are never freed, so a handle
/// stays valid for the life of the machine.
pub struct MemoryManager {
    pub objects: Vec<Object>,
}

impl View for MemoryManager {
    type V = Heap;

    open spec fn view(&self) -> Heap {
        self.objects@.map_values(|object: Object| object@)
    }
}

impl MemoryManager {
    /// A heap that holds the singletons and nothing else.
    pub fn new() -> (manager: MemoryManager)
        ensures
            manager@ == initial_heap(),
            heap_wf(manager@, 0),
    {
        let mut objects: Vec<Object> = Vec::new();
        let mut i: usize = 0;
        while i < 13
            invariant
                i <= 13,
                objects@.len() == i,
                forall|j: int|
                    0 <= j < i ==> (#[trigger] objects@[j])@ == ObjectState::fresh(
                        Value::Plain,
                        if j == 11 {
                            Some(true_prototype())
                        } else if j == 12 {
                            Some(false_prototype())
                        } else {
                            None
                        },
                    ),
            decreases 13 - i,
        {
            let prototype = if i == 11 {
                Some(ObjectPointer(6))
            } else if i == 12 {
                Some(ObjectPointer(7))
            } else {
                None
            };
            objects.push(Object::new(ObjectValue::Plain, prototype));
            i = i + 1;
        }
        let manager = MemoryManager { objects };
        assert(manager@ =~= initial_heap());
        manager
    }

    pub fn top_level(&self) -> (object: ObjectPointer)
        ensures
            object == top_level(),
    {
        ObjectPointer(0)
    }

    pub fn integer_prototype(&self) -> (object: ObjectPointer)
        ensures
            object == integer_prototype(),
    {
        ObjectPointer(1)
    }

    pub fn float_prototype(&self) -> (object: ObjectPointer)
        ensures
            object == float_prototype(),
    {
        ObjectPointer(2)
    }

    pub fn string_prototype(&self) -> (object: ObjectPointer)
        ensures
            object == string_prototype(),
    {
        ObjectPointer(3)
    }

    pub fn array_prototype(&self) -> (object: ObjectPointer)
        ensures
            object == array_prototype(),
    {
        ObjectPointer(4)
    }

    pub fn thread_prototype(&self) -> (object: ObjectPointer)
        ensures
            object == thread_prototype(),
    {
        ObjectPointer(5)
    }

    pub fn true_prototype(&self) -> (object: ObjectPointer)
        ensures
            object == true_prototype(),
    {
        ObjectPointer(6)
    }

    pub fn false_prototype(&self) -> (object: ObjectPointer)
        ensures
            object == false_prototype(),
    {
        ObjectPointer(7)
    }

    pub fn file_prototype(&self) -> (object: ObjectPointer)
        ensures
            object == file_prototype(),
    {
        ObjectPointer(8)
    }

    pub fn method_prototype(&self) -> (object: ObjectPointer)
        ensures
            object == method_prototype(),
    {
        ObjectPointer(9)
    }

    pub fn compiled_code_prototype(&self) -> (object: ObjectPointer)
        ensures
            object == compiled_code_prototype(),
    {
        ObjectPointer(10)
    }

    pub fn true_object(&self) -> (object: ObjectPointer)
        ensures
            object == true_object(),
    {
        ObjectPointer(11)
    }

    pub fn false_object(&self) -> (object: ObjectPointer)
        ensures
            object == false_object(),
    {
        ObjectPointer(12)
    }

    /// The number of objects on the heap.
    pub fn len(&self) -> (count: usize)
        ensures
            count == self@.len(),
    {
        self.objects.len()
    }

    /// The object behind a handle.
    pub fn object(&self, pointer: ObjectPointer) -> (object: &Object)
        requires
            pointer.0 < self@.len(),
        ensures
            object@ == self@[pointer.0 as int],
    {
        &self.objects[pointer.0]
    }

    /// The object behind a handle, or nothing for a handle of another heap.
    pub fn get(&self, pointer: ObjectPointer) -> (object: Option<&Object>)
        ensures
            pointer.0 < self@.len() ==> object is Some && object->Some_0@
                == self@[pointer.0 as int],
            pointer.0 >= self@.len() ==> object is None,
    {
        if pointer.0 < self.objects.len() {
            Some(&self.objects[pointer.0])
        } else {
            None
        }
    }

    /// An object that is not on the heap yet.
    pub fn new_object(&self, value: ObjectValue) -> (object: Object)
        ensures
            object@ == ObjectState::fresh(value@, None),
    {
        Object::new(value, None)
    }

    /// Puts an object that the caller built on the heap.
    pub fn allocate_prepared(&mut self, object: Object) -> (pointer: ObjectPointer)
        ensures
            final(self)@ == old(self)@.push(object@),
            pointer == next_pointer(old(self)@),
    {
        let pointer = ObjectPointer(self.objects.len());
        self.objects.push(object);
        assert(self@ =~= old(self)@.push(object@));
        pointer
    }

    /// Allocates an object with the given value and prototype.
    pub fn allocate(&mut self, value: ObjectValue, prototype: ObjectPointer) -> (pointer:
        ObjectPointer)
        ensures
            final(self)@ == heap_allocate(old(self)@, value@, Some(prototype)),
            pointer == next_pointer(old(self)@),
    {
        self.allocate_prepared(Object::new(value, Some(prototype)))
    }

    /// Allocates an error object: an error value and no prototype.
    pub fn allocate_error(&mut self, text: String) -> (pointer: ObjectPointer)
        ensures
            final(self)@ == heap_allocate(old(self)@, Value::Error(text@), None),
            pointer == next_pointer(old(self)@),
    {
        self.allocate_prepared(Object::new(ObjectValue::Error(text), None))
    }

    /// Allocates the pinned object that wraps the thread at `index` of the
    /// thread table.
    pub fn allocate_thread(&mut self, index: usize) -> (pointer: ObjectPointer)
        ensures
            final(self)@ == old(self)@.push(
                ObjectState {
                    pinned: true,
                    ..ObjectState::fresh(Value::Thread(index), Some(thread_prototype()))
                },
            ),
            pointer == next_pointer(old(self)@),
    {
        let mut object = Object::new(ObjectValue::Thread(index), Some(ObjectPointer(5)));
        object.pinned = true;
        self.allocate_prepared(object)
    }

    /// Resolves a method name through the prototype chain of `receiver`.
    pub fn lookup_method(&self, receiver: ObjectPointer, name: &String) -> (found: Option<
        ObjectPointer,
    >)
        ensures
            found == lookup_method(self@, receiver, name@),
    {
        let mut current = receiver;
        loop
            invariant
                lookup_method(self@, current, name@) == lookup_method(self@, receiver, name@),
            decreases current.0,
        {
            if current.0 >= self.objects.len() {
                return None;
            }
            let object = &self.objects[current.0];
            assert(object@ == self@[current.0 as int]);
            match object.methods.get(name) {
                Some(method) => {
                    return Some(method);
                },
                None => {},
            }
            match object.prototype {
                Some(prototype) => {
                    if prototype.0 < current.0 {
                        current = prototype;
                    } else {
                        return None;
                    }
                },
                None => {
                    return None;
                },
            }
        }
    }

    /// Whether an object counts as true.
    pub fn truthy(&self, object: ObjectPointer) -> (result: bool)
        requires
            object.0 < self@.len(),
        ensures
            result == truthy(self@, object),
    {
        object.0 != 12 && self.objects[object.0].value.truthy()
    }

    /// Gives an object a name for diagnostics.
    pub fn set_name(&mut self, object: ObjectPointer, name: String)
        requires
            object.0 < old(self)@.len(),
        ensures
            final(self)@ == old(self)@.update(
                object.0 as int,
                ObjectState { name: Some(name@), ..old(self)@[object.0 as int] },
            ),
    {
        self.objects[object.0].name = Some(name);
        assert(self@ =~= old(self)@.update(
            object.0 as int,
            ObjectState { name: Some(name@), ..old(self)@[object.0 as int] },
        ));
    }

    /// Installs a method on an object.
    pub fn add_method(&mut self, object: ObjectPointer, name: String, method: ObjectPointer)
        requires
            object.0 < old(self)@.len(),
        ensures
            final(self)@ == old(self)@.update(
                object.0 as int,
                ObjectState {
                    methods: old(self)@[object.0 as int].methods.insert(name@, method),
                    ..old(self)@[object.0 as int]
                },
            ),
    {
        self.objects[object.0].methods.set(name, method);
        assert(self@ =~= old(self)@.update(
            object.0 as int,
            ObjectState {
                methods: old(self)@[object.0 as int].methods.insert(name@, method),
                ..old(self)@[object.0 as int]
            },
        ));
    }

    /// Sets an attribute of an object.
    pub fn add_attribute(&mut self, object: ObjectPointer, name: String, value: ObjectPointer)
        requires
            object.0 < old(self)@.len(),
        ensures
            final(self)@ == old(self)@.update(
                object.0 as int,
                ObjectState {
                    attributes: old(self)@[object.0 as int].attributes.insert(name@, value),
                    ..old(self)@[object.0 as int]
                },
            ),
    {
        self.objects[object.0].attributes.set(name, value);
        assert(self@ =~= old(self)@.update(
            object.0 as int,
            ObjectState {
                attributes: old(self)@[object.0 as int].attributes.insert(name@, value),
                ..old(self)@[object.0 as int]
            },
        ));
    }

    /// Sets a constant of an object.
    pub fn add_constant(&mut self, object: ObjectPointer, name: String, value: ObjectPointer)
        requires
            object.0 < old(self)@.len(),
        ensures
            final(self)@ == old(self)@.update(
                object.0 as int,
                ObjectState {
                    constants: old(self)@[object.0 as int].constants.insert(name@, value),
                    ..old(self)@[object.0 as int]
                },
            ),
    {
        self.objects[object.0].constants.set(name, value);
        assert(self@ =~= old(self)@.update(
            object.0 as int,
            ObjectState {
                constants: old(self)@[object.0 as int].constants.insert(name@, value),
                ..old(self)@[object.0 as int]
            },
        ));
    }

    /// Clears the flag that pins an object.
    pub fn unpin(&mut self, object: ObjectPointer)
        requires
            object.0 < old(self)@.len(),
        ensures
            final(self)@ == old(self)@.update(
                object.0 as int,
                ObjectState { pinned: false, ..old(self)@[object.0 as int] },
            ),
    {
        self.objects[object.0].pinned = false;
        assert(self@ =~= old(self)@.update(
            object.0 as int,
            ObjectState { pinned: false, ..old(self)@[object.0 as int] },
        ));
    }

    /// Replaces the items of an array object.
    pub fn set_array(&mut self, object: ObjectPointer, items: Vec<ObjectPointer>)
        requires
            object.0 < old(self)@.len(),
        ensures
            final(self)@ == old(self)@.update(
                object.0 as int,
                ObjectState { value: Value::Array(items@), ..old(self)@[object.0 as int] },
            ),
    {
        self.objects[object.0].value = ObjectValue::Array(items);
        assert(self@ =~= old(self)@.update(
            object.0 as int,
            ObjectState { value: Value::Array(items@), ..old(self)@[object.0 as int] },
        ));
    }
    /// Inserts an item into an array object, before position `index`.
    pub fn array_insert(&mut self, object: ObjectPointer, index: usize, item: ObjectPointer)
        requires
            object.0 < old(self)@.len(),
            old(self)@[object.0 as int].value is Array,
            index <= old(self)@[object.0 as int].value->Array_0.len(),
        ensures
            final(self)@ == old(self)@.update(
                object.0 as int,
                ObjectState {
                    value: Value::Array(
                        old(self)@[object.0 as int].value->Array_0.insert(index as int, item),
                    ),
                    ..old(self)@[object.0 as int]
                },
            ),
    {
        match &mut self.objects[object.0].value {
            ObjectValue::Array(items) => {
                items.insert(index, item);
            },
            _ => {},
        }
        assert(self@ =~= old(self)@.update(
            object.0 as int,
            ObjectState {
                value: Value::Array(
                    old(self)@[object.0 as int].value->Array_0.insert(index as int, item),
                ),
                ..old(self)@[object.0 as int]
            },
        ));
    }

    /// Removes the item at position `index` from an array object.
    pub fn array_remove(&mut self, object: ObjectPointer, index: usize) -> (item: ObjectPointer)
        requires
            object.0 < old(self)@.len(),
            old(self)@[object.0 as int].value is Array,
            index < old(self)@[object.0 as int].value->Array_0.len(),
        ensures
            item == old(self)@[object.0 as int].value->Array_0[index as int],
            final(self)@ == old(self)@.update(
                object.0 as int,
                ObjectState {
                    value: Value::Array(
                        old(self)@[object.0 as int].value->Array_0.remove(index as int),
                    ),
                    ..old(self)@[object.0 as int]
                },
            ),
    {
        let mut removed = ObjectPointer(0);
        match &mut self.objects[object.0].value {
            ObjectValue::Array(items) => {
                removed = items.remove(index);
            },
            _ => {},
        }
        assert(self@ =~= old(self)@.update(
            object.0 as int,
            ObjectState {
                value: Value::Array(
                    old(self)@[object.0 as int].value->Array_0.remove(index as int),
                ),
                ..old(self)@[object.0 as int]
            },
        ));
        removed
    }
}

} // verus!
