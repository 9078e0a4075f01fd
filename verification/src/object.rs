//! Heap objects and their name tables.
use vstd::prelude::*;
use crate::object_pointer::ObjectPointer;
use crate::object_value::{ObjectValue, Value};

verus! {

/// The mapping that a list of bindings denotes: a later binding of a name
/// replaces an earlier one.
pub open spec fn bindings(entries: Seq<(String, ObjectPointer)>) -> Map<Seq<char>, ObjectPointer>
    decreases entries.len(),
{
    if entries.len() == 0 {
        Map::empty()
    } else {
        bindings(entries.drop_last()).insert(entries.last().0@, entries.last().1)
    }
}

/// The last binding of a name decides what the name maps to.
pub proof fn lemma_bindings_last_wins(entries: Seq<(String, ObjectPointer)>, i: int)
    requires
        0 <= i < entries.len(),
        forall|j: int| i < j < entries.len() ==> entries[j].0@ != entries[i].0@,
    ensures
        bindings(entries).contains_key(entries[i].0@),
        bindings(entries)[entries[i].0@] == entries[i].1,
    decreases entries.len(),
{
    if i < entries.len() - 1 {
        lemma_bindings_last_wins(entries.drop_last(), i);
    }
}

/// A name that no binding mentions is not mapped.
pub proof fn lemma_bindings_absent(entries: Seq<(String, ObjectPointer)>, name: Seq<char>)
    requires
        forall|j: int| 0 <= j < entries.len() ==> entries[j].0@ != name,
    ensures
        !bindings(entries).contains_key(name),
    decreases entries.len(),
{
    if entries.len() > 0 {
        lemma_bindings_absent(entries.drop_last(), name);
    }
}

/// Replacing the value of a name's last binding is inserting into the mapping.
pub proof fn lemma_bindings_replace(
    entries: Seq<(String, ObjectPointer)>,
    i: int,
    value: ObjectPointer,
)
    requires
        0 <= i < entries.len(),
        forall|j: int| i < j < entries.len() ==> entries[j].0@ != entries[i].0@,
    ensures
        bindings(entries.update(i, (entries[i].0, value))) == bindings(entries).insert(
            entries[i].0@,
            value,
        ),
    decreases entries.len(),
{
    let replaced = entries.update(i, (entries[i].0, value));
    if i == entries.len() - 1 {
        assert(replaced.drop_last() =~= entries.drop_last());
        assert(bindings(replaced) =~= bindings(entries).insert(entries[i].0@, value));
    } else {
        lemma_bindings_replace(entries.drop_last(), i, value);
        assert(replaced.drop_last() =~= entries.drop_last().update(i, (entries[i].0, value)));
        assert(bindings(replaced) =~= bindings(entries).insert(entries[i].0@, value));
    }
}

/// A mapping from names to objects, looked up by string equality.
pub struct NameTable {
    pub entries: Vec<(String, ObjectPointer)>,
}

impl View for NameTable {
    type V = Map<Seq<char>, ObjectPointer>;

    open spec fn view(&self) -> Map<Seq<char>, ObjectPointer> {
        bindings(self.entries@)
    }
}

/// Whether every object a table names is one of the first `objects` heap cells.
pub open spec fn table_valid(table: Map<Seq<char>, ObjectPointer>, objects: nat) -> bool {
    forall|name: Seq<char>| table.contains_key(name) ==> (#[trigger] table[name]).0 < objects
}

impl NameTable {
    pub fn new() -> (table: NameTable)
        ensures
            table@ == Map::<Seq<char>, ObjectPointer>::empty(),
    {
        NameTable { entries: Vec::new() }
    }

    /// The position of the last binding of `name`, if it has one.
    fn position(&self, name: &String) -> (found: Option<usize>)
        ensures
            match found {
                Some(i) => {
                    &&& i < self.entries@.len()
                    &&& self.entries@[i as int].0@ == name@
                    &&& forall|j: int| i < j < self.entries@.len() ==> self.entries@[j].0@ != name@
                },
                None => forall|j: int|
                    0 <= j < self.entries@.len() ==> self.entries@[j].0@ != name@,
            },
    {
        let mut i: usize = self.entries.len();
        while i > 0
            invariant
                i <= self.entries@.len(),
                forall|j: int| i <= j < self.entries@.len() ==> self.entries@[j].0@ != name@,
            decreases i,
        {
            i = i - 1;
            if self.entries[i].0 == *name {
                return Some(i);
            }
        }
        None
    }

    /// The object bound to `name`.
    pub fn get(&self, name: &String) -> (found: Option<ObjectPointer>)
        ensures
            found == (if self@.contains_key(name@) {
                Some(self@[name@])
            } else {
                None
            }),
    {
        match self.position(name) {
            Some(i) => {
                proof {
                    lemma_bindings_last_wins(self.entries@, i as int);
                }
                Some(self.entries[i].1)
            },
            None => {
                proof {
                    lemma_bindings_absent(self.entries@, name@);
                }
                None
            },
        }
    }

    /// Binds `name` to `object`, replacing what it was bound to.
    pub fn set(&mut self, name: String, object: ObjectPointer)
        ensures
            final(self)@ == old(self)@.insert(name@, object),
    {
        match self.position(&name) {
            Some(i) => {
                proof {
                    lemma_bindings_replace(self.entries@, i as int, object);
                }
                self.entries[i].1 = object;
                assert(self.entries@ =~= old(self).entries@.update(
                    i as int,
                    (old(self).entries@[i as int].0, object),
                ));
            },
            None => {
                self.entries.push((name, object));
                assert(self.entries@.drop_last() =~= old(self).entries@);
            },
        }
    }
}

/// A heap cell: a value, a link to a prototype, three name tables, an
/// optional name for diagnostics, and the flag that pins the object while a
/// thread runs on it.
pub struct Object {
    pub value: ObjectValue,
    pub prototype: Option<ObjectPointer>,
    pub methods: NameTable,
    pub attributes: NameTable,
    pub constants: NameTable,
    pub name: Option<String>,
    pub pinned: bool,
}

/// The mathematical value of an [`Object`].
#[verifier::ext_equal]
pub struct ObjectState {
    pub value: Value,
    pub prototype: Option<ObjectPointer>,
    pub methods: Map<Seq<char>, ObjectPointer>,
    pub attributes: Map<Seq<char>, ObjectPointer>,
    pub constants: Map<Seq<char>, ObjectPointer>,
    pub name: Option<Seq<char>>,
    pub pinned: bool,
}

impl View for Object {
    type V = ObjectState;

    open spec fn view(&self) -> ObjectState {
        ObjectState {
            value: self.value@,
            prototype: self.prototype,
            methods: self.methods@,
            attributes: self.attributes@,
            constants: self.constants@,
            name: match self.name {
                Some(name) => Some(name@),
                None => None,
            },
            pinned: self.pinned,
        }
    }
}

impl ObjectState {
    /// An object with the given value and prototype and nothing else.
    pub open spec fn fresh(value: Value, prototype: Option<ObjectPointer>) -> ObjectState {
        ObjectState {
            value,
            prototype,
            methods: Map::empty(),
            attributes: Map::empty(),
            constants: Map::empty(),
            name: None,
            pinned: false,
        }
    }

    /// Whether the object at heap position `position` only refers to
    /// existing objects and threads, and to a prototype older than itself.
    pub open spec fn wf(self, position: int, objects: nat, threads: nat) -> bool {
        &&& self.prototype matches Some(prototype) ==> prototype.0 < position
        &&& self.value.wf(objects, threads)
        &&& table_valid(self.methods, objects)
        &&& table_valid(self.attributes, objects)
        &&& table_valid(self.constants, objects)
    }
}

impl Object {
    /// An object with the given value and prototype and nothing else.
    pub fn new(value: ObjectValue, prototype: Option<ObjectPointer>) -> (object: Object)
        ensures
            object@ == ObjectState::fresh(value@, prototype),
    {
        Object {
            value,
            prototype,
            methods: NameTable::new(),
            attributes: NameTable::new(),
            constants: NameTable::new(),
            name: None,
            pinned: false,
        }
    }
}

} // verus!
