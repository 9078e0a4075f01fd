//! The list of the thread objects whose threads have not ended.
use vstd::prelude::*;
use crate::object_pointer::ObjectPointer;

verus! {

/// The list without the first occurrence of `object`.
pub open spec fn without(list: Seq<ObjectPointer>, object: ObjectPointer) -> Seq<ObjectPointer> {
    match list.index_of_first(object) {
        Some(position) => list.remove(position),
        None => list,
    }
}

/// The thread objects of the threads of a machine that have not ended.
pub struct ThreadList {
    pub threads: Vec<ObjectPointer>,
}

impl View for ThreadList {
    type V = Seq<ObjectPointer>;

    open spec fn view(&self) -> Seq<ObjectPointer> {
        self.threads@
    }
}

impl ThreadList {
    pub fn new() -> (list: ThreadList)
        ensures
            list@ == Seq::<ObjectPointer>::empty(),
    {
        ThreadList { threads: Vec::new() }
    }

    /// Registers a thread object.
    pub fn add(&mut self, thread: ObjectPointer)
        ensures
            final(self)@ == old(self)@.push(thread),
    {
        self.threads.push(thread);
    }

    /// Removes a thread object, if it is registered.
    pub fn remove(&mut self, thread: ObjectPointer)
        ensures
            final(self)@ == without(old(self)@, thread),
    {
        let mut i: usize = 0;
        while i < self.threads.len()
            invariant
                self.threads == old(self).threads,
                i <= self.threads@.len(),
                forall|j: int| 0 <= j < i ==> self.threads@[j] != thread,
            decreases self.threads@.len() - i,
        {
            if self.threads[i] == thread {
                proof {
                    self.threads@.index_of_first_ensures(thread);
                }
                self.threads.remove(i);
                return ;
            }
            i = i + 1;
        }
        proof {
            self.threads@.index_of_first_ensures(thread);
        }
    }

    /// The number of registered thread objects.
    pub fn len(&self) -> (count: usize)
        ensures
            count == self@.len(),
    {
        self.threads.len()
    }
}

} // verus!
