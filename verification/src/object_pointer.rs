//! Handles to heap objects.
use vstd::prelude::*;

verus! {

/// A handle to an object on a virtual machine's heap: the object's index.
///
/// Handles are only meaningful for the machine that produced them.
#[derive(Clone, Copy, Debug, PartialEq, Eq, Structural)]
pub struct ObjectPointer(pub usize);

/// Whether every handle in `pointers` addresses one of the first `objects` heap cells.
pub open spec fn pointers_valid(pointers: Seq<ObjectPointer>, objects: nat) -> bool {
    forall|i: int| 0 <= i < pointers.len() ==> (#[trigger] pointers[i]).0 < objects
}

} // verus!
