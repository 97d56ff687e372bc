//! Describing and invoking a foreign object's method through its virtual
//! dispatch table when no generated binding exposes it.
//!
//! A conforming foreign object's first machine word points at its virtual
//! dispatch table: an ordered array of function pointers. The first three
//! slots belong to every object (query-interface, add-reference, release);
//! an interface's own methods follow in exact binary declaration order,
//! including every slot inherited from every base interface. A descriptor
//! writes that layout down by hand — the load-bearing, unchecked contract of
//! the mechanism: nothing can validate it at run time, and a wrong slot
//! count, order or signature is undefined behavior, not a reported error. The
//! library therefore confines all layout arithmetic here, and the design-time
//! mitigation is the cross-check stated at the end of this module: a
//! descriptor that computes the same table position as a generated binding
//! plans the identical call.
//!
//! The embedder performs the actual reinterpretation of the handle and the
//! foreign call; this module decides, as plain values, which table position
//! is read, at which byte offset, and what the planned call consists of.

use vstd::prelude::*;

verus! {

/// Every conforming object's table starts with the three universal
/// base-object slots: query-interface, add-reference, release.
pub const BASE_OBJECT_SLOTS: usize = 3;

/// Size of one table slot: one function pointer.
pub const SLOT_BYTES: usize = 8;

/// One method's signature, as far as the fixed system calling convention
/// leaves it open: how many machine-word arguments follow the implicit
/// receiver.
#[derive(Clone, Copy, Debug, PartialEq, Eq, Structural)]
pub struct MethodSignature {
    pub arg_count: usize,
}

/// A hand-written description of a foreign interface: its 128-bit identity
/// and its method slots in exact binary declaration order, starting
/// immediately after the three universal base-object slots.
pub struct ForeignInterfaceDescriptor {
    pub identity: u128,
    pub ordered_slots: Vec<MethodSignature>,
}

impl ForeignInterfaceDescriptor {
    /// The table position of the described method `index`: the described
    /// slots start right after the universal base-object slots.
    pub open spec fn spec_table_position(&self, index: int) -> int {
        BASE_OBJECT_SLOTS + index
    }

    /// How many methods the descriptor describes.
    pub fn slot_count(&self) -> (n: usize)
        ensures
            n == self.ordered_slots@.len(),
    {
        self.ordered_slots.len()
    }

    /// The signature of the described method `index`.
    pub fn slot(&self, index: usize) -> (sig: MethodSignature)
        requires
            index < self.ordered_slots@.len(),
        ensures
            sig == self.ordered_slots@[index as int],
    {
        self.ordered_slots[index]
    }

    /// The position within the dispatch table at which the described method
    /// `index` stands.
    pub fn table_position(&self, index: usize) -> (p: usize)
        requires
            index < self.ordered_slots@.len(),
            index + BASE_OBJECT_SLOTS <= usize::MAX,
        ensures
            p == self.spec_table_position(index as int),
    {
        BASE_OBJECT_SLOTS + index
    }
}

/// The byte offset of table position `position`: positions are function
/// pointers laid out contiguously.
pub fn slot_byte_offset(position: usize) -> (off: usize)
    requires
        position <= usize::MAX / SLOT_BYTES,
    ensures
        off == position * SLOT_BYTES,
{
    position * SLOT_BYTES
}

/// Reads the function address at `position` of a dispatch table. The table
/// itself is the embedder's reinterpretation of the object's first machine
/// word; here it is the array of function addresses it denotes.
pub fn dispatch_table_entry(table: &Vec<usize>, position: usize) -> (f: usize)
    requires
        position < table@.len(),
    ensures
        f == table@[position as int],
{
    table[position]
}

/// One fully determined foreign call: the function address read from the
/// table, the object handle as the implicit receiver, and the explicit
/// machine-word arguments, in order, under the fixed system calling
/// convention.
pub struct PlannedCall {
    pub function_addr: usize,
    pub receiver: usize,
    pub args: Vec<usize>,
}

impl PlannedCall {
    /// Two planned calls are the same call: same function, same receiver,
    /// same arguments in the same order.
    pub open spec fn same_call(&self, other: &PlannedCall) -> bool {
        &&& self.function_addr == other.function_addr
        &&& self.receiver == other.receiver
        &&& self.args@ == other.args@
    }
}

/// Plans the invocation of described method `index` on the object `handle`
/// whose dispatch table denotes `table`: the function pointer is read at the
/// descriptor's table position, and the call passes the handle as the
/// implicit receiver followed by the arguments unchanged. The caller has
/// already established that the object satisfies the descriptor's identity;
/// nothing here queries it.
pub fn plan_invoke(
    handle: usize,
    table: &Vec<usize>,
    descriptor: &ForeignInterfaceDescriptor,
    index: usize,
    args: Vec<usize>,
) -> (call: PlannedCall)
    requires
        index < descriptor.ordered_slots@.len(),
        index + BASE_OBJECT_SLOTS <= usize::MAX,
        BASE_OBJECT_SLOTS + index < table@.len(),
        args@.len() == descriptor.ordered_slots@[index as int].arg_count,
    ensures
        call.function_addr == table@[descriptor.spec_table_position(index as int)],
        call.receiver == handle,
        call.args@ == args@,
{
    let position = descriptor.table_position(index);
    let function_addr = dispatch_table_entry(table, position);
    PlannedCall { function_addr, receiver: handle, args }
}

/// Plans the same invocation the way a generated binding makes it: the
/// binding knows its method's table position outright.
pub fn plan_bound_invoke(
    handle: usize,
    table: &Vec<usize>,
    position: usize,
    args: Vec<usize>,
) -> (call: PlannedCall)
    requires
        position < table@.len(),
    ensures
        call.function_addr == table@[position as int],
        call.receiver == handle,
        call.args@ == args@,
{
    let function_addr = dispatch_table_entry(table, position);
    PlannedCall { function_addr, receiver: handle, args }
}

/// The cross-check behind a hand-written descriptor: for a method reachable
/// both through a generated binding and through the descriptor, if the
/// descriptor computes exactly the binding's table position, then both paths
/// plan the identical call — same function pointer out of the same table,
/// same receiver, same arguments — so invoking through either path on the
/// same object and arguments behaves identically.
pub proof fn lemma_descriptor_matches_binding(
    descriptor_call: &PlannedCall,
    bound_call: &PlannedCall,
    handle: usize,
    table: Seq<usize>,
    descriptor: &ForeignInterfaceDescriptor,
    index: int,
    bound_position: int,
    args: Seq<usize>,
)
    requires
        0 <= index < descriptor.ordered_slots@.len(),
        descriptor.spec_table_position(index) == bound_position,
        0 <= bound_position < table.len(),
        descriptor_call.function_addr == table[descriptor.spec_table_position(index)],
        descriptor_call.receiver == handle,
        descriptor_call.args@ == args,
        bound_call.function_addr == table[bound_position],
        bound_call.receiver == handle,
        bound_call.args@ == args,
    ensures
        descriptor_call.same_call(bound_call),
{
}

} // verus!
