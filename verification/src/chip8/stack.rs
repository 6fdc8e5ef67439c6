use vstd::prelude::*;
use super::memory::MemoryAddress;

verus! {

/// The call stack as a mathematical value: sixteen slots and the cursor where the next
/// address goes.
pub struct StackView {
    pub slots: Seq<MemoryAddress>,
    pub cursor: int,
}

impl StackView {
    pub open spec fn wf(self) -> bool {
        &&& self.slots.len() == 16
        &&& 0 <= self.cursor < 16
    }

    /// The stack after `addr` is stored at the cursor and the cursor moves on, from slot 15
    /// back to slot 0.
    pub open spec fn push(self, addr: MemoryAddress) -> StackView {
        StackView { slots: self.slots.update(self.cursor, addr), cursor: (self.cursor + 1) % 16 }
    }

    /// The slot below the cursor, which is slot 15 where the cursor is 0.
    pub open spec fn top(self) -> MemoryAddress {
        self.slots[(self.cursor - 1) % 16]
    }

    /// The stack after the cursor has moved back one slot, from slot 0 to slot 15.
    pub open spec fn pop(self) -> StackView {
        StackView { slots: self.slots, cursor: (self.cursor - 1) % 16 }
    }
}

/// Pushing and then popping hands back the pushed address and restores the cursor, at
/// every depth, the wrap from slot 15 to slot 0 included. The slots keep the pushed address.
pub proof fn lemma_push_pop(stack: StackView, addr: MemoryAddress)
    requires
        stack.wf(),
    ensures
        stack.push(addr).wf(),
        stack.push(addr).top() == addr,
        stack.push(addr).pop().cursor == stack.cursor,
        stack.push(addr).pop().slots == stack.slots.update(stack.cursor, addr),
{
}

/// A ring of sixteen return addresses. Pushing past the sixteenth overwrites the oldest;
/// popping an empty stack hands back whatever the slot below holds.
#[derive(Debug, Copy, Clone)]
pub struct Stack {
    data: [MemoryAddress; 16],
    pointer: usize,
}

impl View for Stack {
    type V = StackView;

    closed spec fn view(&self) -> StackView {
        StackView { slots: self.data@, cursor: self.pointer as int }
    }
}

impl Stack {
    #[verifier::type_invariant]
    spec fn cursor_in_range(self) -> bool {
        self.pointer < 16
    }

    /// An empty stack: every slot holds address 0 and the cursor is at slot 0.
    pub fn new() -> (stack: Self)
        ensures
            stack@.wf(),
            stack@.cursor == 0,
            stack@.slots == Seq::new(16, |i: int| MemoryAddress(0)),
    {
        let stack = Self { data: [MemoryAddress(0);16], pointer: 0 };
        stack
    }

    /// The slot where the next push goes, `0..16`: the depth of the stack, modulo 16.
    pub fn pointer(&self) -> (cursor: usize)
        ensures
            cursor == self@.cursor,
            self@.wf(),
    {
        proof {
            use_type_invariant(self);
        }
        self.pointer
    }

    /// The address in slot `index`.
    pub fn slot(&self, index: usize) -> (addr: MemoryAddress)
        requires
            index < 16,
        ensures
            addr == self@.slots[index as int],
    {
        self.data[index]
    }

    /// Stores `addr` at the cursor and moves the cursor on. The seventeenth push in a row
    /// overwrites the first.
    pub fn push(&mut self, addr: MemoryAddress)
        ensures
            final(self)@ == old(self)@.push(addr),
            final(self)@.wf(),
    {
        proof {
            use_type_invariant(&*self);
        }
        self.data[self.pointer] = addr;
        self.pointer = (self.pointer + 1) % 16;
    }

    /// Moves the cursor back and returns the address it then stands on. On an empty stack
    /// that is the stale content of slot 15.
    pub fn pop(&mut self) -> (addr: MemoryAddress)
        ensures
            final(self)@ == old(self)@.pop(),
            final(self)@.wf(),
            addr == old(self)@.top(),
    {
        proof {
            use_type_invariant(&*self);
        }
        self.pointer = if self.pointer == 0 { 15 } else { self.pointer - 1 };
        self.data[self.pointer]
    }
}

} // verus!
