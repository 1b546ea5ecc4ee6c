use vstd::prelude::*;
use crate::heap::{AddressingError, Heap, HeapView, ItemBodyInt, ItemBodyProd, Ptr, TAGBIT_INT};
use crate::runner::{Runner, RunnerState};
use crate::stack::Stack;

verus! {

/// A machine whose objects live in its own recycling heap. Superseded
/// pointers (an overwritten register or field, a popped operand) are not
/// released: reclaiming them is left to the embedding, since other copies of
/// a pointer may still be in use.
pub struct RustAllocRunner {
    register: Ptr,
    stack: Stack,
    heap: Heap,
}

/// A fresh machine: the register holds a newly allocated `Int(0)` and the
/// stack is empty.
pub fn init() -> (r: RustAllocRunner)
    ensures
        r.state().wf(),
        r.state().stack.len() == 0,
        r.state().register == (Ptr { tag: TAGBIT_INT, index: 0 }),
        r.state().heap.int_of(r.state().register) == Ok::<Option<ItemBodyInt>, AddressingError>(Some(ItemBodyInt { value: 0 })),
        r.state().heap == HeapView::empty().alloc_int(0).0,
{
    let mut heap = Heap::new();
    let stack = Stack::new();
    let initial_register = heap.alloc_int(0);
    RustAllocRunner { register: initial_register, stack, heap }
}

impl RustAllocRunner {
    /// The pointer in the register.
    pub fn register(&self) -> (r: Ptr)
        ensures
            r == self.state().register,
    {
        self.register
    }

    /// Number of pointers on the stack.
    pub fn stack_len(&self) -> (r: usize)
        ensures
            r == self.state().stack.len(),
    {
        self.stack.len()
    }

    /// The machine's heap.
    pub fn heap(&self) -> (r: &Heap)
        ensures
            r@ == self.state().heap,
    {
        &self.heap
    }
}

impl Runner for RustAllocRunner {
    closed spec fn state(&self) -> RunnerState {
        RunnerState { register: self.register, stack: self.stack@, heap: self.heap@ }
    }

    fn push(&mut self) -> (r: Result<(), AddressingError>) {
        self.stack.push(self.register);
        Ok(())
    }

    fn pop(&mut self) -> (r: Result<(), AddressingError>) {
        match self.stack.pop() {
            None => Ok(()),
            Some(pop_value) => {
                self.register = pop_value;
                Ok(())
            },
        }
    }

    fn new_int(&mut self, value: i32) -> (r: Result<(), AddressingError>) {
        let new_value = self.heap.alloc_int(value);
        self.register = new_value;
        Ok(())
    }

    fn write_int(&mut self, value: i32) -> (r: Result<(), AddressingError>) {
        match self.heap.as_int(self.register) {
            Err(e) => Err(e),
            Ok(None) => Ok(()),
            Ok(Some(_)) => {
                self.heap.set_int(self.register, ItemBodyInt { value });
                Ok(())
            },
        }
    }

    fn write_add(&mut self) -> (r: Result<(), AddressingError>) {
        let pop_item_ptr = match self.stack.pop() {
            None => return Ok(()),
            Some(x) => x,
        };
        let int_item = match self.heap.as_int(self.register) {
            Err(e) => return Err(e),
            Ok(None) => return Ok(()),
            Ok(Some(x)) => x,
        };
        match self.heap.as_int(pop_item_ptr) {
            Err(e) => Err(e),
            Ok(None) => Ok(()),
            Ok(Some(pop_item)) => {
                let value = int_item.value.wrapping_add(pop_item.value);
                self.heap.set_int(self.register, ItemBodyInt { value });
                Ok(())
            },
        }
    }

    fn new_prod(&mut self) -> (r: Result<(), AddressingError>) {
        let pop_value1 = match self.stack.pop() {
            None => return Ok(()),
            Some(x) => x,
        };
        let pop_value2 = match self.stack.pop() {
            None => pop_value1,
            Some(x) => x,
        };
        let new_value = self.heap.alloc_prod(pop_value1, pop_value2);
        self.register = new_value;
        Ok(())
    }

    fn write_fst(&mut self) -> (r: Result<(), AddressingError>) {
        let prod_item = match self.heap.as_prod(self.register) {
            Err(e) => return Err(e),
            Ok(None) => return Ok(()),
            Ok(Some(x)) => x,
        };
        let pop_value = match self.stack.pop() {
            None => return Ok(()),
            Some(x) => x,
        };
        self.heap.set_prod(self.register, ItemBodyProd { first: pop_value, ..prod_item });
        Ok(())
    }

    fn write_snd(&mut self) -> (r: Result<(), AddressingError>) {
        let prod_item = match self.heap.as_prod(self.register) {
            Err(e) => return Err(e),
            Ok(None) => return Ok(()),
            Ok(Some(x)) => x,
        };
        let pop_value = match self.stack.pop() {
            None => return Ok(()),
            Some(x) => x,
        };
        self.heap.set_prod(self.register, ItemBodyProd { second: pop_value, ..prod_item });
        Ok(())
    }

    fn print(&mut self) -> (r: Result<(), AddressingError>) {
        Ok(())
    }

    fn gc(&mut self) -> (r: Result<(), AddressingError>) {
        Ok(())
    }
}

} // verus!
