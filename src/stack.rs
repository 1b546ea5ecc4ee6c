use vstd::prelude::*;
use crate::heap::Ptr;

verus! {

/// LIFO staging area for pointers between instructions.
pub struct Stack {
    internal: Vec<Ptr>,
}

impl View for Stack {
    type V = Seq<Ptr>;

    /// The pointers from bottom to top.
    closed spec fn view(&self) -> Seq<Ptr> {
        self.internal@
    }
}

impl Stack {
    /// An empty stack.
    pub fn new() -> (r: Stack)
        ensures
            r@ == Seq::<Ptr>::empty(),
    {
        Stack { internal: Vec::with_capacity(256) }
    }

    /// Puts `item` on top.
    pub fn push(&mut self, item: Ptr)
        ensures
            final(self)@ == old(self)@.push(item),
    {
        self.internal.push(item)
    }

    /// Takes the top pointer off, or returns `None` on an empty stack,
    /// which then stays as it is.
    pub fn pop(&mut self) -> (r: Option<Ptr>)
        ensures
            old(self)@.len() == 0 ==> r is None && final(self)@ == old(self)@,
            old(self)@.len() > 0 ==> r == Some(old(self)@.last()) && final(self)@ == old(self)@.drop_last(),
    {
        self.internal.pop()
    }

    /// Number of pointers on the stack.
    pub fn len(&self) -> (r: usize)
        ensures
            r == self@.len(),
    {
        self.internal.len()
    }
}

} // verus!
