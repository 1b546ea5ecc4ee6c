use vstd::prelude::*;

verus! {

/// Tag of a pointer to an integer object.
pub const TAGBIT_INT: usize = 1;

/// Tag of a pointer to a pair object.
pub const TAGBIT_PROD: usize = 2;

/// A copyable handle to a heap object: the kind tag, and the index of the
/// object's cell in the storage of that kind.
#[derive(Clone, Copy, Debug, PartialEq, Eq, Structural)]
pub struct Ptr {
    pub tag: usize,
    pub index: usize,
}

impl Ptr {
    /// The kind tag of this pointer.
    pub fn get_tagbit(self) -> (r: usize)
        ensures
            r == self.tag,
    {
        self.tag
    }

    fn new_int(index: usize) -> (r: Ptr)
        ensures
            r == (Ptr { tag: TAGBIT_INT, index }),
    {
        Ptr { tag: TAGBIT_INT, index }
    }

    fn new_prod(index: usize) -> (r: Ptr)
        ensures
            r == (Ptr { tag: TAGBIT_PROD, index }),
    {
        Ptr { tag: TAGBIT_PROD, index }
    }
}

/// Payload of an integer object.
#[derive(Clone, Copy, Debug, PartialEq, Eq, Structural)]
pub struct ItemBodyInt {
    pub value: i32,
}

/// Payload of a pair object. The two pointers are stored as given.
#[derive(Clone, Copy, Debug, PartialEq, Eq, Structural)]
pub struct ItemBodyProd {
    pub first: Ptr,
    pub second: Ptr,
}

/// One storage cell of the heap, holding the payload of one object.
/// A released cell keeps its old payload until it is handed out again.
pub struct Item<Body> {
    pub body: Body,
}

/// The heap failed to address an object: the pointer names no cell of this
/// heap, or its tag is none of the known kinds.
#[derive(Clone, Copy, Debug, PartialEq, Eq, Structural)]
pub enum AddressingError {
    /// The pointer's index lies outside the storage of its kind.
    Dangling,
    /// The pointer's tag names no kind of object.
    IllegalTag,
}

/// The abstract content of a heap: the cells of each kind, and each kind's
/// free-list, whose last element is the next cell to be reused.
pub struct HeapView {
    pub ints: Seq<ItemBodyInt>,
    pub prods: Seq<ItemBodyProd>,
    pub free_ints: Seq<usize>,
    pub free_prods: Seq<usize>,
}

impl HeapView {
    /// Every free-list entry names a cell of its own kind.
    pub open spec fn wf(self) -> bool {
        &&& forall|i: int| 0 <= i < self.free_ints.len() ==> self.free_ints[i] < self.ints.len()
        &&& forall|i: int| 0 <= i < self.free_prods.len() ==> self.free_prods[i] < self.prods.len()
    }

    /// A heap with no cells at all.
    pub open spec fn empty() -> HeapView {
        HeapView {
            ints: Seq::empty(),
            prods: Seq::empty(),
            free_ints: Seq::empty(),
            free_prods: Seq::empty(),
        }
    }

    /// Allocation of an integer: the most recently released integer cell is
    /// reused and overwritten; only when there is none does a new cell appear.
    pub open spec fn alloc_int(self, value: i32) -> (HeapView, Ptr) {
        if self.free_ints.len() > 0 {
            let idx = self.free_ints.last();
            (
                HeapView {
                    ints: self.ints.update(idx as int, ItemBodyInt { value }),
                    free_ints: self.free_ints.drop_last(),
                    ..self
                },
                Ptr { tag: TAGBIT_INT, index: idx },
            )
        } else {
            (
                HeapView { ints: self.ints.push(ItemBodyInt { value }), ..self },
                Ptr { tag: TAGBIT_INT, index: self.ints.len() as usize },
            )
        }
    }

    /// Allocation of a pair, with the same recycling discipline.
    pub open spec fn alloc_prod(self, first: Ptr, second: Ptr) -> (HeapView, Ptr) {
        let body = ItemBodyProd { first, second };
        if self.free_prods.len() > 0 {
            let idx = self.free_prods.last();
            (
                HeapView {
                    prods: self.prods.update(idx as int, body),
                    free_prods: self.free_prods.drop_last(),
                    ..self
                },
                Ptr { tag: TAGBIT_PROD, index: idx },
            )
        } else {
            (
                HeapView { prods: self.prods.push(body), ..self },
                Ptr { tag: TAGBIT_PROD, index: self.prods.len() as usize },
            )
        }
    }

    /// The integer payload `p` designates: absent when `p` is not tagged as
    /// an integer, an error when it is but names no integer cell.
    pub open spec fn int_of(self, p: Ptr) -> Result<Option<ItemBodyInt>, AddressingError> {
        if p.tag != TAGBIT_INT {
            Ok(None)
        } else if p.index < self.ints.len() {
            Ok(Some(self.ints[p.index as int]))
        } else {
            Err(AddressingError::Dangling)
        }
    }

    /// The pair payload `p` designates, in the same way.
    pub open spec fn prod_of(self, p: Ptr) -> Result<Option<ItemBodyProd>, AddressingError> {
        if p.tag != TAGBIT_PROD {
            Ok(None)
        } else if p.index < self.prods.len() {
            Ok(Some(self.prods[p.index as int]))
        } else {
            Err(AddressingError::Dangling)
        }
    }

    /// The heap with integer cell `index` overwritten.
    pub open spec fn set_int(self, index: usize, body: ItemBodyInt) -> HeapView {
        HeapView { ints: self.ints.update(index as int, body), ..self }
    }

    /// The heap with pair cell `index` overwritten.
    pub open spec fn set_prod(self, index: usize, body: ItemBodyProd) -> HeapView {
        HeapView { prods: self.prods.update(index as int, body), ..self }
    }

    /// Release of `p`: its cell goes on top of the free-list of its kind.
    /// Nothing checks that the object is unreachable, nor that it was live.
    pub open spec fn release(self, p: Ptr) -> Result<HeapView, AddressingError> {
        if p.tag == TAGBIT_INT {
            if p.index < self.ints.len() {
                Ok(HeapView { free_ints: self.free_ints.push(p.index), ..self })
            } else {
                Err(AddressingError::Dangling)
            }
        } else if p.tag == TAGBIT_PROD {
            if p.index < self.prods.len() {
                Ok(HeapView { free_prods: self.free_prods.push(p.index), ..self })
            } else {
                Err(AddressingError::Dangling)
            }
        } else {
            Err(AddressingError::IllegalTag)
        }
    }
}

/// Storage of all objects: one growable array of cells per kind, and for each
/// kind a LIFO free-list of released cells awaiting reuse.
///
/// Every operation takes `&mut self`, so a heap shared between several
/// runners has to be put behind a lock by whoever shares it.
pub struct Heap {
    ints: Vec<Item<ItemBodyInt>>,
    prods: Vec<Item<ItemBodyProd>>,
    free_ints: Vec<usize>,
    free_prods: Vec<usize>,
}

impl View for Heap {
    type V = HeapView;

    closed spec fn view(&self) -> HeapView {
        HeapView {
            ints: self.ints@.map_values(|c: Item<ItemBodyInt>| c.body),
            prods: self.prods@.map_values(|c: Item<ItemBodyProd>| c.body),
            free_ints: self.free_ints@,
            free_prods: self.free_prods@,
        }
    }
}

impl Heap {
    /// An empty heap.
    pub fn new() -> (r: Heap)
        ensures
            r@ == HeapView::empty(),
            r@.wf(),
    {
        let r = Heap { ints: Vec::new(), prods: Vec::new(), free_ints: Vec::new(), free_prods: Vec::new() };
        assert(r@.ints =~= Seq::empty());
        assert(r@.prods =~= Seq::empty());
        r
    }

    /// Allocates `Int(value)`, reusing the most recently released integer
    /// cell when there is one.
    pub fn alloc_int(&mut self, value: i32) -> (r: Ptr)
        requires
            old(self)@.wf(),
        ensures
            final(self)@.wf(),
            (final(self)@, r) == old(self)@.alloc_int(value),
    {
        let body = ItemBodyInt { value };
        match self.free_ints.pop() {
            Some(idx) => {
                let ghost last = old(self)@.free_ints.len() - 1;
                assert(old(self)@.free_ints[last] == idx);
                assert(self.ints@.len() == old(self)@.ints.len());
                self.ints[idx] = Item { body };
                assert(self@.ints =~= old(self)@.ints.update(idx as int, body));
                assert forall|i: int| 0 <= i < self@.free_ints.len() implies self@.free_ints[i] < self@.ints.len() by {
                    assert(self@.free_ints[i] == old(self)@.free_ints[i]);
                }
                assert(self@.prods == old(self)@.prods);
                assert(self@.free_prods == old(self)@.free_prods);
                Ptr::new_int(idx)
            },
            None => {
                let idx = self.ints.len();
                self.ints.push(Item { body });
                assert(self@.ints =~= old(self)@.ints.push(body));
                assert forall|i: int| 0 <= i < self@.free_ints.len() implies self@.free_ints[i] < self@.ints.len() by {
                    assert(self@.free_ints[i] == old(self)@.free_ints[i]);
                }
                assert(self@.prods == old(self)@.prods);
                assert(self@.free_prods == old(self)@.free_prods);
                Ptr::new_int(idx)
            },
        }
    }

    /// Allocates `Pair(first, second)`, reusing the most recently released
    /// pair cell when there is one. The two pointers are stored unchecked.
    pub fn alloc_prod(&mut self, first: Ptr, second: Ptr) -> (r: Ptr)
        requires
            old(self)@.wf(),
        ensures
            final(self)@.wf(),
            (final(self)@, r) == old(self)@.alloc_prod(first, second),
    {
        let body = ItemBodyProd { first, second };
        match self.free_prods.pop() {
            Some(idx) => {
                let ghost last = old(self)@.free_prods.len() - 1;
                assert(old(self)@.free_prods[last] == idx);
                assert(self.prods@.len() == old(self)@.prods.len());
                self.prods[idx] = Item { body };
                assert(self@.prods =~= old(self)@.prods.update(idx as int, body));
                assert forall|i: int| 0 <= i < self@.free_prods.len() implies self@.free_prods[i] < self@.prods.len() by {
                    assert(self@.free_prods[i] == old(self)@.free_prods[i]);
                }
                assert(self@.ints == old(self)@.ints);
                assert(self@.free_ints == old(self)@.free_ints);
                Ptr::new_prod(idx)
            },
            None => {
                let idx = self.prods.len();
                self.prods.push(Item { body });
                assert(self@.prods =~= old(self)@.prods.push(body));
                assert forall|i: int| 0 <= i < self@.free_prods.len() implies self@.free_prods[i] < self@.prods.len() by {
                    assert(self@.free_prods[i] == old(self)@.free_prods[i]);
                }
                assert(self@.ints == old(self)@.ints);
                assert(self@.free_ints == old(self)@.free_ints);
                Ptr::new_prod(idx)
            },
        }
    }

    /// Reads the integer object `p` designates; `None` when `p` is not
    /// tagged as an integer.
    pub fn as_int(&self, p: Ptr) -> (r: Result<Option<ItemBodyInt>, AddressingError>)
        ensures
            r == self@.int_of(p),
    {
        if p.get_tagbit() != TAGBIT_INT {
            Ok(None)
        } else if p.index < self.ints.len() {
            Ok(Some(self.ints[p.index].body))
        } else {
            Err(AddressingError::Dangling)
        }
    }

    /// Reads the pair object `p` designates; `None` when `p` is not tagged
    /// as a pair.
    pub fn as_prod(&self, p: Ptr) -> (r: Result<Option<ItemBodyProd>, AddressingError>)
        ensures
            r == self@.prod_of(p),
    {
        if p.get_tagbit() != TAGBIT_PROD {
            Ok(None)
        } else if p.index < self.prods.len() {
            Ok(Some(self.prods[p.index].body))
        } else {
            Err(AddressingError::Dangling)
        }
    }

    /// Overwrites, in place, the integer object that `p` designates.
    pub fn set_int(&mut self, p: Ptr, body: ItemBodyInt)
        requires
            old(self)@.int_of(p) is Ok,
            old(self)@.int_of(p)->Ok_0 is Some,
        ensures
            final(self)@ == old(self)@.set_int(p.index, body),
    {
        self.ints[p.index] = Item { body };
        assert(self@.ints =~= old(self)@.ints.update(p.index as int, body));
    }

    /// Overwrites, in place, the pair object that `p` designates.
    pub fn set_prod(&mut self, p: Ptr, body: ItemBodyProd)
        requires
            old(self)@.prod_of(p) is Ok,
            old(self)@.prod_of(p)->Ok_0 is Some,
        ensures
            final(self)@ == old(self)@.set_prod(p.index, body),
    {
        self.prods[p.index] = Item { body };
        assert(self@.prods =~= old(self)@.prods.update(p.index as int, body));
    }

    /// Releases the object `p` designates: its cell goes on top of the
    /// free-list of its kind. Fails, changing nothing, when `p` names no
    /// cell of this heap or carries an unknown tag.
    pub fn free(&mut self, p: Ptr) -> (r: Result<(), AddressingError>)
        requires
            old(self)@.wf(),
        ensures
            final(self)@.wf(),
            match old(self)@.release(p) {
                Ok(h) => r is Ok && final(self)@ == h,
                Err(e) => r == Err::<(), AddressingError>(e) && final(self)@ == old(self)@,
            },
    {
        let tagbit = p.get_tagbit();
        if tagbit == TAGBIT_INT {
            if p.index < self.ints.len() {
                self.free_ints.push(p.index);
                Ok(())
            } else {
                Err(AddressingError::Dangling)
            }
        } else if tagbit == TAGBIT_PROD {
            if p.index < self.prods.len() {
                self.free_prods.push(p.index);
                Ok(())
            } else {
                Err(AddressingError::Dangling)
            }
        } else {
            Err(AddressingError::IllegalTag)
        }
    }

    /// Number of integer cells ever created; recycling does not raise it.
    pub fn int_cells(&self) -> (r: usize)
        ensures
            r == self@.ints.len(),
    {
        self.ints.len()
    }

    /// Number of pair cells ever created; recycling does not raise it.
    pub fn prod_cells(&self) -> (r: usize)
        ensures
            r == self@.prods.len(),
    {
        self.prods.len()
    }
}

/// Releasing an integer and then allocating an integer hands the released
/// cell back out, and creates no new cell.
pub proof fn lemma_int_cell_recycled(h: HeapView, p: Ptr, value: i32)
    requires
        h.wf(),
        p.tag == TAGBIT_INT,
        h.release(p) is Ok,
    ensures
        ({
            let (h2, q) = h.release(p)->Ok_0.alloc_int(value);
            &&& q == p
            &&& h2.ints.len() == h.ints.len()
            &&& h2.free_ints == h.free_ints
            &&& h2.int_of(q) == Ok::<Option<ItemBodyInt>, AddressingError>(Some(ItemBodyInt { value }))
        }),
{
}

/// Releasing a pair and then allocating a pair hands the released cell back
/// out, and creates no new cell.
pub proof fn lemma_prod_cell_recycled(h: HeapView, p: Ptr, first: Ptr, second: Ptr)
    requires
        h.wf(),
        p.tag == TAGBIT_PROD,
        h.release(p) is Ok,
    ensures
        ({
            let (h2, q) = h.release(p)->Ok_0.alloc_prod(first, second);
            &&& q == p
            &&& h2.prods.len() == h.prods.len()
            &&& h2.free_prods == h.free_prods
            &&& h2.prod_of(q) == Ok::<Option<ItemBodyProd>, AddressingError>(Some(ItemBodyProd { first, second }))
        }),
{
}

} // verus!
