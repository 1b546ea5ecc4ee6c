use stklang::alloc_runner::{init, RustAllocRunner};
use stklang::heap::{AddressingError, Heap, ItemBodyInt, ItemBodyProd, Ptr, TAGBIT_INT, TAGBIT_PROD};
use stklang::inst::{Inst, Program};
use stklang::runner::{run, run_inst, Runner};

fn int_in_register(m: &RustAllocRunner) -> Result<Option<ItemBodyInt>, AddressingError> {
    m.heap().as_int(m.register())
}

fn run_all(m: &mut RustAllocRunner, insts: Vec<Inst>) {
    let prog = Program { insts };
    assert_eq!(run(m, &prog), Ok(()));
}

#[test]
fn fresh_runner_holds_int_zero() {
    let m = init();
    assert_eq!(int_in_register(&m), Ok(Some(ItemBodyInt { value: 0 })));
    assert_eq!(m.stack_len(), 0);
    assert_eq!(m.heap().int_cells(), 1);
    assert_eq!(m.heap().prod_cells(), 0);
}

#[test]
fn new_int_push_new_int_write_add() {
    let mut m = init();
    run_all(&mut m, vec![Inst::NewInt { value: 5 }, Inst::Push, Inst::NewInt { value: 3 }, Inst::WriteAdd]);
    assert_eq!(int_in_register(&m), Ok(Some(ItemBodyInt { value: 8 })));
    assert_eq!(m.stack_len(), 0);
}

#[test]
fn write_add_on_empty_stack_is_noop() {
    let mut m = init();
    run_all(&mut m, vec![Inst::NewInt { value: 4 }]);
    let before = m.register();
    assert_eq!(m.write_add(), Ok(()));
    assert_eq!(m.register(), before);
    assert_eq!(int_in_register(&m), Ok(Some(ItemBodyInt { value: 4 })));
    assert_eq!(m.stack_len(), 0);
}

#[test]
fn write_add_wraps_at_32_bits() {
    let mut m = init();
    run_all(&mut m, vec![Inst::NewInt { value: i32::MAX }, Inst::Push, Inst::NewInt { value: 1 }, Inst::WriteAdd]);
    assert_eq!(int_in_register(&m), Ok(Some(ItemBodyInt { value: i32::MIN })));
}

#[test]
fn write_add_pops_a_pair_without_adding() {
    let mut m = init();
    run_all(&mut m, vec![Inst::Push, Inst::NewProd, Inst::Push, Inst::NewInt { value: 6 }, Inst::WriteAdd]);
    assert_eq!(int_in_register(&m), Ok(Some(ItemBodyInt { value: 6 })));
    assert_eq!(m.stack_len(), 0);
}

#[test]
fn write_add_pops_when_register_is_a_pair() {
    let mut m = init();
    run_all(&mut m, vec![Inst::Push, Inst::NewProd, Inst::Push, Inst::Push, Inst::WriteAdd]);
    assert_eq!(m.stack_len(), 1);
    assert_eq!(m.register().get_tagbit(), TAGBIT_PROD);
}

#[test]
fn new_prod_takes_most_recent_as_first() {
    let mut m = init();
    run_all(&mut m, vec![Inst::NewInt { value: 1 }, Inst::Push, Inst::NewInt { value: 2 }, Inst::Push, Inst::NewProd]);
    let pair = m.heap().as_prod(m.register()).unwrap().unwrap();
    assert_eq!(m.heap().as_int(pair.first), Ok(Some(ItemBodyInt { value: 2 })));
    assert_eq!(m.heap().as_int(pair.second), Ok(Some(ItemBodyInt { value: 1 })));
    assert_eq!(m.stack_len(), 0);
}

#[test]
fn new_prod_with_one_value_uses_it_twice() {
    let mut m = init();
    run_all(&mut m, vec![Inst::NewInt { value: 9 }, Inst::Push, Inst::NewProd]);
    let pair = m.heap().as_prod(m.register()).unwrap().unwrap();
    assert_eq!(pair.first, pair.second);
    assert_eq!(m.heap().as_int(pair.first), Ok(Some(ItemBodyInt { value: 9 })));
}

#[test]
fn new_prod_on_empty_stack_is_noop() {
    let mut m = init();
    let before = m.register();
    assert_eq!(m.new_prod(), Ok(()));
    assert_eq!(m.register(), before);
    assert_eq!(m.stack_len(), 0);
    assert_eq!(m.heap().prod_cells(), 0);
    assert_eq!(int_in_register(&m), Ok(Some(ItemBodyInt { value: 0 })));
}

#[test]
fn write_fst_on_int_register_is_noop() {
    let mut m = init();
    run_all(&mut m, vec![Inst::NewInt { value: 7 }, Inst::WriteFst]);
    assert_eq!(int_in_register(&m), Ok(Some(ItemBodyInt { value: 7 })));
    assert_eq!(m.stack_len(), 0);
}

#[test]
fn write_fst_keeps_stack_when_register_is_int() {
    let mut m = init();
    run_all(&mut m, vec![Inst::Push, Inst::NewInt { value: 7 }, Inst::WriteFst, Inst::WriteSnd]);
    assert_eq!(m.stack_len(), 1);
    assert_eq!(int_in_register(&m), Ok(Some(ItemBodyInt { value: 7 })));
}

#[test]
fn write_fst_and_snd_overwrite_fields() {
    let mut m = init();
    run_all(&mut m, vec![
        Inst::NewInt { value: 8 }, Inst::Push,
        Inst::NewInt { value: 7 }, Inst::Push,
        Inst::NewInt { value: 5 }, Inst::Push, Inst::Push,
        Inst::NewProd,
    ]);
    assert_eq!(m.stack_len(), 2);
    run_all(&mut m, vec![Inst::WriteFst]);
    assert_eq!(m.stack_len(), 1);
    let pair = m.heap().as_prod(m.register()).unwrap().unwrap();
    assert_eq!(m.heap().as_int(pair.first), Ok(Some(ItemBodyInt { value: 7 })));
    assert_eq!(m.heap().as_int(pair.second), Ok(Some(ItemBodyInt { value: 5 })));
    run_all(&mut m, vec![Inst::WriteSnd]);
    assert_eq!(m.stack_len(), 0);
    let pair = m.heap().as_prod(m.register()).unwrap().unwrap();
    assert_eq!(m.heap().as_int(pair.first), Ok(Some(ItemBodyInt { value: 7 })));
    assert_eq!(m.heap().as_int(pair.second), Ok(Some(ItemBodyInt { value: 8 })));
    // With the stack empty, a further write changes nothing.
    run_all(&mut m, vec![Inst::WriteSnd]);
    let again = m.heap().as_prod(m.register()).unwrap().unwrap();
    assert_eq!(again, pair);
}

#[test]
fn pop_moves_top_into_register() {
    let mut m = init();
    run_all(&mut m, vec![Inst::NewInt { value: 3 }, Inst::Push, Inst::NewInt { value: 4 }, Inst::Pop]);
    assert_eq!(int_in_register(&m), Ok(Some(ItemBodyInt { value: 3 })));
    assert_eq!(m.stack_len(), 0);
    run_all(&mut m, vec![Inst::Pop]);
    assert_eq!(int_in_register(&m), Ok(Some(ItemBodyInt { value: 3 })));
}

#[test]
fn write_int_overwrites_in_place() {
    let mut m = init();
    run_all(&mut m, vec![Inst::Push, Inst::WriteInt { value: 42 }, Inst::Pop]);
    // The stacked copy aliases the same object.
    assert_eq!(int_in_register(&m), Ok(Some(ItemBodyInt { value: 42 })));
    assert_eq!(m.heap().int_cells(), 1);
}

#[test]
fn write_int_on_pair_is_noop() {
    let mut m = init();
    run_all(&mut m, vec![Inst::Push, Inst::NewProd, Inst::WriteInt { value: 42 }]);
    let pair = m.heap().as_prod(m.register()).unwrap().unwrap();
    assert_eq!(m.heap().as_int(pair.first), Ok(Some(ItemBodyInt { value: 0 })));
}

#[test]
fn print_and_gc_change_nothing() {
    let mut m = init();
    run_all(&mut m, vec![Inst::Push, Inst::Print, Inst::Gc]);
    assert_eq!(m.stack_len(), 1);
    assert_eq!(int_in_register(&m), Ok(Some(ItemBodyInt { value: 0 })));
}

#[test]
fn run_inst_runs_one_instruction() {
    let mut m = init();
    assert_eq!(run_inst(&mut m, &Inst::NewInt { value: 11 }), Ok(()));
    assert_eq!(int_in_register(&m), Ok(Some(ItemBodyInt { value: 11 })));
}

#[test]
fn released_int_cell_is_reused() {
    let mut h = Heap::new();
    let a = h.alloc_int(1);
    let _b = h.alloc_int(2);
    assert_eq!(h.int_cells(), 2);
    assert_eq!(h.free(a), Ok(()));
    let c = h.alloc_int(3);
    assert_eq!(c, a);
    assert_eq!(h.int_cells(), 2);
    assert_eq!(h.as_int(c), Ok(Some(ItemBodyInt { value: 3 })));
    let d = h.alloc_int(4);
    assert_eq!(h.int_cells(), 3);
    assert_ne!(d, a);
}

#[test]
fn released_cells_are_reused_last_in_first_out() {
    let mut h = Heap::new();
    let a = h.alloc_int(1);
    let b = h.alloc_int(2);
    assert_eq!(h.free(a), Ok(()));
    assert_eq!(h.free(b), Ok(()));
    assert_eq!(h.alloc_int(5), b);
    assert_eq!(h.alloc_int(6), a);
}

#[test]
fn released_pair_cell_is_reused_only_as_pair() {
    let mut h = Heap::new();
    let x = h.alloc_int(1);
    let p = h.alloc_prod(x, x);
    assert_eq!(h.free(p), Ok(()));
    let y = h.alloc_int(2);
    assert_eq!(y.get_tagbit(), TAGBIT_INT);
    assert_eq!(h.int_cells(), 2);
    let q = h.alloc_prod(y, x);
    assert_eq!(q, p);
    assert_eq!(h.prod_cells(), 1);
    assert_eq!(h.as_prod(q), Ok(Some(ItemBodyProd { first: y, second: x })));
}

#[test]
fn access_checks_the_kind() {
    let mut h = Heap::new();
    let x = h.alloc_int(1);
    let p = h.alloc_prod(x, x);
    assert_eq!(h.as_prod(x), Ok(None));
    assert_eq!(h.as_int(p), Ok(None));
}

#[test]
fn dangling_pointer_is_an_addressing_error() {
    let mut h = Heap::new();
    let dangling = Ptr { tag: TAGBIT_INT, index: 0 };
    assert_eq!(h.as_int(dangling), Err(AddressingError::Dangling));
    assert_eq!(h.free(dangling), Err(AddressingError::Dangling));
    let dangling_pair = Ptr { tag: TAGBIT_PROD, index: 3 };
    assert_eq!(h.as_prod(dangling_pair), Err(AddressingError::Dangling));
    assert_eq!(h.free(dangling_pair), Err(AddressingError::Dangling));
    assert_eq!(h.int_cells(), 0);
}

#[test]
fn unknown_tag_is_an_addressing_error() {
    let mut h = Heap::new();
    let _x = h.alloc_int(1);
    assert_eq!(h.free(Ptr { tag: 0, index: 0 }), Err(AddressingError::IllegalTag));
    assert_eq!(h.free(Ptr { tag: 3, index: 0 }), Err(AddressingError::IllegalTag));
    assert_eq!(h.as_int(Ptr { tag: 3, index: 0 }), Ok(None));
}
