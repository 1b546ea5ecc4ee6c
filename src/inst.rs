use vstd::prelude::*;

verus! {

/// One instruction of the machine.
#[derive(Clone, Copy, Debug, PartialEq, Eq, Structural)]
pub enum Inst {
    Push,
    Pop,
    NewInt { value: i32 },
    WriteInt { value: i32 },
    WriteAdd,
    NewProd,
    WriteFst,
    WriteSnd,
    Print,
    Gc,
}

/// A whole program: instructions executed once, in order.
pub struct Program {
    pub insts: Vec<Inst>,
}

} // verus!
