use vstd::prelude::*;
use crate::heap::{AddressingError, HeapView, ItemBodyInt, ItemBodyProd, Ptr};
use crate::inst::{Inst, Program};

verus! {

/// The abstract state of a machine: its register, its stack (bottom to top)
/// and its heap.
pub struct RunnerState {
    pub register: Ptr,
    pub stack: Seq<Ptr>,
    pub heap: HeapView,
}

impl RunnerState {
    pub open spec fn wf(self) -> bool {
        self.heap.wf()
    }

    /// The state with the top of the stack removed.
    pub open spec fn popped(self) -> RunnerState {
        RunnerState { stack: self.stack.drop_last(), ..self }
    }
}

/// `Push`: the register is copied onto the stack.
pub open spec fn step_push(s: RunnerState) -> Result<RunnerState, AddressingError> {
    Ok(RunnerState { stack: s.stack.push(s.register), ..s })
}

/// `Pop`: the top of the stack replaces the register; nothing on an empty stack.
pub open spec fn step_pop(s: RunnerState) -> Result<RunnerState, AddressingError> {
    if s.stack.len() == 0 {
        Ok(s)
    } else {
        Ok(RunnerState { register: s.stack.last(), ..s.popped() })
    }
}

/// `NewInt(value)`: a fresh integer object replaces the register.
pub open spec fn step_new_int(s: RunnerState, value: i32) -> Result<RunnerState, AddressingError> {
    let (h, p) = s.heap.alloc_int(value);
    Ok(RunnerState { register: p, heap: h, ..s })
}

/// `WriteInt(value)`: the register's integer is overwritten in place;
/// nothing when the register is not an integer.
pub open spec fn step_write_int(s: RunnerState, value: i32) -> Result<RunnerState, AddressingError> {
    match s.heap.int_of(s.register) {
        Err(e) => Err(e),
        Ok(None) => Ok(s),
        Ok(Some(_)) => Ok(RunnerState { heap: s.heap.set_int(s.register.index, ItemBodyInt { value }), ..s }),
    }
}

/// `WriteAdd`: on a non-empty stack the top is popped, whatever its kind;
/// when both it and the register are integers, its value is added (wrapping
/// at 32 bits) to the register's in place. Nothing on an empty stack.
pub open spec fn step_write_add(s: RunnerState) -> Result<RunnerState, AddressingError> {
    if s.stack.len() == 0 {
        Ok(s)
    } else {
        let t = s.popped();
        match s.heap.int_of(s.register) {
            Err(e) => Err(e),
            Ok(None) => Ok(t),
            Ok(Some(a)) => match s.heap.int_of(s.stack.last()) {
                Err(e) => Err(e),
                Ok(None) => Ok(t),
                Ok(Some(b)) => Ok(
                    RunnerState {
                        heap: s.heap.set_int(s.register.index, ItemBodyInt { value: a.value.wrapping_add(b.value) }),
                        ..t
                    },
                ),
            },
        }
    }
}

/// `NewProd`: the top of the stack becomes `first` and the next one `second`
/// (the top again when it was alone); both are popped and a fresh pair
/// replaces the register. Nothing on an empty stack.
pub open spec fn step_new_prod(s: RunnerState) -> Result<RunnerState, AddressingError> {
    if s.stack.len() == 0 {
        Ok(s)
    } else {
        let first = s.stack.last();
        let rest = s.stack.drop_last();
        let second = if rest.len() == 0 { first } else { rest.last() };
        let left = if rest.len() == 0 { rest } else { rest.drop_last() };
        let (h, p) = s.heap.alloc_prod(first, second);
        Ok(RunnerState { register: p, stack: left, heap: h })
    }
}

/// `WriteFst` and `WriteSnd`: the top of the stack is popped into the first
/// (or second) field of the register's pair. Nothing, and no pop, when the
/// register is not a pair or the stack is empty.
pub open spec fn step_write_field(s: RunnerState, fst: bool) -> Result<RunnerState, AddressingError> {
    match s.heap.prod_of(s.register) {
        Err(e) => Err(e),
        Ok(None) => Ok(s),
        Ok(Some(b)) => if s.stack.len() == 0 {
            Ok(s)
        } else {
            let v = s.stack.last();
            let body = if fst { ItemBodyProd { first: v, ..b } } else { ItemBodyProd { second: v, ..b } };
            Ok(RunnerState { heap: s.heap.set_prod(s.register.index, body), ..s.popped() })
        },
    }
}

/// The effect of one instruction. `Print` and `Gc` are reserved and leave
/// the state as it is.
pub open spec fn step(s: RunnerState, inst: Inst) -> Result<RunnerState, AddressingError> {
    match inst {
        Inst::Push => step_push(s),
        Inst::Pop => step_pop(s),
        Inst::NewInt { value } => step_new_int(s, value),
        Inst::WriteInt { value } => step_write_int(s, value),
        Inst::WriteAdd => step_write_add(s),
        Inst::NewProd => step_new_prod(s),
        Inst::WriteFst => step_write_field(s, true),
        Inst::WriteSnd => step_write_field(s, false),
        Inst::Print => Ok(s),
        Inst::Gc => Ok(s),
    }
}

/// The effect of a sequence of instructions run in order, stopping at the
/// first addressing error.
pub open spec fn run_all(s: RunnerState, insts: Seq<Inst>) -> Result<RunnerState, AddressingError>
    decreases insts.len(),
{
    if insts.len() == 0 {
        Ok(s)
    } else {
        match run_all(s, insts.drop_last()) {
            Ok(t) => step(t, insts.last()),
            Err(e) => Err(e),
        }
    }
}

/// `r` and the state `after` are what `expected` describes: on success the
/// new state; on failure the error, the run being aborted without rollback.
pub open spec fn outcome(
    r: Result<(), AddressingError>,
    after: RunnerState,
    expected: Result<RunnerState, AddressingError>,
) -> bool {
    match expected {
        Ok(s) => r is Ok && after == s,
        Err(e) => r == Err::<(), AddressingError>(e),
    }
}

/// A register machine that executes the instruction set.
pub trait Runner {
    /// The machine's abstract state.
    spec fn state(&self) -> RunnerState;

    fn push(&mut self) -> (r: Result<(), AddressingError>)
        requires
            old(self).state().wf(),
        ensures
            final(self).state().wf(),
            outcome(r, final(self).state(), step_push(old(self).state())),
    ;

    fn pop(&mut self) -> (r: Result<(), AddressingError>)
        requires
            old(self).state().wf(),
        ensures
            final(self).state().wf(),
            outcome(r, final(self).state(), step_pop(old(self).state())),
    ;

    fn new_int(&mut self, value: i32) -> (r: Result<(), AddressingError>)
        requires
            old(self).state().wf(),
        ensures
            final(self).state().wf(),
            outcome(r, final(self).state(), step_new_int(old(self).state(), value)),
    ;

    fn write_int(&mut self, value: i32) -> (r: Result<(), AddressingError>)
        requires
            old(self).state().wf(),
        ensures
            final(self).state().wf(),
            outcome(r, final(self).state(), step_write_int(old(self).state(), value)),
    ;

    fn write_add(&mut self) -> (r: Result<(), AddressingError>)
        requires
            old(self).state().wf(),
        ensures
            final(self).state().wf(),
            outcome(r, final(self).state(), step_write_add(old(self).state())),
    ;

    fn new_prod(&mut self) -> (r: Result<(), AddressingError>)
        requires
            old(self).state().wf(),
        ensures
            final(self).state().wf(),
            outcome(r, final(self).state(), step_new_prod(old(self).state())),
    ;

    fn write_fst(&mut self) -> (r: Result<(), AddressingError>)
        requires
            old(self).state().wf(),
        ensures
            final(self).state().wf(),
            outcome(r, final(self).state(), step_write_field(old(self).state(), true)),
    ;

    fn write_snd(&mut self) -> (r: Result<(), AddressingError>)
        requires
            old(self).state().wf(),
        ensures
            final(self).state().wf(),
            outcome(r, final(self).state(), step_write_field(old(self).state(), false)),
    ;

    /// Reserved: leaves the state as it is.
    fn print(&mut self) -> (r: Result<(), AddressingError>)
        requires
            old(self).state().wf(),
        ensures
            final(self).state().wf(),
            outcome(r, final(self).state(), Ok(old(self).state())),
    ;

    /// Reserved: leaves the state as it is.
    fn gc(&mut self) -> (r: Result<(), AddressingError>)
        requires
            old(self).state().wf(),
        ensures
            final(self).state().wf(),
            outcome(r, final(self).state(), Ok(old(self).state())),
    ;
}

/// Executes every instruction of `prog` in order, stopping at the first
/// addressing error, which is returned.
pub fn run<R: Runner>(runner: &mut R, prog: &Program) -> (r: Result<(), AddressingError>)
    requires
        old(runner).state().wf(),
    ensures
        final(runner).state().wf(),
        outcome(r, final(runner).state(), run_all(old(runner).state(), prog.insts@)),
{
    let n = prog.insts.len();
    let mut i: usize = 0;
    while i < n
        invariant
            n == prog.insts@.len(),
            i <= n,
            runner.state().wf(),
            run_all(old(runner).state(), prog.insts@.take(i as int)) == Ok::<RunnerState, AddressingError>(runner.state()),
        decreases n - i,
    {
        let ghost before = runner.state();
        let r = run_inst(runner, &prog.insts[i]);
        assert(prog.insts@.take(i + 1).drop_last() =~= prog.insts@.take(i as int));
        match r {
            Ok(()) => {},
            Err(e) => {
                proof {
                    lemma_run_all_stops(old(runner).state(), prog.insts@, (i + 1) as int);
                }
                return Err(e);
            },
        }
        i = i + 1;
    }
    assert(prog.insts@.take(n as int) =~= prog.insts@);
    Ok(())
}

/// Once a prefix of the program fails, the whole program fails with the
/// same error.
proof fn lemma_run_all_stops(s: RunnerState, insts: Seq<Inst>, k: int)
    requires
        0 <= k <= insts.len(),
        run_all(s, insts.take(k)) is Err,
    ensures
        run_all(s, insts) == run_all(s, insts.take(k)),
    decreases insts.len() - k,
{
    if k < insts.len() {
        assert(insts.take(k + 1).drop_last() =~= insts.take(k));
        lemma_run_all_stops(s, insts, k + 1);
    } else {
        assert(insts.take(k) =~= insts);
    }
}

/// `WriteAdd` on an empty stack changes nothing: the register keeps its
/// object and value, and no pop is attempted.
pub proof fn lemma_write_add_empty_stack(s: RunnerState)
    requires
        s.stack.len() == 0,
    ensures
        step(s, Inst::WriteAdd) == Ok::<RunnerState, AddressingError>(s),
{
}

/// `NewProd` on an empty stack changes nothing: register, stack and heap
/// stay exactly as they were.
pub proof fn lemma_new_prod_empty_stack(s: RunnerState)
    requires
        s.stack.len() == 0,
    ensures
        step(s, Inst::NewProd) == Ok::<RunnerState, AddressingError>(s),
{
}

/// Executes one instruction.
pub fn run_inst<R: Runner>(runner: &mut R, inst: &Inst) -> (r: Result<(), AddressingError>)
    requires
        old(runner).state().wf(),
    ensures
        final(runner).state().wf(),
        outcome(r, final(runner).state(), step(old(runner).state(), *inst)),
{
    match inst {
        Inst::Push => runner.push(),
        Inst::Pop => runner.pop(),
        Inst::NewInt { value } => runner.new_int(*value),
        Inst::WriteInt { value } => runner.write_int(*value),
        Inst::WriteAdd => runner.write_add(),
        Inst::NewProd => runner.new_prod(),
        Inst::WriteFst => runner.write_fst(),
        Inst::WriteSnd => runner.write_snd(),
        Inst::Print => runner.print(),
        Inst::Gc => runner.gc(),
    }
}

} // verus!
