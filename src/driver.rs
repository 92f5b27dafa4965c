//! The merge-point controller: what an embedding program calls at each of
//! its loop headers.
use vstd::prelude::*;
use crate::bytecode::{CallFrame, FnView, FrameView, Function, InstructionPointer, OpCode};
use crate::fault::Fault;
use crate::interp::Interpreter;
use crate::machine::{cell_range, record_run, replay, resync, VmState};
use crate::tracer::{copy_ops, visits, MergePointResult, Tracer, HOT_LOOP_THRESHOLD};
use crate::value::{placeholder, Aggregate, BoxedValue};

verus! {

/// The locals of the embedding program's frame: local 1 holds its code as a
/// record, local 2 its cell, local 3 its program counter.
pub open spec fn seed_local(j: int, n: nat, cell: usize, pc: usize) -> BoxedValue {
    if j == 1 {
        BoxedValue::Struct(Aggregate { base: 0, len: n as usize })
    } else if j == 2 {
        BoxedValue::Usize(cell)
    } else if j == 3 {
        BoxedValue::Usize(pc)
    } else {
        placeholder()
    }
}

/// The machine an invocation starts from: the embedding program's code in
/// cells `0 .. n`, then the cells of one frame of function `fn_idx`.
pub open spec fn seed(prog: Seq<FnView>, fn_idx: usize, user: Seq<usize>, cell: usize, pc: usize) -> Result<VmState, Fault> {
    if fn_idx >= prog.len() {
        Err(Fault::BadFunction)
    } else if prog[fn_idx as int].locals < 4 {
        Err(Fault::BadLocal)
    } else {
        let n = user.len();
        let nl = prog[fn_idx as int].locals as nat;
        Ok(VmState {
            heap: Seq::new(n, |i: int| BoxedValue::Usize(user[i])) + Seq::new(nl, |j: int| seed_local(j, n, cell, pc)),
            stack: Seq::empty(),
            frames: seq![FrameView { locals: cell_range(n, nl), return_addr: None }],
        })
    }
}

/// The embedding program's state read back from the outermost frame: its
/// program counter, and its cell when that local holds a `usize`.
pub open spec fn read_back(s: VmState) -> Result<(usize, Option<usize>), Fault> {
    if s.frames.len() == 0 {
        Err(Fault::NoFrame)
    } else if s.frames[0].locals.len() < 4 {
        Err(Fault::BadLocal)
    } else {
        let c2 = s.frames[0].locals[2];
        let c3 = s.frames[0].locals[3];
        if c2 >= s.heap.len() || c3 >= s.heap.len() {
            Err(Fault::DanglingCell)
        } else {
            match s.heap[c3 as int] {
                BoxedValue::Usize(new_pc) => Ok((
                    new_pc,
                    match s.heap[c2 as int] {
                        BoxedValue::Usize(v) => Some(v),
                        _ => None,
                    },
                )),
                _ => Err(Fault::TypeMismatch),
            }
        }
    }
}

/// Recording: interpret from the merge point in recording mode.
pub open spec fn record_outcome(
    prog: Seq<FnView>,
    at: (usize, usize),
    user: Seq<usize>,
    cell: usize,
    pc: usize,
    fuel: nat,
) -> Result<(VmState, Seq<OpCode>), Fault> {
    match seed(prog, at.0, user, cell, pc) {
        Err(e) => Err(e),
        Ok(s0) => record_run(prog, s0, Seq::empty(), at.0, at.1, at.1, fuel),
    }
}

/// Replay: run the trace, then recover from the guard that failed up to
/// the merge point.
pub open spec fn replay_outcome(
    prog: Seq<FnView>,
    at: (usize, usize),
    user: Seq<usize>,
    cell: usize,
    pc: usize,
    tr: Seq<OpCode>,
    fuel: nat,
) -> Result<VmState, Fault> {
    match seed(prog, at.0, user, cell, pc) {
        Err(e) => Err(e),
        Ok(s0) => match replay(prog, s0, tr, 0, fuel) {
            Err(e) => Err(e),
            Ok((g, s1)) => resync(prog, s1, at.0, g.recovery.pc, g.recovery.pc, true, at.1, fuel),
        },
    }
}

/// `r` and the new cell are what the final machine `end` says; on a fault
/// the cell is left as it was.
pub open spec fn returns_state(r: Result<usize, Fault>, old_cell: usize, new_cell: usize, end: Result<VmState, Fault>) -> bool {
    match end {
        Err(e) => r == Err::<usize, Fault>(e) && new_cell == old_cell,
        Ok(s) => match read_back(s) {
            Err(e) => r == Err::<usize, Fault>(e) && new_cell == old_cell,
            Ok((p, c)) => r == Ok::<usize, Fault>(p) && new_cell == match c {
                Some(v) => v,
                None => old_cell,
            },
        },
    }
}

pub fn copy_program(program: &Vec<Function>) -> (r: Vec<Function>)
    ensures
        r@.map_values(|f: Function| f@) == program@.map_values(|f: Function| f@),
{
    let mut r: Vec<Function> = Vec::new();
    let mut i: usize = 0;
    while i < program.len()
        invariant
            i <= program@.len(),
            r@.len() == i,
            r@.map_values(|f: Function| f@) =~= program@.subrange(0, i as int).map_values(|f: Function| f@),
        decreases program@.len() - i,
    {
        let f = &program[i];
        let ghost before = r@;
        r.push(Function { args: f.args, locals: f.locals, code: copy_ops(&f.code) });
        assert(r@[i as int]@ == program@[i as int]@);
        assert(r@.map_values(|f: Function| f@) =~= before.map_values(|f: Function| f@).push(program@[i as int]@));
        assert(program@.subrange(0, i + 1).map_values(|f: Function| f@) =~= program@.subrange(0, i as int).map_values(|f: Function| f@).push(program@[i as int]@));
        i = i + 1;
    }
    assert(program@.subrange(0, program@.len() as int) =~= program@);
    r
}

/// Builds the interpreter an invocation starts from.
fn seed_interpreter(program: &Vec<Function>, fn_idx: usize, user_program: &Vec<usize>, cell: usize, pc: usize) -> (r: Result<Interpreter, Fault>)
    ensures
        match seed(program@.map_values(|f: Function| f@), fn_idx, user_program@, cell, pc) {
            Ok(s) => r matches Ok(interp) && interp@ == s && interp.prog() == program@.map_values(|f: Function| f@),
            Err(e) => r matches Err(e2) && e2 == e,
        },
{
    if fn_idx >= program.len() {
        return Err(Fault::BadFunction);
    }
    let nl = program[fn_idx].locals;
    if nl < 4 {
        return Err(Fault::BadLocal);
    }
    let mut interp = Interpreter::new(copy_program(program));
    let n = user_program.len();
    let mut i: usize = 0;
    while i < n
        invariant
            i <= n == user_program@.len(),
            interp.heap@ =~= Seq::new(i as nat, |k: int| BoxedValue::Usize(user_program@[k])),
            interp.stack@.len() == 0,
            interp.stack_frames@.len() == 0,
            interp.prog() == program@.map_values(|f: Function| f@),
        decreases n - i,
    {
        interp.heap.push(BoxedValue::Usize(user_program[i]));
        i = i + 1;
    }
    let mut locals: Vec<usize> = Vec::new();
    let mut j: usize = 0;
    while j < nl
        invariant
            j <= nl,
            n == user_program@.len(),
            interp.heap@ =~= Seq::new(n as nat, |k: int| BoxedValue::Usize(user_program@[k])) + Seq::new(
                j as nat,
                |k: int| seed_local(k, n as nat, cell, pc),
            ),
            locals@ =~= cell_range(n as nat, j as nat),
            interp.stack@.len() == 0,
            interp.stack_frames@.len() == 0,
            interp.prog() == program@.map_values(|f: Function| f@),
        decreases nl - j,
    {
        let v = if j == 1 {
            BoxedValue::Struct(Aggregate { base: 0, len: n })
        } else if j == 2 {
            BoxedValue::Usize(cell)
        } else if j == 3 {
            BoxedValue::Usize(pc)
        } else {
            BoxedValue::Usize(0)
        };
        let id = interp.heap.len();
        interp.heap.push(v);
        locals.push(id);
        j = j + 1;
    }
    let frame = CallFrame { locals, return_addr: None };
    interp.stack_frames.push(frame);
    assert(interp@.frames =~= seq![frame@]);
    assert(interp@.stack =~= Seq::<crate::value::StackVal>::empty());
    Ok(interp)
}

impl Interpreter {
    /// The embedding program's state, read back from the outermost frame.
    pub fn read_back(&self) -> (r: Result<(usize, Option<usize>), Fault>)
        ensures
            r == read_back(self@),
    {
        if self.stack_frames.len() == 0 {
            return Err(Fault::NoFrame);
        }
        let frame = &self.stack_frames[0];
        if frame.locals.len() < 4 {
            return Err(Fault::BadLocal);
        }
        let c2 = frame.locals[2];
        let c3 = frame.locals[3];
        if c2 >= self.heap.len() || c3 >= self.heap.len() {
            return Err(Fault::DanglingCell);
        }
        match self.heap[c3] {
            BoxedValue::Usize(new_pc) => Ok((
                new_pc,
                match self.heap[c2] {
                    BoxedValue::Usize(v) => Some(v),
                    _ => None,
                },
            )),
            _ => Err(Fault::TypeMismatch),
        }
    }
}

/// The engine an embedding program drives.
pub struct Driver {
    pub tracer: Tracer,
}

impl Driver {
    pub fn new() -> (r: Driver)
        ensures
            r.tracer.wf(),
            r.tracer.traces@ == Map::<u64, Vec<OpCode>>::empty(),
            r.tracer.counter@ == Map::<u64, usize>::empty(),
            r.tracer.active is None,
    {
        Driver { tracer: Tracer::new() }
    }

}

impl Default for Driver {
    fn default() -> (r: Driver)
        ensures
            r.tracer.wf(),
            r.tracer.traces@ == Map::<u64, Vec<OpCode>>::empty(),
            r.tracer.counter@ == Map::<u64, usize>::empty(),
            r.tracer.active is None,
    {
        Driver::new()
    }
}

impl Driver {
    /// Hands the embedding program's state read back from `interp` out:
    /// the cell through `cell`, the program counter as the result.
    fn write_back(interp: &Interpreter, cell: &mut usize) -> (r: Result<usize, Fault>)
        ensures
            returns_state(r, *old(cell), *final(cell), Ok(interp@)),
    {
        match interp.read_back() {
            Err(e) => Err(e),
            Ok((new_pc, content)) => {
                match content {
                    Some(v) => {
                        *cell = v;
                    },
                    None => {},
                }
                Ok(new_pc)
            },
        }
    }

    /// One visit of the embedding program to its merge point `at` (a
    /// function index and an opcode index), with its code, program counter
    /// and cell. A finished trace for `pc` is replayed and the machine then
    /// recovers up to the merge point; a visit that makes `pc` hot records
    /// a trace; any other visit leaves everything as it is. Yields the new
    /// program counter; the new cell goes through `cell`. Each run of the
    /// machine executes at most `fuel` opcodes.
    pub fn merge_point(
        &mut self,
        program: &Vec<Function>,
        at: (usize, usize),
        user_program: &Vec<usize>,
        pc: usize,
        cell: &mut usize,
        fuel: usize,
    ) -> (r: Result<usize, Fault>)
        requires
            old(self).tracer.wf(),
        ensures
            final(self).tracer.wf(),
            ({
                let key = pc as u64;
                let t = old(self).tracer;
                let prog = program@.map_values(|f: Function| f@);
                if t.traces@.contains_key(key) {
                    &&& returns_state(
                        r,
                        *old(cell),
                        *final(cell),
                        replay_outcome(prog, at, user_program@, *old(cell), pc, t.traces@[key]@, fuel as nat),
                    )
                    &&& final(self).tracer.counter@ == t.counter@
                    &&& final(self).tracer.traces@ == t.traces@
                    &&& final(self).tracer.active == t.active
                    &&& final(self).tracer.loop_start == t.loop_start
                } else if t.active is None && visits(t.counter@, key) + 1 > HOT_LOOP_THRESHOLD {
                    &&& final(self).tracer.active is None
                    &&& final(self).tracer.counter@ == Map::<u64, usize>::empty()
                    &&& final(self).tracer.loop_start == key
                    &&& match record_outcome(prog, at, user_program@, *old(cell), pc, fuel as nat) {
                        Ok((s, buf)) => {
                            &&& returns_state(r, *old(cell), *final(cell), Ok(s))
                            &&& final(self).tracer.traces@ == t.traces@.insert(key, final(self).tracer.traces@[key])
                            &&& final(self).tracer.traces@[key]@ == buf
                        },
                        Err(e) => {
                            &&& r == Err::<usize, Fault>(e)
                            &&& *final(cell) == *old(cell)
                            &&& final(self).tracer.traces@ == t.traces@
                        },
                    }
                } else {
                    &&& r == Ok::<usize, Fault>(pc)
                    &&& *final(cell) == *old(cell)
                    &&& final(self).tracer.loop_start == t.loop_start
                    &&& if t.active is None {
                        &&& final(self).tracer.counter@ == t.counter@.insert(key, (visits(t.counter@, key) + 1) as usize)
                        &&& final(self).tracer.traces@ == t.traces@
                        &&& final(self).tracer.active is None
                    } else if key == t.loop_start {
                        &&& final(self).tracer.counter@ == t.counter@
                        &&& final(self).tracer.traces@ == t.traces@.insert(key, t.active->Some_0)
                        &&& final(self).tracer.active is None
                    } else {
                        &&& final(self).tracer.counter@ == t.counter@
                        &&& final(self).tracer.traces@ == t.traces@
                        &&& final(self).tracer.active == t.active
                    }
                }
            }),
    {
        let key = pc as u64;
        let res = self.tracer.handle_mergepoint(key);
        match res {
            MergePointResult::StartTrace => {
                assert(self.tracer.active->Some_0@ =~= Seq::<OpCode>::empty());
                let mut interp = match seed_interpreter(program, at.0, user_program, *cell, pc) {
                    Err(e) => {
                        self.tracer.abandon_trace();
                        return Err(e);
                    },
                    Ok(interp) => interp,
                };
                match interp.trace(&mut self.tracer, InstructionPointer { func: at.0, pc: at.1 }, fuel) {
                    Err(e) => {
                        self.tracer.abandon_trace();
                        return Err(e);
                    },
                    Ok(()) => {},
                }
                self.tracer.finish_trace(key);
                Self::write_back(&interp, cell)
            },
            MergePointResult::Trace(trace) => {
                let mut interp = match seed_interpreter(program, at.0, user_program, *cell, pc) {
                    Err(e) => return Err(e),
                    Ok(interp) => interp,
                };
                let guard = match interp.run_trace(&trace, fuel) {
                    Err(e) => return Err(e),
                    Ok(g) => g,
                };
                match interp.blackhole(
                    InstructionPointer { func: at.0, pc: guard.recovery.pc },
                    InstructionPointer { func: at.0, pc: at.1 },
                    fuel,
                ) {
                    Err(e) => return Err(e),
                    Ok(()) => {},
                }
                Self::write_back(&interp, cell)
            },
            MergePointResult::Interpret => Ok(pc),
        }
    }
}

} // verus!
