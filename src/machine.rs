//! The baseline semantics, stated over a mathematical model of the virtual
//! machine. The interpreter, the trace executor and the recovery loop are
//! proved against these functions.
use vstd::prelude::*;
use crate::binop::binop_result;
use crate::bytecode::{FnView, FrameView, Guard, InstructionPointer, OpCode};
use crate::fault::Fault;
use crate::value::{fresh_cells, Aggregate, BoxedValue, CellId, StackVal};

verus! {

/// The machine: the cell arena, the operand stack and the frame stack.
pub struct VmState {
    pub heap: Seq<BoxedValue>,
    pub stack: Seq<StackVal>,
    pub frames: Seq<FrameView>,
}

/// Where control goes after one opcode.
#[derive(Debug, Clone, Copy, PartialEq, Eq, Structural)]
pub enum Flow {
    /// Fall through to the next opcode.
    Next,
    /// Continue at this opcode index of the current function.
    Jump(usize),
    /// Continue at this function and opcode index.
    Call(usize, usize),
    /// The outermost frame returned.
    Stop,
}

impl VmState {
    pub open spec fn push(self, sv: StackVal) -> VmState {
        VmState { stack: self.stack.push(sv), ..self }
    }

    /// `n` fresh placeholder cells at the end of the arena.
    pub open spec fn with_cells(self, n: nat) -> VmState {
        VmState { heap: self.heap + fresh_cells(n), ..self }
    }

    pub open spec fn write(self, c: CellId, v: BoxedValue) -> Result<VmState, Fault> {
        if c < self.heap.len() {
            Ok(VmState { heap: self.heap.update(c as int, v), ..self })
        } else {
            Err(Fault::DanglingCell)
        }
    }

    pub open spec fn pop_entry(self) -> Result<(StackVal, VmState), Fault> {
        if self.stack.len() == 0 {
            Err(Fault::StackUnderflow)
        } else {
            Ok((self.stack.last(), VmState { stack: self.stack.drop_last(), ..self }))
        }
    }

    /// The value an entry denotes now.
    pub open spec fn read(self, sv: StackVal) -> Result<BoxedValue, Fault> {
        match sv {
            StackVal::Owned(v) => Ok(v),
            StackVal::Ref(c) => if c < self.heap.len() {
                Ok(self.heap[c as int])
            } else {
                Err(Fault::DanglingCell)
            },
        }
    }

    /// The cell of local `idx` of the active frame.
    pub open spec fn local_cell(self, idx: usize) -> Result<CellId, Fault> {
        if self.frames.len() == 0 {
            Err(Fault::NoFrame)
        } else if idx < self.frames.last().locals.len() {
            Ok(self.frames.last().locals[idx as int])
        } else {
            Err(Fault::BadLocal)
        }
    }
}

/// The constant a deferred-constant value stands for.
pub open spec fn const_of(prog: Seq<FnView>, idx: usize) -> Result<BoxedValue, Fault> {
    if idx < prog.len() && prog[idx as int].code.len() > 0 && prog[idx as int].code[0] is ConstValue {
        Ok(prog[idx as int].code[0]->ConstValue_0)
    } else {
        Err(Fault::BadConstant)
    }
}

/// Reading a value substitutes a deferred constant.
pub open spec fn resolve(prog: Seq<FnView>, v: BoxedValue) -> Result<BoxedValue, Fault> {
    match v {
        BoxedValue::Static(idx) => const_of(prog, idx),
        _ => Ok(v),
    }
}

/// The value on top of the stack, materialized and resolved, and the state
/// without it.
pub open spec fn pop_value(prog: Seq<FnView>, s: VmState) -> Result<(BoxedValue, VmState), Fault> {
    match s.pop_entry() {
        Err(e) => Err(e),
        Ok((sv, s1)) => match s1.read(sv) {
            Err(e) => Err(e),
            Ok(v) => match resolve(prog, v) {
                Err(e) => Err(e),
                Ok(w) => Ok((w, s1)),
            },
        },
    }
}

/// The value on top of the stack, left in place.
pub open spec fn peek_value(prog: Seq<FnView>, s: VmState) -> Result<BoxedValue, Fault> {
    match pop_value(prog, s) {
        Err(e) => Err(e),
        Ok((v, _)) => Ok(v),
    }
}

pub open spec fn new_struct(s: VmState, n: usize) -> BoxedValue {
    BoxedValue::Struct(Aggregate { base: s.heap.len() as usize, len: n })
}

pub open spec fn op_tuple(s: VmState, n: usize) -> Result<VmState, Fault> {
    Ok(s.with_cells(n as nat).push(StackVal::Owned(new_struct(s, n))))
}

pub open spec fn op_tuple_init(prog: Seq<FnView>, s: VmState, idx: usize) -> Result<VmState, Fault> {
    match pop_value(prog, s) {
        Err(e) => Err(e),
        Ok((v, s1)) => if s1.stack.len() == 0 {
            Err(Fault::StackUnderflow)
        } else {
            match s1.stack.last() {
                StackVal::Owned(BoxedValue::Struct(a)) => match a.field_cell(idx) {
                    Some(c) => s1.write(c, v),
                    None => Err(Fault::OutOfBounds),
                },
                _ => Err(Fault::TypeMismatch),
            }
        },
    }
}

pub open spec fn op_tuple_set(prog: Seq<FnView>, s: VmState, idx: usize) -> Result<VmState, Fault> {
    match pop_value(prog, s) {
        Err(e) => Err(e),
        Ok((t, s1)) => match pop_value(prog, s1) {
            Err(e) => Err(e),
            Ok((v, s2)) => match t {
                BoxedValue::Struct(a) => match a.field_cell(idx) {
                    Some(c) => s2.write(c, v),
                    None => Err(Fault::OutOfBounds),
                },
                _ => Err(Fault::TypeMismatch),
            },
        },
    }
}

pub open spec fn op_tuple_get(prog: Seq<FnView>, s: VmState, idx: usize) -> Result<VmState, Fault> {
    match pop_value(prog, s) {
        Err(e) => Err(e),
        Ok((t, s1)) => match t {
            BoxedValue::Struct(a) => match a.field_cell(idx) {
                Some(c) => Ok(s1.push(StackVal::Ref(c))),
                None => Err(Fault::OutOfBounds),
            },
            _ => Err(Fault::TypeMismatch),
        },
    }
}

/// `Use` and `Unsize`: the top entry becomes an owned copy.
pub open spec fn op_use(s: VmState) -> Result<VmState, Fault> {
    match s.pop_entry() {
        Err(e) => Err(e),
        Ok((sv, s1)) => match s1.read(sv) {
            Err(e) => Err(e),
            Ok(v) => Ok(s1.push(StackVal::Owned(v))),
        },
    }
}

pub open spec fn op_ref(s: VmState) -> Result<VmState, Fault> {
    match s.pop_entry() {
        Err(e) => Err(e),
        Ok((sv, s1)) => match sv {
            StackVal::Ref(c) => Ok(s1.push(StackVal::Owned(BoxedValue::Ptr(c)))),
            StackVal::Owned(_) => Err(Fault::TypeMismatch),
        },
    }
}

pub open spec fn op_deref(s: VmState) -> Result<VmState, Fault> {
    match s.pop_entry() {
        Err(e) => Err(e),
        Ok((sv, s1)) => match s1.read(sv) {
            Err(e) => Err(e),
            Ok(BoxedValue::Ptr(c)) => Ok(s1.push(StackVal::Ref(c))),
            Ok(_) => Err(Fault::TypeMismatch),
        },
    }
}

pub open spec fn op_load(s: VmState, idx: usize) -> Result<VmState, Fault> {
    match s.local_cell(idx) {
        Err(e) => Err(e),
        Ok(c) => Ok(s.push(StackVal::Ref(c))),
    }
}

/// A store writes an owned value; storing a place is a type error.
pub open spec fn op_store(s: VmState, idx: usize) -> Result<VmState, Fault> {
    match s.pop_entry() {
        Err(e) => Err(e),
        Ok((sv, s1)) => match sv {
            StackVal::Ref(_) => Err(Fault::TypeMismatch),
            StackVal::Owned(v) => match s1.local_cell(idx) {
                Err(e) => Err(e),
                Ok(c) => s1.write(c, v),
            },
        },
    }
}

pub open spec fn op_get_index(prog: Seq<FnView>, s: VmState) -> Result<VmState, Fault> {
    match pop_value(prog, s) {
        Err(e) => Err(e),
        Ok((t, s1)) => match pop_value(prog, s1) {
            Err(e) => Err(e),
            Ok((i, s2)) => match (t, i) {
                (BoxedValue::Struct(a), BoxedValue::Usize(idx)) => match a.field_cell(idx) {
                    Some(c) => Ok(s2.push(StackVal::Ref(c))),
                    None => Err(Fault::OutOfBounds),
                },
                _ => Err(Fault::TypeMismatch),
            },
        },
    }
}

pub open spec fn op_assign_index(prog: Seq<FnView>, s: VmState) -> Result<VmState, Fault> {
    match pop_value(prog, s) {
        Err(e) => Err(e),
        Ok((t, s1)) => match pop_value(prog, s1) {
            Err(e) => Err(e),
            Ok((i, s2)) => match pop_value(prog, s2) {
                Err(e) => Err(e),
                Ok((v, s3)) => match (t, i) {
                    (BoxedValue::Struct(a), BoxedValue::Usize(idx)) => match a.field_cell(idx) {
                        Some(c) => s3.write(c, v),
                        None => Err(Fault::OutOfBounds),
                    },
                    _ => Err(Fault::TypeMismatch),
                },
            },
        },
    }
}

/// Pops `k` values into cells `base + k - 1` down to `base`.
pub open spec fn fill(prog: Seq<FnView>, s: VmState, base: usize, k: nat) -> Result<VmState, Fault>
    decreases k,
{
    if k == 0 {
        Ok(s)
    } else {
        match pop_value(prog, s) {
            Err(e) => Err(e),
            Ok((v, s1)) => if base + k - 1 <= usize::MAX {
                match s1.write((base + k - 1) as usize, v) {
                    Err(e) => Err(e),
                    Ok(s2) => fill(prog, s2, base, (k - 1) as nat),
                }
            } else {
                Err(Fault::OutOfBounds)
            },
        }
    }
}

/// An array of `n` values popped in reverse positional order.
pub open spec fn op_array(prog: Seq<FnView>, s: VmState, n: usize) -> Result<VmState, Fault> {
    match fill(prog, s.with_cells(n as nat), s.heap.len() as usize, n as nat) {
        Err(e) => Err(e),
        Ok(s1) => Ok(s1.push(StackVal::Owned(new_struct(s, n)))),
    }
}

/// An array of `n` copies of the popped value.
pub open spec fn op_repeat(prog: Seq<FnView>, s: VmState, n: usize) -> Result<VmState, Fault> {
    match pop_value(prog, s) {
        Err(e) => Err(e),
        Ok((v, s1)) => Ok(
            VmState { heap: s1.heap + Seq::new(n as nat, |i: int| v), ..s1 }.push(
                StackVal::Owned(new_struct(s1, n)),
            ),
        ),
    }
}

pub open spec fn op_len(prog: Seq<FnView>, s: VmState) -> Result<VmState, Fault> {
    match pop_value(prog, s) {
        Err(e) => Err(e),
        Ok((BoxedValue::Struct(a), s1)) => Ok(s1.push(StackVal::Owned(BoxedValue::Usize(a.len)))),
        Ok(_) => Err(Fault::TypeMismatch),
    }
}

/// Both operands of a binary operator, the right one on top, and their result.
pub open spec fn binop_of(prog: Seq<FnView>, s: VmState, kind: crate::bytecode::BinOp) -> Result<(BoxedValue, VmState), Fault> {
    match pop_value(prog, s) {
        Err(e) => Err(e),
        Ok((r, s1)) => match pop_value(prog, s1) {
            Err(e) => Err(e),
            Ok((l, s2)) => match binop_result(kind, l, r) {
                Err(e) => Err(e),
                Ok(v) => Ok((v, s2)),
            },
        },
    }
}

pub open spec fn op_binop(prog: Seq<FnView>, s: VmState, kind: crate::bytecode::BinOp) -> Result<VmState, Fault> {
    match binop_of(prog, s, kind) {
        Err(e) => Err(e),
        Ok((v, s1)) => Ok(s1.push(StackVal::Owned(v))),
    }
}

/// The checked form never reports overflow: it yields the record `(v, false)`.
pub open spec fn op_checked_binop(prog: Seq<FnView>, s: VmState, kind: crate::bytecode::BinOp) -> Result<VmState, Fault> {
    match binop_of(prog, s, kind) {
        Err(e) => Err(e),
        Ok((v, s1)) => Ok(
            VmState { heap: s1.heap.push(v).push(BoxedValue::Bool(false)), ..s1 }.push(
                StackVal::Owned(new_struct(s1, 2)),
            ),
        ),
    }
}

pub open spec fn op_not(prog: Seq<FnView>, s: VmState) -> Result<VmState, Fault> {
    match pop_value(prog, s) {
        Err(e) => Err(e),
        Ok((BoxedValue::Bool(b), s1)) => Ok(s1.push(StackVal::Owned(BoxedValue::Bool(!b)))),
        Ok(_) => Err(Fault::TypeMismatch),
    }
}

/// One opcode that moves data only. Control transfers, guards, `Neg` and
/// `Panic` are not data opcodes.
pub open spec fn data_step(prog: Seq<FnView>, s: VmState, op: OpCode) -> Result<VmState, Fault> {
    match op {
        OpCode::ConstValue(v) => Ok(s.push(StackVal::Owned(v))),
        OpCode::Tuple(n) => op_tuple(s, n),
        OpCode::TupleInit(i) => op_tuple_init(prog, s, i),
        OpCode::TupleGet(i) => op_tuple_get(prog, s, i),
        OpCode::TupleSet(i) => op_tuple_set(prog, s, i),
        OpCode::Unsize | OpCode::Use => op_use(s),
        OpCode::Ref => op_ref(s),
        OpCode::Deref => op_deref(s),
        OpCode::Load(i) => op_load(s, i),
        OpCode::Store(i) => op_store(s, i),
        OpCode::GetIndex => op_get_index(prog, s),
        OpCode::AssignIndex => op_assign_index(prog, s),
        OpCode::Array(n) => op_array(prog, s, n),
        OpCode::Repeat(n) => op_repeat(prog, s, n),
        OpCode::Len => op_len(prog, s),
        OpCode::BinOp(k) => op_binop(prog, s, k),
        OpCode::CheckedBinOp(k) => op_checked_binop(prog, s, k),
        OpCode::Not => op_not(prog, s),
        OpCode::Noop => Ok(s),
        OpCode::Pop => match s.pop_entry() {
            Err(e) => Err(e),
            Ok((_, s1)) => Ok(s1),
        },
        OpCode::Panic => Err(Fault::Panic),
        _ => Err(Fault::Unsupported),
    }
}

/// Where a callee resumes its caller: the opcode after the call.
pub open spec fn next_ip(pos: InstructionPointer) -> Result<InstructionPointer, Fault> {
    if pos.pc < usize::MAX {
        Ok(InstructionPointer { func: pos.func, pc: (pos.pc + 1) as usize })
    } else {
        Err(Fault::BadJump)
    }
}

/// Pops `k` arguments into locals `k - 1` down to `0`: an owned value moves
/// into a fresh cell, a place is shared as it is.
pub open spec fn bind_args(s: VmState, locals: Seq<CellId>, k: nat) -> Result<(VmState, Seq<CellId>), Fault>
    decreases k,
{
    if k == 0 {
        Ok((s, locals))
    } else {
        match s.pop_entry() {
            Err(e) => Err(e),
            Ok((StackVal::Owned(v), s1)) => bind_args(
                VmState { heap: s1.heap.push(v), ..s1 },
                locals.update(k - 1, s1.heap.len() as usize),
                (k - 1) as nat,
            ),
            Ok((StackVal::Ref(c), s1)) => bind_args(s1, locals.update(k - 1, c), (k - 1) as nat),
        }
    }
}

/// The cells `base .. base + n`.
pub open spec fn cell_range(base: nat, n: nat) -> Seq<CellId> {
    Seq::new(n, |i: int| (base + i) as usize)
}

/// A call: pop a function reference, give the callee a frame of fresh cells,
/// bind its arguments and push the frame. Yields the callee's index.
pub open spec fn op_call(prog: Seq<FnView>, s: VmState, pos: InstructionPointer) -> Result<(usize, VmState), Fault> {
    match s.pop_entry() {
        Err(e) => Err(e),
        Ok((sv, s1)) => match s1.read(sv) {
            Err(e) => Err(e),
            Ok(BoxedValue::Func(idx)) => if idx >= prog.len() {
                Err(Fault::BadFunction)
            } else if prog[idx as int].args > prog[idx as int].locals {
                Err(Fault::BadLocal)
            } else {
                match next_ip(pos) {
                    Err(e) => Err(e),
                    Ok(ret) => match bind_args(
                        s1.with_cells(prog[idx as int].locals as nat),
                        cell_range(s1.heap.len(), prog[idx as int].locals as nat),
                        prog[idx as int].args as nat,
                    ) {
                        Err(e) => Err(e),
                        Ok((s2, locals)) => Ok((
                            idx,
                            VmState {
                                frames: s2.frames.push(FrameView { locals, return_addr: Some(ret) }),
                                ..s2
                            },
                        )),
                    },
                }
            },
            Ok(_) => Err(Fault::TypeMismatch),
        },
    }
}

/// A call of a function by index, with a frame without locals.
pub open spec fn op_static(prog: Seq<FnView>, s: VmState, idx: usize, pos: InstructionPointer) -> Result<VmState, Fault> {
    if idx >= prog.len() {
        Err(Fault::BadFunction)
    } else {
        match next_ip(pos) {
            Err(e) => Err(e),
            Ok(ret) => Ok(
                VmState {
                    frames: s.frames.push(FrameView { locals: Seq::empty(), return_addr: Some(ret) }),
                    ..s
                },
            ),
        }
    }
}

/// A return pops the active frame and yields its return address.
pub open spec fn op_return(s: VmState) -> (VmState, Option<InstructionPointer>) {
    if s.frames.len() == 0 {
        (s, None)
    } else {
        (VmState { frames: s.frames.drop_last(), ..s }, s.frames.last().return_addr)
    }
}

pub open spec fn forward(pc: usize, n: usize) -> Result<usize, Fault> {
    if pc + n <= usize::MAX {
        Ok((pc + n) as usize)
    } else {
        Err(Fault::BadJump)
    }
}

pub open spec fn backward(pc: usize, n: usize) -> Result<usize, Fault> {
    if n <= pc {
        Ok((pc - n) as usize)
    } else {
        Err(Fault::BadJump)
    }
}

pub open spec fn jump_to(target: Result<usize, Fault>) -> Result<Flow, Fault> {
    match target {
        Ok(t) => Ok(Flow::Jump(t)),
        Err(e) => Err(e),
    }
}

/// A conditional branch pops a boolean and is taken when it is true.
pub open spec fn branch(prog: Seq<FnView>, s: VmState, target: Result<usize, Fault>) -> Result<(Flow, VmState), Fault> {
    match pop_value(prog, s) {
        Err(e) => Err(e),
        Ok((BoxedValue::Bool(b), s1)) => if b {
            match jump_to(target) {
                Ok(f) => Ok((f, s1)),
                Err(e) => Err(e),
            }
        } else {
            Ok((Flow::Next, s1))
        },
        Ok(_) => Err(Fault::TypeMismatch),
    }
}

/// One opcode of the baseline interpreter at `pos`.
pub open spec fn step(prog: Seq<FnView>, s: VmState, op: OpCode, pos: InstructionPointer) -> Result<(Flow, VmState), Fault> {
    match op {
        OpCode::Call => match op_call(prog, s, pos) {
            Err(e) => Err(e),
            Ok((idx, s1)) => Ok((Flow::Call(idx, 0), s1)),
        },
        OpCode::Static(idx) => match op_static(prog, s, idx, pos) {
            Err(e) => Err(e),
            Ok(s1) => Ok((Flow::Call(idx, 0), s1)),
        },
        OpCode::Return => match op_return(s) {
            (s1, Some(ret)) => Ok((Flow::Call(ret.func, ret.pc), s1)),
            (s1, None) => Ok((Flow::Stop, s1)),
        },
        OpCode::Skip(n) => match jump_to(forward(pos.pc, n)) {
            Ok(f) => Ok((f, s)),
            Err(e) => Err(e),
        },
        OpCode::JumpBack(n) => match jump_to(backward(pos.pc, n)) {
            Ok(f) => Ok((f, s)),
            Err(e) => Err(e),
        },
        OpCode::SkipIf(n) => branch(prog, s, forward(pos.pc, n)),
        OpCode::JumpBackIf(n) => branch(prog, s, backward(pos.pc, n)),
        _ => match data_step(prog, s, op) {
            Err(e) => Err(e),
            Ok(s1) => Ok((Flow::Next, s1)),
        },
    }
}

/// The opcode at a program location.
pub open spec fn fetch(prog: Seq<FnView>, func: usize, pc: usize) -> Option<OpCode> {
    if func < prog.len() && pc < prog[func as int].code.len() {
        Some(prog[func as int].code[pc as int])
    } else {
        None
    }
}

/// The boolean on top of the stack, read as a branch reads it (a deferred
/// constant substituted) without popping it.
pub open spec fn top_bool(prog: Seq<FnView>, s: VmState) -> Result<bool, Fault> {
    match peek_value(prog, s) {
        Err(e) => Err(e),
        Ok(BoxedValue::Bool(b)) => Ok(b),
        Ok(_) => Err(Fault::TypeMismatch),
    }
}

/// What recording keeps of an opcode executed at `pos`: unconditional jumps
/// are dropped, a conditional branch becomes a guard on the boolean it is
/// about to take, anything else is kept as it is.
pub open spec fn recorded(op: OpCode, top: Result<bool, Fault>, pos: InstructionPointer) -> Result<Option<OpCode>, Fault> {
    match op {
        OpCode::Skip(_) | OpCode::JumpBack(_) => Ok(None),
        OpCode::SkipIf(_) | OpCode::JumpBackIf(_) => match top {
            Err(e) => Err(e),
            Ok(b) => Ok(Some(OpCode::Guard(Guard { expected: b, recovery: pos }))),
        },
        _ => Ok(Some(op)),
    }
}

/// A branch opcode: a jump or a conditional branch.
pub open spec fn is_branch(op: OpCode) -> bool {
    match op {
        OpCode::Skip(_) | OpCode::JumpBack(_) | OpCode::SkipIf(_) | OpCode::JumpBackIf(_) => true,
        _ => false,
    }
}

/// A straight-line opcode sequence holds no branch opcode.
pub open spec fn straight_line(ops: Seq<OpCode>) -> bool {
    forall|i: int| 0 <= i < ops.len() ==> !is_branch(#[trigger] ops[i])
}

pub open spec fn with_recorded(buf: Seq<OpCode>, rec: Option<OpCode>) -> Seq<OpCode> {
    match rec {
        Some(op) => buf.push(op),
        None => buf,
    }
}

/// Baseline interpretation from `(func, pc)` in recording mode: every
/// opcode is recorded before it runs, until a jump lands before `start_pc`.
/// Yields the machine and the recording at that point.
pub open spec fn record_run(
    prog: Seq<FnView>,
    s: VmState,
    buf: Seq<OpCode>,
    func: usize,
    pc: usize,
    start_pc: usize,
    fuel: nat,
) -> Result<(VmState, Seq<OpCode>), Fault>
    decreases fuel,
{
    if fuel == 0 {
        Err(Fault::OutOfFuel)
    } else {
        match fetch(prog, func, pc) {
            None => Err(Fault::BadJump),
            Some(op) => {
                let pos = InstructionPointer { func, pc };
                match recorded(op, top_bool(prog, s), pos) {
                    Err(e) => Err(e),
                    Ok(rec) => {
                        let buf1 = with_recorded(buf, rec);
                        match step(prog, s, op, pos) {
                            Err(e) => Err(e),
                            Ok((Flow::Next, s1)) => record_run(prog, s1, buf1, func, (pc + 1) as usize, start_pc, (fuel - 1) as nat),
                            Ok((Flow::Jump(t), s1)) => if t < start_pc {
                                Ok((s1, buf1))
                            } else {
                                record_run(prog, s1, buf1, func, t, start_pc, (fuel - 1) as nat)
                            },
                            Ok((Flow::Call(f, p), s1)) => record_run(prog, s1, buf1, f, p, start_pc, (fuel - 1) as nat),
                            Ok((Flow::Stop, _)) => Err(Fault::Stopped),
                        }
                    },
                }
            },
        }
    }
}

/// Recovery: baseline interpretation from `(func, pc)` that ends once the
/// program counter is before `stop_pc` (when `check_stop` holds), or a jump
/// lands before `start_pc`.
pub open spec fn resync(
    prog: Seq<FnView>,
    s: VmState,
    func: usize,
    pc: usize,
    start_pc: usize,
    check_stop: bool,
    stop_pc: usize,
    fuel: nat,
) -> Result<VmState, Fault>
    decreases fuel,
{
    if check_stop && pc < stop_pc {
        Ok(s)
    } else if fuel == 0 {
        Err(Fault::OutOfFuel)
    } else {
        match fetch(prog, func, pc) {
            None => Err(Fault::BadJump),
            Some(op) => match step(prog, s, op, InstructionPointer { func, pc }) {
                Err(e) => Err(e),
                Ok((Flow::Next, s1)) => resync(prog, s1, func, (pc + 1) as usize, start_pc, check_stop, stop_pc, (fuel - 1) as nat),
                Ok((Flow::Jump(t), s1)) => if t < start_pc {
                    Ok(s1)
                } else {
                    resync(prog, s1, func, t, start_pc, check_stop, stop_pc, (fuel - 1) as nat)
                },
                Ok((Flow::Call(f, p), s1)) => resync(prog, s1, f, p, start_pc, check_stop, stop_pc, (fuel - 1) as nat),
                Ok((Flow::Stop, _)) => Err(Fault::Stopped),
            },
        }
    }
}

/// One opcode of a trace at index `pc`: yields the next index, or the guard
/// that failed.
pub open spec fn trace_step(prog: Seq<FnView>, s: VmState, op: OpCode, pc: usize) -> Result<(Result<usize, Guard>, VmState), Fault> {
    match op {
        OpCode::Guard(g) => match peek_value(prog, s) {
            Err(e) => Err(e),
            Ok(BoxedValue::Bool(b)) => if b == g.expected {
                Ok((Ok((pc + 1) as usize), VmState { stack: s.stack.drop_last(), ..s }))
            } else {
                Ok((Err(g), s))
            },
            Ok(_) => Err(Fault::TypeMismatch),
        },
        OpCode::Skip(n) => match forward(pc, n) {
            Ok(t) => Ok((Ok(t), s)),
            Err(e) => Err(e),
        },
        OpCode::JumpBack(n) => match backward(pc, n) {
            Ok(t) => Ok((Ok(t), s)),
            Err(e) => Err(e),
        },
        OpCode::SkipIf(n) => match branch(prog, s, forward(pc, n)) {
            Err(e) => Err(e),
            Ok((Flow::Jump(t), s1)) => Ok((Ok(t), s1)),
            Ok((_, s1)) => Ok((Ok((pc + 1) as usize), s1)),
        },
        OpCode::JumpBackIf(n) => match branch(prog, s, backward(pc, n)) {
            Err(e) => Err(e),
            Ok((Flow::Jump(t), s1)) => Ok((Ok(t), s1)),
            Ok((_, s1)) => Ok((Ok((pc + 1) as usize), s1)),
        },
        _ => match data_step(prog, s, op) {
            Err(e) => Err(e),
            Ok(s1) => Ok((Ok((pc + 1) as usize), s1)),
        },
    }
}

/// Runs a trace from index `pc` round and round until a guard fails; an
/// index past the end wraps to the start. Yields the failed guard.
pub open spec fn replay(prog: Seq<FnView>, s: VmState, tr: Seq<OpCode>, pc: usize, fuel: nat) -> Result<(Guard, VmState), Fault>
    decreases fuel,
{
    if tr.len() == 0 {
        Err(Fault::EmptyTrace)
    } else if fuel == 0 {
        Err(Fault::OutOfFuel)
    } else {
        let at: usize = if pc >= tr.len() { 0 } else { pc };
        match trace_step(prog, s, tr[at as int], at) {
            Err(e) => Err(e),
            Ok((Err(g), s1)) => Ok((g, s1)),
            Ok((Ok(next), s1)) => replay(prog, s1, tr, next, (fuel - 1) as nat),
        }
    }
}

} // verus!
