//! The baseline interpreter: an operand stack, a frame stack and a cell
//! arena, driven one opcode at a time.
use vstd::prelude::*;
use crate::binop::eval_binop;
use crate::bytecode::{BinOp, CallFrame, FnView, Function, Guard, InstructionPointer, OpCode};
use crate::fault::Fault;
use crate::tracer::Tracer;
use crate::machine::{
    bind_args, binop_of, cell_range, const_of, data_step, fetch, fill, op_array,
    op_assign_index, op_binop, op_call, op_checked_binop, op_deref, op_get_index, op_len,
    op_load, op_not, op_ref, op_repeat, op_return, op_static, op_store, op_tuple, op_tuple_get,
    op_tuple_init, op_tuple_set, op_use, peek_value, pop_value, record_run, replay, resolve,
    resync, step, Flow, VmState,
};
use crate::value::{fresh_cells, Aggregate, BoxedValue, CellId, StackVal};

verus! {

/// `r` is what `want` says: the fault it names, or success with `post`.
pub open spec fn agrees(r: Result<(), Fault>, post: VmState, want: Result<VmState, Fault>) -> bool {
    match want {
        Ok(s) => r is Ok && post == s,
        Err(e) => r == Err::<(), Fault>(e),
    }
}

/// `r` is what `want` says: the fault it names, or its value with `post`.
pub open spec fn yields<T>(r: Result<T, Fault>, post: VmState, want: Result<(T, VmState), Fault>) -> bool {
    match want {
        Ok((v, s)) => r == Ok::<T, Fault>(v) && post == s,
        Err(e) => r == Err::<T, Fault>(e),
    }
}

pub struct Interpreter {
    /// The functions of the program; a deferred constant names one of them.
    pub program: Vec<Function>,
    /// The cell arena: every local, field and pointer target is a cell here.
    pub heap: Vec<BoxedValue>,
    /// The working stack.
    pub stack: Vec<StackVal>,
    /// The frames of the interpreted program, the active one last.
    pub stack_frames: Vec<CallFrame>,
}

impl View for Interpreter {
    type V = VmState;

    open spec fn view(&self) -> VmState {
        VmState {
            heap: self.heap@,
            stack: self.stack@,
            frames: self.stack_frames@.map_values(|f: CallFrame| f@),
        }
    }
}

impl Interpreter {
    pub open spec fn prog(&self) -> Seq<FnView> {
        self.program@.map_values(|f: Function| f@)
    }

    pub fn new(program: Vec<Function>) -> (r: Interpreter)
        ensures
            r.prog() == program@.map_values(|f: Function| f@),
            r@.heap.len() == 0,
            r@.stack.len() == 0,
            r@.frames.len() == 0,
    {
        Interpreter { program, heap: Vec::new(), stack: Vec::new(), stack_frames: Vec::new() }
    }

    /// Index of the active frame.
    pub fn stack_ptr(&self) -> (r: usize)
        requires
            self.stack_frames@.len() > 0,
        ensures
            r == self.stack_frames@.len() - 1,
    {
        self.stack_frames.len() - 1
    }

    pub fn active_frame(&self) -> (r: &CallFrame)
        requires
            self.stack_frames@.len() > 0,
        ensures
            *r == self.stack_frames@.last(),
    {
        &self.stack_frames[self.stack_frames.len() - 1]
    }

    fn push_entry(&mut self, sv: StackVal)
        ensures
            final(self)@ == old(self)@.push(sv),
            final(self).program == old(self).program,
    {
        self.stack.push(sv);
    }

    fn pop_entry(&mut self) -> (r: Result<StackVal, Fault>)
        ensures
            yields(r, final(self)@, old(self)@.pop_entry()),
            r is Err ==> final(self)@ == old(self)@,
            final(self).program == old(self).program,
    {
        match self.stack.pop() {
            Some(sv) => Ok(sv),
            None => Err(Fault::StackUnderflow),
        }
    }

    fn read_entry(&self, sv: StackVal) -> (r: Result<BoxedValue, Fault>)
        ensures
            r == self@.read(sv),
    {
        match sv {
            StackVal::Owned(v) => Ok(v),
            StackVal::Ref(c) => if c < self.heap.len() {
                Ok(sv.into_owned(&self.heap).unwrap_value())
            } else {
                Err(Fault::DanglingCell)
            },
        }
    }

    fn write_cell(&mut self, c: CellId, v: BoxedValue) -> (r: Result<(), Fault>)
        ensures
            agrees(r, final(self)@, old(self)@.write(c, v)),
            final(self).program == old(self).program,
    {
        if c < self.heap.len() {
            self.heap.set(c, v);
            Ok(())
        } else {
            Err(Fault::DanglingCell)
        }
    }

    /// Appends `n` placeholder cells; yields the first of them.
    fn alloc_cells(&mut self, n: usize) -> (base: usize)
        ensures
            final(self)@ == old(self)@.with_cells(n as nat),
            base == old(self)@.heap.len(),
            final(self).program == old(self).program,
    {
        let base = self.heap.len();
        let mut i: usize = 0;
        while i < n
            invariant
                i <= n,
                self.heap@ =~= old(self).heap@ + fresh_cells(i as nat),
                self.stack@ == old(self).stack@,
                self.stack_frames@ == old(self).stack_frames@,
                self.program == old(self).program,
            decreases n - i,
        {
            self.heap.push(BoxedValue::Usize(0));
            i = i + 1;
        }
        base
    }

    fn local_cell(&self, idx: usize) -> (r: Result<CellId, Fault>)
        ensures
            r == self@.local_cell(idx),
    {
        if self.stack_frames.len() == 0 {
            Err(Fault::NoFrame)
        } else {
            let frame = self.active_frame();
            if idx < frame.locals.len() {
                Ok(frame.locals[idx])
            } else {
                Err(Fault::BadLocal)
            }
        }
    }

    /// The constant that the function at `idx` holds.
    pub fn load_const(&self, idx: usize) -> (r: Result<BoxedValue, Fault>)
        ensures
            r == const_of(self.prog(), idx),
    {
        if idx < self.program.len() && self.program[idx].code.len() > 0 {
            match self.program[idx].code[0] {
                OpCode::ConstValue(v) => Ok(v),
                _ => Err(Fault::BadConstant),
            }
        } else {
            Err(Fault::BadConstant)
        }
    }

    fn resolve_value(&self, v: BoxedValue) -> (r: Result<BoxedValue, Fault>)
        ensures
            r == resolve(self.prog(), v),
    {
        match v {
            BoxedValue::Static(idx) => self.load_const(idx),
            _ => Ok(v),
        }
    }

    /// The value on top of the stack, left in place.
    pub fn peek_value(&self) -> (r: Result<BoxedValue, Fault>)
        ensures
            r == peek_value(self.prog(), self@),
    {
        if self.stack.len() == 0 {
            Err(Fault::StackUnderflow)
        } else {
            match self.read_entry(self.stack[self.stack.len() - 1]) {
                Err(e) => Err(e),
                Ok(v) => self.resolve_value(v),
            }
        }
    }

    /// Pops the top of the stack as a value.
    pub fn pop_value(&mut self) -> (r: Result<BoxedValue, Fault>)
        ensures
            yields(r, final(self)@, pop_value(old(self).prog(), old(self)@)),
            final(self).program == old(self).program,
    {
        let sv = match self.pop_entry() {
            Err(e) => return Err(e),
            Ok(sv) => sv,
        };
        match self.read_entry(sv) {
            Err(e) => Err(e),
            Ok(v) => self.resolve_value(v),
        }
    }
    pub fn o_tuple(&mut self, size: usize)
        ensures
            agrees(Ok(()), final(self)@, op_tuple(old(self)@, size)),
            final(self).program == old(self).program,
    {
        let base = self.alloc_cells(size);
        self.push_entry(StackVal::Owned(BoxedValue::Struct(Aggregate { base, len: size })));
    }

    /// Writes the popped value into field `idx` of the record left on top.
    pub fn o_tuple_init(&mut self, idx: usize) -> (r: Result<(), Fault>)
        ensures
            agrees(r, final(self)@, op_tuple_init(old(self).prog(), old(self)@, idx)),
            final(self).program == old(self).program,
    {
        let val = match self.pop_value() {
            Err(e) => return Err(e),
            Ok(v) => v,
        };
        if self.stack.len() == 0 {
            return Err(Fault::StackUnderflow);
        }
        match self.stack[self.stack.len() - 1] {
            StackVal::Owned(BoxedValue::Struct(a)) => match a.field(idx) {
                Some(c) => self.write_cell(c, val),
                None => Err(Fault::OutOfBounds),
            },
            _ => Err(Fault::TypeMismatch),
        }
    }

    /// Pops a record, then a value, and writes the value into field `idx`.
    pub fn o_tuple_set(&mut self, idx: usize) -> (r: Result<(), Fault>)
        ensures
            agrees(r, final(self)@, op_tuple_set(old(self).prog(), old(self)@, idx)),
            final(self).program == old(self).program,
    {
        let boxed_tuple = match self.pop_value() {
            Err(e) => return Err(e),
            Ok(v) => v,
        };
        let val = match self.pop_value() {
            Err(e) => return Err(e),
            Ok(v) => v,
        };
        match boxed_tuple {
            BoxedValue::Struct(a) => match a.field(idx) {
                Some(c) => self.write_cell(c, val),
                None => Err(Fault::OutOfBounds),
            },
            _ => Err(Fault::TypeMismatch),
        }
    }

    /// Pops a record and pushes the place of its field `idx`.
    pub fn o_tuple_get(&mut self, idx: usize) -> (r: Result<(), Fault>)
        ensures
            agrees(r, final(self)@, op_tuple_get(old(self).prog(), old(self)@, idx)),
            final(self).program == old(self).program,
    {
        let val = match self.pop_value() {
            Err(e) => return Err(e),
            Ok(v) => v,
        };
        match val {
            BoxedValue::Struct(a) => match a.field(idx) {
                Some(c) => {
                    self.push_entry(StackVal::Ref(c));
                    Ok(())
                },
                None => Err(Fault::OutOfBounds),
            },
            _ => Err(Fault::TypeMismatch),
        }
    }

    fn o_use(&mut self) -> (r: Result<(), Fault>)
        ensures
            agrees(r, final(self)@, op_use(old(self)@)),
            final(self).program == old(self).program,
    {
        let sv = match self.pop_entry() {
            Err(e) => return Err(e),
            Ok(sv) => sv,
        };
        match self.read_entry(sv) {
            Err(e) => Err(e),
            Ok(v) => {
                self.push_entry(StackVal::Owned(v));
                Ok(())
            },
        }
    }

    /// Take address: the place on top becomes a pointer value.
    pub fn o_ref(&mut self) -> (r: Result<(), Fault>)
        ensures
            agrees(r, final(self)@, op_ref(old(self)@)),
            final(self).program == old(self).program,
    {
        let sv = match self.pop_entry() {
            Err(e) => return Err(e),
            Ok(sv) => sv,
        };
        match sv {
            StackVal::Ref(_) => {
                self.push_entry(sv.into_pointer());
                Ok(())
            },
            StackVal::Owned(_) => Err(Fault::TypeMismatch),
        }
    }

    /// Dereference: the pointer value on top becomes the place it points to.
    pub fn o_deref(&mut self) -> (r: Result<(), Fault>)
        ensures
            agrees(r, final(self)@, op_deref(old(self)@)),
            final(self).program == old(self).program,
    {
        let sv = match self.pop_entry() {
            Err(e) => return Err(e),
            Ok(sv) => sv,
        };
        match self.read_entry(sv) {
            Err(e) => Err(e),
            Ok(BoxedValue::Ptr(_)) => {
                let place = sv.deref(&self.heap);
                self.push_entry(place);
                Ok(())
            },
            Ok(_) => Err(Fault::TypeMismatch),
        }
    }

    /// Pushes the place of local `local_idx`.
    pub fn o_load(&mut self, local_idx: usize) -> (r: Result<(), Fault>)
        ensures
            agrees(r, final(self)@, op_load(old(self)@, local_idx)),
            final(self).program == old(self).program,
    {
        match self.local_cell(local_idx) {
            Err(e) => Err(e),
            Ok(c) => {
                self.push_entry(StackVal::Ref(c));
                Ok(())
            },
        }
    }

    /// Pops an owned value into local `local_idx`.
    pub fn o_store(&mut self, local_idx: usize) -> (r: Result<(), Fault>)
        ensures
            agrees(r, final(self)@, op_store(old(self)@, local_idx)),
            final(self).program == old(self).program,
    {
        let sv = match self.pop_entry() {
            Err(e) => return Err(e),
            Ok(sv) => sv,
        };
        match sv {
            StackVal::Ref(_) => Err(Fault::TypeMismatch),
            StackVal::Owned(_) => match self.local_cell(local_idx) {
                Err(e) => Err(e),
                Ok(c) => self.write_cell(c, sv.unwrap_value()),
            },
        }
    }

    /// Pops a record and an index and pushes the place of that element.
    pub fn o_get_index(&mut self) -> (r: Result<(), Fault>)
        ensures
            agrees(r, final(self)@, op_get_index(old(self).prog(), old(self)@)),
            final(self).program == old(self).program,
    {
        let target = match self.pop_value() {
            Err(e) => return Err(e),
            Ok(v) => v,
        };
        let index = match self.pop_value() {
            Err(e) => return Err(e),
            Ok(v) => v,
        };
        match (target, index) {
            (BoxedValue::Struct(a), BoxedValue::Usize(idx)) => match a.field(idx) {
                Some(c) => {
                    self.push_entry(StackVal::Ref(c));
                    Ok(())
                },
                None => Err(Fault::OutOfBounds),
            },
            _ => Err(Fault::TypeMismatch),
        }
    }

    /// Pops a record, an index and a value, and writes the value there.
    pub fn o_assign_index(&mut self) -> (r: Result<(), Fault>)
        ensures
            agrees(r, final(self)@, op_assign_index(old(self).prog(), old(self)@)),
            final(self).program == old(self).program,
    {
        let target = match self.pop_value() {
            Err(e) => return Err(e),
            Ok(v) => v,
        };
        let index = match self.pop_value() {
            Err(e) => return Err(e),
            Ok(v) => v,
        };
        let val = match self.pop_value() {
            Err(e) => return Err(e),
            Ok(v) => v,
        };
        match (target, index) {
            (BoxedValue::Struct(a), BoxedValue::Usize(idx)) => match a.field(idx) {
                Some(c) => self.write_cell(c, val),
                None => Err(Fault::OutOfBounds),
            },
            _ => Err(Fault::TypeMismatch),
        }
    }

    /// Builds an array of `size` popped values, the last popped first.
    pub fn o_array(&mut self, size: usize) -> (r: Result<(), Fault>)
        ensures
            agrees(r, final(self)@, op_array(old(self).prog(), old(self)@, size)),
            final(self).program == old(self).program,
    {
        let base = self.alloc_cells(size);
        let ghost filled = self@;
        let mut k: usize = size;
        while k > 0
            invariant
                k <= size,
                self.program == old(self).program,
                filled == old(self)@.with_cells(size as nat),
                base == old(self)@.heap.len(),
                fill(self.prog(), self@, base, k as nat) == fill(self.prog(), filled, base, size as nat),
            decreases k,
        {
            let val = match self.pop_value() {
                Err(e) => return Err(e),
                Ok(v) => v,
            };
            if base > usize::MAX - (k - 1) {
                return Err(Fault::OutOfBounds);
            }
            match self.write_cell(base + (k - 1), val) {
                Err(e) => return Err(e),
                Ok(()) => {},
            }
            k = k - 1;
        }
        self.push_entry(StackVal::Owned(BoxedValue::Struct(Aggregate { base, len: size })));
        Ok(())
    }

    /// Builds an array of `size` copies of the popped value.
    pub fn o_repeat(&mut self, size: usize) -> (r: Result<(), Fault>)
        ensures
            agrees(r, final(self)@, op_repeat(old(self).prog(), old(self)@, size)),
            final(self).program == old(self).program,
    {
        let val = match self.pop_value() {
            Err(e) => return Err(e),
            Ok(v) => v,
        };
        let ghost popped = self@;
        let base = self.heap.len();
        let mut i: usize = 0;
        while i < size
            invariant
                i <= size,
                base == popped.heap.len(),
                self.heap@ =~= popped.heap + Seq::new(i as nat, |j: int| val),
                self.stack@ == popped.stack,
                self.stack_frames@.map_values(|f: CallFrame| f@) == popped.frames,
                self.program == old(self).program,
            decreases size - i,
        {
            self.heap.push(val);
            i = i + 1;
        }
        self.push_entry(StackVal::Owned(BoxedValue::Struct(Aggregate { base, len: size })));
        Ok(())
    }

    /// Pops a record and pushes its length.
    pub fn o_len(&mut self) -> (r: Result<(), Fault>)
        ensures
            agrees(r, final(self)@, op_len(old(self).prog(), old(self)@)),
            final(self).program == old(self).program,
    {
        match self.pop_value() {
            Err(e) => Err(e),
            Ok(BoxedValue::Struct(a)) => {
                self.push_entry(StackVal::Owned(BoxedValue::Usize(a.len)));
                Ok(())
            },
            Ok(_) => Err(Fault::TypeMismatch),
        }
    }

    fn do_binop(&mut self, kind: BinOp) -> (r: Result<BoxedValue, Fault>)
        ensures
            yields(r, final(self)@, binop_of(old(self).prog(), old(self)@, kind)),
            final(self).program == old(self).program,
    {
        let right = match self.pop_value() {
            Err(e) => return Err(e),
            Ok(v) => v,
        };
        let left = match self.pop_value() {
            Err(e) => return Err(e),
            Ok(v) => v,
        };
        eval_binop(kind, left, right)
    }

    pub fn o_binop(&mut self, kind: BinOp) -> (r: Result<(), Fault>)
        ensures
            agrees(r, final(self)@, op_binop(old(self).prog(), old(self)@, kind)),
            final(self).program == old(self).program,
    {
        match self.do_binop(kind) {
            Err(e) => Err(e),
            Ok(v) => {
                self.push_entry(StackVal::Owned(v));
                Ok(())
            },
        }
    }

    /// Pushes the record `(result, false)`: overflow is never reported.
    pub fn o_checked_binop(&mut self, kind: BinOp) -> (r: Result<(), Fault>)
        ensures
            agrees(r, final(self)@, op_checked_binop(old(self).prog(), old(self)@, kind)),
            final(self).program == old(self).program,
    {
        match self.do_binop(kind) {
            Err(e) => Err(e),
            Ok(v) => {
                let base = self.heap.len();
                self.heap.push(v);
                self.heap.push(BoxedValue::Bool(false));
                self.push_entry(StackVal::Owned(BoxedValue::Struct(Aggregate { base, len: 2 })));
                Ok(())
            },
        }
    }

    pub fn o_not(&mut self) -> (r: Result<(), Fault>)
        ensures
            agrees(r, final(self)@, op_not(old(self).prog(), old(self)@)),
            final(self).program == old(self).program,
    {
        match self.pop_value() {
            Err(e) => Err(e),
            Ok(BoxedValue::Bool(b)) => {
                self.push_entry(StackVal::Owned(BoxedValue::Bool(!b)));
                Ok(())
            },
            Ok(_) => Err(Fault::TypeMismatch),
        }
    }

    /// Runs one data opcode.
    pub fn exec_data(&mut self, opcode: OpCode) -> (r: Result<(), Fault>)
        ensures
            agrees(r, final(self)@, data_step(old(self).prog(), old(self)@, opcode)),
            final(self).program == old(self).program,
    {
        match opcode {
            OpCode::ConstValue(v) => {
                self.push_entry(StackVal::Owned(v));
                Ok(())
            },
            OpCode::Tuple(n) => {
                self.o_tuple(n);
                Ok(())
            },
            OpCode::TupleInit(i) => self.o_tuple_init(i),
            OpCode::TupleGet(i) => self.o_tuple_get(i),
            OpCode::TupleSet(i) => self.o_tuple_set(i),
            OpCode::Unsize | OpCode::Use => self.o_use(),
            OpCode::Ref => self.o_ref(),
            OpCode::Deref => self.o_deref(),
            OpCode::Load(i) => self.o_load(i),
            OpCode::Store(i) => self.o_store(i),
            OpCode::GetIndex => self.o_get_index(),
            OpCode::AssignIndex => self.o_assign_index(),
            OpCode::Array(n) => self.o_array(n),
            OpCode::Repeat(n) => self.o_repeat(n),
            OpCode::Len => self.o_len(),
            OpCode::BinOp(k) => self.o_binop(k),
            OpCode::CheckedBinOp(k) => self.o_checked_binop(k),
            OpCode::Not => self.o_not(),
            OpCode::Noop => Ok(()),
            OpCode::Pop => match self.pop_entry() {
                Err(e) => Err(e),
                Ok(_) => Ok(()),
            },
            OpCode::Panic => Err(Fault::Panic),
            _ => Err(Fault::Unsupported),
        }
    }
    /// Calls the function whose reference is on top of the stack; yields its
    /// index. The callee resumes the caller after `cur_pc`.
    pub fn o_call(&mut self, cur_func: usize, cur_pc: usize) -> (r: Result<usize, Fault>)
        ensures
            yields(
                r,
                final(self)@,
                op_call(old(self).prog(), old(self)@, InstructionPointer { func: cur_func, pc: cur_pc }),
            ),
            final(self).program == old(self).program,
    {
        let sv = match self.pop_entry() {
            Err(e) => return Err(e),
            Ok(sv) => sv,
        };
        let idx = match self.read_entry(sv) {
            Err(e) => return Err(e),
            Ok(BoxedValue::Func(idx)) => idx,
            Ok(_) => return Err(Fault::TypeMismatch),
        };
        if idx >= self.program.len() {
            return Err(Fault::BadFunction);
        }
        let args = self.program[idx].args;
        let nlocals = self.program[idx].locals;
        if args > nlocals {
            return Err(Fault::BadLocal);
        }
        if cur_pc == usize::MAX {
            return Err(Fault::BadJump);
        }
        let ret = InstructionPointer { func: cur_func, pc: cur_pc + 1 };
        let base = self.alloc_cells(nlocals);
        let ghost allocated = self@;
        let top = self.heap.len();
        let mut locals: Vec<CellId> = Vec::new();
        let mut i: usize = 0;
        while i < nlocals
            invariant
                i <= nlocals,
                top == base + nlocals,
                locals@ =~= cell_range(base as nat, i as nat),
            decreases nlocals - i,
        {
            locals.push(base + i);
            i = i + 1;
        }
        let ghost ip = InstructionPointer { func: cur_func, pc: cur_pc };
        assert(match bind_args(allocated, cell_range(base as nat, nlocals as nat), args as nat) {
            Err(e) => op_call(old(self).prog(), old(self)@, ip) == Err::<(usize, VmState), Fault>(e),
            Ok(_) => true,
        });
        let mut k: usize = args;
        while k > 0
            invariant
                k <= args <= nlocals,
                ip == (InstructionPointer { func: cur_func, pc: cur_pc }),
                match bind_args(allocated, cell_range(base as nat, nlocals as nat), args as nat) {
                    Err(e) => op_call(old(self).prog(), old(self)@, ip) == Err::<(usize, VmState), Fault>(e),
                    Ok(_) => true,
                },
                locals@.len() == nlocals,
                self.program == old(self).program,
                bind_args(self@, locals@, k as nat) == bind_args(
                    allocated,
                    cell_range(base as nat, nlocals as nat),
                    args as nat,
                ),
            decreases k,
        {
            let ghost head = self@;
            let sv = match self.pop_entry() {
                Err(e) => {
                    assert(bind_args(head, locals@, k as nat) == Err::<(VmState, Seq<CellId>), Fault>(e));
                    return Err(e);
                },
                Ok(sv) => sv,
            };
            let ghost before = self@;
            match sv {
                StackVal::Owned(v) => {
                    let c = self.heap.len();
                    self.heap.push(v);
                    locals.set(k - 1, c);
                    assert(self@ == VmState { heap: before.heap.push(v), ..before });
                },
                StackVal::Ref(c) => {
                    locals.set(k - 1, c);
                },
            }
            k = k - 1;
        }
        let ghost bound = self@;
        let frame = CallFrame { locals, return_addr: Some(ret) };
        self.stack_frames.push(frame);
        assert(self@.frames =~= bound.frames.push(frame@));
        Ok(idx)
    }

    /// Calls function `static_idx` with a frame without locals.
    pub fn o_load_static(&mut self, static_idx: usize, cur_func: usize, cur_pc: usize) -> (r: Result<usize, Fault>)
        ensures
            agrees(
                match r {
                    Ok(_) => Ok(()),
                    Err(e) => Err(e),
                },
                final(self)@,
                op_static(old(self).prog(), old(self)@, static_idx, InstructionPointer { func: cur_func, pc: cur_pc }),
            ),
            r is Ok ==> r == Ok::<usize, Fault>(static_idx),
            final(self).program == old(self).program,
    {
        if static_idx >= self.program.len() {
            return Err(Fault::BadFunction);
        }
        if cur_pc == usize::MAX {
            return Err(Fault::BadJump);
        }
        let ret = InstructionPointer { func: cur_func, pc: cur_pc + 1 };
        let frame = CallFrame { locals: Vec::new(), return_addr: Some(ret) };
        let ghost before = self@;
        self.stack_frames.push(frame);
        assert(self@.frames =~= before.frames.push(frame@));
        assert(frame@.locals =~= Seq::<CellId>::empty());
        Ok(static_idx)
    }

    /// Pops the active frame; yields where to resume, if anywhere.
    pub fn o_return(&mut self) -> (r: Option<InstructionPointer>)
        ensures
            (final(self)@, r) == op_return(old(self)@),
            final(self).program == old(self).program,
    {
        let ghost before = self@;
        match self.stack_frames.pop() {
            Some(frame) => {
                assert(self@.frames =~= before.frames.drop_last());
                frame.return_addr
            },
            None => None,
        }
    }

    /// Runs one opcode at `pos` and says where control goes next.
    pub fn dispatch(&mut self, opcode: OpCode, pos: InstructionPointer) -> (r: Result<Flow, Fault>)
        ensures
            yields(r, final(self)@, step(old(self).prog(), old(self)@, opcode, pos)),
            final(self).program == old(self).program,
    {
        match opcode {
            OpCode::Call => match self.o_call(pos.func, pos.pc) {
                Err(e) => Err(e),
                Ok(idx) => Ok(Flow::Call(idx, 0)),
            },
            OpCode::Static(idx) => match self.o_load_static(idx, pos.func, pos.pc) {
                Err(e) => Err(e),
                Ok(f) => Ok(Flow::Call(f, 0)),
            },
            OpCode::Return => match self.o_return() {
                Some(ret) => Ok(Flow::Call(ret.func, ret.pc)),
                None => Ok(Flow::Stop),
            },
            OpCode::Skip(n) => if pos.pc <= usize::MAX - n {
                Ok(Flow::Jump(pos.pc + n))
            } else {
                Err(Fault::BadJump)
            },
            OpCode::JumpBack(n) => if n <= pos.pc {
                Ok(Flow::Jump(pos.pc - n))
            } else {
                Err(Fault::BadJump)
            },
            OpCode::SkipIf(n) => match self.pop_value() {
                Err(e) => Err(e),
                Ok(BoxedValue::Bool(b)) => if !b {
                    Ok(Flow::Next)
                } else if pos.pc <= usize::MAX - n {
                    Ok(Flow::Jump(pos.pc + n))
                } else {
                    Err(Fault::BadJump)
                },
                Ok(_) => Err(Fault::TypeMismatch),
            },
            OpCode::JumpBackIf(n) => match self.pop_value() {
                Err(e) => Err(e),
                Ok(BoxedValue::Bool(b)) => if !b {
                    Ok(Flow::Next)
                } else if n <= pos.pc {
                    Ok(Flow::Jump(pos.pc - n))
                } else {
                    Err(Fault::BadJump)
                },
                Ok(_) => Err(Fault::TypeMismatch),
            },
            _ => match self.exec_data(opcode) {
                Err(e) => Err(e),
                Ok(()) => Ok(Flow::Next),
            },
        }
    }
    /// The opcode at `(func, pc)`.
    fn fetch_op(&self, func: usize, pc: usize) -> (r: Option<OpCode>)
        ensures
            r == fetch(self.prog(), func, pc),
            r is Some ==> pc < usize::MAX,
    {
        if func < self.program.len() && pc < self.program[func].code.len() {
            Some(self.program[func].code[pc])
        } else {
            None
        }
    }

    /// Interprets from `start` in recording mode, recording every opcode
    /// into `tracer` before it runs, until a jump lands before `start`. At
    /// most `fuel` opcodes run.
    pub fn trace(&mut self, tracer: &mut Tracer, start: InstructionPointer, fuel: usize) -> (r: Result<(), Fault>)
        requires
            old(tracer).wf(),
            old(tracer).active is Some,
        ensures
            final(self).program == old(self).program,
            final(tracer).wf(),
            final(tracer).active is Some,
            final(tracer).counter@ == old(tracer).counter@,
            final(tracer).traces@ == old(tracer).traces@,
            final(tracer).loop_start == old(tracer).loop_start,
            match record_run(old(self).prog(), old(self)@, old(tracer).active->Some_0@, start.func, start.pc, start.pc, fuel as nat) {
                Ok((s, buf)) => r is Ok && final(self)@ == s && final(tracer).active->Some_0@ == buf,
                Err(e) => r == Err::<(), Fault>(e),
            },
    {
        let mut pc: usize = start.pc;
        let mut func_pointer: usize = start.func;
        let mut fuel_left: usize = fuel;
        loop
            invariant
                self.program == old(self).program,
                tracer.wf(),
                tracer.active is Some,
                tracer.counter@ == old(tracer).counter@,
                tracer.traces@ == old(tracer).traces@,
                tracer.loop_start == old(tracer).loop_start,
                record_run(self.prog(), self@, tracer.active->Some_0@, func_pointer, pc, start.pc, fuel_left as nat)
                    == record_run(old(self).prog(), old(self)@, old(tracer).active->Some_0@, start.func, start.pc, start.pc, fuel as nat),
            decreases fuel_left,
        {
            if fuel_left == 0 {
                return Err(Fault::OutOfFuel);
            }
            let opcode = match self.fetch_op(func_pointer, pc) {
                Some(op) => op,
                None => return Err(Fault::BadJump),
            };
            let pos = InstructionPointer { func: func_pointer, pc };
            match tracer.trace_opcode(self, opcode, pos) {
                Err(e) => return Err(e),
                Ok(()) => {},
            }
            fuel_left = fuel_left - 1;
            match self.dispatch(opcode, pos) {
                Err(e) => return Err(e),
                Ok(Flow::Next) => {
                    pc = pc + 1;
                },
                Ok(Flow::Jump(new_pc)) => {
                    if new_pc < start.pc {
                        return Ok(());
                    }
                    pc = new_pc;
                },
                Ok(Flow::Call(func, new_pc)) => {
                    func_pointer = func;
                    pc = new_pc;
                },
                Ok(Flow::Stop) => return Err(Fault::Stopped),
            }
        }
    }

    /// Recovery after a failed guard: interprets from `start.pc` in the
    /// function of `stop` until the program counter is before `stop.pc`
    /// (when `start` and `stop` are in one function) or a jump lands before
    /// `start.pc`. At most `fuel` opcodes run.
    pub fn blackhole(&mut self, start: InstructionPointer, stop: InstructionPointer, fuel: usize) -> (r: Result<(), Fault>)
        ensures
            final(self).program == old(self).program,
            agrees(
                r,
                final(self)@,
                resync(old(self).prog(), old(self)@, stop.func, start.pc, start.pc, start.func == stop.func, stop.pc, fuel as nat),
            ),
    {
        let mut pc: usize = start.pc;
        let mut func_pointer: usize = stop.func;
        let mut fuel_left: usize = fuel;
        let check_stop = start.func == stop.func;
        loop
            invariant
                self.program == old(self).program,
                check_stop == (start.func == stop.func),
                resync(self.prog(), self@, func_pointer, pc, start.pc, check_stop, stop.pc, fuel_left as nat)
                    == resync(old(self).prog(), old(self)@, stop.func, start.pc, start.pc, check_stop, stop.pc, fuel as nat),
            decreases fuel_left,
        {
            if check_stop && pc < stop.pc {
                return Ok(());
            }
            if fuel_left == 0 {
                return Err(Fault::OutOfFuel);
            }
            let opcode = match self.fetch_op(func_pointer, pc) {
                Some(op) => op,
                None => return Err(Fault::BadJump),
            };
            fuel_left = fuel_left - 1;
            match self.dispatch(opcode, InstructionPointer { func: func_pointer, pc }) {
                Err(e) => return Err(e),
                Ok(Flow::Next) => {
                    pc = pc + 1;
                },
                Ok(Flow::Jump(new_pc)) => {
                    if new_pc < start.pc {
                        return Ok(());
                    }
                    pc = new_pc;
                },
                Ok(Flow::Call(func, new_pc)) => {
                    func_pointer = func;
                    pc = new_pc;
                },
                Ok(Flow::Stop) => return Err(Fault::Stopped),
            }
        }
    }

    /// Runs a trace round and round until a guard fails; yields that guard.
    /// A guard leaves its boolean on the stack when it fails, so that
    /// recovery branches on the same value. At most `fuel` opcodes run.
    pub fn run_trace(&mut self, trace: &Vec<OpCode>, fuel: usize) -> (r: Result<Guard, Fault>)
        ensures
            final(self).program == old(self).program,
            yields(r, final(self)@, replay(old(self).prog(), old(self)@, trace@, 0, fuel as nat)),
    {
        if trace.len() == 0 {
            return Err(Fault::EmptyTrace);
        }
        let mut pc: usize = 0;
        let mut fuel_left: usize = fuel;
        loop
            invariant
                self.program == old(self).program,
                trace@.len() > 0,
                replay(self.prog(), self@, trace@, pc, fuel_left as nat) == replay(old(self).prog(), old(self)@, trace@, 0, fuel as nat),
            decreases fuel_left,
        {
            if fuel_left == 0 {
                return Err(Fault::OutOfFuel);
            }
            fuel_left = fuel_left - 1;
            if pc >= trace.len() {
                pc = 0;
            }
            let opcode = trace[pc];
            match opcode {
                OpCode::Guard(guard) => {
                    match self.peek_value() {
                        Err(e) => return Err(e),
                        Ok(BoxedValue::Bool(value)) => {
                            if value == guard.expected {
                                let ghost before = self@;
                                self.stack.pop();
                                assert(self@ == VmState { stack: before.stack.drop_last(), ..before });
                            } else {
                                return Ok(guard);
                            }
                        },
                        Ok(_) => return Err(Fault::TypeMismatch),
                    }
                },
                OpCode::Skip(n) => {
                    if pc > usize::MAX - n {
                        return Err(Fault::BadJump);
                    }
                    pc = pc + n;
                    continue;
                },
                OpCode::JumpBack(n) => {
                    if n > pc {
                        return Err(Fault::BadJump);
                    }
                    pc = pc - n;
                    continue;
                },
                OpCode::SkipIf(n) => {
                    match self.pop_value() {
                        Err(e) => return Err(e),
                        Ok(BoxedValue::Bool(b)) => {
                            if b {
                                if pc > usize::MAX - n {
                                    return Err(Fault::BadJump);
                                }
                                pc = pc + n;
                                continue;
                            }
                        },
                        Ok(_) => return Err(Fault::TypeMismatch),
                    }
                },
                OpCode::JumpBackIf(n) => {
                    match self.pop_value() {
                        Err(e) => return Err(e),
                        Ok(BoxedValue::Bool(b)) => {
                            if b {
                                if n > pc {
                                    return Err(Fault::BadJump);
                                }
                                pc = pc - n;
                                continue;
                            }
                        },
                        Ok(_) => return Err(Fault::TypeMismatch),
                    }
                },
                _ => {
                    match self.exec_data(opcode) {
                        Err(e) => return Err(e),
                        Ok(()) => {},
                    }
                },
            }
            pc = pc + 1;
        }
    }
}

} // verus!
