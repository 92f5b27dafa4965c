//! The instruction set: opcodes, guards, program locations and functions.
use vstd::prelude::*;
use crate::value::{BoxedValue, CellId};

verus! {

/// Binary operators.
#[derive(Debug, Clone, Copy, PartialEq, Eq, Structural)]
pub enum BinOp {
    Add,
    Sub,
    Mul,
    Div,
    Rem,
    BitXor,
    BitAnd,
    BitOr,
    Shl,
    Shr,
    Eq,
    Ne,
    Lt,
    Le,
    Gt,
    Ge,
}

/// A program location: a function index and an opcode index in it.
#[derive(Debug, Clone, Copy, PartialEq, Eq, Structural)]
pub struct InstructionPointer {
    pub func: usize,
    pub pc: usize,
}

/// A recorded branch outcome and where to resume when it no longer holds.
#[derive(Debug, Clone, Copy, PartialEq, Eq, Structural)]
pub struct Guard {
    pub expected: bool,
    pub recovery: InstructionPointer,
}

#[derive(Debug, Clone, Copy, PartialEq, Eq, Structural)]
pub enum OpCode {
    Panic,
    ConstValue(BoxedValue),
    Tuple(usize),
    TupleInit(usize),
    TupleGet(usize),
    TupleSet(usize),
    Unsize,
    Use,
    Ref,
    Deref,
    Load(usize),
    Store(usize),
    Call,
    Static(usize),
    Return,
    Skip(usize),
    JumpBack(usize),
    SkipIf(usize),
    JumpBackIf(usize),
    GetIndex,
    AssignIndex,
    Array(usize),
    Repeat(usize),
    Len,
    BinOp(BinOp),
    CheckedBinOp(BinOp),
    Not,
    Neg,
    Noop,
    Pop,
    Guard(Guard),
}

/// A function of the program: how many arguments it takes, how many local
/// slots its frame has, and its code.
pub struct Function {
    pub args: usize,
    pub locals: usize,
    pub code: Vec<OpCode>,
}

/// What a function is, as the interpreter's contracts see it.
pub struct FnView {
    pub args: usize,
    pub locals: usize,
    pub code: Seq<OpCode>,
}

impl View for Function {
    type V = FnView;

    open spec fn view(&self) -> FnView {
        FnView { args: self.args, locals: self.locals, code: self.code@ }
    }
}

/// An activation record: the cells of the locals and where to resume the
/// caller (none for the outermost frame).
pub struct CallFrame {
    pub locals: Vec<CellId>,
    pub return_addr: Option<InstructionPointer>,
}

/// What a frame is, as the interpreter's contracts see it.
pub struct FrameView {
    pub locals: Seq<CellId>,
    pub return_addr: Option<InstructionPointer>,
}

impl View for CallFrame {
    type V = FrameView;

    open spec fn view(&self) -> FrameView {
        FrameView { locals: self.locals@, return_addr: self.return_addr }
    }
}

} // verus!
