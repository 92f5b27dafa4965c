//! Why an interpreter invocation was aborted.
use vstd::prelude::*;

verus! {

/// A fatal fault: the program is malformed for the operation at hand.
#[derive(Debug, Clone, Copy, PartialEq, Eq, Structural)]
pub enum Fault {
    /// An operand was needed and the stack was empty.
    StackUnderflow,
    /// A frame was needed and there was none.
    NoFrame,
    /// A local slot outside the frame.
    BadLocal,
    /// A place whose cell does not exist.
    DanglingCell,
    /// An operand of the wrong kind, or a place where a value was needed.
    TypeMismatch,
    /// A field or element index outside the aggregate.
    OutOfBounds,
    /// A function index outside the program.
    BadFunction,
    /// A deferred constant whose function does not start with a constant.
    BadConstant,
    /// Division or remainder by zero, a quotient that does not fit, or a
    /// shift by at least the width.
    Arithmetic,
    /// A jump or a resume point outside the code.
    BadJump,
    /// An opcode this engine does not execute here.
    Unsupported,
    /// The `Panic` opcode.
    Panic,
    /// The outermost frame returned while a loop was being run.
    Stopped,
    /// The step budget ran out.
    OutOfFuel,
    /// An opcode was recorded while no recording was in flight.
    NotRecording,
    /// A trace without opcodes.
    EmptyTrace,
}

} // verus!
