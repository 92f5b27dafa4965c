use grass::binop::eval_binop;
use grass::bytecode::{BinOp, CallFrame, Function, InstructionPointer, OpCode};
use grass::fault::Fault;
use grass::interp::Interpreter;
use grass::machine::Flow;
use grass::opt::eliminate_unused_vars;
use grass::value::{Aggregate, BoxedValue, StackVal};

fn machine(code: Vec<OpCode>, locals: usize) -> Interpreter {
    let mut interp = Interpreter::new(vec![Function { args: 0, locals, code }]);
    let mut cells = vec![];
    for _ in 0..locals {
        cells.push(interp.heap.len());
        interp.heap.push(BoxedValue::Usize(0));
    }
    interp.stack_frames.push(CallFrame { locals: cells, return_addr: None });
    interp
}

fn run(interp: &mut Interpreter, ops: &[OpCode]) -> Result<(), Fault> {
    for (i, op) in ops.iter().enumerate() {
        interp.dispatch(*op, InstructionPointer { func: 0, pc: i })?;
    }
    Ok(())
}

#[test]
fn place_and_value_transitions() {
    let mut heap = vec![BoxedValue::I64(-4)];
    let place = StackVal::Ref(0);
    assert_eq!(place.into_owned(&heap), StackVal::Owned(BoxedValue::I64(-4)));
    let ptr = place.into_pointer();
    assert_eq!(ptr, StackVal::Owned(BoxedValue::Ptr(0)));
    assert_eq!(ptr.deref(&heap), StackVal::Ref(0));
    let promoted = StackVal::Owned(BoxedValue::Bool(true)).into_cell(&mut heap);
    assert_eq!(promoted, StackVal::Ref(1));
    assert_eq!(heap[1], BoxedValue::Bool(true));
    assert_eq!(place.into_cell(&mut heap), place);
    assert_eq!(heap.len(), 2);
    assert_eq!(StackVal::Owned(BoxedValue::U64(3)).unwrap_value(), BoxedValue::U64(3));
    assert_eq!(StackVal::Ref(1).unwrap_cell(), 1);
}

#[test]
fn integer_operators_wrap() {
    assert_eq!(eval_binop(BinOp::Add, BoxedValue::U64(u64::MAX), BoxedValue::U64(2)), Ok(BoxedValue::U64(1)));
    assert_eq!(eval_binop(BinOp::Sub, BoxedValue::Usize(0), BoxedValue::Usize(1)), Ok(BoxedValue::Usize(usize::MAX)));
    assert_eq!(eval_binop(BinOp::Mul, BoxedValue::I64(i64::MAX), BoxedValue::I64(2)), Ok(BoxedValue::I64(-2)));
    assert_eq!(eval_binop(BinOp::Div, BoxedValue::I64(-7), BoxedValue::I64(2)), Ok(BoxedValue::I64(-3)));
    assert_eq!(eval_binop(BinOp::Rem, BoxedValue::I64(-7), BoxedValue::I64(2)), Ok(BoxedValue::I64(-1)));
    assert_eq!(eval_binop(BinOp::Shl, BoxedValue::U64(1), BoxedValue::U64(4)), Ok(BoxedValue::U64(16)));
    assert_eq!(eval_binop(BinOp::Shr, BoxedValue::I64(-16), BoxedValue::I64(2)), Ok(BoxedValue::I64(-4)));
    assert_eq!(eval_binop(BinOp::BitXor, BoxedValue::U64(6), BoxedValue::U64(3)), Ok(BoxedValue::U64(5)));
    assert_eq!(eval_binop(BinOp::BitAnd, BoxedValue::Usize(6), BoxedValue::Usize(3)), Ok(BoxedValue::Usize(2)));
    assert_eq!(eval_binop(BinOp::BitOr, BoxedValue::I64(4), BoxedValue::I64(1)), Ok(BoxedValue::I64(5)));
    assert_eq!(eval_binop(BinOp::Le, BoxedValue::I64(-1), BoxedValue::I64(0)), Ok(BoxedValue::Bool(true)));
    assert_eq!(eval_binop(BinOp::Ne, BoxedValue::U64(2), BoxedValue::U64(2)), Ok(BoxedValue::Bool(false)));
}

#[test]
fn operator_faults() {
    assert_eq!(eval_binop(BinOp::Div, BoxedValue::U64(1), BoxedValue::U64(0)), Err(Fault::Arithmetic));
    assert_eq!(eval_binop(BinOp::Div, BoxedValue::I64(i64::MIN), BoxedValue::I64(-1)), Err(Fault::Arithmetic));
    assert_eq!(eval_binop(BinOp::Shl, BoxedValue::U64(1), BoxedValue::U64(64)), Err(Fault::Arithmetic));
    assert_eq!(eval_binop(BinOp::Add, BoxedValue::U64(1), BoxedValue::I64(1)), Err(Fault::TypeMismatch));
    assert_eq!(eval_binop(BinOp::Add, BoxedValue::Bool(true), BoxedValue::Bool(true)), Err(Fault::TypeMismatch));
}

#[test]
fn boolean_operators_order_false_before_true() {
    assert_eq!(eval_binop(BinOp::Lt, BoxedValue::Bool(false), BoxedValue::Bool(true)), Ok(BoxedValue::Bool(true)));
    assert_eq!(eval_binop(BinOp::Ge, BoxedValue::Bool(false), BoxedValue::Bool(true)), Ok(BoxedValue::Bool(false)));
    assert_eq!(eval_binop(BinOp::BitXor, BoxedValue::Bool(true), BoxedValue::Bool(true)), Ok(BoxedValue::Bool(false)));
}

#[test]
fn checked_operator_never_reports_overflow() {
    let mut m = machine(vec![], 0);
    let ops = [
        OpCode::ConstValue(BoxedValue::U64(u64::MAX)),
        OpCode::ConstValue(BoxedValue::U64(1)),
        OpCode::CheckedBinOp(BinOp::Add),
        OpCode::Len,
    ];
    run(&mut m, &ops[..3]).unwrap();
    assert_eq!(m.heap[m.heap.len() - 2..], [BoxedValue::U64(0), BoxedValue::Bool(false)]);
    run(&mut m, &ops[3..]).unwrap();
    assert_eq!(m.pop_value(), Ok(BoxedValue::Usize(2)));
}

#[test]
fn locals_are_stored_by_value_and_loaded_as_places() {
    let mut m = machine(vec![], 2);
    run(&mut m, &[OpCode::ConstValue(BoxedValue::I64(5)), OpCode::Store(1), OpCode::Load(1)]).unwrap();
    assert_eq!(m.stack, vec![StackVal::Ref(1)]);
    // storing a place is a type error
    assert_eq!(m.o_store(0), Err(Fault::TypeMismatch));
    assert_eq!(m.o_load(2), Err(Fault::BadLocal));
    assert_eq!(m.o_store(0), Err(Fault::StackUnderflow));
}

#[test]
fn aggregates_start_zeroed_and_alias_their_fields() {
    let mut m = machine(vec![], 0);
    run(&mut m, &[OpCode::Tuple(2), OpCode::ConstValue(BoxedValue::Bool(true)), OpCode::TupleInit(1)]).unwrap();
    assert_eq!(m.heap, vec![BoxedValue::Usize(0), BoxedValue::Bool(true)]);
    run(&mut m, &[OpCode::Use, OpCode::TupleGet(0), OpCode::Ref, OpCode::Deref]).unwrap();
    assert_eq!(m.stack, vec![StackVal::Ref(0)]);
    assert_eq!(m.o_tuple_init(0), Err(Fault::StackUnderflow));
    let mut m = machine(vec![], 0);
    run(&mut m, &[OpCode::Tuple(1)]).unwrap();
    assert_eq!(m.o_tuple_get(1), Err(Fault::OutOfBounds));
}

#[test]
fn arrays_keep_positional_order() {
    let mut m = machine(vec![], 0);
    let ops = [
        OpCode::ConstValue(BoxedValue::U64(10)),
        OpCode::ConstValue(BoxedValue::U64(20)),
        OpCode::ConstValue(BoxedValue::U64(30)),
        OpCode::Array(3),
    ];
    run(&mut m, &ops).unwrap();
    assert_eq!(m.heap, vec![BoxedValue::U64(10), BoxedValue::U64(20), BoxedValue::U64(30)]);
    assert_eq!(m.stack, vec![StackVal::Owned(BoxedValue::Struct(Aggregate { base: 0, len: 3 }))]);
    // element 1 through an index, then overwritten through an index
    run(&mut m, &[OpCode::ConstValue(BoxedValue::Usize(1)), OpCode::GetIndex]).unwrap_err();
    let mut m = machine(vec![], 0);
    run(&mut m, &ops).unwrap();
    m.stack.insert(0, StackVal::Owned(BoxedValue::Usize(1)));
    m.o_get_index().unwrap();
    assert_eq!(m.pop_value(), Ok(BoxedValue::U64(20)));
    m.stack.push(StackVal::Owned(BoxedValue::U64(99)));
    m.stack.push(StackVal::Owned(BoxedValue::Usize(2)));
    m.stack.push(StackVal::Owned(BoxedValue::Struct(Aggregate { base: 0, len: 3 })));
    m.o_assign_index().unwrap();
    assert_eq!(m.heap[2], BoxedValue::U64(99));
}

#[test]
fn repeat_copies_one_value() {
    let mut m = machine(vec![], 0);
    run(&mut m, &[OpCode::ConstValue(BoxedValue::Bool(false)), OpCode::Repeat(3), OpCode::Len]).unwrap();
    assert_eq!(m.heap, vec![BoxedValue::Bool(false); 3]);
    assert_eq!(m.pop_value(), Ok(BoxedValue::Usize(3)));
    assert_eq!(m.o_len(), Err(Fault::StackUnderflow));
}

#[test]
fn deferred_constants_are_read_through_the_program() {
    let mut m = Interpreter::new(vec![Function { args: 0, locals: 0, code: vec![OpCode::ConstValue(BoxedValue::I64(42))] }]);
    m.stack.push(StackVal::Owned(BoxedValue::Static(0)));
    assert_eq!(m.peek_value(), Ok(BoxedValue::I64(42)));
    assert_eq!(m.load_const(0), Ok(BoxedValue::I64(42)));
    assert_eq!(m.load_const(1), Err(Fault::BadConstant));
    m.stack.push(StackVal::Owned(BoxedValue::Static(3)));
    assert_eq!(m.pop_value(), Err(Fault::BadConstant));
}

#[test]
fn branches_jump_by_relative_distance() {
    let mut m = machine(vec![], 0);
    let at = InstructionPointer { func: 0, pc: 10 };
    assert_eq!(m.dispatch(OpCode::Skip(3), at), Ok(Flow::Jump(13)));
    assert_eq!(m.dispatch(OpCode::JumpBack(4), at), Ok(Flow::Jump(6)));
    assert_eq!(m.dispatch(OpCode::JumpBack(11), at), Err(Fault::BadJump));
    m.stack.push(StackVal::Owned(BoxedValue::Bool(false)));
    assert_eq!(m.dispatch(OpCode::SkipIf(3), at), Ok(Flow::Next));
    m.stack.push(StackVal::Owned(BoxedValue::Bool(true)));
    assert_eq!(m.dispatch(OpCode::JumpBackIf(3), at), Ok(Flow::Jump(7)));
    m.stack.push(StackVal::Owned(BoxedValue::I64(1)));
    assert_eq!(m.dispatch(OpCode::SkipIf(3), at), Err(Fault::TypeMismatch));
    assert_eq!(m.dispatch(OpCode::Panic, at), Err(Fault::Panic));
    assert_eq!(m.dispatch(OpCode::Neg, at), Err(Fault::Unsupported));
}

#[test]
fn calls_bind_arguments_in_order_and_return_after_the_call() {
    let callee = Function { args: 2, locals: 3, code: vec![OpCode::Return] };
    let mut m = Interpreter::new(vec![Function { args: 0, locals: 0, code: vec![] }, callee]);
    m.stack_frames.push(CallFrame { locals: vec![], return_addr: None });
    m.stack.push(StackVal::Owned(BoxedValue::I64(1)));
    m.stack.push(StackVal::Owned(BoxedValue::I64(2)));
    m.stack.push(StackVal::Owned(BoxedValue::Func(1)));
    assert_eq!(m.dispatch(OpCode::Call, InstructionPointer { func: 0, pc: 5 }), Ok(Flow::Call(1, 0)));
    assert_eq!(m.stack_frames.len(), 2);
    assert_eq!(m.stack_ptr(), 1);
    let frame = m.active_frame();
    assert_eq!(m.heap[frame.locals[0]], BoxedValue::I64(1));
    assert_eq!(m.heap[frame.locals[1]], BoxedValue::I64(2));
    assert_eq!(m.heap[frame.locals[2]], BoxedValue::Usize(0));
    assert_eq!(m.dispatch(OpCode::Return, InstructionPointer { func: 1, pc: 0 }), Ok(Flow::Call(0, 6)));
    assert_eq!(m.dispatch(OpCode::Return, InstructionPointer { func: 0, pc: 6 }), Ok(Flow::Stop));
    assert_eq!(m.o_return(), None);
    assert_eq!(m.o_load_static(7, 0, 0), Err(Fault::BadFunction));
    assert_eq!(m.o_load_static(1, 0, 0), Ok(1));
}

#[test]
fn dead_stores_become_pops() {
    let out = eliminate_unused_vars(&vec![OpCode::Noop, OpCode::Store(1), OpCode::Noop]);
    assert_eq!(out, vec![OpCode::Noop, OpCode::Pop, OpCode::Noop]);
}

#[test]
fn live_stores_stay_in_program_order() {
    let p = vec![OpCode::Store(1), OpCode::Load(1), OpCode::Load(1), OpCode::Noop];
    assert_eq!(eliminate_unused_vars(&p), p);
}

#[test]
fn store_then_single_load_collapses() {
    let p = vec![OpCode::Noop, OpCode::Store(2), OpCode::Load(2), OpCode::Noop];
    assert_eq!(eliminate_unused_vars(&p), vec![OpCode::Noop, OpCode::Noop]);
}

#[test]
fn popped_empty_tuple_disappears() {
    let p = vec![OpCode::Tuple(0), OpCode::Pop, OpCode::Tuple(1), OpCode::Pop];
    assert_eq!(eliminate_unused_vars(&p), vec![OpCode::Tuple(1), OpCode::Pop]);
    // a dead store of an empty tuple leaves nothing
    assert_eq!(eliminate_unused_vars(&vec![OpCode::Tuple(0), OpCode::Store(0)]), vec![]);
}

#[test]
fn optimizing_twice_is_optimizing_once_on_these_programs() {
    let programs = vec![
        vec![],
        vec![OpCode::Tuple(0), OpCode::Tuple(0), OpCode::Pop, OpCode::Pop],
        vec![OpCode::Load(0), OpCode::Store(1), OpCode::Load(1), OpCode::Load(1)],
        vec![OpCode::Tuple(0), OpCode::Store(3), OpCode::Noop],
    ];
    for p in programs {
        let once = eliminate_unused_vars(&p);
        assert_eq!(eliminate_unused_vars(&once), once);
    }
}

#[test]
fn optimized_program_computes_the_same_result() {
    let p = vec![
        OpCode::ConstValue(BoxedValue::I64(5)),
        OpCode::Store(1),
        OpCode::ConstValue(BoxedValue::I64(7)),
        OpCode::Store(0),
        OpCode::Load(0),
        OpCode::Use,
        OpCode::ConstValue(BoxedValue::I64(1)),
        OpCode::BinOp(BinOp::Add),
        OpCode::Store(0),
        OpCode::Load(0),
    ];
    let q = eliminate_unused_vars(&p);
    assert!(q.contains(&OpCode::Pop));
    assert!(!q.contains(&OpCode::Store(1)));
    let mut before = machine(vec![], 2);
    run(&mut before, &p).unwrap();
    let mut after = machine(vec![], 2);
    run(&mut after, &q).unwrap();
    assert_eq!(before.pop_value(), Ok(BoxedValue::I64(8)));
    assert_eq!(after.pop_value(), Ok(BoxedValue::I64(8)));
}

#[test]
fn optimizing_twice_after_a_collapsed_pair() {
    let p = vec![OpCode::Store(0), OpCode::Load(0), OpCode::Noop, OpCode::Store(0), OpCode::Load(0)];
    let once = eliminate_unused_vars(&p);
    assert_eq!(once, vec![OpCode::Noop]);
    assert_eq!(eliminate_unused_vars(&once), once);
    let p = vec![OpCode::Store(1), OpCode::Load(1), OpCode::Store(1), OpCode::Load(1)];
    let once = eliminate_unused_vars(&p);
    assert_eq!(once, vec![]);
    assert_eq!(eliminate_unused_vars(&once), once);
}
