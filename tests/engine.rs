use grass::bytecode::{CallFrame, Function, Guard, InstructionPointer, OpCode};
use grass::bytecode::BinOp as B;
use grass::bytecode::OpCode as O;
use grass::driver::Driver;
use grass::fault::Fault;
use grass::interp::Interpreter;
use grass::tracer::{MergePointResult, Tracer, HOT_LOOP_THRESHOLD};
use grass::value::{BoxedValue, StackVal};

const DEC: usize = 0;
const REP: usize = 1;
const INC: usize = 2;
const FUEL: usize = 100_000;

fn u(v: usize) -> OpCode {
    OpCode::ConstValue(BoxedValue::Usize(v))
}

/// The counter interpreter as bytecode: one iteration of the embedding
/// loop per pass, with locals 1 = code, 2 = cell, 3 = program counter. The
/// loop head is opcode 0 and the merge point opcode 1.
fn counter_program() -> Vec<Function> {
    let code = vec![
        O::Noop,                 // 0: loop head
        O::Noop,                 // 1: merge point
        O::Load(3), O::Use, O::Load(1), O::Use, O::Len, O::BinOp(B::Ge),
        O::SkipIf(54),           // 8: pc >= len -> 62
        O::Load(3), O::Use, O::Load(1), O::Use, O::GetIndex, O::Use, O::Store(0),
        O::Load(0), O::Use, u(DEC), O::BinOp(B::Eq),
        O::SkipIf(31),           // 20: DEC -> 51
        O::Load(0), O::Use, u(REP), O::BinOp(B::Eq), O::Not,
        O::SkipIf(13),           // 26: not REP -> 39
        O::Load(2), O::Use, u(0), O::BinOp(B::Gt), O::Not,
        O::SkipIf(7),            // 32: cell == 0 -> 39
        O::Load(3), O::Use, u(1), O::BinOp(B::Sub), O::Store(3),
        O::JumpBack(38),         // 38: continue -> 0
        O::Load(0), O::Use, u(INC), O::BinOp(B::Eq), O::Not,
        O::SkipIf(12),           // 44: not INC -> 56
        O::Load(2), O::Use, u(1), O::BinOp(B::Add), O::Store(2),
        O::Skip(6),              // 50: -> 56
        O::Load(2), O::Use, u(1), O::BinOp(B::Sub), O::Store(2),
        O::Load(3), O::Use, u(1), O::BinOp(B::Add), O::Store(3),
        O::JumpBack(61),         // 61: -> 0
        O::JumpBack(62),         // 62: halt -> 0
    ];
    assert_eq!(code.len(), 63);
    vec![Function { args: 0, locals: 4, code }]
}

/// The embedding loop, with the engine at its header when `driver` is given.
/// Yields the final cell, how often the program counter reached the halt
/// index, and the driver.
fn run_counter(user: &Vec<usize>, start: usize, with_engine: bool) -> (usize, usize, Driver) {
    let program = counter_program();
    let mut driver = Driver::new();
    let mut cell = start;
    let mut pc = 0;
    let mut halts = 0;
    loop {
        if with_engine {
            pc = driver.merge_point(&program, (0, 1), user, pc, &mut cell, FUEL).unwrap();
        }
        if pc >= user.len() {
            halts += 1;
            break;
        }
        let opcode = user[pc];
        if opcode == DEC {
            cell -= 1;
        } else if opcode == REP && cell > 0 {
            pc -= 1;
            continue;
        } else if opcode == INC {
            cell += 1;
        }
        pc += 1;
    }
    (cell, halts, driver)
}

#[test]
fn counter_decrement_loop_reaches_zero_with_tracing() {
    let user = vec![DEC, REP];
    let (cell, halts, driver) = run_counter(&user, 10, true);
    assert_eq!(cell, 0);
    assert_eq!(halts, 1);
    // the loop got hot: a trace for the decrement is cached
    let trace = driver.tracer.traces.get(&0).expect("trace for the decrement");
    assert!(trace.iter().any(|op| matches!(op, OpCode::Guard(_))));
    assert!(trace.iter().all(|op| !matches!(op, OpCode::Skip(_) | OpCode::JumpBack(_) | OpCode::SkipIf(_) | OpCode::JumpBackIf(_))));
    assert!(driver.tracer.active.is_none());
}

#[test]
fn counter_decrement_loop_matches_baseline() {
    let user = vec![DEC, REP];
    let (traced, _, _) = run_counter(&user, 10, true);
    let (plain, _, _) = run_counter(&user, 10, false);
    assert_eq!(traced, plain);
}

#[test]
fn interleaved_loop_same_with_and_without_tracing() {
    let user = vec![DEC, REP, INC, INC, INC, INC, INC, DEC, REP, INC];
    let (traced, halts, driver) = run_counter(&user, 10, true);
    let (plain, _, _) = run_counter(&user, 10, false);
    assert_eq!(plain, 1);
    assert_eq!(traced, plain);
    assert_eq!(halts, 1);
    assert!(!driver.tracer.traces.is_empty());
}

#[test]
fn cold_merge_points_leave_state_alone() {
    // a straight program never repeats a merge point: the engine never acts
    let user = vec![INC, INC, DEC];
    let (traced, _, driver) = run_counter(&user, 3, true);
    let (plain, _, _) = run_counter(&user, 3, false);
    assert_eq!(traced, plain);
    assert_eq!(traced, 4);
    assert!(driver.tracer.traces.is_empty());
    let mut driver = Driver::new();
    let mut cell = 7;
    let pc = driver.merge_point(&counter_program(), (0, 1), &user, 2, &mut cell, FUEL).unwrap();
    assert_eq!((pc, cell), (2, 7));
}

#[test]
fn recording_and_replay_of_one_iteration() {
    // pure straight-line body: every visit is a decrement
    let user = vec![DEC, DEC, DEC, DEC, DEC, DEC, DEC, DEC];
    let program = counter_program();
    let mut driver = Driver::new();
    let mut cell = 20;
    for _ in 0..HOT_LOOP_THRESHOLD {
        assert_eq!(driver.merge_point(&program, (0, 1), &user, 0, &mut cell, FUEL), Ok(0));
    }
    // the visit that makes key 0 hot records one baseline iteration
    assert_eq!(driver.merge_point(&program, (0, 1), &user, 0, &mut cell, FUEL), Ok(1));
    assert_eq!(cell, 19);
    // replaying it runs until pc reaches the end, as the baseline would
    let r = driver.merge_point(&program, (0, 1), &user, 0, &mut cell, FUEL);
    assert_eq!(r, Ok(8));
    assert_eq!(cell, 11);
}

#[test]
fn hot_key_starts_recording_and_other_keys_do_not() {
    let mut t = Tracer::new();
    assert_eq!(t.handle_mergepoint(5), MergePointResult::Interpret);
    assert_eq!(t.handle_mergepoint(5), MergePointResult::Interpret);
    assert_eq!(t.handle_mergepoint(9), MergePointResult::Interpret);
    assert_eq!(t.handle_mergepoint(5), MergePointResult::StartTrace);
    assert!(t.counter.is_empty());
    // while recording, no other key starts a recording
    for _ in 0..5 {
        assert_eq!(t.handle_mergepoint(9), MergePointResult::Interpret);
    }
    assert_eq!(t.loop_start, 5);
    assert!(t.active.is_some());
    // the recorded loop closes on its own key
    assert_eq!(t.handle_mergepoint(5), MergePointResult::Interpret);
    assert!(t.active.is_none());
    assert_eq!(t.handle_mergepoint(5), MergePointResult::Trace(vec![]));
}

#[test]
fn recording_turns_branches_into_guards() {
    let mut interp = Interpreter::new(vec![]);
    interp.stack.push(StackVal::Owned(BoxedValue::Bool(true)));
    let mut t = Tracer::new();
    t.active = Some(vec![]);
    let here = InstructionPointer { func: 0, pc: 4 };
    t.trace_opcode(&interp, OpCode::Skip(3), here).unwrap();
    t.trace_opcode(&interp, OpCode::JumpBack(3), here).unwrap();
    t.trace_opcode(&interp, OpCode::SkipIf(3), here).unwrap();
    t.trace_opcode(&interp, OpCode::Noop, here).unwrap();
    assert_eq!(
        t.active.clone().unwrap(),
        vec![OpCode::Guard(Guard { expected: true, recovery: here }), OpCode::Noop]
    );
    interp.stack.push(StackVal::Owned(BoxedValue::Usize(1)));
    assert_eq!(t.trace_opcode(&interp, OpCode::JumpBackIf(1), here), Err(Fault::TypeMismatch));
}

#[test]
fn guard_failure_leaves_the_boolean_for_recovery() {
    let mut interp = Interpreter::new(vec![]);
    interp.stack.push(StackVal::Owned(BoxedValue::Bool(false)));
    let g = Guard { expected: true, recovery: InstructionPointer { func: 0, pc: 7 } };
    let r = interp.run_trace(&vec![OpCode::Noop, OpCode::Guard(g)], 10);
    assert_eq!(r, Ok(g));
    assert_eq!(interp.stack, vec![StackVal::Owned(BoxedValue::Bool(false))]);
    assert_eq!(interp.run_trace(&vec![], 10), Err(Fault::EmptyTrace));
}

#[test]
fn blackhole_resumes_at_recovery_point() {
    // 0: head, 1: merge point, 2: SkipIf(2) -> 4, 3: Noop, 4: JumpBack(4) -> 0
    let code = vec![OpCode::Noop, OpCode::Noop, OpCode::SkipIf(2), OpCode::Panic, OpCode::JumpBack(4)];
    let mut interp = Interpreter::new(vec![Function { args: 0, locals: 0, code }]);
    interp.stack_frames.push(CallFrame { locals: vec![], return_addr: None });
    interp.stack.push(StackVal::Owned(BoxedValue::Bool(true)));
    let r = interp.blackhole(InstructionPointer { func: 0, pc: 2 }, InstructionPointer { func: 0, pc: 1 }, 10);
    assert_eq!(r, Ok(()));
    assert!(interp.stack.is_empty());
    // the other outcome reaches the panic opcode
    interp.stack.push(StackVal::Owned(BoxedValue::Bool(false)));
    let r = interp.blackhole(InstructionPointer { func: 0, pc: 2 }, InstructionPointer { func: 0, pc: 1 }, 10);
    assert_eq!(r, Err(Fault::Panic));
}

#[test]
fn step_budget_is_reported() {
    let code = vec![OpCode::Noop, OpCode::Skip(0)];
    let mut interp = Interpreter::new(vec![Function { args: 0, locals: 0, code }]);
    let r = interp.blackhole(InstructionPointer { func: 1, pc: 0 }, InstructionPointer { func: 0, pc: 0 }, 5);
    assert_eq!(r, Err(Fault::OutOfFuel));
}

#[test]
fn recording_reads_a_deferred_constant_branch_value() {
    let consts = Function { args: 0, locals: 0, code: vec![OpCode::ConstValue(BoxedValue::Bool(true))] };
    let mut interp = Interpreter::new(vec![consts]);
    interp.stack.push(StackVal::Owned(BoxedValue::Static(0)));
    let mut t = Tracer::new();
    t.active = Some(vec![]);
    let here = InstructionPointer { func: 0, pc: 2 };
    t.trace_opcode(&interp, OpCode::SkipIf(1), here).unwrap();
    assert_eq!(t.active.clone().unwrap(), vec![OpCode::Guard(Guard { expected: true, recovery: here })]);
}
