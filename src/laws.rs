//! What holds of recording and replay, over the baseline semantics.
use vstd::prelude::*;
use crate::bytecode::{FnView, Guard, InstructionPointer, OpCode};
use crate::fault::Fault;
use crate::value::BoxedValue;
use crate::machine::{
    data_step, fetch, peek_value, pop_value, record_run, recorded, resync, step, straight_line,
    top_bool, trace_step, with_recorded, Flow, VmState,
};

verus! {

/// An opcode that transfers control between functions.
pub open spec fn is_call(op: OpCode) -> bool {
    match op {
        OpCode::Call | OpCode::Static(_) | OpCode::Return => true,
        _ => false,
    }
}

/// Runs `ops` once, in order, as a trace runs them; a failed guard stops the
/// run with `None` in place of the state.
pub open spec fn run_straight(prog: Seq<FnView>, s: VmState, ops: Seq<OpCode>) -> Result<Option<VmState>, Fault>
    decreases ops.len(),
{
    if ops.len() == 0 {
        Ok(Some(s))
    } else {
        match run_straight(prog, s, ops.drop_last()) {
            Ok(Some(s1)) => match trace_step(prog, s1, ops.last(), 0) {
                Err(e) => Err(e),
                Ok((Err(_), _)) => Ok(None),
                Ok((Ok(_), s2)) => Ok(Some(s2)),
            },
            other => other,
        }
    }
}

/// Recording keeps a straight-line buffer straight-line: every jump is
/// dropped and every conditional branch becomes a guard.
pub proof fn lemma_recording_straight_line(
    prog: Seq<FnView>,
    s: VmState,
    buf: Seq<OpCode>,
    func: usize,
    pc: usize,
    start_pc: usize,
    fuel: nat,
)
    requires
        straight_line(buf),
    ensures
        record_run(prog, s, buf, func, pc, start_pc, fuel) matches Ok((_, out)) ==> straight_line(out),
    decreases fuel,
{
    if fuel > 0 {
        match fetch(prog, func, pc) {
            None => {},
            Some(op) => {
                let pos = InstructionPointer { func, pc };
                match recorded(op, top_bool(prog, s), pos) {
                    Err(_) => {},
                    Ok(rec) => {
                        let buf1 = with_recorded(buf, rec);
                        assert(straight_line(buf1)) by {
                            assert forall|i: int| 0 <= i < buf1.len() implies !crate::machine::is_branch(#[trigger] buf1[i]) by {
                                if i < buf.len() {
                                    assert(buf1[i] == buf[i]);
                                }
                            }
                        }
                        match step(prog, s, op, pos) {
                            Err(_) => {},
                            Ok((Flow::Next, s1)) => lemma_recording_straight_line(prog, s1, buf1, func, (pc + 1) as usize, start_pc, (fuel - 1) as nat),
                            Ok((Flow::Jump(t), s1)) => if t >= start_pc {
                                lemma_recording_straight_line(prog, s1, buf1, func, t, start_pc, (fuel - 1) as nat);
                            },
                            Ok((Flow::Call(f, p), s1)) => lemma_recording_straight_line(prog, s1, buf1, f, p, start_pc, (fuel - 1) as nat),
                            Ok((Flow::Stop, _)) => {},
                        }
                    },
                }
            },
        }
    }
}

/// Recording only appends to the buffer.
proof fn lemma_record_extends(
    prog: Seq<FnView>,
    s: VmState,
    buf: Seq<OpCode>,
    func: usize,
    pc: usize,
    start_pc: usize,
    fuel: nat,
)
    ensures
        record_run(prog, s, buf, func, pc, start_pc, fuel) matches Ok((_, out)) ==> out.len() >= buf.len()
            && out.subrange(0, buf.len() as int) == buf,
    decreases fuel,
{
    if fuel > 0 {
        match fetch(prog, func, pc) {
            None => {},
            Some(op) => {
                let pos = InstructionPointer { func, pc };
                match recorded(op, top_bool(prog, s), pos) {
                    Err(_) => {},
                    Ok(rec) => {
                        let buf1 = with_recorded(buf, rec);
                        match step(prog, s, op, pos) {
                            Err(_) => {},
                            Ok((Flow::Next, s1)) => lemma_record_extends(prog, s1, buf1, func, (pc + 1) as usize, start_pc, (fuel - 1) as nat),
                            Ok((Flow::Jump(t), s1)) => if t >= start_pc {
                                lemma_record_extends(prog, s1, buf1, func, t, start_pc, (fuel - 1) as nat);
                            },
                            Ok((Flow::Call(f, p), s1)) => lemma_record_extends(prog, s1, buf1, f, p, start_pc, (fuel - 1) as nat),
                            Ok((Flow::Stop, _)) => {},
                        }
                        match record_run(prog, s, buf, func, pc, start_pc, fuel) {
                            Ok((_, out)) => {
                                assert(out.subrange(0, buf.len() as int) =~= out.subrange(0, buf1.len() as int).subrange(0, buf.len() as int));
                                assert(buf1.subrange(0, buf.len() as int) =~= buf);
                            },
                            Err(_) => {},
                        }
                    },
                }
            },
        }
    }
}

/// A trace reproduces the iteration it was recorded from: when recording
/// from `s` ends in `s_end` with opcodes `out` appended to `buf`, and no
/// call or return was recorded, running `out` once from the state that
/// `buf` leads to ends in `s_end`, with every guard holding.
pub proof fn lemma_replay_matches_recording(
    prog: Seq<FnView>,
    s0: VmState,
    s: VmState,
    buf: Seq<OpCode>,
    func: usize,
    pc: usize,
    start_pc: usize,
    fuel: nat,
)
    requires
        run_straight(prog, s0, buf) == Ok::<Option<VmState>, Fault>(Some(s)),
    ensures
        record_run(prog, s, buf, func, pc, start_pc, fuel) matches Ok((s_end, out)) ==> (
            (forall|i: int| 0 <= i < out.len() ==> !is_call(#[trigger] out[i]))
                ==> run_straight(prog, s0, out) == Ok::<Option<VmState>, Fault>(Some(s_end))),
    decreases fuel,
{
    if fuel > 0 {
        match fetch(prog, func, pc) {
            None => {},
            Some(op) => {
                let pos = InstructionPointer { func, pc };
                match recorded(op, top_bool(prog, s), pos) {
                    Err(_) => {},
                    Ok(rec) => {
                        let buf1 = with_recorded(buf, rec);
                        match step(prog, s, op, pos) {
                            Err(_) => {},
                            Ok((flow, s1)) => {
                                if !is_call(op) {
                                    assert(run_straight(prog, s0, buf1) == Ok::<Option<VmState>, Fault>(Some(s1))) by {
                                        match rec {
                                            None => {},
                                            Some(r) => {
                                                assert(buf1.drop_last() =~= buf);
                                            },
                                        }
                                    }
                                    match flow {
                                        Flow::Next => lemma_replay_matches_recording(prog, s0, s1, buf1, func, (pc + 1) as usize, start_pc, (fuel - 1) as nat),
                                        Flow::Jump(t) => if t >= start_pc {
                                            lemma_replay_matches_recording(prog, s0, s1, buf1, func, t, start_pc, (fuel - 1) as nat);
                                        },
                                        Flow::Call(f, p) => lemma_replay_matches_recording(prog, s0, s1, buf1, f, p, start_pc, (fuel - 1) as nat),
                                        Flow::Stop => {},
                                    }
                                } else {
                                    assert(buf1 == buf.push(op));
                                    match flow {
                                        Flow::Next => lemma_record_extends(prog, s1, buf1, func, (pc + 1) as usize, start_pc, (fuel - 1) as nat),
                                        Flow::Jump(t) => if t >= start_pc {
                                            lemma_record_extends(prog, s1, buf1, func, t, start_pc, (fuel - 1) as nat);
                                        },
                                        Flow::Call(f, p) => lemma_record_extends(prog, s1, buf1, f, p, start_pc, (fuel - 1) as nat),
                                        Flow::Stop => {},
                                    }
                                    assert(record_run(prog, s, buf, func, pc, start_pc, fuel) matches Ok((s_end, out)) ==> out[buf.len() as int] == op);
                                }
                            },
                        }
                    },
                }
            },
        }
    }
}

/// One recorded loop iteration, replayed once from the state it was
/// recorded from, ends where the baseline interpreter ended it.
pub proof fn lemma_trace_iteration_matches_baseline(prog: Seq<FnView>, s: VmState, func: usize, pc: usize, fuel: nat)
    ensures
        record_run(prog, s, Seq::empty(), func, pc, pc, fuel) matches Ok((s_end, tr)) ==> (
            (forall|i: int| 0 <= i < tr.len() ==> !is_call(#[trigger] tr[i]))
                ==> run_straight(prog, s, tr) == Ok::<Option<VmState>, Fault>(Some(s_end))),
{
    lemma_replay_matches_recording(prog, s, s, Seq::empty(), func, pc, pc, fuel);
}

/// Runs `ops` once from the front, as a trace runs them: yields the end
/// state, or the guard that failed and the state it failed in.
pub open spec fn run_once(prog: Seq<FnView>, s: VmState, ops: Seq<OpCode>) -> Result<Result<VmState, (Guard, VmState)>, Fault>
    decreases ops.len(),
{
    if ops.len() == 0 {
        Ok(Ok(s))
    } else {
        match trace_step(prog, s, ops[0], 0) {
            Err(e) => Err(e),
            Ok((Err(g), s1)) => Ok(Err((g, s1))),
            Ok((Ok(_), s1)) => run_once(prog, s1, ops.drop_first()),
        }
    }
}

/// The baseline interpreter from `(func, pc)` until a jump lands before
/// `start_pc`, running at most `fuel` opcodes.
pub open spec fn baseline(prog: Seq<FnView>, s: VmState, func: usize, pc: usize, start_pc: usize, fuel: nat) -> Result<VmState, Fault> {
    resync(prog, s, func, pc, start_pc, false, 0, fuel)
}

/// Running `ops` once from `s2` ends where the baseline from `(func, pc)`
/// ends, or fails a guard at a state from which the baseline resumed at the
/// guard's recovery point ends there too.
pub open spec fn follows(prog: Seq<FnView>, s2: VmState, ops: Seq<OpCode>, func: usize, pc: usize, start_pc: usize, fuel: nat) -> bool {
    match run_once(prog, s2, ops) {
        Ok(Ok(s_end)) => baseline(prog, s2, func, pc, start_pc, fuel) == Ok::<VmState, Fault>(s_end),
        Ok(Err((g, s_fail))) => exists|n: nat| #[trigger] baseline(prog, s_fail, g.recovery.func, g.recovery.pc, start_pc, n)
            == baseline(prog, s2, func, pc, start_pc, fuel),
        Err(_) => true,
    }
}

proof fn lemma_follows_transfer(
    prog: Seq<FnView>,
    s2: VmState,
    ops: Seq<OpCode>,
    func: usize,
    pc: usize,
    s2b: VmState,
    ops_b: Seq<OpCode>,
    nf: usize,
    np: usize,
    start_pc: usize,
    fuel: nat,
    fuel_b: nat,
)
    requires
        follows(prog, s2b, ops_b, nf, np, start_pc, fuel_b),
        run_once(prog, s2, ops) == run_once(prog, s2b, ops_b),
        baseline(prog, s2, func, pc, start_pc, fuel) == baseline(prog, s2b, nf, np, start_pc, fuel_b),
    ensures
        follows(prog, s2, ops, func, pc, start_pc, fuel),
{
    match run_once(prog, s2b, ops_b) {
        Ok(Err((g, s_fail))) => {
            let n0 = choose|n: nat| #[trigger] baseline(prog, s_fail, g.recovery.func, g.recovery.pc, start_pc, n)
                == baseline(prog, s2b, nf, np, start_pc, fuel_b);
            assert(baseline(prog, s_fail, g.recovery.func, g.recovery.pc, start_pc, n0) == baseline(prog, s2, func, pc, start_pc, fuel));
        },
        _ => {},
    }
}

/// The step of the law below at one recorded opcode.
proof fn lemma_follow_one(
    prog: Seq<FnView>,
    s: VmState,
    s1: VmState,
    buf: Seq<OpCode>,
    buf1: Seq<OpCode>,
    func: usize,
    pc: usize,
    start_pc: usize,
    fuel: nat,
    s2: VmState,
    op: OpCode,
    rec: Option<OpCode>,
    flow: Flow,
    next: Option<(usize, usize)>,
    out: Seq<OpCode>,
)
    requires
        fuel > 0,
        fetch(prog, func, pc) == Some(op),
        recorded(op, top_bool(prog, s), InstructionPointer { func, pc }) == Ok::<Option<OpCode>, Fault>(rec),
        buf1 == with_recorded(buf, rec),
        step(prog, s, op, InstructionPointer { func, pc }) == Ok::<(Flow, VmState), Fault>((flow, s1)),
        next == match flow {
            Flow::Next => Some((func, (pc + 1) as usize)),
            Flow::Jump(t) => if t < start_pc { None } else { Some((func, t)) },
            Flow::Call(f, p) => Some((f, p)),
            Flow::Stop => None,
        },
        record_run(prog, s, buf, func, pc, start_pc, fuel) matches Ok((_, o)) && o == out,
        match next {
            Some((nf, np)) => record_run(prog, s1, buf1, nf, np, start_pc, (fuel - 1) as nat) matches Ok((_, o)) && o == out,
            None => out == buf1,
        },
        match rec {
            None => out.subrange(buf.len() as int, out.len() as int) == out.subrange(buf1.len() as int, out.len() as int),
            Some(r) => out.subrange(buf.len() as int, out.len() as int)[0] == r
                && out.subrange(buf.len() as int, out.len() as int).drop_first() == out.subrange(buf1.len() as int, out.len() as int)
                && out.subrange(buf.len() as int, out.len() as int).len() > 0
                && !is_call(r),
        },
        forall|i: int| buf1.len() <= i < out.len() ==> !is_call(#[trigger] out[i]),
        buf.len() <= buf1.len() <= out.len(),
    ensures
        follows(prog, s2, out.subrange(buf.len() as int, out.len() as int), func, pc, start_pc, fuel),
    decreases fuel, 0nat,
{
    let pos = InstructionPointer { func, pc };
    let delta = out.subrange(buf.len() as int, out.len() as int);
    let rest = out.subrange(buf1.len() as int, out.len() as int);
    if next is None {
        assert(rest.len() == 0);
    }
    match op {
        OpCode::Skip(_) | OpCode::JumpBack(_) => {
            assert(step(prog, s2, op, pos) == Ok::<(Flow, VmState), Fault>((flow, s2)));
            assert(delta == rest);
            let t = flow->Jump_0;
            assert(flow == Flow::Jump(t));
            if t < start_pc {
                assert(baseline(prog, s2, func, pc, start_pc, fuel) == Ok::<VmState, Fault>(s2));
                assert(run_once(prog, s2, delta) == Ok::<Result<VmState, (Guard, VmState)>, Fault>(Ok(s2)));
            } else {
                assert(baseline(prog, s2, func, pc, start_pc, fuel) == baseline(prog, s2, func, t, start_pc, (fuel - 1) as nat));
                assert(next == Some((func, t)));
                assert(record_run(prog, s1, buf1, func, t, start_pc, (fuel - 1) as nat) matches Ok((_, o)) && o == out);
                lemma_trace_follows_baseline(prog, s1, buf1, func, t, start_pc, (fuel - 1) as nat, s2);
                lemma_follows_transfer(prog, s2, delta, func, pc, s2, rest, func, t, start_pc, fuel, (fuel - 1) as nat);
            }
        },
        OpCode::SkipIf(_) | OpCode::JumpBackIf(_) => {
            let b = top_bool(prog, s)->Ok_0;
            let g = Guard { expected: b, recovery: pos };
            assert(rec == Some(OpCode::Guard(g)));
            assert(pop_value(prog, s) matches Ok((BoxedValue::Bool(v), _)) && v == b);
            match peek_value(prog, s2) {
                Ok(BoxedValue::Bool(b2)) => {
                    if b2 == b {
                        let s2b = VmState { stack: s2.stack.drop_last(), ..s2 };
                        assert(pop_value(prog, s2) == Ok::<(BoxedValue, VmState), Fault>((BoxedValue::Bool(b), s2b)));
                        assert(step(prog, s2, op, pos) == Ok::<(Flow, VmState), Fault>((flow, s2b)));
                        assert(trace_step(prog, s2, OpCode::Guard(g), 0) == Ok::<(Result<usize, Guard>, VmState), Fault>((Ok(1usize), s2b)));
                        assert(run_once(prog, s2, delta) == run_once(prog, s2b, rest));
                        match next {
                            Some((nf, np)) => {
                                lemma_trace_follows_baseline(prog, s1, buf1, nf, np, start_pc, (fuel - 1) as nat, s2b);
                                assert(baseline(prog, s2, func, pc, start_pc, fuel) == baseline(prog, s2b, nf, np, start_pc, (fuel - 1) as nat));
                                lemma_follows_transfer(prog, s2, delta, func, pc, s2b, rest, nf, np, start_pc, fuel, (fuel - 1) as nat);
                            },
                            None => {},
                        }
                    } else {
                        assert(trace_step(prog, s2, OpCode::Guard(g), 0) == Ok::<(Result<usize, Guard>, VmState), Fault>((Err(g), s2)));
                        assert(run_once(prog, s2, delta) == Ok::<Result<VmState, (Guard, VmState)>, Fault>(Err((g, s2))));
                        assert(baseline(prog, s2, g.recovery.func, g.recovery.pc, start_pc, fuel) == baseline(prog, s2, func, pc, start_pc, fuel));
                    }
                },
                _ => {},
            }
        },
        _ => {
            assert(rec == Some(op));
            match data_step(prog, s2, op) {
                Ok(s2b) => {
                    assert(step(prog, s2, op, pos) == Ok::<(Flow, VmState), Fault>((Flow::Next, s2b)));
                    assert(flow == Flow::Next);
                    assert(run_once(prog, s2, delta) == run_once(prog, s2b, rest));
                    let np = (pc + 1) as usize;
                    lemma_trace_follows_baseline(prog, s1, buf1, func, np, start_pc, (fuel - 1) as nat, s2b);
                    assert(baseline(prog, s2, func, pc, start_pc, fuel) == baseline(prog, s2b, func, np, start_pc, (fuel - 1) as nat));
                    lemma_follows_transfer(prog, s2, delta, func, pc, s2b, rest, func, np, start_pc, fuel, (fuel - 1) as nat);
                },
                Err(_) => {
                    assert(run_once(prog, s2, delta) is Err);
                },
            }
        },
    }
}

/// A trace stands for the baseline on every state, not only the one it was
/// recorded from. Let recording from `(func, pc)` append `delta` to `buf`,
/// with no call or return in it, and run `delta` once from any state `s2`.
/// If every guard holds, the run ends where the baseline from `s2` ends. If
/// a guard fails, resuming the baseline at the guard's recovery point from
/// the state it failed in ends where the baseline from `s2` ends.
pub proof fn lemma_trace_follows_baseline(
    prog: Seq<FnView>,
    s: VmState,
    buf: Seq<OpCode>,
    func: usize,
    pc: usize,
    start_pc: usize,
    fuel: nat,
    s2: VmState,
)
    ensures
        record_run(prog, s, buf, func, pc, start_pc, fuel) matches Ok((_, out)) ==> (
            (forall|i: int| buf.len() <= i < out.len() ==> !is_call(#[trigger] out[i])) ==>
            follows(prog, s2, out.subrange(buf.len() as int, out.len() as int), func, pc, start_pc, fuel)),
    decreases fuel, 1nat,
{
    if fuel > 0 {
        match fetch(prog, func, pc) {
            None => {},
            Some(op) => {
                let pos = InstructionPointer { func, pc };
                match recorded(op, top_bool(prog, s), pos) {
                    Err(_) => {},
                    Ok(rec) => {
                        let buf1 = with_recorded(buf, rec);
                        match step(prog, s, op, pos) {
                            Err(_) => {},
                            Ok((flow, s1)) => {
                                // where recording goes next, if it goes on
                                let next: Option<(usize, usize)> = match flow {
                                    Flow::Next => Some((func, (pc + 1) as usize)),
                                    Flow::Jump(t) => if t < start_pc { None } else { Some((func, t)) },
                                    Flow::Call(f, p) => Some((f, p)),
                                    Flow::Stop => None,
                                };
                                match next {
                                    Some((nf, np)) => {
                                        lemma_record_extends(prog, s1, buf1, nf, np, start_pc, (fuel - 1) as nat);
                                    },
                                    None => {},
                                }
                                match record_run(prog, s, buf, func, pc, start_pc, fuel) {
                                    Err(_) => {},
                                    Ok((_, out)) => {
                                        let delta = out.subrange(buf.len() as int, out.len() as int);
                                        let rest = out.subrange(buf1.len() as int, out.len() as int);
                                        if next is None {
                                            assert(out == buf1);
                                        }
                                        assert(out.subrange(0, buf1.len() as int) == buf1);
                                        match rec {
                                            None => {
                                                assert(delta =~= rest);
                                            },
                                            Some(r) => {
                                                assert(buf1 == buf.push(r));
                                                assert(out.subrange(0, buf1.len() as int)[buf.len() as int] == r);
                                                assert(out[buf.len() as int] == r);
                                                assert(delta[0] == r);
                                                assert(delta.drop_first() =~= rest);
                                            },
                                        }
                                        if (forall|i: int| buf.len() <= i < out.len() ==> !is_call(#[trigger] out[i])) {
                                            if rec is Some {
                                                assert(!is_call(out[buf.len() as int]));
                                            }
                                            assert(forall|i: int| buf1.len() <= i < out.len() ==> !is_call(#[trigger] out[i]));
                                            lemma_follow_one(prog, s, s1, buf, buf1, func, pc, start_pc, fuel, s2, op, rec, flow, next, out);
                                        }
                                    },
                                }
                            },
                        }
                    },
                }
            },
        }
    }
}

/// A trace freshly recorded at a loop header stands for the baseline from
/// that header on every state: one pass of it either ends where the
/// baseline ends, or fails a guard at a state from which the baseline
/// resumed at the guard's recovery point ends where the baseline would have.
pub proof fn lemma_recovery_matches_baseline(prog: Seq<FnView>, s: VmState, func: usize, pc: usize, fuel: nat, s2: VmState)
    ensures
        record_run(prog, s, Seq::empty(), func, pc, pc, fuel) matches Ok((_, tr)) ==> (
            (forall|i: int| 0 <= i < tr.len() ==> !is_call(#[trigger] tr[i])) ==> follows(prog, s2, tr, func, pc, pc, fuel)),
{
    lemma_trace_follows_baseline(prog, s, Seq::empty(), func, pc, pc, fuel, s2);
    match record_run(prog, s, Seq::empty(), func, pc, pc, fuel) {
        Ok((_, tr)) => {
            assert(tr.subrange(0, tr.len() as int) =~= tr);
        },
        Err(_) => {},
    }
}

} // verus!
