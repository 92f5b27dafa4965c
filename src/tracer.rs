//! Hot-loop detection and trace recording.
use vstd::prelude::*;
use std::collections::HashMap;
use crate::bytecode::{Guard, InstructionPointer, OpCode};
use crate::fault::Fault;
use crate::interp::Interpreter;
use crate::machine::{recorded, straight_line, top_bool, with_recorded};
use crate::value::BoxedValue;

verus! {

broadcast use vstd::std_specs::hash::group_hash_axioms;

/// A merge point is hot once it has been visited more often than this.
pub const HOT_LOOP_THRESHOLD: usize = 2;

/// What the caller of a merge point is to do.
#[derive(Debug, PartialEq, Eq)]
pub enum MergePointResult {
    /// Replay this finished trace.
    Trace(Vec<OpCode>),
    /// Interpret in recording mode.
    StartTrace,
    /// Interpret normally.
    Interpret,
}

/// The engine's tracing state.
pub struct Tracer {
    /// Visits per merge-point key since the last recording started.
    pub counter: HashMap<u64, usize>,
    /// Finished traces by merge-point key.
    pub traces: HashMap<u64, Vec<OpCode>>,
    /// The key of the loop being recorded.
    pub loop_start: u64,
    /// The recording in flight, if any.
    pub active: Option<Vec<OpCode>>,
}

/// The visits counted for `key`.
pub open spec fn visits(counter: Map<u64, usize>, key: u64) -> usize {
    if counter.contains_key(key) {
        counter[key]
    } else {
        0
    }
}

/// A copy of an opcode sequence.
pub fn copy_ops(ops: &Vec<OpCode>) -> (r: Vec<OpCode>)
    ensures
        r@ == ops@,
{
    let mut r: Vec<OpCode> = Vec::new();
    let mut i: usize = 0;
    while i < ops.len()
        invariant
            i <= ops@.len(),
            r@ =~= ops@.subrange(0, i as int),
        decreases ops@.len() - i,
    {
        r.push(ops[i]);
        i = i + 1;
    }
    r
}

impl Tracer {
    /// No counter is past the threshold, and every recording and every
    /// finished trace is straight-line.
    pub open spec fn wf(&self) -> bool {
        &&& forall|k: u64| #[trigger] visits(self.counter@, k) <= HOT_LOOP_THRESHOLD
        &&& forall|k: u64| self.traces@.contains_key(k) ==> straight_line(#[trigger] self.traces@[k]@)
        &&& match self.active {
            Some(buf) => straight_line(buf@),
            None => true,
        }
    }

    pub fn new() -> (r: Tracer)
        ensures
            r.wf(),
            r.counter@ == Map::<u64, usize>::empty(),
            r.traces@ == Map::<u64, Vec<OpCode>>::empty(),
            r.active is None,
    {
        Tracer { counter: HashMap::new(), traces: HashMap::new(), loop_start: 0, active: None }
    }

}

impl Default for Tracer {
    fn default() -> (r: Tracer)
        ensures
            r.wf(),
            r.counter@ == Map::<u64, usize>::empty(),
            r.traces@ == Map::<u64, Vec<OpCode>>::empty(),
            r.active is None,
    {
        Tracer::new()
    }
}

impl Tracer {
    /// Decides what a visit to the merge point `key` does. A finished trace
    /// is replayed; otherwise, while nothing is being recorded, the visit is
    /// counted, and a visit that takes the count past the threshold starts a
    /// recording of `key`. A visit to the loop being recorded closes it.
    pub fn handle_mergepoint(&mut self, key: u64) -> (r: MergePointResult)
        requires
            old(self).wf(),
        ensures
            final(self).wf(),
            old(self).traces@.contains_key(key) ==> {
                &&& r matches MergePointResult::Trace(t) && t@ == old(self).traces@[key]@
                &&& final(self).counter@ == old(self).counter@
                &&& final(self).traces@ == old(self).traces@
                &&& final(self).active == old(self).active
                &&& final(self).loop_start == old(self).loop_start
            },
            !old(self).traces@.contains_key(key) && old(self).active is None ==> {
                let count = visits(old(self).counter@, key) + 1;
                &&& final(self).traces@ == old(self).traces@
                &&& if count > HOT_LOOP_THRESHOLD {
                    &&& r == MergePointResult::StartTrace
                    &&& final(self).counter@ == Map::<u64, usize>::empty()
                    &&& final(self).active matches Some(buf) && buf@.len() == 0
                    &&& final(self).loop_start == key
                } else {
                    &&& r == MergePointResult::Interpret
                    &&& final(self).counter@ == old(self).counter@.insert(key, count as usize)
                    &&& final(self).active is None
                    &&& final(self).loop_start == old(self).loop_start
                }
            },
            !old(self).traces@.contains_key(key) && old(self).active is Some ==> {
                &&& r == MergePointResult::Interpret
                &&& final(self).counter@ == old(self).counter@
                &&& final(self).loop_start == old(self).loop_start
                &&& if key == old(self).loop_start {
                    &&& final(self).active is None
                    &&& final(self).traces@ == old(self).traces@.insert(key, old(self).active->Some_0)
                } else {
                    &&& final(self).active == old(self).active
                    &&& final(self).traces@ == old(self).traces@
                }
            },
    {
        match self.traces.get(&key) {
            Some(t) => {
                return MergePointResult::Trace(copy_ops(t));
            },
            None => {},
        }
        if self.active.is_none() {
            let count: usize = match self.counter.get(&key) {
                Some(c) => *c,
                None => 0,
            };
            assert(count == visits(self.counter@, key));
            let count = count + 1;
            if count > HOT_LOOP_THRESHOLD {
                self.active = Some(Vec::new());
                self.counter.clear();
                self.loop_start = key;
                return MergePointResult::StartTrace;
            }
            self.counter.insert(key, count);
            assert forall|k: u64| #[trigger] visits(self.counter@, k) <= HOT_LOOP_THRESHOLD by {
                if k != key {
                    assert(visits(self.counter@, k) == visits(old(self).counter@, k));
                }
            }
        } else if key == self.loop_start {
            self.finish_trace(key);
        }
        MergePointResult::Interpret
    }

    /// Closes the recording in flight: it becomes the trace for `key`.
    pub fn finish_trace(&mut self, key: u64)
        requires
            old(self).wf(),
            old(self).active is Some,
        ensures
            final(self).wf(),
            final(self).active is None,
            final(self).traces@ == old(self).traces@.insert(key, old(self).active->Some_0),
            final(self).counter@ == old(self).counter@,
            final(self).loop_start == old(self).loop_start,
    {
        let active = self.active.take();
        match active {
            Some(buf) => {
                self.traces.insert(key, buf);
                assert forall|k: u64| self.traces@.contains_key(k) implies straight_line(#[trigger] self.traces@[k]@) by {
                    if k != key {
                        assert(old(self).traces@.contains_key(k));
                    }
                }
            },
            None => {},
        }
    }

    /// Drops the recording in flight, if any.
    pub fn abandon_trace(&mut self)
        requires
            old(self).wf(),
        ensures
            final(self).wf(),
            final(self).active is None,
            final(self).traces@ == old(self).traces@,
            final(self).counter@ == old(self).counter@,
            final(self).loop_start == old(self).loop_start,
    {
        self.active = None;
    }

    /// Records `opcode`, about to run at `pos` in `interp`, into the
    /// recording in flight.
    pub fn trace_opcode(&mut self, interp: &Interpreter, opcode: OpCode, pos: InstructionPointer) -> (r: Result<(), Fault>)
        requires
            old(self).wf(),
            old(self).active is Some,
        ensures
            final(self).wf(),
            final(self).active is Some,
            final(self).counter@ == old(self).counter@,
            final(self).traces@ == old(self).traces@,
            final(self).loop_start == old(self).loop_start,
            match recorded(opcode, top_bool(interp.prog(), interp@), pos) {
                Ok(rec) => r is Ok && final(self).active->Some_0@ == with_recorded(old(self).active->Some_0@, rec),
                Err(e) => r == Err::<(), Fault>(e),
            },
    {
        let oc = match opcode {
            OpCode::Skip(_) | OpCode::JumpBack(_) => {
                return Ok(());
            },
            OpCode::SkipIf(_) | OpCode::JumpBackIf(_) => {
                let expected = match interp.peek_value() {
                    Err(e) => return Err(e),
                    Ok(BoxedValue::Bool(b)) => b,
                    Ok(_) => return Err(Fault::TypeMismatch),
                };
                OpCode::Guard(Guard { expected, recovery: pos })
            },
            _ => opcode,
        };
        let mut buf = self.active.take().unwrap();
        buf.push(oc);
        self.active = Some(buf);
        Ok(())
    }
}

} // verus!
