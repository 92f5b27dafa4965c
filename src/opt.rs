//! A dead-store eliminator over a finished opcode sequence.
use vstd::prelude::*;
use std::collections::HashMap;
use crate::bytecode::OpCode;

verus! {

broadcast use vstd::std_specs::hash::group_hash_axioms;

/// The state of the backward pass: per slot, how many loads were seen since
/// its last kept store, and the opcodes kept so far, last opcode first.
pub struct PassState {
    pub loads: Map<usize, usize>,
    pub kept: Seq<OpCode>,
}

pub open spec fn loads_of(loads: Map<usize, usize>, var: usize) -> usize {
    if loads.contains_key(var) {
        loads[var]
    } else {
        0
    }
}

/// One opcode of the backward pass. A store to a slot with no later load
/// becomes a pop; a store followed directly by the single later load of its
/// slot disappears together with that load, which then no longer counts; an
/// empty tuple followed by a pop
/// disappears together with the pop.
pub open spec fn pass_step(st: PassState, oc: OpCode) -> PassState {
    match oc {
        OpCode::Load(var) => PassState {
            loads: st.loads.insert(var, (loads_of(st.loads, var) + 1) as usize),
            kept: st.kept.push(oc),
        },
        OpCode::Store(var) => {
            let count = loads_of(st.loads, var);
            if count == 0 {
                PassState { loads: st.loads, kept: st.kept.push(OpCode::Pop) }
            } else if st.kept.len() > 0 && st.kept.last() == OpCode::Load(var) && count == 1 {
                PassState { loads: st.loads.insert(var, 0), kept: st.kept.drop_last() }
            } else {
                PassState { loads: st.loads.insert(var, 0), kept: st.kept.push(oc) }
            }
        },
        OpCode::Tuple(0) => {
            if st.kept.len() > 0 && st.kept.last() == OpCode::Pop {
                PassState { loads: st.loads, kept: st.kept.drop_last() }
            } else {
                PassState { loads: st.loads, kept: st.kept.push(oc) }
            }
        },
        _ => PassState { loads: st.loads, kept: st.kept.push(oc) },
    }
}

/// The pass after it has visited the last `k` opcodes of `s`.
pub open spec fn pass(s: Seq<OpCode>, k: nat) -> PassState
    decreases k,
{
    if k == 0 || k > s.len() {
        PassState { loads: Map::empty(), kept: Seq::empty() }
    } else {
        pass_step(pass(s, (k - 1) as nat), s[s.len() - k])
    }
}

/// The optimized sequence, in program order.
pub open spec fn optimized(s: Seq<OpCode>) -> Seq<OpCode> {
    pass(s, s.len()).kept.reverse()
}

proof fn lemma_pass_loads_bounded(s: Seq<OpCode>, k: nat)
    requires
        k <= s.len() <= usize::MAX,
    ensures
        forall|v: usize| #[trigger] loads_of(pass(s, k).loads, v) <= k,
    decreases k,
{
    if k > 0 {
        let prev = pass(s, (k - 1) as nat);
        lemma_pass_loads_bounded(s, (k - 1) as nat);
        assert forall|v: usize| #[trigger] loads_of(pass(s, k).loads, v) <= k by {
            assert(loads_of(prev.loads, v) <= k - 1);
            match s[s.len() - k] {
                OpCode::Load(var) => {
                    assert(loads_of(prev.loads, var) <= k - 1);
                },
                _ => {},
            }
        }
    }
}

/// How many loads of `var` the backward list `kept` holds after its last
/// store to `var`, that is, nearer the end of the program than that store.
pub open spec fn loads_since_store(kept: Seq<OpCode>, var: usize) -> nat
    decreases kept.len(),
{
    if kept.len() == 0 {
        0
    } else if kept.last() == OpCode::Store(var) {
        0
    } else if kept.last() == OpCode::Load(var) {
        loads_since_store(kept.drop_last(), var) + 1
    } else {
        loads_since_store(kept.drop_last(), var)
    }
}

proof fn lemma_loads_since_store_bounded(kept: Seq<OpCode>, var: usize)
    ensures
        loads_since_store(kept, var) <= kept.len(),
    decreases kept.len(),
{
    if kept.len() > 0 {
        lemma_loads_since_store_bounded(kept.drop_last(), var);
    }
}

/// The counts of the pass are the loads that its kept opcodes hold.
proof fn lemma_pass_counts(s: Seq<OpCode>, k: nat)
    requires
        k <= s.len() <= usize::MAX,
    ensures
        pass(s, k).kept.len() <= k,
        forall|v: usize| #[trigger] loads_of(pass(s, k).loads, v) == loads_since_store(pass(s, k).kept, v),
    decreases k,
{
    if k > 0 {
        lemma_pass_counts(s, (k - 1) as nat);
        let prev = pass(s, (k - 1) as nat);
        let cur = pass(s, k);
        let op = s[s.len() - k];
        assert(cur == pass_step(prev, op));
        assert forall|v: usize| #[trigger] loads_of(cur.loads, v) == loads_since_store(cur.kept, v) by {
            lemma_loads_since_store_bounded(prev.kept, v);
            assert(loads_of(prev.loads, v) == loads_since_store(prev.kept, v));
            match op {
                OpCode::Load(x) => {
                    lemma_loads_since_store_bounded(prev.kept, x);
                    assert(cur.kept.drop_last() =~= prev.kept);
                    assert(cur.kept.last() == op);
                },
                OpCode::Store(x) => {
                    let count = loads_of(prev.loads, x);
                    if count == 0 {
                        assert(cur.kept.drop_last() =~= prev.kept);
                        assert(cur.kept.last() == OpCode::Pop);
                    } else if prev.kept.len() > 0 && prev.kept.last() == OpCode::Load(x) && count == 1 {
                        assert(prev.kept.drop_last() =~= cur.kept);
                        assert(loads_since_store(prev.kept, x) == loads_since_store(cur.kept, x) + 1);
                    } else {
                        assert(cur.kept.drop_last() =~= prev.kept);
                        assert(cur.kept.last() == op);
                    }
                },
                OpCode::Tuple(n) => {
                    if n == 0 && prev.kept.len() > 0 && prev.kept.last() == OpCode::Pop {
                        assert(prev.kept.drop_last() =~= cur.kept);
                    } else {
                        assert(cur.kept.drop_last() =~= prev.kept);
                        assert(cur.kept.last() == op);
                    }
                },
                _ => {
                    assert(cur.kept.drop_last() =~= prev.kept);
                    assert(cur.kept.last() == op);
                },
            }
        }
    }
}

/// The opcode at `j` of the backward list `kept` is one that a pass which
/// has kept `kept[0..j]` keeps as it is.
pub open spec fn kept_as_is(kept: Seq<OpCode>, j: int) -> bool {
    let before = kept.subrange(0, j);
    match kept[j] {
        OpCode::Store(v) => loads_since_store(before, v) != 0 && !(j >= 1 && kept[j - 1] == OpCode::Load(v)
            && loads_since_store(before, v) == 1),
        OpCode::Tuple(n) => n == 0 ==> !(j >= 1 && kept[j - 1] == OpCode::Pop),
        _ => true,
    }
}

/// A backward list that a pass leaves as it is.
pub open spec fn settled(kept: Seq<OpCode>) -> bool {
    forall|j: int| 0 <= j < kept.len() ==> #[trigger] kept_as_is(kept, j)
}

proof fn lemma_pass_settled(s: Seq<OpCode>, k: nat)
    requires
        k <= s.len() <= usize::MAX,
    ensures
        settled(pass(s, k).kept),
    decreases k,
{
    if k > 0 {
        lemma_pass_settled(s, (k - 1) as nat);
        lemma_pass_counts(s, (k - 1) as nat);
        let prev = pass(s, (k - 1) as nat).kept;
        let cur = pass(s, k).kept;
        assert forall|j: int| 0 <= j < cur.len() implies #[trigger] kept_as_is(cur, j) by {
            if j < prev.len() {
                assert(cur[j] == prev[j]);
                assert(cur.subrange(0, j) =~= prev.subrange(0, j));
                if j >= 1 {
                    assert(cur[j - 1] == prev[j - 1]);
                }
                assert(kept_as_is(prev, j));
            } else {
                assert(cur.subrange(0, j) =~= prev);
            }
        }
    }
}

proof fn lemma_pass_keeps_settled(kept: Seq<OpCode>, k: nat)
    requires
        settled(kept),
        k <= kept.len() <= usize::MAX,
    ensures
        pass(kept.reverse(), k).kept == kept.subrange(0, k as int),
    decreases k,
{
    let t = kept.reverse();
    if k > 0 {
        lemma_pass_keeps_settled(kept, (k - 1) as nat);
        lemma_pass_counts(t, (k - 1) as nat);
        let op = t[t.len() - k];
        assert(op == kept[k - 1]);
        assert(kept_as_is(kept, k - 1));
        assert(kept.subrange(0, k - 1).len() == k - 1);
        if k >= 2 {
            assert(kept.subrange(0, k - 1).last() == kept[k - 2]);
        }
        assert(kept.subrange(0, k as int) =~= kept.subrange(0, k - 1).push(op));
    } else {
        assert(kept.subrange(0, 0) =~= Seq::<OpCode>::empty());
    }
}

/// Optimizing a second time changes nothing.
pub proof fn lemma_optimize_idempotent(s: Seq<OpCode>)
    requires
        s.len() <= usize::MAX,
    ensures
        optimized(optimized(s)) == optimized(s),
{
    let kept = pass(s, s.len()).kept;
    lemma_pass_counts(s, s.len());
    lemma_pass_settled(s, s.len());
    lemma_pass_keeps_settled(kept, kept.len());
    assert(kept.subrange(0, kept.len() as int) =~= kept);
    assert(kept.reverse().len() == kept.len());
}

/// Removes dead stores and empty tuples that are popped right away, in one
/// backward pass over `stream`.
pub fn eliminate_unused_vars(stream: &Vec<OpCode>) -> (r: Vec<OpCode>)
    ensures
        r@ == optimized(stream@),
{
    let mut loads: HashMap<usize, usize> = HashMap::new();
    let mut kept: Vec<OpCode> = Vec::new();
    let n: usize = stream.len();
    let mut i: usize = n;
    while i > 0
        invariant
            n == stream@.len(),
            i <= stream@.len(),
            loads@ == pass(stream@, (stream@.len() - i) as nat).loads,
            kept@ == pass(stream@, (stream@.len() - i) as nat).kept,
        decreases i,
    {
        proof {
            lemma_pass_loads_bounded(stream@, (stream@.len() - i) as nat);
        }
        i = i - 1;
        let oc = stream[i];
        let ghost before = pass(stream@, (stream@.len() - i - 1) as nat);
        assert(pass(stream@, (stream@.len() - i) as nat) == pass_step(before, oc));
        match oc {
            OpCode::Load(var) => {
                let count: usize = match loads.get(&var) {
                    Some(c) => *c,
                    None => 0,
                };
                assert(count == loads_of(before.loads, var));
                loads.insert(var, count + 1);
                kept.push(oc);
            },
            OpCode::Store(var) => {
                let count: usize = match loads.get(&var) {
                    Some(c) => *c,
                    None => 0,
                };
                assert(count == loads_of(before.loads, var));
                if count == 0 {
                    kept.push(OpCode::Pop);
                } else if kept.len() > 0 && kept[kept.len() - 1] == OpCode::Load(var) && count == 1 {
                    kept.pop();
                    loads.insert(var, 0);
                } else {
                    kept.push(oc);
                    loads.insert(var, 0);
                }
            },
            OpCode::Tuple(0) => {
                if kept.len() > 0 && kept[kept.len() - 1] == OpCode::Pop {
                    kept.pop();
                } else {
                    kept.push(oc);
                }
            },
            _ => {
                kept.push(oc);
            },
        }
        assert(loads@ == pass_step(before, oc).loads);
        assert(kept@ =~= pass_step(before, oc).kept);
    }
    let mut out: Vec<OpCode> = Vec::new();
    let mut j: usize = kept.len();
    while j > 0
        invariant
            j <= kept@.len(),
            out@ =~= kept@.subrange(j as int, kept@.len() as int).reverse(),
        decreases j,
    {
        j = j - 1;
        out.push(kept[j]);
        assert(kept@.subrange(j as int, kept@.len() as int).reverse() =~= kept@.subrange(
            j + 1,
            kept@.len() as int,
        ).reverse().push(kept@[j as int]));
    }
    assert(kept@.subrange(0, kept@.len() as int) =~= kept@);
    out
}

} // verus!
