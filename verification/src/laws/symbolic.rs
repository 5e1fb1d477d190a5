//! How short batches run, one instruction after the other.

use vstd::prelude::*;
use crate::db::engine_run::lemma_run_push;
use crate::db::flo_store::UpdateView;
use crate::db::step::{run, step, Machine, Outcome};

verus! {

/// What one more instruction does after what went before.
pub open spec fn then(before: Outcome, u: UpdateView) -> Outcome {
    match before {
        Ok(m) => step(m, u),
        Err(e) => Err(e),
    }
}

/// What one more batch does after what went before.
pub open spec fn then_run(before: Outcome, updates: Seq<UpdateView>) -> Outcome {
    match before {
        Ok(m) => run(m, updates),
        Err(e) => Err(e),
    }
}

/// A batch of one instruction is that instruction.
pub proof fn lemma_run_1(m: Machine, a: UpdateView)
    ensures
        run(m, seq![a]) == step(m, a),
{
    lemma_run_push(m, Seq::empty(), a);
    assert(seq![a] =~= Seq::<UpdateView>::empty().push(a));
}

/// A batch of two instructions is the one after the other.
pub proof fn lemma_run_2(m: Machine, a: UpdateView, b: UpdateView)
    ensures
        run(m, seq![a, b]) == then(step(m, a), b),
{
    lemma_run_1(m, a);
    lemma_run_push(m, seq![a], b);
    assert(seq![a, b] =~= seq![a].push(b));
}

/// A batch of three instructions is the one after the other.
pub proof fn lemma_run_3(m: Machine, a: UpdateView, b: UpdateView, c: UpdateView)
    ensures
        run(m, seq![a, b, c]) == then(then(step(m, a), b), c),
{
    lemma_run_2(m, a, b);
    lemma_run_push(m, seq![a, b], c);
    assert(seq![a, b, c] =~= seq![a, b].push(c));
}

/// A batch after a batch is the batch of both.
pub proof fn lemma_run_concat(m: Machine, a: Seq<UpdateView>, b: Seq<UpdateView>)
    ensures
        run(m, a + b) == then_run(run(m, a), b),
    decreases b.len(),
{
    if b.len() == 0 {
        assert(a + b =~= a);
    } else {
        lemma_run_concat(m, a, b.drop_last());
        assert((a + b).drop_last() =~= a + b.drop_last());
        assert((a + b).last() == b.last());
    }
}

} // verus!
