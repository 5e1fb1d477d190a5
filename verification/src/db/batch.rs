//! A batch of instructions in the making.
//!
//! Whoever builds a batch learns with each instruction how deep the stack has to
//! be at the start of the batch and by how much the batch changes its depth, so
//! that a finished batch can be shown to keep the stack in order.

use vstd::prelude::*;
use crate::db::engine_run::lemma_run_push;
use crate::db::flo_store::{updates_view, DatabaseUpdate, UpdateView};
use crate::db::step::{batch_effect, batch_needs, effect, needs, Machine};

verus! {

/// A batch of instructions in the making.
pub struct Batch {
    updates: Vec<DatabaseUpdate>,
}

impl Batch {
    /// The instructions of the batch.
    pub closed spec fn view(&self) -> Seq<UpdateView> {
        updates_view(self.updates@)
    }

    /// A batch without instructions.
    pub fn new() -> (b: Batch)
        ensures
            b@ == Seq::<UpdateView>::empty(),
            batch_needs(b@) == 0,
            batch_effect(b@) == 0,
    {
        let b = Batch { updates: Vec::new() };
        proof {
            assert(b@ =~= Seq::<UpdateView>::empty());
        }
        b
    }

    /// Adds an instruction to the end of the batch.
    pub fn push(&mut self, u: DatabaseUpdate)
        ensures
            final(self)@ == old(self)@.push(u@),
            batch_effect(final(self)@) == batch_effect(old(self)@) + effect(u@),
            batch_needs(final(self)@) == (if batch_needs(old(self)@) >= needs(u@) - batch_effect(
                old(self)@,
            ) {
                batch_needs(old(self)@)
            } else {
                needs(u@) - batch_effect(old(self)@)
            }),
    {
        proof {
            lemma_run_push(Machine::empty(), old(self)@, u@);
        }
        self.updates.push(u);
        proof {
            assert(self@ =~= old(self)@.push(u@));
        }
    }

    /// The number of instructions in the batch.
    pub fn len(&self) -> (n: usize)
        ensures
            n == self@.len(),
    {
        self.updates.len()
    }

    /// The instructions of the batch, to hand to a store.
    pub fn into_updates(self) -> (v: Vec<DatabaseUpdate>)
        ensures
            updates_view(v@) == self@,
    {
        self.updates
    }
}

} // verus!
