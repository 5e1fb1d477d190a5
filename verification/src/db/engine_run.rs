//! The interpreter: one instruction of any kind, and batches.

use vstd::prelude::*;
use crate::db::engine::Engine;
use crate::db::error::StoreError;
use crate::db::flo_store::{updates_view, DatabaseUpdate, UpdateView};
use crate::db::step::{batch_effect, batch_needs, batch_safe, effect, group_of, needs, run, step, step_element, step_layer, step_log, step_motion, step_staging, Group, Machine};

verus! {

/// An instruction of the edit log that succeeds changes the depth of the stack
/// by its effect.
proof fn lemma_depth_log(m: Machine, u: UpdateView)
    requires
        m.stack.len() >= needs(u),
        group_of(u) == Group::Log,
        step_log(m, u) is Ok,
    ensures
        step_log(m, u).unwrap().stack.len() == m.stack.len() + effect(u),
{
}

/// A staging instruction that succeeds changes the depth of the stack by its effect.
proof fn lemma_depth_staging(m: Machine, u: UpdateView)
    requires
        m.stack.len() >= needs(u),
        group_of(u) == Group::Staging,
        step_staging(m, u) is Ok,
    ensures
        step_staging(m, u).unwrap().stack.len() == m.stack.len() + effect(u),
{
}

/// A layer instruction that succeeds changes the depth of the stack by its effect.
proof fn lemma_depth_layer(m: Machine, u: UpdateView)
    requires
        m.stack.len() >= needs(u),
        group_of(u) == Group::Layer,
        step_layer(m, u) is Ok,
    ensures
        step_layer(m, u).unwrap().stack.len() == m.stack.len() + effect(u),
{
}

/// An element instruction that succeeds changes the depth of the stack by its effect.
proof fn lemma_depth_element(m: Machine, u: UpdateView)
    requires
        m.stack.len() >= needs(u),
        group_of(u) == Group::Element,
        step_element(m, u) is Ok,
    ensures
        step_element(m, u).unwrap().stack.len() == m.stack.len() + effect(u),
{
}

/// A motion instruction that succeeds changes the depth of the stack by its effect.
proof fn lemma_depth_motion(m: Machine, u: UpdateView)
    requires
        m.stack.len() >= needs(u),
        group_of(u) == Group::Motion,
        step_motion(m, u) is Ok,
    ensures
        step_motion(m, u).unwrap().stack.len() == m.stack.len() + effect(u),
{
}

/// An instruction that succeeds on a stack deep enough for it changes the depth
/// of the stack by its effect, whatever the tables hold.
pub proof fn lemma_step_depth(m: Machine, u: UpdateView)
    requires
        m.stack.len() >= needs(u),
        step(m, u) is Ok,
    ensures
        step(m, u).unwrap().stack.len() == m.stack.len() + effect(u),
{
    reveal(step);
    match group_of(u) {
        Group::Stack => {},
        Group::Log => lemma_depth_log(m, u),
        Group::Staging => lemma_depth_staging(m, u),
        Group::Layer => lemma_depth_layer(m, u),
        Group::Element => lemma_depth_element(m, u),
        Group::Motion => lemma_depth_motion(m, u),
    }
}

/// A stack deep enough for a batch is deep enough for every prefix of it, and
/// for the instruction that follows the prefix once the prefix has succeeded.
pub proof fn lemma_prefix_safe(depth: int, updates: Seq<UpdateView>, k: int)
    requires
        batch_safe(depth, updates),
        0 <= k <= updates.len(),
    ensures
        batch_safe(depth, updates.take(k)),
        k < updates.len() ==> depth + batch_effect(updates.take(k)) >= needs(updates[k]),
    decreases updates.len(),
{
    if k == updates.len() {
        assert(updates.take(k) =~= updates);
    } else if k == updates.len() - 1 {
        assert(updates.take(k) =~= updates.drop_last());
    } else {
        assert(updates.drop_last().take(k) =~= updates.take(k));
        assert(updates.drop_last()[k] == updates[k]);
        lemma_prefix_safe(depth, updates.drop_last(), k);
    }
}

/// A batch that succeeds on a stack deep enough for it changes the depth of the
/// stack by its effect.
pub proof fn lemma_run_depth(m: Machine, updates: Seq<UpdateView>)
    requires
        batch_safe(m.stack.len() as int, updates),
        run(m, updates) is Ok,
    ensures
        run(m, updates).unwrap().stack.len() == m.stack.len() + batch_effect(updates),
    decreases updates.len(),
{
    if updates.len() > 0 {
        lemma_run_depth(m, updates.drop_last());
        lemma_step_depth(run(m, updates.drop_last()).unwrap(), updates.last());
    }
}

/// A batch fails with the error of its first prefix that fails.
pub proof fn lemma_run_prefix_fails(m: Machine, updates: Seq<UpdateView>, k: int)
    requires
        0 <= k <= updates.len(),
        run(m, updates.take(k)) is Err,
    ensures
        run(m, updates) == run(m, updates.take(k)),
    decreases updates.len(),
{
    if k == updates.len() {
        assert(updates.take(k) =~= updates);
    } else {
        assert(updates.drop_last().take(k) =~= updates.take(k));
        lemma_run_prefix_fails(m, updates.drop_last(), k);
    }
}

/// Running a batch and then one more instruction is running the longer batch.
pub proof fn lemma_run_push(m: Machine, updates: Seq<UpdateView>, u: UpdateView)
    ensures
        run(m, updates.push(u)) == (match run(m, updates) {
            Ok(next) => step(next, u),
            Err(e) => Err(e),
        }),
        batch_effect(updates.push(u)) == batch_effect(updates) + effect(u),
        batch_needs(updates.push(u)) == (if batch_needs(updates) >= needs(u) - batch_effect(updates) {
            batch_needs(updates)
        } else {
            needs(u) - batch_effect(updates)
        }),
{
    assert(updates.push(u).drop_last() =~= updates);
}

/// The part of the instruction set that an instruction belongs to.
fn group(u: &DatabaseUpdate) -> (g: Group)
    ensures
        g == group_of(u@),
{
    match u {
        DatabaseUpdate::Pop | DatabaseUpdate::Duplicate => Group::Stack,
        DatabaseUpdate::PushEditType(_)
        | DatabaseUpdate::PopEditLogSetSize(_, _)
        | DatabaseUpdate::PushEditLogLayer(_)
        | DatabaseUpdate::PushEditLogWhen(_)
        | DatabaseUpdate::PushEditLogElementCount(_)
        | DatabaseUpdate::PushEditLogElementId(_, _)
        | DatabaseUpdate::PopEditLogBrush(_)
        | DatabaseUpdate::PopEditLogBrushProperties
        | DatabaseUpdate::PushRawPoints(_)
        | DatabaseUpdate::PopEditLogString(_, _)
        | DatabaseUpdate::PushEditLogInt(_, _)
        | DatabaseUpdate::PushEditLogMotionType(_)
        | DatabaseUpdate::PushEditLogMotionOrigin(_, _)
        | DatabaseUpdate::PushEditLogMotionPath(_)
        | DatabaseUpdate::PushEditLogPath => Group::Log,
        DatabaseUpdate::PushPath(_)
        | DatabaseUpdate::PushPathComponents(_)
        | DatabaseUpdate::PushTimePoint(_, _, _)
        | DatabaseUpdate::PushBrushType(_)
        | DatabaseUpdate::PushInkBrush(_, _, _)
        | DatabaseUpdate::PushColorType(_)
        | DatabaseUpdate::PushRgb(_, _, _, _)
        | DatabaseUpdate::PushHsluv(_, _, _, _)
        | DatabaseUpdate::PushBrushProperties(_, _) => Group::Staging,
        DatabaseUpdate::UpdateCanvasSize(_, _)
        | DatabaseUpdate::PushLayerType(_)
        | DatabaseUpdate::PushAssignLayer(_)
        | DatabaseUpdate::PushLayerId(_)
        | DatabaseUpdate::PushLayerForAssignedId(_)
        | DatabaseUpdate::PopDeleteLayer
        | DatabaseUpdate::PopLayerName(_)
        | DatabaseUpdate::PopAddKeyFrame(_)
        | DatabaseUpdate::PopRemoveKeyFrame(_)
        | DatabaseUpdate::PopStoreLayerCache(_, _, _)
        | DatabaseUpdate::PopDeleteLayerCache(_, _)
        | DatabaseUpdate::PushNearestKeyFrame(_) => Group::Layer,
        DatabaseUpdate::CreateMotion(_)
        | DatabaseUpdate::DeleteMotion(_)
        | DatabaseUpdate::SetMotionType(_, _)
        | DatabaseUpdate::SetMotionOrigin(_, _, _)
        | DatabaseUpdate::SetMotionPath(_, _, _) => Group::Motion,
        _ => Group::Element,
    }
}

impl Engine {
    /// Carries out one instruction.
    pub(crate) fn apply(&mut self, u: &DatabaseUpdate) -> (r: Result<(), StoreError>)
        requires
            old(self)@.stack.len() >= needs(u@),
        ensures
            match step(old(self)@, u@) {
                Ok(m) => r is Ok && final(self)@ == m,
                Err(e) => r == Err::<(), StoreError>(e),
            },
    {
        proof {
            reveal(step);
        }
        match group(u) {
            Group::Stack => {
                match u {
                    DatabaseUpdate::Pop => {
                        self.drop_top(1);
                    },
                    _ => {
                        let top = self.peek(0);
                        self.stack.push(top);
                    },
                }
                Ok(())
            },
            Group::Log => self.apply_log(u),
            Group::Staging => self.apply_staging(u),
            Group::Layer => self.apply_layer(u),
            Group::Element => self.apply_element(u),
            Group::Motion => self.apply_motion(u),
        }
    }

    /// Carries out a batch of instructions, up to the first that fails.
    pub(crate) fn run_batch(&mut self, updates: &Vec<DatabaseUpdate>) -> (r: Result<(), StoreError>)
        requires
            batch_safe(old(self)@.stack.len() as int, updates_view(updates@)),
        ensures
            match run(old(self)@, updates_view(updates@)) {
                Ok(m) => r is Ok && final(self)@ == m,
                Err(e) => r == Err::<(), StoreError>(e),
            },
    {
        let ghost all = updates_view(updates@);
        let ghost depth = old(self)@.stack.len() as int;
        let mut i: usize = 0;
        proof {
            assert(all.take(0) =~= Seq::empty());
        }
        while i < updates.len()
            invariant
                i <= updates@.len(),
                all == updates_view(updates@),
                depth == old(self)@.stack.len(),
                batch_safe(depth, all),
                run(old(self)@, all.take(i as int)) == Ok::<Machine, StoreError>(self@),
            decreases updates.len() - i,
        {
            proof {
                lemma_prefix_safe(depth, all, i as int);
                lemma_run_depth(old(self)@, all.take(i as int));
                assert(all.take(i + 1).drop_last() =~= all.take(i as int));
                assert(all.take(i + 1).last() == updates@[i as int]@);
            }
            match self.apply(&updates[i]) {
                Err(e) => {
                    proof {
                        lemma_run_prefix_fails(old(self)@, all, i + 1);
                    }
                    return Err(e);
                },
                Ok(()) => {},
            }
            i += 1;
        }
        proof {
            assert(all.take(i as int) =~= all);
        }
        Ok(())
    }
}

} // verus!
