//! What instructions leave alone.

use vstd::prelude::*;
use crate::db::flo_store::UpdateView;
use crate::db::rows::TablesView;
use crate::db::step::{group_of, run, step, step_element, step_layer, step_log, step_motion, step_staging, Group, Machine};

verus! {

/// True if `b` starts with `a`.
pub open spec fn starts_with<T>(b: Seq<T>, a: Seq<T>) -> bool {
    a.len() <= b.len() && forall|i: int| 0 <= i < a.len() ==> b[i] == a[i]
}

/// True if the instruction is none of those that write the edit log.
pub open spec fn keeps_log(u: UpdateView) -> bool {
    !(group_of(u) is Log)
}

/// True if the instruction is none of those that change what is cached.
pub open spec fn keeps_caches(u: UpdateView) -> bool {
    !(u is PopStoreLayerCache || u is PopDeleteLayerCache || u is PopDeleteLayer)
}

/// True if `after` holds the edit log of `before` as it was, and the strings of
/// `before` at the positions at which they were.
pub open spec fn same_log(before: TablesView, after: TablesView) -> bool {
    &&& after.edit_log == before.edit_log
    &&& after.edit_params == before.edit_params
    &&& starts_with(after.strings, before.strings)
}

/// True if `after` holds what was cached in `before` as it was, and the strings
/// of `before` at the positions at which they were.
pub open spec fn same_caches(before: TablesView, after: TablesView) -> bool {
    &&& after.caches == before.caches
    &&& starts_with(after.strings, before.strings)
}

/// An instruction of the staging group changes neither the edit log nor the
/// caches nor the strings.
proof fn lemma_staging_frame(m: Machine, u: UpdateView)
    requires
        group_of(u) is Staging,
        step_staging(m, u) is Ok,
    ensures
        same_log(m.tables, step_staging(m, u).unwrap().tables),
        same_caches(m.tables, step_staging(m, u).unwrap().tables),
{
}

/// An instruction on elements changes neither the edit log nor the caches nor
/// the strings.
proof fn lemma_element_frame(m: Machine, u: UpdateView)
    requires
        group_of(u) is Element,
        step_element(m, u) is Ok,
    ensures
        same_log(m.tables, step_element(m, u).unwrap().tables),
        same_caches(m.tables, step_element(m, u).unwrap().tables),
{
}

/// An instruction on motions changes neither the edit log nor the caches nor
/// the strings.
proof fn lemma_motion_frame(m: Machine, u: UpdateView)
    requires
        group_of(u) is Motion,
        step_motion(m, u) is Ok,
    ensures
        same_log(m.tables, step_motion(m, u).unwrap().tables),
        same_caches(m.tables, step_motion(m, u).unwrap().tables),
{
}

/// An instruction on layers leaves the edit log alone, and the caches too
/// unless it is one of those that change them.
proof fn lemma_layer_frame(m: Machine, u: UpdateView)
    requires
        group_of(u) is Layer,
        step_layer(m, u) is Ok,
    ensures
        same_log(m.tables, step_layer(m, u).unwrap().tables),
        keeps_caches(u) ==> same_caches(m.tables, step_layer(m, u).unwrap().tables),
{
}

/// An instruction that writes the edit log leaves the caches alone.
proof fn lemma_log_frame(m: Machine, u: UpdateView)
    requires
        group_of(u) is Log,
        step_log(m, u) is Ok,
    ensures
        same_caches(m.tables, step_log(m, u).unwrap().tables),
{
}

/// An instruction that succeeds leaves alone what it is not there to change.
pub proof fn lemma_step_frame(m: Machine, u: UpdateView)
    requires
        step(m, u) is Ok,
    ensures
        keeps_log(u) ==> same_log(m.tables, step(m, u).unwrap().tables),
        keeps_caches(u) ==> same_caches(m.tables, step(m, u).unwrap().tables),
{
    reveal(step);
    match group_of(u) {
        Group::Stack => {},
        Group::Log => lemma_log_frame(m, u),
        Group::Staging => lemma_staging_frame(m, u),
        Group::Layer => lemma_layer_frame(m, u),
        Group::Element => lemma_element_frame(m, u),
        Group::Motion => lemma_motion_frame(m, u),
    }
}

/// A batch that succeeds and holds no instruction that writes the edit log
/// leaves the edit log as it was.
pub proof fn lemma_run_keeps_log(m: Machine, updates: Seq<UpdateView>)
    requires
        run(m, updates) is Ok,
        forall|i: int| 0 <= i < updates.len() ==> keeps_log(#[trigger] updates[i]),
    ensures
        same_log(m.tables, run(m, updates).unwrap().tables),
    decreases updates.len(),
{
    if updates.len() > 0 {
        let rest = updates.drop_last();
        assert forall|i: int| 0 <= i < rest.len() implies keeps_log(#[trigger] rest[i]) by {
            assert(rest[i] == updates[i]);
        }
        lemma_run_keeps_log(m, rest);
        assert(keeps_log(updates[updates.len() - 1]));
        lemma_step_frame(run(m, rest).unwrap(), updates.last());
    }
}

/// A batch that succeeds and holds no instruction that changes what is cached
/// leaves what is cached as it was.
pub proof fn lemma_run_keeps_caches(m: Machine, updates: Seq<UpdateView>)
    requires
        run(m, updates) is Ok,
        forall|i: int| 0 <= i < updates.len() ==> keeps_caches(#[trigger] updates[i]),
    ensures
        same_caches(m.tables, run(m, updates).unwrap().tables),
    decreases updates.len(),
{
    if updates.len() > 0 {
        let rest = updates.drop_last();
        assert forall|i: int| 0 <= i < rest.len() implies keeps_caches(#[trigger] rest[i]) by {
            assert(rest[i] == updates[i]);
        }
        lemma_run_keeps_caches(m, rest);
        assert(keeps_caches(updates[updates.len() - 1]));
        lemma_step_frame(run(m, rest).unwrap(), updates.last());
    }
}

/// True if the tables are no larger than tables held in memory can be.
pub open spec fn fits(t: TablesView) -> bool {
    &&& t.edit_params.len() <= usize::MAX
    &&& t.strings.len() <= usize::MAX
    &&& t.path_points.len() <= usize::MAX
    &&& t.time_points.len() <= usize::MAX
}

/// True if the tables of `after` are no smaller than those of `before` where
/// tables only grow.
pub open spec fn grown(before: TablesView, after: TablesView) -> bool {
    &&& before.edit_log.len() <= after.edit_log.len()
    &&& before.edit_params.len() <= after.edit_params.len()
    &&& before.strings.len() <= after.strings.len()
    &&& before.path_points.len() <= after.path_points.len()
    &&& before.time_points.len() <= after.time_points.len()
}

/// An instruction of the edit log only adds to the tables that only grow.
proof fn lemma_log_grows(m: Machine, u: UpdateView)
    requires
        group_of(u) is Log,
        step_log(m, u) is Ok,
    ensures
        grown(m.tables, step_log(m, u).unwrap().tables),
{
}

/// An instruction of the staging group only adds to the tables that only grow.
proof fn lemma_staging_grows(m: Machine, u: UpdateView)
    requires
        group_of(u) is Staging,
        step_staging(m, u) is Ok,
    ensures
        grown(m.tables, step_staging(m, u).unwrap().tables),
{
}

/// An instruction on layers only adds to the tables that only grow.
proof fn lemma_layer_grows(m: Machine, u: UpdateView)
    requires
        group_of(u) is Layer,
        step_layer(m, u) is Ok,
    ensures
        grown(m.tables, step_layer(m, u).unwrap().tables),
{
}

/// An instruction on elements only adds to the tables that only grow.
proof fn lemma_element_grows(m: Machine, u: UpdateView)
    requires
        group_of(u) is Element,
        step_element(m, u) is Ok,
    ensures
        grown(m.tables, step_element(m, u).unwrap().tables),
{
}

/// An instruction on motions only adds to the tables that only grow.
proof fn lemma_motion_grows(m: Machine, u: UpdateView)
    requires
        group_of(u) is Motion,
        step_motion(m, u) is Ok,
    ensures
        grown(m.tables, step_motion(m, u).unwrap().tables),
{
}

/// An instruction that succeeds only adds to the tables that only grow.
pub proof fn lemma_step_grows(m: Machine, u: UpdateView)
    requires
        step(m, u) is Ok,
    ensures
        grown(m.tables, step(m, u).unwrap().tables),
{
    reveal(step);
    match group_of(u) {
        Group::Stack => {},
        Group::Log => lemma_log_grows(m, u),
        Group::Staging => lemma_staging_grows(m, u),
        Group::Layer => lemma_layer_grows(m, u),
        Group::Element => lemma_element_grows(m, u),
        Group::Motion => lemma_motion_grows(m, u),
    }
}

/// A batch that succeeds only adds to the tables that only grow.
pub proof fn lemma_run_grows(m: Machine, updates: Seq<UpdateView>)
    requires
        run(m, updates) is Ok,
    ensures
        grown(m.tables, run(m, updates).unwrap().tables),
    decreases updates.len(),
{
    if updates.len() > 0 {
        lemma_run_grows(m, updates.drop_last());
        lemma_step_grows(run(m, updates.drop_last()).unwrap(), updates.last());
    }
}

} // verus!
