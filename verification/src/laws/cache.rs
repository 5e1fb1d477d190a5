//! What is cached for a layer at a time is forgotten when the layer is edited
//! at that time, and what is cached for other layers stays.

use vstd::prelude::*;
use crate::animation::brush::TimeMicros;
use crate::animation::brushes::Brush;
use crate::animation::cache_type::CacheType;
use crate::animation::edit::{AnimationEditView, LayerEditView};
use crate::db::animation_core::{paint_updates, paint_vector_layer_spec, submit, CoreView, EditOutcome};
use crate::db::error::StoreError;
use crate::db::flo_file::StoreView;
use crate::db::flo_store::UpdateView;
use crate::db::matchers::CacheAt;
use crate::db::perform_edit::{edit_vector_layer_spec, layer_id_of, perform_edit_spec, with_layer_id, carry_out, apply_layer_edit_spec, invalidate_updates, path_plan, path_vector_layer_spec, planned, then_invalidate, Plan};
use crate::db::relation::{find_match, lemma_find_match, lemma_without_match, lemma_without_other, without_match, Matcher};
use crate::db::rows::TablesView;
use crate::db::step::{run, step, Machine};
use crate::laws::clean::{clean, lemma_paint_clean, lemma_path_clean};
use crate::laws::frame::{lemma_run_keeps_caches, same_caches, starts_with};
use crate::laws::symbolic::lemma_run_2;

verus! {

/// The time that an edit to a layer is made at, if it is one of those that
/// change what the layer shows.
pub open spec fn edit_time(edit: LayerEditView) -> Option<TimeMicros> {
    match edit {
        LayerEditView::Paint(when, _) => Some(when),
        LayerEditView::Path(when, _) => Some(when),
        LayerEditView::AddKeyFrame(when) => Some(when),
        LayerEditView::RemoveKeyFrame(when) => Some(when),
        _ => None,
    }
}

/// True if every cached value is one of the strings that the tables hold.
pub open spec fn caches_valid(t: TablesView) -> bool {
    forall|i: int| 0 <= i < t.caches.len() ==> (#[trigger] t.caches[i]).value < t.strings.len()
}

/// True if `after` answers for every layer but `layer_id` what `before` answers
/// when it is asked what is cached.
pub open spec fn other_caches_kept(before: TablesView, after: TablesView, layer_id: i64) -> bool {
    forall|cache_type: CacheType, other: i64, when: TimeMicros|
        other != layer_id ==> #[trigger] after.layer_cache(cache_type, other, when) == before.layer_cache(
            cache_type,
            other,
            when,
        )
}

/// Tables that hold what was cached as it was answer what they answered when
/// they are asked what is cached.
proof fn lemma_same_caches_same_answers(before: TablesView, after: TablesView, layer_id: i64)
    requires
        caches_valid(before),
        same_caches(before, after),
    ensures
        caches_valid(after),
        forall|cache_type: CacheType, other: i64, when: TimeMicros| #[trigger]
            after.layer_cache(cache_type, other, when) == before.layer_cache(cache_type, other, when),
{
    assert forall|cache_type: CacheType, other: i64, when: TimeMicros| #[trigger]
        after.layer_cache(cache_type, other, when) == before.layer_cache(cache_type, other, when) by {
        lemma_find_match(before.caches, CacheAt { layer: other, when, cache_type });
    }
}

/// Forgetting what is cached for a layer at a time leaves nothing cached for
/// the layer at that time, and leaves what is cached for other layers.
proof fn lemma_invalidate(m: Machine, layer_id: i64, when: TimeMicros)
    requires
        caches_valid(m.tables),
        run(m, invalidate_updates(layer_id, when)) is Ok,
    ensures
        run(m, invalidate_updates(layer_id, when)).unwrap().tables.layer_cache(
            CacheType::OnionSkinLayer,
            layer_id,
            when,
        ) is None,
        other_caches_kept(m.tables, run(m, invalidate_updates(layer_id, when)).unwrap().tables, layer_id),
        caches_valid(run(m, invalidate_updates(layer_id, when)).unwrap().tables),
{
    reveal(step);
    let dropped = CacheAt { layer: layer_id, when, cache_type: CacheType::OnionSkinLayer };
    lemma_run_2(
        m,
        UpdateView::PushLayerId(layer_id),
        UpdateView::PopDeleteLayerCache(when, CacheType::OnionSkinLayer),
    );
    let after = run(m, invalidate_updates(layer_id, when)).unwrap().tables;
    let pushed = step(m, UpdateView::PushLayerId(layer_id)).unwrap();
    assert(pushed.peek(0) == layer_id);
    assert(after.caches == without_match(m.tables.caches, dropped));
    assert(after.strings == m.tables.strings);
    lemma_without_match(m.tables.caches, dropped);
    assert forall|i: int| 0 <= i < after.caches.len() implies (#[trigger] after.caches[i]).value
        < after.strings.len() by {
        let k = choose|k: int| 0 <= k < m.tables.caches.len() && m.tables.caches[k] == after.caches[i];
        assert(m.tables.caches[k].value < m.tables.strings.len());
    }
    assert forall|cache_type: CacheType, other: i64, at: TimeMicros| other != layer_id implies #[trigger]
        after.layer_cache(cache_type, other, at) == m.tables.layer_cache(cache_type, other, at) by {
        let kept = CacheAt { layer: other, when: at, cache_type };
        assert forall|row: crate::db::rows::CacheRow| kept.matches(row) implies !dropped.matches(row) by {}
        lemma_without_other(m.tables.caches, dropped, kept);
    }
}

/// Carrying out an edit that changes what a layer shows at a time leaves
/// nothing cached for the layer at that time, and leaves what is cached for
/// other layers.
proof fn lemma_layer_edit_invalidates_cache<B: Brush>(
    brushes: B,
    c: CoreView,
    layer_id: i64,
    edit: LayerEditView,
)
    requires
        edit_time(edit) is Some,
        caches_valid(c.store.tables()),
        apply_layer_edit_spec(brushes, c, layer_id, edit).1 is Ok,
    ensures
        apply_layer_edit_spec(brushes, c, layer_id, edit).0.store.tables().layer_cache(
            CacheType::OnionSkinLayer,
            layer_id,
            edit_time(edit).unwrap(),
        ) is None,
        other_caches_kept(
            c.store.tables(),
            apply_layer_edit_spec(brushes, c, layer_id, edit).0.store.tables(),
            layer_id,
        ),
        caches_valid(apply_layer_edit_spec(brushes, c, layer_id, edit).0.store.tables()),
{
    reveal(StoreView::updated);
    let when = edit_time(edit).unwrap();
    let before: (CoreView, Result<EditOutcome, StoreError>) = match edit {
        LayerEditView::AddKeyFrame(_) => carry_out(
            c,
            Plan::Run(seq![UpdateView::PushLayerId(layer_id), UpdateView::PopAddKeyFrame(when)]),
        ),
        LayerEditView::RemoveKeyFrame(_) => carry_out(
            c,
            Plan::Run(seq![UpdateView::PushLayerId(layer_id), UpdateView::PopRemoveKeyFrame(when)]),
        ),
        LayerEditView::Paint(_, paint) => paint_vector_layer_spec(brushes, c, layer_id, when, paint),
        LayerEditView::Path(_, path) => path_vector_layer_spec(c, layer_id, when, path),
        _ => (c, Ok(EditOutcome::Applied)),
    };
    assert(apply_layer_edit_spec(brushes, c, layer_id, edit) == then_invalidate(before, layer_id, when));
    // The first part leaves what is cached as it was
    match edit {
        LayerEditView::AddKeyFrame(_) => {
            let updates = seq![UpdateView::PushLayerId(layer_id), UpdateView::PopAddKeyFrame(when)];
            assert(clean(updates));
            lemma_run_keeps_caches(c.store.machine, updates);
        },
        LayerEditView::RemoveKeyFrame(_) => {
            let updates = seq![UpdateView::PushLayerId(layer_id), UpdateView::PopRemoveKeyFrame(when)];
            assert(clean(updates));
            lemma_run_keeps_caches(c.store.machine, updates);
        },
        LayerEditView::Paint(_, paint) => {
            lemma_paint_clean(brushes, c, layer_id, when, paint);
            lemma_run_keeps_caches(c.store.machine, paint_updates(brushes, c, layer_id, when, paint));
        },
        LayerEditView::Path(_, path) => {
            lemma_path_clean(c, layer_id, when, path);
            match path_plan(c, layer_id, when, path) {
                Plan::Run(updates) => {
                    lemma_run_keeps_caches(c.store.machine, updates);
                },
                _ => {},
            }
        },
        _ => {},
    }
    let middle = before.0.store.tables();
    assert(same_caches(c.store.tables(), middle));
    lemma_same_caches_same_answers(c.store.tables(), middle, layer_id);
    lemma_invalidate(before.0.store.machine, layer_id, when);
}

/// An edit that changes what a layer shows at a time, and succeeds, leaves
/// nothing cached for the layer at that time: the next request has to generate
/// it anew. What is cached for other layers is still there.
pub proof fn lemma_edit_invalidates_cache<B: Brush>(brushes: B, c: CoreView, layer_id: i64, edit: LayerEditView)
    requires
        edit_time(edit) is Some,
        caches_valid(c.store.tables()),
        edit_vector_layer_spec(brushes, c, layer_id, edit).1 is Ok,
    ensures
        edit_vector_layer_spec(brushes, c, layer_id, edit).0.store.tables().layer_cache(
            CacheType::OnionSkinLayer,
            layer_id,
            edit_time(edit).unwrap(),
        ) is None,
        other_caches_kept(
            c.store.tables(),
            edit_vector_layer_spec(brushes, c, layer_id, edit).0.store.tables(),
            layer_id,
        ),
        caches_valid(edit_vector_layer_spec(brushes, c, layer_id, edit).0.store.tables()),
{
    lemma_layer_edit_invalidates_cache(brushes, c, layer_id, edit);
}

/// An edit to a layer, given by the user-facing id of the layer, that changes
/// what the layer shows at a time, and succeeds, leaves nothing cached for the
/// layer at that time. What is cached for other layers is still there.
pub proof fn lemma_perform_edit_invalidates_cache<B: Brush>(
    brushes: B,
    c: CoreView,
    assigned: u64,
    edit: LayerEditView,
)
    requires
        edit_time(edit) is Some,
        caches_valid(c.store.tables()),
        perform_edit_spec(brushes, c, AnimationEditView::Layer(assigned, edit)).1 is Ok,
    ensures
        perform_edit_spec(brushes, c, AnimationEditView::Layer(assigned, edit)).0.store.tables().layer_cache(
            CacheType::OnionSkinLayer,
            layer_id_of(c, assigned),
            edit_time(edit).unwrap(),
        ) is None,
        other_caches_kept(
            c.store.tables(),
            perform_edit_spec(brushes, c, AnimationEditView::Layer(assigned, edit)).0.store.tables(),
            layer_id_of(c, assigned),
        ),
{
    lemma_layer_edit_invalidates_cache(brushes, with_layer_id(c, assigned), layer_id_of(c, assigned), edit);
}

} // verus!
