//! What is derived from a layer at a time and kept until the layer is edited
//! at that time.

use vstd::prelude::*;
use crate::animation::brush::TimeMicros;
use crate::animation::brushes::Brush;
use crate::animation::cache_type::CacheType;
use crate::db::animation_core::{submit, AnimationDbCore, CoreView};
use crate::db::batch::Batch;
use crate::db::error::StoreError;
use crate::db::flo_file::{FloFile, FloQuery, FloStore, StoreView};
use crate::db::flo_store::{DatabaseUpdate, UpdateView};

verus! {

/// The instructions that cache a value for a layer at a time.
pub open spec fn store_cache_updates(
    cache_type: CacheType,
    layer_id: i64,
    when: TimeMicros,
    value: Seq<char>,
) -> Seq<UpdateView> {
    seq![UpdateView::PushLayerId(layer_id), UpdateView::PopStoreLayerCache(when, cache_type, value)]
}

/// The instructions that forget what is cached for a layer at a time.
pub open spec fn delete_cache_updates(cache_type: CacheType, layer_id: i64, when: TimeMicros) -> Seq<UpdateView> {
    seq![UpdateView::PushLayerId(layer_id), UpdateView::PopDeleteLayerCache(when, cache_type)]
}

impl<TFile: FloFile, TBrush: Brush> AnimationDbCore<TFile, TBrush> {
    /// Retrieves what is cached of one kind for a layer at a time
    pub fn retrieve_cached(&self, cache_type: CacheType, layer_id: i64, when: TimeMicros) -> (r: Option<String>)
        ensures
            match r {
                Some(value) => self@.store.tables().layer_cache(cache_type, layer_id, when) == Some(value@),
                None => self@.store.tables().layer_cache(cache_type, layer_id, when) is None,
            },
    {
        self.db.query_layer_cache(cache_type, layer_id, when)
    }

    /// Caches a value for a layer at a time in place of what was cached there
    pub fn store_cached(&mut self, cache_type: CacheType, layer_id: i64, when: TimeMicros, value: String) -> (r:
        Result<(), StoreError>)
        ensures
            final(self)@ == submit(old(self)@, store_cache_updates(cache_type, layer_id, when, value@)).0,
            r == submit(old(self)@, store_cache_updates(cache_type, layer_id, when, value@)).1,
            r is Ok ==> final(self)@.store.depth() == old(self)@.store.depth(),
            final(self).brushes == old(self).brushes,
    {
        let mut batch = Batch::new();
        batch.push(DatabaseUpdate::PushLayerId(layer_id));
        batch.push(DatabaseUpdate::PopStoreLayerCache(when, cache_type, value));
        proof {
            assert(batch@ =~= store_cache_updates(cache_type, layer_id, when, value@));
            reveal(StoreView::updated);
            if crate::db::step::run(old(self)@.store.machine, batch@) is Ok {
                crate::db::engine_run::lemma_run_depth(old(self)@.store.machine, batch@);
            }
        }
        self.db.update(batch.into_updates())
    }

    /// Forgets what is cached of one kind for a layer at a time
    pub fn invalidate_cached(&mut self, cache_type: CacheType, layer_id: i64, when: TimeMicros) -> (r: Result<
        (),
        StoreError,
    >)
        ensures
            final(self)@ == submit(old(self)@, delete_cache_updates(cache_type, layer_id, when)).0,
            r == submit(old(self)@, delete_cache_updates(cache_type, layer_id, when)).1,
            r is Ok ==> final(self)@.store.depth() == old(self)@.store.depth(),
            final(self).brushes == old(self).brushes,
    {
        let mut batch = Batch::new();
        batch.push(DatabaseUpdate::PushLayerId(layer_id));
        batch.push(DatabaseUpdate::PopDeleteLayerCache(when, cache_type));
        proof {
            assert(batch@ =~= delete_cache_updates(cache_type, layer_id, when));
            reveal(StoreView::updated);
            if crate::db::step::run(old(self)@.store.machine, batch@) is Ok {
                crate::db::engine_run::lemma_run_depth(old(self)@.store.machine, batch@);
            }
        }
        self.db.update(batch.into_updates())
    }

    /// Retrieves what is cached of one kind for a layer at a time, or, if
    /// nothing is, generates it, caches it and returns it. The generator runs
    /// only if nothing is cached.
    pub fn retrieve_or_generate<F: FnOnce() -> String>(
        &mut self,
        cache_type: CacheType,
        layer_id: i64,
        when: TimeMicros,
        generator: F,
    ) -> (r: Result<String, StoreError>)
        requires
            generator.requires(()),
        ensures
            final(self).brushes == old(self).brushes,
            match old(self)@.store.tables().layer_cache(cache_type, layer_id, when) {
                Some(cached) => final(self)@ == old(self)@ && (r matches Ok(value) && value@ == cached),
                None => exists|generated: String|
                    {
                        &&& generator.ensures((), generated)
                        &&& final(self)@ == submit(
                            old(self)@,
                            store_cache_updates(cache_type, layer_id, when, generated@),
                        ).0
                        &&& match r {
                            Ok(value) => value@ == generated@ && submit(
                                old(self)@,
                                store_cache_updates(cache_type, layer_id, when, generated@),
                            ).1 is Ok,
                            Err(e) => submit(
                                old(self)@,
                                store_cache_updates(cache_type, layer_id, when, generated@),
                            ).1 == Err::<(), StoreError>(e),
                        }
                    },
            },
    {
        match self.retrieve_cached(cache_type, layer_id, when) {
            Some(value) => Ok(value),
            None => {
                let generated = generator();
                let value = generated.clone();
                match self.store_cached(cache_type, layer_id, when, generated) {
                    Ok(()) => Ok(value),
                    Err(e) => Err(e),
                }
            },
        }
    }
}

} // verus!
