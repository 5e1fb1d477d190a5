//! The interpreter: layers, key frames and caches.

use vstd::prelude::*;
use crate::animation::brush::TimeMicros;
use crate::db::engine::Engine;
use crate::db::error::StoreError;
use crate::db::flo_store::DatabaseUpdate;
use crate::db::matchers::{CacheAt, CacheOfLayer, FrameAt, FrameOfLayer, LayerAssigned};
use crate::db::relation::{find_by_key, find_by_match, remove_by_key, remove_matching};
use crate::db::rows::{CacheRow, KeyFrameRow, LayerRow};
use crate::db::step::{group_of, nearest_key_frame, needs, step_layer, Group};

verus! {

/// Finds the key frame of a layer that is the nearest at or before a time.
pub fn find_nearest_key_frame(rows: &Vec<KeyFrameRow>, layer: i64, when: TimeMicros) -> (r: Option<usize>)
    ensures
        r matches Some(i) ==> i < rows@.len(),
        match r {
            Some(i) => nearest_key_frame(rows@, layer, when) == Some(i as int),
            None => nearest_key_frame(rows@, layer, when) is None,
        },
{
    let mut best: Option<usize> = None;
    let mut i: usize = 0;
    while i < rows.len()
        invariant
            i <= rows@.len(),
            best matches Some(k) ==> k < i,
            match best {
                Some(k) => nearest_key_frame(rows@.take(i as int), layer, when) == Some(k as int),
                None => nearest_key_frame(rows@.take(i as int), layer, when) is None,
            },
        decreases rows.len() - i,
    {
        proof {
            assert(rows@.take(i + 1).drop_last() =~= rows@.take(i as int));
        }
        let row = rows[i];
        if row.layer == layer && row.when <= when {
            let better = match best {
                Some(k) => rows[k].when <= row.when,
                None => true,
            };
            if better {
                best = Some(i);
            }
        }
        i += 1;
    }
    proof {
        assert(rows@.take(i as int) =~= rows@);
    }
    best
}

impl Engine {
    /// Carries out an instruction on layers, key frames or caches.
    pub(crate) fn apply_layer(&mut self, u: &DatabaseUpdate) -> (r: Result<(), StoreError>)
        requires
            old(self)@.stack.len() >= needs(u@),
            group_of(u@) == Group::Layer,
        ensures
            match step_layer(old(self)@, u@) {
                Ok(m) => r is Ok && final(self)@ == m,
                Err(e) => r == Err::<(), StoreError>(e),
            },
    {
        match u {
            DatabaseUpdate::UpdateCanvasSize(w, h) => {
                self.tables.size = Some((*w, *h));
            },
            DatabaseUpdate::PushLayerType(layer_type) => {
                let id = self.fresh_id()?;
                self.tables.layers.push(LayerRow { id, layer_type: *layer_type, assigned: None, name: None });
                self.stack.push(id);
            },
            DatabaseUpdate::PushAssignLayer(assigned) => {
                match find_by_key(&self.tables.layers, self.peek(0)) {
                    None => {
                        return Err(StoreError::MissingLayer);
                    },
                    Some(i) => {
                        let row = self.tables.layers[i];
                        self.tables.layers.set(
                            i,
                            LayerRow {
                                id: row.id,
                                layer_type: row.layer_type,
                                assigned: Some(*assigned),
                                name: row.name,
                            },
                        );
                    },
                }
            },
            DatabaseUpdate::PushLayerId(id) => {
                self.stack.push(*id);
            },
            DatabaseUpdate::PushLayerForAssignedId(assigned) => {
                match find_by_match(&self.tables.layers, LayerAssigned(*assigned)) {
                    None => {
                        return Err(StoreError::MissingLayer);
                    },
                    Some(i) => {
                        let id = self.tables.layers[i].id;
                        self.stack.push(id);
                    },
                }
            },
            DatabaseUpdate::PopDeleteLayer => {
                let id = self.peek(0);
                self.tables.layers = remove_by_key(&self.tables.layers, id);
                self.tables.key_frames = remove_matching(&self.tables.key_frames, FrameOfLayer(id));
                self.tables.caches = remove_matching(&self.tables.caches, CacheOfLayer(id));
                self.drop_top(1);
            },
            DatabaseUpdate::PopLayerName(name) => {
                match find_by_key(&self.tables.layers, self.peek(0)) {
                    None => {
                        return Err(StoreError::MissingLayer);
                    },
                    Some(i) => {
                        let at = self.tables.strings.len();
                        self.tables.strings.push(name.clone());
                        let row = self.tables.layers[i];
                        self.tables.layers.set(
                            i,
                            LayerRow {
                                id: row.id,
                                layer_type: row.layer_type,
                                assigned: row.assigned,
                                name: Some(at),
                            },
                        );
                        self.drop_top(1);
                        proof {
                            assert(self@.tables.strings =~= old(self)@.tables.strings.push(name@));
                        }
                    },
                }
            },
            DatabaseUpdate::PopAddKeyFrame(when) => {
                let layer = self.peek(0);
                match find_by_key(&self.tables.layers, layer) {
                    None => {
                        return Err(StoreError::MissingLayer);
                    },
                    Some(_) => {
                        let id = self.fresh_id()?;
                        self.tables.key_frames.push(KeyFrameRow { id, layer, when: *when });
                        self.drop_top(1);
                    },
                }
            },
            DatabaseUpdate::PopRemoveKeyFrame(when) => {
                let layer = self.peek(0);
                self.tables.key_frames = remove_matching(
                    &self.tables.key_frames,
                    FrameAt { layer, when: *when },
                );
                self.drop_top(1);
            },
            DatabaseUpdate::PopStoreLayerCache(when, cache_type, value) => {
                let layer = self.peek(0);
                let at = self.tables.strings.len();
                self.tables.strings.push(value.clone());
                let mut kept = remove_matching(
                    &self.tables.caches,
                    CacheAt { layer, when: *when, cache_type: *cache_type },
                );
                kept.push(CacheRow { layer, when: *when, cache_type: *cache_type, value: at });
                self.tables.caches = kept;
                self.drop_top(1);
                proof {
                    assert(self@.tables.strings =~= old(self)@.tables.strings.push(value@));
                }
            },
            DatabaseUpdate::PopDeleteLayerCache(when, cache_type) => {
                let layer = self.peek(0);
                self.tables.caches = remove_matching(
                    &self.tables.caches,
                    CacheAt { layer, when: *when, cache_type: *cache_type },
                );
                self.drop_top(1);
            },
            DatabaseUpdate::PushNearestKeyFrame(when) => {
                match find_nearest_key_frame(&self.tables.key_frames, self.peek(0), *when) {
                    None => {
                        return Err(StoreError::MissingKeyFrame);
                    },
                    Some(i) => {
                        let row = self.tables.key_frames[i];
                        self.drop_top(1);
                        self.stack.push(row.when);
                        self.stack.push(row.id);
                    },
                }
            },
            _ => {},
        }
        proof {
            assert(self@ =~= step_layer(old(self)@, u@).unwrap());
        }
        Ok(())
    }
}

} // verus!
