//! Motions: what they are and what they are attached to.

use vstd::prelude::*;
use crate::animation::brush::Bits32;
use crate::animation::brushes::Brush;
use crate::animation::element_id::ElementId;
use crate::animation::motion::{MotionType, TimeControlPoint, TimeCurve};
use crate::db::animation_core::AnimationDbCore;
use crate::db::db_enum::VectorElementType;
use crate::db::edit_stream::read_curve;
use crate::db::flo_file::{FloFile, FloQuery};
use crate::db::flo_query::{attached_ids, attached_to_ids};
use crate::db::points::parse_curve;
use crate::db::rows::{MotionRow, TablesView};

verus! {

/// A motion: its type, where it starts and the curve it follows.
#[derive(Clone, Debug, PartialEq, Eq)]
pub struct Motion {
    pub motion_type: MotionType,
    pub origin: Option<(Bits32, Bits32)>,
    pub path: Option<TimeCurve>,
}

impl TablesView {
    /// The curve that a motion follows, if it has a path that spells one.
    pub open spec fn motion_curve(self, row: MotionRow) -> Option<Seq<TimeControlPoint>> {
        match self.motion_path_points(row) {
            Some(points) => parse_curve(points),
            None => None,
        }
    }

    /// The assigned ids of those of the elements with the ids `ids` that are
    /// of the type `wanted`, or of any type if none is wanted, in their order.
    pub open spec fn assigned_among(self, ids: Seq<i64>, wanted: Option<VectorElementType>) -> Seq<ElementId>
        decreases ids.len(),
    {
        if ids.len() == 0 {
            Seq::empty()
        } else {
            let rest = self.assigned_among(ids.drop_last(), wanted);
            match self.element(ids.last()) {
                Some(row) => match row.assigned {
                    Some(assigned) => if wanted is None || wanted == Some(row.element_type) {
                        rest.push(ElementId::Assigned(assigned))
                    } else {
                        rest
                    },
                    None => rest,
                },
                None => rest,
            }
        }
    }

    /// The motions that are attached to an element, in the order in which they
    /// were attached.
    pub open spec fn motions_for_element(self, id: ElementId) -> Seq<ElementId> {
        match self.element_id(id) {
            Some(element) => self.assigned_among(
                attached_ids(self.attachments, element),
                Some(VectorElementType::Motion),
            ),
            None => Seq::empty(),
        }
    }

    /// The elements that a motion is attached to, in the order in which it was
    /// attached to them.
    pub open spec fn elements_for_motion(self, id: ElementId) -> Seq<ElementId> {
        match self.element_id(id) {
            Some(motion) => self.assigned_among(attached_to_ids(self.attachments, motion), None),
            None => Seq::empty(),
        }
    }
}

impl<TFile: FloFile, TBrush: Brush> AnimationDbCore<TFile, TBrush> {
    /// Lists the assigned ids of those of the elements with the ids `ids` that
    /// are of the type `wanted`.
    fn assigned_among(&self, ids: &Vec<i64>, wanted: Option<VectorElementType>) -> (r: Vec<ElementId>)
        ensures
            r@ == self@.store.tables().assigned_among(ids@, wanted),
    {
        let mut out: Vec<ElementId> = Vec::new();
        let mut i: usize = 0;
        while i < ids.len()
            invariant
                i <= ids@.len(),
                out@ == self@.store.tables().assigned_among(ids@.take(i as int), wanted),
            decreases ids.len() - i,
        {
            proof {
                assert(ids@.take(i + 1).drop_last() =~= ids@.take(i as int));
            }
            match self.db.query_vector_element(ids[i]) {
                Some(row) => match row.assigned {
                    Some(assigned) => {
                        let fits = match wanted {
                            None => true,
                            Some(element_type) => element_type == row.element_type,
                        };
                        if fits {
                            out.push(ElementId::Assigned(assigned));
                        }
                    },
                    None => {},
                },
                None => {},
            }
            i += 1;
        }
        proof {
            assert(ids@.take(i as int) =~= ids@);
        }
        out
    }

    /// Retrieves the motion with the specified id
    pub fn get_motion(&self, motion_id: ElementId) -> (r: Option<Motion>)
        ensures
            match r {
                Some(motion) => motion_id matches ElementId::Assigned(id) && self@.store.tables().motion(
                    id,
                ) matches Some(row) && motion.motion_type == row.motion_type && motion.origin == row.origin
                    && (match motion.path {
                    Some(curve) => self@.store.tables().motion_curve(row) == Some(curve@),
                    None => self@.store.tables().motion_curve(row) is None,
                }),
                None => motion_id is Unassigned || self@.store.tables().motion(motion_id->Assigned_0) is None,
            },
    {
        match motion_id {
            ElementId::Unassigned => None,
            ElementId::Assigned(id) => match self.db.query_motion(id) {
                None => None,
                Some(row) => {
                    let path = match self.db.query_motion_path(&row) {
                        Some(points) => read_curve(&points),
                        None => None,
                    };
                    Some(Motion { motion_type: row.motion_type, origin: row.origin, path })
                },
            },
        }
    }

    /// Retrieves the IDs of the motions attached to a particular element
    pub fn get_motions_for_element(&self, element_id: ElementId) -> (r: Vec<ElementId>)
        ensures
            r@ == self@.store.tables().motions_for_element(element_id),
    {
        match self.db.query_vector_element_id(&element_id) {
            Some(element) => {
                let attached = self.db.query_attached_elements(element);
                self.assigned_among(&attached, Some(VectorElementType::Motion))
            },
            None => Vec::new(),
        }
    }

    /// Retrieves the IDs of the elements that a particular motion is attached to
    pub fn get_elements_for_motion(&self, motion_id: ElementId) -> (r: Vec<ElementId>)
        ensures
            r@ == self@.store.tables().elements_for_motion(motion_id),
    {
        match self.db.query_vector_element_id(&motion_id) {
            Some(motion) => {
                let elements = self.db.query_elements_attached_to(motion);
                self.assigned_among(&elements, None)
            },
            None => Vec::new(),
        }
    }
}

} // verus!
