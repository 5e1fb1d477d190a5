//! The edit log writer: how each edit is spelled in instructions.
//!
//! An edit is written as one entry of the log. The entry is opened with the tag
//! of the edit; the instructions that follow record its parameters in a fixed
//! order and end by taking the entry from the stack.

use vstd::prelude::*;
use crate::animation::brushes::Brush;
use crate::animation::edit::{AnimationEdit, AnimationEditView, ElementEdit, ElementEditView, ElementOrdering, LayerEdit, LayerEditView, MotionEdit, MotionEditView, PaintEdit, PaintEditView, PathEdit, PathEditView};
use crate::animation::element_id::ElementId;
use crate::db::animation_core::{submit, AnimationDbCore, CoreView};
use crate::db::batch::Batch;
use crate::db::brush::{brush_properties_updates, brush_updates};
use crate::db::db_enum::{drawing_style_type, edit_log_type, DrawingStyleType, EditLogType};
use crate::db::error::StoreError;
use crate::db::flo_file::{FloFile, FloStore, StoreView};
use crate::db::flo_store::{DatabaseUpdate, UpdateView};
use crate::db::perform_edit::{push_curve, time_point_updates};
use crate::db::points::curve_points;
use crate::db::step::{batch_effect, batch_needs, deeper};
use crate::db::tables::copy_rows;

verus! {

/// The instruction that records an element id.
pub open spec fn element_id_log_updates(id: ElementId) -> Seq<UpdateView> {
    seq![UpdateView::PushEditLogElementId(0, id)]
}

/// The instructions that record each id of a list at its position.
pub open spec fn element_id_entries(ids: Seq<ElementId>) -> Seq<UpdateView> {
    Seq::new(ids.len(), |i: int| UpdateView::PushEditLogElementId(i as usize, ids[i]))
}

/// The instructions that record a list of element ids: how many there are, then
/// each at its position.
pub open spec fn element_id_list_updates(ids: Seq<ElementId>) -> Seq<UpdateView> {
    seq![UpdateView::PushEditLogElementCount(ids.len() as usize)] + element_id_entries(ids)
}

/// The instructions that record a paint edit and close the entry.
pub open spec fn paint_log_updates(edit: PaintEditView) -> Seq<UpdateView> {
    match edit {
        PaintEditView::SelectBrush(id, definition, style) => element_id_log_updates(id) + brush_updates(
            definition,
        ) + seq![UpdateView::PopEditLogBrush(drawing_style_type(style))],
        PaintEditView::BrushProperties(id, properties) => element_id_log_updates(id)
            + brush_properties_updates(properties) + seq![UpdateView::PopEditLogBrushProperties],
        PaintEditView::BrushStroke(id, points) => element_id_log_updates(id) + seq![
            UpdateView::PushRawPoints(points),
            UpdateView::Pop,
        ],
    }
}

/// The instructions that record an edit of a path and close the entry.
pub open spec fn path_log_updates(edit: PathEditView) -> Seq<UpdateView> {
    match edit {
        PathEditView::SelectBrush(id, definition, style) => element_id_log_updates(id) + brush_updates(
            definition,
        ) + seq![UpdateView::PopEditLogBrush(drawing_style_type(style))],
        PathEditView::BrushProperties(id, properties) => element_id_log_updates(id)
            + brush_properties_updates(properties) + seq![UpdateView::PopEditLogBrushProperties],
        PathEditView::CreatePath(id, components) => element_id_log_updates(id) + seq![
            UpdateView::PushPathComponents(components),
            UpdateView::PushEditLogPath,
            UpdateView::Pop,
        ],
    }
}

/// The instructions that record an edit to a layer and close the entry.
pub open spec fn layer_log_updates(edit: LayerEditView) -> Seq<UpdateView> {
    match edit {
        LayerEditView::Paint(when, paint) => seq![UpdateView::PushEditLogWhen(when)] + paint_log_updates(paint),
        LayerEditView::Path(when, path) => seq![UpdateView::PushEditLogWhen(when)] + path_log_updates(path),
        LayerEditView::AddKeyFrame(when) => seq![UpdateView::PushEditLogWhen(when), UpdateView::Pop],
        LayerEditView::RemoveKeyFrame(when) => seq![UpdateView::PushEditLogWhen(when), UpdateView::Pop],
        LayerEditView::SetName(name) => seq![UpdateView::PopEditLogString(0, name)],
        LayerEditView::SetOrdering(at) => seq![UpdateView::PushEditLogInt(0, at as i64), UpdateView::Pop],
    }
}

/// The instructions that record an edit to elements, after their ids, and close
/// the entry.
pub open spec fn element_log_updates(edit: ElementEditView) -> Seq<UpdateView> {
    match edit {
        ElementEditView::AddAttachment(_) => seq![UpdateView::Pop],
        ElementEditView::RemoveAttachment(_) => seq![UpdateView::Pop],
        ElementEditView::SetControlPoints(points) => seq![
            UpdateView::PushPath(points),
            UpdateView::PushEditLogPath,
            UpdateView::Pop,
        ],
        ElementEditView::SetPath(components) => seq![
            UpdateView::PushPathComponents(components),
            UpdateView::PushEditLogPath,
            UpdateView::Pop,
        ],
        ElementEditView::Order(ElementOrdering::Before(ElementId::Assigned(id))) => seq![
            UpdateView::PushEditLogInt(0, id),
            UpdateView::Pop,
        ],
        ElementEditView::Order(_) => seq![UpdateView::Pop],
        ElementEditView::Delete => seq![UpdateView::Pop],
        ElementEditView::DetachFromFrame => seq![UpdateView::Pop],
    }
}

/// The instructions that record an edit to a motion, after its id, and close
/// the entry.
pub open spec fn motion_log_updates(edit: MotionEditView) -> Seq<UpdateView> {
    match edit {
        MotionEditView::Create => seq![UpdateView::Pop],
        MotionEditView::Delete => seq![UpdateView::Pop],
        MotionEditView::SetType(motion_type) => seq![
            UpdateView::PushEditLogMotionType(motion_type),
            UpdateView::Pop,
        ],
        MotionEditView::SetOrigin(x, y) => seq![UpdateView::PushEditLogMotionOrigin(x, y), UpdateView::Pop],
        MotionEditView::SetPath(curve) => time_point_updates(curve_points(curve)) + seq![
            UpdateView::PushEditLogMotionPath((3 * curve.len()) as usize),
            UpdateView::Pop,
        ],
    }
}

/// The instructions that record an edit in the entry on the stack and close
/// the entry. The element that an attachment edit attaches is recorded as the
/// first of the edit's elements.
pub open spec fn animation_edit_log_updates(edit: AnimationEditView) -> Seq<UpdateView> {
    match edit {
        AnimationEditView::Layer(layer, layer_edit) => seq![UpdateView::PushEditLogLayer(layer)]
            + layer_log_updates(layer_edit),
        AnimationEditView::SetSize(width, height) => seq![UpdateView::PopEditLogSetSize(width, height)],
        AnimationEditView::AddNewLayer(layer) => seq![UpdateView::PushEditLogLayer(layer), UpdateView::Pop],
        AnimationEditView::RemoveLayer(layer) => seq![UpdateView::PushEditLogLayer(layer), UpdateView::Pop],
        AnimationEditView::Element(ids, ElementEditView::AddAttachment(attached)) => element_id_list_updates(
            seq![attached] + ids,
        ) + seq![UpdateView::Pop],
        AnimationEditView::Element(ids, ElementEditView::RemoveAttachment(attached)) => element_id_list_updates(
            seq![attached] + ids,
        ) + seq![UpdateView::Pop],
        AnimationEditView::Element(ids, element_edit) => element_id_list_updates(ids) + element_log_updates(
            element_edit,
        ),
        AnimationEditView::Motion(id, motion_edit) => element_id_log_updates(id) + motion_log_updates(
            motion_edit,
        ),
    }
}

/// The instructions that write an edit to the edit log.
pub open spec fn edit_log_updates(edit: AnimationEditView) -> Seq<UpdateView> {
    seq![UpdateView::PushEditType(edit_log_type(edit))] + animation_edit_log_updates(edit)
}

/// The instructions that write edits to the edit log, one after the other.
pub open spec fn edits_log_updates(edits: Seq<AnimationEditView>) -> Seq<UpdateView>
    decreases edits.len(),
{
    if edits.len() == 0 {
        Seq::empty()
    } else {
        edits_log_updates(edits.drop_last()) + edit_log_updates(edits.last())
    }
}

/// The core after edits were inserted into the edit log, and what inserting
/// them returns.
pub open spec fn insert_edits_spec(c: CoreView, edits: Seq<AnimationEditView>) -> (CoreView, Result<(), StoreError>) {
    crate::db::perform_edit::minding_failure(c, submit(c, edits_log_updates(edits)))
}

impl<TFile: FloFile, TBrush: Brush> AnimationDbCore<TFile, TBrush> {
    /// Inserts a set of edits into the edit log: all of them, or none if the
    /// store cannot take one of them. Nothing is done while an earlier failure
    /// stays with the core, and a failure to write stays with the core until
    /// it is taken away.
    pub fn insert_edits(&mut self, edits: &Vec<AnimationEdit>) -> (r: Result<(), StoreError>)
        ensures
            final(self)@ == insert_edits_spec(old(self)@, crate::animation::edit::edits_view(edits@)).0,
            r == insert_edits_spec(old(self)@, crate::animation::edit::edits_view(edits@)).1,
            r is Ok ==> final(self)@.store.depth() == old(self)@.store.depth(),
            final(self).brushes == old(self).brushes,
    {
        match self.failure {
            Some(earlier) => {
                return Err(earlier);
            },
            None => {},
        }
        match self.write_edits(edits) {
            Ok(written) => Ok(written),
            Err(e) => {
                self.failure = Some(e);
                Err(e)
            },
        }
    }

    /// Writes a set of edits to the edit log, whatever went before: all of
    /// them, or none if the store cannot take one of them
    pub(crate) fn write_edits(&mut self, edits: &Vec<AnimationEdit>) -> (r: Result<(), StoreError>)
        ensures
            final(self)@ == submit(old(self)@, edits_log_updates(crate::animation::edit::edits_view(edits@))).0,
            r == submit(old(self)@, edits_log_updates(crate::animation::edit::edits_view(edits@))).1,
            r is Ok ==> final(self)@.store.depth() == old(self)@.store.depth(),
            final(self).brushes == old(self).brushes,
    {
        let ghost all = crate::animation::edit::edits_view(edits@);
        let mut batch = Batch::new();
        let mut i: usize = 0;
        proof {
            assert(all.take(0) =~= Seq::empty());
        }
        // Insert all of the edits in turn
        while i < edits.len()
            invariant
                i <= edits@.len(),
                all == crate::animation::edit::edits_view(edits@),
                batch@ == edits_log_updates(all.take(i as int)),
                batch_needs(batch@) == 0,
                batch_effect(batch@) == 0,
            decreases edits.len() - i,
        {
            proof {
                assert(all.take(i + 1).drop_last() =~= all.take(i as int));
                assert(all.take(i + 1).last() == edits@[i as int]@);
            }
            Self::insert_edit_log(&mut batch, &edits[i]);
            i += 1;
        }
        proof {
            assert(all.take(i as int) =~= all);
            reveal(StoreView::updated);
            if crate::db::step::run(old(self)@.store.machine, batch@) is Ok {
                crate::db::engine_run::lemma_run_depth(old(self)@.store.machine, batch@);
            }
        }
        self.db.update(batch.into_updates())
    }

    /// Inserts an element ID into the edit log
    pub fn insert_element_id(batch: &mut Batch, element_id: &ElementId)
        ensures
            final(batch)@ == old(batch)@ + element_id_log_updates(*element_id),
            batch_effect(final(batch)@) == batch_effect(old(batch)@),
            batch_needs(final(batch)@) == deeper(batch_needs(old(batch)@), 1, batch_effect(old(batch)@)),
    {
        batch.push(DatabaseUpdate::PushEditLogElementId(0, *element_id));
        proof {
            assert(batch@ =~= old(batch)@ + element_id_log_updates(*element_id));
        }
    }

    /// Inserts a list of element IDs into the edit log
    pub fn insert_element_id_list(batch: &mut Batch, element_ids: &Vec<ElementId>)
        ensures
            final(batch)@ == old(batch)@ + element_id_list_updates(element_ids@),
            batch_effect(final(batch)@) == batch_effect(old(batch)@),
            batch_needs(final(batch)@) == deeper(batch_needs(old(batch)@), 1, batch_effect(old(batch)@)),
    {
        batch.push(DatabaseUpdate::PushEditLogElementCount(element_ids.len()));
        let mut i: usize = 0;
        proof {
            assert(batch@ =~= old(batch)@ + (seq![
                UpdateView::PushEditLogElementCount(element_ids@.len() as usize),
            ] + element_id_entries(element_ids@.take(0))));
        }
        while i < element_ids.len()
            invariant
                i <= element_ids@.len(),
                batch@ == old(batch)@ + (seq![
                    UpdateView::PushEditLogElementCount(element_ids@.len() as usize),
                ] + element_id_entries(element_ids@.take(i as int))),
                batch_effect(batch@) == batch_effect(old(batch)@),
                batch_needs(batch@) == deeper(batch_needs(old(batch)@), 1, batch_effect(old(batch)@)),
            decreases element_ids.len() - i,
        {
            batch.push(DatabaseUpdate::PushEditLogElementId(i, element_ids[i]));
            proof {
                assert(batch@ =~= old(batch)@ + (seq![
                    UpdateView::PushEditLogElementCount(element_ids@.len() as usize),
                ] + element_id_entries(element_ids@.take(i + 1))));
            }
            i += 1;
        }
        proof {
            assert(element_ids@.take(i as int) =~= element_ids@);
        }
    }

    /// Inserts a single AnimationEdit into the edit log
    pub fn insert_edit_log(batch: &mut Batch, edit: &AnimationEdit)
        ensures
            final(batch)@ == old(batch)@ + edit_log_updates(edit@),
            batch_effect(final(batch)@) == batch_effect(old(batch)@),
            batch_needs(final(batch)@) == deeper(batch_needs(old(batch)@), 0, batch_effect(old(batch)@)),
    {
        // Create the edit type and push the ID
        batch.push(DatabaseUpdate::PushEditType(EditLogType::from(edit)));
        // Insert the values for this edit and pop the ID
        Self::insert_animation_edit(batch, edit);
        proof {
            assert(batch@ =~= old(batch)@ + edit_log_updates(edit@));
        }
    }

    /// Inserts the values for an AnimationEdit into the edit log (the stack must have an edit ID pushed. This will be popped when this returns)
    pub fn insert_animation_edit(batch: &mut Batch, edit: &AnimationEdit)
        ensures
            final(batch)@ == old(batch)@ + animation_edit_log_updates(edit@),
            batch_effect(final(batch)@) == batch_effect(old(batch)@) - 1,
            batch_needs(final(batch)@) == deeper(batch_needs(old(batch)@), 1, batch_effect(old(batch)@)),
    {
        match edit {
            AnimationEdit::Layer(layer_id, layer_edit) => {
                batch.push(DatabaseUpdate::PushEditLogLayer(*layer_id));
                Self::insert_layer_edit(batch, layer_edit);
            },
            AnimationEdit::SetSize(width, height) => {
                batch.push(DatabaseUpdate::PopEditLogSetSize(*width, *height));
            },
            AnimationEdit::AddNewLayer(layer_id) => {
                batch.push(DatabaseUpdate::PushEditLogLayer(*layer_id));
                batch.push(DatabaseUpdate::Pop);
            },
            AnimationEdit::RemoveLayer(layer_id) => {
                batch.push(DatabaseUpdate::PushEditLogLayer(*layer_id));
                batch.push(DatabaseUpdate::Pop);
            },
            AnimationEdit::Element(element_ids, ElementEdit::AddAttachment(element_id)) => {
                // The 'attached' element ID appears at the start of the list as we store it
                let all = with_first(*element_id, element_ids);
                Self::insert_element_id_list(batch, &all);
                batch.push(DatabaseUpdate::Pop);
            },
            AnimationEdit::Element(element_ids, ElementEdit::RemoveAttachment(element_id)) => {
                // The 'attached' element ID appears at the start of the list as we store it
                let all = with_first(*element_id, element_ids);
                Self::insert_element_id_list(batch, &all);
                batch.push(DatabaseUpdate::Pop);
            },
            AnimationEdit::Element(element_ids, element_edit) => {
                Self::insert_element_id_list(batch, element_ids);
                Self::insert_element_edit(batch, element_edit);
            },
            AnimationEdit::Motion(motion_id, motion_edit) => {
                Self::insert_element_id(batch, motion_id);
                Self::insert_motion_edit(batch, motion_edit);
            },
        }
        proof {
            assert(batch@ =~= old(batch)@ + animation_edit_log_updates(edit@));
        }
    }

    /// Inserts the parameters for an element edit into the edit log
    ///
    /// The stack contains the edit log ID when this is called
    pub fn insert_element_edit(batch: &mut Batch, edit: &ElementEdit)
        ensures
            final(batch)@ == old(batch)@ + element_log_updates(edit@),
            batch_effect(final(batch)@) == batch_effect(old(batch)@) - 1,
            batch_needs(final(batch)@) == deeper(batch_needs(old(batch)@), 1, batch_effect(old(batch)@)),
    {
        match edit {
            ElementEdit::AddAttachment(_) | ElementEdit::RemoveAttachment(_) => {
                // Generally shouldn't be generated (see insert_animation_edit above for where this is actually implemented)
                batch.push(DatabaseUpdate::Pop);
            },
            ElementEdit::SetControlPoints(points) => {
                batch.push(DatabaseUpdate::PushPath(copy_rows(points)));
                batch.push(DatabaseUpdate::PushEditLogPath);
                batch.push(DatabaseUpdate::Pop);
            },
            ElementEdit::SetPath(components) => {
                batch.push(DatabaseUpdate::PushPathComponents(copy_rows(components)));
                batch.push(DatabaseUpdate::PushEditLogPath);
                batch.push(DatabaseUpdate::Pop);
            },
            ElementEdit::Order(ElementOrdering::Before(element_id)) => {
                match element_id {
                    ElementId::Assigned(element_id) => {
                        batch.push(DatabaseUpdate::PushEditLogInt(0, *element_id));
                        batch.push(DatabaseUpdate::Pop);
                    },
                    ElementId::Unassigned => {
                        batch.push(DatabaseUpdate::Pop);
                    },
                }
            },
            ElementEdit::Order(_) => {
                batch.push(DatabaseUpdate::Pop);
            },
            ElementEdit::Delete => {
                batch.push(DatabaseUpdate::Pop);
            },
            ElementEdit::DetachFromFrame => {
                batch.push(DatabaseUpdate::Pop);
            },
        }
        proof {
            assert(batch@ =~= old(batch)@ + element_log_updates(edit@));
        }
    }

    /// Inserts the parameters for a motion edit into the edit log
    pub fn insert_motion_edit(batch: &mut Batch, edit: &MotionEdit)
        ensures
            final(batch)@ == old(batch)@ + motion_log_updates(edit@),
            batch_effect(final(batch)@) == batch_effect(old(batch)@) - 1,
            batch_needs(final(batch)@) == deeper(batch_needs(old(batch)@), 1, batch_effect(old(batch)@)),
    {
        match edit {
            MotionEdit::Create => {
                batch.push(DatabaseUpdate::Pop);
            },
            MotionEdit::Delete => {
                batch.push(DatabaseUpdate::Pop);
            },
            MotionEdit::SetType(motion_type) => {
                batch.push(DatabaseUpdate::PushEditLogMotionType(*motion_type));
                batch.push(DatabaseUpdate::Pop);
            },
            MotionEdit::SetOrigin(x, y) => {
                batch.push(DatabaseUpdate::PushEditLogMotionOrigin(*x, *y));
                batch.push(DatabaseUpdate::Pop);
            },
            MotionEdit::SetPath(curve) => {
                // Create the points in the curve
                let before = batch.len();
                push_curve(batch, curve);
                // Turn into an edit log path
                let count = batch.len() - before;
                batch.push(DatabaseUpdate::PushEditLogMotionPath(count));
                batch.push(DatabaseUpdate::Pop);
            },
        }
        proof {
            assert(batch@ =~= old(batch)@ + motion_log_updates(edit@));
        }
    }

    /// Inserts the values for a LayerEdit into the edit log (the stack must have an edit ID pushed. This will be popped when this returns)
    pub fn insert_layer_edit(batch: &mut Batch, edit: &LayerEdit)
        ensures
            final(batch)@ == old(batch)@ + layer_log_updates(edit@),
            batch_effect(final(batch)@) == batch_effect(old(batch)@) - 1,
            batch_needs(final(batch)@) == deeper(batch_needs(old(batch)@), 1, batch_effect(old(batch)@)),
    {
        match edit {
            LayerEdit::Paint(when, paint_edit) => {
                batch.push(DatabaseUpdate::PushEditLogWhen(*when));
                Self::insert_paint_edit(batch, paint_edit);
            },
            LayerEdit::Path(when, path_edit) => {
                batch.push(DatabaseUpdate::PushEditLogWhen(*when));
                Self::insert_path_edit(batch, path_edit);
            },
            LayerEdit::AddKeyFrame(when) => {
                batch.push(DatabaseUpdate::PushEditLogWhen(*when));
                batch.push(DatabaseUpdate::Pop);
            },
            LayerEdit::RemoveKeyFrame(when) => {
                batch.push(DatabaseUpdate::PushEditLogWhen(*when));
                batch.push(DatabaseUpdate::Pop);
            },
            LayerEdit::SetName(new_name) => {
                batch.push(DatabaseUpdate::PopEditLogString(0, new_name.clone()));
            },
            LayerEdit::SetOrdering(at_index) => {
                batch.push(DatabaseUpdate::PushEditLogInt(0, *at_index as i64));
                batch.push(DatabaseUpdate::Pop);
            },
        }
        proof {
            assert(batch@ =~= old(batch)@ + layer_log_updates(edit@));
        }
    }

    /// Inserts the values for a PaintEdit into the edit log (the stack must have an edit ID + a when value pushed. This will be popped when this returns)
    pub fn insert_paint_edit(batch: &mut Batch, edit: &PaintEdit)
        ensures
            final(batch)@ == old(batch)@ + paint_log_updates(edit@),
            batch_effect(final(batch)@) == batch_effect(old(batch)@) - 1,
            batch_needs(final(batch)@) == deeper(batch_needs(old(batch)@), 1, batch_effect(old(batch)@)),
    {
        match edit {
            PaintEdit::SelectBrush(id, definition, drawing_style) => {
                Self::insert_element_id(batch, id);
                Self::insert_brush(batch, definition);
                batch.push(DatabaseUpdate::PopEditLogBrush(DrawingStyleType::from(drawing_style)));
            },
            PaintEdit::BrushProperties(id, properties) => {
                Self::insert_element_id(batch, id);
                Self::insert_brush_properties(batch, properties);
                batch.push(DatabaseUpdate::PopEditLogBrushProperties);
            },
            PaintEdit::BrushStroke(id, points) => {
                Self::insert_element_id(batch, id);
                batch.push(DatabaseUpdate::PushRawPoints(copy_rows(points)));
                batch.push(DatabaseUpdate::Pop);
            },
        }
        proof {
            assert(batch@ =~= old(batch)@ + paint_log_updates(edit@));
        }
    }

    /// Inserts the values for a PathEdit into the edit log (the stack must have an edit ID + a when value pushed pushed)
    pub fn insert_path_edit(batch: &mut Batch, edit: &PathEdit)
        ensures
            final(batch)@ == old(batch)@ + path_log_updates(edit@),
            batch_effect(final(batch)@) == batch_effect(old(batch)@) - 1,
            batch_needs(final(batch)@) == deeper(batch_needs(old(batch)@), 1, batch_effect(old(batch)@)),
    {
        match edit {
            PathEdit::SelectBrush(id, definition, drawing_style) => {
                Self::insert_element_id(batch, id);
                Self::insert_brush(batch, definition);
                batch.push(DatabaseUpdate::PopEditLogBrush(DrawingStyleType::from(drawing_style)));
            },
            PathEdit::BrushProperties(id, properties) => {
                Self::insert_element_id(batch, id);
                Self::insert_brush_properties(batch, properties);
                batch.push(DatabaseUpdate::PopEditLogBrushProperties);
            },
            PathEdit::CreatePath(id, points) => {
                Self::insert_element_id(batch, id);
                batch.push(DatabaseUpdate::PushPathComponents(copy_rows(points)));
                batch.push(DatabaseUpdate::PushEditLogPath);
                batch.push(DatabaseUpdate::Pop);
            },
        }
        proof {
            assert(batch@ =~= old(batch)@ + path_log_updates(edit@));
        }
    }
}

/// The list that starts with `first` and goes on with `rest`.
fn with_first(first: ElementId, rest: &Vec<ElementId>) -> (r: Vec<ElementId>)
    ensures
        r@ == seq![first] + rest@,
{
    let mut all: Vec<ElementId> = Vec::new();
    all.push(first);
    let mut i: usize = 0;
    while i < rest.len()
        invariant
            i <= rest@.len(),
            all@ == seq![first] + rest@.take(i as int),
        decreases rest.len() - i,
    {
        all.push(rest[i]);
        proof {
            assert(all@ =~= seq![first] + rest@.take(i + 1));
        }
        i += 1;
    }
    proof {
        assert(rest@.take(i as int) =~= rest@);
    }
    all
}

} // verus!
