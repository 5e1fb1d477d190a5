//! The batches that edits are made of write neither the edit log nor the
//! caches.

use vstd::prelude::*;
use crate::animation::brush::{BrushDefinition, BrushDrawingStyle, BrushProperties, TimeMicros};
use crate::animation::brushes::Brush;
use crate::animation::edit::{ElementEditView, MotionEditView, PaintEditView, PathEditView};
use crate::animation::element_id::ElementId;
use crate::animation::motion::TimePoint;
use crate::animation::path::PathComponent;
use crate::db::animation_core::{attach_updates, brush_definition_element_updates, brush_properties_element_updates, new_element_updates, paint_updates, stroke_updates, unattached_element_updates, ActiveBrush, AttachProperties, CoreView};
use crate::db::brush::{brush_properties_updates, brush_updates, color_updates};
use crate::db::db_enum::VectorElementType;
use crate::db::flo_store::UpdateView;
use crate::db::perform_edit::{element_plan, motion_plan, path_plan, planned, set_path_plan, time_point_updates};
use crate::db::rows::TablesView;
use crate::laws::frame::{keeps_caches, keeps_log};

verus! {

/// True if no instruction of the batch writes the edit log or changes what is
/// cached.
pub open spec fn clean(updates: Seq<UpdateView>) -> bool {
    forall|i: int| 0 <= i < updates.len() ==> keeps_log(#[trigger] updates[i]) && keeps_caches(updates[i])
}

/// Two clean batches make a clean batch.
pub proof fn lemma_clean_concat(a: Seq<UpdateView>, b: Seq<UpdateView>)
    requires
        clean(a),
        clean(b),
    ensures
        clean(a + b),
{
    assert forall|i: int| 0 <= i < (a + b).len() implies keeps_log(#[trigger] (a + b)[i]) && keeps_caches(
        (a + b)[i],
    ) by {
        if i < a.len() {
            assert((a + b)[i] == a[i]);
        } else {
            assert((a + b)[i] == b[i - a.len()]);
        }
    }
}

/// The instructions that put brushes, colours and brush properties on the
/// stack are clean.
pub proof fn lemma_brush_clean(definition: BrushDefinition, style: BrushDrawingStyle, properties: BrushProperties)
    ensures
        clean(brush_updates(definition)),
        clean(color_updates(properties.color)),
        clean(brush_properties_updates(properties)),
        clean(brush_definition_element_updates(definition, style)),
        clean(brush_properties_element_updates(properties)),
{
}

/// The instructions that make elements are clean.
pub proof fn lemma_element_updates_clean(
    layer_id: i64,
    when: TimeMicros,
    id: ElementId,
    element_type: VectorElementType,
    attach: Option<AttachProperties>,
)
    ensures
        clean(new_element_updates(layer_id, when, id, element_type)),
        clean(unattached_element_updates(element_type, id)),
        clean(attach_updates(attach)),
{
}

/// The instructions of a paint edit are clean.
pub proof fn lemma_paint_clean<B: Brush>(brushes: B, c: CoreView, layer_id: i64, when: TimeMicros, edit: PaintEditView)
    ensures
        clean(paint_updates(brushes, c, layer_id, when, edit)),
{
    match edit {
        PaintEditView::SelectBrush(id, definition, style) => {
            lemma_brush_clean(definition, style, BrushProperties::spec_new());
            lemma_element_updates_clean(layer_id, when, id, VectorElementType::BrushDefinition, None);
            lemma_clean_concat(
                unattached_element_updates(VectorElementType::BrushDefinition, id),
                brush_definition_element_updates(definition, style),
            );
        },
        PaintEditView::BrushProperties(id, properties) => {
            lemma_brush_clean(BrushDefinition::Simple, BrushDrawingStyle::Draw, properties);
            lemma_element_updates_clean(layer_id, when, id, VectorElementType::BrushProperties, None);
            lemma_clean_concat(
                unattached_element_updates(VectorElementType::BrushProperties, id),
                brush_properties_element_updates(properties),
            );
        },
        PaintEditView::BrushStroke(id, raw) => {
            let attach = if c.book.brush_properties.contains_key(layer_id) {
                Some(c.book.brush_properties[layer_id])
            } else {
                None
            };
            let made = new_element_updates(layer_id, when, id, VectorElementType::BrushStroke);
            let attached = attach_updates(attach);
            let stroke = stroke_updates(brushes, crate::db::animation_core::active_brush(c, layer_id, when), raw);
            let pops = seq![UpdateView::Pop, UpdateView::Pop];
            lemma_element_updates_clean(layer_id, when, id, VectorElementType::BrushStroke, attach);
            lemma_clean_concat(made, attached);
            assert(clean(stroke));
            lemma_clean_concat(made + attached, stroke);
            assert(clean(pops));
            lemma_clean_concat(made + attached + stroke, pops);
        },
    }
}

/// The instructions of an edit of a path are clean.
pub proof fn lemma_path_clean(c: CoreView, layer_id: i64, when: TimeMicros, edit: PathEditView)
    ensures
        clean(planned(path_plan(c, layer_id, when, edit))),
{
    match edit {
        PathEditView::CreatePath(id, components) => {
            lemma_element_updates_clean(layer_id, when, id, VectorElementType::Path, None);
            match path_plan(c, layer_id, when, edit) {
                crate::db::perform_edit::Plan::Run(updates) => {
                    let made = new_element_updates(layer_id, when, id, VectorElementType::Path);
                    let rest = updates.skip(made.len() as int);
                    assert(updates =~= made + rest);
                    assert(clean(rest));
                    lemma_clean_concat(made, rest);
                },
                _ => {},
            }
        },
        PathEditView::SelectBrush(id, definition, style) => {
            lemma_brush_clean(definition, style, BrushProperties::spec_new());
            lemma_element_updates_clean(layer_id, when, id, VectorElementType::BrushDefinition, None);
            lemma_clean_concat(
                unattached_element_updates(VectorElementType::BrushDefinition, id),
                brush_definition_element_updates(definition, style),
            );
        },
        PathEditView::BrushProperties(id, properties) => {
            lemma_brush_clean(BrushDefinition::Simple, BrushDrawingStyle::Draw, properties);
            lemma_element_updates_clean(layer_id, when, id, VectorElementType::BrushProperties, None);
            lemma_clean_concat(
                unattached_element_updates(VectorElementType::BrushProperties, id),
                brush_properties_element_updates(properties),
            );
        },
    }
}

/// The instructions of an edit to an element are clean.
pub proof fn lemma_element_clean(t: TablesView, id: ElementId, edit: ElementEditView)
    ensures
        clean(planned(element_plan(t, id, edit))),
{
}

/// The instructions of an edit to a motion are clean.
pub proof fn lemma_motion_clean(id: ElementId, edit: MotionEditView)
    ensures
        clean(planned(motion_plan(id, edit))),
{
}

} // verus!
