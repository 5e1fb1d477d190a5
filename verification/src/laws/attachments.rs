//! Elements that style other elements hold exactly what they were made with.

use vstd::prelude::*;
use crate::animation::brush::{BrushDefinition, BrushDrawingStyle, BrushProperties};
use crate::animation::element_id::ElementId;
use crate::animation::vector::VectorProperties;
use crate::db::animation_core::{brush_definition_element_updates, brush_properties_element_updates, unattached_element_updates};
use crate::db::brush::{brush_properties_updates, brush_updates};
use crate::db::db_enum::{drawing_style_of, drawing_style_type, lemma_drawing_style_round_trip, VectorElementType};
use crate::db::engine_run::lemma_run_push;
use crate::db::flo_store::UpdateView;
use crate::db::relation::find_key;
use crate::db::rows::{ElementDetail, ElementRow};
use crate::db::step::{run, step, Machine};
use crate::db::vector_frame::properties_with;
use crate::laws::symbolic::{lemma_run_1, lemma_run_2, lemma_run_concat};
use crate::laws::writer::lemma_stage_brush_properties;

verus! {

/// True if `y` is `x` with one more element, of the type `element_type`, with
/// the assigned id `assigned` and the detail `detail`, and nothing else that
/// elements, their attachments or frames are made of has changed.
pub open spec fn element_made(
    x: Machine,
    y: Machine,
    element_type: VectorElementType,
    assigned: i64,
    detail: ElementDetail,
) -> bool {
    &&& y.stack == x.stack
    &&& y.tables.attachments == x.tables.attachments
    &&& y.tables.key_frames == x.tables.key_frames
    &&& y.tables.layers == x.tables.layers
    &&& x.tables.next_id < y.tables.next_id
    &&& y.tables.elements == x.tables.elements.push(
        ElementRow { id: x.tables.next_id, element_type, assigned: Some(assigned), frame: None, detail },
    )
}

/// The instructions that make an element outside any key frame leave it on the
/// stack, the newest of the elements.
proof fn lemma_unattached_element(x: Machine, element_type: VectorElementType, assigned: i64)
    requires
        run(x, unattached_element_updates(element_type, ElementId::Assigned(assigned))) is Ok,
    ensures
        ({
            let y = run(x, unattached_element_updates(element_type, ElementId::Assigned(assigned))).unwrap();
            &&& y.stack == x.stack.push(x.tables.next_id)
            &&& y.tables.attachments == x.tables.attachments
            &&& y.tables.key_frames == x.tables.key_frames
            &&& y.tables.layers == x.tables.layers
            &&& y.tables.next_id == x.tables.next_id + 1
            &&& y.tables.brushes == x.tables.brushes
            &&& y.tables.colors == x.tables.colors
            &&& y.tables.brush_properties == x.tables.brush_properties
            &&& y.tables.elements == x.tables.elements.push(
                ElementRow {
                    id: x.tables.next_id,
                    element_type,
                    assigned: Some(assigned),
                    frame: None,
                    detail: ElementDetail::Empty,
                },
            )
        }),
{
    reveal(step);
    lemma_run_2(
        x,
        UpdateView::PushVectorElementType(element_type),
        UpdateView::PushElementAssignId(assigned),
    );
    let made = step(x, UpdateView::PushVectorElementType(element_type)).unwrap();
    assert(made.peek(0) == x.tables.next_id);
    let y = step(made, UpdateView::PushElementAssignId(assigned)).unwrap();
    assert(y.tables.elements =~= x.tables.elements.push(
        ElementRow {
            id: x.tables.next_id,
            element_type,
            assigned: Some(assigned),
            frame: None,
            detail: ElementDetail::Empty,
        },
    ));
}

/// The instructions that put a brush on the stack leave the elements alone and
/// leave the brush on top of the stack, complete.
proof fn lemma_stage_brush(x: Machine, definition: BrushDefinition)
    requires
        run(x, brush_updates(definition)) is Ok,
    ensures
        ({
            let y = run(x, brush_updates(definition)).unwrap();
            &&& y.tables.elements == x.tables.elements
            &&& y.tables.attachments == x.tables.attachments
            &&& y.tables.key_frames == x.tables.key_frames
            &&& y.tables.layers == x.tables.layers
            &&& x.tables.next_id <= y.tables.next_id
            &&& y.stack.len() == x.stack.len() + 1
            &&& y.stack.drop_last() == x.stack
            &&& find_key(y.tables.brushes, y.stack.last()) matches Some(i) && y.tables.brushes[i].definition
                == Some(definition)
        }),
{
    reveal(step);
    let updates = brush_updates(definition);
    match definition {
        BrushDefinition::Simple => {
            lemma_run_1(x, updates[0]);
            assert(updates =~= seq![updates[0]]);
        },
        BrushDefinition::Ink(_) => {
            lemma_run_2(x, updates[0], updates[1]);
            assert(updates =~= seq![updates[0], updates[1]]);
        },
    }
    let y = run(x, updates).unwrap();
    assert(y.stack.drop_last() =~= x.stack);
}

/// An element that is made as a brush definition holds exactly the brush and
/// the drawing style that it was made with, and is found by its assigned id.
pub proof fn lemma_brush_definition_element(
    x: Machine,
    assigned: i64,
    definition: BrushDefinition,
    style: BrushDrawingStyle,
)
    requires
        run(
            x,
            unattached_element_updates(VectorElementType::BrushDefinition, ElementId::Assigned(assigned))
                + brush_definition_element_updates(definition, style),
        ) is Ok,
    ensures
        ({
            let y = run(
                x,
                unattached_element_updates(VectorElementType::BrushDefinition, ElementId::Assigned(assigned))
                    + brush_definition_element_updates(definition, style),
            ).unwrap();
            &&& element_made(
                x,
                y,
                VectorElementType::BrushDefinition,
                assigned,
                ElementDetail::BrushDefinition(definition, drawing_style_type(style)),
            )
            &&& y.tables.element_for_assigned(assigned) == Some(y.tables.elements.last())
            &&& properties_with(y.tables.elements.last().detail, VectorProperties::spec_default()).brush
                == definition
            &&& properties_with(y.tables.elements.last().detail, VectorProperties::spec_default()).drawing_style
                == style
        }),
{
    let first = unattached_element_updates(VectorElementType::BrushDefinition, ElementId::Assigned(assigned));
    let last = UpdateView::PopVectorBrushElement(drawing_style_type(style));
    lemma_run_concat(x, first, brush_definition_element_updates(definition, style));
    lemma_unattached_element(x, VectorElementType::BrushDefinition, assigned);
    let made = run(x, first).unwrap();
    lemma_run_push(made, brush_updates(definition), last);
    lemma_stage_brush(made, definition);
    let staged = run(made, brush_updates(definition)).unwrap();
    reveal(step);
    let y = step(staged, last).unwrap();
    assert(staged.peek(0) == staged.stack.last());
    assert(staged.peek(1) == staged.stack.drop_last().last());
    assert(staged.peek(1) == x.tables.next_id);
    assert(y.stack =~= x.stack);
    assert(y.tables.elements =~= x.tables.elements.push(
        ElementRow {
            id: x.tables.next_id,
            element_type: VectorElementType::BrushDefinition,
            assigned: Some(assigned),
            frame: None,
            detail: ElementDetail::BrushDefinition(definition, drawing_style_type(style)),
        },
    ));
    lemma_drawing_style_round_trip(style, drawing_style_type(style));
}

/// An element that is made as brush properties holds exactly the brush
/// properties that it was made with, and is found by its assigned id.
pub proof fn lemma_brush_properties_element(x: Machine, assigned: i64, properties: BrushProperties)
    requires
        run(
            x,
            unattached_element_updates(VectorElementType::BrushProperties, ElementId::Assigned(assigned))
                + brush_properties_element_updates(properties),
        ) is Ok,
    ensures
        ({
            let y = run(
                x,
                unattached_element_updates(VectorElementType::BrushProperties, ElementId::Assigned(assigned))
                    + brush_properties_element_updates(properties),
            ).unwrap();
            &&& element_made(
                x,
                y,
                VectorElementType::BrushProperties,
                assigned,
                ElementDetail::BrushProperties(properties),
            )
            &&& y.tables.element_for_assigned(assigned) == Some(y.tables.elements.last())
            &&& properties_with(
                y.tables.elements.last().detail,
                VectorProperties::spec_default(),
            ).brush_properties == properties
        }),
{
    let first = unattached_element_updates(VectorElementType::BrushProperties, ElementId::Assigned(assigned));
    let last = UpdateView::PopVectorBrushPropertiesElement;
    lemma_run_concat(x, first, brush_properties_element_updates(properties));
    lemma_unattached_element(x, VectorElementType::BrushProperties, assigned);
    let made = run(x, first).unwrap();
    lemma_run_push(made, brush_properties_updates(properties), last);
    lemma_stage_brush_properties(made, properties);
    lemma_stage_keeps_elements(made, properties);
    let staged = run(made, brush_properties_updates(properties)).unwrap();
    reveal(step);
    let y = step(staged, last).unwrap();
    assert(staged.peek(0) == staged.stack.last());
    assert(staged.peek(1) == staged.stack.drop_last().last());
    assert(staged.peek(1) == x.tables.next_id);
    assert(y.stack =~= x.stack);
    assert(y.tables.elements =~= x.tables.elements.push(
        ElementRow {
            id: x.tables.next_id,
            element_type: VectorElementType::BrushProperties,
            assigned: Some(assigned),
            frame: None,
            detail: ElementDetail::BrushProperties(properties),
        },
    ));
}

/// The instructions that put brush properties on the stack leave the elements,
/// their attachments, the key frames and the layers alone.
proof fn lemma_stage_keeps_elements(x: Machine, properties: BrushProperties)
    requires
        run(x, brush_properties_updates(properties)) is Ok,
    ensures
        run(x, brush_properties_updates(properties)).unwrap().tables.elements == x.tables.elements,
        run(x, brush_properties_updates(properties)).unwrap().tables.attachments == x.tables.attachments,
        run(x, brush_properties_updates(properties)).unwrap().tables.key_frames == x.tables.key_frames,
        run(x, brush_properties_updates(properties)).unwrap().tables.layers == x.tables.layers,
        x.tables.next_id <= run(x, brush_properties_updates(properties)).unwrap().tables.next_id,
{
    let updates = brush_properties_updates(properties);
    crate::laws::symbolic::lemma_run_3(x, updates[0], updates[1], updates[2]);
    assert(updates =~= seq![updates[0], updates[1], updates[2]]);
    lemma_staging_keeps(x, updates[0]);
    if step(x, updates[0]) is Ok {
        let a = step(x, updates[0]).unwrap();
        lemma_staging_keeps(a, updates[1]);
        if step(a, updates[1]) is Ok {
            lemma_staging_keeps(step(a, updates[1]).unwrap(), updates[2]);
        }
    }
}

/// An instruction that puts brushes, colours, paths or time points together
/// leaves the elements, their attachments, the key frames and the layers alone.
proof fn lemma_staging_keeps(x: Machine, u: UpdateView)
    requires
        crate::db::step::group_of(u) is Staging,
        step(x, u) is Ok,
    ensures
        step(x, u).unwrap().tables.elements == x.tables.elements,
        step(x, u).unwrap().tables.attachments == x.tables.attachments,
        step(x, u).unwrap().tables.key_frames == x.tables.key_frames,
        step(x, u).unwrap().tables.layers == x.tables.layers,
        x.tables.next_id <= step(x, u).unwrap().tables.next_id,
{
    reveal(step);
}

} // verus!
