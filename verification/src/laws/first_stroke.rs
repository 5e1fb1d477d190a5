//! The first stroke of an animation: a layer, a key frame, a brush, brush
//! properties and a brush stroke, on a store that held nothing.

use vstd::prelude::*;
use crate::animation::brush::{BrushDefinition, BrushDrawingStyle, BrushProperties, RawPoint, TimeMicros};
use crate::animation::brushes::Brush;
use crate::animation::edit::{AnimationEditView, LayerEditView};
use crate::animation::vector::VectorProperties;
use crate::db::animation_core::CoreView;
use crate::db::db_enum::LayerType;
use crate::db::flo_file::StoreView;
use crate::db::flo_store::UpdateView;
use crate::db::perform_edit::{carry_out, layer_id_of, perform_edit_spec, with_layer_id, Plan};
use crate::db::step::{run, step, Machine};
use crate::db::vector_frame::FrameElement;
use crate::laws::replay::{fresh, perform_each_spec};
use crate::laws::selection::{lemma_stroke_with_selection, paint_stroke, select_brush, select_properties};
use crate::laws::strokes::{element_ids_sound, lemma_invalidate_keeps_elements};
use crate::laws::symbolic::{lemma_run_2, lemma_run_3};

verus! {

/// The edits that make a layer with a key frame and paint a brush stroke on
/// it, after selecting a brush and brush properties.
pub open spec fn basic_stroke(
    layer: u64,
    when: TimeMicros,
    d: i64,
    definition: BrushDefinition,
    style: BrushDrawingStyle,
    p: i64,
    properties: BrushProperties,
    s: i64,
    raw: Seq<RawPoint>,
) -> Seq<AnimationEditView> {
    seq![
        AnimationEditView::AddNewLayer(layer),
        AnimationEditView::Layer(layer, LayerEditView::AddKeyFrame(when)),
        select_brush(layer, when, d, definition, style),
        select_properties(layer, when, p, properties),
        paint_stroke(layer, when, s, raw),
    ]
}

/// The instructions that make a layer leave the elements and their
/// attachments alone.
proof fn lemma_add_layer_run(x: Machine, layer: u64)
    requires
        run(
            x,
            seq![
                UpdateView::PushLayerType(LayerType::Vector),
                UpdateView::PushAssignLayer(layer),
                UpdateView::Pop,
            ],
        ) is Ok,
    ensures
        ({
            let y = run(
                x,
                seq![
                    UpdateView::PushLayerType(LayerType::Vector),
                    UpdateView::PushAssignLayer(layer),
                    UpdateView::Pop,
                ],
            ).unwrap();
            &&& y.tables.elements == x.tables.elements
            &&& y.tables.attachments == x.tables.attachments
            &&& x.tables.next_id <= y.tables.next_id
        }),
{
    reveal(step);
    lemma_run_3(
        x,
        UpdateView::PushLayerType(LayerType::Vector),
        UpdateView::PushAssignLayer(layer),
        UpdateView::Pop,
    );
}

/// The instructions that make a key frame leave the elements and their
/// attachments alone.
proof fn lemma_add_key_frame_run(x: Machine, layer_id: i64, when: TimeMicros)
    requires
        run(x, seq![UpdateView::PushLayerId(layer_id), UpdateView::PopAddKeyFrame(when)]) is Ok,
    ensures
        ({
            let y = run(x, seq![UpdateView::PushLayerId(layer_id), UpdateView::PopAddKeyFrame(when)]).unwrap();
            &&& y.tables.elements == x.tables.elements
            &&& y.tables.attachments == x.tables.attachments
            &&& x.tables.next_id <= y.tables.next_id
        }),
{
    reveal(step);
    lemma_run_2(x, UpdateView::PushLayerId(layer_id), UpdateView::PopAddKeyFrame(when));
}

/// Making a layer, where it succeeds, leaves the elements and their
/// attachments alone.
proof fn lemma_layer_added<B: Brush>(brushes: B, c: CoreView, layer: u64)
    requires
        perform_edit_spec(brushes, c, AnimationEditView::AddNewLayer(layer)).1 is Ok,
    ensures
        ({
            let next = perform_edit_spec(brushes, c, AnimationEditView::AddNewLayer(layer)).0;
            &&& next.store.tables().elements == c.store.tables().elements
            &&& next.store.tables().attachments == c.store.tables().attachments
            &&& c.store.tables().next_id <= next.store.tables().next_id
        }),
{
    reveal(StoreView::updated);
    lemma_add_layer_run(c.store.machine, layer);
}

/// Making a key frame, where it succeeds, leaves the elements and their
/// attachments alone.
proof fn lemma_key_frame_added<B: Brush>(brushes: B, c: CoreView, layer: u64, when: TimeMicros)
    requires
        perform_edit_spec(brushes, c, AnimationEditView::Layer(layer, LayerEditView::AddKeyFrame(when))).1 is Ok,
    ensures
        ({
            let next = perform_edit_spec(
                brushes,
                c,
                AnimationEditView::Layer(layer, LayerEditView::AddKeyFrame(when)),
            ).0;
            &&& next.store.tables().elements == c.store.tables().elements
            &&& next.store.tables().attachments == c.store.tables().attachments
            &&& c.store.tables().next_id <= next.store.tables().next_id
        }),
{
    reveal(StoreView::updated);
    let start = with_layer_id(c, layer);
    let layer_id = layer_id_of(c, layer);
    let made = carry_out(
        start,
        Plan::Run(seq![UpdateView::PushLayerId(layer_id), UpdateView::PopAddKeyFrame(when)]),
    );
    lemma_invalidate_keeps_elements(made, layer_id, when);
    lemma_add_key_frame_run(c.store.machine, layer_id, when);
}

/// Basic stroke, on a store that held nothing. Where a layer is made, a key
/// frame is made on it, a brush and brush properties are selected and a brush
/// stroke is painted, each edit performed by itself and none of them failing,
/// the frame of the layer at the time of the key frame holds exactly one
/// element: the brush stroke, drawn with exactly the brush, the drawing style
/// and the brush properties that were selected.
pub proof fn lemma_basic_stroke<B: Brush>(
    brushes: B,
    layer: u64,
    when: TimeMicros,
    d: i64,
    definition: BrushDefinition,
    style: BrushDrawingStyle,
    p: i64,
    properties: BrushProperties,
    s: i64,
    raw: Seq<RawPoint>,
)
    requires
        d != p,
        s != d,
        s != p,
        perform_each_spec(
            brushes,
            fresh(),
            basic_stroke(layer, when, d, definition, style, p, properties, s, raw),
        ).failure is None,
    ensures
        ({
            let done = perform_each_spec(
                brushes,
                fresh(),
                basic_stroke(layer, when, d, definition, style, p, properties, s, raw),
            );
            let after = done.store.tables();
            &&& after.element_for_assigned(s) is Some
            &&& after.frame(layer_id_of(done, layer), when) == seq![
                FrameElement {
                    element: after.element_for_assigned(s).unwrap(),
                    properties: VectorProperties {
                        brush: definition,
                        drawing_style: style,
                        brush_properties: properties,
                    },
                },
            ]
        }),
{
    let edits = basic_stroke(layer, when, d, definition, style, p, properties, s, raw);
    let e0 = edits[0];
    let e1 = edits[1];
    let e2 = edits[2];
    let e3 = edits[3];
    let e4 = edits[4];
    assert(edits.drop_last() =~= seq![e0, e1, e2, e3]);
    assert(seq![e0, e1, e2, e3].drop_last() =~= seq![e0, e1, e2]);
    assert(seq![e0, e1, e2].drop_last() =~= seq![e0, e1]);
    assert(seq![e0, e1].drop_last() =~= seq![e0]);
    assert(seq![e0].drop_last() =~= Seq::<AnimationEditView>::empty());
    let c0 = fresh();
    assert(perform_each_spec(brushes, c0, Seq::<AnimationEditView>::empty()) == c0);
    let c1 = perform_edit_spec(brushes, c0, e0).0;
    assert(perform_each_spec(brushes, c0, seq![e0]) == c1);
    let c2 = perform_edit_spec(brushes, c1, e1).0;
    assert(perform_each_spec(brushes, c0, seq![e0, e1]) == c2);
    let c3 = perform_edit_spec(brushes, c2, e2).0;
    assert(perform_each_spec(brushes, c0, seq![e0, e1, e2]) == c3);
    let c4 = perform_edit_spec(brushes, c3, e3).0;
    assert(perform_each_spec(brushes, c0, seq![e0, e1, e2, e3]) == c4);
    let c5 = perform_edit_spec(brushes, c4, e4).0;
    assert(perform_each_spec(brushes, c0, edits) == c5);
    assert(c4.failure is None);
    assert(c3.failure is None);
    assert(c2.failure is None);
    assert(c1.failure is None);
    lemma_layer_added(brushes, c0, layer);
    lemma_key_frame_added(brushes, c1, layer, when);
    assert(c2.store.tables().elements =~= Seq::empty());
    assert(c2.store.tables().attachments =~= Seq::empty());
    assert(element_ids_sound(c2.store.tables()));
    lemma_stroke_with_selection(brushes, c2, layer, when, d, definition, style, p, properties, s, raw);
    let layer_id = layer_id_of(c2, layer);
    assert(c2.store.tables().frame_elements(layer_id, when) =~= Seq::empty());
    assert(c5.store.tables().frame(layer_id, when) =~= seq![c5.store.tables().frame(layer_id, when).last()]);
}

} // verus!
