//! A brush stroke that follows the selection of a brush and of brush properties
//! shows in its frame, drawn with what was selected.

use vstd::prelude::*;
use crate::animation::brush::{BrushDefinition, BrushDrawingStyle, BrushProperties, RawPoint, TimeMicros};
use crate::animation::brushes::Brush;
use crate::animation::cache_type::CacheType;
use crate::animation::edit::{AnimationEditView, LayerEditView, PaintEditView, PathEditView};
use crate::animation::element_id::ElementId;
use crate::animation::path::PathComponent;
use crate::animation::vector::VectorProperties;
use crate::db::animation_core::{attach_of, paint_vector_layer_spec, AttachProperties, CoreView};
use crate::db::animation_core::{path_properties_of, EditOutcome, SkipReason};
use crate::db::db_enum::{drawing_style_type, lemma_drawing_style_round_trip, VectorElementType};
use crate::db::error::StoreError;
use crate::db::flo_file::StoreView;
use crate::db::flo_query::attached_ids;
use crate::db::flo_store::UpdateView;
use crate::db::matchers::ElementAssigned;
use crate::db::perform_edit::{edit_vector_layer_spec, layer_id_of, perform_edit_spec, with_layer_id};
use crate::db::relation::find_match;
use crate::db::rows::{ElementDetail, ElementRow, TablesView};
use crate::db::step::step;
use crate::db::vector_frame::FrameElement;
use crate::laws::attachments::{lemma_brush_definition_element, lemma_brush_properties_element};
use crate::laws::strokes::{element_ids_sound, lemma_invalidate_keeps_elements, lemma_painted_stroke, selected};
use crate::laws::symbolic::lemma_run_2;

verus! {

/// The edit that selects a brush for a layer.
pub open spec fn select_brush(
    layer: u64,
    when: TimeMicros,
    d: i64,
    definition: BrushDefinition,
    style: BrushDrawingStyle,
) -> AnimationEditView {
    AnimationEditView::Layer(
        layer,
        LayerEditView::Paint(when, PaintEditView::SelectBrush(ElementId::Assigned(d), definition, style)),
    )
}

/// The edit that selects brush properties for a layer.
pub open spec fn select_properties(layer: u64, when: TimeMicros, p: i64, properties: BrushProperties) -> AnimationEditView {
    AnimationEditView::Layer(
        layer,
        LayerEditView::Paint(when, PaintEditView::BrushProperties(ElementId::Assigned(p), properties)),
    )
}

/// The edit that paints a brush stroke on a layer.
pub open spec fn paint_stroke(layer: u64, when: TimeMicros, s: i64, raw: Seq<RawPoint>) -> AnimationEditView {
    AnimationEditView::Layer(
        layer,
        LayerEditView::Paint(when, PaintEditView::BrushStroke(ElementId::Assigned(s), raw)),
    )
}

/// True if `after` is `t` with one more element, outside any key frame, that
/// holds `detail` and has the assigned id `assigned`.
pub open spec fn with_styling_element(
    t: TablesView,
    after: TablesView,
    element_type: VectorElementType,
    assigned: i64,
    detail: ElementDetail,
) -> bool {
    &&& after.elements == t.elements.push(
        ElementRow { id: t.next_id, element_type, assigned: Some(assigned), frame: None, detail },
    )
    &&& after.attachments == t.attachments
    &&& after.key_frames == t.key_frames
    &&& after.layers == t.layers
    &&& t.next_id < after.next_id
}

/// One more element with the id that was next leaves the ids of the elements
/// in order.
proof fn lemma_styling_element_sound(
    t: TablesView,
    after: TablesView,
    element_type: VectorElementType,
    assigned: i64,
    detail: ElementDetail,
)
    requires
        element_ids_sound(t),
        with_styling_element(t, after, element_type, assigned, detail),
    ensures
        element_ids_sound(after),
        after.element_for_assigned(assigned) == Some(after.elements.last()),
        forall|other: i64|
            other != assigned ==> #[trigger] after.element_for_assigned(other) == t.element_for_assigned(other),
        forall|key_frame: i64, until: TimeMicros|
            #[trigger] crate::db::flo_query::visible_elements(after.elements, key_frame, until)
                == crate::db::flo_query::visible_elements(t.elements, key_frame, until),
{
    assert(after.elements.drop_last() =~= t.elements);
    assert forall|i: int, j: int| 0 <= i < j < after.elements.len() implies (#[trigger] after.elements[i]).id != (
    #[trigger] after.elements[j]).id by {
        assert(after.elements[i] == t.elements[i]);
        if j < t.elements.len() {
            assert(after.elements[j] == t.elements[j]);
        }
    }
    assert forall|i: int| 0 <= i < after.elements.len() implies (#[trigger] after.elements[i]).id
        < after.next_id by {
        if i < t.elements.len() {
            assert(after.elements[i] == t.elements[i]);
        }
    }
    assert forall|other: i64| other != assigned implies #[trigger] after.element_for_assigned(other)
        == t.element_for_assigned(other) by {
        assert(find_match(after.elements, ElementAssigned(other)) == find_match(
            t.elements,
            ElementAssigned(other),
        ));
        if find_match(t.elements, ElementAssigned(other)) is Some {
            crate::db::relation::lemma_find_match(t.elements, ElementAssigned(other));
            assert(after.elements[find_match(t.elements, ElementAssigned(other)).unwrap()]
                == t.elements[find_match(t.elements, ElementAssigned(other)).unwrap()]);
        }
    }
}

/// Selecting a brush for a layer makes one more element, outside any key
/// frame, that holds the brush and its drawing style, and notes it as the
/// brush definition of the layer.
pub proof fn lemma_brush_selected<B: Brush>(
    brushes: B,
    c: CoreView,
    layer_id: i64,
    when: TimeMicros,
    d: i64,
    definition: BrushDefinition,
    style: BrushDrawingStyle,
)
    requires
        edit_vector_layer_spec(
            brushes,
            c,
            layer_id,
            LayerEditView::Paint(when, PaintEditView::SelectBrush(ElementId::Assigned(d), definition, style)),
        ).1 is Ok,
    ensures
        ({
            let next = edit_vector_layer_spec(
                brushes,
                c,
                layer_id,
                LayerEditView::Paint(when, PaintEditView::SelectBrush(ElementId::Assigned(d), definition, style)),
            ).0;
            &&& with_styling_element(
                c.store.tables(),
                next.store.tables(),
                VectorElementType::BrushDefinition,
                d,
                ElementDetail::BrushDefinition(definition, drawing_style_type(style)),
            )
            &&& next.failure is None
            &&& next.book.layer_ids == c.book.layer_ids
            &&& next.book.brush_properties.contains_key(layer_id)
            &&& next.book.brush_properties[layer_id] == (AttachProperties {
                brush_definition: Some(ElementId::Assigned(d)),
                ..attach_of(c, layer_id)
            })
        }),
{
    reveal(StoreView::updated);
    let edit = PaintEditView::SelectBrush(ElementId::Assigned(d), definition, style);
    lemma_invalidate_keeps_elements(paint_vector_layer_spec(brushes, c, layer_id, when, edit), layer_id, when);
    lemma_brush_definition_element(c.store.machine, d, definition, style);
}

/// Selecting brush properties for a layer makes one more element, outside any
/// key frame, that holds them, and notes it as the brush properties of the
/// layer.
pub proof fn lemma_properties_selected<B: Brush>(
    brushes: B,
    c: CoreView,
    layer_id: i64,
    when: TimeMicros,
    p: i64,
    properties: BrushProperties,
)
    requires
        edit_vector_layer_spec(
            brushes,
            c,
            layer_id,
            LayerEditView::Paint(when, PaintEditView::BrushProperties(ElementId::Assigned(p), properties)),
        ).1 is Ok,
    ensures
        ({
            let next = edit_vector_layer_spec(
                brushes,
                c,
                layer_id,
                LayerEditView::Paint(when, PaintEditView::BrushProperties(ElementId::Assigned(p), properties)),
            ).0;
            &&& with_styling_element(
                c.store.tables(),
                next.store.tables(),
                VectorElementType::BrushProperties,
                p,
                ElementDetail::BrushProperties(properties),
            )
            &&& next.failure is None
            &&& next.book.layer_ids == c.book.layer_ids
            &&& next.book.brush_properties.contains_key(layer_id)
            &&& next.book.brush_properties[layer_id] == (AttachProperties {
                brush_properties: Some(ElementId::Assigned(p)),
                ..attach_of(c, layer_id)
            })
        }),
{
    reveal(StoreView::updated);
    let edit = PaintEditView::BrushProperties(ElementId::Assigned(p), properties);
    lemma_invalidate_keeps_elements(paint_vector_layer_spec(brushes, c, layer_id, when, edit), layer_id, when);
    lemma_brush_properties_element(c.store.machine, p, properties);
}

/// An edit to a layer given by its user-facing id, where it succeeds, is the
/// edit to the layer with the id that the store knows it by.
proof fn lemma_layer_edit<B: Brush>(brushes: B, c: CoreView, layer: u64, edit: LayerEditView)
    requires
        perform_edit_spec(brushes, c, AnimationEditView::Layer(layer, edit)).1 is Ok,
    ensures
        perform_edit_spec(brushes, c, AnimationEditView::Layer(layer, edit)) == edit_vector_layer_spec(
            brushes,
            with_layer_id(c, layer),
            layer_id_of(c, layer),
            edit,
        ),
        with_layer_id(c, layer).store == c.store,
        with_layer_id(c, layer).book.brush_properties == c.book.brush_properties,
{
}

/// The id that the store knows a layer by stays what it is while the layers
/// and what the core has noted of them stay.
proof fn lemma_same_layer(c: CoreView, next: CoreView, layer: u64)
    requires
        next.store.tables().layers == c.store.tables().layers,
        next.book.layer_ids == with_layer_id(c, layer).book.layer_ids,
    ensures
        layer_id_of(next, layer) == layer_id_of(c, layer),
{
}

/// Basic stroke. Where a brush is selected for a layer, then brush
/// properties, and then a brush stroke is painted on the layer, all at one
/// time and each under an id of its own, the frame of the layer at that time
/// has the elements that it had and, after them, the brush stroke, drawn with
/// exactly the brush, the drawing style and the brush properties that were
/// selected; and exactly the two elements that hold them are attached to it.
pub proof fn lemma_stroke_with_selection<B: Brush>(
    brushes: B,
    c: CoreView,
    layer: u64,
    when: TimeMicros,
    d: i64,
    definition: BrushDefinition,
    style: BrushDrawingStyle,
    p: i64,
    properties: BrushProperties,
    s: i64,
    raw: Seq<RawPoint>,
)
    requires
        element_ids_sound(c.store.tables()),
        d != p,
        s != d,
        s != p,
        perform_edit_spec(brushes, c, select_brush(layer, when, d, definition, style)).1 is Ok,
        perform_edit_spec(
            brushes,
            perform_edit_spec(brushes, c, select_brush(layer, when, d, definition, style)).0,
            select_properties(layer, when, p, properties),
        ).1 is Ok,
        perform_edit_spec(
            brushes,
            perform_edit_spec(
                brushes,
                perform_edit_spec(brushes, c, select_brush(layer, when, d, definition, style)).0,
                select_properties(layer, when, p, properties),
            ).0,
            paint_stroke(layer, when, s, raw),
        ).1 is Ok,
    ensures
        ({
            let t = c.store.tables();
            let after = perform_edit_spec(
                brushes,
                perform_edit_spec(
                    brushes,
                    perform_edit_spec(brushes, c, select_brush(layer, when, d, definition, style)).0,
                    select_properties(layer, when, p, properties),
                ).0,
                paint_stroke(layer, when, s, raw),
            ).0.store.tables();
            let layer_id = layer_id_of(c, layer);
            &&& after.element_for_assigned(s) is Some
            &&& after.element_for_assigned(d) is Some
            &&& after.element_for_assigned(p) is Some
            &&& after.frame_elements(layer_id, when) == t.frame_elements(layer_id, when).push(
                after.element_for_assigned(s).unwrap(),
            )
            &&& after.frame(layer_id, when).len() == t.frame(layer_id, when).len() + 1
            &&& after.frame(layer_id, when).last() == (FrameElement {
                element: after.element_for_assigned(s).unwrap(),
                properties: VectorProperties { brush: definition, drawing_style: style, brush_properties: properties },
            })
            &&& attached_ids(after.attachments, after.element_for_assigned(s).unwrap().id) == seq![
                after.element_for_assigned(d).unwrap().id,
                after.element_for_assigned(p).unwrap().id,
            ]
            &&& element_ids_sound(after)
            &&& layer_id_of(
                perform_edit_spec(
                    brushes,
                    perform_edit_spec(
                        brushes,
                        perform_edit_spec(brushes, c, select_brush(layer, when, d, definition, style)).0,
                        select_properties(layer, when, p, properties),
                    ).0,
                    paint_stroke(layer, when, s, raw),
                ).0,
                layer,
            ) == layer_id
        }),
{
    let t = c.store.tables();
    let layer_id = layer_id_of(c, layer);
    let first = LayerEditView::Paint(when, PaintEditView::SelectBrush(ElementId::Assigned(d), definition, style));
    let second = LayerEditView::Paint(when, PaintEditView::BrushProperties(ElementId::Assigned(p), properties));
    let third = LayerEditView::Paint(when, PaintEditView::BrushStroke(ElementId::Assigned(s), raw));

    lemma_layer_edit(brushes, c, layer, first);
    let c0 = with_layer_id(c, layer);
    lemma_brush_selected(brushes, c0, layer_id, when, d, definition, style);
    let c1 = perform_edit_spec(brushes, c, select_brush(layer, when, d, definition, style)).0;
    let t1 = c1.store.tables();
    let d_detail = ElementDetail::BrushDefinition(definition, drawing_style_type(style));
    lemma_styling_element_sound(t, t1, VectorElementType::BrushDefinition, d, d_detail);
    lemma_same_layer(c, c1, layer);

    lemma_layer_edit(brushes, c1, layer, second);
    let c1w = with_layer_id(c1, layer);
    lemma_properties_selected(brushes, c1w, layer_id, when, p, properties);
    let c2 = perform_edit_spec(brushes, c1, select_properties(layer, when, p, properties)).0;
    let t2 = c2.store.tables();
    let p_detail = ElementDetail::BrushProperties(properties);
    lemma_styling_element_sound(t1, t2, VectorElementType::BrushProperties, p, p_detail);
    lemma_same_layer(c1, c2, layer);

    lemma_layer_edit(brushes, c2, layer, third);
    let c2w = with_layer_id(c2, layer);
    assert(selected(c2w, layer_id, d, p));
    assert(t2.element_for_assigned(d) == t1.element_for_assigned(d));
    assert(t2.element_for_assigned(d) == Some(t1.elements.last()));
    assert(t2.element_for_assigned(p) == Some(t2.elements.last()));
    lemma_painted_stroke(brushes, c2w, layer_id, when, s, raw, d, p);
    lemma_drawing_style_round_trip(style, drawing_style_type(style));
    let c3 = perform_edit_spec(brushes, c2, paint_stroke(layer, when, s, raw)).0;
    lemma_same_layer(c2, c3, layer);
    let after = c3.store.tables();
    assert(t2.frame_elements(layer_id, when) == t.frame_elements(layer_id, when));
    assert(t2.frame(layer_id, when).len() == t.frame(layer_id, when).len());
}

/// A path needs both selections. While no brush or no brush properties are
/// selected for the paths of a layer, making a path on it is skipped: no
/// element is made, nothing is attached, and what is selected stays as it is.
/// The reason says which selection is missing, the brush first.
pub proof fn lemma_path_needs_selection<B: Brush>(
    brushes: B,
    c: CoreView,
    layer_id: i64,
    when: TimeMicros,
    id: ElementId,
    components: Seq<PathComponent>,
)
    requires
        c.failure is None,
        !(path_properties_of(c, layer_id).brush_id is Assigned && path_properties_of(
            c,
            layer_id,
        ).properties_id is Assigned),
    ensures
        ({
            let made = edit_vector_layer_spec(
                brushes,
                c,
                layer_id,
                LayerEditView::Path(when, PathEditView::CreatePath(id, components)),
            );
            &&& made.1 == Ok::<EditOutcome, StoreError>(
                EditOutcome::Skipped(
                    if path_properties_of(c, layer_id).brush_id is Assigned {
                        SkipReason::PathPropertiesNotSelected
                    } else {
                        SkipReason::PathBrushNotSelected
                    },
                ),
            )
            &&& made.0.store.tables().elements == c.store.tables().elements
            &&& made.0.store.tables().attachments == c.store.tables().attachments
            &&& made.0.store.tables().paths == c.store.tables().paths
            &&& made.0.book == c.book
            &&& made.0.failure is None
        }),
{
    reveal(StoreView::updated);
    reveal(step);
    lemma_run_2(
        c.store.machine,
        UpdateView::PushLayerId(layer_id),
        UpdateView::PopDeleteLayerCache(when, CacheType::OnionSkinLayer),
    );
}

} // verus!
