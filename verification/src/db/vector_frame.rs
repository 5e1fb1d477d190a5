//! Frames: the elements that show in a layer at a time, and the properties that
//! each of them is drawn with.

use vstd::prelude::*;
use crate::animation::brush::{BrushDrawingStyle, TimeMicros};
use crate::animation::brushes::Brush;
use crate::animation::vector::VectorProperties;
use crate::db::animation_core::AnimationDbCore;
use crate::db::db_enum::drawing_style_of;
use crate::db::flo_file::{FloFile, FloQuery};
use crate::db::flo_query::attached_ids;
use crate::db::rows::{ElementDetail, ElementRow, TablesView};

verus! {

/// An element of a frame with the properties it is drawn with.
#[derive(Clone, Copy, Debug, PartialEq, Eq)]
pub struct FrameElement {
    pub element: ElementRow,
    pub properties: VectorProperties,
}

/// The properties after an element had its say: a brush definition sets the
/// brush and its drawing style, brush properties set the brush properties, and
/// every other element leaves the properties as they are.
pub open spec fn properties_with(detail: ElementDetail, properties: VectorProperties) -> VectorProperties {
    match detail {
        ElementDetail::BrushDefinition(definition, style) => VectorProperties {
            brush: definition,
            drawing_style: drawing_style_of(style),
            ..properties
        },
        ElementDetail::BrushProperties(brush_properties) => VectorProperties { brush_properties, ..properties },
        _ => properties,
    }
}

impl TablesView {
    /// The properties after each of the elements with the ids `ids` had its
    /// say, in their order; an id that no element has says nothing.
    pub open spec fn properties_from(self, ids: Seq<i64>, properties: VectorProperties) -> VectorProperties
        decreases ids.len(),
    {
        if ids.len() == 0 {
            properties
        } else {
            let before = self.properties_from(ids.drop_last(), properties);
            match self.element(ids.last()) {
                Some(row) => properties_with(row.detail, before),
                None => before,
            }
        }
    }

    /// The ids of the elements that style an element: for a path the element
    /// of its brush and the element of its brush properties, and for every
    /// element what is attached to it.
    pub open spec fn styling_ids(self, row: ElementRow) -> Seq<i64> {
        match row.detail {
            ElementDetail::Path(_, brush, properties) => seq![brush, properties] + attached_ids(
                self.attachments,
                row.id,
            ),
            _ => attached_ids(self.attachments, row.id),
        }
    }

    /// The properties that an element is drawn with: the default properties
    /// after each of the elements that style it had its say.
    pub open spec fn resolved_properties(self, row: ElementRow) -> VectorProperties {
        self.properties_from(self.styling_ids(row), VectorProperties::spec_default())
    }

    /// The elements that show in `layer` at `when`, the one drawn first first,
    /// each with the properties it is drawn with.
    pub open spec fn frame(self, layer: i64, when: TimeMicros) -> Seq<FrameElement> {
        Seq::new(
            self.frame_elements(layer, when).len(),
            |i: int|
                FrameElement {
                    element: self.frame_elements(layer, when)[i],
                    properties: self.resolved_properties(self.frame_elements(layer, when)[i]),
                },
        )
    }
}

/// An element to which a brush definition and brush properties are attached,
/// in that order and nothing else, is drawn with exactly what the two hold.
pub proof fn lemma_attached_properties(
    t: TablesView,
    row: ElementRow,
    definition: ElementRow,
    properties: ElementRow,
)
    requires
        !(row.detail is Path),
        attached_ids(t.attachments, row.id) == seq![definition.id, properties.id],
        t.element(definition.id) == Some(definition),
        t.element(properties.id) == Some(properties),
        definition.detail is BrushDefinition,
        properties.detail is BrushProperties,
    ensures
        t.resolved_properties(row) == (VectorProperties {
            brush: definition.detail->BrushDefinition_0,
            drawing_style: drawing_style_of(definition.detail->BrushDefinition_1),
            brush_properties: properties.detail->BrushProperties_0,
        }),
{
    let ids = seq![definition.id, properties.id];
    assert(ids.drop_last() =~= seq![definition.id]);
    assert(ids.drop_last().drop_last() =~= Seq::<i64>::empty());
    reveal_with_fuel(TablesView::properties_from, 3);
}

/// A path is drawn with exactly what the element of its brush and the element
/// of its brush properties hold, if nothing else is attached to it.
pub proof fn lemma_path_properties(t: TablesView, row: ElementRow, definition: ElementRow, properties: ElementRow)
    requires
        row.detail matches ElementDetail::Path(_, brush, props) && brush == definition.id && props
            == properties.id,
        attached_ids(t.attachments, row.id) == Seq::<i64>::empty(),
        t.element(definition.id) == Some(definition),
        t.element(properties.id) == Some(properties),
        definition.detail is BrushDefinition,
        properties.detail is BrushProperties,
    ensures
        t.resolved_properties(row) == (VectorProperties {
            brush: definition.detail->BrushDefinition_0,
            drawing_style: drawing_style_of(definition.detail->BrushDefinition_1),
            brush_properties: properties.detail->BrushProperties_0,
        }),
{
    let ids = seq![definition.id, properties.id];
    assert(t.styling_ids(row) =~= ids);
    assert(ids.drop_last() =~= seq![definition.id]);
    assert(ids.drop_last().drop_last() =~= Seq::<i64>::empty());
    reveal_with_fuel(TablesView::properties_from, 3);
}

impl<TFile: FloFile, TBrush: Brush> AnimationDbCore<TFile, TBrush> {
    /// The properties after each of the elements with the ids `ids` had its say.
    fn properties_from(&self, ids: &Vec<i64>, properties: VectorProperties) -> (r: VectorProperties)
        ensures
            r == self@.store.tables().properties_from(ids@, properties),
    {
        let mut current = properties;
        let mut i: usize = 0;
        while i < ids.len()
            invariant
                i <= ids@.len(),
                current == self@.store.tables().properties_from(ids@.take(i as int), properties),
            decreases ids.len() - i,
        {
            proof {
                assert(ids@.take(i + 1).drop_last() =~= ids@.take(i as int));
            }
            match self.db.query_vector_element(ids[i]) {
                Some(row) => match row.detail {
                    ElementDetail::BrushDefinition(definition, style) => {
                        current.brush = definition;
                        current.drawing_style = BrushDrawingStyle::from(style);
                    },
                    ElementDetail::BrushProperties(brush_properties) => {
                        current.brush_properties = brush_properties;
                    },
                    _ => {},
                },
                None => {},
            }
            i += 1;
        }
        proof {
            assert(ids@.take(i as int) =~= ids@);
        }
        current
    }

    /// The properties that an element is drawn with
    pub fn get_element_properties(&self, row: &ElementRow) -> (r: VectorProperties)
        ensures
            r == self@.store.tables().resolved_properties(*row),
    {
        let attached = self.db.query_attached_elements(row.id);
        let mut ids: Vec<i64> = Vec::new();
        match row.detail {
            ElementDetail::Path(_, brush, properties) => {
                ids.push(brush);
                ids.push(properties);
            },
            _ => {},
        }
        let mut i: usize = 0;
        let ghost start = ids@;
        while i < attached.len()
            invariant
                i <= attached@.len(),
                ids@ == start + attached@.take(i as int),
            decreases attached.len() - i,
        {
            ids.push(attached[i]);
            proof {
                assert(ids@ =~= start + attached@.take(i + 1));
            }
            i += 1;
        }
        proof {
            assert(attached@.take(i as int) =~= attached@);
            assert(ids@ =~= self@.store.tables().styling_ids(*row));
        }
        self.properties_from(&ids, VectorProperties::default())
    }

    /// The elements that show in the layer with the id `layer_id` at `when`,
    /// ordered from back to front, each with the properties it is drawn with
    pub fn get_frame_at_time(&self, layer_id: i64, when: TimeMicros) -> (r: Vec<FrameElement>)
        ensures
            r@ == self@.store.tables().frame(layer_id, when),
    {
        let elements = self.db.query_frame_elements(layer_id, when);
        let mut out: Vec<FrameElement> = Vec::new();
        let mut i: usize = 0;
        while i < elements.len()
            invariant
                i <= elements@.len(),
                elements@ == self@.store.tables().frame_elements(layer_id, when),
                out@.len() == i,
                forall|k: int| 0 <= k < i ==> out@[k] == self@.store.tables().frame(layer_id, when)[k],
            decreases elements.len() - i,
        {
            let element = elements[i];
            let properties = self.get_element_properties(&element);
            out.push(FrameElement { element, properties });
            i += 1;
        }
        proof {
            assert(out@ =~= self@.store.tables().frame(layer_id, when));
        }
        out
    }
}

} // verus!
