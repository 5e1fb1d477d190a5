//! The animation core: the bookkeeping that turns edits into batches of
//! instructions.

use std::collections::HashMap;
use vstd::prelude::*;
use crate::animation::brush::{BrushDefinition, BrushDrawingStyle, TimeMicros};
use crate::animation::brush::{BrushPoint, BrushProperties, RawPoint};
use crate::animation::brushes::Brush;
use crate::animation::cache_type::CacheType;
use crate::animation::edit::{AnimationEdit, AnimationEditView, LayerEdit, LayerEditView, PaintEdit, PaintEditView, PathEdit, PathEditView};
use crate::animation::element_id::ElementId;
use crate::animation::path::PathComponent;
use crate::db::batch::Batch;
use crate::db::brush::{brush_properties_updates, brush_updates};
use crate::db::db_enum::{drawing_style_type, DrawingStyleType, VectorElementType};
use crate::db::error::StoreError;
use crate::db::flo_file::{FloFile, FloQuery, FloStore, StoreView};
use crate::db::flo_store::{DatabaseUpdate, UpdateView};
use crate::db::rows::{ElementDetail, TablesView};
use crate::db::step::{batch_effect, batch_needs, batch_safe, deeper};
use crate::laws::ids::{lemma_assign_one, lemma_assigned_at, lemma_assigned_len, lemma_count_wanted_grows};

verus! {

broadcast use vstd::std_specs::hash::group_hash_axioms;

/// The element IDs for the path properties for a particular layer
#[derive(Clone, Copy, Debug, PartialEq, Eq)]
pub struct PathPropertiesIds {
    /// The ID of the element defining the path brush
    pub brush_id: ElementId,
    /// The ID of the element defining the path brush properties
    pub properties_id: ElementId,
}

/// The elements to attach automatically to a new brush stroke: the brush
/// definition first, the brush properties after it.
#[derive(Clone, Copy, Debug, PartialEq, Eq)]
pub struct AttachProperties {
    /// The element that defines the brush
    pub brush_definition: Option<ElementId>,
    /// The element that holds the brush properties
    pub brush_properties: Option<ElementId>,
}

/// The brush that is active on a layer, and the time it was made active for.
#[derive(Clone, Copy, Debug, PartialEq, Eq)]
pub struct ActiveBrush {
    pub when: TimeMicros,
    pub definition: BrushDefinition,
    pub drawing_style: BrushDrawingStyle,
}

/// Why an edit changed nothing.
#[derive(Clone, Copy, Debug, PartialEq, Eq, Hash, Structural)]
pub enum SkipReason {
    /// A path was to be created before a brush was selected for paths
    PathBrushNotSelected,
    /// A path was to be created before brush properties were selected for paths
    PathPropertiesNotSelected,
    /// The motion to edit has no assigned id
    UnassignedMotion,
    /// The element to edit has no assigned id
    UnassignedElement,
    /// No element has the id of the element to edit
    MissingElement,
    /// The element is of a type that the edit does nothing to
    NoHandler,
    /// The element to attach or detach has no assigned id
    UnassignedAttachment,
    /// The edit names no element
    NoElements,
}

/// What became of an edit that did not fail.
#[derive(Clone, Copy, Debug, PartialEq, Eq, Hash, Structural)]
pub enum EditOutcome {
    /// The edit was carried out
    Applied,
    /// The edit changed nothing
    Skipped(SkipReason),
}

/// Core data structure used by the animation database
pub struct AnimationDbCore<TFile: FloFile, TBrush: Brush> {
    /// The store
    pub db: TFile,
    /// What turns raw points into brush strokes
    pub brushes: TBrush,
    /// If there has been a failure with the store, this is it. No future operations
    /// will work while there's an error that hasn't been cleared
    pub failure: Option<StoreError>,
    /// Maps a layer ID to the properties that should be associated with the next path created
    pub path_properties_for_layer: HashMap<i64, PathPropertiesIds>,
    /// Maps a layer ID to the properties that should be associated with the next brush stroke created
    pub brush_properties_for_layer: HashMap<i64, AttachProperties>,
    /// Maps layers to the brush that's active
    pub active_brush_for_layer: HashMap<i64, ActiveBrush>,
    /// Maps the assigned layer IDs to their equivalent real IDs
    pub layer_id_for_assigned_id: HashMap<u64, i64>,
    /// The next element ID that will be assigned
    pub next_element_id: i64,
}

/// What the core keeps besides the store.
pub ghost struct Bookkeeping {
    pub path_properties: Map<i64, PathPropertiesIds>,
    pub brush_properties: Map<i64, AttachProperties>,
    pub active_brush: Map<i64, ActiveBrush>,
    pub layer_ids: Map<u64, i64>,
}

impl Bookkeeping {
    /// Bookkeeping that knows of nothing.
    pub open spec fn empty() -> Bookkeeping {
        Bookkeeping {
            path_properties: Map::empty(),
            brush_properties: Map::empty(),
            active_brush: Map::empty(),
            layer_ids: Map::empty(),
        }
    }
}

/// The core as a mathematical value.
pub ghost struct CoreView {
    pub store: StoreView,
    pub failure: Option<StoreError>,
    pub book: Bookkeeping,
    pub next_element_id: i64,
}

/// The edit with a fresh id in the place where it creates an element, if that
/// place holds no id yet; otherwise the edit as it is.
pub open spec fn with_element_id(edit: AnimationEditView, id: i64) -> AnimationEditView {
    match edit {
        AnimationEditView::Layer(layer, LayerEditView::Paint(when, paint)) => match paint {
            PaintEditView::BrushProperties(ElementId::Unassigned, props) => AnimationEditView::Layer(
                layer,
                LayerEditView::Paint(when, PaintEditView::BrushProperties(ElementId::Assigned(id), props)),
            ),
            PaintEditView::SelectBrush(ElementId::Unassigned, defn, style) => AnimationEditView::Layer(
                layer,
                LayerEditView::Paint(when, PaintEditView::SelectBrush(ElementId::Assigned(id), defn, style)),
            ),
            PaintEditView::BrushStroke(ElementId::Unassigned, points) => AnimationEditView::Layer(
                layer,
                LayerEditView::Paint(when, PaintEditView::BrushStroke(ElementId::Assigned(id), points)),
            ),
            _ => edit,
        },
        AnimationEditView::Layer(layer, LayerEditView::Path(when, path)) => match path {
            PathEditView::CreatePath(ElementId::Unassigned, points) => AnimationEditView::Layer(
                layer,
                LayerEditView::Path(when, PathEditView::CreatePath(ElementId::Assigned(id), points)),
            ),
            PathEditView::SelectBrush(ElementId::Unassigned, defn, style) => AnimationEditView::Layer(
                layer,
                LayerEditView::Path(when, PathEditView::SelectBrush(ElementId::Assigned(id), defn, style)),
            ),
            PathEditView::BrushProperties(ElementId::Unassigned, props) => AnimationEditView::Layer(
                layer,
                LayerEditView::Path(when, PathEditView::BrushProperties(ElementId::Assigned(id), props)),
            ),
            _ => edit,
        },
        _ => edit,
    }
}

/// The id under which an edit creates an element, if it creates one.
pub open spec fn created_id(edit: AnimationEditView) -> Option<ElementId> {
    match edit {
        AnimationEditView::Layer(_, LayerEditView::Paint(_, paint)) => match paint {
            PaintEditView::BrushProperties(id, _) => Some(id),
            PaintEditView::SelectBrush(id, _, _) => Some(id),
            PaintEditView::BrushStroke(id, _) => Some(id),
        },
        AnimationEditView::Layer(_, LayerEditView::Path(_, path)) => match path {
            PathEditView::CreatePath(id, _) => Some(id),
            PathEditView::SelectBrush(id, _, _) => Some(id),
            PathEditView::BrushProperties(id, _) => Some(id),
        },
        _ => None,
    }
}

/// True if the edit creates an element and does not say under which id.
pub open spec fn wants_element_id(edit: AnimationEditView) -> bool {
    match edit {
        AnimationEditView::Layer(_, LayerEditView::Paint(_, paint)) => match paint {
            PaintEditView::BrushProperties(id, _) => id is Unassigned,
            PaintEditView::SelectBrush(id, _, _) => id is Unassigned,
            PaintEditView::BrushStroke(id, _) => id is Unassigned,
        },
        AnimationEditView::Layer(_, LayerEditView::Path(_, path)) => match path {
            PathEditView::CreatePath(id, _) => id is Unassigned,
            PathEditView::SelectBrush(id, _, _) => id is Unassigned,
            PathEditView::BrushProperties(id, _) => id is Unassigned,
        },
        _ => false,
    }
}

/// How many of the edits create an element without saying under which id.
pub open spec fn count_wanted(edits: Seq<AnimationEditView>) -> nat
    decreases edits.len(),
{
    if edits.len() == 0 {
        0
    } else {
        count_wanted(edits.drop_last()) + (if wants_element_id(edits.last()) {
            1nat
        } else {
            0nat
        })
    }
}

/// The edits with fresh ids, counted up from `next`, in the places where they
/// create elements without saying under which id.
pub open spec fn with_element_ids(edits: Seq<AnimationEditView>, next: int) -> Seq<AnimationEditView>
    decreases edits.len(),
{
    if edits.len() == 0 {
        edits
    } else {
        let rest = edits.drop_last();
        with_element_ids(rest, next).push(
            with_element_id(edits.last(), (next + count_wanted(rest)) as i64),
        )
    }
}

impl<TFile: FloFile, TBrush: Brush> AnimationDbCore<TFile, TBrush> {
    /// What the core keeps besides the store, as a mathematical value.
    pub open spec fn book(&self) -> Bookkeeping {
        Bookkeeping {
            path_properties: self.path_properties_for_layer@,
            brush_properties: self.brush_properties_for_layer@,
            active_brush: self.active_brush_for_layer@,
            layer_ids: self.layer_id_for_assigned_id@,
        }
    }

    /// The core as a mathematical value.
    pub open spec fn view(&self) -> CoreView {
        CoreView {
            store: self.db.store(),
            failure: self.failure,
            book: self.book(),
            next_element_id: self.next_element_id,
        }
    }

    /// Assigns the next element ID and returns it
    pub fn next_element_id(&mut self) -> (id: i64)
        requires
            old(self).next_element_id < i64::MAX,
        ensures
            id == old(self).next_element_id,
            final(self)@ == (CoreView { next_element_id: (id + 1) as i64, ..old(self)@ }),
            final(self).brushes == old(self).brushes,
    {
        let result = self.next_element_id;
        self.next_element_id += 1;
        result
    }

    /// Assigns an element ID to an animation edit
    fn assign_element_id(&mut self, edit: AnimationEdit) -> (r: AnimationEdit)
        requires
            wants_element_id(edit@) ==> old(self).next_element_id < i64::MAX,
        ensures
            r@ == with_element_id(edit@, old(self).next_element_id),
            final(self)@ == (CoreView {
                next_element_id: if wants_element_id(edit@) {
                    (old(self).next_element_id + 1) as i64
                } else {
                    old(self).next_element_id
                },
                ..old(self)@
            }),
            final(self).brushes == old(self).brushes,
    {
        match edit {
            AnimationEdit::Layer(layer_id, LayerEdit::Paint(when, PaintEdit::BrushProperties(ElementId::Unassigned, props))) => {
                AnimationEdit::Layer(
                    layer_id,
                    LayerEdit::Paint(
                        when,
                        PaintEdit::BrushProperties(ElementId::Assigned(self.next_element_id()), props),
                    ),
                )
            },
            AnimationEdit::Layer(layer_id, LayerEdit::Paint(when, PaintEdit::SelectBrush(ElementId::Unassigned, defn, drawing_style))) => {
                AnimationEdit::Layer(
                    layer_id,
                    LayerEdit::Paint(
                        when,
                        PaintEdit::SelectBrush(ElementId::Assigned(self.next_element_id()), defn, drawing_style),
                    ),
                )
            },
            AnimationEdit::Layer(layer_id, LayerEdit::Paint(when, PaintEdit::BrushStroke(ElementId::Unassigned, points))) => {
                AnimationEdit::Layer(
                    layer_id,
                    LayerEdit::Paint(
                        when,
                        PaintEdit::BrushStroke(ElementId::Assigned(self.next_element_id()), points),
                    ),
                )
            },
            AnimationEdit::Layer(layer_id, LayerEdit::Path(when, PathEdit::CreatePath(ElementId::Unassigned, points))) => {
                AnimationEdit::Layer(
                    layer_id,
                    LayerEdit::Path(
                        when,
                        PathEdit::CreatePath(ElementId::Assigned(self.next_element_id()), points),
                    ),
                )
            },
            AnimationEdit::Layer(layer_id, LayerEdit::Path(when, PathEdit::SelectBrush(ElementId::Unassigned, definition, style))) => {
                AnimationEdit::Layer(
                    layer_id,
                    LayerEdit::Path(
                        when,
                        PathEdit::SelectBrush(ElementId::Assigned(self.next_element_id()), definition, style),
                    ),
                )
            },
            AnimationEdit::Layer(layer_id, LayerEdit::Path(when, PathEdit::BrushProperties(ElementId::Unassigned, properties))) => {
                AnimationEdit::Layer(
                    layer_id,
                    LayerEdit::Path(
                        when,
                        PathEdit::BrushProperties(ElementId::Assigned(self.next_element_id()), properties),
                    ),
                )
            },
            other => other,
        }
    }

    /// Assigns element IDs to a set of animation IDs
    pub fn assign_element_ids(&mut self, edits: Vec<AnimationEdit>) -> (r: Vec<AnimationEdit>)
        requires
            old(self).next_element_id + count_wanted(crate::animation::edit::edits_view(edits@)) <= i64::MAX,
        ensures
            crate::animation::edit::edits_view(r@) == with_element_ids(
                crate::animation::edit::edits_view(edits@),
                old(self).next_element_id as int,
            ),
            final(self)@ == (CoreView {
                next_element_id: (old(self).next_element_id + count_wanted(
                    crate::animation::edit::edits_view(edits@),
                )) as i64,
                ..old(self)@
            }),
            final(self).brushes == old(self).brushes,
            count_wanted(crate::animation::edit::edits_view(edits@)) <= edits@.len(),
            r@.len() == edits@.len(),
            forall|i: int|
                0 <= i < edits@.len() && wants_element_id(#[trigger] edits@[i]@) ==> created_id(
                    r@[i]@,
                ) == Some(
                    ElementId::Assigned(
                        (old(self).next_element_id + count_wanted(
                            crate::animation::edit::edits_view(edits@).take(i),
                        )) as i64,
                    ),
                ),
    {
        let ghost given = edits@;
        let ghost all = crate::animation::edit::edits_view(edits@);
        let ghost start = old(self).next_element_id as int;
        let mut edits = edits;
        let mut out: Vec<AnimationEdit> = Vec::new();
        let mut i: usize = 0;
        let n = edits.len();
        proof {
            assert(all.skip(0) =~= all);
            assert(all.take(0) =~= Seq::empty());
            assert(crate::animation::edit::edits_view(out@) =~= with_element_ids(all.take(0), start));
        }
        while i < n
            invariant
                i <= n,
                n == all.len(),
                start + count_wanted(all) <= i64::MAX,
                start == old(self).next_element_id,
                crate::animation::edit::edits_view(edits@) == all.skip(i as int),
                count_wanted(all.take(i as int)) <= i,
                crate::animation::edit::edits_view(out@) == with_element_ids(all.take(i as int), start),
                self@ == (CoreView {
                    next_element_id: (start + count_wanted(all.take(i as int))) as i64,
                    ..old(self)@
                }),
                self.brushes == old(self).brushes,
            decreases n - i,
        {
            proof {
                assert(crate::animation::edit::edits_view(edits@).len() == n - i);
                assert(crate::animation::edit::edits_view(edits@)[0] == edits@[0]@);
                lemma_count_wanted_grows(all, i as int, i + 1);
                lemma_count_wanted_grows(all, i + 1, n as int);
                assert(all.take(n as int) =~= all);
                assert(all.take(i + 1).drop_last() =~= all.take(i as int));
                assert(all.take(i + 1).last() == edits@[0]@);
            }
            let ghost before = edits@;
            let edit = edits.remove(0);
            proof {
                assert(all.take(i + 1).drop_last() =~= all.take(i as int));
                assert(all.take(i + 1).last() == edit@);
                assert forall|j: int| 0 <= j < edits@.len() implies (#[trigger] edits@[j])@ == all[i + 1 + j] by {
                    assert(edits@[j] == before[j + 1]);
                    assert(crate::animation::edit::edits_view(before)[j + 1] == before[j + 1]@);
                }
                assert(crate::animation::edit::edits_view(edits@) =~= all.skip(i + 1));
            }
            let assigned = self.assign_element_id(edit);
            out.push(assigned);
            proof {
                assert(crate::animation::edit::edits_view(out@) =~= with_element_ids(
                    all.take(i + 1),
                    start,
                ));
            }
            i += 1;
        }
        proof {
            assert(all.take(i as int) =~= all);
            lemma_assigned_len(all, start);
            assert(out@.len() == crate::animation::edit::edits_view(out@).len());
            assert forall|k: int| 0 <= k < given.len() && wants_element_id(
                #[trigger] given[k]@,
            ) implies created_id(out@[k]@) == Some(
                ElementId::Assigned((start + count_wanted(all.take(k))) as i64),
            ) by {
                assert(all[k] == given[k]@);
                lemma_count_wanted_grows(all, k, all.len() as int);
                lemma_assigned_at(all, start, k);
                lemma_assign_one(all[k], (start + count_wanted(all.take(k))) as i64);
                assert(crate::animation::edit::edits_view(out@)[k] == out@[k]@);
            }
        }
        out
    }
}


/// The instructions that make a new element in the nearest key frame of a layer
/// and leave the start of that key frame, the key frame and the element on the
/// stack.
pub open spec fn new_element_updates(
    layer_id: i64,
    when: TimeMicros,
    element_id: ElementId,
    element_type: VectorElementType,
) -> Seq<UpdateView> {
    let made = seq![
        UpdateView::PushLayerId(layer_id),
        UpdateView::PushNearestKeyFrame(when),
        UpdateView::PushVectorElementType(element_type),
        UpdateView::PushVectorElementTime(when),
    ];
    match element_id {
        ElementId::Assigned(assigned) => made.push(UpdateView::PushElementAssignId(assigned)),
        ElementId::Unassigned => made,
    }
}

/// The instructions that make a new element outside any key frame and leave it
/// on the stack.
pub open spec fn unattached_element_updates(element_type: VectorElementType, id: ElementId) -> Seq<UpdateView> {
    match id {
        ElementId::Assigned(assigned) => seq![
            UpdateView::PushVectorElementType(element_type),
            UpdateView::PushElementAssignId(assigned),
        ],
        ElementId::Unassigned => seq![UpdateView::PushVectorElementType(element_type)],
    }
}

/// The instructions that make the element on the stack brush properties.
pub open spec fn brush_properties_element_updates(properties: BrushProperties) -> Seq<UpdateView> {
    brush_properties_updates(properties).push(UpdateView::PopVectorBrushPropertiesElement)
}

/// The instructions that make the element on the stack a brush definition.
pub open spec fn brush_definition_element_updates(
    definition: BrushDefinition,
    drawing_style: BrushDrawingStyle,
) -> Seq<UpdateView> {
    brush_updates(definition).push(UpdateView::PopVectorBrushElement(drawing_style_type(drawing_style)))
}

/// The assigned id of an element that is to be attached, if it has one.
pub open spec fn attach_id(id: Option<ElementId>) -> Option<i64> {
    match id {
        Some(ElementId::Assigned(assigned)) => Some(assigned),
        _ => None,
    }
}

/// The instructions that attach the brush definition and the brush properties
/// that a layer has selected to the element on the stack.
pub open spec fn attach_updates(attach: Option<AttachProperties>) -> Seq<UpdateView> {
    match attach {
        None => Seq::empty(),
        Some(attach) => match (attach_id(attach.brush_definition), attach_id(attach.brush_properties)) {
            (Some(d), Some(p)) => seq![
                UpdateView::PushElementIdForAssignedId(d),
                UpdateView::PushElementIdForAssignedId(p),
                UpdateView::PushAttachElements(2),
            ],
            (Some(d), None) => seq![
                UpdateView::PushElementIdForAssignedId(d),
                UpdateView::PushAttachElements(1),
            ],
            (None, Some(p)) => seq![
                UpdateView::PushElementIdForAssignedId(p),
                UpdateView::PushAttachElements(1),
            ],
            (None, None) => Seq::empty(),
        },
    }
}

/// The instructions that give the element on the stack the points of a brush
/// stroke and take it from the stack; where no brush is active, the element is
/// taken from the stack as it is.
pub open spec fn stroke_updates<B: Brush>(brushes: B, active: Option<ActiveBrush>, raw: Seq<RawPoint>) -> Seq<
    UpdateView,
> {
    match active {
        Some(brush) => seq![
            UpdateView::PopBrushPoints(brushes.spec_brush_points(brush.definition, brush.drawing_style, raw)),
        ],
        None => seq![UpdateView::Pop],
    }
}

/// The brush that a layer draws with at a time: the one made active for that
/// time, or else the one that the brush definition selected for the layer holds.
pub open spec fn active_brush(c: CoreView, layer_id: i64, when: TimeMicros) -> Option<ActiveBrush> {
    if c.book.active_brush.contains_key(layer_id) && c.book.active_brush[layer_id].when == when {
        Some(c.book.active_brush[layer_id])
    } else if c.book.brush_properties.contains_key(layer_id) {
        match c.book.brush_properties[layer_id].brush_definition {
            Some(id) => match c.store.tables().element_id(id) {
                Some(element) => match c.store.tables().element(element) {
                    Some(row) => match row.detail {
                        ElementDetail::BrushDefinition(definition, style) => Some(
                            ActiveBrush {
                                when,
                                definition,
                                drawing_style: crate::db::db_enum::drawing_style_of(style),
                            },
                        ),
                        _ => None,
                    },
                    None => None,
                },
                None => None,
            },
            None => None,
        }
    } else {
        None
    }
}

/// The bookkeeping once the brush that a layer draws with at a time is known.
pub open spec fn with_active_brush(c: CoreView, layer_id: i64, when: TimeMicros) -> CoreView {
    match active_brush(c, layer_id, when) {
        Some(brush) => CoreView {
            book: Bookkeeping { active_brush: c.book.active_brush.insert(layer_id, brush), ..c.book },
            ..c
        },
        None => c,
    }
}

/// The core after a batch was handed to its store, and what the store returned.
pub open spec fn submit(c: CoreView, updates: Seq<UpdateView>) -> (CoreView, Result<(), StoreError>) {
    (CoreView { store: c.store.updated(updates).0, ..c }, c.store.updated(updates).1)
}

/// What a layer has selected for its brush strokes, or nothing of either kind.
pub open spec fn attach_of(c: CoreView, layer_id: i64) -> AttachProperties {
    if c.book.brush_properties.contains_key(layer_id) {
        c.book.brush_properties[layer_id]
    } else {
        AttachProperties { brush_definition: None, brush_properties: None }
    }
}

/// What a layer has selected for its paths, or nothing of either kind.
pub open spec fn path_properties_of(c: CoreView, layer_id: i64) -> PathPropertiesIds {
    if c.book.path_properties.contains_key(layer_id) {
        c.book.path_properties[layer_id]
    } else {
        PathPropertiesIds { brush_id: ElementId::Unassigned, properties_id: ElementId::Unassigned }
    }
}

/// The instructions of a paint edit.
pub open spec fn paint_updates<B: Brush>(
    brushes: B,
    c: CoreView,
    layer_id: i64,
    when: TimeMicros,
    edit: PaintEditView,
) -> Seq<UpdateView> {
    match edit {
        PaintEditView::SelectBrush(id, definition, style) => unattached_element_updates(
            VectorElementType::BrushDefinition,
            id,
        ) + brush_definition_element_updates(definition, style),
        PaintEditView::BrushProperties(id, properties) => unattached_element_updates(
            VectorElementType::BrushProperties,
            id,
        ) + brush_properties_element_updates(properties),
        PaintEditView::BrushStroke(id, raw) => new_element_updates(
            layer_id,
            when,
            id,
            VectorElementType::BrushStroke,
        ) + attach_updates(
            if c.book.brush_properties.contains_key(layer_id) {
                Some(c.book.brush_properties[layer_id])
            } else {
                None
            },
        ) + stroke_updates(brushes, active_brush(c, layer_id, when), raw) + seq![
            UpdateView::Pop,
            UpdateView::Pop,
        ],
    }
}

/// The core with the bookkeeping as it is after a paint edit was carried out.
pub open spec fn painted(c: CoreView, layer_id: i64, when: TimeMicros, edit: PaintEditView) -> CoreView {
    match edit {
        PaintEditView::SelectBrush(id, definition, style) => CoreView {
            book: Bookkeeping {
                active_brush: c.book.active_brush.insert(
                    layer_id,
                    ActiveBrush { when, definition, drawing_style: style },
                ),
                brush_properties: c.book.brush_properties.insert(
                    layer_id,
                    AttachProperties { brush_definition: Some(id), ..attach_of(c, layer_id) },
                ),
                ..c.book
            },
            ..c
        },
        PaintEditView::BrushProperties(id, _) => CoreView {
            book: Bookkeeping {
                brush_properties: c.book.brush_properties.insert(
                    layer_id,
                    AttachProperties { brush_properties: Some(id), ..attach_of(c, layer_id) },
                ),
                ..c.book
            },
            ..c
        },
        PaintEditView::BrushStroke(_, _) => with_active_brush(c, layer_id, when),
    }
}

/// The core after a paint edit, and what the edit returns: the bookkeeping
/// changes only if the store took the instructions.
pub open spec fn paint_vector_layer_spec<B: Brush>(
    brushes: B,
    c: CoreView,
    layer_id: i64,
    when: TimeMicros,
    edit: PaintEditView,
) -> (CoreView, Result<EditOutcome, StoreError>) {
    let (after, r) = submit(c, paint_updates(brushes, c, layer_id, when, edit));
    match r {
        Ok(()) => (CoreView { book: painted(c, layer_id, when, edit).book, ..after }, Ok(EditOutcome::Applied)),
        Err(e) => (after, Err(e)),
    }
}

impl<TFile: FloFile, TBrush: Brush> AnimationDbCore<TFile, TBrush> {
    /// Retrieves the brush that is active on the specified layer at the specified time
    pub fn get_active_brush_for_layer(&self, layer_id: i64, when: TimeMicros) -> (r: Option<ActiveBrush>)
        ensures
            r == active_brush(self@, layer_id, when),
    {
        // If the cached active brush is at the right time, then just use that
        match self.active_brush_for_layer.get(&layer_id) {
            Some(brush) => {
                if brush.when == when {
                    return Some(*brush);
                }
            },
            None => {},
        }
        // Get the brush properties for the layer
        match self.brush_properties_for_layer.get(&layer_id) {
            Some(properties) => match properties.brush_definition {
                Some(id) => match self.db.query_vector_element_id(&id) {
                    Some(element) => match self.db.query_vector_element(element) {
                        Some(row) => match row.detail {
                            ElementDetail::BrushDefinition(definition, style) => Some(
                                ActiveBrush { when, definition, drawing_style: BrushDrawingStyle::from(style) },
                            ),
                            _ => None,
                        },
                        None => None,
                    },
                    None => None,
                },
                // Brush properties have been set but not the brush definition
                None => None,
            },
            // No brush properties have been set yet for this layer
            None => None,
        }
    }

    /// Adds the instructions that make a new element in the nearest key frame of a
    /// layer, leaving the start of the key frame, the key frame and the element
    /// on the stack.
    ///
    /// The element is created without its associated data.
    pub fn create_new_element(
        batch: &mut Batch,
        layer_id: i64,
        when: TimeMicros,
        element_id: ElementId,
        element_type: VectorElementType,
    )
        ensures
            final(batch)@ == old(batch)@ + new_element_updates(layer_id, when, element_id, element_type),
            batch_effect(final(batch)@) == batch_effect(old(batch)@) + 3,
            batch_needs(final(batch)@) == deeper(batch_needs(old(batch)@), 0, batch_effect(old(batch)@)),
    {
        batch.push(DatabaseUpdate::PushLayerId(layer_id));
        batch.push(DatabaseUpdate::PushNearestKeyFrame(when));
        batch.push(DatabaseUpdate::PushVectorElementType(element_type));
        batch.push(DatabaseUpdate::PushVectorElementTime(when));
        match element_id {
            ElementId::Assigned(assigned_id) => {
                batch.push(DatabaseUpdate::PushElementAssignId(assigned_id));
            },
            ElementId::Unassigned => {},
        }
        proof {
            assert(batch@ =~= old(batch)@ + new_element_updates(layer_id, when, element_id, element_type));
        }
    }

    /// Adds the instructions that make a new element outside any key frame,
    /// leaving the element on the stack.
    ///
    /// The element is created without its associated data.
    pub fn create_unattached_element(batch: &mut Batch, element_type: VectorElementType, id: ElementId)
        ensures
            final(batch)@ == old(batch)@ + unattached_element_updates(element_type, id),
            batch_effect(final(batch)@) == batch_effect(old(batch)@) + 1,
            batch_needs(final(batch)@) == deeper(batch_needs(old(batch)@), 0, batch_effect(old(batch)@)),
    {
        batch.push(DatabaseUpdate::PushVectorElementType(element_type));
        match id {
            ElementId::Assigned(assigned_id) => {
                batch.push(DatabaseUpdate::PushElementAssignId(assigned_id));
            },
            ElementId::Unassigned => {},
        }
        proof {
            assert(batch@ =~= old(batch)@ + unattached_element_updates(element_type, id));
        }
    }

    /// Adds the instructions that write a brush properties element (popping the
    /// element ID)
    pub fn create_brush_properties(batch: &mut Batch, properties: BrushProperties)
        ensures
            final(batch)@ == old(batch)@ + brush_properties_element_updates(properties),
            batch_effect(final(batch)@) == batch_effect(old(batch)@) - 1,
            batch_needs(final(batch)@) == deeper(batch_needs(old(batch)@), 1, batch_effect(old(batch)@)),
    {
        Self::insert_brush_properties(batch, &properties);
        batch.push(DatabaseUpdate::PopVectorBrushPropertiesElement);
        proof {
            assert(batch@ =~= old(batch)@ + brush_properties_element_updates(properties));
        }
    }

    /// Adds the instructions that write a brush definition element (popping the
    /// element ID)
    pub fn create_brush_definition(
        batch: &mut Batch,
        definition: BrushDefinition,
        drawing_style: BrushDrawingStyle,
    )
        ensures
            final(batch)@ == old(batch)@ + brush_definition_element_updates(definition, drawing_style),
            batch_effect(final(batch)@) == batch_effect(old(batch)@) - 1,
            batch_needs(final(batch)@) == deeper(batch_needs(old(batch)@), 1, batch_effect(old(batch)@)),
    {
        Self::insert_brush(batch, &definition);
        batch.push(DatabaseUpdate::PopVectorBrushElement(DrawingStyleType::from(&drawing_style)));
        proof {
            assert(batch@ =~= old(batch)@ + brush_definition_element_updates(definition, drawing_style));
        }
    }

    /// Adds the instructions that write a brush stroke (popping the element ID)
    pub fn create_brush_stroke(
        &self,
        batch: &mut Batch,
        layer_id: i64,
        when: TimeMicros,
        brush_stroke: &Vec<RawPoint>,
    )
        ensures
            final(batch)@ == old(batch)@ + stroke_updates(
                self.brushes,
                active_brush(self@, layer_id, when),
                brush_stroke@,
            ),
            batch_effect(final(batch)@) == batch_effect(old(batch)@) - 1,
            batch_needs(final(batch)@) == deeper(batch_needs(old(batch)@), 1, batch_effect(old(batch)@)),
    {
        // Convert the brush stroke to the brush points
        match self.get_active_brush_for_layer(layer_id, when) {
            Some(active_brush) => {
                let points = self.brushes.brush_points_for_raw_points(
                    &active_brush.definition,
                    active_brush.drawing_style,
                    brush_stroke,
                );
                batch.push(DatabaseUpdate::PopBrushPoints(points));
            },
            None => {
                batch.push(DatabaseUpdate::Pop);
            },
        }
        proof {
            assert(batch@ =~= old(batch)@ + stroke_updates(
                self.brushes,
                active_brush(self@, layer_id, when),
                brush_stroke@,
            ));
        }
    }

    /// Adds the instructions that attach what a layer has selected for its brush
    /// strokes to the element on the stack.
    fn attach_properties(&self, batch: &mut Batch, layer_id: i64)
        ensures
            final(batch)@ == old(batch)@ + attach_updates(
                if self@.book.brush_properties.contains_key(layer_id) {
                    Some(self@.book.brush_properties[layer_id])
                } else {
                    None
                },
            ),
            batch_effect(final(batch)@) == batch_effect(old(batch)@),
            batch_needs(final(batch)@) == batch_needs(old(batch)@) || batch_needs(final(batch)@) == deeper(
                batch_needs(old(batch)@),
                1,
                batch_effect(old(batch)@),
            ),
    {
        match self.brush_properties_for_layer.get(&layer_id) {
            None => {
                proof {
                    assert(batch@ =~= old(batch)@ + Seq::<UpdateView>::empty());
                }
            },
            Some(attach) => {
                let mut count: usize = 0;
                match attach.brush_definition {
                    Some(ElementId::Assigned(d)) => {
                        batch.push(DatabaseUpdate::PushElementIdForAssignedId(d));
                        count += 1;
                    },
                    _ => {},
                }
                match attach.brush_properties {
                    Some(ElementId::Assigned(p)) => {
                        batch.push(DatabaseUpdate::PushElementIdForAssignedId(p));
                        count += 1;
                    },
                    _ => {},
                }
                if count > 0 {
                    batch.push(DatabaseUpdate::PushAttachElements(count));
                }
                proof {
                    assert(batch@ =~= old(batch)@ + attach_updates(Some(*attach)));
                }
            },
        }
    }

    /// Adds a new vector element to a vector layer
    pub(crate) fn paint_vector_layer(&mut self, layer_id: i64, when: TimeMicros, new_element: &PaintEdit) -> (r: Result<
        EditOutcome,
        StoreError,
    >)
        ensures
            final(self)@ == paint_vector_layer_spec(old(self).brushes, old(self)@, layer_id, when, new_element@).0,
            r == paint_vector_layer_spec(old(self).brushes, old(self)@, layer_id, when, new_element@).1,
            r is Ok ==> final(self)@.store.depth() == old(self)@.store.depth(),
            final(self).brushes == old(self).brushes,
    {
        let mut batch = Batch::new();
        let active = self.get_active_brush_for_layer(layer_id, when);
        match new_element {
            PaintEdit::BrushStroke(id, brush_stroke) => {
                // New brush stroke element
                Self::create_new_element(&mut batch, layer_id, when, *id, VectorElementType::BrushStroke);
                // Attach the properties for this brush stroke
                self.attach_properties(&mut batch, layer_id);
                // Create the brush stroke (popping the element ID)
                self.create_brush_stroke(&mut batch, layer_id, when, brush_stroke);
                // Pop the frame ID and time (create_brush_stroke will have popped the element ID)
                batch.push(DatabaseUpdate::Pop);
                batch.push(DatabaseUpdate::Pop);
            },
            PaintEdit::SelectBrush(id, brush_definition, drawing_style) => {
                // Create a new brush definition to use with the future brush strokes
                Self::create_unattached_element(&mut batch, VectorElementType::BrushDefinition, *id);
                Self::create_brush_definition(&mut batch, *brush_definition, *drawing_style);
            },
            PaintEdit::BrushProperties(id, brush_properties) => {
                // Create a new brush properties to use with the future brush strokes
                Self::create_unattached_element(&mut batch, VectorElementType::BrushProperties, *id);
                Self::create_brush_properties(&mut batch, *brush_properties);
            },
        }
        proof {
            assert(batch@ =~= paint_updates(self.brushes, self@, layer_id, when, new_element@));
            reveal(StoreView::updated);
            if crate::db::step::run(old(self)@.store.machine, batch@) is Ok {
                crate::db::engine_run::lemma_run_depth(old(self)@.store.machine, batch@);
            }
        }
        self.db.update(batch.into_updates())?;

        // Update the state of this object now that the store has the element
        let attach = match self.brush_properties_for_layer.get(&layer_id) {
            Some(attach) => *attach,
            None => AttachProperties { brush_definition: None, brush_properties: None },
        };
        match new_element {
            PaintEdit::SelectBrush(id, brush_definition, drawing_style) => {
                // Cache the brush so that follow up drawing instructions don't need to
                self.active_brush_for_layer.insert(
                    layer_id,
                    ActiveBrush { when, definition: *brush_definition, drawing_style: *drawing_style },
                );
                // Attach to future brush strokes
                self.brush_properties_for_layer.insert(
                    layer_id,
                    AttachProperties { brush_definition: Some(*id), brush_properties: attach.brush_properties },
                );
            },
            PaintEdit::BrushProperties(id, _) => {
                // Attach to future brush strokes
                self.brush_properties_for_layer.insert(
                    layer_id,
                    AttachProperties { brush_definition: attach.brush_definition, brush_properties: Some(*id) },
                );
            },
            PaintEdit::BrushStroke(_, _) => {
                // Cache the brush for faster retrieval next time
                match active {
                    Some(brush) => {
                        self.active_brush_for_layer.insert(layer_id, brush);
                    },
                    None => {},
                }
            },
        }
        Ok(EditOutcome::Applied)
    }
}

} // verus!
