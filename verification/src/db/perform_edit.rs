//! The animation core: paths, motions, elements, layers, and the edit as a whole.
//!
//! Whatever fails, the store is taken back to where a failure takes it: an edit
//! that returns an error has left nothing behind but that error, which stays
//! with the core, and keeps further edits from being carried out, until it is
//! taken away.

use vstd::prelude::*;
use crate::animation::brush::{Coord, TimeMicros};
use crate::animation::brushes::Brush;
use crate::animation::cache_type::CacheType;
use crate::animation::edit::{AnimationEdit, AnimationEditView, ElementEdit, ElementEditView, ElementOrdering, LayerEdit, LayerEditView, MotionEdit, MotionEditView, PathEdit, PathEditView};
use crate::animation::element_id::ElementId;
use crate::animation::motion::{TimeControlPoint, TimeCurve, TimePoint};
use crate::animation::path::PathComponent;
use crate::db::animation_core::{brush_definition_element_updates, brush_properties_element_updates, new_element_updates, paint_vector_layer_spec, path_properties_of, submit, unattached_element_updates, AnimationDbCore, Bookkeeping, CoreView, EditOutcome, PathPropertiesIds, SkipReason};
use crate::db::batch::Batch;
use crate::db::db_enum::{LayerType, VectorElementType};
use crate::db::error::{StoreError, UnsupportedOperation};
use crate::db::engine_run::lemma_run_depth;
use crate::db::flo_file::{FloFile, FloQuery, FloStore, StoreView};
use crate::db::flo_store::{DatabaseUpdate, DbElementMove, Segment, UpdateView};
use crate::db::motion_path_type::MotionPathType;
use crate::animation::segments::{stroke_segments, stroke_segments_of};
use crate::db::points::{curve_points, lemma_parse_curve, lemma_parsed_total, lemma_total_points_prefix, total_points};
use crate::db::rows::TablesView;
use crate::db::step::{batch_effect, batch_needs, deeper, run};

verus! {

broadcast use vstd::std_specs::hash::group_hash_axioms;

/// Counts the stored points that a list of components occupies.
pub fn count_points(components: &Vec<PathComponent>) -> (n: usize)
    requires
        total_points(components@) <= usize::MAX,
    ensures
        n == total_points(components@),
{
    let mut n: usize = 0;
    let mut i: usize = 0;
    while i < components.len()
        invariant
            i <= components@.len(),
            n == total_points(components@.take(i as int)),
            total_points(components@) <= usize::MAX,
        decreases components.len() - i,
    {
        proof {
            assert(components@.take(i + 1).drop_last() =~= components@.take(i as int));
            lemma_total_points_prefix(components@, i + 1);
        }
        n = n + components[i].num_points();
        i += 1;
    }
    proof {
        assert(components@.take(i as int) =~= components@);
    }
    n
}

/// The instructions that make the time points of a list, leaving them on the
/// stack in their order.
pub open spec fn time_point_updates(points: Seq<TimePoint>) -> Seq<UpdateView> {
    Seq::new(points.len(), |i: int| UpdateView::PushTimePoint(points[i].0, points[i].1, points[i].2))
}

/// What an edit comes to once the store was asked what it depends on.
pub ghost enum Plan {
    /// The edit is these instructions
    Run(Seq<UpdateView>),
    /// The edit changes nothing
    Skip(SkipReason),
    /// The edit cannot be carried out
    Fail(StoreError),
}

/// The instructions of a plan that is instructions.
pub open spec fn planned(plan: Plan) -> Seq<UpdateView> {
    match plan {
        Plan::Run(updates) => updates,
        _ => Seq::empty(),
    }
}

/// The core after a plan was carried out, and what the edit returns. A plan
/// that fails takes the store back as a batch that fails does.
pub open spec fn carry_out(c: CoreView, plan: Plan) -> (CoreView, Result<EditOutcome, StoreError>) {
    match plan {
        Plan::Run(updates) => match submit(c, updates).1 {
            Ok(()) => (submit(c, updates).0, Ok(EditOutcome::Applied)),
            Err(e) => (submit(c, updates).0, Err(e)),
        },
        Plan::Skip(reason) => (c, Ok(EditOutcome::Skipped(reason))),
        Plan::Fail(e) => (CoreView { store: c.store.rolled_back(), ..c }, Err(e)),
    }
}

/// What an edit to a motion comes to.
pub open spec fn motion_plan(motion_id: ElementId, edit: MotionEditView) -> Plan {
    match motion_id {
        ElementId::Unassigned => Plan::Skip(SkipReason::UnassignedMotion),
        ElementId::Assigned(id) => match edit {
            MotionEditView::Create => Plan::Run(
                seq![
                    UpdateView::PushVectorElementType(VectorElementType::Motion),
                    UpdateView::PushElementAssignId(id),
                    UpdateView::Pop,
                    UpdateView::CreateMotion(id),
                ],
            ),
            MotionEditView::Delete => Plan::Run(seq![UpdateView::DeleteMotion(id)]),
            MotionEditView::SetType(motion_type) => Plan::Run(seq![UpdateView::SetMotionType(id, motion_type)]),
            MotionEditView::SetOrigin(x, y) => Plan::Run(seq![UpdateView::SetMotionOrigin(id, x, y)]),
            MotionEditView::SetPath(curve) => Plan::Run(
                time_point_updates(curve_points(curve)).push(
                    UpdateView::SetMotionPath(id, MotionPathType::Position, (3 * curve.len()) as usize),
                ),
            ),
        },
    }
}

/// The move in the drawing order that an ordering asks for.
pub open spec fn element_move(ordering: ElementOrdering) -> Option<DbElementMove> {
    match ordering {
        ElementOrdering::InFront => Some(DbElementMove::Up),
        ElementOrdering::Behind => Some(DbElementMove::Down),
        ElementOrdering::ToTop => Some(DbElementMove::ToTop),
        ElementOrdering::ToBottom => Some(DbElementMove::ToBottom),
        ElementOrdering::Before(_) => None,
    }
}

/// What replacing the path of the element with the assigned id `assigned` comes
/// to: every point that the path has is removed, then the new components are
/// inserted at the start.
pub open spec fn set_path_plan(t: TablesView, assigned: i64, components: Seq<PathComponent>) -> Plan {
    match t.element_id(ElementId::Assigned(assigned)) {
        None => Plan::Fail(StoreError::MissingElement),
        Some(element) => match t.path_element(element) {
            None => Plan::Fail(StoreError::UnexpectedElementType),
            Some(entry) => match t.path_components(entry.path_id) {
                None => Plan::Fail(StoreError::BrokenReference),
                Some(existing) => Plan::Run(
                    seq![
                        UpdateView::PushElementIdForAssignedId(assigned),
                        UpdateView::PushPathIdForElementId,
                        UpdateView::Duplicate,
                        UpdateView::PopRemovePathPoints(0, total_points(existing) as usize),
                        UpdateView::PopInsertPathComponents(0, components),
                        UpdateView::Pop,
                    ],
                ),
            },
        },
    }
}

/// What an edit to one element comes to.
pub open spec fn element_plan(t: TablesView, element_id: ElementId, edit: ElementEditView) -> Plan {
    match element_id {
        ElementId::Unassigned => Plan::Skip(SkipReason::UnassignedElement),
        ElementId::Assigned(assigned) => match t.element_type_for_assigned(assigned) {
            None => Plan::Skip(SkipReason::MissingElement),
            Some(element_type) => match edit {
                ElementEditView::SetControlPoints(points) => match element_type {
                    VectorElementType::BrushStroke => Plan::Run(
                        seq![
                            UpdateView::PushElementIdForAssignedId(assigned),
                            UpdateView::UpdateBrushPointCoords(stroke_segments(points)),
                        ],
                    ),
                    VectorElementType::Path => Plan::Run(
                        seq![
                            UpdateView::PushElementIdForAssignedId(assigned),
                            UpdateView::PushPathIdForElementId,
                            UpdateView::UpdatePathPointCoords(points),
                            UpdateView::Pop,
                        ],
                    ),
                    _ => Plan::Skip(SkipReason::NoHandler),
                },
                ElementEditView::SetPath(components) => match element_type {
                    VectorElementType::Path => set_path_plan(t, assigned, components),
                    _ => Plan::Skip(SkipReason::NoHandler),
                },
                ElementEditView::Order(ordering) => match element_move(ordering) {
                    Some(how) => Plan::Run(
                        seq![
                            UpdateView::PushElementIdForAssignedId(assigned),
                            UpdateView::PushKeyFrameIdForElementId,
                            UpdateView::PopVectorElementMove(how),
                        ],
                    ),
                    None => Plan::Fail(StoreError::Unsupported(UnsupportedOperation::OrderBefore)),
                },
                ElementEditView::AddAttachment(attach) => match attach {
                    ElementId::Assigned(attached) => Plan::Run(
                        seq![
                            UpdateView::PushElementIdForAssignedId(assigned),
                            UpdateView::PushElementIdForAssignedId(attached),
                            UpdateView::PushAttachElements(1),
                            UpdateView::Pop,
                        ],
                    ),
                    ElementId::Unassigned => Plan::Skip(SkipReason::UnassignedAttachment),
                },
                ElementEditView::RemoveAttachment(detach) => match detach {
                    ElementId::Assigned(detached) => Plan::Run(
                        seq![
                            UpdateView::PushElementIdForAssignedId(assigned),
                            UpdateView::PushElementIdForAssignedId(detached),
                            UpdateView::PushDetachElements(1),
                            UpdateView::Pop,
                        ],
                    ),
                    ElementId::Unassigned => Plan::Skip(SkipReason::UnassignedAttachment),
                },
                ElementEditView::Delete => Plan::Run(
                    seq![
                        UpdateView::PushElementIdForAssignedId(assigned),
                        UpdateView::PopDeleteVectorElement,
                    ],
                ),
                ElementEditView::DetachFromFrame => Plan::Run(
                    seq![
                        UpdateView::PushElementIdForAssignedId(assigned),
                        UpdateView::PopDetachVectorElementFromFrame,
                    ],
                ),
            },
        },
    }
}

/// What became of two edits together: carried out if either was.
pub open spec fn both(first: EditOutcome, second: EditOutcome) -> EditOutcome {
    match first {
        EditOutcome::Applied => EditOutcome::Applied,
        EditOutcome::Skipped(_) => second,
    }
}

/// The core after an edit was made to each of `ids` in turn, up to the first
/// that fails, and what the edit returns.
pub open spec fn edit_many_elements_spec(c: CoreView, ids: Seq<ElementId>, edit: ElementEditView) -> (
    CoreView,
    Result<EditOutcome, StoreError>,
)
    decreases ids.len(),
{
    if ids.len() == 0 {
        (c, Ok(EditOutcome::Skipped(SkipReason::NoElements)))
    } else {
        let (before, r) = edit_many_elements_spec(c, ids.drop_last(), edit);
        match r {
            Err(e) => (before, Err(e)),
            Ok(first) => {
                let (after, r) = carry_out(before, element_plan(before.store.tables(), ids.last(), edit));
                match r {
                    Err(e) => (after, Err(e)),
                    Ok(second) => (after, Ok(both(first, second))),
                }
            },
        }
    }
}

/// What an edit of a path on a layer comes to.
pub open spec fn path_plan(c: CoreView, layer_id: i64, when: TimeMicros, edit: PathEditView) -> Plan {
    match edit {
        PathEditView::CreatePath(element_id, components) => match (
            path_properties_of(c, layer_id).brush_id,
            path_properties_of(c, layer_id).properties_id,
        ) {
            (ElementId::Assigned(brush_id), ElementId::Assigned(properties_id)) => Plan::Run(
                new_element_updates(layer_id, when, element_id, VectorElementType::Path) + seq![
                    UpdateView::PushElementIdForAssignedId(brush_id),
                    UpdateView::PushElementIdForAssignedId(properties_id),
                    UpdateView::PushPathComponents(components),
                    UpdateView::PopVectorPathElement,
                    UpdateView::Pop,
                    UpdateView::Pop,
                ],
            ),
            (ElementId::Assigned(_), ElementId::Unassigned) => Plan::Skip(
                SkipReason::PathPropertiesNotSelected,
            ),
            _ => Plan::Skip(SkipReason::PathBrushNotSelected),
        },
        PathEditView::SelectBrush(element_id, definition, style) => Plan::Run(
            unattached_element_updates(VectorElementType::BrushDefinition, element_id)
                + brush_definition_element_updates(definition, style),
        ),
        PathEditView::BrushProperties(element_id, properties) => Plan::Run(
            unattached_element_updates(VectorElementType::BrushProperties, element_id)
                + brush_properties_element_updates(properties),
        ),
    }
}

/// The core with the bookkeeping as it is after an edit of a path was carried out.
pub open spec fn pathed(c: CoreView, layer_id: i64, edit: PathEditView) -> CoreView {
    match edit {
        PathEditView::CreatePath(_, _) => c,
        PathEditView::SelectBrush(element_id, _, _) => CoreView {
            book: Bookkeeping {
                path_properties: c.book.path_properties.insert(
                    layer_id,
                    PathPropertiesIds { brush_id: element_id, ..path_properties_of(c, layer_id) },
                ),
                ..c.book
            },
            ..c
        },
        PathEditView::BrushProperties(element_id, _) => CoreView {
            book: Bookkeeping {
                path_properties: c.book.path_properties.insert(
                    layer_id,
                    PathPropertiesIds { properties_id: element_id, ..path_properties_of(c, layer_id) },
                ),
                ..c.book
            },
            ..c
        },
    }
}

/// The core after an edit of a path on a layer, and what the edit returns.
pub open spec fn path_vector_layer_spec(c: CoreView, layer_id: i64, when: TimeMicros, edit: PathEditView) -> (
    CoreView,
    Result<EditOutcome, StoreError>,
) {
    let (after, r) = carry_out(c, path_plan(c, layer_id, when, edit));
    match r {
        Ok(EditOutcome::Applied) => (CoreView { book: pathed(c, layer_id, edit).book, ..after }, r),
        _ => (after, r),
    }
}

/// The instructions that forget the onion skin cached for a layer at a time.
pub open spec fn invalidate_updates(layer_id: i64, when: TimeMicros) -> Seq<UpdateView> {
    seq![
        UpdateView::PushLayerId(layer_id),
        UpdateView::PopDeleteLayerCache(when, CacheType::OnionSkinLayer),
    ]
}

/// The core after what is cached for a layer at a time was forgotten, if what
/// went before did not fail.
pub open spec fn then_invalidate(
    before: (CoreView, Result<EditOutcome, StoreError>),
    layer_id: i64,
    when: TimeMicros,
) -> (CoreView, Result<EditOutcome, StoreError>) {
    match before.1 {
        Err(e) => before,
        Ok(outcome) => match submit(before.0, invalidate_updates(layer_id, when)).1 {
            Ok(()) => (submit(before.0, invalidate_updates(layer_id, when)).0, Ok(outcome)),
            Err(e) => (submit(before.0, invalidate_updates(layer_id, when)).0, Err(e)),
        },
    }
}

/// The core after an edit to the layer with the id `layer_id` was carried out,
/// whatever went before, and what carrying it out returns.
pub open spec fn apply_layer_edit_spec<B: Brush>(brushes: B, c: CoreView, layer_id: i64, edit: LayerEditView) -> (
    CoreView,
    Result<EditOutcome, StoreError>,
) {
    match edit {
        LayerEditView::AddKeyFrame(when) => then_invalidate(
            carry_out(
                c,
                Plan::Run(seq![UpdateView::PushLayerId(layer_id), UpdateView::PopAddKeyFrame(when)]),
            ),
            layer_id,
            when,
        ),
        LayerEditView::RemoveKeyFrame(when) => then_invalidate(
            carry_out(
                c,
                Plan::Run(seq![UpdateView::PushLayerId(layer_id), UpdateView::PopRemoveKeyFrame(when)]),
            ),
            layer_id,
            when,
        ),
        LayerEditView::Paint(when, paint) => then_invalidate(
            paint_vector_layer_spec(brushes, c, layer_id, when, paint),
            layer_id,
            when,
        ),
        LayerEditView::Path(when, path) => then_invalidate(
            path_vector_layer_spec(c, layer_id, when, path),
            layer_id,
            when,
        ),
        LayerEditView::SetName(name) => carry_out(
            c,
            Plan::Run(seq![UpdateView::PushLayerId(layer_id), UpdateView::PopLayerName(name)]),
        ),
        LayerEditView::SetOrdering(_) => carry_out(
            c,
            Plan::Fail(StoreError::Unsupported(UnsupportedOperation::LayerOrdering)),
        ),
    }
}

/// The id that the store knows a layer by, or -1 if it knows of none: what the
/// core has noted for the user-facing id, or else what the store says.
pub open spec fn layer_id_of(c: CoreView, assigned: u64) -> i64 {
    if c.book.layer_ids.contains_key(assigned) {
        c.book.layer_ids[assigned]
    } else {
        match c.store.tables().layer_for_assigned(assigned) {
            Some(row) => row.id,
            None => -1i64,
        }
    }
}

/// The core once it has noted the id that the store knows a layer by.
pub open spec fn with_layer_id(c: CoreView, assigned: u64) -> CoreView {
    if !c.book.layer_ids.contains_key(assigned) && c.store.tables().layer_for_assigned(assigned) is Some {
        CoreView {
            book: Bookkeeping {
                layer_ids: c.book.layer_ids.insert(assigned, layer_id_of(c, assigned)),
                ..c.book
            },
            ..c
        }
    } else {
        c
    }
}

/// The core once it has forgotten the id that the store knew a layer by, if the
/// layer was removed.
pub open spec fn without_layer_id(
    after: (CoreView, Result<EditOutcome, StoreError>),
    assigned: u64,
) -> (CoreView, Result<EditOutcome, StoreError>) {
    match after.1 {
        Ok(_) => (
            CoreView {
                book: Bookkeeping { layer_ids: after.0.book.layer_ids.remove(assigned), ..after.0.book },
                ..after.0
            },
            after.1,
        ),
        Err(_) => after,
    }
}

/// The core after an edit was carried out, whatever went before, and what
/// carrying it out returns.
pub open spec fn apply_edit_spec<B: Brush>(brushes: B, c: CoreView, edit: AnimationEditView) -> (
    CoreView,
    Result<EditOutcome, StoreError>,
) {
    match edit {
        AnimationEditView::SetSize(width, height) => carry_out(
            c,
            Plan::Run(seq![UpdateView::UpdateCanvasSize(width, height)]),
        ),
        AnimationEditView::AddNewLayer(new_layer_id) => carry_out(
            c,
            Plan::Run(
                seq![
                    UpdateView::PushLayerType(LayerType::Vector),
                    UpdateView::PushAssignLayer(new_layer_id),
                    UpdateView::Pop,
                ],
            ),
        ),
        AnimationEditView::RemoveLayer(old_layer_id) => without_layer_id(
            carry_out(
                c,
                Plan::Run(
                    seq![UpdateView::PushLayerForAssignedId(old_layer_id), UpdateView::PopDeleteLayer],
                ),
            ),
            old_layer_id,
        ),
        AnimationEditView::Layer(assigned_layer_id, layer_edit) => apply_layer_edit_spec(
            brushes,
            with_layer_id(c, assigned_layer_id),
            layer_id_of(c, assigned_layer_id),
            layer_edit,
        ),
        AnimationEditView::Element(element_ids, element_edit) => edit_many_elements_spec(
            c,
            element_ids,
            element_edit,
        ),
        AnimationEditView::Motion(motion_id, motion_edit) => carry_out(c, motion_plan(motion_id, motion_edit)),
    }
}

/// What an operation that changes the animation comes to once failures are
/// minded: while an earlier failure stays with the core the operation is not
/// carried out and fails with that failure, and a failure of the operation
/// itself stays with the core.
pub open spec fn minding_failure<T>(c: CoreView, carried_out: (CoreView, Result<T, StoreError>)) -> (
    CoreView,
    Result<T, StoreError>,
) {
    match c.failure {
        Some(earlier) => (c, Err(earlier)),
        None => match carried_out.1 {
            Ok(_) => carried_out,
            Err(e) => (CoreView { failure: Some(e), ..carried_out.0 }, Err(e)),
        },
    }
}

/// The core after an edit to the layer with the id `layer_id`, and what the
/// edit returns.
pub open spec fn edit_vector_layer_spec<B: Brush>(brushes: B, c: CoreView, layer_id: i64, edit: LayerEditView) -> (
    CoreView,
    Result<EditOutcome, StoreError>,
) {
    minding_failure(c, apply_layer_edit_spec(brushes, c, layer_id, edit))
}

/// The core after an edit, and what the edit returns.
pub open spec fn perform_edit_spec<B: Brush>(brushes: B, c: CoreView, edit: AnimationEditView) -> (
    CoreView,
    Result<EditOutcome, StoreError>,
) {
    minding_failure(c, apply_edit_spec(brushes, c, edit))
}

impl<TFile: FloFile, TBrush: Brush> AnimationDbCore<TFile, TBrush> {
    /// Performs a layer edit to a vector layer. Nothing is done while an
    /// earlier failure stays with the core, and a failure of this edit stays
    /// with the core until it is taken away.
    pub fn edit_vector_layer(&mut self, layer_id: i64, edit: &LayerEdit) -> (r: Result<EditOutcome, StoreError>)
        ensures
            final(self)@ == edit_vector_layer_spec(old(self).brushes, old(self)@, layer_id, edit@).0,
            r == edit_vector_layer_spec(old(self).brushes, old(self)@, layer_id, edit@).1,
            r is Ok ==> final(self)@.store.depth() == old(self)@.store.depth(),
            final(self).brushes == old(self).brushes,
    {
        match self.failure {
            Some(earlier) => {
                return Err(earlier);
            },
            None => {},
        }
        match self.apply_layer_edit(layer_id, edit) {
            Ok(outcome) => Ok(outcome),
            Err(e) => {
                self.failure = Some(e);
                Err(e)
            },
        }
    }

    /// Performs an edit on this core. Nothing is done while an earlier failure
    /// stays with the core, and a failure of this edit stays with the core
    /// until it is taken away.
    pub fn perform_edit(&mut self, edit: &AnimationEdit) -> (r: Result<EditOutcome, StoreError>)
        ensures
            final(self)@ == perform_edit_spec(old(self).brushes, old(self)@, edit@).0,
            r == perform_edit_spec(old(self).brushes, old(self)@, edit@).1,
            r is Ok ==> final(self)@.store.depth() == old(self)@.store.depth(),
            final(self).brushes == old(self).brushes,
    {
        match self.failure {
            Some(earlier) => {
                return Err(earlier);
            },
            None => {},
        }
        match self.apply_edit(edit) {
            Ok(outcome) => Ok(outcome),
            Err(e) => {
                self.failure = Some(e);
                Err(e)
            },
        }
    }

    /// Hands a finished batch to the store.
    fn run(&mut self, batch: Batch) -> (r: Result<EditOutcome, StoreError>)
        requires
            batch_needs(batch@) == 0,
            batch_effect(batch@) == 0,
        ensures
            final(self)@ == carry_out(old(self)@, Plan::Run(batch@)).0,
            r == carry_out(old(self)@, Plan::Run(batch@)).1,
            r is Ok ==> final(self)@.store.depth() == old(self)@.store.depth(),
            final(self).brushes == old(self).brushes,
    {
        proof {
            reveal(StoreView::updated);
            if run(old(self)@.store.machine, batch@) is Ok {
                lemma_run_depth(old(self)@.store.machine, batch@);
            }
        }
        match self.db.update(batch.into_updates()) {
            Ok(()) => Ok(EditOutcome::Applied),
            Err(e) => Err(e),
        }
    }

    /// Gives up an edit that cannot be carried out.
    fn fail(&mut self, e: StoreError) -> (r: Result<EditOutcome, StoreError>)
        ensures
            final(self)@ == carry_out(old(self)@, Plan::Fail(e)).0,
            r == carry_out(old(self)@, Plan::Fail(e)).1,
            final(self).brushes == old(self).brushes,
    {
        self.db.abandon_queue();
        Err(e)
    }

    /// Adds a vector path to a vector layer
    pub(crate) fn path_vector_layer(&mut self, layer_id: i64, when: TimeMicros, new_element: &PathEdit) -> (r: Result<
        EditOutcome,
        StoreError,
    >)
        ensures
            final(self)@ == path_vector_layer_spec(old(self)@, layer_id, when, new_element@).0,
            r == path_vector_layer_spec(old(self)@, layer_id, when, new_element@).1,
            r is Ok ==> final(self)@.store.depth() == old(self)@.store.depth(),
            final(self).brushes == old(self).brushes,
    {
        // Get the current path properties
        let path_properties = match self.path_properties_for_layer.get(&layer_id) {
            Some(properties) => *properties,
            None => PathPropertiesIds { brush_id: ElementId::Unassigned, properties_id: ElementId::Unassigned },
        };
        let mut batch = Batch::new();
        match new_element {
            PathEdit::CreatePath(element_id, components) => {
                match (path_properties.brush_id, path_properties.properties_id) {
                    (ElementId::Assigned(brush_id), ElementId::Assigned(properties_id)) => {
                        // Need the stack to be path_id, brush_properties_id, brush_id, element_id to create a path element
                        Self::create_new_element(
                            &mut batch,
                            layer_id,
                            when,
                            *element_id,
                            VectorElementType::Path,
                        );
                        batch.push(DatabaseUpdate::PushElementIdForAssignedId(brush_id));
                        batch.push(DatabaseUpdate::PushElementIdForAssignedId(properties_id));
                        batch.push(DatabaseUpdate::PushPathComponents(copy_components(components)));
                        batch.push(DatabaseUpdate::PopVectorPathElement);
                        // Pop the frame ID and time
                        batch.push(DatabaseUpdate::Pop);
                        batch.push(DatabaseUpdate::Pop);
                        proof {
                            assert(batch@ =~= planned(path_plan(self@, layer_id, when, new_element@)));
                        }
                        self.run(batch)
                    },
                    (ElementId::Assigned(_), ElementId::Unassigned) => Ok(
                        EditOutcome::Skipped(SkipReason::PathPropertiesNotSelected),
                    ),
                    _ => Ok(EditOutcome::Skipped(SkipReason::PathBrushNotSelected)),
                }
            },
            PathEdit::SelectBrush(element_id, brush_definition, drawing_style) => {
                // Create a new brush definition to use with the path and store it
                Self::create_unattached_element(&mut batch, VectorElementType::BrushDefinition, *element_id);
                Self::create_brush_definition(&mut batch, *brush_definition, *drawing_style);
                proof {
                    assert(batch@ =~= planned(path_plan(self@, layer_id, when, new_element@)));
                }
                self.run(batch)?;
                self.path_properties_for_layer.insert(
                    layer_id,
                    PathPropertiesIds { brush_id: *element_id, properties_id: path_properties.properties_id },
                );
                Ok(EditOutcome::Applied)
            },
            PathEdit::BrushProperties(element_id, brush_properties) => {
                // Create some new brush properties to use with the path and store them
                Self::create_unattached_element(&mut batch, VectorElementType::BrushProperties, *element_id);
                Self::create_brush_properties(&mut batch, *brush_properties);
                proof {
                    assert(batch@ =~= planned(path_plan(self@, layer_id, when, new_element@)));
                }
                self.run(batch)?;
                self.path_properties_for_layer.insert(
                    layer_id,
                    PathPropertiesIds { brush_id: path_properties.brush_id, properties_id: *element_id },
                );
                Ok(EditOutcome::Applied)
            },
        }
    }

    /// Performs an editing action on a motion
    pub(crate) fn edit_motion(&mut self, motion_id: ElementId, edit: &MotionEdit) -> (r: Result<EditOutcome, StoreError>)
        ensures
            final(self)@ == carry_out(old(self)@, motion_plan(motion_id, edit@)).0,
            r == carry_out(old(self)@, motion_plan(motion_id, edit@)).1,
            r is Ok ==> final(self)@.store.depth() == old(self)@.store.depth(),
            final(self).brushes == old(self).brushes,
    {
        match motion_id {
            ElementId::Unassigned => Ok(EditOutcome::Skipped(SkipReason::UnassignedMotion)),
            // Motion IDs must have an assigned ID
            ElementId::Assigned(motion_id) => {
                let mut batch = Batch::new();
                match edit {
                    MotionEdit::Create => {
                        batch.push(DatabaseUpdate::PushVectorElementType(VectorElementType::Motion));
                        batch.push(DatabaseUpdate::PushElementAssignId(motion_id));
                        batch.push(DatabaseUpdate::Pop);
                        batch.push(DatabaseUpdate::CreateMotion(motion_id));
                    },
                    MotionEdit::Delete => {
                        batch.push(DatabaseUpdate::DeleteMotion(motion_id));
                    },
                    MotionEdit::SetType(motion_type) => {
                        batch.push(DatabaseUpdate::SetMotionType(motion_id, *motion_type));
                    },
                    MotionEdit::SetOrigin(x, y) => {
                        batch.push(DatabaseUpdate::SetMotionOrigin(motion_id, *x, *y));
                    },
                    MotionEdit::SetPath(time_path) => {
                        // Create the points in the curve
                        push_curve(&mut batch, time_path);
                        // Turn into a motion path
                        let count = batch.len();
                        batch.push(DatabaseUpdate::SetMotionPath(motion_id, MotionPathType::Position, count));
                    },
                }
                proof {
                    assert(batch@ =~= planned(motion_plan(ElementId::Assigned(motion_id), edit@)));
                }
                self.run(batch)
            },
        }
    }

    /// Gives the element with the assigned id `assigned_id` new control points
    fn set_control_points(&mut self, assigned_id: i64, element_type: VectorElementType, points: &Vec<Coord>) -> (r:
        Result<EditOutcome, StoreError>)
        requires
            old(self)@.store.tables().element_type_for_assigned(assigned_id) == Some(element_type),
        ensures
            final(self)@ == carry_out(
                old(self)@,
                element_plan(
                    old(self)@.store.tables(),
                    ElementId::Assigned(assigned_id),
                    ElementEditView::SetControlPoints(points@),
                ),
            ).0,
            r == carry_out(
                old(self)@,
                element_plan(
                    old(self)@.store.tables(),
                    ElementId::Assigned(assigned_id),
                    ElementEditView::SetControlPoints(points@),
                ),
            ).1,
            r is Ok ==> final(self)@.store.depth() == old(self)@.store.depth(),
            final(self).brushes == old(self).brushes,
    {
        let mut batch = Batch::new();
        match element_type {
            VectorElementType::BrushStroke => {
                // The first point doesn't have 'real' control points, so they are made up of
                // it. Ordering is cp1, cp2, pos.
                let segments = stroke_segments_of(points);
                // Perform the update
                batch.push(DatabaseUpdate::PushElementIdForAssignedId(assigned_id));
                batch.push(DatabaseUpdate::UpdateBrushPointCoords(segments));
                proof {
                    assert(batch@ =~= seq![
                        UpdateView::PushElementIdForAssignedId(assigned_id),
                        UpdateView::UpdateBrushPointCoords(stroke_segments(points@)),
                    ]);
                }
                self.run(batch)
            },
            VectorElementType::Path => {
                // Paths don't format their points so we can just update them immediately
                batch.push(DatabaseUpdate::PushElementIdForAssignedId(assigned_id));
                batch.push(DatabaseUpdate::PushPathIdForElementId);
                batch.push(DatabaseUpdate::UpdatePathPointCoords(copy_coords(points)));
                batch.push(DatabaseUpdate::Pop);
                proof {
                    assert(batch@ =~= seq![
                        UpdateView::PushElementIdForAssignedId(assigned_id),
                        UpdateView::PushPathIdForElementId,
                        UpdateView::UpdatePathPointCoords(points@),
                        UpdateView::Pop,
                    ]);
                }
                self.run(batch)
            },
            // Other types have no action
            _ => Ok(EditOutcome::Skipped(SkipReason::NoHandler)),
        }
    }

    /// Replaces the path of the element with the assigned id `assigned_id`
    fn set_path(&mut self, assigned_id: i64, element_type: VectorElementType, components: &Vec<PathComponent>) -> (r:
        Result<EditOutcome, StoreError>)
        requires
            old(self)@.store.tables().element_type_for_assigned(assigned_id) == Some(element_type),
        ensures
            final(self)@ == carry_out(
                old(self)@,
                element_plan(
                    old(self)@.store.tables(),
                    ElementId::Assigned(assigned_id),
                    ElementEditView::SetPath(components@),
                ),
            ).0,
            r == carry_out(
                old(self)@,
                element_plan(
                    old(self)@.store.tables(),
                    ElementId::Assigned(assigned_id),
                    ElementEditView::SetPath(components@),
                ),
            ).1,
            r is Ok ==> final(self)@.store.depth() == old(self)@.store.depth(),
            final(self).brushes == old(self).brushes,
    {
        match element_type {
            VectorElementType::Path => {},
            // Other types have no action
            _ => {
                return Ok(EditOutcome::Skipped(SkipReason::NoHandler));
            },
        }
        // Count the number of points in this path before the update
        let element = match self.db.query_vector_element_id(&ElementId::Assigned(assigned_id)) {
            Some(element) => element,
            None => {
                return self.fail(StoreError::MissingElement);
            },
        };
        let path_entry = match self.db.query_path_element(element) {
            Some(entry) => entry,
            None => {
                return self.fail(StoreError::UnexpectedElementType);
            },
        };
        let existing_components = match self.db.query_path_components(path_entry.path_id) {
            Some(existing) => existing,
            None => {
                return self.fail(StoreError::BrokenReference);
            },
        };
        proof {
            let t = self@.store.tables();
            let stored = t.path_points_of(path_entry.path_id).unwrap();
            lemma_parsed_total(stored);
        }
        let number_of_points = count_points(&existing_components);
        // Remove and replace all of the points
        let mut batch = Batch::new();
        batch.push(DatabaseUpdate::PushElementIdForAssignedId(assigned_id));
        batch.push(DatabaseUpdate::PushPathIdForElementId);
        batch.push(DatabaseUpdate::Duplicate);
        batch.push(DatabaseUpdate::PopRemovePathPoints(0, number_of_points));
        batch.push(DatabaseUpdate::PopInsertPathComponents(0, copy_components(components)));
        batch.push(DatabaseUpdate::Pop);
        proof {
            assert(batch@ =~= planned(set_path_plan(self@.store.tables(), assigned_id, components@)));
        }
        self.run(batch)
    }

    /// Edits the element with the specified ID
    pub(crate) fn edit_element(&mut self, element_id: ElementId, element_edit: &ElementEdit) -> (r: Result<
        EditOutcome,
        StoreError,
    >)
        ensures
            final(self)@ == carry_out(
                old(self)@,
                element_plan(old(self)@.store.tables(), element_id, element_edit@),
            ).0,
            r == carry_out(old(self)@, element_plan(old(self)@.store.tables(), element_id, element_edit@)).1,
            r is Ok ==> final(self)@.store.depth() == old(self)@.store.depth(),
            final(self).brushes == old(self).brushes,
    {
        let assigned_id = match element_id {
            ElementId::Assigned(assigned_id) => assigned_id,
            ElementId::Unassigned => {
                return Ok(EditOutcome::Skipped(SkipReason::UnassignedElement));
            },
        };
        // Get the type of the element so we can use the appropriate editing method
        let element_type = match self.db.query_vector_element_type_from_assigned_id(assigned_id) {
            Some(element_type) => element_type,
            None => {
                // No action if this element has no type
                return Ok(EditOutcome::Skipped(SkipReason::MissingElement));
            },
        };
        let mut batch = Batch::new();
        // Action depends on the element type
        match element_edit {
            ElementEdit::SetControlPoints(points) => self.set_control_points(assigned_id, element_type, points),
            ElementEdit::SetPath(components) => self.set_path(assigned_id, element_type, components),
            ElementEdit::Order(ordering) => {
                let how = match ordering {
                    ElementOrdering::InFront => DbElementMove::Up,
                    ElementOrdering::Behind => DbElementMove::Down,
                    ElementOrdering::ToTop => DbElementMove::ToTop,
                    ElementOrdering::ToBottom => DbElementMove::ToBottom,
                    ElementOrdering::Before(_) => {
                        return self.fail(StoreError::Unsupported(UnsupportedOperation::OrderBefore));
                    },
                };
                // Need to push the element ID and the keyframe ID
                batch.push(DatabaseUpdate::PushElementIdForAssignedId(assigned_id));
                batch.push(DatabaseUpdate::PushKeyFrameIdForElementId);
                batch.push(DatabaseUpdate::PopVectorElementMove(how));
                {
                    proof {
                        assert(batch@ =~= planned(element_plan(old(self)@.store.tables(), element_id, element_edit@)));
                    }
                    self.run(batch)
                }
            },
            ElementEdit::AddAttachment(attach_element_id) => match attach_element_id {
                ElementId::Assigned(attach_element_id) => {
                    batch.push(DatabaseUpdate::PushElementIdForAssignedId(assigned_id));
                    batch.push(DatabaseUpdate::PushElementIdForAssignedId(*attach_element_id));
                    batch.push(DatabaseUpdate::PushAttachElements(1));
                    batch.push(DatabaseUpdate::Pop);
                    {
                    proof {
                        assert(batch@ =~= planned(element_plan(old(self)@.store.tables(), element_id, element_edit@)));
                    }
                    self.run(batch)
                }
                },
                ElementId::Unassigned => Ok(EditOutcome::Skipped(SkipReason::UnassignedAttachment)),
            },
            ElementEdit::RemoveAttachment(detach_element_id) => match detach_element_id {
                ElementId::Assigned(detach_element_id) => {
                    batch.push(DatabaseUpdate::PushElementIdForAssignedId(assigned_id));
                    batch.push(DatabaseUpdate::PushElementIdForAssignedId(*detach_element_id));
                    batch.push(DatabaseUpdate::PushDetachElements(1));
                    batch.push(DatabaseUpdate::Pop);
                    {
                    proof {
                        assert(batch@ =~= planned(element_plan(old(self)@.store.tables(), element_id, element_edit@)));
                    }
                    self.run(batch)
                }
                },
                ElementId::Unassigned => Ok(EditOutcome::Skipped(SkipReason::UnassignedAttachment)),
            },
            ElementEdit::Delete => {
                batch.push(DatabaseUpdate::PushElementIdForAssignedId(assigned_id));
                batch.push(DatabaseUpdate::PopDeleteVectorElement);
                {
                    proof {
                        assert(batch@ =~= planned(element_plan(old(self)@.store.tables(), element_id, element_edit@)));
                    }
                    self.run(batch)
                }
            },
            ElementEdit::DetachFromFrame => {
                batch.push(DatabaseUpdate::PushElementIdForAssignedId(assigned_id));
                batch.push(DatabaseUpdate::PopDetachVectorElementFromFrame);
                {
                    proof {
                        assert(batch@ =~= planned(element_plan(old(self)@.store.tables(), element_id, element_edit@)));
                    }
                    self.run(batch)
                }
            },
        }
    }

    /// Sends an editing operation to many elements at once
    pub(crate) fn edit_many_elements(&mut self, element_ids: &Vec<ElementId>, element_edit: &ElementEdit) -> (r: Result<
        EditOutcome,
        StoreError,
    >)
        ensures
            final(self)@ == edit_many_elements_spec(old(self)@, element_ids@, element_edit@).0,
            r == edit_many_elements_spec(old(self)@, element_ids@, element_edit@).1,
            r is Ok ==> final(self)@.store.depth() == old(self)@.store.depth(),
            final(self).brushes == old(self).brushes,
    {
        let mut outcome = EditOutcome::Skipped(SkipReason::NoElements);
        let mut i: usize = 0;
        while i < element_ids.len()
            invariant
                i <= element_ids@.len(),
                self@ == edit_many_elements_spec(old(self)@, element_ids@.take(i as int), element_edit@).0,
                edit_many_elements_spec(old(self)@, element_ids@.take(i as int), element_edit@).1 == Ok::<
                    EditOutcome,
                    StoreError,
                >(outcome),
                self@.store.depth() == old(self)@.store.depth(),
                self.brushes == old(self).brushes,
            decreases element_ids.len() - i,
        {
            proof {
                assert(element_ids@.take(i + 1).drop_last() =~= element_ids@.take(i as int));
            }
            match self.edit_element(element_ids[i], element_edit) {
                Err(e) => {
                    proof {
                        lemma_many_fails(old(self)@, element_ids@, element_edit@, i + 1);
                    }
                    return Err(e);
                },
                Ok(next) => {
                    outcome = match outcome {
                        EditOutcome::Applied => EditOutcome::Applied,
                        EditOutcome::Skipped(_) => next,
                    };
                },
            }
            i += 1;
        }
        proof {
            assert(element_ids@.take(i as int) =~= element_ids@);
        }
        Ok(outcome)
    }

    /// Forgets the onion skin cached for a layer at a time, if what went before
    /// did not fail.
    fn invalidate(&mut self, before: Result<EditOutcome, StoreError>, layer_id: i64, when: TimeMicros) -> (r: Result<
        EditOutcome,
        StoreError,
    >)
        ensures
            final(self)@ == then_invalidate((old(self)@, before), layer_id, when).0,
            r == then_invalidate((old(self)@, before), layer_id, when).1,
            r is Ok ==> final(self)@.store.depth() == old(self)@.store.depth(),
            final(self).brushes == old(self).brushes,
    {
        match before {
            Err(e) => Err(e),
            Ok(outcome) => {
                let mut batch = Batch::new();
                batch.push(DatabaseUpdate::PushLayerId(layer_id));
                batch.push(DatabaseUpdate::PopDeleteLayerCache(when, CacheType::OnionSkinLayer));
                proof {
                    assert(batch@ =~= invalidate_updates(layer_id, when));
                    reveal(StoreView::updated);
                    if run(old(self)@.store.machine, batch@) is Ok {
                        lemma_run_depth(old(self)@.store.machine, batch@);
                    }
                }
                match self.db.update(batch.into_updates()) {
                    Ok(()) => Ok(outcome),
                    Err(e) => Err(e),
                }
            },
        }
    }

    /// Carries out an edit to the layer with the id `layer_id`, whatever went
    /// before
    pub(crate) fn apply_layer_edit(&mut self, layer_id: i64, edit: &LayerEdit) -> (r: Result<EditOutcome, StoreError>)
        ensures
            final(self)@ == apply_layer_edit_spec(old(self).brushes, old(self)@, layer_id, edit@).0,
            r == apply_layer_edit_spec(old(self).brushes, old(self)@, layer_id, edit@).1,
            r is Ok ==> final(self)@.store.depth() == old(self)@.store.depth(),
            final(self).brushes == old(self).brushes,
    {
        match edit {
            LayerEdit::AddKeyFrame(when) => {
                let mut batch = Batch::new();
                batch.push(DatabaseUpdate::PushLayerId(layer_id));
                batch.push(DatabaseUpdate::PopAddKeyFrame(*when));
                proof {
                    assert(batch@ =~= seq![UpdateView::PushLayerId(layer_id), UpdateView::PopAddKeyFrame(*when)]);
                }
                let added = self.run(batch);
                self.invalidate(added, layer_id, *when)
            },
            LayerEdit::RemoveKeyFrame(when) => {
                let mut batch = Batch::new();
                batch.push(DatabaseUpdate::PushLayerId(layer_id));
                batch.push(DatabaseUpdate::PopRemoveKeyFrame(*when));
                proof {
                    assert(batch@ =~= seq![UpdateView::PushLayerId(layer_id), UpdateView::PopRemoveKeyFrame(*when)]);
                }
                let removed = self.run(batch);
                self.invalidate(removed, layer_id, *when)
            },
            LayerEdit::Paint(when, edit) => {
                let painted = self.paint_vector_layer(layer_id, *when, edit);
                self.invalidate(painted, layer_id, *when)
            },
            LayerEdit::Path(when, edit) => {
                let pathed = self.path_vector_layer(layer_id, *when, edit);
                self.invalidate(pathed, layer_id, *when)
            },
            LayerEdit::SetName(new_name) => {
                let mut batch = Batch::new();
                batch.push(DatabaseUpdate::PushLayerId(layer_id));
                batch.push(DatabaseUpdate::PopLayerName(new_name.clone()));
                proof {
                    assert(batch@ =~= seq![UpdateView::PushLayerId(layer_id), UpdateView::PopLayerName(new_name@)]);
                }
                self.run(batch)
            },
            LayerEdit::SetOrdering(_) => self.fail(
                StoreError::Unsupported(UnsupportedOperation::LayerOrdering),
            ),
        }
    }

    /// Carries out an edit, whatever went before
    pub(crate) fn apply_edit(&mut self, edit: &AnimationEdit) -> (r: Result<EditOutcome, StoreError>)
        ensures
            final(self)@ == apply_edit_spec(old(self).brushes, old(self)@, edit@).0,
            r == apply_edit_spec(old(self).brushes, old(self)@, edit@).1,
            r is Ok ==> final(self)@.store.depth() == old(self)@.store.depth(),
            final(self).brushes == old(self).brushes,
    {
        match edit {
            AnimationEdit::SetSize(width, height) => {
                let mut batch = Batch::new();
                batch.push(DatabaseUpdate::UpdateCanvasSize(*width, *height));
                proof {
                    assert(batch@ =~= seq![UpdateView::UpdateCanvasSize(*width, *height)]);
                }
                self.run(batch)
            },
            AnimationEdit::AddNewLayer(new_layer_id) => {
                // Create a layer with the new ID
                let mut batch = Batch::new();
                batch.push(DatabaseUpdate::PushLayerType(LayerType::Vector));
                batch.push(DatabaseUpdate::PushAssignLayer(*new_layer_id));
                batch.push(DatabaseUpdate::Pop);
                proof {
                    assert(batch@ =~= seq![
                        UpdateView::PushLayerType(LayerType::Vector),
                        UpdateView::PushAssignLayer(*new_layer_id),
                        UpdateView::Pop,
                    ]);
                }
                self.run(batch)
            },
            AnimationEdit::RemoveLayer(old_layer_id) => {
                // Delete this layer
                let mut batch = Batch::new();
                batch.push(DatabaseUpdate::PushLayerForAssignedId(*old_layer_id));
                batch.push(DatabaseUpdate::PopDeleteLayer);
                proof {
                    assert(batch@ =~= seq![
                        UpdateView::PushLayerForAssignedId(*old_layer_id),
                        UpdateView::PopDeleteLayer,
                    ]);
                }
                let removed = self.run(batch)?;
                // What was noted of the layer is not true any more
                self.layer_id_for_assigned_id.remove(old_layer_id);
                Ok(removed)
            },
            AnimationEdit::Layer(assigned_layer_id, layer_edit) => {
                // Look up the real layer ID (which is often different to the assigned ID)
                let layer_id = match self.layer_id_for_assigned_id.get(assigned_layer_id) {
                    Some(layer_id) => *layer_id,
                    None => match self.db.query_layer_id_for_assigned_id(*assigned_layer_id) {
                        Some((layer_id, _name)) => {
                            self.layer_id_for_assigned_id.insert(*assigned_layer_id, layer_id);
                            layer_id
                        },
                        None => -1,
                    },
                };
                // Edit this layer
                self.apply_layer_edit(layer_id, layer_edit)
            },
            AnimationEdit::Element(element_ids, element_edit) => self.edit_many_elements(
                element_ids,
                element_edit,
            ),
            AnimationEdit::Motion(motion_id, motion_edit) => self.edit_motion(*motion_id, motion_edit),
        }
    }
}

/// Copies a list of components.
fn copy_components(components: &Vec<PathComponent>) -> (r: Vec<PathComponent>)
    ensures
        r@ == components@,
{
    crate::db::tables::copy_rows(components)
}

/// Copies a list of positions.
fn copy_coords(points: &Vec<Coord>) -> (r: Vec<Coord>)
    ensures
        r@ == points@,
{
    crate::db::tables::copy_rows(points)
}

/// Adds the instructions that make the time points of a curve, leaving them on
/// the stack in their order.
pub fn push_curve(batch: &mut Batch, curve: &TimeCurve)
    ensures
        final(batch)@ == old(batch)@ + time_point_updates(curve_points(curve@)),
        final(batch)@.len() == old(batch)@.len() + 3 * curve@.len(),
        batch_effect(final(batch)@) == batch_effect(old(batch)@) + 3 * curve@.len(),
        batch_needs(final(batch)@) == deeper(batch_needs(old(batch)@), 0, batch_effect(old(batch)@)),
{
    let mut i: usize = 0;
    proof {
        assert(curve@.take(0) =~= Seq::empty());
        assert(batch@ =~= old(batch)@ + time_point_updates(curve_points(curve@.take(0))));
    }
    while i < curve.points.len()
        invariant
            i <= curve@.len(),
            batch@ == old(batch)@ + time_point_updates(curve_points(curve@.take(i as int))),
            batch@.len() == old(batch)@.len() + 3 * i,
            batch_effect(batch@) == batch_effect(old(batch)@) + 3 * i,
            batch_needs(batch@) == batch_needs(old(batch)@) || (i > 0 && batch_needs(batch@) == deeper(
                batch_needs(old(batch)@),
                0,
                batch_effect(old(batch)@),
            )),
        decreases curve.points.len() - i,
    {
        let p = curve.points[i];
        proof {
            assert(curve@.take(i + 1).drop_last() =~= curve@.take(i as int));
            lemma_parse_curve(curve@.take(i as int));
        }
        batch.push(DatabaseUpdate::PushTimePoint(p.point.0, p.point.1, p.point.2));
        batch.push(DatabaseUpdate::PushTimePoint(p.past.0, p.past.1, p.past.2));
        batch.push(DatabaseUpdate::PushTimePoint(p.future.0, p.future.1, p.future.2));
        proof {
            assert(batch@ =~= old(batch)@ + time_point_updates(curve_points(curve@.take(i + 1))));
        }
        i += 1;
    }
    proof {
        assert(curve@.take(i as int) =~= curve@);
    }
}

/// An edit to many elements fails with the error of the first element at which
/// it fails.
proof fn lemma_many_fails(c: CoreView, ids: Seq<ElementId>, edit: ElementEditView, k: int)
    requires
        0 <= k <= ids.len(),
        edit_many_elements_spec(c, ids.take(k), edit).1 is Err,
    ensures
        edit_many_elements_spec(c, ids, edit) == edit_many_elements_spec(c, ids.take(k), edit),
    decreases ids.len(),
{
    if k == ids.len() {
        assert(ids.take(k) =~= ids);
    } else {
        assert(ids.drop_last().take(k) =~= ids.take(k));
        lemma_many_fails(c, ids.drop_last(), edit, k);
    }
}

} // verus!
