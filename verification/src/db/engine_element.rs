//! The interpreter: elements, their paths and motions.

use vstd::prelude::*;
use crate::animation::brush::{BrushPoint, Coord};
use crate::animation::motion::MotionType;
use crate::db::engine::{copy_run, extend_flattened, Engine};
use crate::db::error::StoreError;
use crate::db::flo_store::{DatabaseUpdate, DbElementMove, Segment};
use crate::db::matchers::{AttachTo, Attachment, ElementAssigned, InKeyFrame, TouchesElement};
use crate::db::points::{flatten_components, moved_brush_points, moved_path_points, points_inserted, points_removed};
use crate::db::relation::{extend_mapped, find_by_key, find_by_match, remove_by_key, remove_matching, Matcher};
use crate::db::rows::{AttachRow, ElementDetail, ElementRow, FrameRef, MotionPathRef, MotionRow, PathPointRow, PathRow};
use crate::db::step::{detach_all, first_in_frame_from, group_of, last_in_frame_before, moved_element, needs, step_element, step_motion, with_path_points, Group};

verus! {

/// Finds the first element from position `from` on that is in the key frame.
pub fn find_first_in_frame_from(rows: &Vec<ElementRow>, from: usize, key_frame: i64) -> (r: Option<usize>)
    ensures
        r matches Some(j) ==> from <= j < rows@.len(),
        match r {
            Some(j) => first_in_frame_from(rows@, from as int, key_frame) == Some(j as int),
            None => first_in_frame_from(rows@, from as int, key_frame) is None,
        },
{
    let mut j: usize = from;
    while j < rows.len()
        invariant
            from <= j,
            first_in_frame_from(rows@, from as int, key_frame) == first_in_frame_from(
                rows@,
                j as int,
                key_frame,
            ),
        decreases rows.len() - j,
    {
        if InKeyFrame(key_frame).test(&rows[j]) {
            return Some(j);
        }
        j += 1;
    }
    None
}

/// Finds the last element before position `before` that is in the key frame.
pub fn find_last_in_frame_before(rows: &Vec<ElementRow>, before: usize, key_frame: i64) -> (r: Option<usize>)
    requires
        before <= rows@.len(),
    ensures
        r matches Some(j) ==> j < before,
        match r {
            Some(j) => last_in_frame_before(rows@, before as int, key_frame) == Some(j as int),
            None => last_in_frame_before(rows@, before as int, key_frame) is None,
        },
{
    let mut j: usize = before;
    while j > 0
        invariant
            j <= before <= rows@.len(),
            last_in_frame_before(rows@, before as int, key_frame) == last_in_frame_before(
                rows@,
                j as int,
                key_frame,
            ),
        decreases j,
    {
        if InKeyFrame(key_frame).test(&rows[j - 1]) {
            return Some(j - 1);
        }
        j -= 1;
    }
    None
}

/// Moves the element at position `i` in the drawing order of the key frame.
pub fn move_element(rows: &mut Vec<ElementRow>, i: usize, key_frame: i64, how: DbElementMove)
    requires
        i < old(rows)@.len(),
    ensures
        final(rows)@ == moved_element(old(rows)@, i as int, key_frame, how),
{
    match how {
        DbElementMove::ToTop => {
            let row = rows.remove(i);
            rows.push(row);
        },
        DbElementMove::ToBottom => {
            let row = rows.remove(i);
            rows.insert(0, row);
        },
        DbElementMove::Up => {
            let len = rows.len();
            assert(i < len);
            match find_first_in_frame_from(rows, i + 1, key_frame) {
                Some(j) => {
                    let a = rows[i];
                    let b = rows[j];
                    rows.set(i, b);
                    rows.set(j, a);
                },
                None => {},
            }
        },
        DbElementMove::Down => {
            match find_last_in_frame_before(rows, i, key_frame) {
                Some(j) => {
                    let a = rows[i];
                    let b = rows[j];
                    rows.set(i, b);
                    rows.set(j, a);
                },
                None => {},
            }
        },
    }
}

/// Adds the points of a brush stroke, moved to the positions of `segments`, to
/// the end of the pool.
pub fn extend_moved_brush_points(pool: &mut Vec<BrushPoint>, old_points: &Vec<BrushPoint>, segments: &Vec<Segment>)
    ensures
        final(pool)@ == old(pool)@ + moved_brush_points(old_points@, segments@),
{
    let mut i: usize = 0;
    while i < old_points.len()
        invariant
            i <= old_points@.len(),
            pool@ == old(pool)@ + moved_brush_points(old_points@, segments@).take(i as int),
        decreases old_points.len() - i,
    {
        let point = if i < segments.len() {
            let segment = segments[i];
            BrushPoint { position: segment.2, cp1: segment.0, cp2: segment.1, width: old_points[i].width }
        } else {
            old_points[i]
        };
        pool.push(point);
        proof {
            assert(pool@ =~= old(pool)@ + moved_brush_points(old_points@, segments@).take(i + 1));
        }
        i += 1;
    }
    proof {
        let all = moved_brush_points(old_points@, segments@);
        assert(all.take(i as int) =~= all);
    }
}

/// The points of a path moved to the positions of `coords`.
pub fn move_path_points(old_points: &Vec<PathPointRow>, coords: &Vec<Coord>) -> (r: Vec<PathPointRow>)
    ensures
        r@ == moved_path_points(old_points@, coords@),
{
    let mut out: Vec<PathPointRow> = Vec::new();
    let mut i: usize = 0;
    while i < old_points.len()
        invariant
            i <= old_points@.len(),
            out@ == moved_path_points(old_points@, coords@).take(i as int),
        decreases old_points.len() - i,
    {
        let point = if i < coords.len() {
            PathPointRow { position: coords[i], kind: old_points[i].kind }
        } else {
            old_points[i]
        };
        out.push(point);
        proof {
            assert(out@ =~= moved_path_points(old_points@, coords@).take(i + 1));
        }
        i += 1;
    }
    proof {
        let all = moved_path_points(old_points@, coords@);
        assert(all.take(i as int) =~= all);
    }
    out
}

/// Copies the items of `items` from position `from` to before position `to`
/// to the end of `out`.
pub fn extend_range<T: Copy>(out: &mut Vec<T>, items: &Vec<T>, from: usize, to: usize)
    requires
        from <= to <= items@.len(),
    ensures
        final(out)@ == old(out)@ + items@.subrange(from as int, to as int),
{
    let mut i: usize = from;
    while i < to
        invariant
            from <= i <= to <= items@.len(),
            out@ == old(out)@ + items@.subrange(from as int, i as int),
        decreases to - i,
    {
        out.push(items[i]);
        proof {
            assert(out@ =~= old(out)@ + items@.subrange(from as int, i + 1));
        }
        i += 1;
    }
}

/// The points of a path without those from `from` to before `to`.
pub fn remove_points(old_points: &Vec<PathPointRow>, from: usize, to: usize) -> (r: Vec<PathPointRow>)
    ensures
        r@ == points_removed(old_points@, from, to),
{
    let n = old_points.len();
    let a = if from <= n { from } else { n };
    let b = if to <= n { to } else { n };
    let mut out: Vec<PathPointRow> = Vec::new();
    if a <= b {
        extend_range(&mut out, old_points, 0, a);
        extend_range(&mut out, old_points, b, n);
        proof {
            assert(out@ =~= old_points@.take(a as int) + old_points@.skip(b as int));
        }
    } else {
        extend_range(&mut out, old_points, 0, n);
        proof {
            assert(out@ =~= old_points@);
        }
    }
    out
}

/// The points of a path with `added` inserted at position `at`.
pub fn insert_points(old_points: &Vec<PathPointRow>, at: usize, added: &Vec<PathPointRow>) -> (r: Vec<
    PathPointRow,
>)
    ensures
        r@ == points_inserted(old_points@, at, added@),
{
    let n = old_points.len();
    let k = if at <= n { at } else { n };
    let mut out: Vec<PathPointRow> = Vec::new();
    extend_range(&mut out, old_points, 0, k);
    extend_range(&mut out, added, 0, added.len());
    extend_range(&mut out, old_points, k, n);
    proof {
        assert(added@.subrange(0, added@.len() as int) =~= added@);
        assert(out@ =~= old_points@.take(k as int) + added@ + old_points@.skip(k as int));
    }
    out
}

impl Engine {
    /// Replaces the element at position `i` and takes the top `n` values from
    /// the stack.
    fn set_element(&mut self, i: usize, row: ElementRow, n: usize)
        requires
            i < old(self).tables.elements@.len(),
            n <= old(self)@.stack.len(),
        ensures
            crate::db::step::with_element(old(self)@, i as int, row, n as int) == Ok::<
                crate::db::step::Machine,
                StoreError,
            >(final(self)@),
    {
        self.tables.elements.set(i, row);
        self.drop_top(n);
    }

    /// Gives the path at position `i` new points and takes the top of the stack.
    fn set_path_points(&mut self, i: usize, points: Vec<PathPointRow>)
        requires
            i < old(self).tables.paths@.len(),
            1 <= old(self)@.stack.len(),
        ensures
            with_path_points(old(self)@, i as int, points@) == Ok::<crate::db::step::Machine, StoreError>(
                final(self)@,
            ),
    {
        let mut points = points;
        let first = self.tables.path_points.len();
        let count = points.len();
        let id = self.tables.paths[i].id;
        self.tables.paths.set(i, PathRow { id, first, count });
        self.tables.path_points.append(&mut points);
        self.drop_top(1);
    }

    /// The top `n` values of the stack, the deepest first.
    fn top_values(&self, n: usize) -> (r: Vec<i64>)
        requires
            n <= self.stack@.len(),
        ensures
            r@ == self@.top(n as int),
    {
        let mut out: Vec<i64> = Vec::new();
        extend_range(&mut out, &self.stack, self.stack.len() - n, self.stack.len());
        proof {
            assert(out@ =~= self@.top(n as int));
        }
        out
    }

    /// Carries out an instruction on elements or their paths.
    pub(crate) fn apply_element(&mut self, u: &DatabaseUpdate) -> (r: Result<(), StoreError>)
        requires
            old(self)@.stack.len() >= needs(u@),
            group_of(u@) == Group::Element,
        ensures
            match step_element(old(self)@, u@) {
                Ok(m) => r is Ok && final(self)@ == m,
                Err(e) => r == Err::<(), StoreError>(e),
            },
    {
        match u {
            DatabaseUpdate::PushVectorElementType(element_type) => {
                let id = self.fresh_id()?;
                self.tables.elements.push(
                    ElementRow {
                        id,
                        element_type: *element_type,
                        assigned: None,
                        frame: None,
                        detail: ElementDetail::Empty,
                    },
                );
                self.stack.push(id);
            },
            DatabaseUpdate::PushVectorElementTime(when) => {
                match find_by_key(&self.tables.elements, self.peek(0)) {
                    None => {
                        return Err(StoreError::MissingElement);
                    },
                    Some(i) => {
                        let row = self.tables.elements[i];
                        let key_frame = self.peek(1);
                        self.set_element(
                            i,
                            ElementRow {
                                id: row.id,
                                element_type: row.element_type,
                                assigned: row.assigned,
                                frame: Some(FrameRef { key_frame, when: *when }),
                                detail: row.detail,
                            },
                            0,
                        );
                    },
                }
            },
            DatabaseUpdate::PushElementAssignId(assigned) => {
                match find_by_key(&self.tables.elements, self.peek(0)) {
                    None => {
                        return Err(StoreError::MissingElement);
                    },
                    Some(i) => {
                        let row = self.tables.elements[i];
                        self.set_element(
                            i,
                            ElementRow {
                                id: row.id,
                                element_type: row.element_type,
                                assigned: Some(*assigned),
                                frame: row.frame,
                                detail: row.detail,
                            },
                            0,
                        );
                    },
                }
            },
            DatabaseUpdate::PushElementIdForAssignedId(assigned) => {
                match find_by_match(&self.tables.elements, ElementAssigned(*assigned)) {
                    None => {
                        return Err(StoreError::MissingElement);
                    },
                    Some(i) => {
                        let id = self.tables.elements[i].id;
                        self.stack.push(id);
                    },
                }
            },
            DatabaseUpdate::PushKeyFrameIdForElementId => {
                match find_by_key(&self.tables.elements, self.peek(0)) {
                    None => {
                        return Err(StoreError::MissingElement);
                    },
                    Some(i) => match self.tables.elements[i].frame {
                        None => {
                            return Err(StoreError::MissingKeyFrame);
                        },
                        Some(frame) => {
                            self.stack.push(frame.key_frame);
                        },
                    },
                }
            },
            DatabaseUpdate::PushPathIdForElementId => {
                match find_by_key(&self.tables.elements, self.peek(0)) {
                    None => {
                        return Err(StoreError::MissingElement);
                    },
                    Some(i) => match self.tables.elements[i].detail {
                        ElementDetail::Path(path, _, _) => {
                            self.stack.push(path);
                        },
                        _ => {
                            return Err(StoreError::UnexpectedElementType);
                        },
                    },
                }
            },
            DatabaseUpdate::PushAttachElements(n) => {
                let target = self.peek(*n);
                let ids = self.top_values(*n);
                extend_mapped(&mut self.tables.attachments, &ids, AttachTo(target));
                self.drop_top(*n);
            },
            DatabaseUpdate::PushDetachElements(n) => {
                let target = self.peek(*n);
                let ids = self.top_values(*n);
                let mut i: usize = 0;
                while i < ids.len()
                    invariant
                        i <= ids@.len(),
                        self.stack == old(self).stack,
                        self@.tables == (crate::db::rows::TablesView {
                            attachments: detach_all(
                                old(self)@.tables.attachments,
                                target,
                                ids@.take(i as int),
                            ),
                            ..old(self)@.tables
                        }),
                    decreases ids.len() - i,
                {
                    proof {
                        assert(ids@.take(i + 1).drop_last() =~= ids@.take(i as int));
                    }
                    self.tables.attachments = remove_matching(
                        &self.tables.attachments,
                        Attachment { element: target, attached: ids[i] },
                    );
                    i += 1;
                }
                proof {
                    assert(ids@.take(i as int) =~= ids@);
                }
                self.drop_top(*n);
            },
            DatabaseUpdate::PopVectorBrushElement(style) => {
                let definition = match find_by_key(&self.tables.brushes, self.peek(0)) {
                    None => {
                        return Err(StoreError::MissingBrush);
                    },
                    Some(b) => match self.tables.brushes[b].definition {
                        None => {
                            return Err(StoreError::IncompleteBrush);
                        },
                        Some(definition) => definition,
                    },
                };
                match find_by_key(&self.tables.elements, self.peek(1)) {
                    None => {
                        return Err(StoreError::MissingElement);
                    },
                    Some(i) => {
                        let row = self.tables.elements[i];
                        self.set_element(
                            i,
                            ElementRow {
                                id: row.id,
                                element_type: row.element_type,
                                assigned: row.assigned,
                                frame: row.frame,
                                detail: ElementDetail::BrushDefinition(definition, *style),
                            },
                            2,
                        );
                    },
                }
            },
            DatabaseUpdate::PopVectorBrushPropertiesElement => {
                let properties = match find_by_key(&self.tables.brush_properties, self.peek(0)) {
                    None => {
                        return Err(StoreError::MissingBrushProperties);
                    },
                    Some(p) => self.tables.brush_properties[p].properties,
                };
                match find_by_key(&self.tables.elements, self.peek(1)) {
                    None => {
                        return Err(StoreError::MissingElement);
                    },
                    Some(i) => {
                        let row = self.tables.elements[i];
                        self.set_element(
                            i,
                            ElementRow {
                                id: row.id,
                                element_type: row.element_type,
                                assigned: row.assigned,
                                frame: row.frame,
                                detail: ElementDetail::BrushProperties(properties),
                            },
                            2,
                        );
                    },
                }
            },
            DatabaseUpdate::PopBrushPoints(points) => {
                match find_by_key(&self.tables.elements, self.peek(0)) {
                    None => {
                        return Err(StoreError::MissingElement);
                    },
                    Some(i) => {
                        let row = self.tables.elements[i];
                        let first = self.tables.brush_points.len();
                        extend_range(&mut self.tables.brush_points, points, 0, points.len());
                        self.set_element(
                            i,
                            ElementRow {
                                id: row.id,
                                element_type: row.element_type,
                                assigned: row.assigned,
                                frame: row.frame,
                                detail: ElementDetail::BrushStroke(first, points.len()),
                            },
                            1,
                        );
                        proof {
                            assert(points@.subrange(0, points@.len() as int) =~= points@);
                        }
                    },
                }
            },
            DatabaseUpdate::PopVectorPathElement => {
                match find_by_key(&self.tables.elements, self.peek(3)) {
                    None => {
                        return Err(StoreError::MissingElement);
                    },
                    Some(i) => {
                        let row = self.tables.elements[i];
                        let detail = ElementDetail::Path(self.peek(0), self.peek(2), self.peek(1));
                        self.set_element(
                            i,
                            ElementRow {
                                id: row.id,
                                element_type: row.element_type,
                                assigned: row.assigned,
                                frame: row.frame,
                                detail,
                            },
                            4,
                        );
                    },
                }
            },
            DatabaseUpdate::UpdateBrushPointCoords(segments) => {
                match find_by_key(&self.tables.elements, self.peek(0)) {
                    None => {
                        return Err(StoreError::MissingElement);
                    },
                    Some(i) => {
                        let row = self.tables.elements[i];
                        match row.detail {
                            ElementDetail::BrushStroke(first, count) => {
                                match copy_run(&self.tables.brush_points, first, count) {
                                    None => {
                                        return Err(StoreError::BrokenReference);
                                    },
                                    Some(old_points) => {
                                        let new_first = self.tables.brush_points.len();
                                        extend_moved_brush_points(
                                            &mut self.tables.brush_points,
                                            &old_points,
                                            segments,
                                        );
                                        self.set_element(
                                            i,
                                            ElementRow {
                                                id: row.id,
                                                element_type: row.element_type,
                                                assigned: row.assigned,
                                                frame: row.frame,
                                                detail: ElementDetail::BrushStroke(new_first, count),
                                            },
                                            1,
                                        );
                                    },
                                }
                            },
                            _ => {
                                return Err(StoreError::UnexpectedElementType);
                            },
                        }
                    },
                }
            },
            DatabaseUpdate::UpdatePathPointCoords(coords) => {
                match find_by_key(&self.tables.paths, self.peek(0)) {
                    None => {
                        return Err(StoreError::MissingPath);
                    },
                    Some(i) => {
                        let row = self.tables.paths[i];
                        match copy_run(&self.tables.path_points, row.first, row.count) {
                            None => {
                                return Err(StoreError::BrokenReference);
                            },
                            Some(old_points) => {
                                let points = move_path_points(&old_points, coords);
                                self.set_path_points(i, points);
                            },
                        }
                    },
                }
            },
            DatabaseUpdate::PopRemovePathPoints(from, to) => {
                match find_by_key(&self.tables.paths, self.peek(0)) {
                    None => {
                        return Err(StoreError::MissingPath);
                    },
                    Some(i) => {
                        let row = self.tables.paths[i];
                        match copy_run(&self.tables.path_points, row.first, row.count) {
                            None => {
                                return Err(StoreError::BrokenReference);
                            },
                            Some(old_points) => {
                                let points = remove_points(&old_points, *from, *to);
                                self.set_path_points(i, points);
                            },
                        }
                    },
                }
            },
            DatabaseUpdate::PopInsertPathComponents(at, components) => {
                match find_by_key(&self.tables.paths, self.peek(0)) {
                    None => {
                        return Err(StoreError::MissingPath);
                    },
                    Some(i) => {
                        let row = self.tables.paths[i];
                        match copy_run(&self.tables.path_points, row.first, row.count) {
                            None => {
                                return Err(StoreError::BrokenReference);
                            },
                            Some(old_points) => {
                                let mut added: Vec<PathPointRow> = Vec::new();
                                extend_flattened(&mut added, components);
                                proof {
                                    assert(added@ =~= flatten_components(components@));
                                }
                                let points = insert_points(&old_points, *at, &added);
                                self.set_path_points(i, points);
                            },
                        }
                    },
                }
            },
            DatabaseUpdate::PopVectorElementMove(how) => {
                match find_by_key(&self.tables.elements, self.peek(1)) {
                    None => {
                        return Err(StoreError::MissingElement);
                    },
                    Some(i) => {
                        let key_frame = self.peek(0);
                        move_element(&mut self.tables.elements, i, key_frame, *how);
                        self.drop_top(2);
                    },
                }
            },
            DatabaseUpdate::PopDeleteVectorElement => {
                let id = self.peek(0);
                self.tables.elements = remove_by_key(&self.tables.elements, id);
                self.tables.attachments = remove_matching(&self.tables.attachments, TouchesElement(id));
                self.drop_top(1);
            },
            DatabaseUpdate::PopDetachVectorElementFromFrame => {
                match find_by_key(&self.tables.elements, self.peek(0)) {
                    None => {
                        return Err(StoreError::MissingElement);
                    },
                    Some(i) => {
                        let row = self.tables.elements[i];
                        self.set_element(
                            i,
                            ElementRow {
                                id: row.id,
                                element_type: row.element_type,
                                assigned: row.assigned,
                                frame: None,
                                detail: row.detail,
                            },
                            1,
                        );
                    },
                }
            },
            _ => {},
        }
        proof {
            assert(old(self)@.popped(0) =~= old(self)@.stack);
            assert(self@ =~= step_element(old(self)@, u@).unwrap());
        }
        Ok(())
    }

    /// Carries out an instruction on motions.
    pub(crate) fn apply_motion(&mut self, u: &DatabaseUpdate) -> (r: Result<(), StoreError>)
        requires
            old(self)@.stack.len() >= needs(u@),
            group_of(u@) == Group::Motion,
        ensures
            match step_motion(old(self)@, u@) {
                Ok(m) => r is Ok && final(self)@ == m,
                Err(e) => r == Err::<(), StoreError>(e),
            },
    {
        match u {
            DatabaseUpdate::CreateMotion(id) => {
                self.tables.motions.push(
                    MotionRow { id: *id, motion_type: MotionType::Stationary, origin: None, path: None },
                );
            },
            DatabaseUpdate::DeleteMotion(id) => {
                self.tables.motions = remove_by_key(&self.tables.motions, *id);
            },
            DatabaseUpdate::SetMotionType(id, motion_type) => {
                match find_by_key(&self.tables.motions, *id) {
                    None => {},
                    Some(i) => {
                        let row = self.tables.motions[i];
                        self.tables.motions.set(
                            i,
                            MotionRow {
                                id: row.id,
                                motion_type: *motion_type,
                                origin: row.origin,
                                path: row.path,
                            },
                        );
                    },
                }
            },
            DatabaseUpdate::SetMotionOrigin(id, x, y) => {
                match find_by_key(&self.tables.motions, *id) {
                    None => {},
                    Some(i) => {
                        let row = self.tables.motions[i];
                        self.tables.motions.set(
                            i,
                            MotionRow {
                                id: row.id,
                                motion_type: row.motion_type,
                                origin: Some((*x, *y)),
                                path: row.path,
                            },
                        );
                    },
                }
            },
            DatabaseUpdate::SetMotionPath(id, path_type, n) => {
                let mut points = match self.top_time_points(*n) {
                    None => {
                        return Err(StoreError::MissingTimePoint);
                    },
                    Some(points) => points,
                };
                match find_by_key(&self.tables.motions, *id) {
                    None => {},
                    Some(i) => {
                        let row = self.tables.motions[i];
                        let first = self.tables.motion_points.len();
                        let count = points.len();
                        self.tables.motions.set(
                            i,
                            MotionRow {
                                id: row.id,
                                motion_type: row.motion_type,
                                origin: row.origin,
                                path: Some(MotionPathRef { path_type: *path_type, first, count }),
                            },
                        );
                        self.tables.motion_points.append(&mut points);
                    },
                }
                self.drop_top(*n);
            },
            _ => {},
        }
        proof {
            assert(self@ =~= step_motion(old(self)@, u@).unwrap());
        }
        Ok(())
    }
}

} // verus!
