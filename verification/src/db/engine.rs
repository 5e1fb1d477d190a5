//! The interpreter of the instruction set over tables held in memory.

use vstd::prelude::*;
use crate::animation::brush::{BrushDefinition, BrushProperties, Color, InkDefinition};
use crate::animation::motion::TimePoint;
use crate::animation::path::PathComponent;
use crate::db::db_enum::{BrushDefinitionType, ColorType, PathPointType};
use crate::db::error::StoreError;
use crate::db::flo_store::DatabaseUpdate;
use crate::db::matchers::{PathPointParam, PlainPoint, RawPointParam, TimePointParam};
use crate::db::points::{component_points, flatten_components, lookup_time_points, run_of};
use crate::db::relation::{extend_mapped, find_by_key, find_key};
use crate::db::rows::{BrushPropertiesRow, BrushRow, ColorRow, EditLogParam, EditLogRow, PathPointRow, PathRow, TimePointRow};
use crate::db::step::{group_of, needs, step_log, step_staging, Group, Machine};
use crate::db::tables::{strings_view, Tables};

verus! {

/// The tables of the store together with its stack.
pub(crate) struct Engine {
    pub(crate) tables: Tables,
    pub(crate) stack: Vec<i64>,
}

/// Adds the stored points of a list of components to the end of `out`.
pub fn extend_flattened(out: &mut Vec<PathPointRow>, components: &Vec<PathComponent>)
    ensures
        final(out)@ == old(out)@ + flatten_components(components@),
{
    let mut i: usize = 0;
    while i < components.len()
        invariant
            i <= components@.len(),
            out@ == old(out)@ + flatten_components(components@.take(i as int)),
        decreases components.len() - i,
    {
        proof {
            assert(components@.take(i + 1).drop_last() =~= components@.take(i as int));
        }
        let ghost before = out@;
        match components[i] {
            PathComponent::Move(p) => {
                out.push(PathPointRow { position: p.position, kind: PathPointType::MoveTo });
            },
            PathComponent::Line(p) => {
                out.push(PathPointRow { position: p.position, kind: PathPointType::LineTo });
            },
            PathComponent::Bezier(target, cp1, cp2) => {
                out.push(PathPointRow { position: cp1.position, kind: PathPointType::ControlPoint });
                out.push(PathPointRow { position: cp2.position, kind: PathPointType::ControlPoint });
                out.push(PathPointRow { position: target.position, kind: PathPointType::BezierTo });
            },
            PathComponent::Close => {
                out.push(PathPointRow { position: (0, 0), kind: PathPointType::Close });
            },
        }
        proof {
            assert(out@ =~= before + component_points(components@[i as int]));
            assert(out@ =~= old(out)@ + flatten_components(components@.take(i + 1)));
        }
        i += 1;
    }
    proof {
        assert(components@.take(i as int) =~= components@);
    }
}

/// Copies the run of `count` items that starts at `first` out of a pool.
pub fn copy_run<T: Copy>(pool: &Vec<T>, first: usize, count: usize) -> (r: Option<Vec<T>>)
    ensures
        match r {
            Some(items) => run_of(pool@, first, count) == Some(items@),
            None => run_of(pool@, first, count) is None,
        },
{
    if first > pool.len() || count > pool.len() - first {
        return None;
    }
    let mut out: Vec<T> = Vec::new();
    let mut i: usize = 0;
    while i < count
        invariant
            i <= count,
            first + count <= pool@.len() <= usize::MAX,
            out@ == pool@.subrange(first as int, first + i),
        decreases count - i,
    {
        out.push(pool[first + i]);
        proof {
            assert(out@ =~= pool@.subrange(first as int, first + i + 1));
        }
        i += 1;
    }
    Some(out)
}

impl Engine {
    /// The tables and the stack as a mathematical value.
    pub open(crate) spec fn view(&self) -> Machine {
        Machine { tables: self.tables@, stack: self.stack@ }
    }

    /// An engine whose tables hold nothing and whose stack is empty.
    pub(crate) fn new() -> (r: Engine)
        ensures
            r@ == Machine::empty(),
    {
        Engine { tables: Tables::new(), stack: Vec::new() }
    }

    /// The value `depth` places below the top of the stack.
    pub(crate) fn peek(&self, depth: usize) -> (v: i64)
        requires
            depth < self.stack@.len(),
        ensures
            v == self@.peek(depth as int),
    {
        self.stack[self.stack.len() - 1 - depth]
    }

    /// Takes the top `n` values from the stack.
    pub(crate) fn drop_top(&mut self, n: usize)
        requires
            n <= old(self)@.stack.len(),
        ensures
            final(self).stack@ == old(self)@.popped(n as int),
            final(self).tables == old(self).tables,
    {
        let len = self.stack.len();
        self.stack.truncate(len - n);
        proof {
            assert(self.stack@ =~= old(self)@.popped(n as int));
        }
    }

    /// True if `edit` is the newest entry of the edit log.
    pub(crate) fn is_open(&self, edit: i64) -> (r: bool)
        ensures
            r == self@.is_open(edit),
    {
        let n = self.tables.edit_log.len();
        n > 0 && edit >= 0 && edit as u64 == (n - 1) as u64
    }

    /// Records one parameter for the entry `edit` of the edit log and takes the
    /// top `n` values from the stack.
    pub(crate) fn record(&mut self, edit: i64, param: EditLogParam, n: usize) -> (r: Result<(), StoreError>)
        requires
            n <= old(self)@.stack.len(),
        ensures
            match old(self)@.record(edit, seq![param], old(self)@.popped(n as int)) {
                Ok(m) => r is Ok && final(self)@ == m,
                Err(e) => r == Err::<(), StoreError>(e),
            },
            n == 0 ==> old(self)@.popped(n as int) == old(self)@.stack,
    {
        proof {
            assert(old(self)@.popped(0) =~= old(self)@.stack);
        }
        if !self.is_open(edit) {
            return Err(StoreError::EditNotOpen);
        }
        self.tables.edit_params.push(param);
        self.drop_top(n);
        proof {
            assert(self@.tables.edit_params =~= old(self)@.tables.edit_params + seq![param]);
        }
        Ok(())
    }

    /// The time points whose ids are the top `n` values of the stack.
    pub(crate) fn top_time_points(&self, n: usize) -> (r: Option<Vec<TimePoint>>)
        requires
            n <= self.stack@.len(),
        ensures
            match r {
                Some(points) => lookup_time_points(self@.tables.time_points, self@.top(n as int)) == Some(
                    points@,
                ),
                None => lookup_time_points(self@.tables.time_points, self@.top(n as int)) is None,
            },
    {
        let base = self.stack.len() - n;
        let ghost ids = self@.top(n as int);
        let mut out: Vec<TimePoint> = Vec::new();
        let mut i: usize = 0;
        while i < n
            invariant
                i <= n,
                base + n == self.stack@.len() <= usize::MAX,
                ids == self@.top(n as int),
                lookup_time_points(self@.tables.time_points, ids.take(i as int)) == Some(out@),
            decreases n - i,
        {
            proof {
                assert(ids.take(i + 1).drop_last() =~= ids.take(i as int));
                assert(ids.take(i + 1).last() == self.stack@[base + i]);
            }
            match find_by_key(&self.tables.time_points, self.stack[base + i]) {
                Some(k) => {
                    out.push(self.tables.time_points[k].point);
                },
                None => {
                    proof {
                        lemma_lookup_fails(self@.tables.time_points, ids, i as int);
                    }
                    return None;
                },
            }
            i += 1;
        }
        proof {
            assert(ids.take(i as int) =~= ids);
        }
        Some(out)
    }

    /// Carries out an instruction that writes the edit log.
    pub(crate) fn apply_log(&mut self, u: &DatabaseUpdate) -> (r: Result<(), StoreError>)
        requires
            old(self)@.stack.len() >= needs(u@),
            group_of(u@) == Group::Log,
        ensures
            match step_log(old(self)@, u@) {
                Ok(m) => r is Ok && final(self)@ == m,
                Err(e) => r == Err::<(), StoreError>(e),
            },
    {
        match u {
            DatabaseUpdate::PushEditType(edit_type) => {
                let n = self.tables.edit_log.len();
                if n as u64 >= i64::MAX as u64 {
                    return Err(StoreError::OutOfIds);
                }
                self.tables.edit_log.push(
                    EditLogRow { edit_type: *edit_type, first_param: self.tables.edit_params.len() },
                );
                self.stack.push(n as i64);
            },
            DatabaseUpdate::PopEditLogSetSize(w, h) => {
                self.record(self.peek(0), EditLogParam::Size(*w, *h), 1)?;
            },
            DatabaseUpdate::PushEditLogLayer(layer) => {
                self.record(self.peek(0), EditLogParam::Layer(*layer), 0)?;
            },
            DatabaseUpdate::PushEditLogWhen(when) => {
                self.record(self.peek(0), EditLogParam::When(*when), 0)?;
            },
            DatabaseUpdate::PushEditLogElementCount(n) => {
                self.record(self.peek(0), EditLogParam::ElementCount(*n), 0)?;
            },
            DatabaseUpdate::PushEditLogElementId(i, id) => {
                self.record(self.peek(0), EditLogParam::ElementId(*i, *id), 0)?;
            },
            DatabaseUpdate::PopEditLogBrush(style) => {
                let definition = match find_by_key(&self.tables.brushes, self.peek(0)) {
                    None => {
                        return Err(StoreError::MissingBrush);
                    },
                    Some(i) => match self.tables.brushes[i].definition {
                        None => {
                            return Err(StoreError::IncompleteBrush);
                        },
                        Some(definition) => definition,
                    },
                };
                self.record(self.peek(1), EditLogParam::Brush(definition, *style), 2)?;
            },
            DatabaseUpdate::PopEditLogBrushProperties => {
                let properties = match find_by_key(&self.tables.brush_properties, self.peek(0)) {
                    None => {
                        return Err(StoreError::MissingBrushProperties);
                    },
                    Some(i) => self.tables.brush_properties[i].properties,
                };
                self.record(self.peek(1), EditLogParam::BrushProperties(properties), 2)?;
            },
            DatabaseUpdate::PushRawPoints(points) => {
                if !self.is_open(self.peek(0)) {
                    return Err(StoreError::EditNotOpen);
                }
                extend_mapped(&mut self.tables.edit_params, points, RawPointParam);
            },
            DatabaseUpdate::PopEditLogString(slot, text) => {
                if !self.is_open(self.peek(0)) {
                    return Err(StoreError::EditNotOpen);
                }
                let at = self.tables.strings.len();
                self.tables.strings.push(text.clone());
                self.tables.edit_params.push(EditLogParam::Text(*slot, at));
                self.drop_top(1);
                proof {
                    assert(self@.tables.strings =~= old(self)@.tables.strings.push(text@));
                }
            },
            DatabaseUpdate::PushEditLogInt(slot, value) => {
                self.record(self.peek(0), EditLogParam::Int(*slot, *value), 0)?;
            },
            DatabaseUpdate::PushEditLogMotionType(motion_type) => {
                self.record(self.peek(0), EditLogParam::MotionType(*motion_type), 0)?;
            },
            DatabaseUpdate::PushEditLogMotionOrigin(x, y) => {
                self.record(self.peek(0), EditLogParam::MotionOrigin(*x, *y), 0)?;
            },
            DatabaseUpdate::PushEditLogMotionPath(n) => {
                let points = match self.top_time_points(*n) {
                    None => {
                        return Err(StoreError::MissingTimePoint);
                    },
                    Some(points) => points,
                };
                if !self.is_open(self.peek(*n)) {
                    return Err(StoreError::EditNotOpen);
                }
                extend_mapped(&mut self.tables.edit_params, &points, TimePointParam);
                self.drop_top(*n);
            },
            DatabaseUpdate::PushEditLogPath => {
                let points = match find_by_key(&self.tables.paths, self.peek(0)) {
                    None => {
                        return Err(StoreError::MissingPath);
                    },
                    Some(i) => match copy_run(
                        &self.tables.path_points,
                        self.tables.paths[i].first,
                        self.tables.paths[i].count,
                    ) {
                        None => {
                            return Err(StoreError::BrokenReference);
                        },
                        Some(points) => points,
                    },
                };
                if !self.is_open(self.peek(1)) {
                    return Err(StoreError::EditNotOpen);
                }
                extend_mapped(&mut self.tables.edit_params, &points, PathPointParam);
                self.drop_top(1);
            },
            _ => {},
        }
        proof {
            assert(self@ =~~= step_log(old(self)@, u@).unwrap());
        }
        Ok(())
    }

    /// The id for a new row.
    pub(crate) fn fresh_id(&mut self) -> (r: Result<i64, StoreError>)
        ensures
            final(self).stack == old(self).stack,
            match r {
                Ok(id) => old(self)@.tables.next_id < i64::MAX && id == old(self)@.tables.next_id
                    && final(self)@.tables == (crate::db::rows::TablesView {
                    next_id: (id + 1) as i64,
                    ..old(self)@.tables
                }),
                Err(e) => e == StoreError::OutOfIds && old(self)@.tables.next_id >= i64::MAX
                    && final(self)@ == old(self)@,
            },
    {
        if self.tables.next_id >= i64::MAX {
            return Err(StoreError::OutOfIds);
        }
        let id = self.tables.next_id;
        self.tables.next_id = id + 1;
        Ok(id)
    }

    /// Carries out an instruction that puts a brush, a colour, a path or a time
    /// point together.
    pub(crate) fn apply_staging(&mut self, u: &DatabaseUpdate) -> (r: Result<(), StoreError>)
        requires
            old(self)@.stack.len() >= needs(u@),
            group_of(u@) == Group::Staging,
        ensures
            match step_staging(old(self)@, u@) {
                Ok(m) => r is Ok && final(self)@ == m,
                Err(e) => r == Err::<(), StoreError>(e),
            },
    {
        match u {
            DatabaseUpdate::PushPath(coords) => {
                let id = self.fresh_id()?;
                let first = self.tables.path_points.len();
                self.tables.paths.push(PathRow { id, first, count: coords.len() });
                extend_mapped(&mut self.tables.path_points, coords, PlainPoint);
                self.stack.push(id);
            },
            DatabaseUpdate::PushPathComponents(components) => {
                let id = self.fresh_id()?;
                let first = self.tables.path_points.len();
                extend_flattened(&mut self.tables.path_points, components);
                let count = self.tables.path_points.len() - first;
                self.tables.paths.push(PathRow { id, first, count });
                self.stack.push(id);
            },
            DatabaseUpdate::PushTimePoint(x, y, millis) => {
                let id = self.fresh_id()?;
                self.tables.time_points.push(TimePointRow { id, point: TimePoint(*x, *y, *millis) });
                self.stack.push(id);
            },
            DatabaseUpdate::PushBrushType(brush_type) => {
                let id = self.fresh_id()?;
                let definition = match brush_type {
                    BrushDefinitionType::Simple => Some(BrushDefinition::Simple),
                    BrushDefinitionType::Ink => None,
                };
                self.tables.brushes.push(BrushRow { id, brush_type: *brush_type, definition });
                self.stack.push(id);
            },
            DatabaseUpdate::PushInkBrush(min_width, max_width, scale_up_distance) => {
                match find_by_key(&self.tables.brushes, self.peek(0)) {
                    None => {
                        return Err(StoreError::MissingBrush);
                    },
                    Some(i) => {
                        let row = self.tables.brushes[i];
                        match row.brush_type {
                            BrushDefinitionType::Ink => {},
                            _ => {
                                return Err(StoreError::BrushTypeMismatch);
                            },
                        }
                        self.tables.brushes.set(
                            i,
                            BrushRow {
                                id: row.id,
                                brush_type: row.brush_type,
                                definition: Some(
                                    BrushDefinition::Ink(
                                        InkDefinition {
                                            min_width: *min_width,
                                            max_width: *max_width,
                                            scale_up_distance: *scale_up_distance,
                                        },
                                    ),
                                ),
                            },
                        );
                    },
                }
            },
            DatabaseUpdate::PushColorType(color_type) => {
                let id = self.fresh_id()?;
                self.tables.colors.push(ColorRow { id, color_type: *color_type, color: None });
                self.stack.push(id);
            },
            DatabaseUpdate::PushRgb(r, g, b, a) => {
                match find_by_key(&self.tables.colors, self.peek(0)) {
                    None => {
                        return Err(StoreError::MissingColor);
                    },
                    Some(i) => {
                        let row = self.tables.colors[i];
                        match row.color_type {
                            ColorType::Rgb => {},
                            _ => {
                                return Err(StoreError::ColorTypeMismatch);
                            },
                        }
                        self.tables.colors.set(
                            i,
                            ColorRow {
                                id: row.id,
                                color_type: row.color_type,
                                color: Some(Color::Rgba(*r, *g, *b, *a)),
                            },
                        );
                    },
                }
            },
            DatabaseUpdate::PushHsluv(h, s, l, a) => {
                match find_by_key(&self.tables.colors, self.peek(0)) {
                    None => {
                        return Err(StoreError::MissingColor);
                    },
                    Some(i) => {
                        let row = self.tables.colors[i];
                        match row.color_type {
                            ColorType::Hsluv => {},
                            _ => {
                                return Err(StoreError::ColorTypeMismatch);
                            },
                        }
                        self.tables.colors.set(
                            i,
                            ColorRow {
                                id: row.id,
                                color_type: row.color_type,
                                color: Some(Color::Hsluv(*h, *s, *l, *a)),
                            },
                        );
                    },
                }
            },
            DatabaseUpdate::PushBrushProperties(size, opacity) => {
                let color = match find_by_key(&self.tables.colors, self.peek(0)) {
                    None => {
                        return Err(StoreError::MissingColor);
                    },
                    Some(i) => match self.tables.colors[i].color {
                        None => {
                            return Err(StoreError::IncompleteColor);
                        },
                        Some(color) => color,
                    },
                };
                let id = self.fresh_id()?;
                self.tables.brush_properties.push(
                    BrushPropertiesRow {
                        id,
                        properties: BrushProperties { size: *size, opacity: *opacity, color },
                    },
                );
                self.drop_top(1);
                self.stack.push(id);
            },
            _ => {},
        }
        proof {
            assert(self@ =~~= step_staging(old(self)@, u@).unwrap());
        }
        Ok(())
    }
}

/// If one of the first ids has no time point, the whole list has none.
pub proof fn lemma_lookup_fails(rows: Seq<TimePointRow>, ids: Seq<i64>, i: int)
    requires
        0 <= i < ids.len(),
        find_key(rows, ids[i]) is None,
    ensures
        lookup_time_points(rows, ids) is None,
    decreases ids.len(),
{
    if i < ids.len() - 1 {
        lemma_lookup_fails(rows, ids.drop_last(), i);
    }
}

} // verus!
