//! What the instructions of the edit log writer leave in the edit log.

use vstd::prelude::*;
use crate::animation::brush::{BrushDefinition, BrushProperties, Color, Coord, RawPoint};
use crate::animation::element_id::ElementId;
use crate::animation::motion::{TimeControlPoint, TimePoint};
use crate::animation::path::PathComponent;
use crate::db::brush::{brush_properties_updates, brush_updates, color_updates};
use crate::db::db_enum::{DrawingStyleType, EditLogType};
use crate::db::flo_store::UpdateView;
use crate::db::insert_editlog::{element_id_entries, element_id_list_updates, element_id_log_updates};
use crate::db::matchers::{PathPointParam, RawPointParam, TimePointParam};
use crate::db::perform_edit::time_point_updates;
use crate::db::points::{curve_points, flatten_components, lemma_parse_curve, lookup_time_points, plain_points, run_of};
use crate::db::relation::{find_key, mapped};
use crate::db::rows::{EditLogParam, EditLogRow, TablesView, TimePointRow};
use crate::db::step::{run, step, Machine};
use crate::db::engine_run::lemma_run_push;
use crate::laws::frame::lemma_run_grows;
use crate::laws::symbolic::{lemma_run_1, lemma_run_2, lemma_run_3, lemma_run_concat, then, then_run};
use crate::laws::tokens::{id_entries, id_list_tokens, id_tokens};

verus! {

/// True if `x` is `base` with a new entry of the edit log on its stack, for
/// which `tokens` are recorded, and `strings` for its strings.
pub open spec fn writing(
    base: Machine,
    edit_type: EditLogType,
    x: Machine,
    tokens: Seq<EditLogParam>,
    strings: Seq<Seq<char>>,
) -> bool {
    &&& base.tables.edit_log.len() < i64::MAX
    &&& x.tables.edit_log == base.tables.edit_log.push(
        EditLogRow { edit_type, first_param: base.tables.edit_params.len() as usize },
    )
    &&& x.tables.edit_params == base.tables.edit_params + tokens
    &&& x.tables.strings == strings
    &&& x.stack == base.stack.push(base.tables.edit_log.len() as i64)
}

/// True if `x` is `base` with a new entry of the edit log that holds `tokens`
/// and is taken from the stack again, and `strings` for its strings.
pub open spec fn written(
    base: Machine,
    edit_type: EditLogType,
    x: Machine,
    tokens: Seq<EditLogParam>,
    strings: Seq<Seq<char>>,
) -> bool {
    &&& base.tables.edit_log.len() < i64::MAX
    &&& x.tables.edit_log == base.tables.edit_log.push(
        EditLogRow { edit_type, first_param: base.tables.edit_params.len() as usize },
    )
    &&& x.tables.edit_params == base.tables.edit_params + tokens
    &&& x.tables.strings == strings
    &&& x.stack == base.stack
}

/// The parameter that an instruction records for the entry on top of the
/// stack, if it is one of those that record one and leave the stack alone.
pub open spec fn recorded(u: UpdateView) -> Option<EditLogParam> {
    match u {
        UpdateView::PushEditLogLayer(layer) => Some(EditLogParam::Layer(layer)),
        UpdateView::PushEditLogWhen(when) => Some(EditLogParam::When(when)),
        UpdateView::PushEditLogElementCount(n) => Some(EditLogParam::ElementCount(n)),
        UpdateView::PushEditLogElementId(at, id) => Some(EditLogParam::ElementId(at, id)),
        UpdateView::PushEditLogInt(slot, value) => Some(EditLogParam::Int(slot, value)),
        UpdateView::PushEditLogMotionType(motion_type) => Some(EditLogParam::MotionType(motion_type)),
        UpdateView::PushEditLogMotionOrigin(x, y) => Some(EditLogParam::MotionOrigin(x, y)),
        _ => None,
    }
}

/// Opening an entry.
pub proof fn lemma_open(base: Machine, edit_type: EditLogType)
    requires
        step(base, UpdateView::PushEditType(edit_type)) is Ok,
    ensures
        writing(
            base,
            edit_type,
            step(base, UpdateView::PushEditType(edit_type)).unwrap(),
            Seq::empty(),
            base.tables.strings,
        ),
{
    reveal(step);
    let x = step(base, UpdateView::PushEditType(edit_type)).unwrap();
    assert(x.tables.edit_params =~= base.tables.edit_params + Seq::<EditLogParam>::empty());
}

/// An instruction that records a parameter adds it to those of the entry.
pub proof fn lemma_record(
    base: Machine,
    edit_type: EditLogType,
    x: Machine,
    tokens: Seq<EditLogParam>,
    strings: Seq<Seq<char>>,
    u: UpdateView,
)
    requires
        writing(base, edit_type, x, tokens, strings),
        recorded(u) is Some,
    ensures
        step(x, u) is Ok,
        writing(base, edit_type, step(x, u).unwrap(), tokens.push(recorded(u).unwrap()), strings),
{
    reveal(step);
    let y = step(x, u).unwrap();
    assert(x.peek(0) == base.tables.edit_log.len() as i64);
    assert(x.is_open(x.peek(0)));
    assert(y.tables.edit_params =~= base.tables.edit_params + tokens.push(recorded(u).unwrap()));
}

/// Taking the entry from the stack closes it.
pub proof fn lemma_close(
    base: Machine,
    edit_type: EditLogType,
    x: Machine,
    tokens: Seq<EditLogParam>,
    strings: Seq<Seq<char>>,
)
    requires
        writing(base, edit_type, x, tokens, strings),
    ensures
        step(x, UpdateView::Pop) is Ok,
        written(base, edit_type, step(x, UpdateView::Pop).unwrap(), tokens, strings),
{
    reveal(step);
    let y = step(x, UpdateView::Pop).unwrap();
    assert(y.stack =~= base.stack);
}

/// Recording a size closes the entry.
pub proof fn lemma_record_size(
    base: Machine,
    edit_type: EditLogType,
    x: Machine,
    tokens: Seq<EditLogParam>,
    strings: Seq<Seq<char>>,
    width: u64,
    height: u64,
)
    requires
        writing(base, edit_type, x, tokens, strings),
    ensures
        step(x, UpdateView::PopEditLogSetSize(width, height)) is Ok,
        written(
            base,
            edit_type,
            step(x, UpdateView::PopEditLogSetSize(width, height)).unwrap(),
            tokens.push(EditLogParam::Size(width, height)),
            strings,
        ),
{
    reveal(step);
    let y = step(x, UpdateView::PopEditLogSetSize(width, height)).unwrap();
    assert(x.is_open(x.peek(0)));
    assert(y.stack =~= base.stack);
    assert(y.tables.edit_params =~= base.tables.edit_params + tokens.push(EditLogParam::Size(width, height)));
}

/// Recording a string closes the entry and adds the string to the strings.
pub proof fn lemma_record_string(
    base: Machine,
    edit_type: EditLogType,
    x: Machine,
    tokens: Seq<EditLogParam>,
    strings: Seq<Seq<char>>,
    slot: u32,
    text: Seq<char>,
)
    requires
        writing(base, edit_type, x, tokens, strings),
    ensures
        step(x, UpdateView::PopEditLogString(slot, text)) is Ok,
        written(
            base,
            edit_type,
            step(x, UpdateView::PopEditLogString(slot, text)).unwrap(),
            tokens.push(EditLogParam::Text(slot, strings.len() as usize)),
            strings.push(text),
        ),
{
    reveal(step);
    let y = step(x, UpdateView::PopEditLogString(slot, text)).unwrap();
    assert(x.is_open(x.peek(0)));
    assert(y.stack =~= base.stack);
    assert(y.tables.edit_params =~= base.tables.edit_params + tokens.push(
        EditLogParam::Text(slot, strings.len() as usize),
    ));
}

/// Recording a brush with its drawing style closes the entry.
pub proof fn lemma_record_brush(
    base: Machine,
    edit_type: EditLogType,
    x: Machine,
    tokens: Seq<EditLogParam>,
    strings: Seq<Seq<char>>,
    definition: BrushDefinition,
    style: DrawingStyleType,
)
    requires
        writing(base, edit_type, x, tokens, strings),
        run(x, brush_updates(definition) + seq![UpdateView::PopEditLogBrush(style)]) is Ok,
    ensures
        written(
            base,
            edit_type,
            run(x, brush_updates(definition) + seq![UpdateView::PopEditLogBrush(style)]).unwrap(),
            tokens.push(EditLogParam::Brush(definition, style)),
            strings,
        ),
{
    reveal(step);
    let last = UpdateView::PopEditLogBrush(style);
    lemma_run_concat(x, brush_updates(definition), seq![last]);
    let made = run(x, brush_updates(definition)).unwrap();
    lemma_run_1(made, last);
    match definition {
        BrushDefinition::Simple => {
            lemma_run_1(x, brush_updates(definition)[0]);
        },
        BrushDefinition::Ink(ink) => {
            lemma_run_2(x, brush_updates(definition)[0], brush_updates(definition)[1]);
        },
    }
    let y = step(made, last).unwrap();
    assert(made.peek(1) == base.tables.edit_log.len() as i64);
    assert(made.is_open(made.peek(1)));
    assert(y.stack =~= base.stack);
    assert(y.tables.edit_params =~= base.tables.edit_params + tokens.push(
        EditLogParam::Brush(definition, style),
    ));
}

/// The instructions that put a colour on the stack leave the edit log and the
/// strings alone and leave the colour on top of the stack, complete.
pub proof fn lemma_stage_color(x: Machine, color: Color)
    requires
        run(x, color_updates(color)) is Ok,
    ensures
        ({
            let y = run(x, color_updates(color)).unwrap();
            &&& y.tables.edit_log == x.tables.edit_log
            &&& y.tables.edit_params == x.tables.edit_params
            &&& y.tables.strings == x.tables.strings
            &&& y.tables.brush_properties == x.tables.brush_properties
            &&& y.stack.len() == x.stack.len() + 1
            &&& y.stack.drop_last() == x.stack
            &&& find_key(y.tables.colors, y.stack.last()) matches Some(i) && y.tables.colors[i].color == Some(
                color,
            )
        }),
{
    reveal(step);
    let updates = color_updates(color);
    lemma_run_2(x, updates[0], updates[1]);
    assert(updates =~= seq![updates[0], updates[1]]);
    let y = run(x, updates).unwrap();
    assert(y.stack.drop_last() =~= x.stack);
}

/// The instructions that put brush properties on the stack leave the edit log
/// and the strings alone and leave the brush properties on top of the stack.
pub proof fn lemma_stage_brush_properties(x: Machine, properties: BrushProperties)
    requires
        run(x, brush_properties_updates(properties)) is Ok,
    ensures
        ({
            let y = run(x, brush_properties_updates(properties)).unwrap();
            &&& y.tables.edit_log == x.tables.edit_log
            &&& y.tables.edit_params == x.tables.edit_params
            &&& y.tables.strings == x.tables.strings
            &&& y.stack.len() == x.stack.len() + 1
            &&& y.stack.drop_last() == x.stack
            &&& find_key(y.tables.brush_properties, y.stack.last()) matches Some(i)
                && y.tables.brush_properties[i].properties == properties
        }),
{
    let last = UpdateView::PushBrushProperties(properties.size, properties.opacity);
    lemma_run_push(x, color_updates(properties.color), last);
    lemma_stage_color(x, properties.color);
    let colored = run(x, color_updates(properties.color)).unwrap();
    reveal(step);
    let y = step(colored, last).unwrap();
    assert(colored.peek(0) == colored.stack.last());
    assert(y.stack.drop_last() =~= x.stack);
}

/// Recording brush properties closes the entry.
pub proof fn lemma_record_brush_properties(
    base: Machine,
    edit_type: EditLogType,
    x: Machine,
    tokens: Seq<EditLogParam>,
    strings: Seq<Seq<char>>,
    properties: BrushProperties,
)
    requires
        writing(base, edit_type, x, tokens, strings),
        run(x, brush_properties_updates(properties) + seq![UpdateView::PopEditLogBrushProperties]) is Ok,
    ensures
        written(
            base,
            edit_type,
            run(x, brush_properties_updates(properties) + seq![UpdateView::PopEditLogBrushProperties]).unwrap(),
            tokens.push(EditLogParam::BrushProperties(properties)),
            strings,
        ),
{
    let last = UpdateView::PopEditLogBrushProperties;
    let staged = brush_properties_updates(properties);
    lemma_run_concat(x, staged, seq![last]);
    let made = run(x, staged).unwrap();
    lemma_run_1(made, last);
    lemma_stage_brush_properties(x, properties);
    reveal(step);
    let y = step(made, last).unwrap();
    assert(made.peek(0) == made.stack.last());
    assert(made.peek(1) == made.stack.drop_last().last());
    assert(made.peek(1) == base.tables.edit_log.len() as i64);
    assert(made.is_open(made.peek(1)));
    assert(y.stack =~= base.stack);
    assert(y.tables.edit_params =~= base.tables.edit_params + tokens.push(
        EditLogParam::BrushProperties(properties),
    ));
}

/// Recording raw points and taking the entry from the stack closes it.
pub proof fn lemma_record_raw_points(
    base: Machine,
    edit_type: EditLogType,
    x: Machine,
    tokens: Seq<EditLogParam>,
    strings: Seq<Seq<char>>,
    points: Seq<RawPoint>,
)
    requires
        writing(base, edit_type, x, tokens, strings),
    ensures
        run(x, seq![UpdateView::PushRawPoints(points), UpdateView::Pop]) is Ok,
        written(
            base,
            edit_type,
            run(x, seq![UpdateView::PushRawPoints(points), UpdateView::Pop]).unwrap(),
            tokens + mapped(points, RawPointParam),
            strings,
        ),
{
    reveal(step);
    lemma_run_2(x, UpdateView::PushRawPoints(points), UpdateView::Pop);
    assert(x.is_open(x.peek(0)));
    let y = run(x, seq![UpdateView::PushRawPoints(points), UpdateView::Pop]).unwrap();
    assert(y.stack =~= base.stack);
    assert(y.tables.edit_params =~= base.tables.edit_params + (tokens + mapped(points, RawPointParam)));
}

/// Recording the points of a path of components and taking the entry from the
/// stack closes it.
pub proof fn lemma_record_components(
    base: Machine,
    edit_type: EditLogType,
    x: Machine,
    tokens: Seq<EditLogParam>,
    strings: Seq<Seq<char>>,
    components: Seq<PathComponent>,
)
    requires
        writing(base, edit_type, x, tokens, strings),
        run(
            x,
            seq![UpdateView::PushPathComponents(components), UpdateView::PushEditLogPath, UpdateView::Pop],
        ) is Ok,
        run(
            x,
            seq![UpdateView::PushPathComponents(components), UpdateView::PushEditLogPath, UpdateView::Pop],
        ).unwrap().tables.path_points.len() <= usize::MAX,
    ensures
        written(
            base,
            edit_type,
            run(
                x,
                seq![UpdateView::PushPathComponents(components), UpdateView::PushEditLogPath, UpdateView::Pop],
            ).unwrap(),
            tokens + mapped(flatten_components(components), PathPointParam),
            strings,
        ),
{
    reveal(step);
    let flat = flatten_components(components);
    lemma_run_3(x, UpdateView::PushPathComponents(components), UpdateView::PushEditLogPath, UpdateView::Pop);
    let staged = step(x, UpdateView::PushPathComponents(components)).unwrap();
    assert(staged.tables.path_points.len() == x.tables.path_points.len() + flat.len());
    assert(step(staged, UpdateView::PushEditLogPath).unwrap().tables.path_points == staged.tables.path_points);
    assert(staged.peek(1) == base.tables.edit_log.len() as i64);
    assert(staged.is_open(staged.peek(1)));
    let row = staged.tables.paths.last();
    assert(run_of(staged.tables.path_points, row.first, row.count).unwrap() =~= flat);
    let logged = step(staged, UpdateView::PushEditLogPath).unwrap();
    let y = step(logged, UpdateView::Pop).unwrap();
    assert(y.stack =~= base.stack);
    assert(y.tables.edit_params =~= base.tables.edit_params + (tokens + mapped(flat, PathPointParam)));
}

/// Recording the points of a path of plain points and taking the entry from
/// the stack closes it.
pub proof fn lemma_record_plain_points(
    base: Machine,
    edit_type: EditLogType,
    x: Machine,
    tokens: Seq<EditLogParam>,
    strings: Seq<Seq<char>>,
    points: Seq<Coord>,
)
    requires
        writing(base, edit_type, x, tokens, strings),
        run(x, seq![UpdateView::PushPath(points), UpdateView::PushEditLogPath, UpdateView::Pop]) is Ok,
        run(
            x,
            seq![UpdateView::PushPath(points), UpdateView::PushEditLogPath, UpdateView::Pop],
        ).unwrap().tables.path_points.len() <= usize::MAX,
    ensures
        written(
            base,
            edit_type,
            run(x, seq![UpdateView::PushPath(points), UpdateView::PushEditLogPath, UpdateView::Pop]).unwrap(),
            tokens + mapped(plain_points(points), PathPointParam),
            strings,
        ),
{
    reveal(step);
    let flat = plain_points(points);
    lemma_run_3(x, UpdateView::PushPath(points), UpdateView::PushEditLogPath, UpdateView::Pop);
    let staged = step(x, UpdateView::PushPath(points)).unwrap();
    assert(staged.tables.path_points.len() == x.tables.path_points.len() + flat.len());
    assert(step(staged, UpdateView::PushEditLogPath).unwrap().tables.path_points == staged.tables.path_points);
    assert(staged.peek(1) == base.tables.edit_log.len() as i64);
    assert(staged.is_open(staged.peek(1)));
    let row = staged.tables.paths.last();
    assert(run_of(staged.tables.path_points, row.first, row.count).unwrap() =~= flat);
    let logged = step(staged, UpdateView::PushEditLogPath).unwrap();
    let y = step(logged, UpdateView::Pop).unwrap();
    assert(y.stack =~= base.stack);
    assert(y.tables.edit_params =~= base.tables.edit_params + (tokens + mapped(flat, PathPointParam)));
}

/// Recording each id of a list at its position.
pub proof fn lemma_record_entries(
    base: Machine,
    edit_type: EditLogType,
    x: Machine,
    tokens: Seq<EditLogParam>,
    strings: Seq<Seq<char>>,
    ids: Seq<ElementId>,
)
    requires
        writing(base, edit_type, x, tokens, strings),
    ensures
        run(x, element_id_entries(ids)) is Ok,
        writing(base, edit_type, run(x, element_id_entries(ids)).unwrap(), tokens + id_entries(ids), strings),
    decreases ids.len(),
{
    let updates = element_id_entries(ids);
    if ids.len() == 0 {
        assert(tokens + id_entries(ids) =~= tokens);
    } else {
        let rest = ids.drop_last();
        lemma_record_entries(base, edit_type, x, tokens, strings, rest);
        assert(updates.drop_last() =~= element_id_entries(rest));
        let before = run(x, element_id_entries(rest)).unwrap();
        lemma_record(base, edit_type, before, tokens + id_entries(rest), strings, updates.last());
        assert((tokens + id_entries(rest)).push(recorded(updates.last()).unwrap()) =~= tokens + id_entries(ids));
    }
}

/// Recording a list of element ids.
pub proof fn lemma_record_id_list(
    base: Machine,
    edit_type: EditLogType,
    x: Machine,
    tokens: Seq<EditLogParam>,
    strings: Seq<Seq<char>>,
    ids: Seq<ElementId>,
)
    requires
        writing(base, edit_type, x, tokens, strings),
    ensures
        run(x, element_id_list_updates(ids)) is Ok,
        writing(
            base,
            edit_type,
            run(x, element_id_list_updates(ids)).unwrap(),
            tokens + id_list_tokens(ids),
            strings,
        ),
{
    let count = UpdateView::PushEditLogElementCount(ids.len() as usize);
    lemma_run_concat(x, seq![count], element_id_entries(ids));
    lemma_run_1(x, count);
    lemma_record(base, edit_type, x, tokens, strings, count);
    let counted = step(x, count).unwrap();
    lemma_record_entries(base, edit_type, counted, tokens.push(recorded(count).unwrap()), strings, ids);
    assert(tokens.push(recorded(count).unwrap()) + id_entries(ids) =~= tokens + id_list_tokens(ids));
}

/// The rows of time points made one after the other, with ids counted up from
/// `start`.
pub open spec fn new_time_points(start: int, points: Seq<TimePoint>) -> Seq<TimePointRow> {
    Seq::new(points.len(), |i: int| TimePointRow { id: (start + i) as i64, point: points[i] })
}

/// The ids counted up from `start`.
pub open spec fn new_ids(start: int, n: nat) -> Seq<i64> {
    Seq::new(n, |i: int| (start + i) as i64)
}

/// Making time points leaves them in the table and their ids on the stack and
/// changes nothing else but the id that the next row gets.
pub proof fn lemma_stage_time_points(x: Machine, points: Seq<TimePoint>)
    requires
        run(x, time_point_updates(points)) is Ok,
    ensures
        x.tables.next_id + points.len() <= i64::MAX,
        run(x, time_point_updates(points)).unwrap() == (Machine {
            tables: TablesView {
                next_id: (x.tables.next_id + points.len()) as i64,
                time_points: x.tables.time_points + new_time_points(x.tables.next_id as int, points),
                ..x.tables
            },
            stack: x.stack + new_ids(x.tables.next_id as int, points.len()),
        }),
    decreases points.len(),
{
    let updates = time_point_updates(points);
    let start = x.tables.next_id as int;
    if points.len() == 0 {
        assert(x.tables.time_points + new_time_points(start, points) =~= x.tables.time_points);
        assert(x.stack + new_ids(start, 0) =~= x.stack);
    } else {
        let rest = points.drop_last();
        assert(updates.drop_last() =~= time_point_updates(rest));
        lemma_stage_time_points(x, rest);
        let before = run(x, time_point_updates(rest)).unwrap();
        reveal(step);
        let after = step(before, updates.last()).unwrap();
        assert(after.tables.time_points =~= x.tables.time_points + new_time_points(start, points));
        assert(after.stack =~= x.stack + new_ids(start, points.len()));
    }
}

/// A time point that was just made is found by its id.
proof fn lemma_find_new_time_point(old: Seq<TimePointRow>, start: int, points: Seq<TimePoint>, k: int, j: int)
    requires
        0 <= k < j <= points.len(),
        i64::MIN <= start,
        start + points.len() <= i64::MAX,
    ensures
        find_key((old + new_time_points(start, points)).take(old.len() + j), (start + k) as i64) == Some(
            old.len() + k,
        ),
    decreases j,
{
    let all = old + new_time_points(start, points);
    let part = all.take(old.len() + j);
    assert(part.last() == new_time_points(start, points)[j - 1]);
    if j > k + 1 {
        assert(part.drop_last() =~= all.take(old.len() + j - 1));
        lemma_find_new_time_point(old, start, points, k, j - 1);
    }
}

/// Time points that were just made are found by their ids.
proof fn lemma_lookup_new_time_points(old: Seq<TimePointRow>, start: int, points: Seq<TimePoint>, k: int)
    requires
        0 <= k <= points.len(),
        i64::MIN <= start,
        start + points.len() <= i64::MAX,
    ensures
        lookup_time_points(old + new_time_points(start, points), new_ids(start, k as nat)) == Some(points.take(k)),
    decreases k,
{
    let all = old + new_time_points(start, points);
    if k == 0 {
        assert(points.take(0) =~= Seq::empty());
    } else {
        lemma_lookup_new_time_points(old, start, points, k - 1);
        assert(new_ids(start, k as nat).drop_last() =~= new_ids(start, (k - 1) as nat));
        lemma_find_new_time_point(old, start, points, k - 1, points.len() as int);
        assert(all.take((old.len() + points.len()) as int) =~= all);
        assert(all[old.len() + k - 1].point == points[k - 1]);
        assert(points.take(k - 1).push(points[k - 1]) =~= points.take(k));
    }
}

/// Recording the points of a curve and taking the entry from the stack closes
/// the entry.
pub proof fn lemma_record_curve(
    base: Machine,
    edit_type: EditLogType,
    x: Machine,
    tokens: Seq<EditLogParam>,
    strings: Seq<Seq<char>>,
    curve: Seq<TimeControlPoint>,
)
    requires
        writing(base, edit_type, x, tokens, strings),
        run(
            x,
            time_point_updates(curve_points(curve)) + seq![
                UpdateView::PushEditLogMotionPath((3 * curve.len()) as usize),
                UpdateView::Pop,
            ],
        ) is Ok,
        run(
            x,
            time_point_updates(curve_points(curve)) + seq![
                UpdateView::PushEditLogMotionPath((3 * curve.len()) as usize),
                UpdateView::Pop,
            ],
        ).unwrap().tables.time_points.len() <= usize::MAX,
    ensures
        written(
            base,
            edit_type,
            run(
                x,
                time_point_updates(curve_points(curve)) + seq![
                    UpdateView::PushEditLogMotionPath((3 * curve.len()) as usize),
                    UpdateView::Pop,
                ],
            ).unwrap(),
            tokens + mapped(curve_points(curve), TimePointParam),
            strings,
        ),
{
    let points = curve_points(curve);
    let n = points.len();
    lemma_parse_curve(curve);
    let record = UpdateView::PushEditLogMotionPath((3 * curve.len()) as usize);
    lemma_run_concat(x, time_point_updates(points), seq![record, UpdateView::Pop]);
    lemma_stage_time_points(x, points);
    let staged = run(x, time_point_updates(points)).unwrap();
    lemma_run_2(staged, record, UpdateView::Pop);
    lemma_run_grows(staged, seq![record, UpdateView::Pop]);
    assert(staged.tables.time_points.len() == x.tables.time_points.len() + n);
    lemma_lookup_new_time_points(x.tables.time_points, x.tables.next_id as int, points, n as int);
    assert(points.take(n as int) =~= points);
    assert(staged.top(n as int) =~= new_ids(x.tables.next_id as int, n));
    assert(staged.peek(n as int) == base.tables.edit_log.len() as i64);
    assert(staged.is_open(staged.peek(n as int)));
    assert(staged.popped(n as int) =~= x.stack);
    reveal(step);
    let logged = step(staged, record).unwrap();
    let y = step(logged, UpdateView::Pop).unwrap();
    assert(y.stack =~= base.stack);
    assert(y.tables.edit_params =~= base.tables.edit_params + (tokens + mapped(points, TimePointParam)));
}

} // verus!
