//! The edit log gives back the edits that were written to it.

use vstd::prelude::*;
use crate::animation::edit::{AnimationEditView, LayerEditView};
use crate::db::db_enum::{edit_log_type, EditLogType};
use crate::db::edit_stream::decode_edit;
use crate::db::insert_editlog::{edit_log_updates, edits_log_updates};
use crate::db::rows::{EditLogParam, EditLogRow, TablesView};
use crate::db::step::{run, Machine};
use crate::laws::frame::{fits, grown, lemma_run_grows, same_log, starts_with};
use crate::laws::symbolic::lemma_run_concat;
use crate::laws::tokens::{edit_tokens, lemma_tokens_spell_edit};
use crate::laws::written::{lemma_write_edit, strings_with};
use crate::laws::writer::written;

verus! {

/// True if the edit log is in order: the parameters of each entry start where
/// those of the entry before it end, none starts beyond the parameters that
/// there are, and every string that a parameter names is there.
pub open spec fn log_in_order(t: TablesView) -> bool {
    &&& forall|i: int|
        0 <= i < t.edit_log.len() ==> (#[trigger] t.edit_log[i]).first_param <= t.params_end(i)
            <= t.edit_params.len()
    &&& forall|j: int|
        0 <= j < t.edit_params.len() ==> (#[trigger] t.edit_params[j] matches EditLogParam::Text(_, at) ==> at
            < t.strings.len())
}

/// What an entry spells does not depend on strings that none of its
/// parameters names.
proof fn lemma_decode_stable(
    edit_type: EditLogType,
    params: Seq<EditLogParam>,
    before: Seq<Seq<char>>,
    after: Seq<Seq<char>>,
)
    requires
        starts_with(after, before),
        forall|j: int|
            0 <= j < params.len() ==> (#[trigger] params[j] matches EditLogParam::Text(_, at) ==> at
                < before.len()),
    ensures
        decode_edit(edit_type, params, after) == decode_edit(edit_type, params, before),
{
    if params.len() >= 2 {
        assert(params.skip(1)[0] == params[1]);
    }
}

/// Tables with the same edit log spell the same edits.
pub proof fn lemma_same_log_same_edits(before: TablesView, after: TablesView, i: int)
    requires
        log_in_order(before),
        same_log(before, after),
    ensures
        after.edit_at(i) == before.edit_at(i),
        log_in_order(after),
{
    if 0 <= i < before.edit_log.len() {
        let params = before.edit_log_params(i).unwrap();
        assert forall|j: int| 0 <= j < params.len() implies (#[trigger] params[j] matches EditLogParam::Text(
            _,
            at,
        ) ==> at < before.strings.len()) by {
            assert(params[j] == before.edit_params[before.edit_log[i].first_param + j]);
        }
        lemma_decode_stable(before.edit_log[i].edit_type, params, before.strings, after.strings);
    }
    assert forall|i: int| 0 <= i < after.edit_log.len() implies (#[trigger] after.edit_log[i]).first_param
        <= after.params_end(i) <= after.edit_params.len() by {
        assert(before.edit_log[i].first_param <= before.params_end(i));
    }
}

/// The entry that was written last spells the edit that was written, and the
/// entries before it spell what they spelled.
pub proof fn lemma_entry_reads_back(base: Machine, y: Machine, edit: AnimationEditView)
    requires
        log_in_order(base.tables),
        fits(y.tables),
        written(
            base,
            edit_log_type(edit),
            y,
            edit_tokens(edit, base.tables.strings.len() as usize),
            strings_with(base.tables.strings, edit),
        ),
    ensures
        log_in_order(y.tables),
        y.tables.edit_log.len() == base.tables.edit_log.len() + 1,
        y.tables.edit_at(base.tables.edit_log.len() as int) == Some(edit),
        forall|i: int| 0 <= i < base.tables.edit_log.len() ==> y.tables.edit_at(i) == base.tables.edit_at(i),
{
    let t = base.tables;
    let u = y.tables;
    let n = t.edit_log.len() as int;
    let at = t.strings.len() as usize;
    let tokens = edit_tokens(edit, at);
    assert(u.edit_params.len() == t.edit_params.len() + tokens.len());
    assert(u.edit_log[n].first_param == t.edit_params.len());
    assert(u.params_end(n) == u.edit_params.len());
    assert(u.edit_log_params(n).unwrap() =~= tokens);
    lemma_tokens_spell_edit(edit, at, u.strings);
    // The entries before the new one
    assert forall|i: int| 0 <= i < n implies u.edit_at(i) == t.edit_at(i) by {
        assert(u.edit_log[i] == t.edit_log[i]);
        assert(t.edit_log[i].first_param <= t.params_end(i) <= t.edit_params.len());
        if i + 1 < n {
            assert(u.edit_log[i + 1] == t.edit_log[i + 1]);
        }
        assert(u.params_end(i) == t.params_end(i));
        let params = t.edit_log_params(i).unwrap();
        assert(u.edit_log_params(i).unwrap() =~= params);
        assert forall|j: int| 0 <= j < params.len() implies (#[trigger] params[j] matches EditLogParam::Text(
            _,
            text,
        ) ==> text < t.strings.len()) by {
            assert(params[j] == t.edit_params[t.edit_log[i].first_param + j]);
        }
        lemma_decode_stable(t.edit_log[i].edit_type, params, t.strings, u.strings);
    }
    // The log is still in order
    assert forall|i: int| 0 <= i < u.edit_log.len() implies (#[trigger] u.edit_log[i]).first_param
        <= u.params_end(i) <= u.edit_params.len() by {
        if i < n {
            assert(u.edit_log[i] == t.edit_log[i]);
            assert(t.edit_log[i].first_param <= t.params_end(i) <= t.edit_params.len());
            if i + 1 < n {
                assert(u.edit_log[i + 1] == t.edit_log[i + 1]);
            }
        }
    }
    assert forall|j: int| 0 <= j < u.edit_params.len() implies (#[trigger] u.edit_params[j] matches EditLogParam::Text(
        _,
        text,
    ) ==> text < u.strings.len()) by {
        if j < t.edit_params.len() {
            assert(u.edit_params[j] == t.edit_params[j]);
        } else {
            assert(u.edit_params[j] == tokens[j - t.edit_params.len()]);
            lemma_text_tokens(edit, at, j - t.edit_params.len());
        }
    }
}

/// The only string that the parameters of an edit name is the one at `at`, and
/// they name it only if the edit gives a layer its name.
proof fn lemma_text_tokens(edit: AnimationEditView, at: usize, j: int)
    requires
        0 <= j < edit_tokens(edit, at).len(),
    ensures
        edit_tokens(edit, at)[j] matches EditLogParam::Text(_, text) ==> text == at
            && edit matches AnimationEditView::Layer(_, LayerEditView::SetName(_)),
{
}

/// The edit log gives back the edits that were written to it, in the order in
/// which they were written, and what it held before is still there.
pub proof fn lemma_log_round_trip(base: Machine, edits: Seq<AnimationEditView>)
    requires
        log_in_order(base.tables),
        run(base, edits_log_updates(edits)) is Ok,
        fits(run(base, edits_log_updates(edits)).unwrap().tables),
    ensures
        ({
            let y = run(base, edits_log_updates(edits)).unwrap();
            &&& log_in_order(y.tables)
            &&& y.stack == base.stack
            &&& y.tables.edit_log.len() == base.tables.edit_log.len() + edits.len()
            &&& forall|k: int|
                0 <= k < edits.len() ==> y.tables.edit_at(base.tables.edit_log.len() + k) == Some(edits[k])
            &&& forall|i: int|
                0 <= i < base.tables.edit_log.len() ==> y.tables.edit_at(i) == base.tables.edit_at(i)
        }),
    decreases edits.len(),
{
    if edits.len() > 0 {
        let rest = edits.drop_last();
        let last = edits.last();
        lemma_run_concat(base, edits_log_updates(rest), edit_log_updates(last));
        let before = run(base, edits_log_updates(rest)).unwrap();
        let y = run(before, edit_log_updates(last)).unwrap();
        lemma_run_grows(before, edit_log_updates(last));
        lemma_log_round_trip(base, rest);
        lemma_write_edit(before, last);
        lemma_entry_reads_back(before, y, last);
        assert forall|k: int| 0 <= k < edits.len() implies y.tables.edit_at(base.tables.edit_log.len() + k)
            == Some(edits[k]) by {
            if k < rest.len() {
                assert(rest[k] == edits[k]);
            }
        }
    }
}

/// The edits that were written to an empty edit log are the edits that the
/// log spells from its start to its end.
pub proof fn lemma_edits_between(t: TablesView, start: int, edits: Seq<AnimationEditView>)
    requires
        forall|k: int| 0 <= k < edits.len() ==> t.edit_at(start + k) == Some(edits[k]),
    ensures
        t.edits_between(start, start + edits.len()) == Some(edits),
    decreases edits.len(),
{
    if edits.len() > 0 {
        let rest = edits.drop_last();
        assert forall|k: int| 0 <= k < rest.len() implies t.edit_at(start + k) == Some(rest[k]) by {
            assert(rest[k] == edits[k]);
        }
        lemma_edits_between(t, start, rest);
        assert(rest.push(edits.last()) =~= edits);
    } else {
        assert(edits =~= Seq::empty());
    }
}

} // verus!
