//! Rows with a key, and the two operations every table of the store is built
//! from: finding the newest row with a key, and dropping the rows with a key.

use vstd::prelude::*;

verus! {

/// A row that is found by an integer key.
pub trait Keyed: Copy {
    /// The key of this row.
    spec fn key(&self) -> i64;

    /// The key of this row.
    fn get_key(&self) -> (k: i64)
        ensures
            k == self.key(),
    ;
}

/// The position of the newest row with the key `id`.
pub open spec fn find_key<T: Keyed>(rows: Seq<T>, id: i64) -> Option<int>
    decreases rows.len(),
{
    if rows.len() == 0 {
        None
    } else if rows.last().key() == id {
        Some(rows.len() - 1)
    } else {
        find_key(rows.drop_last(), id)
    }
}

/// The rows whose key is not `id`, in their order.
pub open spec fn without_key<T: Keyed>(rows: Seq<T>, id: i64) -> Seq<T>
    decreases rows.len(),
{
    if rows.len() == 0 {
        rows
    } else if rows.last().key() == id {
        without_key(rows.drop_last(), id)
    } else {
        without_key(rows.drop_last(), id).push(rows.last())
    }
}

/// What `find_key` finds is a row with that key, and no newer row has it.
pub proof fn lemma_find_key<T: Keyed>(rows: Seq<T>, id: i64)
    ensures
        match find_key(rows, id) {
            Some(i) => 0 <= i < rows.len() && rows[i].key() == id && forall|j: int|
                i < j < rows.len() ==> rows[j].key() != id,
            None => forall|j: int| 0 <= j < rows.len() ==> rows[j].key() != id,
        },
    decreases rows.len(),
{
    if rows.len() > 0 && rows.last().key() != id {
        lemma_find_key(rows.drop_last(), id);
        assert forall|j: int| 0 <= j < rows.len() - 1 implies rows.drop_last()[j] == rows[j] by {}
        match find_key(rows, id) {
            Some(i) => {
                assert forall|j: int| i < j < rows.len() implies rows[j].key() != id by {
                    if j < rows.len() - 1 {
                        assert(rows.drop_last()[j].key() != id);
                    }
                }
            },
            None => {
                assert forall|j: int| 0 <= j < rows.len() implies rows[j].key() != id by {
                    if j < rows.len() - 1 {
                        assert(rows.drop_last()[j].key() != id);
                    }
                }
            },
        }
    }
}

/// Finds the newest row with the key `id`.
pub fn find_by_key<T: Keyed>(rows: &Vec<T>, id: i64) -> (r: Option<usize>)
    ensures
        r matches Some(i) ==> i < rows@.len() && rows@[i as int].key() == id,
        match r {
            Some(i) => find_key(rows@, id) == Some(i as int),
            None => find_key(rows@, id) is None,
        },
{
    let mut found: Option<usize> = None;
    let mut i: usize = 0;
    while i < rows.len()
        invariant
            i <= rows@.len(),
            match found {
                Some(k) => find_key(rows@.take(i as int), id) == Some(k as int),
                None => find_key(rows@.take(i as int), id) is None,
            },
        decreases rows.len() - i,
    {
        proof {
            assert(rows@.take(i + 1).drop_last() =~= rows@.take(i as int));
        }
        if rows[i].get_key() == id {
            found = Some(i);
        }
        i += 1;
    }
    proof {
        assert(rows@.take(i as int) =~= rows@);
        lemma_find_key(rows@, id);
    }
    found
}

/// Drops the rows with the key `id`.
pub fn remove_by_key<T: Keyed>(rows: &Vec<T>, id: i64) -> (r: Vec<T>)
    ensures
        r@ == without_key(rows@, id),
{
    let mut kept: Vec<T> = Vec::new();
    let mut i: usize = 0;
    while i < rows.len()
        invariant
            i <= rows@.len(),
            kept@ == without_key(rows@.take(i as int), id),
        decreases rows.len() - i,
    {
        proof {
            assert(rows@.take(i + 1).drop_last() =~= rows@.take(i as int));
        }
        if rows[i].get_key() != id {
            kept.push(rows[i]);
        }
        i += 1;
    }
    proof {
        assert(rows@.take(i as int) =~= rows@);
    }
    kept
}

/// A test that picks rows out of a table.
pub trait Matcher<T>: Copy {
    /// True of the rows that the test picks.
    spec fn matches(&self, row: T) -> bool;

    /// True of the rows that the test picks.
    fn test(&self, row: &T) -> (r: bool)
        ensures
            r == self.matches(*row),
    ;
}

/// The position of the newest row that `m` picks.
pub open spec fn find_match<T, M: Matcher<T>>(rows: Seq<T>, m: M) -> Option<int>
    decreases rows.len(),
{
    if rows.len() == 0 {
        None
    } else if m.matches(rows.last()) {
        Some(rows.len() - 1)
    } else {
        find_match(rows.drop_last(), m)
    }
}

/// The rows that `m` does not pick, in their order.
pub open spec fn without_match<T, M: Matcher<T>>(rows: Seq<T>, m: M) -> Seq<T>
    decreases rows.len(),
{
    if rows.len() == 0 {
        rows
    } else if m.matches(rows.last()) {
        without_match(rows.drop_last(), m)
    } else {
        without_match(rows.drop_last(), m).push(rows.last())
    }
}

/// What `find_match` finds is a row that the test picks, and it picks no newer one.
pub proof fn lemma_find_match<T, M: Matcher<T>>(rows: Seq<T>, m: M)
    ensures
        match find_match(rows, m) {
            Some(i) => 0 <= i < rows.len() && m.matches(rows[i]) && forall|j: int|
                i < j < rows.len() ==> !m.matches(rows[j]),
            None => forall|j: int| 0 <= j < rows.len() ==> !m.matches(rows[j]),
        },
    decreases rows.len(),
{
    if rows.len() > 0 && !m.matches(rows.last()) {
        lemma_find_match(rows.drop_last(), m);
        assert forall|j: int| 0 <= j < rows.len() - 1 implies rows.drop_last()[j] == rows[j] by {}
        match find_match(rows, m) {
            Some(i) => {
                assert forall|j: int| i < j < rows.len() implies !m.matches(rows[j]) by {
                    if j < rows.len() - 1 {
                        assert(!m.matches(rows.drop_last()[j]));
                    }
                }
            },
            None => {
                assert forall|j: int| 0 <= j < rows.len() implies !m.matches(rows[j]) by {
                    if j < rows.len() - 1 {
                        assert(!m.matches(rows.drop_last()[j]));
                    }
                }
            },
        }
    }
}

/// A test picks none of the rows that are left once its rows are dropped, and
/// every row that is left was there before.
pub proof fn lemma_without_match<T, M: Matcher<T>>(rows: Seq<T>, m: M)
    ensures
        find_match(without_match(rows, m), m) is None,
        without_match(rows, m).len() <= rows.len(),
        forall|j: int|
            0 <= j < without_match(rows, m).len() ==> !m.matches(
                #[trigger] without_match(rows, m)[j],
            ) && rows.contains(without_match(rows, m)[j]),
        forall|i: int|
            0 <= i < rows.len() && !m.matches(#[trigger] rows[i]) ==> without_match(
                rows,
                m,
            ).contains(rows[i]),
    decreases rows.len(),
{
    if rows.len() > 0 {
        let rest = rows.drop_last();
        lemma_without_match(rest, m);
        let kept = without_match(rows, m);
        assert forall|j: int| 0 <= j < kept.len() implies !m.matches(#[trigger] kept[j])
            && rows.contains(kept[j]) by {
            if j < without_match(rest, m).len() {
                let k = choose|k: int| 0 <= k < rest.len() && rest[k] == without_match(rest, m)[j];
                assert(rows[k] == kept[j]);
            } else {
                assert(rows[rows.len() - 1] == kept[j]);
            }
        }
        assert forall|i: int| 0 <= i < rows.len() && !m.matches(#[trigger] rows[i]) implies kept.contains(
            rows[i],
        ) by {
            if i < rest.len() {
                assert(rest[i] == rows[i]);
                let k = choose|k: int|
                    0 <= k < without_match(rest, m).len() && without_match(rest, m)[k] == rest[i];
                assert(kept[k] == rows[i]);
            } else {
                assert(kept[kept.len() - 1] == rows[i]);
            }
        }
        lemma_find_match(kept, m);
    }
}

/// Dropping the rows that one test picks leaves what another test finds as it
/// was, if the two tests pick no row in common.
pub proof fn lemma_without_other<T, M: Matcher<T>, N: Matcher<T>>(rows: Seq<T>, dropped: M, other: N)
    requires
        forall|row: T| other.matches(row) ==> !dropped.matches(row),
    ensures
        match find_match(rows, other) {
            Some(i) => find_match(without_match(rows, dropped), other) matches Some(j) && without_match(
                rows,
                dropped,
            )[j] == rows[i],
            None => find_match(without_match(rows, dropped), other) is None,
        },
    decreases rows.len(),
{
    if rows.len() > 0 {
        let rest = rows.drop_last();
        let last = rows.last();
        lemma_without_other(rest, dropped, other);
        lemma_find_match(rest, other);
        lemma_find_match(without_match(rest, dropped), other);
        if dropped.matches(last) {
            match find_match(rest, other) {
                Some(i) => {
                    assert(rest[i] == rows[i]);
                },
                None => {},
            }
        } else {
            let kept = without_match(rest, dropped).push(last);
            assert(kept.drop_last() =~= without_match(rest, dropped));
            assert(kept.last() == last);
            if !other.matches(last) {
                match find_match(rest, other) {
                    Some(i) => {
                        assert(rest[i] == rows[i]);
                        let j = find_match(without_match(rest, dropped), other).unwrap();
                        assert(kept[j] == without_match(rest, dropped)[j]);
                    },
                    None => {},
                }
            }
        }
    }
}

/// Finds the newest row that `m` picks.
pub fn find_by_match<T, M: Matcher<T>>(rows: &Vec<T>, m: M) -> (r: Option<usize>)
    ensures
        r matches Some(i) ==> i < rows@.len() && m.matches(rows@[i as int]),
        match r {
            Some(i) => find_match(rows@, m) == Some(i as int),
            None => find_match(rows@, m) is None,
        },
{
    let mut found: Option<usize> = None;
    let mut i: usize = 0;
    while i < rows.len()
        invariant
            i <= rows@.len(),
            match found {
                Some(k) => find_match(rows@.take(i as int), m) == Some(k as int),
                None => find_match(rows@.take(i as int), m) is None,
            },
        decreases rows.len() - i,
    {
        proof {
            assert(rows@.take(i + 1).drop_last() =~= rows@.take(i as int));
        }
        if m.test(&rows[i]) {
            found = Some(i);
        }
        i += 1;
    }
    proof {
        assert(rows@.take(i as int) =~= rows@);
        lemma_find_match(rows@, m);
    }
    found
}

/// Drops the rows that `m` picks.
pub fn remove_matching<T: Copy, M: Matcher<T>>(rows: &Vec<T>, m: M) -> (r: Vec<T>)
    ensures
        r@ == without_match(rows@, m),
{
    let mut kept: Vec<T> = Vec::new();
    let mut i: usize = 0;
    while i < rows.len()
        invariant
            i <= rows@.len(),
            kept@ == without_match(rows@.take(i as int), m),
        decreases rows.len() - i,
    {
        proof {
            assert(rows@.take(i + 1).drop_last() =~= rows@.take(i as int));
        }
        if !m.test(&rows[i]) {
            kept.push(rows[i]);
        }
        i += 1;
    }
    proof {
        assert(rows@.take(i as int) =~= rows@);
    }
    kept
}

/// A way to make one kind of row out of another.
pub trait Mapper<A, B>: Copy {
    /// What is made of `a`.
    spec fn image(&self, a: A) -> B;

    /// Makes a `B` of `a`.
    fn map(&self, a: &A) -> (b: B)
        ensures
            b == self.image(*a),
    ;
}

/// What `m` makes of each of `items`, in their order.
pub open spec fn mapped<A, B, M: Mapper<A, B>>(items: Seq<A>, m: M) -> Seq<B> {
    Seq::new(items.len(), |i: int| m.image(items[i]))
}

/// Adds what `m` makes of each of `items` to the end of `out`.
pub fn extend_mapped<A, B, M: Mapper<A, B>>(out: &mut Vec<B>, items: &Vec<A>, m: M)
    ensures
        final(out)@ == old(out)@ + mapped(items@, m),
{
    let mut i: usize = 0;
    while i < items.len()
        invariant
            i <= items@.len(),
            out@ == old(out)@ + mapped(items@.take(i as int), m),
        decreases items.len() - i,
    {
        let b = m.map(&items[i]);
        out.push(b);
        proof {
            assert(out@ =~= old(out)@ + mapped(items@.take(i + 1), m));
        }
        i += 1;
    }
    proof {
        assert(items@.take(i as int) =~= items@);
    }
}

} // verus!
