//! Rows and keys: the vocabulary in which the credential store states its
//! uniqueness rules and its row counts.
//!
//! A table is a sequence of rows; a key is an integer read off a row by a
//! key function. Everything here is ghost code: definitions and lemmas.

use vstd::prelude::*;

verus! {

/// How many rows of `rows` carry `key`.
pub open spec fn count_key<A>(rows: Seq<A>, key_of: spec_fn(A) -> int, key: int) -> nat
    decreases rows.len(),
{
    if rows.len() == 0 {
        0
    } else {
        count_key(rows.drop_last(), key_of, key) + if key_of(rows.last()) == key {
            1nat
        } else {
            0nat
        }
    }
}

/// The rows of `rows` that do not carry `key`, in their order.
pub open spec fn without_key<A>(rows: Seq<A>, key_of: spec_fn(A) -> int, key: int) -> Seq<A>
    decreases rows.len(),
{
    if rows.len() == 0 {
        rows
    } else if key_of(rows.last()) == key {
        without_key(rows.drop_last(), key_of, key)
    } else {
        without_key(rows.drop_last(), key_of, key).push(rows.last())
    }
}

/// Some row of `rows` carries `key`.
pub open spec fn has_key<A>(rows: Seq<A>, key_of: spec_fn(A) -> int, key: int) -> bool {
    exists|i: int| 0 <= i < rows.len() && key_of(#[trigger] rows[i]) == key
}

/// No two rows of `rows` carry the same key.
pub open spec fn unique_keys<A>(rows: Seq<A>, key_of: spec_fn(A) -> int) -> bool {
    forall|i: int, j: int|
        0 <= i < j < rows.len() ==> key_of(#[trigger] rows[i]) != key_of(#[trigger] rows[j])
}

/// Appending a row raises the count of its own key by one and no other.
pub proof fn lemma_count_push<A>(rows: Seq<A>, row: A, key_of: spec_fn(A) -> int, key: int)
    ensures
        count_key(rows.push(row), key_of, key) == count_key(rows, key_of, key) + (if key_of(row)
            == key {
            1nat
        } else {
            0nat
        }),
{
    assert(rows.push(row).drop_last() =~= rows);
}


/// A key that no row carries is counted zero times, and dropping it changes
/// nothing.
pub proof fn lemma_absent_key<A>(rows: Seq<A>, key_of: spec_fn(A) -> int, key: int)
    requires
        !has_key(rows, key_of, key),
    ensures
        count_key(rows, key_of, key) == 0,
        without_key(rows, key_of, key) == rows,
    decreases rows.len(),
{
    if rows.len() > 0 {
        let front = rows.drop_last();
        assert forall|i: int| 0 <= i < front.len() implies key_of(#[trigger] front[i]) != key by {
            assert(front[i] == rows[i]);
        }
        lemma_absent_key(front, key_of, key);
        assert(rows.last() == rows[rows.len() - 1]);
        assert(front.push(rows.last()) =~= rows);
    }
}


/// In a table without repeated keys, the key of row `at` is counted once, and
/// dropping it removes that row alone.
pub proof fn lemma_present_key<A>(rows: Seq<A>, key_of: spec_fn(A) -> int, at: int)
    requires
        unique_keys(rows, key_of),
        0 <= at < rows.len(),
    ensures
        count_key(rows, key_of, key_of(rows[at])) == 1,
        without_key(rows, key_of, key_of(rows[at])) == rows.remove(at),
    decreases rows.len(),
{
    let key = key_of(rows[at]);
    let front = rows.drop_last();
    let last = rows.len() - 1;
    assert(rows.last() == rows[last]);
    assert forall|i: int, j: int| 0 <= i < j < front.len() implies key_of(#[trigger] front[i])
        != key_of(#[trigger] front[j]) by {
        assert(front[i] == rows[i] && front[j] == rows[j]);
    }
    if at == last {
        assert forall|i: int| 0 <= i < front.len() implies key_of(#[trigger] front[i]) != key by {
            assert(front[i] == rows[i]);
        }
        lemma_absent_key(front, key_of, key);
        assert(rows.remove(at) =~= front);
    } else {
        assert(front[at] == rows[at]);
        lemma_present_key(front, key_of, at);
        assert(key_of(rows[at]) != key_of(rows[last]));
        assert(front.remove(at).push(rows.last()) =~= rows.remove(at));
    }
}

/// After a key is dropped no row carries it, and every other key is counted
/// as before.
pub proof fn lemma_count_without<A>(
    rows: Seq<A>,
    key_of: spec_fn(A) -> int,
    dropped: int,
    key: int,
)
    ensures
        count_key(without_key(rows, key_of, dropped), key_of, key) == (if key == dropped {
            0nat
        } else {
            count_key(rows, key_of, key)
        }),
    decreases rows.len(),
{
    if rows.len() > 0 {
        let front = rows.drop_last();
        lemma_count_without(front, key_of, dropped, key);
        if key_of(rows.last()) != dropped {
            lemma_count_push(without_key(front, key_of, dropped), rows.last(), key_of, key);
        }
    }
}

/// A table without repeated keys counts each key at most once.
pub proof fn lemma_unique_count<A>(rows: Seq<A>, key_of: spec_fn(A) -> int, key: int)
    requires
        unique_keys(rows, key_of),
    ensures
        count_key(rows, key_of, key) <= 1,
        count_key(rows, key_of, key) == 1 <==> has_key(rows, key_of, key),
{
    if has_key(rows, key_of, key) {
        let at = choose|i: int| 0 <= i < rows.len() && key_of(#[trigger] rows[i]) == key;
        lemma_present_key(rows, key_of, at);
    } else {
        lemma_absent_key(rows, key_of, key);
    }
}

/// A table that ends in `row` holds `row` and what the table before it held.
pub proof fn lemma_contains_push<A>(rows: Seq<A>, row: A, other: A)
    ensures
        rows.push(row).contains(other) <==> rows.contains(other) || other == row,
{
    let longer = rows.push(row);
    if longer.contains(other) {
        let i = choose|i: int| 0 <= i < longer.len() && longer[i] == other;
        if i < rows.len() {
            assert(rows[i] == other);
        }
    }
    if rows.contains(other) {
        let i = choose|i: int| 0 <= i < rows.len() && rows[i] == other;
        assert(longer[i] == other);
    }
    if other == row {
        assert(longer[rows.len() as int] == other);
    }
}

/// Dropping a key keeps exactly the rows that carry another key.
pub proof fn lemma_without_rows<A>(rows: Seq<A>, key_of: spec_fn(A) -> int, key: int)
    ensures
        forall|row: A| #[trigger]
            without_key(rows, key_of, key).contains(row) <==> rows.contains(row) && key_of(row)
                != key,
    decreases rows.len(),
{
    let kept = without_key(rows, key_of, key);
    if rows.len() > 0 {
        let front = rows.drop_last();
        let last = rows.last();
        lemma_without_rows(front, key_of, key);
        assert(front.push(last) =~= rows);
        assert forall|row: A| #[trigger]
            kept.contains(row) <==> rows.contains(row) && key_of(row) != key by {
            let kept_front = without_key(front, key_of, key);
            assert(kept_front.contains(row) <==> front.contains(row) && key_of(row) != key);
            lemma_contains_push(front, last, row);
            assert(rows.contains(row) <==> front.contains(row) || row == last);
            if key_of(last) != key {
                assert(kept == kept_front.push(last));
                lemma_contains_push(kept_front, last, row);
            } else {
                assert(kept == kept_front);
            }
        }
    }
}

/// Dropping a key leaves no two rows alike in any key in which no two rows
/// were alike before.
pub proof fn lemma_without_unique<A>(
    rows: Seq<A>,
    dropped_by: spec_fn(A) -> int,
    dropped: int,
    key_of: spec_fn(A) -> int,
)
    requires
        unique_keys(rows, key_of),
    ensures
        unique_keys(without_key(rows, dropped_by, dropped), key_of),
    decreases rows.len(),
{
    if rows.len() > 0 {
        let front = rows.drop_last();
        let last = rows.last();
        let end = rows.len() - 1;
        assert forall|i: int, j: int| 0 <= i < j < front.len() implies key_of(#[trigger] front[i])
            != key_of(#[trigger] front[j]) by {
            assert(front[i] == rows[i] && front[j] == rows[j]);
        }
        lemma_without_unique(front, dropped_by, dropped, key_of);
        if dropped_by(last) != dropped {
            let kept_front = without_key(front, dropped_by, dropped);
            let kept = kept_front.push(last);
            lemma_without_rows(front, dropped_by, dropped);
            assert forall|i: int, j: int| 0 <= i < j < kept.len() implies key_of(
                #[trigger] kept[i],
            ) != key_of(#[trigger] kept[j]) by {
                if j == kept_front.len() {
                    assert(kept_front.contains(kept_front[i]));
                    assert(front.contains(kept[i]));
                    let m = choose|m: int| 0 <= m < front.len() && front[m] == kept[i];
                    assert(rows[m] == kept[i] && rows[end] == kept[j]);
                } else {
                    assert(kept[i] == kept_front[i] && kept[j] == kept_front[j]);
                }
            }
        }
    }
}

/// A key that some row carries is still carried after another key is dropped.
pub proof fn lemma_without_keeps<A>(
    rows: Seq<A>,
    dropped_by: spec_fn(A) -> int,
    dropped: int,
    key_of: spec_fn(A) -> int,
    at: int,
)
    requires
        0 <= at < rows.len(),
        dropped_by(rows[at]) != dropped,
    ensures
        has_key(without_key(rows, dropped_by, dropped), key_of, key_of(rows[at])),
{
    let kept = without_key(rows, dropped_by, dropped);
    lemma_without_rows(rows, dropped_by, dropped);
    assert(rows.contains(rows[at]));
    assert(kept.contains(rows[at]));
    let m = choose|m: int| 0 <= m < kept.len() && kept[m] == rows[at];
    assert(key_of(kept[m]) == key_of(rows[at]));
}

/// A key that a row carries after another key was dropped was carried
/// before, by a row that did not carry the dropped key.
pub proof fn lemma_without_came_from<A>(
    rows: Seq<A>,
    dropped_by: spec_fn(A) -> int,
    dropped: int,
    at: int,
) -> (origin: int)
    requires
        0 <= at < without_key(rows, dropped_by, dropped).len(),
    ensures
        0 <= origin < rows.len(),
        rows[origin] == without_key(rows, dropped_by, dropped)[at],
        dropped_by(rows[origin]) != dropped,
{
    let kept = without_key(rows, dropped_by, dropped);
    lemma_without_rows(rows, dropped_by, dropped);
    assert(kept.contains(kept[at]));
    assert(rows.contains(kept[at]));
    choose|m: int| 0 <= m < rows.len() && rows[m] == kept[at]
}

} // verus!
