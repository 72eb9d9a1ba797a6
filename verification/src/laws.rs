//! Laws of the record table.
//!
//! These proof functions state, once and for all inputs, how Put and Remove
//! compose: repeated Puts for one id never duplicate a row and the last Put
//! wins, a Put of a fresh id followed by its Remove restores the table
//! exactly, and after any sequence of Puts every id's row carries the rates
//! of its final Put — so the recomputed totals sum exactly the final rates.

use vstd::prelude::*;
use crate::store::{
    has_id, idx_of, remove_rows, row_of, set_rows, sum_received, sum_sent, unique_ids,
    lemma_idx_of_row, RecordModel,
};

verus! {

/// How one Put changes the table: ids stay unique, the put id maps to the
/// put record, and every other row is untouched.
pub proof fn lemma_set_rows_props(rows: Seq<RecordModel>, rec: RecordModel)
    requires
        unique_ids(rows),
    ensures
        unique_ids(set_rows(rows, rec)),
        set_rows(rows, rec).len() == if has_id(rows, rec.record_id) {
            rows.len()
        } else {
            rows.len() + 1
        },
        has_id(set_rows(rows, rec), rec.record_id),
        row_of(set_rows(rows, rec), rec.record_id) == rec,
        forall|id: int|
            id != rec.record_id ==> has_id(set_rows(rows, rec), id) == has_id(rows, id),
        forall|id: int|
            id != rec.record_id && has_id(rows, id) ==> row_of(set_rows(rows, rec), id) == row_of(
                rows,
                id,
            ),
{
    let s = set_rows(rows, rec);
    if has_id(rows, rec.record_id) {
        let k = idx_of(rows, rec.record_id);
        assert(0 <= k < rows.len() && rows[k].record_id == rec.record_id);
        assert(forall|m: int| 0 <= m < s.len() ==> s[m].record_id == rows[m].record_id);
        assert(has_id(s, rec.record_id)) by {
            assert(s[k].record_id == rec.record_id);
        }
        lemma_idx_of_row(s, k);
        assert forall|id: int| id != rec.record_id implies has_id(s, id) == has_id(rows, id) by {
            if has_id(rows, id) {
                let j = idx_of(rows, id);
                assert(rows[j].record_id == id);
                assert(s[j].record_id == id);
            }
            if has_id(s, id) {
                let j = choose|j: int| 0 <= j < s.len() && s[j].record_id == id;
                assert(rows[j].record_id == id);
            }
        }
        assert forall|id: int|
            id != rec.record_id && has_id(rows, id) implies row_of(s, id) == row_of(rows, id) by {
            let j = idx_of(rows, id);
            assert(0 <= j < rows.len() && rows[j].record_id == id);
            assert(j != k);
            assert(s[j] == rows[j]);
            lemma_idx_of_row(s, j);
            assert(row_of(s, id) == s[j]);
        }
    } else {
        let n = rows.len() as int;
        assert(forall|i: int| 0 <= i < n ==> rows[i].record_id != rec.record_id);
        assert(forall|i: int| 0 <= i < n ==> s[i] == rows[i]);
        assert(s[n] == rec);
        assert(unique_ids(s));
        assert(has_id(s, rec.record_id)) by {
            assert(s[n].record_id == rec.record_id);
        }
        lemma_idx_of_row(s, n);
        assert forall|id: int| id != rec.record_id implies has_id(s, id) == has_id(rows, id) by {
            if has_id(rows, id) {
                let j = idx_of(rows, id);
                assert(rows[j].record_id == id);
                assert(s[j].record_id == id);
            }
            if has_id(s, id) {
                let j = choose|j: int| 0 <= j < s.len() && s[j].record_id == id;
                assert(j != n);
                assert(rows[j].record_id == id);
            }
        }
        assert forall|id: int|
            id != rec.record_id && has_id(rows, id) implies row_of(s, id) == row_of(rows, id) by {
            let j = idx_of(rows, id);
            assert(0 <= j < rows.len() && rows[j].record_id == id);
            assert(s[j] == rows[j]);
            lemma_idx_of_row(s, j);
            assert(row_of(s, id) == s[j]);
        }
    }
}

/// How one Remove changes the table: ids stay unique, the removed id is
/// gone, and every other row is untouched.
pub proof fn lemma_remove_rows_props(rows: Seq<RecordModel>, id: int)
    requires
        unique_ids(rows),
    ensures
        unique_ids(remove_rows(rows, id)),
        remove_rows(rows, id).len() == if has_id(rows, id) {
            rows.len() - 1
        } else {
            rows.len() as int
        },
        !has_id(remove_rows(rows, id), id),
        forall|j: int| j != id ==> has_id(remove_rows(rows, id), j) == has_id(rows, j),
        forall|j: int|
            j != id && has_id(rows, j) ==> row_of(remove_rows(rows, id), j) == row_of(rows, j),
{
    let s = remove_rows(rows, id);
    if has_id(rows, id) {
        let k = idx_of(rows, id);
        assert(0 <= k < rows.len() && rows[k].record_id == id);
        assert(forall|m: int|
            0 <= m < s.len() ==> s[m] == (if m < k {
                rows[m]
            } else {
                rows[m + 1]
            }));
        assert(unique_ids(s));
        assert(!has_id(s, id)) by {
            if has_id(s, id) {
                let j = choose|j: int| 0 <= j < s.len() && s[j].record_id == id;
                if j < k {
                    assert(rows[j].record_id == id);
                } else {
                    assert(rows[j + 1].record_id == id);
                }
            }
        }
        assert forall|j: int| j != id implies has_id(s, j) == has_id(rows, j) by {
            if has_id(rows, j) {
                let m = idx_of(rows, j);
                assert(rows[m].record_id == j);
                assert(m != k);
                if m < k {
                    assert(s[m].record_id == j);
                } else {
                    assert(s[m - 1].record_id == j);
                }
            }
            if has_id(s, j) {
                let m = choose|m: int| 0 <= m < s.len() && s[m].record_id == j;
                if m < k {
                    assert(rows[m].record_id == j);
                } else {
                    assert(rows[m + 1].record_id == j);
                }
            }
        }
        assert forall|j: int|
            j != id && has_id(rows, j) implies row_of(s, j) == row_of(rows, j) by {
            let m = idx_of(rows, j);
            assert(0 <= m < rows.len() && rows[m].record_id == j);
            assert(m != k);
            if m < k {
                assert(s[m] == rows[m]);
                lemma_idx_of_row(s, m);
            } else {
                assert(s[m - 1] == rows[m]);
                lemma_idx_of_row(s, m - 1);
            }
        }
    }
}

/// Law: a Put of a fresh record id followed by a Remove of that id restores
/// the table exactly — the recomputed totals are unchanged from before the
/// Put, and no row carries the id.
pub proof fn lemma_put_then_remove_nets_zero(rows: Seq<RecordModel>, rec: RecordModel)
    requires
        unique_ids(rows),
        !has_id(rows, rec.record_id),
    ensures
        remove_rows(set_rows(rows, rec), rec.record_id) == rows,
        sum_sent(remove_rows(set_rows(rows, rec), rec.record_id)) == sum_sent(rows),
        sum_received(remove_rows(set_rows(rows, rec), rec.record_id)) == sum_received(rows),
        !has_id(remove_rows(set_rows(rows, rec), rec.record_id), rec.record_id),
{
    let s = set_rows(rows, rec);
    let n = rows.len() as int;
    lemma_set_rows_props(rows, rec);
    assert(s == rows.push(rec));
    assert(s[n].record_id == rec.record_id);
    lemma_idx_of_row(s, n);
    assert(idx_of(s, rec.record_id) == n);
    assert(remove_rows(s, rec.record_id) == s.remove(n));
    assert(s.remove(n) =~= rows);
    lemma_remove_rows_props(s, rec.record_id);
}

/// Law: two Puts for the same record id in sequence leave exactly the table
/// that the second Put alone leaves — one row for the id, carrying only the
/// second Put's fields; nothing is duplicated.
pub proof fn lemma_repeated_put_absorbed(rows: Seq<RecordModel>, r1: RecordModel, r2: RecordModel)
    requires
        unique_ids(rows),
        r1.record_id == r2.record_id,
    ensures
        set_rows(set_rows(rows, r1), r2) == set_rows(rows, r2),
        unique_ids(set_rows(set_rows(rows, r1), r2)),
        has_id(set_rows(set_rows(rows, r1), r2), r2.record_id),
        row_of(set_rows(set_rows(rows, r1), r2), r2.record_id) == r2,
{
    let s1 = set_rows(rows, r1);
    lemma_set_rows_props(rows, r1);
    lemma_set_rows_props(s1, r2);
    lemma_set_rows_props(rows, r2);
    if has_id(rows, r1.record_id) {
        let k = idx_of(rows, r1.record_id);
        assert(0 <= k < rows.len() && rows[k].record_id == r1.record_id);
        assert(s1 == rows.update(k, r1));
        assert(s1[k].record_id == r2.record_id);
        lemma_idx_of_row(s1, k);
        assert(set_rows(s1, r2) == s1.update(k, r2));
        assert(s1.update(k, r2) =~= rows.update(k, r2));
    } else {
        let n = rows.len() as int;
        assert(s1 == rows.push(r1));
        assert(s1[n].record_id == r2.record_id);
        lemma_idx_of_row(s1, n);
        assert(!has_id(rows, r2.record_id));
        assert(set_rows(s1, r2) == s1.update(n, r2));
        assert(s1.update(n, r2) =~= rows.push(r2));
    }
}

/// The table after a whole sequence of Puts, applied in order.
pub open spec fn put_rows_seq(rows: Seq<RecordModel>, recs: Seq<RecordModel>) -> Seq<RecordModel>
    decreases recs.len(),
{
    if recs.len() == 0 {
        rows
    } else {
        set_rows(put_rows_seq(rows, recs.drop_last()), recs.last())
    }
}

/// The last Put in the sequence for a given record id, if there is one.
pub open spec fn latest_put(recs: Seq<RecordModel>, id: int) -> Option<RecordModel>
    decreases recs.len(),
{
    if recs.len() == 0 {
        None
    } else if recs.last().record_id == id {
        Some(recs.last())
    } else {
        latest_put(recs.drop_last(), id)
    }
}

/// Law: after any sequence of Puts, each record id has exactly the row of
/// its last Put, no matter how many earlier Puts for the same id preceded
/// it; rows the sequence never names keep their fields.  The recomputed
/// totals therefore sum exactly the final rates.
pub proof fn lemma_puts_final_rates(rows: Seq<RecordModel>, recs: Seq<RecordModel>)
    requires
        unique_ids(rows),
    ensures
        unique_ids(put_rows_seq(rows, recs)),
        forall|id: int|
            (#[trigger] has_id(put_rows_seq(rows, recs), id)) == (has_id(rows, id) || latest_put(
                recs,
                id,
            ) is Some),
        forall|id: int|
            #[trigger] latest_put(recs, id) is Some ==> row_of(put_rows_seq(rows, recs), id)
                == latest_put(recs, id)->Some_0,
        forall|id: int|
            latest_put(recs, id) is None && has_id(rows, id) ==> #[trigger] row_of(
                put_rows_seq(rows, recs),
                id,
            ) == row_of(rows, id),
    decreases recs.len(),
{
    if recs.len() == 0 {
    } else {
        let prev = put_rows_seq(rows, recs.drop_last());
        let last = recs.last();
        lemma_puts_final_rates(rows, recs.drop_last());
        lemma_set_rows_props(prev, last);
        assert(put_rows_seq(rows, recs) == set_rows(prev, last));
        assert forall|id: int|
            has_id(put_rows_seq(rows, recs), id) == (has_id(rows, id) || latest_put(recs, id)
                is Some) by {
            if id == last.record_id {
                assert(latest_put(recs, id) == Some(last));
                assert(has_id(set_rows(prev, last), id));
            } else {
                assert(latest_put(recs, id) == latest_put(recs.drop_last(), id));
                assert(has_id(set_rows(prev, last), id) == has_id(prev, id));
                assert(has_id(prev, id) == (has_id(rows, id) || latest_put(
                    recs.drop_last(),
                    id,
                ) is Some));
            }
        }
        assert forall|id: int|
            latest_put(recs, id) is Some implies row_of(put_rows_seq(rows, recs), id)
                == latest_put(recs, id)->Some_0 by {
            if id == last.record_id {
                assert(latest_put(recs, id) == Some(last));
                assert(row_of(set_rows(prev, last), id) == last);
            } else {
                assert(latest_put(recs, id) == latest_put(recs.drop_last(), id));
                assert(latest_put(recs.drop_last(), id) is Some);
                assert(has_id(put_rows_seq(rows, recs.drop_last()), id) == (has_id(rows, id)
                    || latest_put(recs.drop_last(), id) is Some));
                assert(has_id(prev, id));
                assert(row_of(prev, id) == latest_put(recs.drop_last(), id)->Some_0);
                assert(row_of(set_rows(prev, last), id) == row_of(prev, id));
            }
        }
        assert forall|id: int|
            latest_put(recs, id) is None && has_id(rows, id) implies row_of(
            put_rows_seq(rows, recs),
            id,
        ) == row_of(rows, id) by {
            assert(id != last.record_id);
            assert(latest_put(recs, id) == latest_put(recs.drop_last(), id));
            assert(has_id(put_rows_seq(rows, recs.drop_last()), id) == (has_id(rows, id)
                || latest_put(recs.drop_last(), id) is Some));
            assert(has_id(prev, id));
            assert(row_of(put_rows_seq(rows, recs.drop_last()), id) == row_of(rows, id));
            assert(row_of(set_rows(prev, last), id) == row_of(prev, id));
        }
    }
}

} // verus!
