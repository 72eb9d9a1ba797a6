//! The record store: a keyed table of live traffic records plus the running
//! sent/received totals derived from it.
//!
//! A record id identifies at most one live record at any instant.  A Set for
//! an unknown id creates a record, a Set for a known id overwrites that
//! record's fields in place (same position in the table), and a Remove
//! deletes it.  The totals are never stored: they are recomputed from the
//! table on demand.

use vstd::prelude::*;

verus! {

/// The table never holds more rows than this; it keeps the recomputed
/// totals within `u64` (each rate is a `u32`).
pub const MAX_RECORDS: usize = 0xFFFF_FFFF;

/// One live traffic record: a row of the table.
#[derive(Debug, Clone)]
pub struct Record {
    /// Key of the row; immutable for the record's lifetime.
    pub record_id: i32,
    /// Owning process id; 0 when unattributed.
    pub pid: i32,
    /// Display name of the owning user, resolved when the record was applied.
    pub user: String,
    /// Label of the owning executable.
    pub program: String,
    /// Label of the network interface.
    pub device: String,
    /// Sent rate, thousandths of a kilobit per second.
    pub sent: u32,
    /// Received rate, thousandths of a kilobit per second.
    pub received: u32,
}

/// Mathematical image of a `Record`.
#[verifier::ext_equal]
pub struct RecordModel {
    pub record_id: int,
    pub pid: int,
    pub user: Seq<char>,
    pub program: Seq<char>,
    pub device: Seq<char>,
    pub sent: int,
    pub received: int,
}

impl View for Record {
    type V = RecordModel;

    open spec fn view(&self) -> RecordModel {
        RecordModel {
            record_id: self.record_id as int,
            pid: self.pid as int,
            user: self.user@,
            program: self.program@,
            device: self.device@,
            sent: self.sent as int,
            received: self.received as int,
        }
    }
}

/// Opaque back-reference that ties a live record to its presented row.  The
/// presentation layer keys its own rendering state by this handle; it never
/// owns record data.
#[derive(Clone, Copy, PartialEq, Eq, Structural, Hash, Debug)]
pub struct RowHandle {
    pub record_id: i32,
}

/// A Remove named a record id with no live record.
#[derive(Clone, Copy, PartialEq, Eq, Structural, Debug)]
pub struct UnknownRecord {
    pub record_id: i32,
}

/// No two rows share a record id.
pub open spec fn unique_ids(rows: Seq<RecordModel>) -> bool {
    forall|i: int, j: int|
        0 <= i < j < rows.len() ==> rows[i].record_id != rows[j].record_id
}

/// Some row carries this record id.
pub open spec fn has_id(rows: Seq<RecordModel>, id: int) -> bool {
    exists|i: int| 0 <= i < rows.len() && rows[i].record_id == id
}

/// The position of the row carrying this record id (the position, under
/// `unique_ids`).
pub open spec fn idx_of(rows: Seq<RecordModel>, id: int) -> int {
    choose|i: int| 0 <= i < rows.len() && rows[i].record_id == id
}

/// The row carrying this record id.
pub open spec fn row_of(rows: Seq<RecordModel>, id: int) -> RecordModel {
    rows[idx_of(rows, id)]
}

/// What a Set does to the table: overwrite the row with the same id in
/// place, or append a fresh row.
pub open spec fn set_rows(rows: Seq<RecordModel>, rec: RecordModel) -> Seq<RecordModel> {
    if has_id(rows, rec.record_id) {
        rows.update(idx_of(rows, rec.record_id), rec)
    } else {
        rows.push(rec)
    }
}

/// What a Remove does to the table: delete the row with this id, or leave
/// the table unchanged when no row carries it.
pub open spec fn remove_rows(rows: Seq<RecordModel>, id: int) -> Seq<RecordModel> {
    if has_id(rows, id) {
        rows.remove(idx_of(rows, id))
    } else {
        rows
    }
}

/// Sum of the sent rates over the whole table.
pub open spec fn sum_sent(rows: Seq<RecordModel>) -> int
    decreases rows.len(),
{
    if rows.len() == 0 {
        0
    } else {
        sum_sent(rows.drop_last()) + rows.last().sent
    }
}

/// Sum of the received rates over the whole table.
pub open spec fn sum_received(rows: Seq<RecordModel>) -> int
    decreases rows.len(),
{
    if rows.len() == 0 {
        0
    } else {
        sum_received(rows.drop_last()) + rows.last().received
    }
}

/// Under `unique_ids`, any row position is the `idx_of` its own id.
pub proof fn lemma_idx_of_row(rows: Seq<RecordModel>, i: int)
    requires
        unique_ids(rows),
        0 <= i < rows.len(),
    ensures
        has_id(rows, rows[i].record_id),
        idx_of(rows, rows[i].record_id) == i,
{
    assert(has_id(rows, rows[i].record_id));
    let k = idx_of(rows, rows[i].record_id);
    assert(0 <= k < rows.len() && rows[k].record_id == rows[i].record_id);
}

/// The keyed table of live records.
pub struct RecordStore {
    rows: Vec<Record>,
}

impl View for RecordStore {
    type V = Seq<RecordModel>;

    closed spec fn view(&self) -> Seq<RecordModel> {
        self.rows@.map(|i: int, r: Record| r@)
    }
}

impl RecordStore {
    /// The table's invariant: ids are unique and the row count stays below
    /// the bound that keeps the totals within `u64`.
    pub open spec fn wf(&self) -> bool {
        &&& unique_ids(self@)
        &&& self@.len() <= MAX_RECORDS
    }

    /// An empty table.
    pub fn new() -> (s: RecordStore)
        ensures
            s.wf(),
            s@ == Seq::<RecordModel>::empty(),
    {
        let s = RecordStore { rows: Vec::new() };
        proof {
            assert(s@ =~= Seq::<RecordModel>::empty());
        }
        s
    }

    /// Number of live records.
    pub fn len(&self) -> (n: usize)
        ensures
            n == self@.len(),
    {
        self.rows.len()
    }

    /// Position of the row carrying `record_id`, scanning from the front.
    fn find_index(&self, record_id: i32) -> (r: Option<usize>)
        ensures
            r matches Some(i) ==> i < self@.len() && self@[i as int].record_id == record_id as int,
            r is None ==> !has_id(self@, record_id as int),
    {
        let n = self.rows.len();
        for i in 0..n
            invariant
                n == self@.len(),
                forall|j: int| 0 <= j < i ==> self@[j].record_id != record_id as int,
        {
            if self.rows[i].record_id == record_id {
                return Some(i);
            }
        }
        None
    }

    /// Whether a live record carries this id.
    pub fn contains(&self, record_id: i32) -> (r: bool)
        ensures
            r == has_id(self@, record_id as int),
    {
        match self.find_index(record_id) {
            Some(i) => {
                proof {
                    assert(has_id(self@, record_id as int));
                }
                true
            },
            None => false,
        }
    }

    /// The live record carrying this id, if any.
    pub fn get(&self, record_id: i32) -> (r: Option<&Record>)
        requires
            self.wf(),
        ensures
            r matches Some(rec) ==> has_id(self@, record_id as int) && rec@ == row_of(
                self@,
                record_id as int,
            ),
            r is None ==> !has_id(self@, record_id as int),
    {
        match self.find_index(record_id) {
            Some(i) => {
                proof {
                    lemma_idx_of_row(self@, i as int);
                }
                Some(&self.rows[i])
            },
            None => None,
        }
    }

    /// Applies a Set: overwrites the row with `rec.record_id` in place, or
    /// appends `rec` as a fresh row.  Returns the row's handle and whether
    /// the row is new.
    pub fn apply_set(&mut self, rec: Record) -> (r: (RowHandle, bool))
        requires
            old(self).wf(),
            old(self)@.len() < MAX_RECORDS,
        ensures
            final(self).wf(),
            final(self)@ == set_rows(old(self)@, rec@),
            r.0.record_id == rec.record_id,
            r.1 == !has_id(old(self)@, rec@.record_id),
    {
        let ghost rows0 = self@;
        let ghost m = rec@;
        let handle = RowHandle { record_id: rec.record_id };
        match self.find_index(rec.record_id) {
            Some(i) => {
                proof {
                    lemma_idx_of_row(rows0, i as int);
                }
                self.rows[i] = rec;
                proof {
                    assert(self@ =~= rows0.update(i as int, m));
                    assert(unique_ids(self@)) by {
                        assert(forall|k: int|
                            0 <= k < self@.len() ==> self@[k].record_id == rows0[k].record_id);
                    }
                }
                (handle, false)
            },
            None => {
                self.rows.push(rec);
                proof {
                    assert(self@ =~= rows0.push(m));
                    assert(unique_ids(self@)) by {
                        assert(forall|k: int| 0 <= k < rows0.len() ==> self@[k] == rows0[k]);
                    }
                }
                (handle, true)
            },
        }
    }

    /// Applies a Remove: deletes the row carrying `record_id`.  A Remove for
    /// an unknown id is rejected without touching the table.
    pub fn apply_remove(&mut self, record_id: i32) -> (r: Result<RowHandle, UnknownRecord>)
        requires
            old(self).wf(),
        ensures
            final(self).wf(),
            final(self)@ == remove_rows(old(self)@, record_id as int),
            has_id(old(self)@, record_id as int) ==> r == Ok::<RowHandle, UnknownRecord>(
                RowHandle { record_id },
            ),
            !has_id(old(self)@, record_id as int) ==> final(self)@ == old(self)@ && r
                == Err::<RowHandle, UnknownRecord>(UnknownRecord { record_id }),
    {
        let ghost rows0 = self@;
        match self.find_index(record_id) {
            Some(i) => {
                proof {
                    lemma_idx_of_row(rows0, i as int);
                }
                self.rows.remove(i);
                proof {
                    assert(self@ =~= rows0.remove(i as int));
                    assert(unique_ids(self@)) by {
                        assert(forall|k: int|
                            0 <= k < self@.len() ==> self@[k] == if k < i as int {
                                rows0[k]
                            } else {
                                rows0[k + 1]
                            });
                    }
                }
                Ok(RowHandle { record_id })
            },
            None => Err(UnknownRecord { record_id }),
        }
    }

    /// Recomputes the aggregate totals: the sums of the sent and received
    /// rates over all live records.
    pub fn totals(&self) -> (t: (u64, u64))
        requires
            self.wf(),
        ensures
            t.0 == sum_sent(self@),
            t.1 == sum_received(self@),
    {
        let n = self.rows.len();
        let mut sent: u64 = 0;
        let mut received: u64 = 0;
        let ghost bound: int = 0xFFFF_FFFF;
        for i in 0..n
            invariant
                n == self@.len(),
                n <= MAX_RECORDS,
                sent == sum_sent(self@.take(i as int)),
                received == sum_received(self@.take(i as int)),
                sent <= i * bound,
                received <= i * bound,
                bound == 0xFFFF_FFFF,
        {
            proof {
                assert(self@.take(i + 1).drop_last() =~= self@.take(i as int));
                assert(self@.take(i + 1).last() == self@[i as int]);
                assert(self@[i as int].sent <= bound && self@[i as int].received <= bound);
                assert(i * bound + bound == (i + 1) * bound) by (nonlinear_arith);
                assert((i + 1) * bound <= (n as int) * bound) by (nonlinear_arith)
                    requires
                        i + 1 <= n as int,
                        bound > 0,
                ;
                assert((n as int) * bound <= 0xFFFF_FFFF * 0xFFFF_FFFFu64) by (nonlinear_arith)
                    requires
                        n as int <= 0xFFFF_FFFF,
                        bound == 0xFFFF_FFFF,
                ;
            }
            sent = sent + self.rows[i].sent as u64;
            received = received + self.rows[i].received as u64;
        }
        proof {
            assert(self@.take(n as int) =~= self@);
        }
        (sent, received)
    }
}

} // verus!
