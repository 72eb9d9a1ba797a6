//! The reconciliation engine: the single consumer of bandwidth events.
//!
//! Each event is applied to the record store in arrival order; after every
//! applied event the aggregate totals are recomputed, and the caller is told
//! which presented row to append, update or delete.  The numeric user id of
//! a Put event is resolved to a display name while the event is applied; an
//! unresolvable id degrades to its decimal form instead of failing.

use vstd::prelude::*;
use vstd::string::StringExecFns;
use crate::channel::EventChannel;
use crate::event::{Action, Event, EventModel};
use crate::laws::{lemma_remove_rows_props, lemma_set_rows_props};
use crate::store::{
    has_id, remove_rows, row_of, set_rows, sum_received, sum_sent, Record, RecordModel,
    RecordStore, RowHandle, MAX_RECORDS,
};

verus! {

/// `users::UsersCache`: the caching front of the system user database.
#[verifier::external_type_specification]
#[verifier::external_body]
pub struct ExUsersCache(users::UsersCache);

/// Relies on `users::UsersCache::get_user_by_uid` (through the `users::Users`
/// trait) and `users::User::name`: looks the id up in the system user
/// database, caching the answer, and hands back the account name, decoded
/// with replacement characters where it is not valid text.  What comes back
/// depends on the machine's user database, so nothing is stated of it.
#[verifier::external_body]
pub(crate) fn resolve_user_name(cache: &users::UsersCache, uid: u32) -> Option<String> {
    users::Users::get_user_by_uid(cache, uid).map(|u| u.name().to_string_lossy().into_owned())
}

/// The decimal digit for one value below ten.
pub open spec fn digit_char(d: nat) -> char {
    if d == 0 {
        '0'
    } else if d == 1 {
        '1'
    } else if d == 2 {
        '2'
    } else if d == 3 {
        '3'
    } else if d == 4 {
        '4'
    } else if d == 5 {
        '5'
    } else if d == 6 {
        '6'
    } else if d == 7 {
        '7'
    } else if d == 8 {
        '8'
    } else {
        '9'
    }
}

/// The decimal rendering of a number, most significant digit first, with no
/// leading zero except for the number zero itself.
pub open spec fn decimal_seq(n: nat) -> Seq<char>
    decreases n,
{
    if n < 10 {
        seq![digit_char(n)]
    } else {
        decimal_seq(n / 10).push(digit_char(n % 10))
    }
}

/// The one-character string for a decimal digit.
fn digit_str(d: u32) -> (s: &'static str)
    requires
        d < 10,
    ensures
        s@ == seq![digit_char(d as nat)],
{
    let s: &'static str = if d == 0 {
        "0"
    } else if d == 1 {
        "1"
    } else if d == 2 {
        "2"
    } else if d == 3 {
        "3"
    } else if d == 4 {
        "4"
    } else if d == 5 {
        "5"
    } else if d == 6 {
        "6"
    } else if d == 7 {
        "7"
    } else if d == 8 {
        "8"
    } else {
        "9"
    };
    proof {
        reveal_strlit("0");
        reveal_strlit("1");
        reveal_strlit("2");
        reveal_strlit("3");
        reveal_strlit("4");
        reveal_strlit("5");
        reveal_strlit("6");
        reveal_strlit("7");
        reveal_strlit("8");
        reveal_strlit("9");
        assert(s@ =~= seq![digit_char(d as nat)]);
    }
    s
}

/// Renders a number in decimal.
pub fn u32_decimal(n: u32) -> (s: String)
    ensures
        s@ == decimal_seq(n as nat),
    decreases n,
{
    if n < 10 {
        digit_str(n).to_owned()
    } else {
        let mut s = u32_decimal(n / 10);
        s.append(digit_str(n % 10));
        proof {
            assert(s@ =~= decimal_seq(n as nat));
        }
        s
    }
}

/// What an applied Put event shows as the owning user: the resolved account
/// name, or the decimal user id when the lookup found nothing.
pub fn user_display(uid: u32, resolved: Option<String>) -> (s: String)
    ensures
        resolved matches Some(name) ==> s@ == name@,
        resolved is None ==> s@ == decimal_seq(uid as nat),
{
    match resolved {
        Some(name) => name,
        None => u32_decimal(uid),
    }
}

/// The live record a Put event creates, given the user display name it was
/// resolved to.
pub open spec fn record_of(ev: EventModel, user: Seq<char>) -> RecordModel {
    RecordModel {
        record_id: ev.record_id,
        pid: ev.pid,
        user,
        program: ev.program,
        device: ev.device,
        sent: ev.sent,
        received: ev.received,
    }
}

/// What one event does to the table, given the user display name a Put was
/// resolved to (a Remove ignores it).
pub open spec fn apply_event_model(
    rows: Seq<RecordModel>,
    ev: EventModel,
    user: Seq<char>,
) -> Seq<RecordModel> {
    match ev.action {
        Action::Put => set_rows(rows, record_of(ev, user)),
        Action::Remove => remove_rows(rows, ev.record_id),
    }
}

/// What a whole sequence of events does to the table, applied strictly in
/// order, given the user display names the Put events were resolved to.
pub open spec fn apply_events(
    rows: Seq<RecordModel>,
    evs: Seq<EventModel>,
    users: Seq<Seq<char>>,
) -> Seq<RecordModel>
    decreases evs.len(),
{
    if evs.len() == 0 {
        rows
    } else {
        apply_event_model(
            apply_events(rows, evs.drop_last(), users.drop_last()),
            evs.last(),
            users.last(),
        )
    }
}

/// What the presentation layer must do after one applied event.
#[derive(Clone, Copy, PartialEq, Eq, Structural, Debug)]
pub enum RowUpdate {
    /// A fresh row was created: append it.
    Appended(RowHandle),
    /// An existing row changed: update it in place.
    Updated(RowHandle),
    /// A row ended: delete it.
    Removed(RowHandle),
    /// A Remove named an unknown record id; nothing changed.
    Ignored,
}

/// The outcome of one applied event: the row change to present and the
/// recomputed aggregate totals.
#[derive(Clone, Copy, PartialEq, Eq, Structural, Debug)]
pub struct Applied {
    pub row: RowUpdate,
    /// Sum of the sent rates over all live records.
    pub total_sent: u64,
    /// Sum of the received rates over all live records.
    pub total_received: u64,
}

/// Applies a Put event whose user id is already resolved: inserts or
/// overwrites the record, then recomputes the totals.
pub fn apply_put_event(store: &mut RecordStore, ev: Event, user: String) -> (r: Applied)
    requires
        old(store).wf(),
        old(store)@.len() < MAX_RECORDS,
        ev.action is Put,
    ensures
        final(store).wf(),
        final(store)@ == set_rows(old(store)@, record_of(ev@, user@)),
        r.total_sent == sum_sent(final(store)@),
        r.total_received == sum_received(final(store)@),
        r.row == (if has_id(old(store)@, ev@.record_id) {
            RowUpdate::Updated(RowHandle { record_id: ev.record_id })
        } else {
            RowUpdate::Appended(RowHandle { record_id: ev.record_id })
        }),
{
    let ghost evm = ev@;
    let ghost userv = user@;
    let rec = Record {
        record_id: ev.record_id,
        pid: ev.pid,
        user,
        program: ev.program,
        device: ev.device,
        sent: ev.sent,
        received: ev.received,
    };
    proof {
        assert(rec@ =~= record_of(evm, userv));
    }
    let (handle, is_new) = store.apply_set(rec);
    let (total_sent, total_received) = store.totals();
    let row = if is_new {
        RowUpdate::Appended(handle)
    } else {
        RowUpdate::Updated(handle)
    };
    Applied { row, total_sent, total_received }
}

/// Applies a Remove event: deletes the record, or changes nothing when the
/// id is unknown, then recomputes the totals.
pub fn apply_remove_event(store: &mut RecordStore, record_id: i32) -> (r: Applied)
    requires
        old(store).wf(),
    ensures
        final(store).wf(),
        final(store)@ == remove_rows(old(store)@, record_id as int),
        r.total_sent == sum_sent(final(store)@),
        r.total_received == sum_received(final(store)@),
        r.row == (if has_id(old(store)@, record_id as int) {
            RowUpdate::Removed(RowHandle { record_id })
        } else {
            RowUpdate::Ignored
        }),
{
    let row = match store.apply_remove(record_id) {
        Ok(handle) => RowUpdate::Removed(handle),
        Err(_) => RowUpdate::Ignored,
    };
    let (total_sent, total_received) = store.totals();
    Applied { row, total_sent, total_received }
}

/// Applies one event: resolves the user id of a Put through the system user
/// database, then mutates the table and recomputes the totals.  The user
/// display name depends on the machine's user database, so the table after a
/// Put is pinned up to that one field.
pub fn reconcile(store: &mut RecordStore, cache: &users::UsersCache, ev: Event) -> (r: Applied)
    requires
        old(store).wf(),
        old(store)@.len() < MAX_RECORDS,
    ensures
        final(store).wf(),
        final(store)@.len() <= old(store)@.len() + 1,
        exists|u: Seq<char>| final(store)@ == apply_event_model(old(store)@, ev@, u),
        ev.action is Put ==> has_id(final(store)@, ev@.record_id) && row_of(
            final(store)@,
            ev@.record_id,
        ) == record_of(ev@, row_of(final(store)@, ev@.record_id).user),
        ev.action is Remove ==> final(store)@ == remove_rows(old(store)@, ev@.record_id)
            && !has_id(final(store)@, ev@.record_id),
        r.total_sent == sum_sent(final(store)@),
        r.total_received == sum_received(final(store)@),
        r.row == (match ev.action {
            Action::Put => if has_id(old(store)@, ev@.record_id) {
                RowUpdate::Updated(RowHandle { record_id: ev.record_id })
            } else {
                RowUpdate::Appended(RowHandle { record_id: ev.record_id })
            },
            Action::Remove => if has_id(old(store)@, ev@.record_id) {
                RowUpdate::Removed(RowHandle { record_id: ev.record_id })
            } else {
                RowUpdate::Ignored
            },
        }),
{
    let ghost evm = ev@;
    match ev.action {
        Action::Put => {
            let resolved = resolve_user_name(cache, ev.uid);
            let user = user_display(ev.uid, resolved);
            let ghost u = user@;
            let r = apply_put_event(store, ev, user);
            proof {
                assert(store@ == apply_event_model(old(store)@, evm, u));
                lemma_set_rows_props(old(store)@, record_of(evm, u));
            }
            r
        },
        Action::Remove => {
            let r = apply_remove_event(store, ev.record_id);
            proof {
                let u = Seq::<char>::empty();
                assert(store@ == apply_event_model(old(store)@, evm, u));
                lemma_remove_rows_props(old(store)@, evm.record_id);
            }
            r
        },
    }
}

/// The reconciliation loop: drains the channel and applies every pending
/// event, strictly in the order sent.  Each event is fully applied before
/// the next is taken; afterwards nothing is pending.
pub fn drain(store: &mut RecordStore, cache: &users::UsersCache, ch: &mut EventChannel)
    requires
        old(store).wf(),
        old(store)@.len() + old(ch).pending().len() <= MAX_RECORDS,
    ensures
        final(store).wf(),
        final(ch).pending().len() == 0,
        final(ch).is_closed() == old(ch).is_closed(),
        exists|us: Seq<Seq<char>>|
            us.len() == old(ch).pending().len() && final(store)@ == apply_events(
                old(store)@,
                old(ch).pending(),
                us,
            ),
{
    let ghost pending0 = ch.pending();
    let ghost mut us: Seq<Seq<char>> = Seq::empty();
    let mut n = ch.len();
    let ghost mut i: int = 0;
    proof {
        assert(pending0.skip(0) =~= pending0);
        assert(pending0.take(0) =~= Seq::<EventModel>::empty());
    }
    while n > 0
        invariant
            store.wf(),
            ch.is_closed() == old(ch).is_closed(),
            pending0 == old(ch).pending(),
            0 <= i <= pending0.len(),
            n == pending0.len() - i,
            ch.pending() == pending0.skip(i),
            us.len() == i,
            store@ == apply_events(old(store)@, pending0.take(i), us),
            store@.len() <= old(store)@.len() + i,
            old(store)@.len() + pending0.len() <= MAX_RECORDS,
        decreases n,
    {
        let ghost rows_before = store@;
        if let Some(ev) = ch.recv() {
            let ghost evm = ev@;
            proof {
                assert(evm == pending0[i]);
            }
            let _ = reconcile(store, cache, ev);
            proof {
                let u = choose|u: Seq<char>| store@ == apply_event_model(rows_before, evm, u);
                let us_prev = us;
                us = us.push(u);
                i = i + 1;
                assert(ch.pending() =~= pending0.skip(i));
                assert(pending0.take(i).drop_last() =~= pending0.take(i - 1));
                assert(us.drop_last() =~= us_prev);
                assert(pending0.take(i).last() == pending0[i - 1]);
                assert(store@ == apply_events(old(store)@, pending0.take(i), us));
            }
            n = n - 1;
        } else {
            proof {
                assert(false);
            }
        }
    }
    proof {
        assert(pending0.take(i) =~= pending0);
        assert(ch.pending().len() == 0);
    }
}

} // verus!
