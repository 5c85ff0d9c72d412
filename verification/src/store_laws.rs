use vstd::prelude::*;
use crate::actor::{ActorPayload, ActorRecord};
use crate::actor_store::{lemma_upsert_keeps_wf, Table};
use crate::error::FederationError;

verus! {

/// In a well-formed table the row that holds a global identifier is the only
/// one that does.
pub proof fn lemma_held_once(t: Table, ap_id: Seq<char>)
    requires
        t.wf(),
        t.has(ap_id),
    ensures
        t.holds_once(ap_id),
        t.only_at(ap_id, t.index_of(ap_id)),
{
    let at = t.index_of(ap_id);
    assert(t.holds_at(ap_id, at));
    assert forall|j: int| t.holds_at(ap_id, j) implies j == at by {
        if j < at {
            assert(t.rows[j].ap_id != t.rows[at].ap_id);
        }
        if at < j {
            assert(t.rows[at].ap_id != t.rows[j].ap_id);
        }
    }
    assert(t.only_at(ap_id, at));
}

/// After an insert-or-update that succeeds, the table holds the payload's
/// global identifier in exactly one row, and that row is what the call
/// returned.
pub proof fn lemma_upsert_stores(t: Table, payload: ActorPayload)
    requires
        t.wf(),
        t.upsert_result(payload) is Ok,
    ensures
        t.upsert(payload).holds_once(payload.ap_id),
        t.upsert(payload).find(payload.ap_id) == Some(t.upsert_result(payload)->Ok_0),
{
    let after = t.upsert(payload);
    let record = t.upsert_result(payload)->Ok_0;
    lemma_upsert_keeps_wf(t, payload);
    let at = if t.has(payload.ap_id) {
        t.index_of(payload.ap_id)
    } else {
        t.rows.len() as int
    };
    if t.has(payload.ap_id) {
        assert(t.holds_at(payload.ap_id, at));
    }
    assert(after.holds_at(payload.ap_id, at));
    assert(after.rows[at] == record);
    lemma_held_once(after, payload.ap_id);
}

/// Applying the same payload twice is the same as applying it once: the
/// second insert-or-update changes nothing and returns the same row. Where the
/// first one succeeds, the table then holds the payload's global identifier in
/// exactly one row.
pub proof fn lemma_upsert_idempotent(t: Table, payload: ActorPayload)
    requires
        t.wf(),
    ensures
        t.upsert(payload).upsert(payload) == t.upsert(payload),
        t.upsert(payload).upsert_result(payload) == t.upsert_result(payload),
        t.upsert_result(payload) is Ok ==> t.upsert(payload).holds_once(payload.ap_id),
{
    let once = t.upsert(payload);
    if t.upsert_result(payload) is Ok {
        let record = t.upsert_result(payload)->Ok_0;
        lemma_upsert_stores(t, payload);
        let at = once.index_of(payload.ap_id);
        assert(once.holds_at(payload.ap_id, at));
        assert(once.rows[at] == record);
        assert(payload.with_id(record.id) == record);
        assert(once.rows.update(at, record) =~= once.rows);
    }
}

/// A strict insert of a global identifier that is stored fails with
/// `Conflict` and changes no row.
pub proof fn lemma_insert_never_updates(t: Table, payload: ActorPayload)
    requires
        t.has(payload.ap_id),
    ensures
        t.insert_result(payload) == Err::<ActorRecord, FederationError>(FederationError::Conflict),
        t.insert(payload) == t,
{
}

/// Two resolutions of one global identifier that was not stored before end in
/// two insert-or-updates. In whichever order the store takes them, it then
/// holds that identifier in exactly one row, under the local identifier that
/// the first of them gave it, and has grown by that one row.
pub proof fn lemma_racing_upserts_leave_one_row(t: Table, first: ActorPayload, second: ActorPayload)
    requires
        t.wf(),
        first.ap_id == second.ap_id,
        !t.has(first.ap_id),
        !t.full(),
    ensures
        t.upsert(first).upsert(second).holds_once(first.ap_id),
        t.upsert(second).upsert(first).holds_once(first.ap_id),
        t.upsert(first).upsert(second).rows.len() == t.rows.len() + 1,
        t.upsert(second).upsert(first).rows.len() == t.rows.len() + 1,
        t.upsert(first).upsert_result(second) == Ok::<ActorRecord, FederationError>(
            second.with_id(t.next_id as u128),
        ),
        t.upsert(second).upsert_result(first) == Ok::<ActorRecord, FederationError>(
            first.with_id(t.next_id as u128),
        ),
{
    lemma_racing_step(t, first, second);
    lemma_racing_step(t, second, first);
}

/// One order of two insert-or-updates of a new global identifier.
proof fn lemma_racing_step(t: Table, first: ActorPayload, second: ActorPayload)
    requires
        t.wf(),
        first.ap_id == second.ap_id,
        !t.has(first.ap_id),
        !t.full(),
    ensures
        t.upsert(first).upsert(second).holds_once(first.ap_id),
        t.upsert(first).upsert(second).rows.len() == t.rows.len() + 1,
        t.upsert(first).upsert_result(second) == Ok::<ActorRecord, FederationError>(
            second.with_id(t.next_id as u128),
        ),
{
    let one = t.upsert(first);
    lemma_upsert_stores(t, first);
    lemma_upsert_keeps_wf(t, first);
    let at = one.index_of(first.ap_id);
    assert(one.only_at(first.ap_id, at)) by {
        lemma_held_once(one, first.ap_id);
    }
    assert(one.holds_at(first.ap_id, t.rows.len() as int));
    assert(at == t.rows.len());
    lemma_upsert_stores(one, second);
}

/// The two identifiers of a row never change, and no row is ever removed: a
/// row of the table stands at the same place after a strict insert and after an
/// insert-or-update, with the local and the global identifier it had.
pub proof fn lemma_rows_stay(t: Table, payload: ActorPayload, i: int)
    requires
        t.wf(),
        0 <= i < t.rows.len(),
    ensures
        i < t.insert(payload).rows.len(),
        t.insert(payload).rows[i] == t.rows[i],
        i < t.upsert(payload).rows.len(),
        t.upsert(payload).rows[i].id == t.rows[i].id,
        t.upsert(payload).rows[i].ap_id == t.rows[i].ap_id,
        t.upsert(payload).rows[i] != t.rows[i] ==> t.rows[i].ap_id == payload.ap_id,
{
    if t.has(payload.ap_id) {
        let at = t.index_of(payload.ap_id);
        assert(t.holds_at(payload.ap_id, at));
    }
}

/// Every local identifier that is stored stays stored through a strict insert
/// and through an insert-or-update.
pub proof fn lemma_ids_stay(t: Table, payload: ActorPayload, id: u128)
    requires
        t.wf(),
        t.has_id(id),
    ensures
        t.insert(payload).has_id(id),
        t.upsert(payload).has_id(id),
{
    let i = choose|i: int| t.id_at(id, i);
    assert(t.id_at(id, i));
    lemma_rows_stay(t, payload, i);
    assert(t.insert(payload).id_at(id, i));
    assert(t.upsert(payload).id_at(id, i));
}

} // verus!
