use vstd::prelude::*;
use crate::actor::ActorRecord;
use crate::actor_store::{lemma_upsert_keeps_wf, Table};
use crate::error::FederationError;
use crate::resolver::{
    completed, completed_result, fetched_payload, lookup, refreshed_payload, Fetched,
    FreshnessPolicy, Step,
};
use crate::store_laws::{
    lemma_held_once, lemma_racing_upserts_leave_one_row, lemma_upsert_stores,
};
use crate::web_url::parsed_url;

verus! {

/// The table after one whole resolution of `global_id`: a look at the cache
/// and, where that asks for a fetch, the taking in of `fetched`, which is what
/// the fetch would bring.
pub open spec fn table_after_resolution(
    t: Table,
    policy: FreshnessPolicy,
    global_id: Seq<char>,
    fetched: Fetched,
    now: i64,
    force_refresh: bool,
) -> Table {
    match lookup(t, policy, global_id, now, force_refresh) {
        Ok(Step::Fetch(_)) => completed(t, global_id, fetched, now),
        _ => t,
    }
}

/// What one whole resolution of `global_id` returns.
pub open spec fn resolution(
    t: Table,
    policy: FreshnessPolicy,
    global_id: Seq<char>,
    fetched: Fetched,
    now: i64,
    force_refresh: bool,
) -> Result<ActorRecord, FederationError> {
    match lookup(t, policy, global_id, now, force_refresh) {
        Ok(Step::Resolved(actor)) => Ok(actor),
        Ok(Step::Fetch(_)) => completed_result(t, global_id, fetched, now),
        Err(e) => Err(e),
    }
}

/// A resolution keeps the table well formed, and where it succeeds the table
/// then holds the canonical form of `global_id` in exactly one row: the actor
/// that was returned.
pub proof fn lemma_resolution_stores(
    t: Table,
    policy: FreshnessPolicy,
    global_id: Seq<char>,
    fetched: Fetched,
    now: i64,
    force_refresh: bool,
)
    requires
        t.wf(),
    ensures
        table_after_resolution(t, policy, global_id, fetched, now, force_refresh).wf(),
        resolution(t, policy, global_id, fetched, now, force_refresh) matches Ok(actor) ==> {
            let after = table_after_resolution(t, policy, global_id, fetched, now, force_refresh);
            &&& parsed_url(global_id) == Some(actor.ap_id)
            &&& after.holds_once(actor.ap_id)
            &&& after.find(actor.ap_id) == Some(actor)
        },
{
    if let Some(key) = parsed_url(global_id) {
        match lookup(t, policy, global_id, now, force_refresh) {
            Ok(Step::Resolved(actor)) => {
                assert(t.holds_at(key, t.index_of(key)));
                lemma_held_once(t, key);
            },
            _ => {
                if let Ok(payload) = fetched_payload(global_id, fetched, now) {
                    let written = refreshed_payload(t, payload);
                    lemma_upsert_keeps_wf(t, written);
                    if t.upsert_result(written) is Ok {
                        lemma_upsert_stores(t, written);
                    }
                }
            },
        }
    }
}

/// Identity is stable across repeated resolution. Of two resolutions of one
/// global identifier, one straight after the other, that both succeed, the
/// second returns the local and the global identifier that the first
/// returned: whether either was served from the cache or fetched, whatever
/// the policy, the clock and the documents were.
pub proof fn lemma_resolution_is_stable(
    t: Table,
    global_id: Seq<char>,
    first_policy: FreshnessPolicy,
    first_fetched: Fetched,
    first_now: i64,
    first_forced: bool,
    second_policy: FreshnessPolicy,
    second_fetched: Fetched,
    second_now: i64,
    second_forced: bool,
)
    requires
        t.wf(),
        resolution(t, first_policy, global_id, first_fetched, first_now, first_forced) is Ok,
        resolution(
            table_after_resolution(
                t,
                first_policy,
                global_id,
                first_fetched,
                first_now,
                first_forced,
            ),
            second_policy,
            global_id,
            second_fetched,
            second_now,
            second_forced,
        ) is Ok,
    ensures
        ({
            let first = resolution(
                t,
                first_policy,
                global_id,
                first_fetched,
                first_now,
                first_forced,
            )->Ok_0;
            let between = table_after_resolution(
                t,
                first_policy,
                global_id,
                first_fetched,
                first_now,
                first_forced,
            );
            let second = resolution(
                between,
                second_policy,
                global_id,
                second_fetched,
                second_now,
                second_forced,
            )->Ok_0;
            let after = table_after_resolution(
                between,
                second_policy,
                global_id,
                second_fetched,
                second_now,
                second_forced,
            );
            &&& second.id == first.id
            &&& second.ap_id == first.ap_id
            &&& after.holds_once(first.ap_id)
            &&& after.rows.len() == between.rows.len()
        }),
{
    let between = table_after_resolution(
        t,
        first_policy,
        global_id,
        first_fetched,
        first_now,
        first_forced,
    );
    lemma_resolution_stores(t, first_policy, global_id, first_fetched, first_now, first_forced);
    lemma_resolution_stores(
        between,
        second_policy,
        global_id,
        second_fetched,
        second_now,
        second_forced,
    );
    let key = parsed_url(global_id)->Some_0;
    assert(between.has(key));
    assert(between.holds_at(key, between.index_of(key)));
}

/// With the default policy a resolved actor is served from the cache from
/// then on: the next resolution that forces no refresh asks for no fetch,
/// changes nothing and returns the very actor that the last one returned.
pub proof fn lemma_resolved_actor_is_cached(
    t: Table,
    policy: FreshnessPolicy,
    global_id: Seq<char>,
    fetched: Fetched,
    now: i64,
    force_refresh: bool,
    later: i64,
)
    requires
        t.wf(),
        resolution(t, policy, global_id, fetched, now, force_refresh) is Ok,
    ensures
        lookup(
            table_after_resolution(t, policy, global_id, fetched, now, force_refresh),
            FreshnessPolicy { max_age: None },
            global_id,
            later,
            false,
        ) == Ok::<Step, FederationError>(
            Step::Resolved(resolution(t, policy, global_id, fetched, now, force_refresh)->Ok_0),
        ),
{
    lemma_resolution_stores(t, policy, global_id, fetched, now, force_refresh);
}

/// Two resolutions of one global identifier that the store does not hold,
/// under way at once, both find it missing and both fetch. Each write to the
/// store is one step, so the two fetches are taken in one after the other:
/// in either order the store then holds the identifier in exactly one row,
/// one row more than before, and both resolutions return the same local
/// identifier.
pub proof fn lemma_concurrent_resolutions_leave_one_row(
    t: Table,
    global_id: Seq<char>,
    policy: FreshnessPolicy,
    one: Fetched,
    one_now: i64,
    other: Fetched,
    other_now: i64,
)
    requires
        t.wf(),
        !t.full(),
        parsed_url(global_id) matches Some(key) && !t.has(key),
        fetched_payload(global_id, one, one_now) is Ok,
        fetched_payload(global_id, other, other_now) is Ok,
    ensures
        ({
            let key = parsed_url(global_id)->Some_0;
            let one_first = completed(
                completed(t, global_id, one, one_now),
                global_id,
                other,
                other_now,
            );
            let other_first = completed(
                completed(t, global_id, other, other_now),
                global_id,
                one,
                one_now,
            );
            &&& lookup(t, policy, global_id, one_now, false) == Ok::<Step, FederationError>(
                Step::Fetch(key),
            )
            &&& lookup(t, policy, global_id, other_now, false) == Ok::<Step, FederationError>(
                Step::Fetch(key),
            )
            &&& one_first.holds_once(key)
            &&& other_first.holds_once(key)
            &&& one_first.rows.len() == t.rows.len() + 1
            &&& other_first.rows.len() == t.rows.len() + 1
            &&& completed_result(t, global_id, one, one_now) matches Ok(a)
            &&& completed_result(
                completed(t, global_id, one, one_now),
                global_id,
                other,
                other_now,
            ) matches Ok(b)
            &&& a.id == b.id
        }),
{
    let a = fetched_payload(global_id, one, one_now)->Ok_0;
    let b = fetched_payload(global_id, other, other_now)->Ok_0;
    lemma_racing_upserts_leave_one_row(t, a, refreshed_payload(t.upsert(a), b));
    lemma_racing_upserts_leave_one_row(t, b, refreshed_payload(t.upsert(b), a));
}

/// A fetch never touches a private key: the actor that a resolution writes
/// over a stored row has the private key, and the local identifier, that the
/// row had, and a new row has no private key.
pub proof fn lemma_refresh_keeps_private_key(
    t: Table,
    global_id: Seq<char>,
    fetched: Fetched,
    now: i64,
)
    requires
        t.wf(),
        completed_result(t, global_id, fetched, now) is Ok,
    ensures
        ({
            let actor = completed_result(t, global_id, fetched, now)->Ok_0;
            match t.find(actor.ap_id) {
                Some(before) => actor.private_key == before.private_key && actor.id == before.id,
                None => actor.private_key is None,
            }
        }),
{
    let payload = fetched_payload(global_id, fetched, now)->Ok_0;
    if t.has(payload.ap_id) {
        assert(t.holds_at(payload.ap_id, t.index_of(payload.ap_id)));
    }
}

} // verus!
