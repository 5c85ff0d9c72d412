use vstd::prelude::*;
use crate::actor::{actor_result, ActorPayload, ActorRecord, ApUser, CreateApUser};
use crate::error::FederationError;

verus! {

/// The actor table as a mathematical value: its rows in the order in which
/// they were stored, and the local identifier that the next new row gets.
pub struct Table {
    pub rows: Seq<ActorRecord>,
    pub next_id: int,
}

impl Table {
    /// No two rows share a local or a global identifier, and every local
    /// identifier in use lies below the next one to be handed out.
    pub open spec fn wf(self) -> bool {
        &&& 0 <= self.next_id <= u128::MAX
        &&& forall|i: int| 0 <= i < self.rows.len() ==> (#[trigger] self.rows[i]).id < self.next_id
        &&& forall|i: int, j: int|
            0 <= i < j < self.rows.len() ==> (#[trigger] self.rows[i]).id != (
            #[trigger] self.rows[j]).id
        &&& forall|i: int, j: int|
            0 <= i < j < self.rows.len() ==> (#[trigger] self.rows[i]).ap_id != (
            #[trigger] self.rows[j]).ap_id
    }

    /// Whether the row at `i` holds the global identifier `ap_id`.
    pub open spec fn holds_at(self, ap_id: Seq<char>, i: int) -> bool {
        0 <= i < self.rows.len() && self.rows[i].ap_id == ap_id
    }

    /// Whether some row holds the global identifier `ap_id`.
    pub open spec fn has(self, ap_id: Seq<char>) -> bool {
        exists|i: int| self.holds_at(ap_id, i)
    }

    /// Where the row with the global identifier `ap_id` stands.
    pub open spec fn index_of(self, ap_id: Seq<char>) -> int {
        choose|i: int| self.holds_at(ap_id, i)
    }

    /// The row with the global identifier `ap_id`.
    pub open spec fn find(self, ap_id: Seq<char>) -> Option<ActorRecord> {
        if self.has(ap_id) {
            Some(self.rows[self.index_of(ap_id)])
        } else {
            None
        }
    }

    /// Whether the row at `i` is the first with the handle `username`.
    pub open spec fn first_named_at(self, username: Seq<char>, i: int) -> bool {
        &&& 0 <= i < self.rows.len()
        &&& self.rows[i].username == username
        &&& forall|j: int| 0 <= j < i ==> (#[trigger] self.rows[j]).username != username
    }

    /// The first row with the handle `username`. Handles are not unique.
    pub open spec fn find_by_username(self, username: Seq<char>) -> Option<ActorRecord> {
        if exists|i: int| self.first_named_at(username, i) {
            Some(self.rows[choose|i: int| self.first_named_at(username, i)])
        } else {
            None
        }
    }

    /// Whether the row at `i` has the local identifier `id`.
    pub open spec fn id_at(self, id: u128, i: int) -> bool {
        0 <= i < self.rows.len() && self.rows[i].id == id
    }

    /// Whether some row has the local identifier `id`.
    pub open spec fn has_id(self, id: u128) -> bool {
        exists|i: int| self.id_at(id, i)
    }

    /// The row with the local identifier `id`.
    pub open spec fn find_by_id(self, id: u128) -> Option<ActorRecord> {
        if self.has_id(id) {
            Some(self.rows[choose|i: int| self.id_at(id, i)])
        } else {
            None
        }
    }

    /// Whether every local identifier has been handed out.
    pub open spec fn full(self) -> bool {
        self.next_id >= u128::MAX
    }

    /// Whether exactly one row holds the global identifier `ap_id`.
    pub open spec fn holds_once(self, ap_id: Seq<char>) -> bool {
        exists|i: int| self.only_at(ap_id, i)
    }

    /// Whether the row at `i`, and no other, holds the global identifier
    /// `ap_id`.
    pub open spec fn only_at(self, ap_id: Seq<char>, i: int) -> bool {
        &&& self.holds_at(ap_id, i)
        &&& forall|j: int| self.holds_at(ap_id, j) ==> j == i
    }

    /// What a strict insert of `payload` returns.
    pub open spec fn insert_result(self, payload: ActorPayload) -> Result<
        ActorRecord,
        FederationError,
    > {
        if self.has(payload.ap_id) {
            Err(FederationError::Conflict)
        } else if self.full() {
            Err(FederationError::StorageError)
        } else {
            Ok(payload.with_id(self.next_id as u128))
        }
    }

    /// The table after a strict insert of `payload`.
    pub open spec fn insert(self, payload: ActorPayload) -> Table {
        match self.insert_result(payload) {
            Ok(record) => Table { rows: self.rows.push(record), next_id: self.next_id + 1 },
            Err(_) => self,
        }
    }

    /// What an insert-or-update of `payload` returns: the payload under the
    /// local identifier that its global identifier already has, or under a
    /// new one.
    pub open spec fn upsert_result(self, payload: ActorPayload) -> Result<
        ActorRecord,
        FederationError,
    > {
        if self.has(payload.ap_id) {
            Ok(payload.with_id(self.rows[self.index_of(payload.ap_id)].id))
        } else if self.full() {
            Err(FederationError::StorageError)
        } else {
            Ok(payload.with_id(self.next_id as u128))
        }
    }

    /// The table after an insert-or-update of `payload`.
    pub open spec fn upsert(self, payload: ActorPayload) -> Table {
        match self.upsert_result(payload) {
            Ok(record) => if self.has(payload.ap_id) {
                Table {
                    rows: self.rows.update(self.index_of(payload.ap_id), record),
                    next_id: self.next_id,
                }
            } else {
                Table { rows: self.rows.push(record), next_id: self.next_id + 1 }
            },
            Err(_) => self,
        }
    }
}

/// The cache of federated actors, keyed by global identifier. Rows enter and
/// change only through [`insert`] and [`upsert`]; none is ever removed.
pub struct ActorStore {
    rows: Vec<ApUser>,
    next_id: u128,
}

impl View for ActorStore {
    type V = Table;

    closed spec fn view(&self) -> Table {
        Table {
            rows: Seq::new(self.rows@.len(), |i: int| self.rows@[i]@),
            next_id: self.next_id as int,
        }
    }
}

/// The records of a list of actors.
pub open spec fn records(rows: Seq<ApUser>) -> Seq<ActorRecord> {
    Seq::new(rows.len(), |i: int| rows[i]@)
}

/// Whether the rows at `i` and `j` share a local or a global identifier.
pub open spec fn clash(rows: Seq<ActorRecord>, i: int, j: int) -> bool {
    0 <= i < j < rows.len() && (rows[i].id == rows[j].id || rows[i].ap_id == rows[j].ap_id)
}

/// Why a list of rows cannot be loaded as a store: `StorageError` where a row
/// has the last local identifier there is, so that none would be left;
/// `Conflict` where two rows share a local or a global identifier.
pub open spec fn load_error(rows: Seq<ActorRecord>) -> Option<FederationError> {
    if exists|i: int| 0 <= i < rows.len() && (#[trigger] rows[i]).id == u128::MAX {
        Some(FederationError::StorageError)
    } else if exists|i: int, j: int| clash(rows, i, j) {
        Some(FederationError::Conflict)
    } else {
        None
    }
}

/// The view of an actor that may be absent.
pub open spec fn found(record: Option<ActorRecord>) -> Result<ActorRecord, FederationError> {
    match record {
        Some(r) => Ok(r),
        None => Err(FederationError::NotFound),
    }
}

impl ActorStore {
    /// The store's invariant: see [`Table::wf`].
    pub open spec fn wf(&self) -> bool {
        self@.wf()
    }

    /// An empty store.
    pub fn new() -> (store: ActorStore)
        ensures
            store.wf(),
            store@.rows.len() == 0,
            store@.next_id == 0,
    {
        ActorStore { rows: Vec::new(), next_id: 0 }
    }

    /// Makes a store of rows that were stored before, in their order. The
    /// next new row gets the local identifier after the greatest in use.
    pub fn load(rows: Vec<ApUser>) -> (store: Result<ActorStore, FederationError>)
        ensures
            match store {
                Ok(s) => {
                    &&& load_error(records(rows@)) is None
                    &&& s.wf()
                    &&& s@.rows == records(rows@)
                    &&& s@.next_id == 0 || exists|i: int|
                        0 <= i < s@.rows.len() && (#[trigger] s@.rows[i]).id + 1 == s@.next_id
                },
                Err(e) => load_error(records(rows@)) == Some(e),
            },
    {
        let ghost all = records(rows@);
        let mut next_id: u128 = 0;
        let mut i: usize = 0;
        while i < rows.len()
            invariant
                i <= rows.len(),
                all == records(rows@),
                forall|j: int| 0 <= j < i ==> (#[trigger] all[j]).id < next_id,
                next_id == 0 || exists|j: int| 0 <= j < i && (#[trigger] all[j]).id + 1 == next_id,
            decreases rows.len() - i,
        {
            let id = rows[i].id;
            if id == u128::MAX {
                assert(all[i as int].id == u128::MAX);
                return Err(FederationError::StorageError);
            }
            if id >= next_id {
                next_id = id + 1;
                assert(all[i as int].id + 1 == next_id);
            }
            i += 1;
        }
        let mut a: usize = 0;
        while a < rows.len()
            invariant
                a <= rows.len(),
                all == records(rows@),
                forall|i: int, j: int| 0 <= i < a ==> !clash(all, i, j),
                forall|j: int| 0 <= j < rows.len() ==> (#[trigger] all[j]).id < next_id,
            decreases rows.len() - a,
        {
            let mut b: usize = a + 1;
            while b < rows.len()
                invariant
                    a < rows.len(),
                    a < b <= rows.len(),
                    all == records(rows@),
                    forall|j: int| a < j < b ==> !clash(all, a as int, j),
                    forall|j: int| 0 <= j < rows.len() ==> (#[trigger] all[j]).id < next_id,
                decreases rows.len() - b,
            {
                if rows[a].id == rows[b].id || rows[a].ap_id == rows[b].ap_id {
                    assert(clash(all, a as int, b as int));
                    return Err(FederationError::Conflict);
                }
                b += 1;
            }
            a += 1;
        }
        let store = ActorStore { rows, next_id };
        proof {
            assert(store@.rows =~= all);
            assert forall|i: int, j: int| 0 <= i < j < all.len() implies (#[trigger] all[i]).id != (
            #[trigger] all[j]).id && all[i].ap_id != all[j].ap_id by {
                assert(!clash(all, i, j));
            }
        }
        Ok(store)
    }

    /// A copy of the store as it stands. Work on the copy and put it in the
    /// store's place to commit, or drop it to roll back: the store itself
    /// never commits.
    pub fn duplicate(&self) -> (copy: ActorStore)
        ensures
            copy@ == self@,
    {
        let mut rows: Vec<ApUser> = Vec::new();
        let mut i: usize = 0;
        while i < self.rows.len()
            invariant
                i <= self.rows.len(),
                rows@.len() == i,
                forall|j: int| 0 <= j < i ==> (#[trigger] rows@[j])@ == self.rows@[j]@,
            decreases self.rows.len() - i,
        {
            rows.push(self.rows[i].duplicate());
            i += 1;
        }
        let copy = ActorStore { rows, next_id: self.next_id };
        assert(copy@.rows =~= self@.rows);
        copy
    }

    /// The number of rows.
    pub fn len(&self) -> (n: usize)
        ensures
            n == self@.rows.len(),
    {
        self.rows.len()
    }

    /// A copy of the row at `index`, in the order in which rows were stored.
    pub fn row(&self, index: usize) -> (actor: Option<ApUser>)
        ensures
            match actor {
                Some(a) => index < self@.rows.len() && a@ == self@.rows[index as int],
                None => index >= self@.rows.len(),
            },
    {
        if index < self.rows.len() {
            Some(self.rows[index].duplicate())
        } else {
            None
        }
    }

    /// Where the row with the global identifier `ap_id` stands.
    fn position(&self, ap_id: &str) -> (at: Option<usize>)
        ensures
            match at {
                Some(i) => self@.holds_at(ap_id@, i as int),
                None => !self@.has(ap_id@),
            },
    {
        let key: String = ap_id.to_owned();
        let mut i: usize = 0;
        while i < self.rows.len()
            invariant
                i <= self.rows.len(),
                key@ == ap_id@,
                forall|j: int| 0 <= j < i ==> !self@.holds_at(ap_id@, j),
            decreases self.rows.len() - i,
        {
            if self.rows[i].ap_id == key {
                return Some(i);
            }
            i += 1;
        }
        None
    }

    /// Whether a row with the global identifier `ap_id` is stored.
    pub fn contains(&self, ap_id: &str) -> (present: bool)
        ensures
            present == self@.has(ap_id@),
    {
        self.position(ap_id).is_some()
    }

    /// A copy of the row with the local identifier `id`.
    pub fn read_by_id(&self, id: u128) -> (actor: Result<ApUser, FederationError>)
        requires
            self.wf(),
        ensures
            actor_result(actor) == found(self@.find_by_id(id)),
    {
        let mut i: usize = 0;
        while i < self.rows.len()
            invariant
                self.wf(),
                i <= self.rows.len(),
                forall|j: int| 0 <= j < i ==> !self@.id_at(id, j),
            decreases self.rows.len() - i,
        {
            if self.rows[i].id == id {
                proof {
                    assert(self@.id_at(id, i as int));
                    let c = choose|c: int| self@.id_at(id, c);
                    assert(self@.id_at(id, c));
                    assert(c == i as int);
                }
                return Ok(self.rows[i].duplicate());
            }
            i += 1;
        }
        Err(FederationError::NotFound)
    }
}

/// Stores a new actor. The global identifier must not be stored yet: where it
/// is, the call fails with `Conflict` and the store is left as it was. The
/// new row gets the next local identifier; where none is left the call fails
/// with `StorageError`.
pub fn insert(tx: &mut ActorStore, create_user: CreateApUser) -> (user: Result<
    ApUser,
    FederationError,
>)
    requires
        old(tx).wf(),
    ensures
        final(tx).wf(),
        final(tx)@ == old(tx)@.insert(create_user@),
        actor_result(user) == old(tx)@.insert_result(create_user@),
{
    if tx.position(create_user.ap_id.as_str()).is_some() {
        return Err(FederationError::Conflict);
    }
    append(tx, create_user)
}

/// Stores an actor under its global identifier: a new row where that
/// identifier is not stored yet, else the stored row with every field but the
/// two identifiers overwritten. Fails only where a new row is needed and no
/// local identifier is left, with `StorageError` and the store as it was.
pub fn upsert(tx: &mut ActorStore, create_user: CreateApUser) -> (user: Result<
    ApUser,
    FederationError,
>)
    requires
        old(tx).wf(),
    ensures
        final(tx).wf(),
        final(tx)@ == old(tx)@.upsert(create_user@),
        actor_result(user) == old(tx)@.upsert_result(create_user@),
{
    match tx.position(create_user.ap_id.as_str()) {
        Some(i) => {
            let ghost before = tx@;
            proof {
                assert(before.holds_at(create_user@.ap_id, i as int));
                assert(before.index_of(create_user@.ap_id) == i as int);
            }
            let stored = ApUser {
                id: tx.rows[i].id,
                ap_id: create_user.ap_id,
                username: create_user.username,
                inbox_url: create_user.inbox_url,
                public_key: create_user.public_key,
                private_key: create_user.private_key,
                last_refreshed_at: create_user.last_refreshed_at,
                display_name: create_user.display_name,
                bio: create_user.bio,
            };
            let user = stored.duplicate();
            tx.rows.set(i, stored);
            proof {
                assert(tx@.rows =~= before.rows.update(i as int, user@));
                lemma_upsert_keeps_wf(before, create_user@);
            }
            Ok(user)
        },
        None => append(tx, create_user),
    }
}

/// Adds a row for a global identifier that is not stored yet.
fn append(tx: &mut ActorStore, create_user: CreateApUser) -> (user: Result<ApUser, FederationError>)
    requires
        old(tx).wf(),
        !old(tx)@.has(create_user@.ap_id),
    ensures
        final(tx).wf(),
        final(tx)@ == old(tx)@.insert(create_user@),
        actor_result(user) == old(tx)@.insert_result(create_user@),
{
    if tx.next_id == u128::MAX {
        return Err(FederationError::StorageError);
    }
    let ghost before = tx@;
    let stored = ApUser {
        id: tx.next_id,
        ap_id: create_user.ap_id,
        username: create_user.username,
        inbox_url: create_user.inbox_url,
        public_key: create_user.public_key,
        private_key: create_user.private_key,
        last_refreshed_at: create_user.last_refreshed_at,
        display_name: create_user.display_name,
        bio: create_user.bio,
    };
    let user = stored.duplicate();
    tx.rows.push(stored);
    tx.next_id = tx.next_id + 1;
    proof {
        assert(tx@.rows =~= before.rows.push(user@));
        lemma_insert_keeps_wf(before, create_user@);
    }
    Ok(user)
}

/// Reads the actor with the global identifier `ap_id`; `NotFound` where none
/// is stored.
pub fn read_by_ap_id(tx: &ActorStore, ap_id: &str) -> (user: Result<ApUser, FederationError>)
    requires
        tx.wf(),
    ensures
        actor_result(user) == found(tx@.find(ap_id@)),
{
    match tx.position(ap_id) {
        Some(i) => {
            proof {
                assert(tx@.holds_at(ap_id@, i as int));
                assert(tx@.index_of(ap_id@) == i as int);
            }
            Ok(tx.rows[i].duplicate())
        },
        None => Err(FederationError::NotFound),
    }
}

/// Reads the first actor with the handle `username`; `NotFound` where none is
/// stored. A handle names an actor on this server only: it decides nothing
/// about trust.
pub fn read_by_username(tx: &ActorStore, username: &str) -> (user: Result<ApUser, FederationError>)
    ensures
        actor_result(user) == found(tx@.find_by_username(username@)),
{
    let key: String = username.to_owned();
    let mut i: usize = 0;
    while i < tx.rows.len()
        invariant
            i <= tx.rows.len(),
            key@ == username@,
            forall|j: int| 0 <= j < i ==> (#[trigger] tx@.rows[j]).username != username@,
        decreases tx.rows.len() - i,
    {
        if tx.rows[i].username == key {
            proof {
                assert(tx@.first_named_at(username@, i as int));
                let c = choose|c: int| tx@.first_named_at(username@, c);
                assert(c == i as int) by {
                    if c < i {
                        assert(tx@.rows[c].username != username@);
                    }
                    if i < c {
                        assert(tx@.rows[i as int].username != username@);
                    }
                }
            }
            return Ok(tx.rows[i].duplicate());
        }
        i += 1;
    }
    proof {
        assert forall|c: int| !tx@.first_named_at(username@, c) by {
            if 0 <= c < tx@.rows.len() {
                assert(tx@.rows[c].username != username@);
            }
        }
    }
    Err(FederationError::NotFound)
}

/// A strict insert keeps the table well formed.
pub proof fn lemma_insert_keeps_wf(t: Table, payload: ActorPayload)
    requires
        t.wf(),
    ensures
        t.insert(payload).wf(),
{
    let after = t.insert(payload);
    if t.insert_result(payload) is Ok {
        let n = t.rows.len() as int;
        assert forall|i: int, j: int| 0 <= i < j < after.rows.len() implies (
        #[trigger] after.rows[i]).ap_id != (#[trigger] after.rows[j]).ap_id by {
            if j == n {
                assert(!t.holds_at(payload.ap_id, i));
            }
        }
    }
}

/// An insert-or-update keeps the table well formed.
pub proof fn lemma_upsert_keeps_wf(t: Table, payload: ActorPayload)
    requires
        t.wf(),
    ensures
        t.upsert(payload).wf(),
{
    if t.has(payload.ap_id) {
        let at = t.index_of(payload.ap_id);
        assert(t.holds_at(payload.ap_id, at));
    } else {
        assert(t.upsert(payload) == t.insert(payload));
        lemma_insert_keeps_wf(t, payload);
    }
}

} // verus!
