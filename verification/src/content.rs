use vstd::prelude::*;
use crate::actor::{ActorPayload, ActorRecord, ApUser};
use crate::actor_store::{read_by_ap_id, ActorStore, Table};
use crate::error::FederationError;
use crate::store_laws::lemma_ids_stay;
use crate::text::{copy_option_text, copy_text, option_text, same_text};
use crate::web_url::{parse_field, parsed_field};

verus! {

/// A content row, as mathematical values.
pub struct ContentRecord {
    pub id: u128,
    pub owner_id: u128,
    pub global_id: Option<Seq<char>>,
    pub title: Seq<char>,
    pub body: Seq<char>,
}

/// A piece of content as the local store holds it: a bookmark or a note,
/// owned by the actor with the local identifier `owner_id`. Content that came
/// in from another server carries the global identifier it came under.
#[derive(Clone, Debug, PartialEq, Eq)]
pub struct ContentRow {
    pub id: u128,
    pub owner_id: u128,
    pub global_id: Option<String>,
    pub title: String,
    pub body: String,
}

impl View for ContentRow {
    type V = ContentRecord;

    open spec fn view(&self) -> ContentRecord {
        ContentRecord {
            id: self.id,
            owner_id: self.owner_id,
            global_id: option_text(self.global_id),
            title: self.title@,
            body: self.body@,
        }
    }
}

impl ContentRow {
    /// A copy of this row.
    pub fn duplicate(&self) -> (copy: ContentRow)
        ensures
            copy@ == self@,
    {
        ContentRow {
            id: self.id,
            owner_id: self.owner_id,
            global_id: copy_option_text(&self.global_id),
            title: copy_text(&self.title),
            body: copy_text(&self.body),
        }
    }
}

/// The federated form of a piece of content, as mathematical values.
pub struct FederatedObject {
    pub local_id: u128,
    pub title: Seq<char>,
    pub body: Seq<char>,
    pub owner: Seq<char>,
}

/// A piece of local content in the form in which it leaves this server: its
/// local identifier, its title and body, and the global identifier of the
/// actor that owns it.
#[derive(Clone, Debug, PartialEq, Eq)]
pub struct FederatedContentObject {
    pub local_id: u128,
    pub title: String,
    pub body: String,
    pub owner: String,
}

impl View for FederatedContentObject {
    type V = FederatedObject;

    open spec fn view(&self) -> FederatedObject {
        FederatedObject {
            local_id: self.local_id,
            title: self.title@,
            body: self.body@,
            owner: self.owner@,
        }
    }
}

/// The fields of an inbound object, as mathematical values.
pub struct InboundFields {
    pub id: Option<Seq<char>>,
    pub attributed_to: Option<Seq<char>>,
    pub title: Option<Seq<char>>,
    pub body: Option<Seq<char>>,
}

/// An object as another server delivered it: any field may be missing.
#[derive(Clone, Debug, PartialEq, Eq)]
pub struct InboundObject {
    pub id: Option<String>,
    pub attributed_to: Option<String>,
    pub title: Option<String>,
    pub body: Option<String>,
}

impl View for InboundObject {
    type V = InboundFields;

    open spec fn view(&self) -> InboundFields {
        InboundFields {
            id: option_text(self.id),
            attributed_to: option_text(self.attributed_to),
            title: option_text(self.title),
            body: option_text(self.body),
        }
    }
}

/// An inbound object whose shape was checked, as mathematical values.
pub struct Inbound {
    pub id: Seq<char>,
    pub owner: Seq<char>,
    pub title: Seq<char>,
    pub body: Seq<char>,
}

/// An inbound object whose shape was checked: all four fields are there, and
/// the identifier and the owner are URLs in canonical form.
#[derive(Clone, Debug, PartialEq, Eq)]
pub struct InboundContent {
    pub id: String,
    pub owner: String,
    pub title: String,
    pub body: String,
}

impl View for InboundContent {
    type V = Inbound;

    open spec fn view(&self) -> Inbound {
        Inbound { id: self.id@, owner: self.owner@, title: self.title@, body: self.body@ }
    }
}

/// The shape check on an inbound object, given the canonical forms of its
/// identifier and its owner, `None` standing for one that is missing or no
/// URL: `ValidationError` where one of the four fields is missing.
pub open spec fn validated_parts(
    object: InboundFields,
    id: Option<Seq<char>>,
    owner: Option<Seq<char>>,
) -> Result<Inbound, FederationError> {
    match (id, owner, object.title, object.body) {
        (Some(id), Some(owner), Some(title), Some(body)) => Ok(Inbound { id, owner, title, body }),
        _ => Err(FederationError::ValidationError),
    }
}

/// The shape check on an inbound object: `ValidationError` where a field is
/// missing or the identifier or the owner is no URL.
pub open spec fn validated(object: InboundFields) -> Result<Inbound, FederationError> {
    validated_parts(object, parsed_field(object.id), parsed_field(object.attributed_to))
}

/// The view of a result that holds a checked inbound object.
pub open spec fn inbound_result(result: Result<InboundContent, FederationError>) -> Result<
    Inbound,
    FederationError,
> {
    match result {
        Ok(inbound) => Ok(inbound@),
        Err(e) => Err(e),
    }
}

impl InboundObject {
    /// Checks the shape of this object, given the canonical forms of its
    /// identifier and its owner, where `None` stands for one that is missing
    /// or no URL.
    pub fn validated_with(self, id: Option<String>, owner: Option<String>) -> (inbound: Result<
        InboundContent,
        FederationError,
    >)
        ensures
            inbound_result(inbound) == validated_parts(self@, option_text(id), option_text(owner)),
    {
        match (id, owner, self.title, self.body) {
            (Some(id), Some(owner), Some(title), Some(body)) => Ok(
                InboundContent { id, owner, title, body },
            ),
            _ => Err(FederationError::ValidationError),
        }
    }

    /// Checks the shape of this object.
    pub fn validate(self) -> (inbound: Result<InboundContent, FederationError>)
        ensures
            inbound_result(inbound) == validated(self@),
    {
        let id = parse_field(&self.id);
        let owner = parse_field(&self.attributed_to);
        self.validated_with(id, owner)
    }
}

/// The content table as a mathematical value: its rows in the order in which
/// they were stored, and the local identifier that the next new row gets.
pub struct Shelf {
    pub rows: Seq<ContentRecord>,
    pub next_id: int,
}

impl Shelf {
    /// No two rows share a local identifier or a global one, and every local
    /// identifier in use lies below the next one to be handed out.
    pub open spec fn wf(self) -> bool {
        &&& 0 <= self.next_id <= u128::MAX
        &&& forall|i: int| 0 <= i < self.rows.len() ==> (#[trigger] self.rows[i]).id < self.next_id
        &&& forall|i: int, j: int|
            0 <= i < j < self.rows.len() ==> (#[trigger] self.rows[i]).id != (
            #[trigger] self.rows[j]).id
        &&& forall|i: int, j: int|
            0 <= i < j < self.rows.len() && (#[trigger] self.rows[i]).global_id is Some ==> (
            self.rows[i]).global_id != (#[trigger] self.rows[j]).global_id
    }

    /// Every row is owned by an actor that `actors` holds.
    pub open spec fn linked(self, actors: Table) -> bool {
        forall|i: int| 0 <= i < self.rows.len() ==> actors.has_id((#[trigger] self.rows[i]).owner_id)
    }

    /// Whether the row at `i` has the local identifier `id`.
    pub open spec fn id_at(self, id: u128, i: int) -> bool {
        0 <= i < self.rows.len() && self.rows[i].id == id
    }

    /// The row with the local identifier `id`.
    pub open spec fn find_by_id(self, id: u128) -> Option<ContentRecord> {
        if exists|i: int| self.id_at(id, i) {
            Some(self.rows[choose|i: int| self.id_at(id, i)])
        } else {
            None
        }
    }

    /// Whether the row at `i` came in under the global identifier
    /// `global_id`.
    pub open spec fn named_at(self, global_id: Seq<char>, i: int) -> bool {
        0 <= i < self.rows.len() && self.rows[i].global_id == Some(global_id)
    }

    /// Whether some row came in under the global identifier `global_id`.
    pub open spec fn has_global(self, global_id: Seq<char>) -> bool {
        exists|i: int| self.named_at(global_id, i)
    }

    /// Where the row that came in under `global_id` stands.
    pub open spec fn index_of_global(self, global_id: Seq<char>) -> int {
        choose|i: int| self.named_at(global_id, i)
    }

    /// Whether every local identifier has been handed out.
    pub open spec fn full(self) -> bool {
        self.next_id >= u128::MAX
    }

    /// What adding local content for the actor `owner_id` returns: the new
    /// row's local identifier; `NotFound` where `actors` holds no such actor,
    /// `StorageError` where no identifier is left.
    pub open spec fn add_result(self, actors: Table, owner_id: u128) -> Result<
        u128,
        FederationError,
    > {
        if !actors.has_id(owner_id) {
            Err(FederationError::NotFound)
        } else if self.full() {
            Err(FederationError::StorageError)
        } else {
            Ok(self.next_id as u128)
        }
    }

    /// The table after local content was added.
    pub open spec fn add(self, actors: Table, owner_id: u128, title: Seq<char>, body: Seq<char>)
        -> Shelf {
        match self.add_result(actors, owner_id) {
            Ok(id) => Shelf {
                rows: self.rows.push(ContentRecord { id, owner_id, global_id: None, title, body }),
                next_id: self.next_id + 1,
            },
            Err(_) => self,
        }
    }

    /// The federated form of the content `content_id`: `NotFound` where there
    /// is no such content or its owner is no stored actor, `NotOwnedLocally`
    /// where the owner has no private key.
    pub open spec fn federated(self, actors: Table, content_id: u128) -> Result<
        FederatedObject,
        FederationError,
    > {
        match self.find_by_id(content_id) {
            None => Err(FederationError::NotFound),
            Some(row) => match actors.find_by_id(row.owner_id) {
                None => Err(FederationError::NotFound),
                Some(owner) => if owner.is_local() {
                    Ok(
                        FederatedObject {
                            local_id: row.id,
                            title: row.title,
                            body: row.body,
                            owner: owner.ap_id,
                        },
                    )
                } else {
                    Err(FederationError::NotOwnedLocally)
                },
            },
        }
    }

    /// What absorbing the checked object `inbound` from `sender` returns: the
    /// local identifier of the row that now holds it. `OwnerMismatch` where
    /// the object claims another owner than the sender, or is stored already
    /// for another owner; `NotFound` where `actors` does not hold the sender;
    /// `StorageError` where a new row is needed and no identifier is left.
    pub open spec fn absorb_result(self, actors: Table, inbound: Inbound, sender: ActorRecord)
        -> Result<u128, FederationError> {
        if inbound.owner != sender.ap_id {
            Err(FederationError::OwnerMismatch)
        } else if !(actors.find(sender.ap_id) matches Some(stored) && stored.id == sender.id) {
            Err(FederationError::NotFound)
        } else if self.has_global(inbound.id) {
            let row = self.rows[self.index_of_global(inbound.id)];
            if row.owner_id != sender.id {
                Err(FederationError::OwnerMismatch)
            } else {
                Ok(row.id)
            }
        } else if self.full() {
            Err(FederationError::StorageError)
        } else {
            Ok(self.next_id as u128)
        }
    }

    /// The table after the checked object `inbound` from `sender` was
    /// absorbed: on success the row of the object's global identifier holds
    /// its title and body, a new row where none was there; on failure nothing
    /// is written.
    pub open spec fn absorb(self, actors: Table, inbound: Inbound, sender: ActorRecord) -> Shelf {
        match self.absorb_result(actors, inbound, sender) {
            Ok(id) => {
                let row = ContentRecord {
                    id,
                    owner_id: sender.id,
                    global_id: Some(inbound.id),
                    title: inbound.title,
                    body: inbound.body,
                };
                if self.has_global(inbound.id) {
                    Shelf {
                        rows: self.rows.update(self.index_of_global(inbound.id), row),
                        next_id: self.next_id,
                    }
                } else {
                    Shelf { rows: self.rows.push(row), next_id: self.next_id + 1 }
                }
            },
            Err(_) => self,
        }
    }
}

/// The records of a list of content rows.
pub open spec fn content_records(rows: Seq<ContentRow>) -> Seq<ContentRecord> {
    Seq::new(rows.len(), |i: int| rows[i]@)
}

/// Whether the rows at `i` and `j` share a local identifier, or a global one.
pub open spec fn content_clash(rows: Seq<ContentRecord>, i: int, j: int) -> bool {
    0 <= i < j < rows.len() && (rows[i].id == rows[j].id || (rows[i].global_id is Some
        && rows[i].global_id == rows[j].global_id))
}

/// Why a list of rows cannot be loaded as a store: `StorageError` where a row
/// has the last local identifier there is, so that none would be left;
/// `Conflict` where two rows share a local or a global identifier.
pub open spec fn content_load_error(rows: Seq<ContentRecord>) -> Option<FederationError> {
    if exists|i: int| 0 <= i < rows.len() && (#[trigger] rows[i]).id == u128::MAX {
        Some(FederationError::StorageError)
    } else if exists|i: int, j: int| content_clash(rows, i, j) {
        Some(FederationError::Conflict)
    } else {
        None
    }
}

/// The local content of this server.
pub struct ContentStore {
    rows: Vec<ContentRow>,
    next_id: u128,
}

impl View for ContentStore {
    type V = Shelf;

    closed spec fn view(&self) -> Shelf {
        Shelf {
            rows: Seq::new(self.rows@.len(), |i: int| self.rows@[i]@),
            next_id: self.next_id as int,
        }
    }
}

/// The view of a result that holds a content row.
pub open spec fn content_result(result: Result<ContentRow, FederationError>) -> Result<
    ContentRecord,
    FederationError,
> {
    match result {
        Ok(row) => Ok(row@),
        Err(e) => Err(e),
    }
}

/// The view of a result that holds a federated object.
pub open spec fn federated_result(result: Result<FederatedContentObject, FederationError>)
    -> Result<FederatedObject, FederationError> {
    match result {
        Ok(object) => Ok(object@),
        Err(e) => Err(e),
    }
}

impl ContentStore {
    /// The store's invariant: see [`Shelf::wf`].
    pub open spec fn wf(&self) -> bool {
        self@.wf()
    }

    /// An empty store.
    pub fn new() -> (store: ContentStore)
        ensures
            store.wf(),
            store@.rows.len() == 0,
            store@.next_id == 0,
            forall|actors: Table| store@.linked(actors),
    {
        ContentStore { rows: Vec::new(), next_id: 0 }
    }

    /// Makes a store of rows that were stored before, in their order. The
    /// next new row gets the local identifier after the greatest in use.
    pub fn load(rows: Vec<ContentRow>) -> (store: Result<ContentStore, FederationError>)
        ensures
            match store {
                Ok(s) => {
                    &&& content_load_error(content_records(rows@)) is None
                    &&& s.wf()
                    &&& s@.rows == content_records(rows@)
                    &&& s@.next_id == 0 || exists|i: int|
                        0 <= i < s@.rows.len() && (#[trigger] s@.rows[i]).id + 1 == s@.next_id
                },
                Err(e) => content_load_error(content_records(rows@)) == Some(e),
            },
    {
        let ghost all = content_records(rows@);
        let mut next_id: u128 = 0;
        let mut i: usize = 0;
        while i < rows.len()
            invariant
                i <= rows.len(),
                all == content_records(rows@),
                forall|j: int| 0 <= j < i ==> (#[trigger] all[j]).id < next_id,
                next_id == 0 || exists|j: int| 0 <= j < i && (#[trigger] all[j]).id + 1 == next_id,
            decreases rows.len() - i,
        {
            let id = rows[i].id;
            if id == u128::MAX {
                assert(all[i as int].id == u128::MAX);
                return Err(FederationError::StorageError);
            }
            if id >= next_id {
                next_id = id + 1;
                assert(all[i as int].id + 1 == next_id);
            }
            i += 1;
        }
        let mut a: usize = 0;
        while a < rows.len()
            invariant
                a <= rows.len(),
                all == content_records(rows@),
                forall|i: int, j: int| 0 <= i < a ==> !content_clash(all, i, j),
                forall|j: int| 0 <= j < rows.len() ==> (#[trigger] all[j]).id < next_id,
            decreases rows.len() - a,
        {
            let mut b: usize = a + 1;
            while b < rows.len()
                invariant
                    a < rows.len(),
                    a < b <= rows.len(),
                    all == content_records(rows@),
                    forall|j: int| a < j < b ==> !content_clash(all, a as int, j),
                    forall|j: int| 0 <= j < rows.len() ==> (#[trigger] all[j]).id < next_id,
                decreases rows.len() - b,
            {
                let same_name = match (&rows[a].global_id, &rows[b].global_id) {
                    (Some(one), Some(other)) => same_text(one.as_str(), other.as_str()),
                    _ => false,
                };
                if rows[a].id == rows[b].id || same_name {
                    assert(content_clash(all, a as int, b as int));
                    return Err(FederationError::Conflict);
                }
                b += 1;
            }
            a += 1;
        }
        let store = ContentStore { rows, next_id };
        proof {
            assert(store@.rows =~= all);
            assert forall|i: int, j: int| 0 <= i < j < all.len() implies (#[trigger] all[i]).id != (
            #[trigger] all[j]).id && (all[i].global_id is Some ==> all[i].global_id
                != all[j].global_id) by {
                assert(!content_clash(all, i, j));
            }
        }
        Ok(store)
    }

    /// A copy of the store as it stands. Work on the copy and put it in the
    /// store's place to commit, or drop it to roll back: the store itself
    /// never commits.
    pub fn duplicate(&self) -> (copy: ContentStore)
        ensures
            copy@ == self@,
    {
        let mut rows: Vec<ContentRow> = Vec::new();
        let mut i: usize = 0;
        while i < self.rows.len()
            invariant
                i <= self.rows.len(),
                rows@.len() == i,
                forall|j: int| 0 <= j < i ==> (#[trigger] rows@[j])@ == self.rows@[j]@,
            decreases self.rows.len() - i,
        {
            rows.push(self.rows[i].duplicate());
            i += 1;
        }
        let copy = ContentStore { rows, next_id: self.next_id };
        assert(copy@.rows =~= self@.rows);
        copy
    }

    /// The number of rows.
    pub fn len(&self) -> (n: usize)
        ensures
            n == self@.rows.len(),
    {
        self.rows.len()
    }

    /// Where the row with the local identifier `id` stands.
    fn position(&self, id: u128) -> (at: Option<usize>)
        requires
            self.wf(),
        ensures
            match at {
                Some(i) => self@.id_at(id, i as int) && self@.find_by_id(id) == Some(
                    self@.rows[i as int],
                ),
                None => self@.find_by_id(id) is None,
            },
    {
        let mut i: usize = 0;
        while i < self.rows.len()
            invariant
                self.wf(),
                i <= self.rows.len(),
                forall|j: int| 0 <= j < i ==> !self@.id_at(id, j),
            decreases self.rows.len() - i,
        {
            if self.rows[i].id == id {
                proof {
                    assert(self@.id_at(id, i as int));
                    let c = choose|c: int| self@.id_at(id, c);
                    assert(self@.id_at(id, c));
                    assert(c == i as int);
                }
                return Some(i);
            }
            i += 1;
        }
        None
    }

    /// Where the row that came in under `global_id` stands.
    fn position_of_global(&self, global_id: &str) -> (at: Option<usize>)
        requires
            self.wf(),
        ensures
            match at {
                Some(i) => self@.named_at(global_id@, i as int) && self@.index_of_global(global_id@)
                    == i as int,
                None => !self@.has_global(global_id@),
            },
    {
        let key: String = global_id.to_owned();
        let mut i: usize = 0;
        while i < self.rows.len()
            invariant
                self.wf(),
                i <= self.rows.len(),
                key@ == global_id@,
                forall|j: int| 0 <= j < i ==> !self@.named_at(global_id@, j),
            decreases self.rows.len() - i,
        {
            let hit = match &self.rows[i].global_id {
                Some(stored) => *stored == key,
                None => false,
            };
            if hit {
                proof {
                    assert(self@.named_at(global_id@, i as int));
                    let c = self@.index_of_global(global_id@);
                    assert(self@.named_at(global_id@, c));
                    assert(c == i as int);
                }
                return Some(i);
            }
            i += 1;
        }
        None
    }
}

/// Reads the content with the local identifier `id`; `NotFound` where there
/// is none.
pub fn by_id(tx: &ContentStore, id: u128) -> (item: Result<ContentRow, FederationError>)
    requires
        tx.wf(),
    ensures
        content_result(item) == match tx@.find_by_id(id) {
            Some(row) => Ok::<ContentRecord, FederationError>(row),
            None => Err(FederationError::NotFound),
        },
{
    match tx.position(id) {
        Some(i) => Ok(tx.rows[i].duplicate()),
        None => Err(FederationError::NotFound),
    }
}

/// Stores a new piece of content of this server for the actor `owner_id`,
/// which `actors` must hold, and returns its local identifier.
pub fn add_local_content(
    contents: &mut ContentStore,
    actors: &ActorStore,
    owner_id: u128,
    title: String,
    body: String,
) -> (id: Result<u128, FederationError>)
    requires
        old(contents).wf(),
        actors.wf(),
    ensures
        final(contents).wf(),
        id == old(contents)@.add_result(actors@, owner_id),
        final(contents)@ == old(contents)@.add(actors@, owner_id, title@, body@),
        old(contents)@.linked(actors@) ==> final(contents)@.linked(actors@),
{
    if actors.read_by_id(owner_id).is_err() {
        return Err(FederationError::NotFound);
    }
    if contents.next_id == u128::MAX {
        return Err(FederationError::StorageError);
    }
    let ghost before = contents@;
    let id = contents.next_id;
    let row = ContentRow { id, owner_id, global_id: None, title, body };
    let ghost record = row@;
    contents.rows.push(row);
    contents.next_id = contents.next_id + 1;
    proof {
        assert(contents@.rows =~= before.rows.push(record));
    }
    Ok(id)
}

/// Renders the local content `content_id` into the form in which it is sent
/// to other servers. Only content of an actor that this server holds the
/// private key of can be sent.
pub fn to_federated_representation(
    contents: &ContentStore,
    actors: &ActorStore,
    content_id: u128,
) -> (object: Result<FederatedContentObject, FederationError>)
    requires
        contents.wf(),
        actors.wf(),
    ensures
        federated_result(object) == contents@.federated(actors@, content_id),
{
    let i = match contents.position(content_id) {
        Some(i) => i,
        None => {
            return Err(FederationError::NotFound);
        },
    };
    let owner = match actors.read_by_id(contents.rows[i].owner_id) {
        Ok(owner) => owner,
        Err(_) => {
            return Err(FederationError::NotFound);
        },
    };
    if !owner.is_local() {
        return Err(FederationError::NotOwnedLocally);
    }
    Ok(
        FederatedContentObject {
            local_id: contents.rows[i].id,
            title: copy_text(&contents.rows[i].title),
            body: copy_text(&contents.rows[i].body),
            owner: owner.ap_id,
        },
    )
}

/// Takes in an object that `sending_actor` delivered, and returns the local
/// identifier of the row that holds it: the row of the object's global
/// identifier, with title and body overwritten, or a new one. The object must
/// have the required shape and claim the sender as its owner, and `actors`
/// must hold the sender. A call that fails writes nothing, and no row ever
/// names an owner that `actors` does not hold.
pub fn absorb_inbound(
    contents: &mut ContentStore,
    actors: &ActorStore,
    object: InboundObject,
    sending_actor: &ApUser,
) -> (id: Result<u128, FederationError>)
    requires
        old(contents).wf(),
        actors.wf(),
    ensures
        final(contents).wf(),
        match validated(object@) {
            Ok(inbound) => {
                &&& id == old(contents)@.absorb_result(actors@, inbound, sending_actor@)
                &&& final(contents)@ == old(contents)@.absorb(actors@, inbound, sending_actor@)
            },
            Err(e) => id == Err::<u128, FederationError>(e) && final(contents)@ == old(contents)@,
        },
        id is Err ==> final(contents)@ == old(contents)@,
        old(contents)@.linked(actors@) ==> final(contents)@.linked(actors@),
{
    match object.validate() {
        Ok(inbound) => absorb_validated(contents, actors, inbound, sending_actor),
        Err(e) => Err(e),
    }
}

/// Takes in an object whose shape was checked: see [`absorb_inbound`].
pub fn absorb_validated(
    contents: &mut ContentStore,
    actors: &ActorStore,
    inbound: InboundContent,
    sending_actor: &ApUser,
) -> (id: Result<u128, FederationError>)
    requires
        old(contents).wf(),
        actors.wf(),
    ensures
        final(contents).wf(),
        id == old(contents)@.absorb_result(actors@, inbound@, sending_actor@),
        final(contents)@ == old(contents)@.absorb(actors@, inbound@, sending_actor@),
        id is Err ==> final(contents)@ == old(contents)@,
        old(contents)@.linked(actors@) ==> final(contents)@.linked(actors@),
{
    let ghost before = contents@;
    let InboundContent { id: global_id, owner, title, body } = inbound;
    if !same_text(owner.as_str(), sending_actor.ap_id.as_str()) {
        return Err(FederationError::OwnerMismatch);
    }
    match read_by_ap_id(actors, sending_actor.ap_id.as_str()) {
        Ok(stored) => {
            if stored.id != sending_actor.id {
                return Err(FederationError::NotFound);
            }
        },
        Err(_) => {
            return Err(FederationError::NotFound);
        },
    }
    proof {
        let at = actors@.index_of(sending_actor@.ap_id);
        assert(actors@.holds_at(sending_actor@.ap_id, at));
        assert(actors@.id_at(sending_actor@.id, at));
    }
    match contents.position_of_global(global_id.as_str()) {
        Some(i) => {
            if contents.rows[i].owner_id != sending_actor.id {
                return Err(FederationError::OwnerMismatch);
            }
            let id = contents.rows[i].id;
            let row = ContentRow {
                id,
                owner_id: sending_actor.id,
                global_id: Some(global_id),
                title,
                body,
            };
            let ghost record = row@;
            contents.rows.set(i, row);
            proof {
                assert(contents@.rows =~= before.rows.update(i as int, record));
                assert forall|a: int, b: int|
                    0 <= a < b < contents@.rows.len() && (
                    #[trigger] contents@.rows[a]).global_id is Some implies contents@.rows[a].global_id
                    != (#[trigger] contents@.rows[b]).global_id by {
                    assert(before.rows[a].global_id is Some || a == i);
                    if a == i {
                        assert(before.rows[a].global_id != before.rows[b].global_id);
                    } else if b == i {
                        assert(before.rows[a].global_id != before.rows[b].global_id);
                    } else {
                        assert(before.rows[a].global_id != before.rows[b].global_id);
                    }
                }
            }
            Ok(id)
        },
        None => {
            if contents.next_id == u128::MAX {
                return Err(FederationError::StorageError);
            }
            let id = contents.next_id;
            let row = ContentRow {
                id,
                owner_id: sending_actor.id,
                global_id: Some(global_id),
                title,
                body,
            };
            let ghost record = row@;
            contents.rows.push(row);
            contents.next_id = contents.next_id + 1;
            proof {
                assert(contents@.rows =~= before.rows.push(record));
                let n = before.rows.len() as int;
                assert forall|a: int, b: int|
                    0 <= a < b < contents@.rows.len() && (
                    #[trigger] contents@.rows[a]).global_id is Some implies contents@.rows[a].global_id
                    != (#[trigger] contents@.rows[b]).global_id by {
                    if b == n {
                        assert(!before.named_at(record.global_id->Some_0, a));
                    } else {
                        assert(before.rows[a].global_id != before.rows[b].global_id);
                    }
                }
            }
            Ok(id)
        },
    }
}

/// Content stays owned by stored actors whatever is written to the actor
/// store: rows enter it and change in it, none leaves.
pub proof fn lemma_links_survive(shelf: Shelf, actors: Table, payload: ActorPayload)
    requires
        actors.wf(),
        shelf.linked(actors),
    ensures
        shelf.linked(actors.insert(payload)),
        shelf.linked(actors.upsert(payload)),
{
    assert forall|i: int| 0 <= i < shelf.rows.len() implies actors.insert(payload).has_id(
        (#[trigger] shelf.rows[i]).owner_id,
    ) && actors.upsert(payload).has_id(shelf.rows[i].owner_id) by {
        lemma_ids_stay(actors, payload, shelf.rows[i].owner_id);
    }
}

/// An object that claims another owner than its sender is refused with
/// `OwnerMismatch`, whatever else holds of it, and nothing is written.
pub proof fn lemma_foreign_owner_is_refused(
    shelf: Shelf,
    actors: Table,
    inbound: Inbound,
    sender: ActorRecord,
)
    requires
        inbound.owner != sender.ap_id,
    ensures
        shelf.absorb_result(actors, inbound, sender) == Err::<u128, FederationError>(
            FederationError::OwnerMismatch,
        ),
        shelf.absorb(actors, inbound, sender) == shelf,
{
}

/// Only content of an actor whose private key this server holds leaves it:
/// where a federated form is made, the content is stored, its owner is a
/// stored actor with a private key, and the form names that owner.
pub proof fn lemma_only_local_content_leaves(shelf: Shelf, actors: Table, content_id: u128)
    requires
        shelf.federated(actors, content_id) is Ok,
    ensures
        shelf.find_by_id(content_id) matches Some(row) && actors.find_by_id(row.owner_id) matches Some(
            owner,
        ) && owner.is_local() && shelf.federated(actors, content_id)->Ok_0.owner == owner.ap_id,
{
}

} // verus!
