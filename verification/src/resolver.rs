use vstd::prelude::*;
use crate::actor::{actor_result, ActorPayload, ActorRecord, ApUser, CreateApUser};
use crate::actor_store::{read_by_ap_id, upsert, ActorStore, Table};
use crate::error::FederationError;
use crate::text::{option_text, same_text};
use crate::web_url::{parse_field, parse_url, parsed_field, parsed_url};

verus! {

/// For how long a cached actor may be served without a new fetch.
#[derive(Clone, Copy, Debug)]
pub struct FreshnessPolicy {
    /// The greatest age in seconds at which a row is still fresh; `None`
    /// where a cached row is always fresh.
    pub max_age: Option<u64>,
}

impl FreshnessPolicy {
    /// Whether a row refreshed at `refreshed_at` is fresh at `now`, both in
    /// seconds since the Unix epoch.
    pub open spec fn allows(self, refreshed_at: i64, now: i64) -> bool {
        match self.max_age {
            None => true,
            Some(age) => now - refreshed_at <= age,
        }
    }

    /// The default policy: a cached row is fresh until a refresh is forced.
    pub fn always_fresh() -> (policy: FreshnessPolicy)
        ensures
            policy.max_age is None,
    {
        FreshnessPolicy { max_age: None }
    }

    /// Whether a row refreshed at `refreshed_at` is fresh at `now`.
    pub fn is_fresh(&self, refreshed_at: i64, now: i64) -> (fresh: bool)
        ensures
            fresh == self.allows(refreshed_at, now),
    {
        match self.max_age {
            None => true,
            Some(age) => {
                let elapsed: i128 = now as i128 - refreshed_at as i128;
                elapsed <= age as i128
            },
        }
    }
}

/// The fields of an identity document, as mathematical values.
pub struct DocumentFields {
    pub id: Option<Seq<char>>,
    pub preferred_username: Option<Seq<char>>,
    pub inbox: Option<Seq<char>>,
    pub public_key_pem: Option<Seq<char>>,
    pub name: Option<Seq<char>>,
    pub summary: Option<Seq<char>>,
}

/// An identity document as a remote server sent it: any field may be missing.
#[derive(Clone, Debug, PartialEq, Eq)]
pub struct ActorDocument {
    pub id: Option<String>,
    pub preferred_username: Option<String>,
    pub inbox: Option<String>,
    pub public_key_pem: Option<String>,
    pub name: Option<String>,
    pub summary: Option<String>,
}

impl View for ActorDocument {
    type V = DocumentFields;

    open spec fn view(&self) -> DocumentFields {
        DocumentFields {
            id: option_text(self.id),
            preferred_username: option_text(self.preferred_username),
            inbox: option_text(self.inbox),
            public_key_pem: option_text(self.public_key_pem),
            name: option_text(self.name),
            summary: option_text(self.summary),
        }
    }
}

/// The actor that an identity document makes with the canonical forms of its
/// identifier and its inbox, `None` standing for one that is missing or no
/// URL. The identifier, the handle, the inbox and the public key are
/// required; else the document is `Malformed`. A fetched actor never has a
/// private key.
pub open spec fn payload_of_parts(
    doc: DocumentFields,
    ap_id: Option<Seq<char>>,
    inbox_url: Option<Seq<char>>,
    fetched_at: i64,
) -> Result<ActorPayload, FederationError> {
    match (ap_id, doc.preferred_username, inbox_url, doc.public_key_pem) {
        (Some(ap_id), Some(username), Some(inbox_url), Some(public_key)) => Ok(
            ActorPayload {
                ap_id,
                username,
                inbox_url,
                public_key,
                private_key: None,
                last_refreshed_at: fetched_at,
                display_name: doc.name,
                bio: doc.summary,
            },
        ),
        _ => Err(FederationError::Malformed),
    }
}

/// The actor that an identity document describes: see [`payload_of_parts`].
pub open spec fn payload_of_document(doc: DocumentFields, fetched_at: i64) -> Result<
    ActorPayload,
    FederationError,
> {
    payload_of_parts(doc, parsed_field(doc.id), parsed_field(doc.inbox), fetched_at)
}

/// The view of a result that holds an actor payload.
pub open spec fn payload_result(result: Result<CreateApUser, FederationError>) -> Result<
    ActorPayload,
    FederationError,
> {
    match result {
        Ok(payload) => Ok(payload@),
        Err(e) => Err(e),
    }
}

/// Reads an identity document into an actor payload, or finds it `Malformed`.
pub fn parse_actor_document(doc: ActorDocument, fetched_at: i64) -> (payload: Result<
    CreateApUser,
    FederationError,
>)
    ensures
        payload_result(payload) == payload_of_document(doc@, fetched_at),
{
    let ap_id = parse_field(&doc.id);
    let inbox_url = parse_field(&doc.inbox);
    doc.into_payload(ap_id, inbox_url, fetched_at)
}

impl ActorDocument {
    /// Makes an actor payload of this document and the canonical forms of its
    /// identifier and its inbox, where `None` stands for one that is missing
    /// or no URL.
    pub fn into_payload(
        self,
        ap_id: Option<String>,
        inbox_url: Option<String>,
        fetched_at: i64,
    ) -> (payload: Result<CreateApUser, FederationError>)
        ensures
            payload_result(payload) == payload_of_parts(
                self@,
                option_text(ap_id),
                option_text(inbox_url),
                fetched_at,
            ),
    {
        match (ap_id, self.preferred_username, inbox_url, self.public_key_pem) {
            (Some(ap_id), Some(username), Some(inbox_url), Some(public_key)) => Ok(
                CreateApUser {
                    ap_id,
                    username,
                    inbox_url,
                    public_key,
                    private_key: None,
                    last_refreshed_at: fetched_at,
                    display_name: self.name,
                    bio: self.summary,
                },
            ),
            _ => Err(FederationError::Malformed),
        }
    }
}

/// How a fetch of an identity document ended, as mathematical values.
pub enum Fetched {
    Document(DocumentFields),
    Absent,
    Unreachable,
    Untrusted,
}

/// How a fetch of an identity document ended.
#[derive(Clone, Debug, PartialEq, Eq)]
pub enum FetchOutcome {
    /// The remote server answered with this document.
    Document(ActorDocument),
    /// The remote server has no document at that address.
    Absent,
    /// The remote server could not be reached.
    Unreachable,
    /// The remote server did not prove to be the host it was asked as.
    Untrusted,
}

impl View for FetchOutcome {
    type V = Fetched;

    open spec fn view(&self) -> Fetched {
        match self {
            FetchOutcome::Document(doc) => Fetched::Document(doc@),
            FetchOutcome::Absent => Fetched::Absent,
            FetchOutcome::Unreachable => Fetched::Unreachable,
            FetchOutcome::Untrusted => Fetched::Untrusted,
        }
    }
}

/// The document that a fetch brought: `NotFound` where the document is
/// absent or the server out of reach, `Untrusted` where the server is.
pub open spec fn document_of(fetched: Fetched) -> Result<DocumentFields, FederationError> {
    match fetched {
        Fetched::Document(doc) => Ok(doc),
        Fetched::Absent => Err(FederationError::NotFound),
        Fetched::Unreachable => Err(FederationError::NotFound),
        Fetched::Untrusted => Err(FederationError::Untrusted),
    }
}

/// The payload of a fetch for the canonical identifier `key`, where it may
/// be stored: `Untrusted` where it names another identifier.
pub open spec fn payload_for_key(key: Seq<char>, payload: ActorPayload) -> Result<
    ActorPayload,
    FederationError,
> {
    if payload.ap_id == key {
        Ok(payload)
    } else {
        Err(FederationError::Untrusted)
    }
}

/// What a fetch for `global_id` gives to store: the actor of the document,
/// where there is one, it is well formed and it names the identifier it was
/// fetched for. `Malformed` where `global_id` is no URL or the document is
/// malformed, `NotFound` where the document is absent or the server out of
/// reach, `Untrusted` where the server is, or where the document names another
/// identifier.
pub open spec fn fetched_payload(global_id: Seq<char>, fetched: Fetched, now: i64) -> Result<
    ActorPayload,
    FederationError,
> {
    match parsed_url(global_id) {
        None => Err(FederationError::Malformed),
        Some(key) => match document_of(fetched) {
            Err(e) => Err(e),
            Ok(doc) => match payload_of_document(doc, now) {
                Err(e) => Err(e),
                Ok(payload) => payload_for_key(key, payload),
            },
        },
    }
}

/// The view of a result that holds a document.
pub open spec fn document_result(result: Result<ActorDocument, FederationError>) -> Result<
    DocumentFields,
    FederationError,
> {
    match result {
        Ok(doc) => Ok(doc@),
        Err(e) => Err(e),
    }
}

impl FetchOutcome {
    /// The document that the fetch brought, or why there is none.
    pub fn document(self) -> (doc: Result<ActorDocument, FederationError>)
        ensures
            document_result(doc) == document_of(self@),
    {
        match self {
            FetchOutcome::Document(doc) => Ok(doc),
            FetchOutcome::Absent => Err(FederationError::NotFound),
            FetchOutcome::Unreachable => Err(FederationError::NotFound),
            FetchOutcome::Untrusted => Err(FederationError::Untrusted),
        }
    }
}

/// What the resolver asks of its caller, as mathematical values.
pub enum Step {
    Resolved(ActorRecord),
    Fetch(Seq<char>),
}

/// What the resolver asks of its caller.
#[derive(Clone, Debug, PartialEq, Eq)]
pub enum ResolveStep {
    /// The cache holds the actor, fresh: no fetch is needed.
    Resolved(ApUser),
    /// Fetch the identity document at this URL and hand the outcome to
    /// [`Resolver::complete`].
    Fetch(String),
}

impl View for ResolveStep {
    type V = Step;

    open spec fn view(&self) -> Step {
        match self {
            ResolveStep::Resolved(actor) => Step::Resolved(actor@),
            ResolveStep::Fetch(url) => Step::Fetch(url@),
        }
    }
}

/// The view of a result that holds a step.
pub open spec fn step_result(result: Result<ResolveStep, FederationError>) -> Result<
    Step,
    FederationError,
> {
    match result {
        Ok(step) => Ok(step@),
        Err(e) => Err(e),
    }
}

/// What a look at the cache decides for the canonical identifier `key`: the
/// cached row where there is one, no refresh is forced and the policy finds
/// the row fresh; else a fetch of `key`.
pub open spec fn lookup_key(
    t: Table,
    policy: FreshnessPolicy,
    key: Seq<char>,
    now: i64,
    force_refresh: bool,
) -> Step {
    match t.find(key) {
        Some(row) => if !force_refresh && policy.allows(row.last_refreshed_at, now) {
            Step::Resolved(row)
        } else {
            Step::Fetch(key)
        },
        None => Step::Fetch(key),
    }
}

/// What a look at the cache decides for `global_id`: what [`lookup_key`]
/// decides for its canonical form; `Malformed` where it is no URL.
pub open spec fn lookup(
    t: Table,
    policy: FreshnessPolicy,
    global_id: Seq<char>,
    now: i64,
    force_refresh: bool,
) -> Result<Step, FederationError> {
    match parsed_url(global_id) {
        None => Err(FederationError::Malformed),
        Some(key) => Ok(lookup_key(t, policy, key, now, force_refresh)),
    }
}

/// What is written for a fetched payload: the payload with the private key
/// of the stored row, where there is one. A fetch has no say on the private
/// key, which no document carries.
pub open spec fn refreshed_payload(t: Table, payload: ActorPayload) -> ActorPayload {
    match t.find(payload.ap_id) {
        Some(row) => ActorPayload { private_key: row.private_key, ..payload },
        None => payload,
    }
}

/// The table after the outcome of a fetch for `global_id` was taken in: a
/// successful fetch is always written, an unsuccessful one writes nothing.
pub open spec fn completed(t: Table, global_id: Seq<char>, fetched: Fetched, now: i64) -> Table {
    match fetched_payload(global_id, fetched, now) {
        Ok(payload) => t.upsert(refreshed_payload(t, payload)),
        Err(_) => t,
    }
}

/// What taking in the outcome of a fetch for `global_id` returns.
pub open spec fn completed_result(
    t: Table,
    global_id: Seq<char>,
    fetched: Fetched,
    now: i64,
) -> Result<ActorRecord, FederationError> {
    match fetched_payload(global_id, fetched, now) {
        Ok(payload) => t.upsert_result(refreshed_payload(t, payload)),
        Err(e) => Err(e),
    }
}

/// Resolves global identifiers to actors, from the cache where the policy
/// allows it and from the network otherwise. The resolver fetches nothing
/// itself: it says when a fetch is needed, and takes in its outcome.
#[derive(Clone, Copy, Debug)]
pub struct Resolver {
    pub policy: FreshnessPolicy,
}

impl Resolver {
    /// A resolver that serves cached rows as `policy` allows.
    pub fn new(policy: FreshnessPolicy) -> (resolver: Resolver)
        ensures
            resolver.policy == policy,
    {
        Resolver { policy }
    }

    /// Looks `global_id` up in the cache. Returns the cached actor, or the URL
    /// to fetch; the store is not changed.
    pub fn resolve(
        &self,
        store: &ActorStore,
        global_id: &str,
        now: i64,
        force_refresh: bool,
    ) -> (step: Result<ResolveStep, FederationError>)
        requires
            store.wf(),
        ensures
            step_result(step) == lookup(store@, self.policy, global_id@, now, force_refresh),
    {
        match parse_url(global_id) {
            Some(key) => Ok(self.resolve_key(store, key, now, force_refresh)),
            None => Err(FederationError::Malformed),
        }
    }

    /// Looks the canonical identifier `key` up in the cache. Returns the
    /// cached actor, or `key` as the URL to fetch.
    pub fn resolve_key(&self, store: &ActorStore, key: String, now: i64, force_refresh: bool) -> (step:
        ResolveStep)
        requires
            store.wf(),
        ensures
            step@ == lookup_key(store@, self.policy, key@, now, force_refresh),
    {
        match read_by_ap_id(store, key.as_str()) {
            Ok(row) => {
                if !force_refresh && self.policy.is_fresh(row.last_refreshed_at, now) {
                    ResolveStep::Resolved(row)
                } else {
                    ResolveStep::Fetch(key)
                }
            },
            Err(_) => ResolveStep::Fetch(key),
        }
    }

    /// Takes in the outcome of the fetch that [`Resolver::resolve`] asked
    /// for. A document that is well formed and names `global_id` is written to
    /// the store, over an older row where there is one, and returned as it now
    /// stands there: everything but the two identifiers and the private key
    /// is as the document has it. Every other outcome is an error and writes
    /// nothing.
    pub fn complete(
        &self,
        store: &mut ActorStore,
        global_id: &str,
        fetched: FetchOutcome,
        now: i64,
    ) -> (actor: Result<ApUser, FederationError>)
        requires
            old(store).wf(),
        ensures
            final(store).wf(),
            final(store)@ == completed(old(store)@, global_id@, fetched@, now),
            actor_result(actor) == completed_result(old(store)@, global_id@, fetched@, now),
    {
        let key = match parse_url(global_id) {
            Some(url) => url,
            None => {
                return Err(FederationError::Malformed);
            },
        };
        let doc = match fetched.document() {
            Ok(doc) => doc,
            Err(e) => {
                return Err(e);
            },
        };
        let payload = match parse_actor_document(doc, now) {
            Ok(payload) => payload,
            Err(e) => {
                return Err(e);
            },
        };
        self.store_fetched(store, key.as_str(), payload)
    }

    /// Writes the payload of a fetch for the canonical identifier `key` to
    /// the store, over an older row where there is one, whose private key
    /// stays. A payload that names another identifier is `Untrusted` and not
    /// written.
    pub fn store_fetched(&self, store: &mut ActorStore, key: &str, payload: CreateApUser) -> (actor:
        Result<ApUser, FederationError>)
        requires
            old(store).wf(),
        ensures
            final(store).wf(),
            final(store)@ == match payload_for_key(key@, payload@) {
                Ok(p) => old(store)@.upsert(refreshed_payload(old(store)@, p)),
                Err(_) => old(store)@,
            },
            actor_result(actor) == match payload_for_key(key@, payload@) {
                Ok(p) => old(store)@.upsert_result(refreshed_payload(old(store)@, p)),
                Err(e) => Err(e),
            },
    {
        if !same_text(payload.ap_id.as_str(), key) {
            return Err(FederationError::Untrusted);
        }
        let private_key = match read_by_ap_id(store, key) {
            Ok(row) => row.private_key,
            Err(_) => payload.private_key,
        };
        let written = CreateApUser {
            ap_id: payload.ap_id,
            username: payload.username,
            inbox_url: payload.inbox_url,
            public_key: payload.public_key,
            private_key,
            last_refreshed_at: payload.last_refreshed_at,
            display_name: payload.display_name,
            bio: payload.bio,
        };
        upsert(store, written)
    }
}

} // verus!
