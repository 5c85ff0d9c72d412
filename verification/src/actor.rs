use vstd::prelude::*;
use crate::error::FederationError;
use crate::text::{copy_option_text, copy_text, option_text};
use crate::web_url::{parse_url, parsed_url};

verus! {

/// What an actor record holds, as mathematical values.
pub struct ActorRecord {
    pub id: u128,
    pub ap_id: Seq<char>,
    pub username: Seq<char>,
    pub inbox_url: Seq<char>,
    pub public_key: Seq<char>,
    pub private_key: Option<Seq<char>>,
    pub last_refreshed_at: i64,
    pub display_name: Option<Seq<char>>,
    pub bio: Option<Seq<char>>,
}

/// What an actor payload holds, as mathematical values: a record without the
/// local identifier.
pub struct ActorPayload {
    pub ap_id: Seq<char>,
    pub username: Seq<char>,
    pub inbox_url: Seq<char>,
    pub public_key: Seq<char>,
    pub private_key: Option<Seq<char>>,
    pub last_refreshed_at: i64,
    pub display_name: Option<Seq<char>>,
    pub bio: Option<Seq<char>>,
}

impl ActorPayload {
    /// The record that stores this payload under the local identifier `id`.
    pub open spec fn with_id(self, id: u128) -> ActorRecord {
        ActorRecord {
            id,
            ap_id: self.ap_id,
            username: self.username,
            inbox_url: self.inbox_url,
            public_key: self.public_key,
            private_key: self.private_key,
            last_refreshed_at: self.last_refreshed_at,
            display_name: self.display_name,
            bio: self.bio,
        }
    }
}

impl ActorRecord {
    /// The payload that this record was stored from.
    pub open spec fn payload(self) -> ActorPayload {
        ActorPayload {
            ap_id: self.ap_id,
            username: self.username,
            inbox_url: self.inbox_url,
            public_key: self.public_key,
            private_key: self.private_key,
            last_refreshed_at: self.last_refreshed_at,
            display_name: self.display_name,
            bio: self.bio,
        }
    }

    /// Whether this server owns the actor and may sign for it.
    pub open spec fn is_local(self) -> bool {
        self.private_key is Some
    }
}

/// A federated actor as the cache holds it. `id` is the local key, `ap_id`
/// the global identifier; both are fixed once the record exists.
#[derive(Clone, Debug, PartialEq, Eq)]
pub struct ApUser {
    pub id: u128,
    pub ap_id: String,
    pub username: String,
    pub inbox_url: String,
    pub public_key: String,
    pub private_key: Option<String>,
    /// Seconds since the Unix epoch.
    pub last_refreshed_at: i64,
    pub display_name: Option<String>,
    pub bio: Option<String>,
}

/// An actor record as the relational store hands it out, its URLs not yet
/// checked.
#[derive(Clone, Debug, PartialEq, Eq)]
pub struct ApUserRow {
    pub id: u128,
    pub ap_id: String,
    pub username: String,
    pub inbox_url: String,
    pub public_key: String,
    pub private_key: Option<String>,
    pub last_refreshed_at: i64,
    pub display_name: Option<String>,
    pub bio: Option<String>,
}

/// What is known of an actor before it is stored.
#[derive(Clone, Debug, PartialEq, Eq)]
pub struct CreateApUser {
    pub ap_id: String,
    pub username: String,
    pub inbox_url: String,
    pub public_key: String,
    pub private_key: Option<String>,
    pub last_refreshed_at: i64,
    pub display_name: Option<String>,
    pub bio: Option<String>,
}

impl View for ApUser {
    type V = ActorRecord;

    open spec fn view(&self) -> ActorRecord {
        ActorRecord {
            id: self.id,
            ap_id: self.ap_id@,
            username: self.username@,
            inbox_url: self.inbox_url@,
            public_key: self.public_key@,
            private_key: option_text(self.private_key),
            last_refreshed_at: self.last_refreshed_at,
            display_name: option_text(self.display_name),
            bio: option_text(self.bio),
        }
    }
}

impl View for ApUserRow {
    type V = ActorRecord;

    open spec fn view(&self) -> ActorRecord {
        ActorRecord {
            id: self.id,
            ap_id: self.ap_id@,
            username: self.username@,
            inbox_url: self.inbox_url@,
            public_key: self.public_key@,
            private_key: option_text(self.private_key),
            last_refreshed_at: self.last_refreshed_at,
            display_name: option_text(self.display_name),
            bio: option_text(self.bio),
        }
    }
}

impl View for CreateApUser {
    type V = ActorPayload;

    open spec fn view(&self) -> ActorPayload {
        ActorPayload {
            ap_id: self.ap_id@,
            username: self.username@,
            inbox_url: self.inbox_url@,
            public_key: self.public_key@,
            private_key: option_text(self.private_key),
            last_refreshed_at: self.last_refreshed_at,
            display_name: option_text(self.display_name),
            bio: option_text(self.bio),
        }
    }
}

/// The actor that a stored row makes with the canonical forms of its two
/// URLs, `None` standing for one that is no URL: the row with both URLs
/// replaced, or `Malformed` where one of them is missing.
pub open spec fn actor_of_parts(
    row: ActorRecord,
    ap_id: Option<Seq<char>>,
    inbox_url: Option<Seq<char>>,
) -> Result<ActorRecord, FederationError> {
    match (ap_id, inbox_url) {
        (Some(ap_id), Some(inbox_url)) => Ok(ActorRecord { ap_id, inbox_url, ..row }),
        _ => Err(FederationError::Malformed),
    }
}

/// The actor that a stored row stands for: the row with both URLs in the
/// form the URL parser gives them, or `Malformed` where one of them is no URL.
pub open spec fn actor_of_row(row: ActorRecord) -> Result<ActorRecord, FederationError> {
    actor_of_parts(row, parsed_url(row.ap_id), parsed_url(row.inbox_url))
}

/// The view of a result that holds an actor.
pub open spec fn actor_result(result: Result<ApUser, FederationError>) -> Result<
    ActorRecord,
    FederationError,
> {
    match result {
        Ok(actor) => Ok(actor@),
        Err(e) => Err(e),
    }
}

impl ApUser {
    /// Reads a stored row into an actor. Both URLs are parsed; the row is
    /// `Malformed` where one of them does not parse.
    pub fn try_from(value: ApUserRow) -> (actor: Result<ApUser, FederationError>)
        ensures
            actor_result(actor) == actor_of_row(value@),
    {
        let ap_id = parse_url(value.ap_id.as_str());
        let inbox_url = parse_url(value.inbox_url.as_str());
        ApUser::from_parts(value, ap_id, inbox_url)
    }

    /// Makes an actor of a stored row and the canonical forms of its two
    /// URLs, where `None` stands for one that is no URL.
    pub fn from_parts(value: ApUserRow, ap_id: Option<String>, inbox_url: Option<String>) -> (actor:
        Result<ApUser, FederationError>)
        ensures
            actor_result(actor) == actor_of_parts(
                value@,
                option_text(ap_id),
                option_text(inbox_url),
            ),
    {
        match (ap_id, inbox_url) {
            (Some(ap_id), Some(inbox_url)) => Ok(
                ApUser {
                    id: value.id,
                    ap_id,
                    username: value.username,
                    inbox_url,
                    public_key: value.public_key,
                    private_key: value.private_key,
                    last_refreshed_at: value.last_refreshed_at,
                    display_name: value.display_name,
                    bio: value.bio,
                },
            ),
            _ => Err(FederationError::Malformed),
        }
    }

    /// A copy of this actor.
    pub fn duplicate(&self) -> (copy: ApUser)
        ensures
            copy@ == self@,
    {
        ApUser {
            id: self.id,
            ap_id: copy_text(&self.ap_id),
            username: copy_text(&self.username),
            inbox_url: copy_text(&self.inbox_url),
            public_key: copy_text(&self.public_key),
            private_key: copy_option_text(&self.private_key),
            last_refreshed_at: self.last_refreshed_at,
            display_name: copy_option_text(&self.display_name),
            bio: copy_option_text(&self.bio),
        }
    }

    /// Whether this server owns the actor: only then is a private key stored.
    pub fn is_local(&self) -> (local: bool)
        ensures
            local == self@.is_local(),
    {
        self.private_key.is_some()
    }
}

} // verus!
