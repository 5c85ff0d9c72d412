use vstd::prelude::*;

verus! {

/// The failures that the federation core reports to its callers.
#[derive(Clone, Copy, Debug, PartialEq, Eq, Structural)]
pub enum FederationError {
    /// The entity is absent, locally or remotely.
    NotFound,
    /// Data is present but does not have the required shape.
    Malformed,
    /// The remote side could not be authenticated, or a document names
    /// another identity than the one it was fetched for.
    Untrusted,
    /// A strict insert met a global identifier that is already stored.
    Conflict,
    /// The signature does not match, also after one forced refresh.
    SignatureMismatch,
    /// The claimed actor has no public key to verify against.
    KeyUnavailable,
    /// The signature did not match the cached key, which may have been
    /// rotated: refresh the actor and verify once more.
    StalePossible,
    /// The actor is not owned by this server and cannot sign.
    NoPrivateKey,
    /// The object's claimed owner is not the sending actor.
    OwnerMismatch,
    /// The object lacks a required field.
    ValidationError,
    /// The content's owner is not an actor of this server.
    NotOwnedLocally,
    /// The store cannot take the write.
    StorageError,
}

impl FederationError {
    /// What to tell a person of this failure.
    pub open spec fn message_text(self) -> Seq<char> {
        match self {
            FederationError::NotFound => "not found"@,
            FederationError::Malformed => "malformed data"@,
            FederationError::Untrusted => "untrusted remote"@,
            FederationError::Conflict => "global identifier already stored"@,
            FederationError::SignatureMismatch => "signature mismatch"@,
            FederationError::KeyUnavailable => "no public key available"@,
            FederationError::StalePossible => "signature mismatch, key may be stale"@,
            FederationError::NoPrivateKey => "actor has no private key"@,
            FederationError::OwnerMismatch => "owner mismatch"@,
            FederationError::ValidationError => "required field missing"@,
            FederationError::NotOwnedLocally => "content is not owned locally"@,
            FederationError::StorageError => "storage unavailable"@,
        }
    }

    /// What to tell a person of this failure.
    pub fn message(&self) -> (text: String)
        ensures
            text@ == self.message_text(),
    {
        match self {
            FederationError::NotFound => "not found".to_owned(),
            FederationError::Malformed => "malformed data".to_owned(),
            FederationError::Untrusted => "untrusted remote".to_owned(),
            FederationError::Conflict => "global identifier already stored".to_owned(),
            FederationError::SignatureMismatch => "signature mismatch".to_owned(),
            FederationError::KeyUnavailable => "no public key available".to_owned(),
            FederationError::StalePossible => "signature mismatch, key may be stale".to_owned(),
            FederationError::NoPrivateKey => "actor has no private key".to_owned(),
            FederationError::OwnerMismatch => "owner mismatch".to_owned(),
            FederationError::ValidationError => "required field missing".to_owned(),
            FederationError::NotOwnedLocally => "content is not owned locally".to_owned(),
            FederationError::StorageError => "storage unavailable".to_owned(),
        }
    }

    /// Whether the caller may recover by refreshing the actor and trying
    /// again; every other failure ends the operation.
    pub fn is_soft(&self) -> (soft: bool)
        ensures
            soft == (*self == FederationError::StalePossible),
    {
        match self {
            FederationError::StalePossible => true,
            _ => false,
        }
    }
}

} // verus!
