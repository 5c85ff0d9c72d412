use vstd::prelude::*;
use crate::actor::{ActorRecord, ApUser};
use crate::error::FederationError;
use crate::text::{copy_text, same_text};

verus! {

/// A signed payload, as mathematical values.
pub struct Signed {
    pub payload: Seq<u8>,
    pub key_id: Seq<char>,
    pub signature: Seq<u8>,
}

/// A payload with the signature over it and the global identifier of the
/// actor in whose name it was signed.
#[derive(Clone, Debug, PartialEq, Eq)]
pub struct SignedPayload {
    pub payload: Vec<u8>,
    pub key_id: String,
    pub signature: Vec<u8>,
}

impl View for SignedPayload {
    type V = Signed;

    open spec fn view(&self) -> Signed {
        Signed { payload: self.payload@, key_id: self.key_id@, signature: self.signature@ }
    }
}

/// What is handed to the signature primitive to sign, as mathematical values.
pub struct SigningInput {
    pub message: Seq<u8>,
    pub private_key: Seq<char>,
    pub key_id: Seq<char>,
}

/// What is handed to the signature primitive to sign: the message, the key to
/// sign it with and the name to sign it in.
#[derive(Clone, Debug, PartialEq, Eq)]
pub struct SigningRequest {
    pub message: Vec<u8>,
    pub private_key: String,
    pub key_id: String,
}

impl View for SigningRequest {
    type V = SigningInput;

    open spec fn view(&self) -> SigningInput {
        SigningInput {
            message: self.message@,
            private_key: self.private_key@,
            key_id: self.key_id@,
        }
    }
}

/// What is handed to the signature primitive to check, as mathematical values.
pub struct VerificationInput {
    pub message: Seq<u8>,
    pub signature: Seq<u8>,
    pub public_key: Seq<char>,
}

/// What is handed to the signature primitive to check: the message, the
/// signature that came with it and the key to check it against.
#[derive(Clone, Debug, PartialEq, Eq)]
pub struct VerificationRequest {
    pub message: Vec<u8>,
    pub signature: Vec<u8>,
    pub public_key: String,
}

impl View for VerificationRequest {
    type V = VerificationInput;

    open spec fn view(&self) -> VerificationInput {
        VerificationInput {
            message: self.message@,
            signature: self.signature@,
            public_key: self.public_key@,
        }
    }
}

/// What signing `payload` in the name of `actor` hands to the primitive: the
/// payload as it is, under the actor's private key. `NoPrivateKey` where the
/// actor has none, which is a fault of the caller: only actors of this server
/// sign.
pub open spec fn signing_input(payload: Seq<u8>, actor: ActorRecord) -> Result<
    SigningInput,
    FederationError,
> {
    match actor.private_key {
        Some(private_key) => Ok(SigningInput { message: payload, private_key, key_id: actor.ap_id }),
        None => Err(FederationError::NoPrivateKey),
    }
}

/// The signed payload that a signing input and the signature over its message
/// make.
pub open spec fn sealed(input: SigningInput, signature: Seq<u8>) -> Signed {
    Signed { payload: input.message, key_id: input.key_id, signature }
}

/// What verifying `signed` against `actor` hands to the primitive: the
/// payload, its signature and the actor's public key. `KeyUnavailable` where
/// the actor has no public key; `SignatureMismatch` where the payload was
/// signed in another actor's name.
pub open spec fn verification_input(signed: Signed, actor: ActorRecord) -> Result<
    VerificationInput,
    FederationError,
> {
    if actor.public_key.len() == 0 {
        Err(FederationError::KeyUnavailable)
    } else if signed.key_id != actor.ap_id {
        Err(FederationError::SignatureMismatch)
    } else {
        Ok(
            VerificationInput {
                message: signed.payload,
                signature: signed.signature,
                public_key: actor.public_key,
            },
        )
    }
}

/// The verdict on `signed` as coming from `actor`, where `signature_matches`
/// says whether the primitive accepted what [`verification_input`] handed it,
/// and `refreshed` whether the actor's key was fetched anew for this check. A
/// signature that matches passes. One that does not match a cached key is
/// `StalePossible`: the key may have been rotated. One that does not match a
/// key fetched anew is a `SignatureMismatch`.
pub open spec fn verdict(
    signed: Signed,
    actor: ActorRecord,
    signature_matches: bool,
    refreshed: bool,
) -> Result<(), FederationError> {
    match verification_input(signed, actor) {
        Err(e) => Err(e),
        Ok(_) => if signature_matches {
            Ok(())
        } else if refreshed {
            Err(FederationError::SignatureMismatch)
        } else {
            Err(FederationError::StalePossible)
        },
    }
}

/// The view of a result that holds a signing request.
pub open spec fn signing_result(result: Result<SigningRequest, FederationError>) -> Result<
    SigningInput,
    FederationError,
> {
    match result {
        Ok(request) => Ok(request@),
        Err(e) => Err(e),
    }
}

/// The view of a result that holds a verification request.
pub open spec fn verification_result(
    result: Result<VerificationRequest, FederationError>,
) -> Result<VerificationInput, FederationError> {
    match result {
        Ok(request) => Ok(request@),
        Err(e) => Err(e),
    }
}

/// A copy of a byte string.
fn copy_bytes(bytes: &Vec<u8>) -> (copy: Vec<u8>)
    ensures
        copy@ == bytes@,
{
    let mut copy: Vec<u8> = Vec::new();
    let mut i: usize = 0;
    while i < bytes.len()
        invariant
            i <= bytes.len(),
            copy@ == bytes@.subrange(0, i as int),
        decreases bytes.len() - i,
    {
        copy.push(bytes[i]);
        i += 1;
        assert(copy@ =~= bytes@.subrange(0, i as int));
    }
    assert(copy@ =~= bytes@);
    copy
}

/// Prepares the signing of `payload` in the name of `signing_actor`. The
/// signature itself is computed by the caller's signature primitive, from the
/// request returned here, and joined to the payload by
/// [`SigningRequest::seal`].
pub fn sign(payload: Vec<u8>, signing_actor: &ApUser) -> (request: Result<
    SigningRequest,
    FederationError,
>)
    ensures
        signing_result(request) == signing_input(payload@, signing_actor@),
{
    match &signing_actor.private_key {
        Some(private_key) => Ok(
            SigningRequest {
                message: payload,
                private_key: copy_text(private_key),
                key_id: copy_text(&signing_actor.ap_id),
            },
        ),
        None => Err(FederationError::NoPrivateKey),
    }
}

impl SigningRequest {
    /// Joins the signature that the primitive computed over the message to
    /// the message.
    pub fn seal(self, signature: Vec<u8>) -> (signed: SignedPayload)
        ensures
            signed@ == sealed(self@, signature@),
    {
        SignedPayload { payload: self.message, key_id: self.key_id, signature }
    }
}

/// Says what the signature primitive has to check to verify `signed` as
/// coming from `claimed_actor`.
pub fn verification_request(signed: &SignedPayload, claimed_actor: &ApUser) -> (request: Result<
    VerificationRequest,
    FederationError,
>)
    ensures
        verification_result(request) == verification_input(signed@, claimed_actor@),
{
    if claimed_actor.public_key.as_str().is_empty() {
        return Err(FederationError::KeyUnavailable);
    }
    if !same_text(signed.key_id.as_str(), claimed_actor.ap_id.as_str()) {
        return Err(FederationError::SignatureMismatch);
    }
    Ok(
        VerificationRequest {
            message: copy_bytes(&signed.payload),
            signature: copy_bytes(&signed.signature),
            public_key: copy_text(&claimed_actor.public_key),
        },
    )
}

/// Verifies `signed` against the cached key of `claimed_actor`.
/// `signature_matches` is the primitive's answer to the request that
/// [`verification_request`] makes of the two; it is not looked at where that
/// request fails. On `StalePossible` the caller resolves the actor anew,
/// forcing a refresh, and goes on with [`force_refresh_and_verify`].
pub fn verify(signed: &SignedPayload, claimed_actor: &ApUser, signature_matches: bool) -> (outcome:
    Result<(), FederationError>)
    ensures
        outcome == verdict(signed@, claimed_actor@, signature_matches, false),
{
    match verification_request(signed, claimed_actor) {
        Err(e) => Err(e),
        Ok(_) => if signature_matches {
            Ok(())
        } else {
            Err(FederationError::StalePossible)
        },
    }
}

/// The second and last try after `StalePossible`. `refreshed` is what the
/// forced resolution of the claimed actor returned: its error is handed on
/// unchanged. `signature_matches` is the primitive's answer for the refreshed
/// actor. There is no third try: a signature that still does not match is a
/// `SignatureMismatch`.
pub fn force_refresh_and_verify(
    signed: &SignedPayload,
    refreshed: &Result<ApUser, FederationError>,
    signature_matches: bool,
) -> (outcome: Result<(), FederationError>)
    ensures
        outcome == match *refreshed {
            Ok(actor) => verdict(signed@, actor@, signature_matches, true),
            Err(e) => Err(e),
        },
{
    match refreshed {
        Err(e) => Err(*e),
        Ok(actor) => match verification_request(signed, actor) {
            Err(e) => Err(e),
            Ok(_) => if signature_matches {
                Ok(())
            } else {
                Err(FederationError::SignatureMismatch)
            },
        },
    }
}

/// What is signed is what is verified. A payload that was signed in the name
/// of an actor with both keys reaches the primitive, on verification against
/// that actor, as the message that was signed, with the signature that was
/// made and under the actor's public key; and it passes, against the cached
/// key and against a refreshed one, whenever the primitive accepts that
/// signature.
pub proof fn lemma_signed_payload_verifies(payload: Seq<u8>, actor: ActorRecord, signature: Seq<u8>)
    requires
        actor.private_key is Some,
        actor.public_key.len() > 0,
    ensures
        signing_input(payload, actor) is Ok,
        ({
            let input = signing_input(payload, actor)->Ok_0;
            let signed = sealed(input, signature);
            &&& signed.payload == payload
            &&& verification_input(signed, actor) == Ok::<VerificationInput, FederationError>(
                VerificationInput {
                    message: input.message,
                    signature,
                    public_key: actor.public_key,
                },
            )
            &&& verdict(signed, actor, true, false) == Ok::<(), FederationError>(())
            &&& verdict(signed, actor, true, true) == Ok::<(), FederationError>(())
        }),
{
}

/// A signature that the primitive rejects never passes, whoever the payload
/// names as its signer: against a cached key the verdict is `StalePossible`
/// at best, against a refreshed key it is never soft, and where the actor has
/// a key and the payload names that actor it is `SignatureMismatch`.
pub proof fn lemma_rejected_signature_never_passes(signed: Signed, actor: ActorRecord)
    ensures
        verdict(signed, actor, false, false) is Err,
        verdict(signed, actor, false, true) is Err,
        verdict(signed, actor, false, true) != Err::<(), FederationError>(
            FederationError::StalePossible,
        ),
        actor.public_key.len() > 0 ==> verdict(signed, actor, false, true) == Err::<
            (),
            FederationError,
        >(FederationError::SignatureMismatch),
        actor.public_key.len() > 0 && signed.key_id == actor.ap_id ==> verdict(
            signed,
            actor,
            false,
            false,
        ) == Err::<(), FederationError>(FederationError::StalePossible),
{
}

} // verus!
