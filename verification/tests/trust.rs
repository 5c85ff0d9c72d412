use federation_core::actor::ApUser;
use federation_core::error::FederationError;
use federation_core::trust::{
    force_refresh_and_verify, sign, verification_request, verify, SignedPayload, SigningRequest,
    VerificationRequest,
};

fn local_actor() -> ApUser {
    ApUser {
        id: 1,
        ap_id: "https://here.example/users/alice".to_string(),
        username: "alice".to_string(),
        inbox_url: "https://here.example/users/alice/inbox".to_string(),
        public_key: "PUBLIC-1".to_string(),
        private_key: Some("PRIVATE-1".to_string()),
        last_refreshed_at: 0,
        display_name: None,
        bio: None,
    }
}

fn remote_actor() -> ApUser {
    ApUser {
        id: 2,
        ap_id: "https://remote.example/users/bob".to_string(),
        username: "bob".to_string(),
        inbox_url: "https://remote.example/users/bob/inbox".to_string(),
        public_key: "PUBLIC-2".to_string(),
        private_key: None,
        last_refreshed_at: 0,
        display_name: None,
        bio: None,
    }
}

fn signed_by(actor: &ApUser) -> SignedPayload {
    SignedPayload {
        payload: vec![1, 2, 3],
        key_id: actor.ap_id.clone(),
        signature: vec![9, 9],
    }
}

#[test]
fn sign_hands_the_payload_and_the_private_key_to_the_primitive() {
    let request = sign(vec![104, 105], &local_actor()).unwrap();
    assert_eq!(
        request,
        SigningRequest {
            message: vec![104, 105],
            private_key: "PRIVATE-1".to_string(),
            key_id: "https://here.example/users/alice".to_string(),
        }
    );
}

#[test]
fn sign_needs_a_private_key() {
    assert_eq!(sign(vec![104, 105], &remote_actor()), Err(FederationError::NoPrivateKey));
    assert_eq!(sign(Vec::new(), &remote_actor()), Err(FederationError::NoPrivateKey));
}

#[test]
fn a_signed_payload_is_verified_as_it_was_signed() {
    let actor = local_actor();
    let request = sign(vec![104, 105], &actor).unwrap();
    let message = request.message.clone();
    let signed = request.seal(vec![7, 7, 7]);
    assert_eq!(
        signed,
        SignedPayload {
            payload: vec![104, 105],
            key_id: "https://here.example/users/alice".to_string(),
            signature: vec![7, 7, 7],
        }
    );
    assert_eq!(
        verification_request(&signed, &actor),
        Ok(VerificationRequest {
            message,
            signature: vec![7, 7, 7],
            public_key: "PUBLIC-1".to_string(),
        })
    );
    assert_eq!(verify(&signed, &actor, true), Ok(()));
    assert_eq!(force_refresh_and_verify(&signed, &Ok(actor), true), Ok(()));
}

#[test]
fn a_rejected_signature_is_stale_at_first_and_a_mismatch_after_the_refresh() {
    let actor = remote_actor();
    let signed = signed_by(&actor);
    assert_eq!(verify(&signed, &actor, false), Err(FederationError::StalePossible));
    assert_eq!(
        force_refresh_and_verify(&signed, &Ok(actor), false),
        Err(FederationError::SignatureMismatch)
    );
}

#[test]
fn a_failed_refresh_is_handed_on() {
    let signed = signed_by(&remote_actor());
    assert_eq!(
        force_refresh_and_verify(&signed, &Err(FederationError::NotFound), true),
        Err(FederationError::NotFound)
    );
    assert_eq!(
        force_refresh_and_verify(&signed, &Err(FederationError::Untrusted), false),
        Err(FederationError::Untrusted)
    );
}

#[test]
fn an_actor_without_public_key_cannot_be_verified_against() {
    let mut actor = remote_actor();
    actor.public_key = String::new();
    let signed = signed_by(&actor);
    assert_eq!(verification_request(&signed, &actor), Err(FederationError::KeyUnavailable));
    assert_eq!(verify(&signed, &actor, true), Err(FederationError::KeyUnavailable));
    assert_eq!(verify(&signed, &actor, false), Err(FederationError::KeyUnavailable));
    assert_eq!(
        force_refresh_and_verify(&signed, &Ok(actor), true),
        Err(FederationError::KeyUnavailable)
    );
}

#[test]
fn a_payload_signed_in_another_name_is_a_mismatch() {
    let signed = signed_by(&local_actor());
    let claimed = remote_actor();
    assert_eq!(verification_request(&signed, &claimed), Err(FederationError::SignatureMismatch));
    assert_eq!(verify(&signed, &claimed, true), Err(FederationError::SignatureMismatch));
    assert_eq!(
        force_refresh_and_verify(&signed, &Ok(claimed), true),
        Err(FederationError::SignatureMismatch)
    );
}

#[test]
fn an_empty_payload_can_be_signed_and_verified() {
    let actor = local_actor();
    let signed = sign(Vec::new(), &actor).unwrap().seal(Vec::new());
    let request = verification_request(&signed, &actor).unwrap();
    assert_eq!(request.message, Vec::<u8>::new());
    assert_eq!(request.signature, Vec::<u8>::new());
    assert_eq!(verify(&signed, &actor, true), Ok(()));
}
