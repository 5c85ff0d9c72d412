use federation_core::actor::CreateApUser;
use federation_core::actor_store::{insert, read_by_ap_id, ActorStore};
use federation_core::error::FederationError;
use federation_core::resolver::{
    parse_actor_document, ActorDocument, FetchOutcome, FreshnessPolicy, ResolveStep, Resolver,
};

const ALICE: &str = "https://remote.example/users/alice";

fn document(id: &str, public_key: &str) -> ActorDocument {
    ActorDocument {
        id: Some(id.to_string()),
        preferred_username: Some("alice".to_string()),
        inbox: Some("https://remote.example/users/alice/inbox".to_string()),
        public_key_pem: Some(public_key.to_string()),
        name: Some("Alice".to_string()),
        summary: None,
    }
}

fn default_resolver() -> Resolver {
    Resolver::new(FreshnessPolicy::always_fresh())
}

#[test]
fn first_resolution_creates_the_row_and_a_later_one_updates_it() {
    let resolver = default_resolver();
    let mut store = ActorStore::new();
    assert_eq!(
        resolver.resolve(&store, ALICE, 100, false),
        Ok(ResolveStep::Fetch(ALICE.to_string()))
    );
    let first = resolver
        .complete(&mut store, ALICE, FetchOutcome::Document(document(ALICE, "K1")), 100)
        .unwrap();
    assert_eq!(first.ap_id, ALICE);
    assert_eq!(first.public_key, "K1");
    assert_eq!(first.private_key, None);
    assert_eq!(first.last_refreshed_at, 100);
    assert_eq!(store.len(), 1);

    assert_eq!(
        resolver.resolve(&store, ALICE, 200, true),
        Ok(ResolveStep::Fetch(ALICE.to_string()))
    );
    let second = resolver
        .complete(&mut store, ALICE, FetchOutcome::Document(document(ALICE, "K2")), 200)
        .unwrap();
    assert_eq!(second.id, first.id);
    assert_eq!(second.ap_id, first.ap_id);
    assert_eq!(second.public_key, "K2");
    assert_eq!(second.last_refreshed_at, 200);
    assert_eq!(store.len(), 1);
    assert_eq!(read_by_ap_id(&store, ALICE), Ok(second));
}

#[test]
fn a_second_resolution_returns_the_same_identifier() {
    let resolver = default_resolver();
    let mut store = ActorStore::new();
    insert(
        &mut store,
        CreateApUser {
            ap_id: "https://other.example/users/bob".to_string(),
            username: "bob".to_string(),
            inbox_url: "https://other.example/inbox".to_string(),
            public_key: "K0".to_string(),
            private_key: None,
            last_refreshed_at: 0,
            display_name: None,
            bio: None,
        },
    )
    .unwrap();
    let first = resolver
        .complete(&mut store, ALICE, FetchOutcome::Document(document(ALICE, "K1")), 100)
        .unwrap();
    assert_eq!(first.id, 1);
    match resolver.resolve(&store, ALICE, 1_000_000, false) {
        Ok(ResolveStep::Resolved(second)) => assert_eq!(second, first),
        other => panic!("unexpected step: {other:?}"),
    }
    assert_eq!(store.len(), 2);
}

#[test]
fn resolution_looks_the_identifier_up_in_canonical_form() {
    let resolver = default_resolver();
    let mut store = ActorStore::new();
    let spelled = "HTTPS://REMOTE.example/users/alice";
    assert_eq!(
        resolver.resolve(&store, spelled, 0, false),
        Ok(ResolveStep::Fetch(ALICE.to_string()))
    );
    let stored = resolver
        .complete(&mut store, spelled, FetchOutcome::Document(document(spelled, "K1")), 0)
        .unwrap();
    assert_eq!(stored.ap_id, ALICE);
    assert_eq!(resolver.resolve(&store, ALICE, 0, false), Ok(ResolveStep::Resolved(stored)));
}

#[test]
fn the_url_to_fetch_is_what_the_parser_serializes() {
    let resolver = default_resolver();
    let store = ActorStore::new();
    assert_eq!(
        resolver.resolve(&store, "HTTPS://Remote.Example:443/a/../users/alice", 0, false),
        Ok(ResolveStep::Fetch("https://remote.example/users/alice".to_string()))
    );
    assert_eq!(
        resolver.resolve(&store, "https://remote.example", 0, false),
        Ok(ResolveStep::Fetch("https://remote.example/".to_string()))
    );
    assert_eq!(resolver.resolve(&store, "users/alice", 0, false), Err(FederationError::Malformed));
    assert_eq!(resolver.resolve(&store, "", 0, false), Err(FederationError::Malformed));
}

#[test]
fn an_identifier_that_is_no_url_is_malformed() {
    let resolver = default_resolver();
    let mut store = ActorStore::new();
    assert_eq!(resolver.resolve(&store, "alice", 0, false), Err(FederationError::Malformed));
    assert_eq!(
        resolver.complete(&mut store, "alice", FetchOutcome::Document(document(ALICE, "K")), 0),
        Err(FederationError::Malformed)
    );
    assert_eq!(
        resolver.complete(&mut store, "alice", FetchOutcome::Absent, 0),
        Err(FederationError::Malformed)
    );
    assert_eq!(store.len(), 0);
}

#[test]
fn a_failed_fetch_is_an_error_and_writes_nothing() {
    let resolver = default_resolver();
    let mut store = ActorStore::new();
    assert_eq!(
        resolver.complete(&mut store, ALICE, FetchOutcome::Absent, 0),
        Err(FederationError::NotFound)
    );
    assert_eq!(
        resolver.complete(&mut store, ALICE, FetchOutcome::Unreachable, 0),
        Err(FederationError::NotFound)
    );
    assert_eq!(
        resolver.complete(&mut store, ALICE, FetchOutcome::Untrusted, 0),
        Err(FederationError::Untrusted)
    );
    assert_eq!(store.len(), 0);
}

#[test]
fn a_document_for_another_identifier_is_untrusted() {
    let resolver = default_resolver();
    let mut store = ActorStore::new();
    let mallory = document("https://remote.example/users/mallory", "K1");
    assert_eq!(
        resolver.complete(&mut store, ALICE, FetchOutcome::Document(mallory), 0),
        Err(FederationError::Untrusted)
    );
    assert_eq!(store.len(), 0);
}

#[test]
fn a_document_without_a_required_field_is_malformed() {
    let resolver = default_resolver();
    let mut store = ActorStore::new();
    let mut no_key = document(ALICE, "K1");
    no_key.public_key_pem = None;
    let mut no_name = document(ALICE, "K1");
    no_name.preferred_username = None;
    let mut no_inbox = document(ALICE, "K1");
    no_inbox.inbox = None;
    let mut no_id = document(ALICE, "K1");
    no_id.id = None;
    let mut bad_inbox = document(ALICE, "K1");
    bad_inbox.inbox = Some("inbox".to_string());
    for doc in [no_key, no_name, no_inbox, no_id, bad_inbox] {
        assert_eq!(parse_actor_document(doc.clone(), 0), Err(FederationError::Malformed));
        assert_eq!(
            resolver.complete(&mut store, ALICE, FetchOutcome::Document(doc), 0),
            Err(FederationError::Malformed)
        );
    }
    assert_eq!(store.len(), 0);
}

#[test]
fn a_document_is_read_into_a_payload_without_private_key() {
    let doc = ActorDocument {
        id: Some("https://Remote.Example/users/alice".to_string()),
        preferred_username: Some("alice".to_string()),
        inbox: Some("https://remote.example/inbox?x=1".to_string()),
        public_key_pem: Some("K1".to_string()),
        name: None,
        summary: Some("about".to_string()),
    };
    assert_eq!(
        parse_actor_document(doc, 77),
        Ok(CreateApUser {
            ap_id: ALICE.to_string(),
            username: "alice".to_string(),
            inbox_url: "https://remote.example/inbox?x=1".to_string(),
            public_key: "K1".to_string(),
            private_key: None,
            last_refreshed_at: 77,
            display_name: None,
            bio: Some("about".to_string()),
        })
    );
}

#[test]
fn a_forced_refresh_bypasses_the_cache() {
    let resolver = default_resolver();
    let mut store = ActorStore::new();
    resolver
        .complete(&mut store, ALICE, FetchOutcome::Document(document(ALICE, "K1")), 100)
        .unwrap();
    assert_eq!(
        resolver.resolve(&store, ALICE, 100, true),
        Ok(ResolveStep::Fetch(ALICE.to_string()))
    );
    assert!(matches!(resolver.resolve(&store, ALICE, 100, false), Ok(ResolveStep::Resolved(_))));
}

#[test]
fn a_row_older_than_the_window_is_fetched_again() {
    let resolver = Resolver::new(FreshnessPolicy { max_age: Some(60) });
    let mut store = ActorStore::new();
    resolver
        .complete(&mut store, ALICE, FetchOutcome::Document(document(ALICE, "K1")), 1000)
        .unwrap();
    assert!(matches!(resolver.resolve(&store, ALICE, 1060, false), Ok(ResolveStep::Resolved(_))));
    assert_eq!(
        resolver.resolve(&store, ALICE, 1061, false),
        Ok(ResolveStep::Fetch(ALICE.to_string()))
    );
    assert!(matches!(resolver.resolve(&store, ALICE, 900, false), Ok(ResolveStep::Resolved(_))));
}

#[test]
fn freshness_is_computed_without_overflow() {
    let always = FreshnessPolicy::always_fresh();
    assert_eq!(always.max_age, None);
    assert!(always.is_fresh(i64::MIN, i64::MAX));
    let window = FreshnessPolicy { max_age: Some(60) };
    assert!(window.is_fresh(1000, 1060));
    assert!(!window.is_fresh(1000, 1061));
    assert!(window.is_fresh(i64::MAX, i64::MIN));
    assert!(!window.is_fresh(i64::MIN, i64::MAX));
    let widest = FreshnessPolicy { max_age: Some(u64::MAX) };
    assert!(widest.is_fresh(i64::MIN, i64::MAX));
    let none = FreshnessPolicy { max_age: Some(0) };
    assert!(none.is_fresh(5, 5));
    assert!(!none.is_fresh(5, 6));
}

#[test]
fn two_resolutions_at_once_leave_one_row() {
    let resolver = default_resolver();
    let mut store = ActorStore::new();
    let one = resolver.resolve(&store, ALICE, 10, false);
    let other = resolver.resolve(&store, ALICE, 11, false);
    assert_eq!(one, Ok(ResolveStep::Fetch(ALICE.to_string())));
    assert_eq!(other, Ok(ResolveStep::Fetch(ALICE.to_string())));
    let b = resolver
        .complete(&mut store, ALICE, FetchOutcome::Document(document(ALICE, "K1")), 11)
        .unwrap();
    let a = resolver
        .complete(&mut store, ALICE, FetchOutcome::Document(document(ALICE, "K1")), 10)
        .unwrap();
    assert_eq!(a.id, b.id);
    assert_eq!(store.len(), 1);
}

#[test]
fn a_document_and_its_canonical_urls_make_the_payload() {
    let doc = document("anything", "K1");
    assert_eq!(
        doc.clone().into_payload(
            Some(ALICE.to_string()),
            Some("https://remote.example/inbox".to_string()),
            9
        ),
        Ok(CreateApUser {
            ap_id: ALICE.to_string(),
            username: "alice".to_string(),
            inbox_url: "https://remote.example/inbox".to_string(),
            public_key: "K1".to_string(),
            private_key: None,
            last_refreshed_at: 9,
            display_name: Some("Alice".to_string()),
            bio: None,
        })
    );
    assert_eq!(
        doc.clone().into_payload(None, Some("https://remote.example/inbox".to_string()), 9),
        Err(FederationError::Malformed)
    );
    assert_eq!(
        doc.into_payload(Some(ALICE.to_string()), None, 9),
        Err(FederationError::Malformed)
    );
}

#[test]
fn a_fetch_brings_a_document_or_an_error() {
    let doc = document(ALICE, "K1");
    assert_eq!(FetchOutcome::Document(doc.clone()).document(), Ok(doc));
    assert_eq!(FetchOutcome::Absent.document(), Err(FederationError::NotFound));
    assert_eq!(FetchOutcome::Unreachable.document(), Err(FederationError::NotFound));
    assert_eq!(FetchOutcome::Untrusted.document(), Err(FederationError::Untrusted));
}

#[test]
fn a_key_is_looked_up_as_it_is() {
    let resolver = default_resolver();
    let mut store = ActorStore::new();
    let payload = parse_actor_document(document(ALICE, "K1"), 5).unwrap();
    let stored = resolver.store_fetched(&mut store, ALICE, payload).unwrap();
    assert_eq!(
        resolver.resolve_key(&store, ALICE.to_string(), 6, false),
        ResolveStep::Resolved(stored)
    );
    assert_eq!(
        resolver.resolve_key(&store, ALICE.to_string(), 6, true),
        ResolveStep::Fetch(ALICE.to_string())
    );
    assert_eq!(
        resolver.resolve_key(&store, "HTTPS://REMOTE.example/users/alice".to_string(), 6, false),
        ResolveStep::Fetch("HTTPS://REMOTE.example/users/alice".to_string())
    );
}

#[test]
fn a_payload_for_another_key_is_not_stored() {
    let resolver = default_resolver();
    let mut store = ActorStore::new();
    let payload = parse_actor_document(document(ALICE, "K1"), 5).unwrap();
    assert_eq!(
        resolver.store_fetched(&mut store, "https://remote.example/users/bob", payload),
        Err(FederationError::Untrusted)
    );
    assert_eq!(store.len(), 0);
}

#[test]
fn a_refresh_keeps_the_private_key_of_a_local_actor() {
    let resolver = default_resolver();
    let mut store = ActorStore::new();
    let local = insert(
        &mut store,
        CreateApUser {
            ap_id: ALICE.to_string(),
            username: "alice".to_string(),
            inbox_url: "https://remote.example/old-inbox".to_string(),
            public_key: "K1".to_string(),
            private_key: Some("PRIVATE".to_string()),
            last_refreshed_at: 1,
            display_name: None,
            bio: None,
        },
    )
    .unwrap();
    let refreshed = resolver
        .complete(&mut store, ALICE, FetchOutcome::Document(document(ALICE, "K2")), 50)
        .unwrap();
    assert_eq!(refreshed.id, local.id);
    assert_eq!(refreshed.private_key, Some("PRIVATE".to_string()));
    assert_eq!(refreshed.public_key, "K2");
    assert_eq!(refreshed.inbox_url, "https://remote.example/users/alice/inbox");
    assert_eq!(refreshed.display_name, Some("Alice".to_string()));
    assert_eq!(refreshed.last_refreshed_at, 50);
    assert_eq!(read_by_ap_id(&store, ALICE), Ok(refreshed));
}
