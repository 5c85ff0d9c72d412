use federation_core::actor::{ApUser, CreateApUser};
use federation_core::actor_store::{insert, ActorStore};
use federation_core::content::{
    absorb_inbound, absorb_validated, add_local_content, by_id, to_federated_representation,
    ContentRow, ContentStore, FederatedContentObject, InboundContent, InboundObject,
};
use federation_core::error::FederationError;

const X: &str = "https://x.example/users/x";
const Y: &str = "https://y.example/users/y";

fn store_actor(actors: &mut ActorStore, ap_id: &str, private_key: Option<&str>) -> ApUser {
    insert(
        actors,
        CreateApUser {
            ap_id: ap_id.to_string(),
            username: "name".to_string(),
            inbox_url: format!("{ap_id}/inbox"),
            public_key: "K".to_string(),
            private_key: private_key.map(str::to_string),
            last_refreshed_at: 0,
            display_name: None,
            bio: None,
        },
    )
    .unwrap()
}

fn object(id: &str, owner: &str, title: &str) -> InboundObject {
    InboundObject {
        id: Some(id.to_string()),
        attributed_to: Some(owner.to_string()),
        title: Some(title.to_string()),
        body: Some("body".to_string()),
    }
}

#[test]
fn an_object_that_claims_another_owner_is_refused_and_nothing_is_written() {
    let mut actors = ActorStore::new();
    let y = store_actor(&mut actors, Y, None);
    store_actor(&mut actors, X, None);
    let mut contents = ContentStore::new();
    let refused = absorb_inbound(&mut contents, &actors, object("https://x.example/notes/1", X, "t"), &y);
    assert_eq!(refused, Err(FederationError::OwnerMismatch));
    assert_eq!(contents.len(), 0);
}

#[test]
fn an_object_of_the_sender_is_stored_and_later_updated_in_place() {
    let mut actors = ActorStore::new();
    store_actor(&mut actors, X, None);
    let y = store_actor(&mut actors, Y, None);
    let mut contents = ContentStore::new();
    let id = absorb_inbound(&mut contents, &actors, object("https://y.example/notes/1", Y, "one"), &y);
    assert_eq!(id, Ok(0));
    assert_eq!(
        by_id(&contents, 0),
        Ok(ContentRow {
            id: 0,
            owner_id: y.id,
            global_id: Some("https://y.example/notes/1".to_string()),
            title: "one".to_string(),
            body: "body".to_string(),
        })
    );
    let other = absorb_inbound(&mut contents, &actors, object("https://y.example/notes/2", Y, "two"), &y);
    assert_eq!(other, Ok(1));
    let again =
        absorb_inbound(&mut contents, &actors, object("HTTPS://Y.example/notes/1", Y, "one!"), &y);
    assert_eq!(again, Ok(0));
    assert_eq!(contents.len(), 2);
    assert_eq!(by_id(&contents, 0).unwrap().title, "one!");
    assert_eq!(by_id(&contents, 1).unwrap().title, "two");
}

#[test]
fn an_object_without_a_required_field_fails_validation() {
    let mut actors = ActorStore::new();
    let y = store_actor(&mut actors, Y, None);
    let mut contents = ContentStore::new();
    let full = object("https://y.example/notes/1", Y, "one");
    let mut no_id = full.clone();
    no_id.id = None;
    let mut no_owner = full.clone();
    no_owner.attributed_to = None;
    let mut no_title = full.clone();
    no_title.title = None;
    let mut no_body = full.clone();
    no_body.body = None;
    let mut bad_id = full.clone();
    bad_id.id = Some("notes/1".to_string());
    let mut bad_owner = full.clone();
    bad_owner.attributed_to = Some("y".to_string());
    for inbound in [no_id, no_owner, no_title, no_body, bad_id, bad_owner] {
        assert_eq!(
            absorb_inbound(&mut contents, &actors, inbound, &y),
            Err(FederationError::ValidationError)
        );
    }
    assert_eq!(contents.len(), 0);
}

#[test]
fn validation_comes_before_the_owner_check() {
    let mut actors = ActorStore::new();
    let y = store_actor(&mut actors, Y, None);
    let mut contents = ContentStore::new();
    let mut inbound = object("https://x.example/notes/1", X, "t");
    inbound.title = None;
    assert_eq!(
        absorb_inbound(&mut contents, &actors, inbound, &y),
        Err(FederationError::ValidationError)
    );
}

#[test]
fn a_sender_that_is_not_stored_is_not_found() {
    let mut actors = ActorStore::new();
    let y = store_actor(&mut actors, Y, None);
    let mut contents = ContentStore::new();
    let empty = ActorStore::new();
    assert_eq!(
        absorb_inbound(&mut contents, &empty, object("https://y.example/notes/1", Y, "t"), &y),
        Err(FederationError::NotFound)
    );
    let mut impostor = y.clone();
    impostor.id = 99;
    assert_eq!(
        absorb_inbound(&mut contents, &actors, object("https://y.example/notes/1", Y, "t"), &impostor),
        Err(FederationError::NotFound)
    );
    assert_eq!(contents.len(), 0);
}

#[test]
fn an_object_stored_for_one_actor_is_not_overwritten_by_another() {
    let mut actors = ActorStore::new();
    let x = store_actor(&mut actors, X, None);
    let y = store_actor(&mut actors, Y, None);
    let mut contents = ContentStore::new();
    let shared = "https://shared.example/notes/1";
    assert_eq!(absorb_inbound(&mut contents, &actors, object(shared, X, "by x"), &x), Ok(0));
    assert_eq!(
        absorb_inbound(&mut contents, &actors, object(shared, Y, "by y"), &y),
        Err(FederationError::OwnerMismatch)
    );
    assert_eq!(by_id(&contents, 0).unwrap().title, "by x");
    assert_eq!(contents.len(), 1);
}

#[test]
fn local_content_of_a_local_actor_is_rendered() {
    let mut actors = ActorStore::new();
    store_actor(&mut actors, Y, None);
    let here = store_actor(&mut actors, "https://here.example/users/me", Some("PRIVATE"));
    let mut contents = ContentStore::new();
    let id = add_local_content(
        &mut contents,
        &actors,
        here.id,
        "A bookmark".to_string(),
        "https://example.org".to_string(),
    )
    .unwrap();
    assert_eq!(id, 0);
    assert_eq!(
        to_federated_representation(&contents, &actors, id),
        Ok(FederatedContentObject {
            local_id: 0,
            title: "A bookmark".to_string(),
            body: "https://example.org".to_string(),
            owner: "https://here.example/users/me".to_string(),
        })
    );
}

#[test]
fn content_of_a_remote_actor_is_not_owned_locally() {
    let mut actors = ActorStore::new();
    let y = store_actor(&mut actors, Y, None);
    let mut contents = ContentStore::new();
    let id = absorb_inbound(&mut contents, &actors, object("https://y.example/notes/1", Y, "t"), &y)
        .unwrap();
    assert_eq!(
        to_federated_representation(&contents, &actors, id),
        Err(FederationError::NotOwnedLocally)
    );
}

#[test]
fn content_that_does_not_exist_is_not_found() {
    let actors = ActorStore::new();
    let contents = ContentStore::new();
    assert_eq!(to_federated_representation(&contents, &actors, 0), Err(FederationError::NotFound));
    assert_eq!(by_id(&contents, 0), Err(FederationError::NotFound));
}

#[test]
fn content_whose_owner_is_not_in_the_given_store_is_not_found() {
    let mut actors = ActorStore::new();
    let here = store_actor(&mut actors, "https://here.example/users/me", Some("PRIVATE"));
    let mut contents = ContentStore::new();
    let id = add_local_content(&mut contents, &actors, here.id, "t".to_string(), "b".to_string())
        .unwrap();
    assert_eq!(
        to_federated_representation(&contents, &ActorStore::new(), id),
        Err(FederationError::NotFound)
    );
}

#[test]
fn local_content_needs_a_stored_owner() {
    let actors = ActorStore::new();
    let mut contents = ContentStore::new();
    assert_eq!(
        add_local_content(&mut contents, &actors, 5, "t".to_string(), "b".to_string()),
        Err(FederationError::NotFound)
    );
    assert_eq!(contents.len(), 0);
}

fn row(id: u128, global_id: Option<&str>) -> ContentRow {
    ContentRow {
        id,
        owner_id: 0,
        global_id: global_id.map(str::to_string),
        title: "t".to_string(),
        body: "b".to_string(),
    }
}

#[test]
fn loaded_content_goes_on_after_the_greatest_identifier() {
    let mut actors = ActorStore::new();
    let y = store_actor(&mut actors, Y, None);
    let rows = vec![row(4, None), row(2, Some("https://y.example/notes/2")), row(9, None)];
    let mut contents = ContentStore::load(rows.clone()).unwrap();
    assert_eq!(contents.len(), 3);
    assert_eq!(by_id(&contents, 2), Ok(rows[1].clone()));
    assert_eq!(
        absorb_inbound(&mut contents, &actors, object("https://y.example/notes/3", Y, "t"), &y),
        Ok(10)
    );
    assert_eq!(
        absorb_inbound(&mut contents, &actors, object("https://y.example/notes/2", Y, "new"), &y),
        Ok(2)
    );
    assert_eq!(contents.len(), 4);
}

#[test]
fn content_rows_that_share_an_identifier_are_not_loaded() {
    assert_eq!(
        ContentStore::load(vec![row(1, None), row(1, None)]).err(),
        Some(FederationError::Conflict)
    );
    assert_eq!(
        ContentStore::load(vec![row(1, Some("https://y.example/n")), row(2, Some("https://y.example/n"))])
            .err(),
        Some(FederationError::Conflict)
    );
    assert!(ContentStore::load(vec![row(1, None), row(2, None)]).is_ok());
    assert_eq!(
        ContentStore::load(vec![row(u128::MAX, None)]).err(),
        Some(FederationError::StorageError)
    );
}

#[test]
fn a_full_content_store_takes_updates_but_no_new_row() {
    let mut actors = ActorStore::new();
    let y = store_actor(&mut actors, Y, None);
    let rows = vec![row(u128::MAX - 1, Some("https://y.example/notes/1"))];
    let mut contents = ContentStore::load(rows).unwrap();
    assert_eq!(
        absorb_inbound(&mut contents, &actors, object("https://y.example/notes/2", Y, "t"), &y),
        Err(FederationError::StorageError)
    );
    assert_eq!(
        add_local_content(&mut contents, &actors, y.id, "t".to_string(), "b".to_string()),
        Err(FederationError::StorageError)
    );
    assert_eq!(
        absorb_inbound(&mut contents, &actors, object("https://y.example/notes/1", Y, "new"), &y),
        Ok(u128::MAX - 1)
    );
    assert_eq!(contents.len(), 1);
}

#[test]
fn a_checked_object_holds_its_urls_in_canonical_form() {
    let inbound = object("HTTPS://Y.example/notes/1", "https://Y.EXAMPLE/users/y", "t").validate();
    assert_eq!(
        inbound,
        Ok(InboundContent {
            id: "https://y.example/notes/1".to_string(),
            owner: Y.to_string(),
            title: "t".to_string(),
            body: "body".to_string(),
        })
    );
    let as_given = object("x", "y", "t").validated_with(Some("a".to_string()), Some("b".to_string()));
    assert_eq!(
        as_given,
        Ok(InboundContent {
            id: "a".to_string(),
            owner: "b".to_string(),
            title: "t".to_string(),
            body: "body".to_string(),
        })
    );
    assert_eq!(
        object("x", "y", "t").validated_with(None, Some("b".to_string())),
        Err(FederationError::ValidationError)
    );
    assert_eq!(
        object("x", "y", "t").validated_with(Some("a".to_string()), None),
        Err(FederationError::ValidationError)
    );
}

#[test]
fn a_checked_object_is_absorbed_under_the_same_rules() {
    let mut actors = ActorStore::new();
    let x = store_actor(&mut actors, X, None);
    let y = store_actor(&mut actors, Y, None);
    let mut contents = ContentStore::new();
    let inbound = InboundContent {
        id: "https://y.example/notes/1".to_string(),
        owner: Y.to_string(),
        title: "t".to_string(),
        body: "b".to_string(),
    };
    assert_eq!(
        absorb_validated(&mut contents, &actors, inbound.clone(), &x),
        Err(FederationError::OwnerMismatch)
    );
    assert_eq!(contents.len(), 0);
    assert_eq!(absorb_validated(&mut contents, &actors, inbound.clone(), &y), Ok(0));
    assert_eq!(absorb_validated(&mut contents, &actors, inbound, &y), Ok(0));
    assert_eq!(contents.len(), 1);
    assert_eq!(by_id(&contents, 0).unwrap().owner_id, y.id);
}

#[test]
fn a_copy_of_the_content_store_is_a_way_back() {
    let mut actors = ActorStore::new();
    let y = store_actor(&mut actors, Y, None);
    let mut contents = ContentStore::new();
    absorb_inbound(&mut contents, &actors, object("https://y.example/notes/1", Y, "one"), &y).unwrap();
    let before = contents.duplicate();
    absorb_inbound(&mut contents, &actors, object("https://y.example/notes/1", Y, "two"), &y).unwrap();
    absorb_inbound(&mut contents, &actors, object("https://y.example/notes/2", Y, "three"), &y).unwrap();
    assert_eq!(contents.len(), 2);
    assert_eq!(before.len(), 1);
    assert_eq!(by_id(&before, 0).unwrap().title, "one");
}
