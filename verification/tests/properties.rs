//! Scenario and edge-case tests: round trips, idempotent revocation,
//! sequential races, validation, and the store primitives.

use room_directory::alias::RoomAlias;
use room_directory::directory::{AliasRegistrar, AliasResolver, AliasRevoker, DirectoryService};
use room_directory::error::DirectoryError;
use room_directory::store::AliasStore;

fn service() -> DirectoryService {
    DirectoryService::new(String::from("example.org"))
}

#[test]
fn round_trip_returns_room_and_local_domain() {
    let service = service();
    let mut store = AliasStore::new();
    let alias = String::from("lobby");
    let room_id = String::from("!lobby:example.org");

    let created = service
        .create_alias(&mut store, &alias, &room_id)
        .expect("fresh alias must register");
    assert_eq!(created.alias, alias);
    assert_eq!(created.room_id, room_id);
    assert_eq!(created.servers, vec![String::from("example.org")]);

    let resolved = service
        .get_room(&store, &alias)
        .expect("registered alias must resolve");
    assert_eq!(resolved.room_id, room_id);
    assert!(!resolved.servers.is_empty());
    assert!(resolved.servers.contains(&String::from("example.org")));
}

#[test]
fn deletion_is_final() {
    let service = service();
    let mut store = AliasStore::new();
    let alias = String::from("lobby");
    let room_id = String::from("!lobby:example.org");

    service
        .create_alias(&mut store, &alias, &room_id)
        .expect("fresh alias must register");
    assert_eq!(service.delete_alias(&mut store, &alias), Ok(()));

    let resolved = service.get_room(&store, &alias);
    assert_eq!(resolved.unwrap_err(), DirectoryError::NotFound);
}

#[test]
fn revoke_never_registered_alias_succeeds() {
    let service = service();
    let mut store = AliasStore::new();
    let alias = String::from("never_created");

    assert_eq!(service.delete_alias(&mut store, &alias), Ok(()));
    // And revoking twice is just as fine.
    assert_eq!(service.delete_alias(&mut store, &alias), Ok(()));
}

#[test]
fn second_registration_of_same_alias_conflicts() {
    let service = service();
    let mut store = AliasStore::new();
    let alias = String::from("contested");
    let first_room = String::from("!one:example.org");
    let second_room = String::from("!two:example.org");

    let first = service.create_alias(&mut store, &alias, &first_room);
    let second = service.create_alias(&mut store, &alias, &second_room);

    assert!(first.is_ok());
    assert_eq!(second.unwrap_err(), DirectoryError::Conflict);

    // The surviving record is the winner's.
    let resolved = service
        .get_room(&store, &alias)
        .expect("winner's record must survive");
    assert_eq!(resolved.room_id, first_room);
}

#[test]
fn resolve_never_created_alias_fails_not_found() {
    let service = service();
    let store = AliasStore::new();
    let alias = String::from("never-created");

    let resolved = service.get_room(&store, &alias);
    assert_eq!(resolved.unwrap_err(), DirectoryError::NotFound);
}

#[test]
fn register_resolve_revoke_reregister_scenario() {
    let service = service();
    let mut store = AliasStore::new();
    let alias = String::from("my_room");

    service
        .create_alias(&mut store, &alias, &String::from("!abc123"))
        .expect("fresh alias must register");
    let resolved = service
        .get_room(&store, &alias)
        .expect("registered alias must resolve");
    assert_eq!(resolved.room_id, String::from("!abc123"));
    assert_eq!(resolved.servers, vec![String::from("example.org")]);

    assert_eq!(service.delete_alias(&mut store, &alias), Ok(()));
    let gone = service.get_room(&store, &alias);
    assert_eq!(gone.unwrap_err(), DirectoryError::NotFound);

    service
        .create_alias(&mut store, &alias, &String::from("!xyz789"))
        .expect("revoked alias must be free again");
    let resolved = service
        .get_room(&store, &alias)
        .expect("re-registered alias must resolve");
    assert_eq!(resolved.room_id, String::from("!xyz789"));
}

#[test]
fn empty_alias_is_invalid_input() {
    let service = service();
    let mut store = AliasStore::new();
    let empty = String::new();
    let room_id = String::from("!abc:example.org");

    assert_eq!(
        service.get_room(&store, &empty).unwrap_err(),
        DirectoryError::InvalidInput
    );
    assert_eq!(
        service
            .create_alias(&mut store, &empty, &room_id)
            .unwrap_err(),
        DirectoryError::InvalidInput
    );
    assert_eq!(
        service.delete_alias(&mut store, &empty).unwrap_err(),
        DirectoryError::InvalidInput
    );
}

#[test]
fn empty_room_id_is_invalid_input() {
    let service = service();
    let mut store = AliasStore::new();
    let alias = String::from("lobby");

    let created = service.create_alias(&mut store, &alias, &String::new());
    assert_eq!(created.unwrap_err(), DirectoryError::InvalidInput);
    // Nothing was stored.
    assert_eq!(
        service.get_room(&store, &alias).unwrap_err(),
        DirectoryError::NotFound
    );
}

#[test]
fn components_compose_like_the_facade() {
    let mut store = AliasStore::new();
    let alias = String::from("side_door");
    let room_id = String::from("!side:example.org");
    let domain = String::from("example.org");

    let created = AliasRegistrar::register(&mut store, &alias, &room_id, &domain)
        .expect("fresh alias must register");
    assert_eq!(created.servers, vec![domain.clone()]);

    let resolved = AliasResolver::resolve(&store, &alias).expect("must resolve");
    assert_eq!(resolved.room_id, room_id);

    AliasRevoker::revoke(&mut store, &alias);
    let gone = AliasResolver::resolve(&store, &alias);
    assert_eq!(gone.unwrap_err(), DirectoryError::NotFound);
}

#[test]
fn store_insert_if_absent_never_overwrites() {
    let mut store = AliasStore::new();
    let record = RoomAlias {
        alias: String::from("keep"),
        room_id: String::from("!first:example.org"),
        servers: vec![String::from("example.org")],
    };
    let rival = RoomAlias {
        alias: String::from("keep"),
        room_id: String::from("!second:example.org"),
        servers: vec![String::from("example.org")],
    };

    assert_eq!(store.insert_if_absent(record), Ok(()));
    assert_eq!(
        store.insert_if_absent(rival),
        Err(DirectoryError::Conflict)
    );

    let kept = store.get(&String::from("keep")).expect("record must stay");
    assert_eq!(kept.room_id, String::from("!first:example.org"));
}

#[test]
fn store_get_is_a_pure_lookup() {
    let mut store = AliasStore::new();
    let alias = String::from("stable");
    let record = RoomAlias {
        alias: alias.clone(),
        room_id: String::from("!stable:example.org"),
        servers: vec![String::from("example.org")],
    };
    assert_eq!(store.insert_if_absent(record), Ok(()));

    let first = store.get(&alias).expect("must be found").duplicate();
    let second = store.get(&alias).expect("must still be found");
    assert_eq!(first.alias, second.alias);
    assert_eq!(first.room_id, second.room_id);
    assert_eq!(first.servers, second.servers);
}

#[test]
fn store_delete_is_idempotent() {
    let mut store = AliasStore::new();
    let alias = String::from("fleeting");
    let record = RoomAlias {
        alias: alias.clone(),
        room_id: String::from("!f:example.org"),
        servers: vec![String::from("example.org")],
    };
    assert_eq!(store.insert_if_absent(record), Ok(()));

    store.delete(&alias);
    assert!(store.get(&alias).is_none());
    store.delete(&alias);
    assert!(store.get(&alias).is_none());
}

#[test]
fn error_text_names_each_class() {
    assert_eq!(DirectoryError::NotFound.as_text(), "not found");
    assert_eq!(DirectoryError::Conflict.as_text(), "conflict");
    assert_eq!(DirectoryError::InvalidInput.as_text(), "invalid input");
    assert_eq!(
        DirectoryError::StoreUnavailable.as_text(),
        "store unavailable"
    );
}
