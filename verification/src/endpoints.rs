//! The directory endpoints: one struct per method on the alias route.
//!
//! Each `handle` is the computational core of the corresponding request
//! handler. The transport layer extracts the alias from the route and the
//! room id from the request body, authenticates the caller, and hands the
//! results in as plain values; missing route parameters arrive as `None`.

use vstd::prelude::*;

use crate::alias::{RoomAlias, RoomAliasData};
use crate::directory::{
    create_alias_model, delete_alias_model, get_room_model, DirectoryService,
};
use crate::error::DirectoryError;
use crate::store::AliasStore;

verus! {

/// Body of a successful read of an alias.
#[derive(Debug)]
pub struct GetDirectoryRoomResponse {
    /// Identifier of the room the alias names.
    pub room_id: String,
    /// Servers able to resolve the alias.
    pub servers: Vec<String>,
}

/// The alias route under the GET method.
pub struct GetDirectoryRoom;

/// The alias route under the DELETE method.
pub struct DeleteDirectoryRoom;

/// The alias route under the PUT method.
pub struct PutDirectoryRoom;

impl GetDirectoryRoom {
    /// Resolve the alias named by the route. A request whose route carries
    /// no alias parameter is answered with `NotFound`, as if the alias did
    /// not exist.
    pub fn handle(
        service: &DirectoryService,
        store: &AliasStore,
        room_alias_name: Option<&String>,
    ) -> (r: Result<GetDirectoryRoomResponse, DirectoryError>)
        requires
            store.wf(),
        ensures
            match room_alias_name {
                None => r == Err::<GetDirectoryRoomResponse, DirectoryError>(
                    DirectoryError::NotFound,
                ),
                Some(a) => match r {
                    Ok(resp) => get_room_model(store@, a@) is Ok && resp.room_id@ == get_room_model(
                        store@,
                        a@,
                    )->Ok_0.room_id && resp.servers.deep_view() == get_room_model(
                        store@,
                        a@,
                    )->Ok_0.servers,
                    Err(e) => get_room_model(store@, a@) == Err::<RoomAliasData, DirectoryError>(e),
                },
            },
    {
        match room_alias_name {
            None => Err(DirectoryError::NotFound),
            Some(alias) => match service.get_room(store, alias) {
                Ok(rec) => {
                    let RoomAlias { alias: _, room_id, servers } = rec;
                    Ok(GetDirectoryRoomResponse { room_id, servers })
                },
                Err(e) => Err(e),
            },
        }
    }
}

impl DeleteDirectoryRoom {
    /// Revoke the alias named by the route. A request whose route carries no
    /// alias parameter is answered with `NotFound`; otherwise the revocation
    /// succeeds whether or not the alias was registered.
    pub fn handle(
        service: &DirectoryService,
        store: &mut AliasStore,
        room_alias_name: Option<&String>,
    ) -> (r: Result<(), DirectoryError>)
        requires
            old(store).wf(),
        ensures
            final(store).wf(),
            match room_alias_name {
                None => r == Err::<(), DirectoryError>(DirectoryError::NotFound) && *final(store)
                    == *old(store),
                Some(a) => r == delete_alias_model(old(store)@, a@).0 && final(store)@
                    == delete_alias_model(old(store)@, a@).1,
            },
    {
        match room_alias_name {
            None => Err(DirectoryError::NotFound),
            Some(alias) => service.delete_alias(store, alias),
        }
    }
}

impl PutDirectoryRoom {
    /// Register the alias named by the route as a name for `room_id`. A
    /// request whose route carries no alias parameter is answered with
    /// `NotFound`; one whose body yielded no room id, with `InvalidInput`.
    /// Registering an alias that already has a live record fails with
    /// `Conflict` and leaves the store unchanged.
    pub fn handle(
        service: &DirectoryService,
        store: &mut AliasStore,
        room_alias_name: Option<&String>,
        room_id: Option<&String>,
    ) -> (r: Result<(), DirectoryError>)
        requires
            old(store).wf(),
        ensures
            final(store).wf(),
            match room_alias_name {
                None => r == Err::<(), DirectoryError>(DirectoryError::NotFound) && *final(store)
                    == *old(store),
                Some(a) => match room_id {
                    None => r == Err::<(), DirectoryError>(DirectoryError::InvalidInput)
                        && *final(store) == *old(store),
                    Some(rid) => ({
                        let model = create_alias_model(old(store)@, a@, rid@, service@);
                        &&& r == (match model.0 {
                            Ok(_) => Ok::<(), DirectoryError>(()),
                            Err(e) => Err::<(), DirectoryError>(e),
                        })
                        &&& final(store)@ == model.1
                    }),
                },
            },
    {
        match room_alias_name {
            None => Err(DirectoryError::NotFound),
            Some(alias) => match room_id {
                None => Err(DirectoryError::InvalidInput),
                Some(rid) => match service.create_alias(store, alias, rid) {
                    Ok(_) => Ok(()),
                    Err(e) => Err(e),
                },
            },
        }
    }
}

} // verus!
