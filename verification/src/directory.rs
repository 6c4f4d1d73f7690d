//! Read and write paths of the directory, and the façade over them.
//!
//! Each operation is stated against a spec-level model of the store: a map
//! from alias to record. The models double as the vocabulary of the laws in
//! [`crate::laws`].

use vstd::prelude::*;
use vstd::string::StrSliceExecFns;

use crate::alias::{RoomAlias, RoomAliasData};
use crate::error::DirectoryError;
use crate::store::AliasStore;

verus! {

/// Image of a `Result` carrying a record, for stating contracts.
pub open spec fn record_result(r: Result<RoomAlias, DirectoryError>) -> Result<
    RoomAliasData,
    DirectoryError,
> {
    match r {
        Ok(rec) => Ok(rec@),
        Err(e) => Err(e),
    }
}

/// The record a successful registration creates: the alias bound to the
/// room, resolvable by the local domain alone.
pub open spec fn new_record_data(
    a: Seq<char>,
    room_id: Seq<char>,
    local_domain: Seq<char>,
) -> RoomAliasData {
    RoomAliasData { alias: a, room_id, servers: seq![local_domain] }
}

/// What resolving `a` returns: the live record, or `NotFound`.
pub open spec fn resolve_model(m: Map<Seq<char>, RoomAliasData>, a: Seq<char>) -> Result<
    RoomAliasData,
    DirectoryError,
> {
    if m.contains_key(a) {
        Ok(m[a])
    } else {
        Err(DirectoryError::NotFound)
    }
}

/// What registering `a` as a name for `room_id` returns, and what it leaves
/// in the store: a fresh binding if `a` was absent, `Conflict` and no change
/// otherwise.
pub open spec fn register_model(
    m: Map<Seq<char>, RoomAliasData>,
    a: Seq<char>,
    room_id: Seq<char>,
    local_domain: Seq<char>,
) -> (Result<RoomAliasData, DirectoryError>, Map<Seq<char>, RoomAliasData>) {
    if m.contains_key(a) {
        (Err(DirectoryError::Conflict), m)
    } else {
        (
            Ok(new_record_data(a, room_id, local_domain)),
            m.insert(a, new_record_data(a, room_id, local_domain)),
        )
    }
}

/// What revoking `a` leaves in the store; revocation always succeeds.
pub open spec fn revoke_model(m: Map<Seq<char>, RoomAliasData>, a: Seq<char>) -> Map<
    Seq<char>,
    RoomAliasData,
> {
    m.remove(a)
}

/// Read path: alias to record.
pub struct AliasResolver;

impl AliasResolver {
    /// The live record for `alias`, or `NotFound`. No side effects.
    pub fn resolve(store: &AliasStore, alias: &String) -> (r: Result<RoomAlias, DirectoryError>)
        requires
            store.wf(),
        ensures
            record_result(r) == resolve_model(store@, alias@),
    {
        match store.get(alias) {
            Some(rec) => Ok(rec.duplicate()),
            None => Err(DirectoryError::NotFound),
        }
    }
}

/// Write path: creation of a new alias-to-room binding.
pub struct AliasRegistrar;

impl AliasRegistrar {
    /// Create the binding `alias -> room_id` with `servers =
    /// [local_domain]`, failing with `Conflict` when a live record already
    /// exists. The uniqueness check and the insert are a single atomic
    /// operation at the store boundary, so two concurrent registrations of
    /// one alias cannot both succeed.
    pub fn register(
        store: &mut AliasStore,
        alias: &String,
        room_id: &String,
        local_domain: &String,
    ) -> (r: Result<RoomAlias, DirectoryError>)
        requires
            old(store).wf(),
        ensures
            final(store).wf(),
            record_result(r) == register_model(old(store)@, alias@, room_id@, local_domain@).0,
            final(store)@ == register_model(old(store)@, alias@, room_id@, local_domain@).1,
    {
        let mut servers: Vec<String> = Vec::new();
        servers.push(local_domain.clone());
        let record = RoomAlias { alias: alias.clone(), room_id: room_id.clone(), servers };
        proof {
            assert(record@.servers =~= seq![local_domain@]);
            assert(record@ == new_record_data(alias@, room_id@, local_domain@));
        }
        let created = record.duplicate();
        match store.insert_if_absent(record) {
            Ok(()) => Ok(created),
            Err(e) => Err(e),
        }
    }
}

/// Write path: removal of a binding.
pub struct AliasRevoker;

impl AliasRevoker {
    /// Remove any live binding of `alias`. Succeeds unconditionally, whether
    /// or not the alias existed; no tombstone is left behind.
    pub fn revoke(store: &mut AliasStore, alias: &String)
        requires
            old(store).wf(),
        ensures
            final(store).wf(),
            final(store)@ == revoke_model(old(store)@, alias@),
    {
        store.delete(alias);
    }
}

/// A syntactically acceptable alias: non-empty.
pub open spec fn valid_alias(a: Seq<char>) -> bool {
    a.len() > 0
}

/// A syntactically acceptable room id: non-empty.
pub open spec fn valid_room_id(r: Seq<char>) -> bool {
    r.len() > 0
}

/// What the façade's read returns: `InvalidInput` on a malformed alias,
/// otherwise the resolver's answer.
pub open spec fn get_room_model(m: Map<Seq<char>, RoomAliasData>, a: Seq<char>) -> Result<
    RoomAliasData,
    DirectoryError,
> {
    if !valid_alias(a) {
        Err(DirectoryError::InvalidInput)
    } else {
        resolve_model(m, a)
    }
}

/// What the façade's create returns and leaves in the store.
pub open spec fn create_alias_model(
    m: Map<Seq<char>, RoomAliasData>,
    a: Seq<char>,
    room_id: Seq<char>,
    local_domain: Seq<char>,
) -> (Result<RoomAliasData, DirectoryError>, Map<Seq<char>, RoomAliasData>) {
    if !valid_alias(a) || !valid_room_id(room_id) {
        (Err(DirectoryError::InvalidInput), m)
    } else {
        register_model(m, a, room_id, local_domain)
    }
}

/// What the façade's delete returns and leaves in the store; on a valid
/// alias it always succeeds.
pub open spec fn delete_alias_model(m: Map<Seq<char>, RoomAliasData>, a: Seq<char>) -> (Result<
    (),
    DirectoryError,
>, Map<Seq<char>, RoomAliasData>) {
    if !valid_alias(a) {
        (Err(DirectoryError::InvalidInput), m)
    } else {
        (Ok(()), revoke_model(m, a))
    }
}

/// Façade wiring resolver, registrar and revoker to callers: pure dispatch
/// plus light validation. It holds only the serving node's own domain; all
/// alias state lives in the store.
pub struct DirectoryService {
    /// The local server's domain: sole initial resolver of new aliases.
    pub local_domain: String,
}

impl View for DirectoryService {
    type V = Seq<char>;

    open spec fn view(&self) -> Seq<char> {
        self.local_domain@
    }
}

impl DirectoryService {
    pub fn new(local_domain: String) -> (s: DirectoryService)
        ensures
            s@ == local_domain@,
    {
        DirectoryService { local_domain }
    }

    /// Read an alias: validation, then the resolver.
    pub fn get_room(&self, store: &AliasStore, alias: &String) -> (r: Result<
        RoomAlias,
        DirectoryError,
    >)
        requires
            store.wf(),
        ensures
            record_result(r) == get_room_model(store@, alias@),
    {
        if alias.as_str().unicode_len() == 0 {
            Err(DirectoryError::InvalidInput)
        } else {
            AliasResolver::resolve(store, alias)
        }
    }

    /// Bind an alias to a room: validation, then the registrar with this
    /// node's domain as the sole initial server.
    pub fn create_alias(&self, store: &mut AliasStore, alias: &String, room_id: &String) -> (r:
        Result<RoomAlias, DirectoryError>)
        requires
            old(store).wf(),
        ensures
            final(store).wf(),
            record_result(r) == create_alias_model(old(store)@, alias@, room_id@, self@).0,
            final(store)@ == create_alias_model(old(store)@, alias@, room_id@, self@).1,
    {
        if alias.as_str().unicode_len() == 0 || room_id.as_str().unicode_len() == 0 {
            Err(DirectoryError::InvalidInput)
        } else {
            AliasRegistrar::register(store, alias, room_id, &self.local_domain)
        }
    }

    /// Remove an alias: validation, then the revoker. Succeeds on a valid
    /// alias whether or not it was registered.
    pub fn delete_alias(&self, store: &mut AliasStore, alias: &String) -> (r: Result<
        (),
        DirectoryError,
    >)
        requires
            old(store).wf(),
        ensures
            final(store).wf(),
            r == delete_alias_model(old(store)@, alias@).0,
            final(store)@ == delete_alias_model(old(store)@, alias@).1,
    {
        if alias.as_str().unicode_len() == 0 {
            Err(DirectoryError::InvalidInput)
        } else {
            AliasRevoker::revoke(store, alias);
            Ok(())
        }
    }
}

} // verus!
