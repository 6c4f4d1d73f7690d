//! Laws of the directory, proved over the operation models of
//! [`crate::directory`].
//!
//! Each law quantifies over an arbitrary store content `m`, so it holds in
//! every state the exec operations can produce: their contracts state that
//! every result and every new store content equals the corresponding model.

use vstd::prelude::*;

use crate::alias::RoomAliasData;
use crate::directory::{
    new_record_data, register_model, resolve_model, revoke_model,
};
use crate::error::DirectoryError;

verus! {

/// Round trip: registering a free alias `a` for room `r` succeeds, and
/// resolving `a` afterwards returns room id `r` with a non-empty server
/// list containing the local domain.
pub proof fn lemma_round_trip(
    m: Map<Seq<char>, RoomAliasData>,
    a: Seq<char>,
    r: Seq<char>,
    d: Seq<char>,
)
    requires
        !m.contains_key(a),
    ensures
        register_model(m, a, r, d).0 == Ok::<RoomAliasData, DirectoryError>(
            new_record_data(a, r, d),
        ),
        resolve_model(register_model(m, a, r, d).1, a) == Ok::<RoomAliasData, DirectoryError>(
            new_record_data(a, r, d),
        ),
        new_record_data(a, r, d).room_id == r,
        new_record_data(a, r, d).servers.len() > 0,
        new_record_data(a, r, d).servers.contains(d),
{
    assert(new_record_data(a, r, d).servers[0] == d);
}

/// Deletion finality: after registering `a` and then revoking it, resolving
/// `a` fails with `NotFound` — whatever the store held before, and whether
/// or not the registration succeeded.
pub proof fn lemma_deletion_finality(
    m: Map<Seq<char>, RoomAliasData>,
    a: Seq<char>,
    r: Seq<char>,
    d: Seq<char>,
)
    ensures
        resolve_model(revoke_model(register_model(m, a, r, d).1, a), a) == Err::<
            RoomAliasData,
            DirectoryError,
        >(DirectoryError::NotFound),
{
}

/// Idempotent revoke: revoking an alias that was never registered succeeds
/// — revocation is total and never errors — and leaves the store exactly as
/// it was.
pub proof fn lemma_idempotent_revoke(m: Map<Seq<char>, RoomAliasData>, a: Seq<char>)
    requires
        !m.contains_key(a),
    ensures
        revoke_model(m, a) == m,
{
    assert(revoke_model(m, a) =~= m);
}

/// Uniqueness under race: of two registrations of one alias, serialized by
/// the store's atomic insert in either order, exactly the first succeeds and
/// the second fails with `Conflict`; the surviving record is the winner's,
/// and a subsequent resolve returns it. Instantiating `r1` and `r2` in
/// either order covers both outcomes of the race.
pub proof fn lemma_uniqueness_under_race(
    m: Map<Seq<char>, RoomAliasData>,
    a: Seq<char>,
    r1: Seq<char>,
    r2: Seq<char>,
    d: Seq<char>,
)
    requires
        !m.contains_key(a),
    ensures
        register_model(m, a, r1, d).0 is Ok,
        register_model(register_model(m, a, r1, d).1, a, r2, d).0 == Err::<
            RoomAliasData,
            DirectoryError,
        >(DirectoryError::Conflict),
        register_model(register_model(m, a, r1, d).1, a, r2, d).1 == register_model(
            m,
            a,
            r1,
            d,
        ).1,
        resolve_model(register_model(register_model(m, a, r1, d).1, a, r2, d).1, a) == Ok::<
            RoomAliasData,
            DirectoryError,
        >(new_record_data(a, r1, d)),
{
}

/// Unknown alias: resolving an alias with no live record — in particular
/// one that was never created — fails with `NotFound`.
pub proof fn lemma_unknown_alias(m: Map<Seq<char>, RoomAliasData>, a: Seq<char>)
    requires
        !m.contains_key(a),
    ensures
        resolve_model(m, a) == Err::<RoomAliasData, DirectoryError>(DirectoryError::NotFound),
{
}

} // verus!
