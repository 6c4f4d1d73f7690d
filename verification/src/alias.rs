//! The alias record: the sole entity the directory stores.

use vstd::prelude::*;

verus! {

/// A live binding of an alias to a room, together with the servers able to
/// resolve the alias. The local server's domain is always present in
/// `servers`, conventionally first.
#[derive(Debug)]
pub struct RoomAlias {
    /// Human-readable name, globally unique within the store; primary key.
    pub alias: String,
    /// Opaque identifier of the target room.
    pub room_id: String,
    /// Server domains permitted to resolve this alias; never empty for a
    /// live record.
    pub servers: Vec<String>,
}

/// Mathematical image of a [`RoomAlias`]: the same three fields as character
/// sequences.
pub ghost struct RoomAliasData {
    pub alias: Seq<char>,
    pub room_id: Seq<char>,
    pub servers: Seq<Seq<char>>,
}

impl RoomAliasData {
    /// A record is well formed when its server list is non-empty.
    pub open spec fn wf(self) -> bool {
        self.servers.len() > 0
    }
}

impl View for RoomAlias {
    type V = RoomAliasData;

    open spec fn view(&self) -> RoomAliasData {
        RoomAliasData {
            alias: self.alias@,
            room_id: self.room_id@,
            servers: self.servers.deep_view(),
        }
    }
}

impl RoomAlias {
    /// An owned copy of the record, equal to it in the model.
    pub fn duplicate(&self) -> (r: RoomAlias)
        ensures
            r@ == self@,
    {
        let mut servers: Vec<String> = Vec::new();
        let mut i: usize = 0;
        while i < self.servers.len()
            invariant
                i <= self.servers@.len(),
                servers@.len() == i,
                forall|j: int| 0 <= j < i ==> servers@[j] == self.servers@[j],
            decreases self.servers@.len() - i,
        {
            servers.push(self.servers[i].clone());
            i = i + 1;
        }
        proof {
            assert(servers@ =~= self.servers@);
        }
        RoomAlias { alias: self.alias.clone(), room_id: self.room_id.clone(), servers }
    }
}

} // verus!
