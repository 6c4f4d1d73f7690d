//! Persistence layer: a key-unique mapping from alias to record.
//!
//! The store is the single authority for the cross-request invariant of the
//! directory: at most one live record per alias. Uniqueness is enforced by
//! the store's own atomic insert-if-absent primitive, never by a
//! check-then-insert at the application layer.

use vstd::prelude::*;

use crate::alias::{RoomAlias, RoomAliasData};
use crate::error::DirectoryError;

verus! {

/// The map a sequence of records denotes: each record keyed by its alias.
pub open spec fn records_map(s: Seq<RoomAlias>) -> Map<Seq<char>, RoomAliasData>
    decreases s.len(),
{
    if s.len() == 0 {
        Map::empty()
    } else {
        records_map(s.drop_last()).insert(s.last()@.alias, s.last()@)
    }
}

/// No two records carry the same alias.
pub open spec fn unique_aliases(s: Seq<RoomAlias>) -> bool {
    forall|i: int, j: int|
        #![trigger s[i]@.alias, s[j]@.alias]
        0 <= i < j < s.len() ==> s[i]@.alias != s[j]@.alias
}

/// Every record is well formed and aliases are pairwise distinct.
pub open spec fn wf_records(s: Seq<RoomAlias>) -> bool {
    &&& unique_aliases(s)
    &&& forall|i: int| 0 <= i < s.len() ==> (#[trigger] s[i]@).wf()
}

/// A key is in the denoted map exactly when some record carries it, and the
/// map then holds that record.
proof fn lemma_records_map_index(s: Seq<RoomAlias>, k: Seq<char>)
    ensures
        records_map(s).contains_key(k) <==> exists|i: int|
            0 <= i < s.len() && s[i]@.alias == k,
        records_map(s).contains_key(k) ==> exists|i: int|
            0 <= i < s.len() && s[i]@.alias == k && records_map(s)[k] == s[i]@,
    decreases s.len(),
{
    if s.len() > 0 {
        let inner = s.drop_last();
        lemma_records_map_index(inner, k);
        assert(forall|i: int| 0 <= i < inner.len() ==> inner[i] == s[i]);
        if k == s.last()@.alias {
            assert(s[s.len() - 1]@.alias == k);
            assert(records_map(s)[k] == s[s.len() - 1]@);
        } else {
            if exists|i: int| 0 <= i < s.len() && s[i]@.alias == k {
                let i = choose|i: int| 0 <= i < s.len() && s[i]@.alias == k;
                assert(i < s.len() - 1);
                assert(inner[i]@.alias == k);
            }
        }
    }
}

/// Removing the record that carries a key removes exactly that key from the
/// denoted map.
proof fn lemma_records_map_remove(s: Seq<RoomAlias>, i: int, k: Seq<char>)
    requires
        unique_aliases(s),
        0 <= i < s.len(),
        s[i]@.alias == k,
    ensures
        records_map(s.remove(i)) == records_map(s).remove(k),
    decreases s.len(),
{
    let sr = s.remove(i);
    s.remove_ensures(i);
    if i == s.len() - 1 {
        assert(sr =~= s.drop_last());
        lemma_records_map_index(s.drop_last(), k);
        assert(forall|j: int| 0 <= j < s.len() - 1 ==> s.drop_last()[j] == s[j]);
        assert(!records_map(s.drop_last()).contains_key(k));
        assert(records_map(s).remove(k) =~= records_map(s.drop_last()));
    } else {
        let inner = s.drop_last();
        assert(forall|j: int| 0 <= j < inner.len() ==> inner[j] == s[j]);
        assert(unique_aliases(inner));
        assert(inner[i]@.alias == k);
        lemma_records_map_remove(inner, i, k);
        inner.remove_ensures(i);
        assert(sr.last() == s.last());
        assert(sr.drop_last() =~= inner.remove(i));
        assert(s.last()@.alias != k);
        assert(records_map(inner).remove(k).insert(s.last()@.alias, s.last()@) =~= records_map(
            inner,
        ).insert(s.last()@.alias, s.last()@).remove(k));
        assert(records_map(sr) == records_map(inner.remove(i)).insert(
            s.last()@.alias,
            s.last()@,
        ));
    }
}

/// Durable key-unique mapping from alias to [`RoomAlias`] record.
pub struct AliasStore {
    records: Vec<RoomAlias>,
}

impl View for AliasStore {
    type V = Map<Seq<char>, RoomAliasData>;

    closed spec fn view(&self) -> Map<Seq<char>, RoomAliasData> {
        records_map(self.records@)
    }
}

impl AliasStore {
    /// The store's invariant: unique aliases, every live record well formed.
    pub closed spec fn wf(&self) -> bool {
        wf_records(self.records@)
    }

    /// A fresh store holds nothing.
    pub fn new() -> (s: AliasStore)
        ensures
            s.wf(),
            s@ == Map::<Seq<char>, RoomAliasData>::empty(),
    {
        AliasStore { records: Vec::new() }
    }

    /// Every value of the denoted map is a well-formed record carrying its
    /// own key.
    pub proof fn lemma_wf_record(&self, a: Seq<char>)
        requires
            self.wf(),
            self@.contains_key(a),
        ensures
            self@[a].wf(),
            self@[a].alias == a,
    {
        lemma_records_map_index(self.records@, a);
    }

    /// Index of the record carrying `alias`, if one is live.
    fn index_of(&self, alias: &String) -> (r: Option<usize>)
        requires
            self.wf(),
        ensures
            match r {
                Some(i) => i < self.records@.len() && self.records@[i as int]@.alias == alias@
                    && self@.contains_key(alias@) && self@[alias@] == self.records@[i as int]@,
                None => !self@.contains_key(alias@),
            },
    {
        let mut i: usize = 0;
        while i < self.records.len()
            invariant
                self.wf(),
                i <= self.records@.len(),
                forall|j: int| 0 <= j < i ==> self.records@[j]@.alias != alias@,
            decreases self.records@.len() - i,
        {
            if self.records[i].alias == *alias {
                proof {
                    lemma_records_map_index(self.records@, alias@);
                    assert(self.records@[i as int]@.alias == alias@);
                    let j = choose|j: int|
                        0 <= j < self.records@.len() && self.records@[j]@.alias == alias@
                            && self@[alias@] == self.records@[j]@;
                    assert(j == i as int);
                }
                return Some(i);
            }
            i = i + 1;
        }
        proof {
            lemma_records_map_index(self.records@, alias@);
        }
        None
    }

    /// Pure lookup of the live record for `alias`; no side effects.
    pub fn get(&self, alias: &String) -> (r: Option<&RoomAlias>)
        requires
            self.wf(),
        ensures
            match r {
                Some(rec) => self@.contains_key(alias@) && rec@ == self@[alias@],
                None => !self@.contains_key(alias@),
            },
    {
        match self.index_of(alias) {
            Some(i) => Some(&self.records[i]),
            None => None,
        }
    }

    /// Atomic test-and-set on the alias key: succeeds exactly when the alias
    /// has no live record, and never silently overwrites one.
    pub fn insert_if_absent(&mut self, record: RoomAlias) -> (r: Result<(), DirectoryError>)
        requires
            old(self).wf(),
            record@.wf(),
        ensures
            final(self).wf(),
            match r {
                Ok(()) => !old(self)@.contains_key(record@.alias) && final(self)@ == old(
                    self,
                )@.insert(record@.alias, record@),
                Err(e) => e == DirectoryError::Conflict && old(self)@.contains_key(record@.alias)
                    && *final(self) == *old(self),
            },
    {
        match self.index_of(&record.alias) {
            Some(_) => Err(DirectoryError::Conflict),
            None => {
                proof {
                    lemma_records_map_index(self.records@, record@.alias);
                    assert(forall|j: int|
                        0 <= j < self.records@.len() ==> self.records@[j]@.alias
                            != record@.alias);
                }
                self.records.push(record);
                proof {
                    assert(self.records@.drop_last() =~= old(self).records@);
                    assert(self.records@.last() == record);
                    assert forall|i: int, j: int|
                        0 <= i < j < self.records@.len() implies #[trigger] self.records@[i]@.alias
                        != #[trigger] self.records@[j]@.alias by {
                        if j < self.records@.len() - 1 {
                            assert(old(self).records@[i]@.alias != old(self).records@[j]@.alias);
                        } else {
                            assert(old(self).records@[i]@.alias != record@.alias);
                        }
                    }
                    assert(wf_records(self.records@));
                }
                Ok(())
            },
        }
    }

    /// Idempotent removal: deleting an absent alias is not an error and
    /// leaves the store as it was.
    pub fn delete(&mut self, alias: &String)
        requires
            old(self).wf(),
        ensures
            final(self).wf(),
            final(self)@ == old(self)@.remove(alias@),
    {
        match self.index_of(alias) {
            Some(i) => {
                proof {
                    old(self).records@.remove_ensures(i as int);
                }
                self.records.remove(i);
                proof {
                    lemma_records_map_remove(old(self).records@, i as int, alias@);
                    assert forall|p: int, q: int|
                        0 <= p < q < self.records@.len() implies #[trigger] self.records@[p]@.alias
                        != #[trigger] self.records@[q]@.alias by {
                        let op: int = if p < i as int {
                            p
                        } else {
                            p + 1
                        };
                        let oq: int = if q < i as int {
                            q
                        } else {
                            q + 1
                        };
                        assert(old(self).records@[op]@.alias != old(self).records@[oq]@.alias);
                    }
                    assert(forall|p: int|
                        0 <= p < self.records@.len() ==> (#[trigger] self.records@[p]@).wf());
                    assert(wf_records(self.records@));
                }
            },
            None => {
                proof {
                    assert(old(self)@.remove(alias@) =~= old(self)@);
                }
            },
        }
    }
}

} // verus!
