//! The draft store: records keyed by identifier, with the uniqueness
//! constraint and the primitives the service needs — insert, find by
//! identifier, and the two conditional updates.
//!
//! The store denotes a map from identifier to record; every contract is
//! stated over that map.

use vstd::prelude::*;
use crate::json::JsonValue;
use crate::model::{Draft, DraftModel, Error, Status};

verus! {

/// No two records share an identifier: the store's uniqueness constraint.
spec fn unique_uuids(s: Seq<Draft>) -> bool {
    forall|i: int, j: int| 0 <= i < j < s.len() ==> s[i]@.uuid != s[j]@.uuid
}

/// The map a sequence of records denotes: each record under its identifier.
spec fn map_of(s: Seq<Draft>) -> Map<Seq<char>, DraftModel>
    decreases s.len(),
{
    if s.len() == 0 {
        Map::empty()
    } else {
        map_of(s.drop_last()).insert(s.last()@.uuid, s.last()@)
    }
}

proof fn lemma_key_index(s: Seq<Draft>, k: Seq<char>)
    ensures
        map_of(s).contains_key(k) <==> exists|i: int| 0 <= i < s.len() && s[i]@.uuid == k,
    decreases s.len(),
{
    if s.len() > 0 {
        lemma_key_index(s.drop_last(), k);
        if s.last()@.uuid == k {
            assert(s[s.len() - 1]@.uuid == k);
        } else {
            if exists|i: int| 0 <= i < s.len() && s[i]@.uuid == k {
                let i = choose|i: int| 0 <= i < s.len() && s[i]@.uuid == k;
                assert(s.drop_last()[i]@.uuid == k);
            }
        }
    }
}

proof fn lemma_at_index(s: Seq<Draft>, i: int)
    requires
        unique_uuids(s),
        0 <= i < s.len(),
    ensures
        map_of(s).contains_key(s[i]@.uuid),
        map_of(s)[s[i]@.uuid] == s[i]@,
    decreases s.len(),
{
    if i < s.len() - 1 {
        lemma_at_index(s.drop_last(), i);
        assert(s.last()@.uuid != s[i]@.uuid);
    }
}

proof fn lemma_push(s: Seq<Draft>, d: Draft)
    requires
        unique_uuids(s),
        !map_of(s).contains_key(d@.uuid),
    ensures
        unique_uuids(s.push(d)),
        map_of(s.push(d)) == map_of(s).insert(d@.uuid, d@),
    decreases s.len(),
{
    lemma_key_index(s, d@.uuid);
    assert forall|i: int, j: int| 0 <= i < j < s.push(d).len() implies s.push(d)[i]@.uuid
        != s.push(d)[j]@.uuid by {
        if j == s.len() {
            assert(s[i]@.uuid != d@.uuid);
        }
    }
    assert(s.push(d).drop_last() =~= s);
    assert(s.push(d).last() == d);
}

proof fn lemma_update(s: Seq<Draft>, i: int, d: Draft)
    requires
        unique_uuids(s),
        0 <= i < s.len(),
        d@.uuid == s[i]@.uuid,
    ensures
        unique_uuids(s.update(i, d)),
        map_of(s.update(i, d)) == map_of(s).insert(d@.uuid, d@),
    decreases s.len(),
{
    let s2 = s.update(i, d);
    assert forall|a: int, b: int| 0 <= a < b < s2.len() implies s2[a]@.uuid != s2[b]@.uuid by {
        assert(s[a]@.uuid != s[b]@.uuid);
    }
    if i == s.len() - 1 {
        assert(s2.drop_last() =~= s.drop_last());
        assert(map_of(s2) =~= map_of(s).insert(d@.uuid, d@));
    } else {
        assert(s2.drop_last() =~= s.drop_last().update(i, d));
        lemma_update(s.drop_last(), i, d);
        assert(s.last()@.uuid != d@.uuid);
        assert(map_of(s2) =~= map_of(s).insert(d@.uuid, d@));
    }
}

/// Whether the views of two strings are the same sequence of characters.
fn str_eq(a: &str, b: &str) -> (r: bool)
    ensures
        r == (a@ == b@),
{
    let sa = a.to_owned();
    let sb = b.to_owned();
    sa == sb
}

/// The persistence layer of the service: draft records with lookup by
/// identifier and a uniqueness constraint on it.
pub struct DraftStore {
    records: Vec<Draft>,
}

impl View for DraftStore {
    type V = Map<Seq<char>, DraftModel>;

    closed spec fn view(&self) -> Map<Seq<char>, DraftModel> {
        map_of(self.records@)
    }
}

impl DraftStore {
    /// The uniqueness constraint holds.
    pub closed spec fn wf(&self) -> bool {
        unique_uuids(self.records@)
    }

    /// An empty store.
    pub fn new() -> (s: Self)
        ensures
            s.wf(),
            s@ == Map::<Seq<char>, DraftModel>::empty(),
    {
        let s = DraftStore { records: Vec::new() };
        proof {
            assert(s@ =~= Map::<Seq<char>, DraftModel>::empty());
        }
        s
    }

    /// The index of the record with this identifier, if one exists.
    fn find_index(&self, uuid: &str) -> (r: Option<usize>)
        requires
            self.wf(),
        ensures
            match r {
                Some(i) => i < self.records@.len() && self.records@[i as int]@.uuid == uuid@
                    && self@.contains_key(uuid@) && self@[uuid@] == self.records@[i as int]@,
                None => !self@.contains_key(uuid@),
            },
    {
        let mut i: usize = 0;
        while i < self.records.len()
            invariant
                self.wf(),
                i <= self.records@.len(),
                forall|j: int| 0 <= j < i as int ==> self.records@[j]@.uuid != uuid@,
            decreases self.records@.len() - i as int,
        {
            if str_eq(self.records[i].uuid.as_str(), uuid) {
                proof {
                    lemma_at_index(self.records@, i as int);
                }
                return Some(i);
            }
            i = i + 1;
        }
        proof {
            lemma_key_index(self.records@, uuid@);
        }
        None
    }

    /// Inserts a new record; refused when its identifier is already taken,
    /// as the uniqueness constraint demands.
    pub fn insert_one(&mut self, d: Draft) -> (r: Result<(), Error>)
        requires
            old(self).wf(),
        ensures
            final(self).wf(),
            match r {
                Ok(()) => !old(self)@.contains_key(d@.uuid) && final(self)@ == old(self)@.insert(
                    d@.uuid,
                    d@,
                ),
                Err(e) => e is Storage && old(self)@.contains_key(d@.uuid) && final(self)@ == old(
                    self,
                )@,
            },
    {
        match self.find_index(d.uuid.as_str()) {
            Some(_) => Err(Error::Storage),
            None => {
                proof {
                    lemma_push(self.records@, d);
                }
                self.records.push(d);
                Ok(())
            },
        }
    }

    /// The record with this identifier, if one exists.
    pub fn find_one(&self, uuid: &str) -> (r: Option<&Draft>)
        requires
            self.wf(),
        ensures
            match r {
                Some(d) => self@.contains_key(uuid@) && d@ == self@[uuid@] && d@.uuid == uuid@,
                None => !self@.contains_key(uuid@),
            },
    {
        match self.find_index(uuid) {
            Some(i) => Some(&self.records[i]),
            None => None,
        }
    }

    /// The conditional update behind a partial save: it matches the record
    /// with this identifier only while that record is still a draft, and then
    /// replaces the data wholesale, stamps the update time, and takes the
    /// step if one was supplied.
    pub fn update_if_draft(
        &mut self,
        uuid: &str,
        data: JsonValue,
        step: Option<i64>,
        now: String,
    ) -> (matched: bool)
        requires
            old(self).wf(),
        ensures
            final(self).wf(),
            matched == (old(self)@.contains_key(uuid@) && old(self)@[uuid@].status is Draft),
            matched ==> final(self)@ == old(self)@.insert(
                uuid@,
                DraftModel {
                    uuid: uuid@,
                    data: data.deep_view(),
                    step: match step {
                        Some(s) => s as int,
                        None => old(self)@[uuid@].step,
                    },
                    status: Status::Draft,
                    created_at: old(self)@[uuid@].created_at,
                    updated_at: now@,
                },
            ),
            !matched ==> final(self)@ == old(self)@,
    {
        match self.find_index(uuid) {
            Some(i) => {
                if self.records[i].status == Status::Draft {
                    let new_step = match step {
                        Some(s) => s,
                        None => self.records[i].step,
                    };
                    let d = Draft {
                        uuid: self.records[i].uuid.clone(),
                        data,
                        step: new_step,
                        status: Status::Draft,
                        created_at: self.records[i].created_at.clone(),
                        updated_at: now,
                    };
                    proof {
                        lemma_update(self.records@, i as int, d);
                    }
                    self.records.set(i, d);
                    true
                } else {
                    false
                }
            },
            None => false,
        }
    }

    /// The unconditional update behind a submission: any record with this
    /// identifier is marked submitted and stamped, whatever state it was in.
    pub fn mark_submitted(&mut self, uuid: &str, now: String) -> (matched: bool)
        requires
            old(self).wf(),
        ensures
            final(self).wf(),
            matched == old(self)@.contains_key(uuid@),
            matched ==> final(self)@ == old(self)@.insert(
                uuid@,
                DraftModel {
                    uuid: uuid@,
                    data: old(self)@[uuid@].data,
                    step: old(self)@[uuid@].step,
                    status: Status::Submitted,
                    created_at: old(self)@[uuid@].created_at,
                    updated_at: now@,
                },
            ),
            !matched ==> final(self)@ == old(self)@,
    {
        match self.find_index(uuid) {
            Some(i) => {
                let d = Draft {
                    uuid: self.records[i].uuid.clone(),
                    data: self.records[i].data.deep_clone(),
                    step: self.records[i].step,
                    status: Status::Submitted,
                    created_at: self.records[i].created_at.clone(),
                    updated_at: now,
                };
                proof {
                    lemma_update(self.records@, i as int, d);
                }
                self.records.set(i, d);
                true
            },
            None => false,
        }
    }
}

} // verus!
