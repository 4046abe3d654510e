//! The entry store: the persisted daemon configuration (`Config`) with its
//! list of entries, listen address and shared token, the CRUD operations
//! over that list, and the control-plane decision for an add request.
//!
//! Writing the configuration to disk is the surrounding binary's job; every
//! operation here mutates the in-memory store and says exactly what it did,
//! so the caller can persist the result before answering.

use vstd::prelude::*;
use vstd::pervasive::VecAdditionalExecFns;

use crate::entry::{Entry, EntryIdentifier, EntryV};

verus! {

/// The persisted daemon configuration.
#[derive(Debug)]
pub struct Config {
    pub entries: Vec<Entry>,
    pub address: String,
    pub token: String,
}

/// Whether the daemon keeps serving: its coarse run flag, flipped by a
/// stop request.
#[derive(Clone, Copy, Debug, PartialEq, Eq, Structural)]
pub enum RtodoDaemonStatus {
    Running,
    Stopped,
}

/// Failure of a store operation.
#[derive(Clone, Copy, Debug, PartialEq, Eq, Structural)]
pub enum StoreError {
    /// No entry with the given id exists.
    EntryNotFound,
}

/// Whether an entry is named by the given identifier: by exact id, or by
/// exact name.
pub open spec fn entry_matches(e: Entry, ident: EntryIdentifier) -> bool {
    match ident {
        EntryIdentifier::Id(id) => e.id == id,
        EntryIdentifier::Name(name) => e.name@ == name@,
    }
}

/// The entries that survive deleting by the given identifier, in their
/// original order.
pub open spec fn remaining_after_delete(s: Seq<Entry>, ident: EntryIdentifier) -> Seq<Entry>
    decreases s.len(),
{
    if s.len() == 0 {
        s
    } else {
        let rest = remaining_after_delete(s.drop_last(), ident);
        if entry_matches(s.last(), ident) {
            rest
        } else {
            rest.push(s.last())
        }
    }
}

/// Nothing the identifier names survives a delete.
pub proof fn lemma_remaining_no_match(s: Seq<Entry>, ident: EntryIdentifier)
    ensures
        forall|j: int|
            0 <= j < remaining_after_delete(s, ident).len() ==> !entry_matches(
                #[trigger] remaining_after_delete(s, ident)[j],
                ident,
            ),
    decreases s.len(),
{
    if s.len() > 0 {
        lemma_remaining_no_match(s.drop_last(), ident);
        let r = remaining_after_delete(s, ident);
        let rr = remaining_after_delete(s.drop_last(), ident);
        assert forall|j: int| 0 <= j < r.len() implies !entry_matches(#[trigger] r[j], ident) by {
            if j < rr.len() {
                assert(r[j] == rr[j]);
            } else {
                assert(r[j] == s.last());
            }
        }
    }
}

/// The largest id present in the store, or zero for an empty store.
pub open spec fn max_entry_id(s: Seq<Entry>) -> int
    decreases s.len(),
{
    if s.len() == 0 {
        0
    } else {
        let m = max_entry_id(s.drop_last());
        if s.last().id > m {
            s.last().id as int
        } else {
            m
        }
    }
}

/// Every id in the store is at most the store's maximum id.
pub proof fn lemma_max_entry_id_bounds(s: Seq<Entry>)
    ensures
        forall|i: int| 0 <= i < s.len() ==> #[trigger] s[i].id <= max_entry_id(s),
        max_entry_id(s) >= 0,
    decreases s.len(),
{
    if s.len() > 0 {
        lemma_max_entry_id_bounds(s.drop_last());
        assert forall|i: int| 0 <= i < s.len() implies #[trigger] s[i].id <= max_entry_id(s) by {
            if i < s.len() - 1 {
                assert(s[i] == s.drop_last()[i]);
                assert(s.drop_last()[i].id <= max_entry_id(s.drop_last()));
            }
        }
    }
}

/// Whether an entry matches the identifier.
fn entry_matches_exec(e: &Entry, ident: &EntryIdentifier) -> (r: bool)
    ensures
        r == entry_matches(*e, *ident),
{
    match ident {
        EntryIdentifier::Id(id) => e.id == *id,
        EntryIdentifier::Name(name) => e.name == *name,
    }
}

impl Config {
    /// A fresh configuration holding no entries, the default listen
    /// address, and the given shared token. Generating a token, when none
    /// was persisted, is the surrounding binary's job.
    pub fn with_token(token: String) -> (r: Config)
        ensures
            r.entries@ == Seq::<Entry>::empty(),
            r.address@ == "0.0.0.0:6472"@,
            r.token == token,
    {
        Config { entries: Vec::new(), address: "0.0.0.0:6472".to_owned(), token }
    }

    /// Appends `entry` under the given id. The id is overwritten: the store
    /// assigns identity, whatever the caller put in the field.
    pub fn add_entry(&mut self, entry: Entry, id: u32)
        ensures
            final(self).entries@ == old(self).entries@.push((Entry { id, ..entry })),
            final(self).address == old(self).address,
            final(self).token == old(self).token,
    {
        let mut entry = entry;
        entry.id = id;
        self.entries.push(entry);
    }

    /// The largest id currently in the store (zero when it is empty).
    pub fn current_max_id(&self) -> (r: u32)
        ensures
            r == max_entry_id(self.entries@),
    {
        let mut m: u32 = 0;
        let mut i: usize = 0;
        while i < self.entries.len()
            invariant
                i <= self.entries@.len(),
                m == max_entry_id(self.entries@.subrange(0, i as int)),
            decreases self.entries@.len() - i,
        {
            proof {
                assert(self.entries@.subrange(0, i + 1).drop_last() =~= self.entries@.subrange(
                    0,
                    i as int,
                ));
                assert(self.entries@.subrange(0, i + 1).last() == self.entries@[i as int]);
            }
            if self.entries[i].id > m {
                m = self.entries[i].id;
            }
            i = i + 1;
        }
        proof {
            assert(self.entries@.subrange(0, self.entries@.len() as int) =~= self.entries@);
        }
        m
    }

    /// The id the store will assign next: one past the largest existing id,
    /// hence distinct from (indeed greater than) every existing id.
    pub fn next_entry_id(&self) -> (r: u32)
        requires
            max_entry_id(self.entries@) < u32::MAX,
        ensures
            r == max_entry_id(self.entries@) + 1,
            forall|i: int| 0 <= i < self.entries@.len() ==> #[trigger] self.entries@[i].id < r,
    {
        proof {
            lemma_max_entry_id_bounds(self.entries@);
        }
        self.current_max_id() + 1
    }

    /// Removes every entry the identifier names: deleting by name removes
    /// every entry carrying that name in one call; deleting by id removes
    /// every entry carrying that id — at most one, while ids are unique.
    pub fn delete_entry(&mut self, identifier: &EntryIdentifier)
        ensures
            final(self).entries@ == remaining_after_delete(old(self).entries@, *identifier),
            forall|j: int|
                0 <= j < final(self).entries@.len() ==> !entry_matches(
                    #[trigger] final(self).entries@[j],
                    *identifier,
                ),
            final(self).address == old(self).address,
            final(self).token == old(self).token,
    {
        let ghost orig = self.entries@;
        let mut i: usize = 0;
        let ghost mut k: int = 0;
        proof {
            assert(remaining_after_delete(orig.subrange(0, 0), *identifier) + orig.subrange(
                0,
                orig.len() as int,
            ) =~= orig);
        }
        while i < self.entries.len()
            invariant
                0 <= i as int <= self.entries@.len(),
                0 <= k <= orig.len(),
                i as int == remaining_after_delete(orig.subrange(0, k), *identifier).len(),
                self.entries@ == remaining_after_delete(orig.subrange(0, k), *identifier)
                    + orig.subrange(k, orig.len() as int),
                self.address == old(self).address,
                self.token == old(self).token,
            decreases orig.len() - k,
        {
            proof {
                assert(self.entries@[i as int] == orig[k]);
                assert(orig.subrange(0, k + 1).drop_last() =~= orig.subrange(0, k));
                assert(orig.subrange(0, k + 1).last() == orig[k]);
            }
            if entry_matches_exec(&self.entries[i], identifier) {
                self.entries.remove(i);
                proof {
                    assert(self.entries@ =~= remaining_after_delete(
                        orig.subrange(0, k + 1),
                        *identifier,
                    ) + orig.subrange(k + 1, orig.len() as int));
                }
            } else {
                proof {
                    assert(self.entries@ =~= remaining_after_delete(
                        orig.subrange(0, k + 1),
                        *identifier,
                    ) + orig.subrange(k + 1, orig.len() as int));
                }
                i = i + 1;
            }
            proof {
                k = k + 1;
            }
        }
        proof {
            assert(orig.subrange(0, k) =~= orig);
            assert(self.entries@ =~= remaining_after_delete(orig, *identifier));
            lemma_remaining_no_match(orig, *identifier);
        }
    }

    /// Replaces every entry whose id equals the given entry's id with a
    /// copy of the given entry; fails, changing nothing, when no entry has
    /// that id.
    pub fn edit_entry(&mut self, entry: &Entry) -> (r: Result<(), StoreError>)
        ensures
            final(self).entries@.len() == old(self).entries@.len(),
            forall|i: int|
                0 <= i < old(self).entries@.len() && old(self).entries@[i].id == entry.id
                    ==> #[trigger] final(self).entries@[i]@ == entry@,
            forall|i: int|
                0 <= i < old(self).entries@.len() && old(self).entries@[i].id != entry.id
                    ==> #[trigger] final(self).entries@[i] == old(self).entries@[i],
            r is Ok <==> exists|i: int|
                0 <= i < old(self).entries@.len() && #[trigger] old(self).entries@[i].id
                    == entry.id,
            final(self).address == old(self).address,
            final(self).token == old(self).token,
    {
        let mut succ = false;
        let mut i: usize = 0;
        while i < self.entries.len()
            invariant
                i <= self.entries@.len(),
                self.entries@.len() == old(self).entries@.len(),
                forall|j: int|
                    0 <= j < i as int && old(self).entries@[j].id == entry.id
                        ==> #[trigger] self.entries@[j]@ == entry@,
                forall|j: int|
                    0 <= j < i as int && old(self).entries@[j].id != entry.id
                        ==> #[trigger] self.entries@[j] == old(self).entries@[j],
                forall|j: int|
                    i as int <= j < self.entries@.len() ==> #[trigger] self.entries@[j] == old(
                        self,
                    ).entries@[j],
                succ <==> exists|j: int|
                    0 <= j < i as int && #[trigger] old(self).entries@[j].id == entry.id,
                self.address == old(self).address,
                self.token == old(self).token,
            decreases self.entries@.len() - i,
        {
            if self.entries[i].id == entry.id {
                self.entries.set(i, entry.clone());
                succ = true;
            }
            i = i + 1;
        }
        if succ {
            Ok(())
        } else {
            Err(StoreError::EntryNotFound)
        }
    }
}

/// Deleting by id removes at most one entry while the store's ids are
/// unique: the surviving list is shorter by at most one.
pub proof fn lemma_delete_by_id_removes_at_most_one(s: Seq<Entry>, id: u32)
    requires
        forall|i: int, j: int| 0 <= i < j < s.len() ==> s[i].id != s[j].id,
    ensures
        s.len() - remaining_after_delete(s, EntryIdentifier::Id(id)).len() <= 1,
    decreases s.len(),
{
    if s.len() > 0 {
        let rest = s.drop_last();
        assert(forall|i: int| 0 <= i < rest.len() ==> rest[i] == #[trigger] s[i]);
        if s.last().id == id {
            assert forall|i: int|
                0 <= i < rest.len() implies !entry_matches(
                #[trigger] rest[i],
                EntryIdentifier::Id(id),
            ) by {
                assert(rest[i].id != s[s.len() - 1].id);
            }
            lemma_delete_keeps_unmatched(rest, EntryIdentifier::Id(id));
        } else {
            lemma_delete_by_id_removes_at_most_one(rest, id);
        }
    }
}

/// A delete whose identifier names nothing in the store leaves the store
/// unchanged.
pub proof fn lemma_delete_keeps_unmatched(s: Seq<Entry>, ident: EntryIdentifier)
    requires
        forall|i: int| 0 <= i < s.len() ==> !entry_matches(#[trigger] s[i], ident),
    ensures
        remaining_after_delete(s, ident) == s,
    decreases s.len(),
{
    if s.len() > 0 {
        let rest = s.drop_last();
        assert(forall|i: int| 0 <= i < rest.len() ==> rest[i] == #[trigger] s[i]);
        lemma_delete_keeps_unmatched(rest, ident);
        assert(remaining_after_delete(s, ident) =~= s);
    }
}

/// The request envelope of the control plane: the caller's token and an
/// optional payload.
#[derive(Debug)]
pub struct ReqCommonData<T> {
    pub token: String,
    pub data: Option<T>,
}

/// The response envelope of the control plane: a status code (200 is
/// success) and a payload the caller renders.
#[derive(Debug, PartialEq)]
pub struct ResCommonData<T> {
    pub code: i32,
    pub data: T,
}

impl<T> ResCommonData<T> {
    pub fn new(code: i32, data: T) -> (r: Self)
        ensures
            r.code == code,
            r.data == data,
    {
        ResCommonData { code, data }
    }
}

impl<T> ReqCommonData<T> {
    /// Whether the request is authorized: its token equals the daemon's
    /// token, by plain string comparison.
    pub fn check_token(&self, token: &str) -> (r: bool)
        ensures
            r == (self.token@ == token@),
    {
        let owned: String = token.to_owned();
        self.token == owned
    }
}

impl Config {
    /// The control-plane decision for an add-entry request. A request
    /// whose token does not match the store's token is rejected with code
    /// 401 and changes nothing. An authorized request whose payload is a
    /// list of exactly one entry appends that entry under the next id and
    /// answers 200 with the entry's name; any other payload is rejected
    /// with code 400, and a store whose ids are exhausted answers 500 —
    /// in every non-200 case the store is untouched. Persisting the new
    /// store before the response is sent is the caller's job.
    pub fn apply_add_request(&mut self, req: &ReqCommonData<Vec<Entry>>) -> (r: ResCommonData<
        String,
    >)
        ensures
            req.token@ != old(self).token@ ==> r.code == 401 && *final(self) == *old(self),
            req.token@ == old(self).token@ ==> match req.data {
                Some(payload) => if payload@.len() == 1 && max_entry_id(old(self).entries@)
                    < u32::MAX {
                    &&& r.code == 200
                    &&& r.data == payload@[0].name
                    &&& final(self).entries@.len() == old(self).entries@.len() + 1
                    &&& final(self).entries@.subrange(0, old(self).entries@.len() as int) == old(
                        self,
                    ).entries@
                    &&& final(self).entries@.last()@ == (EntryV {
                        id: (max_entry_id(old(self).entries@) + 1) as u32,
                        ..payload@[0]@
                    })
                    &&& forall|i: int|
                        0 <= i < old(self).entries@.len() ==> #[trigger] old(
                            self,
                        ).entries@[i].id < final(self).entries@.last().id
                    &&& final(self).address == old(self).address
                    &&& final(self).token == old(self).token
                } else {
                    r.code != 200 && *final(self) == *old(self)
                },
                None => r.code != 200 && *final(self) == *old(self),
            },
    {
        if !req.check_token(self.token.as_str()) {
            return ResCommonData::new(401, "Error: Invalid token".to_owned());
        }
        match &req.data {
            Some(payload) => {
                if payload.len() != 1 {
                    return ResCommonData::new(
                        400,
                        "Error: Expected exactly one entry".to_owned(),
                    );
                }
                let m = self.current_max_id();
                if m == u32::MAX {
                    return ResCommonData::new(500, "Error: Entry ids exhausted".to_owned());
                }
                proof {
                    lemma_max_entry_id_bounds(self.entries@);
                }
                let ent = payload[0].clone();
                let name = ent.name.clone();
                self.add_entry(ent, m + 1);
                proof {
                    assert(self.entries@.subrange(0, old(self).entries@.len() as int) =~= old(
                        self,
                    ).entries@);
                }
                ResCommonData::new(200, name)
            },
            None => ResCommonData::new(400, "Error: Missing entry payload".to_owned()),
        }
    }
}

} // verus!
