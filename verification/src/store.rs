//! The in-memory backend: a keyed collection of relayer records with
//! verified lifecycle operations.

use vstd::prelude::*;

use crate::errors::{is_constraint_violation_for, is_not_found_for, RepositoryError};
use crate::models::{RelayerModelSpec, RelayerNetworkPolicy, RelayerRepoModel, RelayerUpdateRequest};
use crate::pagination::{PaginatedResult, PaginationQuery};

verus! {

broadcast use vstd::seq_lib::group_filter_ensures, vstd::prelude::Seq::lemma_filter_push;

/// The models of the records held in `v`, in order.
pub open spec fn models_of(v: Seq<RelayerRepoModel>) -> Seq<RelayerModelSpec> {
    Seq::new(v.len(), |i: int| v[i]@)
}

/// Holds when no two records in `s` share a key.
pub open spec fn ids_distinct(s: Seq<RelayerModelSpec>) -> bool {
    forall|i: int, j: int| 0 <= i < j < s.len() ==> s[i].id != s[j].id
}

/// Holds when some record in `s` has the key `id`.
pub open spec fn seq_has_id(s: Seq<RelayerModelSpec>, id: Seq<char>) -> bool {
    exists|i: int| 0 <= i < s.len() && s[i].id == id
}

/// The index of the record with key `id`; meaningful when `ids_distinct(s)`
/// holds and some record has that key.
pub open spec fn seq_index_of_id(s: Seq<RelayerModelSpec>, id: Seq<char>) -> int {
    choose|i: int| 0 <= i < s.len() && s[i].id == id
}

/// The record with key `id`; meaningful under the same conditions as
/// `seq_index_of_id`.
pub open spec fn seq_model_of(s: Seq<RelayerModelSpec>, id: Seq<char>) -> RelayerModelSpec {
    s[seq_index_of_id(s, id)]
}

/// When keys are distinct, any index holding `id` is the index `seq_index_of_id`
/// denotes.
pub proof fn lemma_index_of_id_unique(s: Seq<RelayerModelSpec>, id: Seq<char>, i: int)
    requires
        ids_distinct(s),
        0 <= i < s.len(),
        s[i].id == id,
    ensures
        seq_has_id(s, id),
        seq_index_of_id(s, id) == i,
{
    assert(seq_has_id(s, id));
    let c = seq_index_of_id(s, id);
    if c != i {
        if c < i {
            assert(s[c].id != s[i].id);
        } else {
            assert(s[i].id != s[c].id);
        }
    }
}

/// The in-memory repository: a collection of relayer records, at most one
/// per key. Its model is the sequence of record models in storage order.
pub struct InMemoryRelayerRepository {
    entries: Vec<RelayerRepoModel>,
}

impl View for InMemoryRelayerRepository {
    type V = Seq<RelayerModelSpec>;

    closed spec fn view(&self) -> Seq<RelayerModelSpec> {
        models_of(self.entries@)
    }
}

impl InMemoryRelayerRepository {
    /// The store's invariant: at most one record per key.
    pub open spec fn wf(self) -> bool {
        ids_distinct(self@)
    }

    /// Holds when the store has a record with the key `id`.
    pub open spec fn has_id(self, id: Seq<char>) -> bool {
        seq_has_id(self@, id)
    }

    /// Creates an empty store.
    pub fn new() -> (r: Self)
        ensures
            r@ == Seq::<RelayerModelSpec>::empty(),
            r.wf(),
    {
        let r = InMemoryRelayerRepository { entries: Vec::new() };
        proof {
            assert(r@ =~= Seq::<RelayerModelSpec>::empty());
        }
        r
    }

    /// Finds the position of the record with key `id`, if any.
    fn find_index(&self, id: &String) -> (r: Option<usize>)
        requires
            self.wf(),
        ensures
            match r {
                Some(i) => i < self@.len() && self@[i as int].id == id@ && i as int
                    == seq_index_of_id(self@, id@),
                None => !self.has_id(id@),
            },
    {
        let n = self.entries.len();
        let mut i: usize = 0;
        while i < n
            invariant
                n == self@.len(),
                i <= n,
                self.wf(),
                forall|j: int| 0 <= j < i ==> self@[j].id != id@,
            decreases n - i,
        {
            if self.entries[i].id == *id {
                proof {
                    lemma_index_of_id_unique(self@, id@, i as int);
                }
                return Some(i);
            }
            i += 1;
        }
        None
    }

    /// Stores `relayer` under its own key. Fails with `ConstraintViolation`
    /// if the key is already taken; on success the record is appended and a
    /// copy of it is returned.
    pub fn create(&mut self, relayer: RelayerRepoModel) -> (r: Result<
        RelayerRepoModel,
        RepositoryError,
    >)
        requires
            old(self).wf(),
        ensures
            final(self).wf(),
            r is Ok <==> !seq_has_id(old(self)@, relayer@.id),
            r matches Ok(m) ==> m@ == relayer@ && final(self)@ == old(self)@.push(relayer@),
            r matches Err(e) ==> final(self)@ == old(self)@ && is_constraint_violation_for(
                e,
                relayer@.id,
            ),
    {
        match self.find_index(&relayer.id) {
            Some(_) => Err(RepositoryError::ConstraintViolation(relayer.id)),
            None => {
                let ghost s0 = self@;
                let stored = relayer.clone();
                self.entries.push(stored);
                proof {
                    assert(self@ =~= s0.push(relayer@));
                    assert forall|i: int, j: int| 0 <= i < j < self@.len() implies self@[i].id
                        != self@[j].id by {
                        if j == s0.len() {
                            assert(!seq_has_id(s0, relayer@.id));
                            assert(!(0 <= i < s0.len() && s0[i].id == relayer@.id));
                        }
                    }
                }
                Ok(relayer)
            },
        }
    }

    /// Returns a copy of the record with key `id`, or `NotFound`.
    pub fn get_by_id(&self, id: String) -> (r: Result<RelayerRepoModel, RepositoryError>)
        requires
            self.wf(),
        ensures
            r is Ok <==> self.has_id(id@),
            r matches Ok(m) ==> m@ == seq_model_of(self@, id@),
            r matches Err(e) ==> is_not_found_for(e, id@),
    {
        match self.find_index(&id) {
            Some(i) => Ok(self.entries[i].clone()),
            None => Err(RepositoryError::NotFound(id)),
        }
    }

    /// Replaces the record at `id` wholesale with `relayer`, forcing the
    /// incoming record's key to `id`. Fails with `NotFound` if no record has
    /// that key.
    pub fn update(&mut self, id: String, relayer: RelayerRepoModel) -> (r: Result<
        RelayerRepoModel,
        RepositoryError,
    >)
        requires
            old(self).wf(),
        ensures
            final(self).wf(),
            r is Ok <==> seq_has_id(old(self)@, id@),
            r matches Ok(m) ==> m@ == relayer@.with_id(id@) && final(self)@ == old(self)@.update(
                seq_index_of_id(old(self)@, id@),
                relayer@.with_id(id@),
            ),
            r matches Err(e) ==> final(self)@ == old(self)@ && is_not_found_for(e, id@),
    {
        match self.find_index(&id) {
            Some(i) => {
                let mut updated = relayer;
                updated.id = id;
                let stored = updated.clone();
                let ghost s0 = self@;
                self.entries[i] = stored;
                proof {
                    assert(self@ =~= s0.update(i as int, updated@));
                    lemma_update_keeps_ids_distinct(s0, i as int, updated@);
                }
                Ok(updated)
            },
            None => Err(RepositoryError::NotFound(id)),
        }
    }

    /// Removes the record with key `id`. Fails with `NotFound` if no record
    /// has that key.
    pub fn delete_by_id(&mut self, id: String) -> (r: Result<(), RepositoryError>)
        requires
            old(self).wf(),
        ensures
            final(self).wf(),
            r is Ok <==> seq_has_id(old(self)@, id@),
            r is Ok ==> final(self)@ == old(self)@.remove(seq_index_of_id(old(self)@, id@)),
            r matches Err(e) ==> final(self)@ == old(self)@ && is_not_found_for(e, id@),
    {
        match self.find_index(&id) {
            Some(i) => {
                let ghost s0 = self@;
                self.entries.remove(i);
                proof {
                    assert(self@ =~= s0.remove(i as int));
                    lemma_remove_keeps_ids_distinct(s0, i as int);
                }
                Ok(())
            },
            None => Err(RepositoryError::NotFound(id)),
        }
    }

    /// Returns a copy of every stored record, in storage order.
    pub fn list_all(&self) -> (r: Result<Vec<RelayerRepoModel>, RepositoryError>)
        ensures
            r is Ok,
            r matches Ok(v) ==> models_of(v@) == self@,
    {
        let n = self.entries.len();
        let mut out: Vec<RelayerRepoModel> = Vec::new();
        let mut i: usize = 0;
        while i < n
            invariant
                n == self@.len(),
                i <= n,
                out@.len() == i,
                forall|j: int| 0 <= j < i ==> out@[j]@ == self@[j],
            decreases n - i,
        {
            out.push(self.entries[i].clone());
            i += 1;
        }
        proof {
            assert(models_of(out@) =~= self@);
        }
        Ok(out)
    }

    /// Returns a copy of every record whose `paused` flag is false, in
    /// storage order. A record disabled by the system but not paused is
    /// still listed.
    pub fn list_active(&self) -> (r: Result<Vec<RelayerRepoModel>, RepositoryError>)
        ensures
            r is Ok,
            r matches Ok(v) ==> models_of(v@) == active_models(self@),
    {
        let n = self.entries.len();
        let mut out: Vec<RelayerRepoModel> = Vec::new();
        let mut i: usize = 0;
        proof {
            assert(self@.take(0) =~= Seq::<RelayerModelSpec>::empty());
            assert(models_of(out@) =~= active_models(self@.take(0)));
        }
        while i < n
            invariant
                n == self@.len(),
                i <= n,
                models_of(out@) == active_models(self@.take(i as int)),
            decreases n - i,
        {
            let ghost prefix = self@.take(i as int);
            let ghost out0 = out@;
            if !self.entries[i].paused {
                out.push(self.entries[i].clone());
                proof {
                    assert(models_of(out@) =~= models_of(out0).push(self@[i as int]));
                }
            }
            i += 1;
            proof {
                let elem = self@[i - 1];
                assert(self@.take(i as int) =~= prefix.push(elem));
                assert(active_models(prefix.push(elem)) == if !elem.paused {
                    active_models(prefix).push(elem)
                } else {
                    active_models(prefix)
                });
                assert(models_of(out@) == active_models(self@.take(i as int)));
            }
        }
        proof {
            assert(self@.take(n as int) =~= self@);
        }
        Ok(out)
    }

    /// Returns the page of records at offset `(page - 1) * per_page`, of
    /// length `per_page` (fewer if exhausted), with the total count and the
    /// echoed query. A page past the end yields an empty page, not an error.
    pub fn list_paginated(&self, query: PaginationQuery) -> (r: Result<
        PaginatedResult<RelayerRepoModel>,
        RepositoryError,
    >)
        requires
            query.page >= 1,
        ensures
            r is Ok,
            r matches Ok(p) ==> models_of(p.items@) == page_models(self@, query.page, query.per_page)
                && p.total == self@.len() && p.page == query.page && p.per_page == query.per_page,
    {
        let n = self.entries.len();
        proof {
            let a = (query.page - 1) as u64;
            let b = query.per_page as u64;
            assert(a * b <= 0xffff_ffffu64 * 0xffff_ffffu64) by (nonlinear_arith)
                requires
                    a <= 0xffff_ffffu64,
                    b <= 0xffff_ffffu64,
            ;
        }
        let start: u64 = ((query.page - 1) as u64) * (query.per_page as u64);
        let mut out: Vec<RelayerRepoModel> = Vec::new();
        if start < n as u64 {
            let start_us: usize = start as usize;
            let end: usize = if (n as u64) - start < query.per_page as u64 {
                n
            } else {
                start_us + query.per_page as usize
            };
            let mut i: usize = start_us;
            while i < end
                invariant
                    start_us <= i <= end <= n,
                    n == self@.len(),
                    out@.len() == i - start_us,
                    forall|j: int| 0 <= j < out@.len() ==> out@[j]@ == self@[start_us + j],
                decreases end - i,
            {
                out.push(self.entries[i].clone());
                i += 1;
            }
            proof {
                assert(models_of(out@) =~= page_models(self@, query.page, query.per_page));
            }
        } else {
            proof {
                assert(models_of(out@) =~= page_models(self@, query.page, query.per_page));
            }
        }
        Ok(
            PaginatedResult {
                items: out,
                total: n as u64,
                page: query.page,
                per_page: query.per_page,
            },
        )
    }

    /// Returns the number of stored records.
    pub fn count(&self) -> (r: Result<usize, RepositoryError>)
        ensures
            r matches Ok(n) && n == self@.len(),
    {
        Ok(self.entries.len())
    }

    /// Returns whether the store holds any record.
    pub fn has_entries(&self) -> (r: Result<bool, RepositoryError>)
        ensures
            r matches Ok(b) && b == (self@.len() > 0),
    {
        Ok(self.entries.len() > 0)
    }

    /// Removes every record; idempotent.
    pub fn drop_all_entries(&mut self) -> (r: Result<(), RepositoryError>)
        ensures
            final(self).wf(),
            final(self)@ == Seq::<RelayerModelSpec>::empty(),
            r is Ok,
    {
        self.entries.clear();
        proof {
            assert(self@ =~= Seq::<RelayerModelSpec>::empty());
        }
        Ok(())
    }

    /// Applies the fields present in `update` to the record with key `id`,
    /// leaving absent fields untouched, and returns the updated copy. Fails
    /// with `NotFound` if no record has that key.
    pub fn partial_update(&mut self, id: String, update: RelayerUpdateRequest) -> (r: Result<
        RelayerRepoModel,
        RepositoryError,
    >)
        requires
            old(self).wf(),
        ensures
            final(self).wf(),
            r is Ok <==> seq_has_id(old(self)@, id@),
            r matches Ok(m) ==> ({
                let idx = seq_index_of_id(old(self)@, id@);
                let updated = old(self)@[idx].apply_update(update);
                m@ == updated && final(self)@ == old(self)@.update(idx, updated)
            }),
            r matches Err(e) ==> final(self)@ == old(self)@ && is_not_found_for(e, id@),
    {
        match self.find_index(&id) {
            Some(i) => {
                let mut updated = self.entries[i].clone();
                if let Some(paused) = update.paused {
                    updated.paused = paused;
                }
                let stored = updated.clone();
                let ghost s0 = self@;
                self.entries[i] = stored;
                proof {
                    assert(self@ =~= s0.update(i as int, updated@));
                    lemma_update_keeps_ids_distinct(s0, i as int, updated@);
                }
                Ok(updated)
            },
            None => Err(RepositoryError::NotFound(id)),
        }
    }

    /// Replaces the policy of the record with key `id` wholesale, and
    /// returns the updated copy. Fails with `NotFound` if no record has that
    /// key.
    pub fn update_policy(&mut self, id: String, policy: RelayerNetworkPolicy) -> (r: Result<
        RelayerRepoModel,
        RepositoryError,
    >)
        requires
            old(self).wf(),
        ensures
            final(self).wf(),
            r is Ok <==> seq_has_id(old(self)@, id@),
            r matches Ok(m) ==> ({
                let idx = seq_index_of_id(old(self)@, id@);
                let updated = old(self)@[idx].with_policies(policy@);
                m@ == updated && final(self)@ == old(self)@.update(idx, updated)
            }),
            r matches Err(e) ==> final(self)@ == old(self)@ && is_not_found_for(e, id@),
    {
        match self.find_index(&id) {
            Some(i) => {
                let mut updated = self.entries[i].clone();
                updated.policies = policy;
                let stored = updated.clone();
                let ghost s0 = self@;
                self.entries[i] = stored;
                proof {
                    assert(self@ =~= s0.update(i as int, updated@));
                    lemma_update_keeps_ids_distinct(s0, i as int, updated@);
                }
                Ok(updated)
            },
            None => Err(RepositoryError::NotFound(id)),
        }
    }

    /// Sets the system-disabled flag of the record with key `id`, and
    /// returns the updated copy. Fails with `NotFound` if no record has that
    /// key. Idempotent: disabling an already-disabled record succeeds and
    /// leaves it disabled.
    pub fn disable_relayer(&mut self, relayer_id: String) -> (r: Result<
        RelayerRepoModel,
        RepositoryError,
    >)
        requires
            old(self).wf(),
        ensures
            final(self).wf(),
            r is Ok <==> seq_has_id(old(self)@, relayer_id@),
            r matches Ok(m) ==> ({
                let idx = seq_index_of_id(old(self)@, relayer_id@);
                let updated = old(self)@[idx].with_system_disabled(true);
                m@ == updated && final(self)@ == old(self)@.update(idx, updated)
            }),
            r matches Err(e) ==> final(self)@ == old(self)@ && is_not_found_for(e, relayer_id@),
    {
        self.set_system_disabled(relayer_id, true)
    }

    /// Clears the system-disabled flag of the record with key `id`, and
    /// returns the updated copy. Fails with `NotFound` if no record has that
    /// key. Idempotent, as `disable_relayer` is.
    pub fn enable_relayer(&mut self, relayer_id: String) -> (r: Result<
        RelayerRepoModel,
        RepositoryError,
    >)
        requires
            old(self).wf(),
        ensures
            final(self).wf(),
            r is Ok <==> seq_has_id(old(self)@, relayer_id@),
            r matches Ok(m) ==> ({
                let idx = seq_index_of_id(old(self)@, relayer_id@);
                let updated = old(self)@[idx].with_system_disabled(false);
                m@ == updated && final(self)@ == old(self)@.update(idx, updated)
            }),
            r matches Err(e) ==> final(self)@ == old(self)@ && is_not_found_for(e, relayer_id@),
    {
        self.set_system_disabled(relayer_id, false)
    }

    /// Writes the system-disabled flag of the record with key `id`.
    fn set_system_disabled(&mut self, id: String, disabled: bool) -> (r: Result<
        RelayerRepoModel,
        RepositoryError,
    >)
        requires
            old(self).wf(),
        ensures
            final(self).wf(),
            r is Ok <==> seq_has_id(old(self)@, id@),
            r matches Ok(m) ==> ({
                let idx = seq_index_of_id(old(self)@, id@);
                let updated = old(self)@[idx].with_system_disabled(disabled);
                m@ == updated && final(self)@ == old(self)@.update(idx, updated)
            }),
            r matches Err(e) ==> final(self)@ == old(self)@ && is_not_found_for(e, id@),
    {
        match self.find_index(&id) {
            Some(i) => {
                let mut updated = self.entries[i].clone();
                updated.system_disabled = disabled;
                let stored = updated.clone();
                let ghost s0 = self@;
                self.entries[i] = stored;
                proof {
                    assert(self@ =~= s0.update(i as int, updated@));
                    lemma_update_keeps_ids_distinct(s0, i as int, updated@);
                }
                Ok(updated)
            },
            None => Err(RepositoryError::NotFound(id)),
        }
    }
}

impl Clone for InMemoryRelayerRepository {
    /// An independent copy of the store with the same contents.
    fn clone(&self) -> (r: Self)
        ensures
            r@ == self@,
            self.wf() ==> r.wf(),
    {
        let entries = self.entries.clone();
        proof {
            assert forall|i: int| 0 <= i < entries@.len() implies entries@[i]@ == self.entries@[i]@
                by {
                assert(cloned::<RelayerRepoModel>(self.entries@[i], entries@[i]));
            }
            assert(models_of(entries@) =~= models_of(self.entries@));
        }
        InMemoryRelayerRepository { entries }
    }
}

impl Default for InMemoryRelayerRepository {
    /// An empty store.
    fn default() -> (r: Self)
        ensures
            r@ == Seq::<RelayerModelSpec>::empty(),
            r.wf(),
    {
        InMemoryRelayerRepository::new()
    }
}

/// The records of `s` whose `paused` flag is false, in order.
pub open spec fn active_models(s: Seq<RelayerModelSpec>) -> Seq<RelayerModelSpec> {
    s.filter(|m: RelayerModelSpec| !m.paused)
}

/// The page of `s` a pagination query selects: the records at offset
/// `(page - 1) * per_page`, at most `per_page` of them.
pub open spec fn page_models(s: Seq<RelayerModelSpec>, page: u32, per_page: u32) -> Seq<
    RelayerModelSpec,
> {
    let start = (page - 1) * per_page;
    if start >= s.len() {
        Seq::empty()
    } else if start + per_page >= s.len() {
        s.subrange(start, s.len() as int)
    } else {
        s.subrange(start, start + per_page)
    }
}

/// Replacing a record by one with the same key keeps keys distinct.
pub proof fn lemma_update_keeps_ids_distinct(
    s: Seq<RelayerModelSpec>,
    i: int,
    m: RelayerModelSpec,
)
    requires
        ids_distinct(s),
        0 <= i < s.len(),
        m.id == s[i].id,
    ensures
        ids_distinct(s.update(i, m)),
{
}

/// Removing a record keeps keys distinct.
pub proof fn lemma_remove_keeps_ids_distinct(s: Seq<RelayerModelSpec>, i: int)
    requires
        ids_distinct(s),
        0 <= i < s.len(),
    ensures
        ids_distinct(s.remove(i)),
{
    let s2 = s.remove(i);
    assert forall|a: int, b: int| 0 <= a < b < s2.len() implies s2[a].id != s2[b].id by {
        let a0 = if a < i {
            a
        } else {
            a + 1
        };
        let b0 = if b < i {
            b
        } else {
            b + 1
        };
        assert(s2[a] == s[a0]);
        assert(s2[b] == s[b0]);
        assert(s[a0].id != s[b0].id);
    }
}

} // verus!
