//! Laws of the repository, stated over the store's model and proved once
//! and for all. Each law is phrased over the same spec functions the
//! operations' contracts use, so together with those contracts it describes
//! what a caller observes across sequences of calls.

use vstd::prelude::*;

use crate::models::{RelayerModelSpec, RelayerUpdateRequest};
use crate::store::{
    active_models, ids_distinct, lemma_index_of_id_unique, page_models, seq_has_id,
    seq_index_of_id, seq_model_of,
};

verus! {

broadcast use vstd::seq_lib::group_filter_ensures;

/// Uniqueness: a create of a fresh key grows the store by exactly one
/// record, and afterwards the key is taken, so a second create with the same
/// key is refused with a constraint violation by `create`'s contract.
pub proof fn lemma_create_uniqueness(
    s: Seq<RelayerModelSpec>,
    e: RelayerModelSpec,
    k: Seq<char>,
)
    requires
        !seq_has_id(s, e.id),
        k == e.id,
    ensures
        s.push(e).len() == s.len() + 1,
        seq_has_id(s.push(e), k),
{
    assert(s.push(e)[s.len() as int].id == k);
}

/// Round-trip: after a create of a fresh key, a lookup of that key finds
/// exactly the record that was stored, equal in every attribute.
pub proof fn lemma_create_round_trip(s: Seq<RelayerModelSpec>, e: RelayerModelSpec)
    requires
        ids_distinct(s),
        !seq_has_id(s, e.id),
    ensures
        ids_distinct(s.push(e)),
        seq_has_id(s.push(e), e.id),
        seq_model_of(s.push(e), e.id) == e,
{
    let s2 = s.push(e);
    assert forall|i: int, j: int| 0 <= i < j < s2.len() implies s2[i].id != s2[j].id by {
        if j == s.len() {
            assert(!(0 <= i < s.len() && s[i].id == e.id));
        }
    }
    lemma_index_of_id_unique(s2, e.id, s.len() as int);
}

/// Update preserves identity: replacing the record at key `k` stores the
/// incoming record with its key forced to `k`, so a lookup of `k` still
/// finds a record whose key is `k`, whatever key the incoming record
/// carried.
pub proof fn lemma_update_preserves_identity(
    s: Seq<RelayerModelSpec>,
    k: Seq<char>,
    e: RelayerModelSpec,
)
    requires
        ids_distinct(s),
        seq_has_id(s, k),
    ensures
        ({
            let s2 = s.update(seq_index_of_id(s, k), e.with_id(k));
            &&& ids_distinct(s2)
            &&& seq_has_id(s2, k)
            &&& seq_model_of(s2, k) == e.with_id(k)
            &&& seq_model_of(s2, k).id == k
        }),
{
    let i = seq_index_of_id(s, k);
    assert(0 <= i < s.len() && s[i].id == k);
    let s2 = s.update(i, e.with_id(k));
    assert(ids_distinct(s2));
    lemma_index_of_id_unique(s2, k, i);
}

/// Partial update is sparse: a patch without a value leaves the record
/// unchanged; a patch with a paused value replaces exactly the paused flag
/// and leaves every other attribute untouched.
pub proof fn lemma_partial_update_sparse(m: RelayerModelSpec, p: bool)
    ensures
        m.apply_update(RelayerUpdateRequest { paused: None }) == m,
        m.apply_update(RelayerUpdateRequest { paused: Some(p) }) == m.with_paused(p),
        m.with_paused(p).paused == p,
        m.with_paused(p).id == m.id,
{
}

/// The active filter excludes exactly the paused records: a record appears
/// in the active listing if and only if its paused flag is false, whatever
/// its system-disabled flag holds.
pub proof fn lemma_active_filter(s: Seq<RelayerModelSpec>)
    ensures
        forall|i: int|
            0 <= i < active_models(s).len() ==> !(#[trigger] active_models(s)[i]).paused,
        forall|i: int|
            0 <= i < s.len() && !s[i].paused ==> active_models(s).contains(#[trigger] s[i]),
        forall|m: RelayerModelSpec| active_models(s).contains(m) ==> !m.paused,
{
    assert forall|m: RelayerModelSpec| active_models(s).contains(m) implies !m.paused by {
        let i = choose|i: int| 0 <= i < active_models(s).len() && active_models(s)[i] == m;
        assert(!active_models(s)[i].paused);
    }
}

/// Idempotent disable: setting the system-disabled flag of the record at
/// key `k` succeeds, leaves the flag set, and doing it a second time
/// changes nothing. The same argument applies to `enable_relayer` with the
/// flag cleared.
pub proof fn lemma_disable_idempotent(s: Seq<RelayerModelSpec>, k: Seq<char>, d: bool)
    requires
        ids_distinct(s),
        seq_has_id(s, k),
    ensures
        ({
            let i = seq_index_of_id(s, k);
            let s1 = s.update(i, s[i].with_system_disabled(d));
            &&& ids_distinct(s1)
            &&& seq_has_id(s1, k)
            &&& seq_index_of_id(s1, k) == i
            &&& seq_model_of(s1, k).system_disabled == d
            &&& s1.update(i, s1[i].with_system_disabled(d)) == s1
        }),
{
    let i = seq_index_of_id(s, k);
    assert(0 <= i < s.len() && s[i].id == k);
    let s1 = s.update(i, s[i].with_system_disabled(d));
    assert(ids_distinct(s1));
    lemma_index_of_id_unique(s1, k, i);
    assert(s1[i].with_system_disabled(d) == s1[i]);
    assert(s1.update(i, s1[i]) =~= s1);
}

/// Deletion: removing the record at an existing key shrinks the store by
/// one and leaves no record with that key, so a subsequent lookup of the
/// key is refused with not-found by `get_by_id`'s contract. (On a missing
/// key, `delete_by_id`'s own contract already states that the store is
/// unchanged.)
pub proof fn lemma_delete_removes(s: Seq<RelayerModelSpec>, k: Seq<char>)
    requires
        ids_distinct(s),
        seq_has_id(s, k),
    ensures
        ({
            let s2 = s.remove(seq_index_of_id(s, k));
            &&& ids_distinct(s2)
            &&& !seq_has_id(s2, k)
            &&& s2.len() == s.len() - 1
        }),
{
    let i = seq_index_of_id(s, k);
    assert(0 <= i < s.len() && s[i].id == k);
    let s2 = s.remove(i);
    assert forall|a: int, b: int| 0 <= a < b < s2.len() implies s2[a].id != s2[b].id by {
        let a0 = if a < i {
            a
        } else {
            a + 1
        };
        let b0 = if b < i {
            b
        } else {
            b + 1
        };
        assert(s2[a] == s[a0]);
        assert(s2[b] == s[b0]);
    }
    assert forall|j: int| 0 <= j < s2.len() implies s2[j].id != k by {
        let j0 = if j < i {
            j
        } else {
            j + 1
        };
        assert(s2[j] == s[j0]);
        if j0 < i {
            assert(s[j0].id != s[i].id);
        } else {
            assert(s[i].id != s[j0].id);
        }
    }
}

/// Pagination boundaries: a page that starts past the end is empty; any
/// other page holds exactly `per_page` records, or all that remain past its
/// offset when the store is exhausted first. The echoed total is the
/// store's full length by `list_paginated`'s contract.
pub proof fn lemma_pagination_boundaries(s: Seq<RelayerModelSpec>, page: u32, per_page: u32)
    requires
        page >= 1,
    ensures
        ({
            let start = (page - 1) * per_page;
            let pg = page_models(s, page, per_page);
            &&& start >= s.len() ==> pg.len() == 0
            &&& start < s.len() && start + per_page <= s.len() ==> pg.len() == per_page
            &&& start < s.len() && start + per_page > s.len() ==> pg.len() == s.len() - start
        }),
{
}

/// Bulk clear: the empty store holds no record at all, so after
/// `drop_all_entries` the count is zero, `has_entries` is false, and every
/// lookup is refused, whatever the store held before.
pub proof fn lemma_drop_all_clears(k: Seq<char>)
    ensures
        Seq::<RelayerModelSpec>::empty().len() == 0,
        !seq_has_id(Seq::<RelayerModelSpec>::empty(), k),
        active_models(Seq::<RelayerModelSpec>::empty()).len() == 0,
{
}

} // verus!
