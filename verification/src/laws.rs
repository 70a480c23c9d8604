//! The store's laws, proved over its mathematical model: what a listing
//! shows after a create, a refused duplicate, a full replace, repeated
//! deletes, and a batch of serialized inserts.

use vstd::prelude::*;

use crate::model::{lists_table, ServiceView, TableView};

verus! {

/// After storing a record under an id the table did not hold, any listing
/// of the table shows that record exactly once, every field as given.
pub proof fn lemma_create_then_list_round_trip(
    m: TableView,
    s: ServiceView,
    l: Seq<ServiceView>,
)
    requires
        !m.contains_key(s.id),
        lists_table(l, m.insert(s.id, s)),
    ensures
        exists|i: int| 0 <= i < l.len() && #[trigger] l[i] == s,
        forall|i: int| 0 <= i < l.len() && (#[trigger] l[i]).id == s.id ==> l[i] == s,
{
    let m2 = m.insert(s.id, s);
    assert(m2.contains_key(s.id));
    let i = choose|i: int| 0 <= i < l.len() && l[i].id == s.id;
    assert(l[i] == m2[s.id]);
    assert(l[i] == s);
}

/// An id the table holds can never be taken by a second record: the key is
/// present, and a listing still shows the first record's fields under it.
pub proof fn lemma_duplicate_insert_refused(
    m: TableView,
    s1: ServiceView,
    s2: ServiceView,
    l: Seq<ServiceView>,
)
    requires
        s1.id == s2.id,
        !m.contains_key(s1.id),
        lists_table(l, m.insert(s1.id, s1)),
    ensures
        m.insert(s1.id, s1).contains_key(s2.id),
        exists|i: int| 0 <= i < l.len() && #[trigger] l[i] == s1,
        forall|i: int| 0 <= i < l.len() && (#[trigger] l[i]).id == s2.id ==> l[i] == s1,
{
    lemma_create_then_list_round_trip(m, s1, l);
}

/// Replacing the record under an id replaces it fully: the table afterwards
/// is the same as if the new record had been stored directly, nothing of
/// the first record retained.
pub proof fn lemma_update_replaces_fully(m: TableView, s: ServiceView, s2: ServiceView)
    requires
        s2.id == s.id,
    ensures
        m.insert(s.id, s).insert(s2.id, s2) == m.insert(s2.id, s2),
{
    assert(m.insert(s.id, s).insert(s2.id, s2) =~= m.insert(s2.id, s2));
}

/// Removing an absent id leaves the table as it was, and removing the same
/// id twice in a row is the same as removing it once.
pub proof fn lemma_delete_idempotent(m: TableView, id: Seq<char>)
    ensures
        !m.contains_key(id) ==> m.remove(id) == m,
        m.remove(id).remove(id) == m.remove(id),
{
    if !m.contains_key(id) {
        assert(m.remove(id) =~= m);
    }
    assert(m.remove(id).remove(id) =~= m.remove(id));
}

/// A listing of a finite table holds exactly as many records as the table.
pub proof fn lemma_listing_length(l: Seq<ServiceView>, m: TableView)
    requires
        m.dom().finite(),
        lists_table(l, m),
    ensures
        l.len() == m.len(),
{
    let ids = l.map_values(|x: ServiceView| x.id);
    assert forall|i: int, j: int| 0 <= i < ids.len() && 0 <= j < ids.len() && i != j implies ids[i]
        != ids[j] by {
        assert(ids[i] == l[i].id && ids[j] == l[j].id);
    }
    assert(ids.to_set() =~= m.dom()) by {
        assert forall|k: Seq<char>| #[trigger] ids.to_set().contains(k) implies m.dom().contains(
            k,
        ) by {
            let i = choose|i: int| 0 <= i < ids.len() && ids[i] == k;
            assert(l[i].id == k);
        }
        assert forall|k: Seq<char>| #[trigger] m.dom().contains(k) implies ids.to_set().contains(
            k,
        ) by {
            assert(m.contains_key(k));
            let i = choose|i: int| 0 <= i < l.len() && l[i].id == k;
            assert(ids[i] == k);
        }
    }
    ids.unique_seq_to_set();
}

/// The table after the records of `batch` are stored one by one, first
/// record first.
pub open spec fn insert_all(m: TableView, batch: Seq<ServiceView>) -> TableView
    decreases batch.len(),
{
    if batch.len() == 0 {
        m
    } else {
        insert_all(m.insert(batch[0].id, batch[0]), batch.drop_first())
    }
}

/// Inserts serialized one after another all take effect when their ids are
/// distinct and fresh: afterwards the table has grown by exactly the
/// batch's length, holds each batch record under its id with its own
/// fields, and holds every earlier record untouched.
pub proof fn lemma_distinct_inserts_all_land(m: TableView, batch: Seq<ServiceView>)
    requires
        m.dom().finite(),
        forall|i: int, j: int|
            0 <= i < batch.len() && 0 <= j < batch.len() && i != j ==> (#[trigger] batch[i]).id
                != (#[trigger] batch[j]).id,
        forall|i: int| 0 <= i < batch.len() ==> !m.contains_key((#[trigger] batch[i]).id),
    ensures
        insert_all(m, batch).dom().finite(),
        insert_all(m, batch).len() == m.len() + batch.len(),
        forall|i: int|
            0 <= i < batch.len() ==> insert_all(m, batch).contains_key((#[trigger] batch[i]).id)
                && insert_all(m, batch)[batch[i].id] == batch[i],
        forall|k: Seq<char>|
            #[trigger] m.contains_key(k) ==> insert_all(m, batch).contains_key(k) && insert_all(
                m,
                batch,
            )[k] == m[k],
    decreases batch.len(),
{
    broadcast use vstd::set::axiom_set_insert_len;

    if batch.len() > 0 {
        let m2 = m.insert(batch[0].id, batch[0]);
        let rest = batch.drop_first();
        assert(m2.dom() =~= m.dom().insert(batch[0].id));
        assert(m2.len() == m.len() + 1);
        assert(forall|i: int| 0 <= i < rest.len() ==> rest[i] == batch[i + 1]);
        lemma_distinct_inserts_all_land(m2, rest);
        assert forall|i: int| 0 <= i < batch.len() implies insert_all(m, batch).contains_key(
            (#[trigger] batch[i]).id,
        ) && insert_all(m, batch)[batch[i].id] == batch[i] by {
            if i == 0 {
                assert(m2.contains_key(batch[0].id));
                assert(forall|j: int| 0 <= j < rest.len() ==> rest[j].id != batch[0].id);
            } else {
                assert(rest[i - 1] == batch[i]);
            }
        }
        assert forall|k: Seq<char>| #[trigger] m.contains_key(k) implies insert_all(
            m,
            batch,
        ).contains_key(k) && insert_all(m, batch)[k] == m[k] by {
            assert(k != batch[0].id);
            assert(m2.contains_key(k) && m2[k] == m[k]);
        }
    }
}

/// Starting from an empty table, inserts serialized one after another with
/// distinct ids leave a store whose every listing shows exactly the batch:
/// as many records as were stored, and for each stored record one listed
/// entry equal to it in every field.
pub proof fn lemma_batch_insert_then_list(batch: Seq<ServiceView>, l: Seq<ServiceView>)
    requires
        forall|i: int, j: int|
            0 <= i < batch.len() && 0 <= j < batch.len() && i != j ==> (#[trigger] batch[i]).id
                != (#[trigger] batch[j]).id,
        lists_table(l, insert_all(TableView::empty(), batch)),
    ensures
        l.len() == batch.len(),
        forall|i: int|
            0 <= i < batch.len() ==> exists|j: int| 0 <= j < l.len() && l[j] == #[trigger] batch[i],
{
    let m = insert_all(TableView::empty(), batch);
    lemma_distinct_inserts_all_land(TableView::empty(), batch);
    lemma_listing_length(l, m);
    assert forall|i: int| 0 <= i < batch.len() implies exists|j: int|
        0 <= j < l.len() && l[j] == #[trigger] batch[i] by {
        assert(m.contains_key(batch[i].id) && m[batch[i].id] == batch[i]);
        let j = choose|j: int| 0 <= j < l.len() && l[j].id == batch[i].id;
        assert(l[j] == batch[i]);
    }
}

} // verus!
