//! The mathematical model of the cluster store.
//!
//! A store state is a map from fingerprint to cluster (representative
//! identifier and size), the fingerprints in first-seen order, and the total
//! number of insertions. `insert_model` is the one transition; every
//! executable insertion is proved to realize it exactly, so the laws about
//! runs of insertions are laws about folds of this function.

use vstd::prelude::*;

verus! {

/// One cluster: the identifier of its first-seen member, and how many
/// records (that member included) have been assigned to it.
#[verifier::ext_equal]
pub ghost struct ClusterModel {
    pub rep: Seq<char>,
    pub size: nat,
}

/// The aggregate state of the cluster store.
#[verifier::ext_equal]
pub ghost struct StoreModel {
    /// The clusters observed so far, keyed by fingerprint.
    pub clusters: Map<u64, ClusterModel>,
    /// The distinct fingerprints in the order they were first seen.
    pub order: Seq<u64>,
    /// The number of insertions so far.
    pub total: nat,
}

/// The state of a store into which nothing has been inserted.
pub open spec fn empty_model() -> StoreModel {
    StoreModel { clusters: Map::empty(), order: Seq::empty(), total: 0 }
}

/// Whether inserting fingerprint `h` opens a new cluster.
pub open spec fn insert_is_new(m: StoreModel, h: u64) -> bool {
    !m.clusters.contains_key(h)
}

/// The `(representative, member)` row an insertion emits: the cluster's
/// first-seen identifier paired with the inserted record's identifier (the
/// record is its own representative when it opens the cluster).
pub open spec fn insert_row(m: StoreModel, h: u64, id: Seq<char>) -> (Seq<char>, Seq<char>) {
    if m.clusters.contains_key(h) {
        (m.clusters[h].rep, id)
    } else {
        (id, id)
    }
}

/// One insertion: the total always grows by one; a known fingerprint grows
/// its cluster by one member, a fresh fingerprint opens a cluster of size
/// one represented by the inserted record.
pub open spec fn insert_model(m: StoreModel, h: u64, id: Seq<char>) -> StoreModel {
    if m.clusters.contains_key(h) {
        StoreModel {
            clusters: m.clusters.insert(
                h,
                ClusterModel { rep: m.clusters[h].rep, size: m.clusters[h].size + 1 },
            ),
            order: m.order,
            total: m.total + 1,
        }
    } else {
        StoreModel {
            clusters: m.clusters.insert(h, ClusterModel { rep: id, size: 1 }),
            order: m.order.push(h),
            total: m.total + 1,
        }
    }
}

/// The combined size of the clusters listed in `order`.
pub open spec fn sum_sizes(order: Seq<u64>, clusters: Map<u64, ClusterModel>) -> nat
    decreases order.len(),
{
    if order.len() == 0 {
        0
    } else {
        sum_sizes(order.drop_last(), clusters) + if clusters.contains_key(order.last()) {
            clusters[order.last()].size
        } else {
            0
        }
    }
}

/// Well-formedness of a store state: the order lists each observed
/// fingerprint exactly once, every cluster holds at least its representative,
/// and the total is exactly the combined cluster size.
pub open spec fn model_wf(m: StoreModel) -> bool {
    &&& m.order.no_duplicates()
    &&& (forall|k: u64| #[trigger] m.clusters.contains_key(k) ==> m.order.contains(k))
    &&& (forall|k: u64| #[trigger] m.order.contains(k) ==> m.clusters.contains_key(k))
    &&& m.total == sum_sizes(m.order, m.clusters)
    &&& (forall|i: int|
        0 <= i < m.order.len() ==> #[trigger] m.clusters[m.order[i]].size >= 1)
}

/// Two maps that agree on every listed fingerprint give the same combined
/// size.
proof fn lemma_sum_congruent(
    order: Seq<u64>,
    m1: Map<u64, ClusterModel>,
    m2: Map<u64, ClusterModel>,
)
    requires
        forall|i: int|
            0 <= i < order.len() ==> ((m1.contains_key(#[trigger] order[i]) <==> m2.contains_key(
                order[i],
            )) && (m1.contains_key(order[i]) ==> m1[order[i]] == m2[order[i]])),
    ensures
        sum_sizes(order, m1) == sum_sizes(order, m2),
    decreases order.len(),
{
    if order.len() > 0 {
        assert(order.last() == order[order.len() - 1]);
        lemma_sum_congruent(order.drop_last(), m1, m2);
    }
}

/// Appending a fresh fingerprint adds exactly its cluster's size.
proof fn lemma_sum_push(order: Seq<u64>, m: Map<u64, ClusterModel>, k: u64, c: ClusterModel)
    requires
        !order.contains(k),
    ensures
        sum_sizes(order.push(k), m.insert(k, c)) == sum_sizes(order, m) + c.size,
{
    assert(order.push(k).drop_last() =~= order);
    assert(order.push(k).last() == k);
    assert forall|i: int| 0 <= i < order.len() implies order[i] != k by {
        if order[i] == k {
            assert(order.contains(k));
        }
    }
    lemma_sum_congruent(order, m, m.insert(k, c));
}

/// Growing one listed cluster by one grows the combined size by one.
proof fn lemma_sum_increment(order: Seq<u64>, m: Map<u64, ClusterModel>, k: u64, c: ClusterModel)
    requires
        order.no_duplicates(),
        order.contains(k),
        m.contains_key(k),
        c.size == m[k].size + 1,
    ensures
        sum_sizes(order, m.insert(k, c)) == sum_sizes(order, m) + 1,
    decreases order.len(),
{
    assert(order.len() > 0);
    assert(order.last() == order[order.len() - 1]);
    if order.last() == k {
        assert(!order.drop_last().contains(k)) by {
            if order.drop_last().contains(k) {
                let j = choose|j: int|
                    0 <= j < order.drop_last().len() && order.drop_last()[j] == k;
                assert(order[j] == order[order.len() - 1]);
            }
        }
        assert forall|i: int| 0 <= i < order.drop_last().len() implies order.drop_last()[i]
            != k by {
            if order.drop_last()[i] == k {
                assert(order.drop_last().contains(k));
            }
        }
        lemma_sum_congruent(order.drop_last(), m, m.insert(k, c));
    } else {
        assert(order.drop_last().contains(k)) by {
            let j = choose|j: int| 0 <= j < order.len() && order[j] == k;
            assert(j != order.len() - 1);
            assert(order.drop_last()[j] == k);
        }
        lemma_sum_increment(order.drop_last(), m, k, c);
    }
}

/// A listed cluster's size never exceeds the combined size.
proof fn lemma_sum_member_bound(order: Seq<u64>, m: Map<u64, ClusterModel>, k: u64)
    requires
        order.contains(k),
        m.contains_key(k),
    ensures
        m[k].size <= sum_sizes(order, m),
    decreases order.len(),
{
    assert(order.len() > 0);
    assert(order.last() == order[order.len() - 1]);
    if order.last() != k {
        assert(order.drop_last().contains(k)) by {
            let j = choose|j: int| 0 <= j < order.len() && order[j] == k;
            assert(j != order.len() - 1);
            assert(order.drop_last()[j] == k);
        }
        lemma_sum_member_bound(order.drop_last(), m, k);
    }
}

/// With every listed cluster holding at least one member, the combined size
/// is at least the number of clusters.
proof fn lemma_sum_at_least_len(order: Seq<u64>, m: Map<u64, ClusterModel>)
    requires
        forall|i: int|
            0 <= i < order.len() ==> m.contains_key(#[trigger] order[i]) && m[order[i]].size >= 1,
    ensures
        sum_sizes(order, m) >= order.len(),
    decreases order.len(),
{
    if order.len() > 0 {
        assert(order.last() == order[order.len() - 1]);
        lemma_sum_at_least_len(order.drop_last(), m);
    }
}

/// In a well-formed store there are never more clusters than insertions, so
/// the duplicate count `total - unique` never underflows.
pub proof fn lemma_unique_le_total(m: StoreModel)
    requires
        model_wf(m),
    ensures
        m.order.len() <= m.total,
{
    assert forall|i: int|
        0 <= i < m.order.len() implies m.clusters.contains_key(#[trigger] m.order[i])
        && m.clusters[m.order[i]].size >= 1 by {
        assert(m.order.contains(m.order[i]));
    }
    lemma_sum_at_least_len(m.order, m.clusters);
}

/// In a well-formed store the first-seen order lists exactly the observed
/// fingerprints, so the unique count is the cardinality of the cluster
/// mapping.
pub proof fn lemma_unique_is_cluster_count(m: StoreModel)
    requires
        model_wf(m),
    ensures
        m.clusters.dom().finite(),
        m.order.len() == m.clusters.dom().len(),
{
    broadcast use vstd::seq_lib::group_seq_lib_default;

    m.order.unique_seq_to_set();
    assert(m.order.to_set() =~= m.clusters.dom());
}

/// In a well-formed store a known cluster's size is bounded by the total, so
/// growing it by one cannot overflow before the total itself would.
pub proof fn lemma_size_le_total(m: StoreModel, h: u64)
    requires
        model_wf(m),
        m.clusters.contains_key(h),
    ensures
        m.clusters[h].size <= m.total,
{
    lemma_sum_member_bound(m.order, m.clusters, h);
}

/// One insertion preserves well-formedness, raises the total by one, and
/// opens a cluster exactly when the fingerprint is fresh.
pub proof fn lemma_insert_model_wf(m: StoreModel, h: u64, id: Seq<char>)
    requires
        model_wf(m),
    ensures
        model_wf(insert_model(m, h, id)),
        insert_model(m, h, id).total == m.total + 1,
        insert_model(m, h, id).order.len() == m.order.len() + if insert_is_new(m, h) {
            1int
        } else {
            0int
        },
{
    let m2 = insert_model(m, h, id);
    if m.clusters.contains_key(h) {
        assert(m.order.contains(h));
        lemma_sum_increment(m.order, m.clusters, h, m2.clusters[h]);
        assert forall|i: int| 0 <= i < m2.order.len() implies #[trigger] m2.clusters[m2.order[i]].size
            >= 1 by {
            assert(m.clusters[m.order[i]].size >= 1);
        }
    } else {
        assert(!m.order.contains(h));
        lemma_sum_push(m.order, m.clusters, h, ClusterModel { rep: id, size: 1 });
        assert(m2.order.no_duplicates()) by {
            assert forall|i: int, j: int|
                0 <= i < m2.order.len() && 0 <= j < m2.order.len() && i != j implies m2.order[i]
                != m2.order[j] by {
                if i < m.order.len() && j < m.order.len() {
                    assert(m.order[i] != m.order[j]);
                } else if i < m.order.len() {
                    if m.order[i] == h {
                        assert(m.order.contains(h));
                    }
                } else if j < m.order.len() {
                    if m.order[j] == h {
                        assert(m.order.contains(h));
                    }
                }
            }
        }
        assert forall|k: u64| #[trigger] m2.clusters.contains_key(k) implies m2.order.contains(
            k,
        ) by {
            if k == h {
                assert(m2.order[m2.order.len() - 1] == h);
            } else {
                assert(m.order.contains(k));
                let j = choose|j: int| 0 <= j < m.order.len() && m.order[j] == k;
                assert(m2.order[j] == k);
            }
        }
        assert forall|k: u64| #[trigger] m2.order.contains(k) implies m2.clusters.contains_key(
            k,
        ) by {
            let j = choose|j: int| 0 <= j < m2.order.len() && m2.order[j] == k;
            if j < m.order.len() {
                assert(m.order.contains(k));
            }
        }
        assert forall|i: int| 0 <= i < m2.order.len() implies #[trigger] m2.clusters[m2.order[i]].size
            >= 1 by {
            if i < m.order.len() {
                assert(m.order.contains(m.order[i]));
                assert(m.clusters[m.order[i]].size >= 1);
            }
        }
    }
}

} // verus!
