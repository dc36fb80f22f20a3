//! The laws of the dedup engine, stated over the store model.
//!
//! Every executable insertion realizes `insert_model` exactly (see the
//! contracts in `crate::clusters`), so a run of the engine is a fold of that
//! transition; the proofs here are therefore laws about every run. Where a
//! law speaks of records being clustered apart, what is proved is that their
//! hashed block streams differ: two distinct streams land in one cluster
//! only if their 64-bit digests collide, the false-duplicate risk inherent
//! in hash-keyed clustering.

use vstd::prelude::*;

use crate::clusters::pair_fingerprint;
use crate::clusters::single_fingerprint;
use crate::fingerprint::lemma_pair_stream_order_sensitive;
use crate::fingerprint::pair_stream;
use crate::fingerprint::prefix_of;
use crate::fingerprint::single_stream;
use crate::model::StoreModel;
use crate::model::insert_is_new;
use crate::model::insert_model;
use crate::model::insert_row;
use crate::model::lemma_insert_model_wf;
use crate::model::lemma_unique_is_cluster_count;
use crate::model::lemma_unique_le_total;
use crate::model::model_wf;

verus! {

/// One insertion of a run: a single record's sequence content and
/// identifier, or a pair's two contents and shared identifier.
pub ghost enum InsertOp {
    Single { content: Seq<u8>, id: Seq<char> },
    Pair { content1: Seq<u8>, content2: Seq<u8>, id: Seq<char> },
}

/// The fingerprint an insertion uses under the given prefix configuration.
pub open spec fn op_fingerprint(prefix: Option<usize>, op: InsertOp) -> u64 {
    match op {
        InsertOp::Single { content, .. } => single_fingerprint(prefix, content),
        InsertOp::Pair { content1, content2, .. } => pair_fingerprint(prefix, content1, content2),
    }
}

/// The identifier an insertion records.
pub open spec fn op_id(op: InsertOp) -> Seq<char> {
    match op {
        InsertOp::Single { id, .. } => id,
        InsertOp::Pair { id, .. } => id,
    }
}

/// A whole run: the fold of `insert_model` over a sequence of insertions,
/// under one prefix configuration.
pub open spec fn run_model(m: StoreModel, prefix: Option<usize>, ops: Seq<InsertOp>) -> StoreModel
    decreases ops.len(),
{
    if ops.len() == 0 {
        m
    } else {
        run_model(
            insert_model(m, op_fingerprint(prefix, ops[0]), op_id(ops[0])),
            prefix,
            ops.skip(1),
        )
    }
}

/// Determinism: a fixed sequence of insertions under a fixed prefix
/// configuration drives equal store states to equal store states, so the
/// unique, duplicate and total counts of a run are the same every time it is
/// replayed.
pub proof fn lemma_run_deterministic(
    m1: StoreModel,
    m2: StoreModel,
    prefix: Option<usize>,
    ops: Seq<InsertOp>,
)
    requires
        m1 == m2,
    ensures
        run_model(m1, prefix, ops) == run_model(m2, prefix, ops),
{
}

/// Every run preserves well-formedness.
pub proof fn lemma_run_wf(m: StoreModel, prefix: Option<usize>, ops: Seq<InsertOp>)
    requires
        model_wf(m),
    ensures
        model_wf(run_model(m, prefix, ops)),
    decreases ops.len(),
{
    if ops.len() > 0 {
        lemma_insert_model_wf(m, op_fingerprint(prefix, ops[0]), op_id(ops[0]));
        lemma_run_wf(
            insert_model(m, op_fingerprint(prefix, ops[0]), op_id(ops[0])),
            prefix,
            ops.skip(1),
        );
    }
}

/// Counter identity, pointwise: in every well-formed store state the unique
/// count is the number of clusters observed, it never exceeds the total, and
/// the total is exactly the unique count plus the duplicate count (the
/// duplicate count being the total minus the unique count, as the store
/// reports it).
pub proof fn lemma_counter_identity(m: StoreModel)
    requires
        model_wf(m),
    ensures
        m.order.len() == m.clusters.dom().len(),
        m.order.len() <= m.total,
        m.total == m.order.len() + (m.total - m.order.len()),
{
    lemma_unique_is_cluster_count(m);
    lemma_unique_le_total(m);
}

/// Counter identity, over a run: the total after a run exceeds the total
/// before it by exactly the number of insert calls made.
pub proof fn lemma_total_counts_calls(m: StoreModel, prefix: Option<usize>, ops: Seq<InsertOp>)
    ensures
        run_model(m, prefix, ops).total == m.total + ops.len(),
    decreases ops.len(),
{
    if ops.len() > 0 {
        lemma_total_counts_calls(
            insert_model(m, op_fingerprint(prefix, ops[0]), op_id(ops[0])),
            prefix,
            ops.skip(1),
        );
    }
}

/// First-seen representative: when record A's fingerprint is not yet in the
/// store, inserting A and then any record B whose prefixed sequence content
/// equals A's reports B as a duplicate, emits the row `(A.id, B.id)` for B,
/// and leaves the cluster represented by A's identifier, now of size two.
pub proof fn lemma_first_seen_representative(
    m: StoreModel,
    prefix: Option<usize>,
    content_a: Seq<u8>,
    id_a: Seq<char>,
    content_b: Seq<u8>,
    id_b: Seq<char>,
)
    requires
        model_wf(m),
        insert_is_new(m, single_fingerprint(prefix, content_a)),
        prefix_of(prefix, content_a) == prefix_of(prefix, content_b),
    ensures
        ({
            let h = single_fingerprint(prefix, content_a);
            let m1 = insert_model(m, h, id_a);
            &&& single_fingerprint(prefix, content_b) == h
            &&& insert_row(m, h, id_a) == (id_a, id_a)
            &&& !insert_is_new(m1, h)
            &&& insert_row(m1, h, id_b) == (id_a, id_b)
            &&& insert_model(m1, h, id_b).clusters[h].rep == id_a
            &&& insert_model(m1, h, id_b).clusters[h].size == 2
        }),
{
}

/// Once a cluster exists, no later insertion changes its representative,
/// and its size never decreases: the first-seen identifier represents the
/// cluster for the rest of the run.
pub proof fn lemma_representative_stable(
    m: StoreModel,
    h: u64,
    prefix: Option<usize>,
    ops: Seq<InsertOp>,
)
    requires
        m.clusters.contains_key(h),
    ensures
        run_model(m, prefix, ops).clusters.contains_key(h),
        run_model(m, prefix, ops).clusters[h].rep == m.clusters[h].rep,
        run_model(m, prefix, ops).clusters[h].size >= m.clusters[h].size,
    decreases ops.len(),
{
    if ops.len() > 0 {
        lemma_representative_stable(
            insert_model(m, op_fingerprint(prefix, ops[0]), op_id(ops[0])),
            h,
            prefix,
            ops.skip(1),
        );
    }
}

/// Prefix truncation: with prefix length P configured, two sequences whose
/// first P bytes agree always share a fingerprint — whatever they hold
/// beyond P — so after the first is inserted the second is clustered as a
/// duplicate.
pub proof fn lemma_prefix_truncation(
    m: StoreModel,
    p: usize,
    content_a: Seq<u8>,
    id_a: Seq<char>,
    content_b: Seq<u8>,
)
    requires
        p <= content_a.len(),
        p <= content_b.len(),
        content_a.take(p as int) == content_b.take(p as int),
    ensures
        single_fingerprint(Some(p), content_a) == single_fingerprint(Some(p), content_b),
        !insert_is_new(
            insert_model(m, single_fingerprint(Some(p), content_a), id_a),
            single_fingerprint(Some(p), content_b),
        ),
{
    assert(prefix_of(Some(p), content_a) =~= content_a.take(p as int));
    assert(prefix_of(Some(p), content_b) =~= content_b.take(p as int));
}

/// Full-sequence matching: with no prefix configured, equal sequences always
/// share a fingerprint, while different sequences hand the hasher different
/// block streams — only a digest collision could cluster those together.
pub proof fn lemma_full_sequence_required(content_a: Seq<u8>, content_b: Seq<u8>)
    ensures
        content_a == content_b ==> single_fingerprint(None, content_a) == single_fingerprint(
            None,
            content_b,
        ),
        content_a != content_b ==> single_stream(prefix_of(None, content_a)) != single_stream(
            prefix_of(None, content_b),
        ),
{
    if content_a != content_b {
        assert(single_stream(content_a)[0] == content_a);
        assert(single_stream(content_b)[0] == content_b);
    }
}

/// Pair ordering sensitivity: a pair and its member-swapped reverse hand the
/// hasher different block streams whenever the members' prefixed sequences
/// differ — the fingerprint depends on the positional role of each member,
/// and only a digest collision could cluster the two orders together.
pub proof fn lemma_pair_order_sensitive(prefix: Option<usize>, content_x: Seq<u8>, content_y: Seq<u8>)
    requires
        prefix_of(prefix, content_x) != prefix_of(prefix, content_y),
    ensures
        pair_stream(prefix_of(prefix, content_x), prefix_of(prefix, content_y)) != pair_stream(
            prefix_of(prefix, content_y),
            prefix_of(prefix, content_x),
        ),
{
    lemma_pair_stream_order_sensitive(prefix_of(prefix, content_x), prefix_of(prefix, content_y));
}

} // verus!
