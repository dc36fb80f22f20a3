//! The dedup engine: a streaming, hash-keyed cluster store.
//!
//! Each inserted record (or pair) is fingerprinted over a configurable
//! sequence prefix and assigned to the cluster of that fingerprint; the store
//! tracks every cluster's first-seen representative and size, the insertion
//! total, and optionally streams one `(representative, member)` row per
//! insertion to a CSV sink. Every operation is proved to realize the
//! `insert_model` transition of `crate::model`.

use std::collections::HashMap;
use vstd::prelude::*;
use vstd::slice::slice_subrange;

use crate::csv_sink::RowWriter;
use crate::csv_sink::csv_encoding;
use crate::csv_sink::csv_rows;
use crate::csv_sink::csv_sink_prefix;
use crate::csv_sink::new_row_writer;
use crate::csv_sink::write_two_field_row;
use crate::csv_sink::writer_into_bytes;
use crate::digits::dec_chars;
use crate::digits::u64_to_dec_string;
use crate::fingerprint::pair_stream;
use crate::fingerprint::fingerprint_of;
use crate::fingerprint::prefix_of;
use crate::fingerprint::single_stream;
use crate::model::ClusterModel;
use crate::model::StoreModel;
use crate::model::empty_model;
use crate::model::insert_is_new;
use crate::model::insert_model;
use crate::model::insert_row;
use crate::model::lemma_insert_model_wf;
use crate::model::lemma_size_le_total;
use crate::model::lemma_unique_le_total;
use crate::model::model_wf;
use crate::paired::PairedRecord;
use crate::records::Record;

verus! {

/// The fingerprint used for a single record with the given sequence content,
/// under the given prefix configuration.
pub open spec fn single_fingerprint(prefix: Option<usize>, content: Seq<u8>) -> u64 {
    fingerprint_of(single_stream(prefix_of(prefix, content)))
}

/// The fingerprint used for a pair of records with the given sequence
/// contents, in positional order, under the given prefix configuration.
pub open spec fn pair_fingerprint(prefix: Option<usize>, content1: Seq<u8>, content2: Seq<u8>) -> u64 {
    fingerprint_of(pair_stream(prefix_of(prefix, content1), prefix_of(prefix, content2)))
}

/// The header row of the cluster-mapping report.
pub open spec fn mapping_header() -> (Seq<char>, Seq<char>) {
    ("representative read id"@, "read id"@)
}

/// The header row of the cluster-size report.
pub open spec fn sizes_header() -> (Seq<char>, Seq<char>) {
    ("representative read id"@, "cluster size"@)
}

/// The `(representative, decimal size)` row of one cluster in the size
/// report.
pub open spec fn size_row(c: ClusterModel) -> (Seq<char>, Seq<char>) {
    (c.rep, dec_chars(c.size))
}

/// The size report's data rows: one per cluster, in first-seen order.
pub open spec fn size_rows(m: StoreModel) -> Seq<(Seq<char>, Seq<char>)> {
    Seq::new(m.order.len(), |i: int| size_row(m.clusters[m.order[i]]))
}

/// One cluster: the identifier of its first-seen member and the number of
/// records assigned to it so far.
pub struct Cluster {
    id: String,
    size: u64,
}

impl View for Cluster {
    type V = ClusterModel;

    closed spec fn view(&self) -> ClusterModel {
        ClusterModel { rep: self.id@, size: self.size as nat }
    }
}

/// The cluster store. Owns the fingerprint-to-cluster mapping, the counters,
/// the optional prefix length and the optional row sink for the
/// `(representative, member)` mapping.
pub struct Clusters {
    cluster_map: HashMap<u64, Cluster>,
    key_order: Vec<u64>,
    cluster_csv_writer: Option<RowWriter>,
    total_records: u64,
    prefix_length_opt: Option<usize>,
}

impl View for Clusters {
    type V = StoreModel;

    closed spec fn view(&self) -> StoreModel {
        StoreModel {
            clusters: Map::new(
                |k: u64| self.cluster_map@.contains_key(k),
                |k: u64| self.cluster_map@[k]@,
            ),
            order: self.key_order@,
            total: self.total_records as nat,
        }
    }
}

impl Clusters {
    /// The configured prefix length, if any.
    pub closed spec fn prefix_config(&self) -> Option<usize> {
        self.prefix_length_opt
    }

    /// Whether a cluster-mapping row sink is configured.
    pub closed spec fn has_sink(&self) -> bool {
        self.cluster_csv_writer is Some
    }

    /// The rows the configured sink has accepted (empty without a sink).
    pub closed spec fn sink_rows(&self) -> Seq<(Seq<char>, Seq<char>)> {
        match self.cluster_csv_writer {
            Some(w) => csv_rows(w),
            None => Seq::empty(),
        }
    }

    /// The bytes the sink's buffer held before the store was built.
    pub closed spec fn sink_prefix_bytes(&self) -> Seq<u8> {
        match self.cluster_csv_writer {
            Some(w) => csv_sink_prefix(w),
            None => Seq::empty(),
        }
    }

    /// The store's invariant: its state is a well-formed model.
    pub open spec fn wf(&self) -> bool {
        model_wf(self@)
    }

    /// A store without a configured sink emits no rows; its counting
    /// behaviour is otherwise identical, the row stream being a pure
    /// projection of the insertions.
    pub proof fn lemma_no_sink_no_rows(&self)
        requires
            !self.has_sink(),
        ensures
            self.sink_rows() == Seq::<(Seq<char>, Seq<char>)>::empty(),
    {
    }

    /// Build a store with an optional cluster-mapping buffer, an optional
    /// prefix length, and a capacity hint for the mapping. When a buffer is
    /// supplied, the mapping report's header row is written immediately;
    /// construction always succeeds, the in-memory sink accepting every row.
    pub fn from_writer(
        cluster_output_opt: Option<Vec<u8>>,
        prefix_length_opt: Option<usize>,
        capacity: usize,
    ) -> (r: Result<Clusters, csv::Error>)
        ensures
            r matches Ok(c) && {
                &&& c.wf()
                &&& c@ == empty_model()
                &&& c.prefix_config() == prefix_length_opt
                &&& c.has_sink() == (cluster_output_opt is Some)
                &&& c.has_sink() ==> c.sink_rows() == seq![mapping_header()]
                &&& (cluster_output_opt matches Some(buf) ==> c.sink_prefix_bytes() == buf@)
            },
    {
        let cluster_csv_writer: Option<RowWriter> = match cluster_output_opt {
            Some(buf) => {
                let mut w = new_row_writer(buf);
                match write_two_field_row(&mut w, "representative read id", "read id") {
                    Ok(()) => Some(w),
                    Err(e) => {
                        return Err(e);
                    },
                }
            },
            None => None,
        };
        let c = Clusters {
            cluster_map: HashMap::with_capacity(capacity),
            key_order: Vec::new(),
            cluster_csv_writer,
            total_records: 0,
            prefix_length_opt,
        };
        proof {
            assert(c@.clusters =~= Map::<u64, ClusterModel>::empty());
            assert(c@ =~= empty_model());
            if c.cluster_csv_writer is Some {
                assert(c.sink_rows() =~= seq![mapping_header()]);
            }
        }
        Ok(c)
    }

    /// The sequence prefix the fingerprint covers: the first `p` bytes when a
    /// prefix length `p` is configured and the sequence is longer, the whole
    /// sequence otherwise.
    fn get_prefix<'a, 'b>(&'a self, seq: &'b [u8]) -> (r: &'b [u8])
        ensures
            r@ == prefix_of(self.prefix_config(), seq@),
    {
        match self.prefix_length_opt {
            Some(p) => {
                let n = if p < seq.len() {
                    p
                } else {
                    seq.len()
                };
                let r = slice_subrange(seq, 0, n);
                proof {
                    assert(r@ =~= prefix_of(self.prefix_config(), seq@));
                }
                r
            },
            None => seq,
        }
    }

    /// Insert one fingerprinted identifier: bump the total, grow or open the
    /// fingerprint's cluster, and append the `(representative, member)` row
    /// to the sink if one is configured. The in-memory sink accepts every
    /// row, so the call always succeeds.
    fn insert_record(&mut self, seq_hash: u64, id: String) -> (r: Result<bool, csv::Error>)
        requires
            old(self).wf(),
            old(self)@.total < u64::MAX,
        ensures
            final(self).wf(),
            final(self)@ == insert_model(old(self)@, seq_hash, id@),
            final(self).prefix_config() == old(self).prefix_config(),
            final(self).has_sink() == old(self).has_sink(),
            final(self).sink_prefix_bytes() == old(self).sink_prefix_bytes(),
            r matches Ok(b) && b == insert_is_new(old(self)@, seq_hash),
            old(self).has_sink() ==> final(self).sink_rows() == old(self).sink_rows().push(
                insert_row(old(self)@, seq_hash, id@),
            ),
            !old(self).has_sink() ==> final(self).sink_rows() == old(self).sink_rows(),
    {
        proof {
            lemma_insert_model_wf(old(self)@, seq_hash, id@);
        }
        self.total_records = self.total_records + 1;
        let found: Option<(String, u64)> = match self.cluster_map.get(&seq_hash) {
            Some(c) => Some((c.id.clone(), c.size)),
            None => None,
        };
        match found {
            Some((rep_id, size)) => {
                proof {
                    lemma_size_le_total(old(self)@, seq_hash);
                }
                let new_cluster = Cluster { id: rep_id.clone(), size: size + 1 };
                self.cluster_map.insert(seq_hash, new_cluster);
                proof {
                    assert(self@.clusters =~= insert_model(old(self)@, seq_hash, id@).clusters);
                    assert(self@ =~= insert_model(old(self)@, seq_hash, id@));
                }
                let res: Result<(), csv::Error> = match self.cluster_csv_writer.take() {
                    Some(mut w) => {
                        let res = write_two_field_row(&mut w, rep_id.as_str(), id.as_str());
                        self.cluster_csv_writer = Some(w);
                        res
                    },
                    None => Ok(()),
                };
                match res {
                    Ok(()) => Ok(false),
                    Err(e) => Err(e),
                }
            },
            None => {
                let res: Result<(), csv::Error> = match self.cluster_csv_writer.take() {
                    Some(mut w) => {
                        let res = write_two_field_row(&mut w, id.as_str(), id.as_str());
                        self.cluster_csv_writer = Some(w);
                        res
                    },
                    None => Ok(()),
                };
                self.key_order.push(seq_hash);
                self.cluster_map.insert(seq_hash, Cluster { id, size: 1 });
                proof {
                    assert(self@.clusters =~= insert_model(old(self)@, seq_hash, id@).clusters);
                    assert(self@ =~= insert_model(old(self)@, seq_hash, id@));
                }
                match res {
                    Ok(()) => Ok(true),
                    Err(e) => Err(e),
                }
            },
        }
    }

    /// Insert one record: fingerprint its (possibly truncated) sequence and
    /// assign it to that cluster. Always succeeds, returning `Ok(true)` iff
    /// the record opened a new cluster, i.e. iff the caller should keep it
    /// in the deduplicated output.
    pub fn insert_single<R: Record>(&mut self, record: &R) -> (r: Result<bool, csv::Error>)
        requires
            old(self).wf(),
            old(self)@.total < u64::MAX,
        ensures
            ({
                let h = single_fingerprint(old(self).prefix_config(), record.spec_seq());
                &&& final(self).wf()
                &&& final(self)@ == insert_model(old(self)@, h, record.spec_id())
                &&& final(self).prefix_config() == old(self).prefix_config()
                &&& final(self).has_sink() == old(self).has_sink()
                &&& final(self).sink_prefix_bytes() == old(self).sink_prefix_bytes()
                &&& (r matches Ok(b) && b == insert_is_new(old(self)@, h))
                &&& (old(self).has_sink() ==> final(self).sink_rows() == old(
                    self,
                ).sink_rows().push(insert_row(old(self)@, h, record.spec_id())))
                &&& (!old(self).has_sink() ==> final(self).sink_rows() == old(self).sink_rows())
            }),
    {
        let prefix = self.get_prefix(record.seq());
        let seq_hash = crate::fingerprint::hash_single_block(prefix);
        self.insert_record(seq_hash, record.id().to_owned())
    }

    /// Insert one validated pair: fingerprint both members' (possibly
    /// truncated) sequences in their positional roles and assign the pair to
    /// that cluster, under the pair's shared identifier. Always succeeds,
    /// returning `Ok(true)` iff the pair opened a new cluster.
    pub fn insert_pair<R: Record>(&mut self, record: &PairedRecord<R>) -> (r: Result<
        bool,
        csv::Error,
    >)
        requires
            old(self).wf(),
            old(self)@.total < u64::MAX,
        ensures
            ({
                let h = pair_fingerprint(
                    old(self).prefix_config(),
                    record.spec_r1().spec_seq(),
                    record.spec_r2().spec_seq(),
                );
                let id = record.spec_r1().spec_id();
                &&& final(self).wf()
                &&& final(self)@ == insert_model(old(self)@, h, id)
                &&& final(self).prefix_config() == old(self).prefix_config()
                &&& final(self).has_sink() == old(self).has_sink()
                &&& final(self).sink_prefix_bytes() == old(self).sink_prefix_bytes()
                &&& (r matches Ok(b) && b == insert_is_new(old(self)@, h))
                &&& (old(self).has_sink() ==> final(self).sink_rows() == old(
                    self,
                ).sink_rows().push(insert_row(old(self)@, h, id)))
                &&& (!old(self).has_sink() ==> final(self).sink_rows() == old(self).sink_rows())
            }),
    {
        let prefix1 = self.get_prefix(record.r1().seq());
        let prefix2 = self.get_prefix(record.r2().seq());
        let seq_hash = crate::fingerprint::hash_pair_blocks(prefix1, prefix2);
        self.insert_record(seq_hash, record.id().to_owned())
    }

    /// The number of distinct clusters observed so far.
    pub fn unique_records(&self) -> (r: u64)
        ensures
            r as nat == self@.order.len(),
    {
        self.key_order.len() as u64
    }

    /// The number of records that joined an existing cluster: the total
    /// minus the number of clusters.
    pub fn duplicate_records(&self) -> (r: u64)
        requires
            self.wf(),
        ensures
            r as nat == self@.total - self@.order.len(),
    {
        proof {
            lemma_unique_le_total(self@);
        }
        self.total_records - self.key_order.len() as u64
    }

    /// The number of insertions so far.
    pub fn total_records(&self) -> (r: u64)
        ensures
            r as nat == self@.total,
    {
        self.total_records
    }

    /// Write the size report to `csv_writer`: the header row, then one
    /// `(representative, size)` row per cluster in first-seen order. The
    /// in-memory sink accepts every row, so the report is always written in
    /// full.
    pub fn write_sizes(&self, csv_writer: &mut RowWriter) -> (r: Result<(), csv::Error>)
        requires
            self.wf(),
        ensures
            r is Ok,
            csv_rows(*final(csv_writer)) == csv_rows(*old(csv_writer)) + seq![sizes_header()]
                + size_rows(self@),
            csv_sink_prefix(*final(csv_writer)) == csv_sink_prefix(*old(csv_writer)),
    {
        match write_two_field_row(csv_writer, "representative read id", "cluster size") {
            Ok(()) => {},
            Err(e) => {
                return Err(e);
            },
        }
        let mut i: usize = 0;
        while i < self.key_order.len()
            invariant
                self.wf(),
                0 <= i <= self.key_order@.len(),
                csv_rows(*csv_writer) == csv_rows(*old(csv_writer)) + seq![sizes_header()]
                    + size_rows(self@).take(i as int),
                csv_sink_prefix(*csv_writer) == csv_sink_prefix(*old(csv_writer)),
            decreases self.key_order@.len() - i,
        {
            let k = self.key_order[i];
            proof {
                assert(self@.order.contains(k)) by {
                    assert(self@.order[i as int] == k);
                }
            }
            if let Some(c) = self.cluster_map.get(&k) {
                let size_str = u64_to_dec_string(c.size);
                match write_two_field_row(csv_writer, c.id.as_str(), size_str.as_str()) {
                    Ok(()) => {
                        proof {
                            assert(size_rows(self@).take(i + 1 as int) =~= size_rows(self@).take(
                                i as int,
                            ).push(size_row(self@.clusters[k])));
                            assert(csv_rows(*csv_writer) =~= csv_rows(*old(csv_writer)) + seq![
                                sizes_header(),
                            ] + size_rows(self@).take(i + 1 as int));
                        }
                    },
                    Err(e) => {
                        return Err(e);
                    },
                }
            } else {
                proof {
                    assert(false);
                }
            }
            i = i + 1;
        }
        proof {
            assert(size_rows(self@).take(self@.order.len() as int) =~= size_rows(self@));
        }
        Ok(())
    }

    /// Tear the store down and return the bytes of its cluster-mapping
    /// report: the buffer it was built over, followed by the CSV encoding of
    /// the header and of one row per insertion, in insertion order. Returns
    /// `None` exactly when no sink was configured.
    pub fn into_sink_bytes(self) -> (r: Option<Vec<u8>>)
        ensures
            !self.has_sink() ==> r is None,
            self.has_sink() ==> (r matches Some(bytes) && bytes@ == self.sink_prefix_bytes()
                + csv_encoding(self.sink_rows())),
    {
        match self.cluster_csv_writer {
            Some(w) => writer_into_bytes(w),
            None => None,
        }
    }
}

/// Why one step of the dedup loop failed: the record failed its structural
/// self-check, or the row sink reported an error. The second never happens
/// with the store's in-memory sink (the step contracts promise success for
/// valid records); the variant keeps the sink's error type on the step's
/// error surface.
pub enum DedupError {
    InvalidRecord(String),
    RowSink(csv::Error),
}

/// One step of the single-end dedup loop: validate the record, insert it,
/// and report whether it survives into the deduplicated output. An invalid
/// record is the only failure, and leaves the store untouched.
pub fn dedup_single_step<R: Record>(clusters: &mut Clusters, record: &R) -> (r: Result<
    bool,
    DedupError,
>)
    requires
        old(clusters).wf(),
        old(clusters)@.total < u64::MAX,
    ensures
        final(clusters).wf(),
        final(clusters).prefix_config() == old(clusters).prefix_config(),
        !record.spec_valid() ==> (r matches Err(DedupError::InvalidRecord(m)) && m@
            == record.spec_check_err() && *final(clusters) == *old(clusters)),
        record.spec_valid() ==> ({
            let h = single_fingerprint(old(clusters).prefix_config(), record.spec_seq());
            &&& final(clusters)@ == insert_model(old(clusters)@, h, record.spec_id())
            &&& (r matches Ok(b) && b == insert_is_new(old(clusters)@, h))
            &&& (old(clusters).has_sink() ==> final(clusters).sink_rows() == old(
                clusters,
            ).sink_rows().push(insert_row(old(clusters)@, h, record.spec_id())))
            &&& (!old(clusters).has_sink() ==> final(clusters).sink_rows() == old(
                clusters,
            ).sink_rows())
            &&& final(clusters).has_sink() == old(clusters).has_sink()
        }),
{
    match record.check() {
        Err(msg) => Err(DedupError::InvalidRecord(msg.to_owned())),
        Ok(()) => match clusters.insert_single(record) {
            Ok(is_new) => Ok(is_new),
            Err(e) => Err(DedupError::RowSink(e)),
        },
    }
}

/// One step of the paired dedup loop: validate both members, insert the
/// pair, and report whether it survives into the deduplicated outputs. An
/// invalid pair is the only failure, and leaves the store untouched.
pub fn dedup_pair_step<R: Record>(clusters: &mut Clusters, record: &PairedRecord<R>) -> (r: Result<
    bool,
    DedupError,
>)
    requires
        old(clusters).wf(),
        old(clusters)@.total < u64::MAX,
    ensures
        final(clusters).wf(),
        final(clusters).prefix_config() == old(clusters).prefix_config(),
        !(record.spec_r1().spec_valid() && record.spec_r2().spec_valid()) ==> (r matches Err(
            DedupError::InvalidRecord(_),
        ) && *final(clusters) == *old(clusters)),
        !record.spec_r1().spec_valid() ==> (r matches Err(DedupError::InvalidRecord(m)) && m@
            == "r1: "@ + record.spec_r1().spec_check_err()),
        record.spec_r1().spec_valid() && !record.spec_r2().spec_valid() ==> (r matches Err(
            DedupError::InvalidRecord(m),
        ) && m@ == "r2: "@ + record.spec_r2().spec_check_err()),
        record.spec_r1().spec_valid() && record.spec_r2().spec_valid() ==> ({
            let h = pair_fingerprint(
                old(clusters).prefix_config(),
                record.spec_r1().spec_seq(),
                record.spec_r2().spec_seq(),
            );
            let id = record.spec_r1().spec_id();
            &&& final(clusters)@ == insert_model(old(clusters)@, h, id)
            &&& (r matches Ok(b) && b == insert_is_new(old(clusters)@, h))
            &&& (old(clusters).has_sink() ==> final(clusters).sink_rows() == old(
                clusters,
            ).sink_rows().push(insert_row(old(clusters)@, h, id)))
            &&& (!old(clusters).has_sink() ==> final(clusters).sink_rows() == old(
                clusters,
            ).sink_rows())
            &&& final(clusters).has_sink() == old(clusters).has_sink()
        }),
{
    match record.check() {
        Err(msg) => Err(DedupError::InvalidRecord(msg)),
        Ok(()) => match clusters.insert_pair(record) {
            Ok(is_new) => Ok(is_new),
            Err(e) => Err(DedupError::RowSink(e)),
        },
    }
}

} // verus!
