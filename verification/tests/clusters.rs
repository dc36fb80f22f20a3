use seqdedup::clusters::Clusters;
use seqdedup::csv_sink::RowWriter;
use seqdedup::paired::PairedRecord;
use seqdedup::records::FastaRecord;

/// A deterministic sequence of the given length over the ACTG alphabet.
fn fixed_seq(len: usize) -> Vec<u8> {
    (0..len).map(|i| b"ACTG"[i % 4]).collect()
}

/// A second deterministic sequence, distinct from `fixed_seq` in every
/// position.
fn other_seq(len: usize) -> Vec<u8> {
    (0..len).map(|i| b"GTCA"[i % 4]).collect()
}

#[test]
fn test_insert_single() {
    let mut clusters = Clusters::from_writer(Some(Vec::new()), Some(10), 200).expect("asdasd");
    let seq = fixed_seq(20);
    let record_1 = FastaRecord::with_attrs("id_a", None, &seq);
    clusters.insert_single(&record_1).expect("don't break");
    let record_2 = FastaRecord::with_attrs("id_b", None, &seq);
    clusters.insert_single(&record_2).expect("don't break");
    assert_eq!(clusters.duplicate_records(), 1);
    assert_eq!(clusters.unique_records(), 1);
    assert_eq!(clusters.total_records(), 2);
    let bytes = clusters.into_sink_bytes().expect("should have a sink");
    assert_eq!(
        String::from_utf8(bytes).unwrap(),
        "representative read id,read id\nid_a,id_a\nid_a,id_b\n"
    );
}

#[test]
fn test_insert_pair() {
    let mut clusters = Clusters::from_writer(Some(Vec::new()), Some(10), 200).expect("asdasd");
    let seq_r1 = fixed_seq(20);
    let seq_r2 = other_seq(20);
    let record_1_r1 = FastaRecord::with_attrs("id_a", None, &seq_r1);
    let record_1_r2 = FastaRecord::with_attrs("id_a", None, &seq_r2);
    clusters
        .insert_pair(&PairedRecord::try_from((record_1_r1, record_1_r2)).unwrap())
        .expect("don't break");
    let record_2_r1 = FastaRecord::with_attrs("id_b", None, &seq_r1);
    let record_2_r2 = FastaRecord::with_attrs("id_b", None, &seq_r2);
    clusters
        .insert_pair(&PairedRecord::try_from((record_2_r1, record_2_r2)).unwrap())
        .expect("don't break");
    assert_eq!(clusters.duplicate_records(), 1);
    assert_eq!(clusters.unique_records(), 1);
    assert_eq!(clusters.total_records(), 2);
    let bytes = clusters.into_sink_bytes().expect("should have a sink");
    assert_eq!(
        String::from_utf8(bytes).unwrap(),
        "representative read id,read id\nid_a,id_a\nid_a,id_b\n"
    );
}

#[test]
fn test_write_cluster_sizes() {
    let mut clusters = Clusters::from_writer(Some(Vec::new()), Some(10), 200).expect("asdasd");
    let seq1 = fixed_seq(20);
    let record_1 = FastaRecord::with_attrs("id_a", None, &seq1);
    clusters.insert_single(&record_1).expect("don't break");
    let record_2 = FastaRecord::with_attrs("id_b", None, &seq1);
    clusters.insert_single(&record_2).expect("don't break");
    let seq2 = other_seq(20);
    let record_3 = FastaRecord::with_attrs("id_c", None, &seq2);
    clusters.insert_single(&record_3).expect("don't break");
    let mut cluster_sizes_output = RowWriter::new(Vec::new());
    clusters
        .write_sizes(&mut cluster_sizes_output)
        .expect("don't break");
    let cluster_sizes_bytes = cluster_sizes_output.into_bytes().expect("should yield bytes");
    let cluster_sizes = String::from_utf8(cluster_sizes_bytes).unwrap();
    assert_eq!(
        cluster_sizes,
        "representative read id,cluster size\nid_a,2\nid_c,1\n"
    );
}
