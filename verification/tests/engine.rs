use seqdedup::clusters::dedup_pair_step;
use seqdedup::clusters::dedup_single_step;
use seqdedup::clusters::Clusters;
use seqdedup::clusters::DedupError;
use seqdedup::paired::PairedRecord;
use seqdedup::records::FastaRecord;

fn fixed_seq(len: usize) -> Vec<u8> {
    (0..len).map(|i| b"ACTG"[i % 4]).collect()
}

fn counters(clusters: &Clusters) -> (u64, u64, u64) {
    (
        clusters.unique_records(),
        clusters.duplicate_records(),
        clusters.total_records(),
    )
}

#[test]
fn prefix_truncation_collapses_tails() {
    // First 10 bytes agree, the tails differ: with prefix length 10 the
    // second record is a duplicate.
    let head = fixed_seq(10);
    let mut seq_a = head.clone();
    seq_a.extend_from_slice(b"AAAAAAAAAA");
    let mut seq_b = head.clone();
    seq_b.extend_from_slice(b"CCCCCCCCCC");

    let mut clusters = Clusters::from_writer(None, Some(10), 16).expect("don't break");
    let new_a = clusters
        .insert_single(&FastaRecord::with_attrs("id_a", None, &seq_a))
        .expect("don't break");
    let new_b = clusters
        .insert_single(&FastaRecord::with_attrs("id_b", None, &seq_b))
        .expect("don't break");
    assert!(new_a);
    assert!(!new_b);
    assert_eq!(counters(&clusters), (1, 1, 2));

    // Without a prefix length the same two records stay apart.
    let mut full = Clusters::from_writer(None, None, 16).expect("don't break");
    full.insert_single(&FastaRecord::with_attrs("id_a", None, &seq_a))
        .expect("don't break");
    let new_b_full = full
        .insert_single(&FastaRecord::with_attrs("id_b", None, &seq_b))
        .expect("don't break");
    assert!(new_b_full);
    assert_eq!(counters(&full), (2, 0, 2));
}

#[test]
fn pair_order_is_significant() {
    // (seqX, seqY) and (seqY, seqX) are different pairs.
    let seq_x = fixed_seq(20);
    let seq_y: Vec<u8> = (0..20).map(|i| b"GTCA"[i % 4]).collect();

    let mut clusters = Clusters::from_writer(None, None, 16).expect("don't break");
    let pair_1 = PairedRecord::try_from((
        FastaRecord::with_attrs("id_a", None, &seq_x),
        FastaRecord::with_attrs("id_a", None, &seq_y),
    ))
    .unwrap();
    let pair_2 = PairedRecord::try_from((
        FastaRecord::with_attrs("id_b", None, &seq_y),
        FastaRecord::with_attrs("id_b", None, &seq_x),
    ))
    .unwrap();
    assert!(clusters.insert_pair(&pair_1).expect("don't break"));
    assert!(clusters.insert_pair(&pair_2).expect("don't break"));
    assert_eq!(counters(&clusters), (2, 0, 2));
}

#[test]
fn counters_stay_consistent_and_deterministic() {
    // total == unique + duplicate at every point, total counts the calls,
    // and a replay of the same insertions gives the same counters.
    let sequences: Vec<Vec<u8>> = vec![
        fixed_seq(20),
        fixed_seq(20),
        (0..20).map(|i| b"GTCA"[i % 4]).collect(),
        fixed_seq(12),
        fixed_seq(20),
    ];

    let mut first_counts = Vec::new();
    for run in 0..2 {
        let mut clusters = Clusters::from_writer(None, Some(16), 8).expect("don't break");
        for (i, seq) in sequences.iter().enumerate() {
            let id = format!("read{}", i);
            let record = FastaRecord::with_attrs(&id, None, seq);
            clusters.insert_single(&record).expect("don't break");
            let (unique, duplicate, total) = counters(&clusters);
            assert_eq!(total, unique + duplicate);
            assert_eq!(total, (i + 1) as u64);
        }
        if run == 0 {
            first_counts.push(counters(&clusters));
        } else {
            assert_eq!(counters(&clusters), first_counts[0]);
        }
    }
}

#[test]
fn first_seen_representative_rows() {
    // Three inserts that share one cluster: every row names the first-seen
    // member as representative, in insertion order.
    let seq = fixed_seq(20);
    let mut clusters = Clusters::from_writer(Some(Vec::new()), None, 8).expect("don't break");
    for id in ["first", "second", "third"] {
        clusters
            .insert_single(&FastaRecord::with_attrs(id, None, &seq))
            .expect("don't break");
    }
    let bytes = clusters.into_sink_bytes().expect("should have a sink");
    assert_eq!(
        String::from_utf8(bytes).unwrap(),
        "representative read id,read id\nfirst,first\nfirst,second\nfirst,third\n"
    );
}

#[test]
fn dedup_single_step_decides_writes() {
    let seq = fixed_seq(20);
    let mut clusters = Clusters::from_writer(None, None, 8).expect("don't break");
    let keep = dedup_single_step(
        &mut clusters,
        &FastaRecord::with_attrs("id_a", None, &seq),
    );
    assert!(matches!(keep, Ok(true)));
    let drop = dedup_single_step(
        &mut clusters,
        &FastaRecord::with_attrs("id_b", None, &seq),
    );
    assert!(matches!(drop, Ok(false)));

    let invalid = dedup_single_step(
        &mut clusters,
        &FastaRecord::with_attrs("", None, &seq),
    );
    match invalid {
        Err(DedupError::InvalidRecord(message)) => {
            assert_eq!(message, "Expecting id for Fasta record.");
        }
        _ => panic!("an invalid record must be rejected"),
    }
    // The rejected record did not touch the store.
    assert_eq!(counters(&clusters), (1, 1, 2));
}

#[test]
fn dedup_pair_step_reports_failing_member() {
    let seq = fixed_seq(20);
    let mut clusters = Clusters::from_writer(None, None, 8).expect("don't break");
    let pair = PairedRecord::try_from((
        FastaRecord::with_attrs("id_a", None, &seq),
        FastaRecord::with_attrs("id_a", None, b"AC5T"),
    ))
    .unwrap();
    let invalid = dedup_pair_step(&mut clusters, &pair);
    match invalid {
        Err(DedupError::InvalidRecord(message)) => {
            assert_eq!(message, "r2: Invalid character found in sequence.");
        }
        _ => panic!("an invalid pair must be rejected"),
    }
    assert_eq!(counters(&clusters), (0, 0, 0));

    let valid = PairedRecord::try_from((
        FastaRecord::with_attrs("id_b", None, &seq),
        FastaRecord::with_attrs("id_b", None, &seq),
    ))
    .unwrap();
    assert!(matches!(dedup_pair_step(&mut clusters, &valid), Ok(true)));
}

#[test]
fn sink_failures_are_impossible_without_sink() {
    // A store without a sink still counts and clusters.
    let seq = fixed_seq(20);
    let mut clusters = Clusters::from_writer(None, Some(10), 0).expect("don't break");
    clusters
        .insert_single(&FastaRecord::with_attrs("id_a", None, &seq))
        .expect("don't break");
    assert_eq!(counters(&clusters), (1, 0, 1));
    assert!(clusters.into_sink_bytes().is_none());
}
