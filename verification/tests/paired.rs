use seqdedup::paired::PairedRecords;
use seqdedup::records::FastaRecord;
use seqdedup::records::StreamError;
use seqdedup::records::StreamErrorKind;

#[test]
fn test_r1_longer() {
    let record = FastaRecord::with_attrs("id_a", None, &[]);
    let records_r1 = vec![Ok(record)];
    let records_r2: Vec<Result<FastaRecord, StreamError>> = vec![];
    let mut paired_iterator = PairedRecords::new(records_r1, records_r2);
    let result = paired_iterator.next();

    let error = result
        .expect("should return an element")
        .err()
        .expect("should return an error");
    assert_eq!(
        error.kind(),
        StreamErrorKind::UnexpectedEof,
        "should be of kind UnexpectedEof"
    );
    assert_eq!(
        error.message(),
        "reached the end of r2 before r1",
        "should contain correct message"
    );
}

#[test]
fn test_r2_longer() {
    let record = FastaRecord::with_attrs("id_a", None, &[]);
    let records_r1: Vec<Result<FastaRecord, StreamError>> = vec![];
    let records_r2 = vec![Ok(record)];
    let mut paired_iterator = PairedRecords::new(records_r1, records_r2);
    let result = paired_iterator.next();

    let error = result
        .expect("should return an element")
        .err()
        .expect("should return an error");
    assert_eq!(
        error.kind(),
        StreamErrorKind::UnexpectedEof,
        "should be of kind UnexpectedEof"
    );
    assert_eq!(
        error.message(),
        "reached the end of r1 before r2",
        "should contain correct message"
    );
}

#[test]
fn test_different_ids() {
    let record_r1 = FastaRecord::with_attrs("id_a", None, &[]);
    let record_r2 = FastaRecord::with_attrs("id_b", None, &[]);
    let records_r1 = vec![Ok(record_r1)];
    let records_r2 = vec![Ok(record_r2)];
    let mut paired_iterator = PairedRecords::new(records_r1, records_r2);
    let result = paired_iterator.next();

    let error = result
        .expect("should return an element")
        .err()
        .expect("should return an error");
    assert_eq!(
        error.kind(),
        StreamErrorKind::InvalidData,
        "should be of kind InvalidData"
    );
    assert_eq!(
        error.message(),
        "read pair had different read IDs: (id_a, id_b)",
        "should contain correct message"
    );
}

#[test]
fn test_r1_error() {
    let records_r1 = vec![Err(StreamError::new(
        StreamErrorKind::Other,
        "I'm broken".to_string(),
    )) as Result<FastaRecord, StreamError>];
    let records_r2 = vec![Err(StreamError::new(
        StreamErrorKind::Other,
        "I'm also broken".to_string(),
    ))];
    let mut paired_iterator = PairedRecords::new(records_r1, records_r2);
    let result = paired_iterator.next();

    let error = result
        .expect("should return an element")
        .err()
        .expect("should return an error");
    assert_eq!(error.kind(), StreamErrorKind::Other, "should be of kind Other");
    assert_eq!(error.message(), "I'm broken");
}

#[test]
fn test_r2_error() {
    let record_r1 = FastaRecord::with_attrs("id_a", None, &[]);
    let records_r1 = vec![Ok(record_r1)];
    let records_r2 = vec![Err(StreamError::new(
        StreamErrorKind::Other,
        "I'm broken".to_string(),
    ))];
    let mut paired_iterator = PairedRecords::new(records_r1, records_r2);
    let result = paired_iterator.next();

    let error = result
        .expect("should return an element")
        .err()
        .expect("should return an error");
    assert_eq!(error.kind(), StreamErrorKind::Other, "should be of kind Other");
    assert_eq!(error.message(), "I'm broken");
}

#[test]
fn test_both_empty() {
    let records_r1: Vec<Result<FastaRecord, StreamError>> = vec![];
    let records_r2: Vec<Result<FastaRecord, StreamError>> = vec![];
    let mut paired_iterator = PairedRecords::new(records_r1, records_r2);
    assert!(paired_iterator.next().is_none());
}

#[test]
fn test_matching_pair() {
    let record_r1 = FastaRecord::with_attrs("id_a", None, b"ACGT");
    let record_r2 = FastaRecord::with_attrs("id_a", None, b"TGCA");
    let records_r1 = vec![Ok(record_r1)];
    let records_r2 = vec![Ok(record_r2)];
    let mut paired_iterator = PairedRecords::new(records_r1, records_r2);

    let pair = paired_iterator
        .next()
        .expect("should return an element")
        .expect("should return a pair");
    assert_eq!(pair.id(), "id_a");
    assert_eq!(pair.r1().seq, b"ACGT".to_vec());
    assert_eq!(pair.r2().seq, b"TGCA".to_vec());
    assert!(paired_iterator.next().is_none());
}
