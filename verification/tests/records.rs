use seqdedup::digits::u64_to_dec_string;
use seqdedup::records::type_mismatch_message;
use seqdedup::records::FastaRecord;
use seqdedup::records::FastqRecord;
use seqdedup::records::FastxType;
use seqdedup::records::Record;

#[test]
fn fasta_check_accepts_valid_record() {
    let record = FastaRecord::with_attrs("read1", Some("sample"), b"ACGTacgt-.*");
    assert!(record.check().is_ok());
    assert_eq!(record.id(), "read1");
    assert_eq!(record.seq(), b"ACGTacgt-.*");
}

#[test]
fn fasta_check_rejects_empty_id() {
    let record = FastaRecord::with_attrs("", None, b"ACGT");
    assert_eq!(record.check(), Err("Expecting id for Fasta record."));
}

#[test]
fn fasta_check_rejects_non_ascii_sequence() {
    let record = FastaRecord::with_attrs("read1", None, &[65, 200, 71]);
    assert_eq!(record.check(), Err("Non-ascii character found in sequence."));
}

#[test]
fn fasta_check_rejects_invalid_sequence_byte() {
    let record = FastaRecord::with_attrs("read1", None, b"AC5T");
    assert_eq!(record.check(), Err("Invalid character found in sequence."));
}

#[test]
fn fastq_check_accepts_valid_record() {
    let record = FastqRecord::with_attrs("read1", None, b"ACGT", b"IIII");
    assert!(record.check().is_ok());
    assert_eq!(record.id(), "read1");
    assert_eq!(record.seq(), b"ACGT");
    assert_eq!(record.qual, b"IIII".to_vec());
}

#[test]
fn fastq_check_rejects_empty_id() {
    let record = FastqRecord::with_attrs("", None, b"ACGT", b"IIII");
    assert_eq!(record.check(), Err("Expecting id for FastQ record."));
}

#[test]
fn fastq_check_rejects_non_ascii_qualities() {
    let record = FastqRecord::with_attrs("read1", None, b"ACGT", &[200, 200, 200, 200]);
    assert_eq!(record.check(), Err("Non-ascii character found in qualities."));
}

#[test]
fn fastq_check_rejects_unequal_lengths() {
    let record = FastqRecord::with_attrs("read1", None, b"ACGT", b"III");
    assert_eq!(record.check(), Err("Unequal length of sequence an qualities."));
}

#[test]
fn fastx_type_from_first_byte() {
    assert_eq!(FastxType::of_first_byte(b'>'), FastxType::Fasta);
    assert_eq!(FastxType::of_first_byte(b'@'), FastxType::Fastq);
    assert_eq!(FastxType::of_first_byte(b'A'), FastxType::Invalid);
    assert_eq!(FastxType::Fasta.name(), "fasta");
    assert_eq!(FastxType::Fastq.name(), "fastq");
    assert_eq!(FastxType::Invalid.name(), "invalid");
}

#[test]
fn type_mismatch_message_names_both_formats() {
    assert_eq!(
        type_mismatch_message(FastxType::Fasta, FastxType::Fastq),
        "paired inputs have different file types r1: fasta, r2: fastq"
    );
}

#[test]
fn decimal_rendering_is_exact() {
    assert_eq!(u64_to_dec_string(0), "0");
    assert_eq!(u64_to_dec_string(7), "7");
    assert_eq!(u64_to_dec_string(10), "10");
    assert_eq!(u64_to_dec_string(200), "200");
    assert_eq!(u64_to_dec_string(18446744073709551615), "18446744073709551615");
}
