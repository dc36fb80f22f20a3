//! Sequence records and the capability contract the dedup engine relies on.
//!
//! The engine is polymorphic over anything that exposes an identifier, a raw
//! sequence of bytes and a structural self-check; `FastaRecord` and
//! `FastqRecord` are the two concrete variants.

use vstd::prelude::*;
use vstd::string::StringExecFns;

verus! {

/// The kind of a stream-level failure, mirroring the classes of I/O errors
/// that record sources and sinks report.
#[derive(Clone, Copy, Debug, PartialEq, Eq, Structural)]
pub enum StreamErrorKind {
    /// One paired stream ended before the other.
    UnexpectedEof,
    /// The data itself is malformed (e.g. a read pair with two different ids).
    InvalidData,
    /// Any other failure, carried through from an underlying source or sink.
    Other,
}

/// An error raised while pulling records from a stream or pushing them to a
/// sink: a kind plus a human-readable message.
#[derive(Debug)]
pub struct StreamError {
    kind: StreamErrorKind,
    message: String,
}

impl StreamError {
    pub closed spec fn spec_kind(&self) -> StreamErrorKind {
        self.kind
    }

    pub closed spec fn spec_message(&self) -> Seq<char> {
        self.message@
    }

    pub fn new(kind: StreamErrorKind, message: String) -> (e: StreamError)
        ensures
            e.spec_kind() == kind,
            e.spec_message() == message@,
    {
        StreamError { kind, message }
    }

    pub fn kind(&self) -> (k: StreamErrorKind)
        ensures
            k == self.spec_kind(),
    {
        self.kind
    }

    pub fn message(&self) -> (m: &str)
        ensures
            m@ == self.spec_message(),
    {
        self.message.as_str()
    }
}

/// A sequence byte the two formats accept: an ASCII letter, a gap (`-`, `.`)
/// or a stop (`*`).
pub open spec fn valid_seq_byte(b: u8) -> bool {
    (65 <= b <= 90) || (97 <= b <= 122) || b == 42 || b == 45 || b == 46
}

pub open spec fn bytes_all_ascii(s: Seq<u8>) -> bool {
    forall|i: int| 0 <= i < s.len() ==> s[i] < 128
}

pub open spec fn bytes_all_valid(s: Seq<u8>) -> bool {
    forall|i: int| 0 <= i < s.len() ==> valid_seq_byte(#[trigger] s[i])
}

/// True iff every byte of `s` is ASCII (below 128).
pub fn bytes_ascii(s: &[u8]) -> (r: bool)
    ensures
        r == bytes_all_ascii(s@),
{
    let mut i: usize = 0;
    while i < s.len()
        invariant
            0 <= i <= s@.len(),
            forall|j: int| 0 <= j < i ==> s@[j] < 128,
        decreases s@.len() - i,
    {
        if s[i] >= 128 {
            return false;
        }
        i = i + 1;
    }
    true
}

/// True iff every byte of `s` is a valid sequence byte.
pub fn bytes_valid_alphabet(s: &[u8]) -> (r: bool)
    ensures
        r == bytes_all_valid(s@),
{
    let mut i: usize = 0;
    while i < s.len()
        invariant
            0 <= i <= s@.len(),
            forall|j: int| 0 <= j < i ==> valid_seq_byte(#[trigger] s@[j]),
        decreases s@.len() - i,
    {
        let b = s[i];
        let ok = (65 <= b && b <= 90) || (97 <= b && b <= 122) || b == 42 || b == 45 || b == 46;
        if !ok {
            return false;
        }
        i = i + 1;
    }
    true
}

/// The capability every record type must expose to the engine: an identifier,
/// a raw byte sequence, and a structural self-check. The engine never looks
/// past this contract.
pub trait Record: Sized {
    /// The record's identifier, as a sequence of characters.
    spec fn spec_id(&self) -> Seq<char>;

    /// The record's raw sequence bytes.
    spec fn spec_seq(&self) -> Seq<u8>;

    /// Whether the record satisfies its format's structural rules.
    spec fn spec_valid(&self) -> bool;

    /// The message the self-check reports when the record is not valid.
    spec fn spec_check_err(&self) -> Seq<char>;

    fn id(&self) -> (r: &str)
        ensures
            r@ == self.spec_id(),
    ;

    fn seq(&self) -> (r: &[u8])
        ensures
            r@ == self.spec_seq(),
    ;

    fn check(&self) -> (r: Result<(), &'static str>)
        ensures
            r is Ok <==> self.spec_valid(),
            r is Err ==> r->Err_0@ == self.spec_check_err(),
    ;
}

/// A sink that persists validated records in their source format. The run
/// loop hands every surviving record to one of these, in order.
pub trait RecordWriter<T: Record> {
    fn write_record(&mut self, record: &T) -> Result<(), StreamError>;
}

/// A FASTA record: identifier, optional description, sequence bytes.
pub struct FastaRecord {
    pub id: String,
    pub desc: Option<String>,
    pub seq: Vec<u8>,
}

impl FastaRecord {
    /// Build a record from its attributes.
    pub fn with_attrs(id: &str, desc: Option<&str>, seq: &[u8]) -> (r: FastaRecord)
        ensures
            r.id@ == id@,
            r.seq@ == seq@,
            match desc {
                Some(d) => r.desc is Some && r.desc->0@ == d@,
                None => r.desc is None,
            },
    {
        let desc_owned: Option<String> = match desc {
            Some(d) => Some(d.to_owned()),
            None => None,
        };
        FastaRecord { id: id.to_owned(), desc: desc_owned, seq: copy_bytes(seq) }
    }
}

impl Record for FastaRecord {
    open spec fn spec_id(&self) -> Seq<char> {
        self.id@
    }

    open spec fn spec_seq(&self) -> Seq<u8> {
        self.seq@
    }

    open spec fn spec_valid(&self) -> bool {
        self.id@.len() > 0 && bytes_all_valid(self.seq@)
    }

    open spec fn spec_check_err(&self) -> Seq<char> {
        if self.id@.len() == 0 {
            "Expecting id for Fasta record."@
        } else if !bytes_all_ascii(self.seq@) {
            "Non-ascii character found in sequence."@
        } else {
            "Invalid character found in sequence."@
        }
    }

    fn id(&self) -> (r: &str) {
        self.id.as_str()
    }

    fn seq(&self) -> (r: &[u8]) {
        self.seq.as_slice()
    }

    fn check(&self) -> (r: Result<(), &'static str>) {
        if self.id.as_str().is_empty() {
            return Err("Expecting id for Fasta record.");
        }
        if !bytes_ascii(self.seq.as_slice()) {
            return Err("Non-ascii character found in sequence.");
        }
        if !bytes_valid_alphabet(self.seq.as_slice()) {
            return Err("Invalid character found in sequence.");
        }
        Ok(())
    }
}

/// A FASTQ record: identifier, optional description, sequence bytes and
/// per-base quality bytes.
pub struct FastqRecord {
    pub id: String,
    pub desc: Option<String>,
    pub seq: Vec<u8>,
    pub qual: Vec<u8>,
}

impl FastqRecord {
    /// Build a record from its attributes.
    pub fn with_attrs(id: &str, desc: Option<&str>, seq: &[u8], qual: &[u8]) -> (r: FastqRecord)
        ensures
            r.id@ == id@,
            r.seq@ == seq@,
            r.qual@ == qual@,
            match desc {
                Some(d) => r.desc is Some && r.desc->0@ == d@,
                None => r.desc is None,
            },
    {
        let desc_owned: Option<String> = match desc {
            Some(d) => Some(d.to_owned()),
            None => None,
        };
        let seq_owned = copy_bytes(seq);
        let qual_owned = copy_bytes(qual);
        FastqRecord { id: id.to_owned(), desc: desc_owned, seq: seq_owned, qual: qual_owned }
    }
}

/// Copy a byte slice into an owned vector.
fn copy_bytes(s: &[u8]) -> (r: Vec<u8>)
    ensures
        r@ == s@,
{
    let mut out: Vec<u8> = Vec::new();
    let mut i: usize = 0;
    while i < s.len()
        invariant
            0 <= i <= s@.len(),
            out@ == s@.take(i as int),
        decreases s@.len() - i,
    {
        out.push(s[i]);
        proof {
            assert(out@ =~= s@.take(i + 1 as int));
        }
        i = i + 1;
    }
    proof {
        assert(out@ =~= s@);
    }
    out
}

impl Record for FastqRecord {
    open spec fn spec_id(&self) -> Seq<char> {
        self.id@
    }

    open spec fn spec_seq(&self) -> Seq<u8> {
        self.seq@
    }

    open spec fn spec_valid(&self) -> bool {
        &&& self.id@.len() > 0
        &&& bytes_all_valid(self.seq@)
        &&& bytes_all_ascii(self.qual@)
        &&& self.seq@.len() == self.qual@.len()
    }

    open spec fn spec_check_err(&self) -> Seq<char> {
        if self.id@.len() == 0 {
            "Expecting id for FastQ record."@
        } else if !bytes_all_ascii(self.seq@) {
            "Non-ascii character found in sequence."@
        } else if !bytes_all_valid(self.seq@) {
            "Invalid character found in sequence."@
        } else if !bytes_all_ascii(self.qual@) {
            "Non-ascii character found in qualities."@
        } else {
            "Unequal length of sequence an qualities."@
        }
    }

    fn id(&self) -> (r: &str) {
        self.id.as_str()
    }

    fn seq(&self) -> (r: &[u8]) {
        self.seq.as_slice()
    }

    fn check(&self) -> (r: Result<(), &'static str>) {
        if self.id.as_str().is_empty() {
            return Err("Expecting id for FastQ record.");
        }
        if !bytes_ascii(self.seq.as_slice()) {
            return Err("Non-ascii character found in sequence.");
        }
        if !bytes_valid_alphabet(self.seq.as_slice()) {
            return Err("Invalid character found in sequence.");
        }
        if !bytes_ascii(self.qual.as_slice()) {
            return Err("Non-ascii character found in qualities.");
        }
        if self.seq.len() != self.qual.len() {
            return Err("Unequal length of sequence an qualities.");
        }
        Ok(())
    }
}

/// The file format a record stream uses, as detected from the first byte of
/// the file.
#[derive(Clone, Copy, Debug, PartialEq, Eq, Structural)]
pub enum FastxType {
    Fastq,
    Fasta,
    Invalid,
}

impl FastxType {
    pub open spec fn spec_of_byte(b: u8) -> FastxType {
        if b == 62 {
            FastxType::Fasta
        } else if b == 64 {
            FastxType::Fastq
        } else {
            FastxType::Invalid
        }
    }

    /// Classify a file by its leading byte: `>` means FASTA, `@` means FASTQ,
    /// anything else is not a recognized format.
    pub fn of_first_byte(b: u8) -> (t: FastxType)
        ensures
            t == FastxType::spec_of_byte(b),
    {
        if b == 62 {
            FastxType::Fasta
        } else if b == 64 {
            FastxType::Fastq
        } else {
            FastxType::Invalid
        }
    }

    pub open spec fn spec_name(self) -> Seq<char> {
        match self {
            FastxType::Fasta => "fasta"@,
            FastxType::Fastq => "fastq"@,
            FastxType::Invalid => "invalid"@,
        }
    }

    /// The lower-case name of the format, as printed in messages.
    pub fn name(&self) -> (r: &'static str)
        ensures
            r@ == self.spec_name(),
    {
        match self {
            FastxType::Fasta => "fasta",
            FastxType::Fastq => "fastq",
            FastxType::Invalid => "invalid",
        }
    }
}

/// The message reported when the two paired input files use different
/// formats.
pub open spec fn spec_type_mismatch_message(t1: FastxType, t2: FastxType) -> Seq<char> {
    "paired inputs have different file types r1: "@ + t1.spec_name() + ", r2: "@ + t2.spec_name()
}

/// Build the paired-type-mismatch message for two detected formats.
pub fn type_mismatch_message(t1: FastxType, t2: FastxType) -> (m: String)
    ensures
        m@ == spec_type_mismatch_message(t1, t2),
{
    let mut m = String::new();
    m.append("paired inputs have different file types r1: ");
    m.append(t1.name());
    m.append(", r2: ");
    m.append(t2.name());
    proof {
        assert(m@ =~= spec_type_mismatch_message(t1, t2));
    }
    m
}

} // verus!
