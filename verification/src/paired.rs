//! Paired-record synchronization: zipping two fallible record streams into a
//! stream of validated pairs, in lock-step, with typed errors for identifier
//! mismatches and for one stream ending before the other.

use vstd::prelude::*;
use vstd::string::StringExecFns;

use crate::records::Record;
use crate::records::StreamError;
use crate::records::StreamErrorKind;

verus! {

/// The message reported when two paired records carry different identifiers.
pub open spec fn mismatch_message(id1: Seq<char>, id2: Seq<char>) -> Seq<char> {
    "read pair had different read IDs: ("@ + id1 + ", "@ + id2 + ")"@
}

/// Build the identifier-mismatch message for two concrete identifiers.
fn mismatch_message_exec(id1: &str, id2: &str) -> (m: String)
    ensures
        m@ == mismatch_message(id1@, id2@),
{
    let mut m = String::new();
    m.append("read pair had different read IDs: (");
    m.append(id1);
    m.append(", ");
    m.append(id2);
    m.append(")");
    proof {
        assert(m@ =~= mismatch_message(id1@, id2@));
    }
    m
}

/// String-slice equality, decided through owned copies.
pub fn str_eq(a: &str, b: &str) -> (r: bool)
    ensures
        r == (a@ == b@),
{
    let sa = a.to_owned();
    let sb = b.to_owned();
    sa == sb
}

/// Two records from paired input streams that have been confirmed to share an
/// identifier. Constructed only by `try_from`, which enforces that invariant.
pub struct PairedRecord<T: Record> {
    r1: T,
    r2: T,
}

impl<T: Record> PairedRecord<T> {
    pub closed spec fn spec_r1(&self) -> T {
        self.r1
    }

    pub closed spec fn spec_r2(&self) -> T {
        self.r2
    }

    /// The invariant every constructed pair satisfies: both members carry the
    /// same identifier.
    pub open spec fn wf(&self) -> bool {
        self.spec_r1().spec_id() == self.spec_r2().spec_id()
    }

    /// The shared identifier of the pair.
    pub fn id(&self) -> (r: &str)
        ensures
            r@ == self.spec_r1().spec_id(),
    {
        self.r1.id()
    }

    /// Run both members' structural self-checks; the first failure is
    /// reported with an `r1: ` or `r2: ` prefix naming the failing member.
    pub fn check(&self) -> (r: Result<(), String>)
        ensures
            r is Ok <==> (self.spec_r1().spec_valid() && self.spec_r2().spec_valid()),
            !self.spec_r1().spec_valid() ==> (r matches Err(m) && m@ == "r1: "@
                + self.spec_r1().spec_check_err()),
            self.spec_r1().spec_valid() && !self.spec_r2().spec_valid() ==> (r matches Err(m) && m@
                == "r2: "@ + self.spec_r2().spec_check_err()),
    {
        match self.r1.check() {
            Err(err) => {
                let mut m = String::new();
                m.append("r1: ");
                m.append(err);
                Err(m)
            },
            Ok(()) => match self.r2.check() {
                Err(err) => {
                    let mut m = String::new();
                    m.append("r2: ");
                    m.append(err);
                    Err(m)
                },
                Ok(()) => Ok(()),
            },
        }
    }

    /// The first member of the pair.
    pub fn r1(&self) -> (r: &T)
        ensures
            *r == self.spec_r1(),
    {
        &self.r1
    }

    /// The second member of the pair.
    pub fn r2(&self) -> (r: &T)
        ensures
            *r == self.spec_r2(),
    {
        &self.r2
    }

    /// Dissolve the pair into its two members.
    pub fn into_parts(self) -> (r: (T, T))
        ensures
            r.0 == self.spec_r1(),
            r.1 == self.spec_r2(),
    {
        (self.r1, self.r2)
    }

    /// Validate two records into a pair: succeeds iff their identifiers are
    /// equal, and otherwise reports a data error naming both identifiers.
    pub fn try_from(pair: (T, T)) -> (r: Result<PairedRecord<T>, StreamError>)
        ensures
            pair.0.spec_id() == pair.1.spec_id() ==> (r matches Ok(p) && p.spec_r1() == pair.0
                && p.spec_r2() == pair.1),
            pair.0.spec_id() != pair.1.spec_id() ==> (r matches Err(e) && e.spec_kind()
                == StreamErrorKind::InvalidData && e.spec_message() == mismatch_message(
                pair.0.spec_id(),
                pair.1.spec_id(),
            )),
    {
        let (r1, r2) = pair;
        if str_eq(r1.id(), r2.id()) {
            Ok(PairedRecord { r1, r2 })
        } else {
            let message = mismatch_message_exec(r1.id(), r2.id());
            Err(StreamError::new(StreamErrorKind::InvalidData, message))
        }
    }
}

/// What one synchronization step must produce, given the next element pulled
/// from each stream. The cases mirror the lock-step state table: both streams
/// yield a record (pair them or report the identifier mismatch), both end
/// (the zipped stream ends), one ends early (an end-of-stream error), or an
/// underlying read failed (that error is passed through verbatim, the first
/// stream's failure taking precedence).
pub open spec fn sync_step_ok<T: Record>(
    n1: Option<Result<T, StreamError>>,
    n2: Option<Result<T, StreamError>>,
    r: Option<Result<PairedRecord<T>, StreamError>>,
) -> bool {
    match (n1, n2) {
        (Some(Ok(a)), Some(Ok(b))) => if a.spec_id() == b.spec_id() {
            r matches Some(Ok(p)) && p.spec_r1() == a && p.spec_r2() == b
        } else {
            r matches Some(Err(e)) && e.spec_kind() == StreamErrorKind::InvalidData
                && e.spec_message() == mismatch_message(a.spec_id(), b.spec_id())
        },
        (None, None) => r is None,
        (Some(_), None) => r matches Some(Err(e)) && e.spec_kind()
            == StreamErrorKind::UnexpectedEof && e.spec_message()
            == "reached the end of r2 before r1"@,
        (None, Some(_)) => r matches Some(Err(e)) && e.spec_kind()
            == StreamErrorKind::UnexpectedEof && e.spec_message()
            == "reached the end of r1 before r2"@,
        (Some(Err(e)), Some(_)) => r == Some(Err::<PairedRecord<T>, StreamError>(e)),
        (Some(Ok(_)), Some(Err(e))) => r == Some(Err::<PairedRecord<T>, StreamError>(e)),
    }
}

/// Decide one synchronization step from the next element of each stream.
/// This is the whole decision logic of the synchronizer; callers that drive
/// real, lazily-read streams pull one element from each side and hand both
/// to this function.
pub fn sync_step<T: Record>(
    n1: Option<Result<T, StreamError>>,
    n2: Option<Result<T, StreamError>>,
) -> (r: Option<Result<PairedRecord<T>, StreamError>>)
    ensures
        sync_step_ok(n1, n2, r),
{
    match (n1, n2) {
        (Some(Ok(r1_record)), Some(Ok(r2_record))) => Some(
            PairedRecord::try_from((r1_record, r2_record)),
        ),
        (None, None) => None,
        (Some(_), None) => Some(
            Err(
                StreamError::new(
                    StreamErrorKind::UnexpectedEof,
                    "reached the end of r2 before r1".to_owned(),
                ),
            ),
        ),
        (None, Some(_)) => Some(
            Err(
                StreamError::new(
                    StreamErrorKind::UnexpectedEof,
                    "reached the end of r1 before r2".to_owned(),
                ),
            ),
        ),
        (Some(Err(err)), Some(_)) => Some(Err(err)),
        (Some(Ok(_)), Some(Err(err))) => Some(Err(err)),
    }
}

/// The first element of a stream's remainder, if any.
pub open spec fn head_opt<T: Record>(s: Seq<Result<T, StreamError>>) -> Option<
    Result<T, StreamError>,
> {
    if s.len() == 0 {
        None
    } else {
        Some(s[0])
    }
}

/// The paired-record synchronizer over two in-memory streams of fallible
/// records. Each call to `next` consumes exactly one pending element from
/// each side that still has one, and produces one element of the zipped
/// stream; after either side is exhausted the zipped stream ends or reports
/// the misalignment.
pub struct PairedRecords<T: Record> {
    records_r1: Vec<Result<T, StreamError>>,
    records_r2: Vec<Result<T, StreamError>>,
}

impl<T: Record> PairedRecords<T> {
    /// What is still to be consumed from the first stream.
    pub closed spec fn r1_remaining(&self) -> Seq<Result<T, StreamError>> {
        self.records_r1@
    }

    /// What is still to be consumed from the second stream.
    pub closed spec fn r2_remaining(&self) -> Seq<Result<T, StreamError>> {
        self.records_r2@
    }

    /// Wrap two record streams for lock-step consumption.
    pub fn new(records_r1: Vec<Result<T, StreamError>>, records_r2: Vec<Result<T, StreamError>>) -> (r:
        PairedRecords<T>)
        ensures
            r.r1_remaining() == records_r1@,
            r.r2_remaining() == records_r2@,
    {
        PairedRecords { records_r1, records_r2 }
    }

    /// Produce the next element of the zipped stream: pull one pending
    /// element from each side and decide the step.
    pub fn next(&mut self) -> (r: Option<Result<PairedRecord<T>, StreamError>>)
        ensures
            final(self).r1_remaining() == old(self).r1_remaining().skip(
                if old(self).r1_remaining().len() > 0 {
                    1int
                } else {
                    0int
                },
            ),
            final(self).r2_remaining() == old(self).r2_remaining().skip(
                if old(self).r2_remaining().len() > 0 {
                    1int
                } else {
                    0int
                },
            ),
            sync_step_ok(
                head_opt(old(self).r1_remaining()),
                head_opt(old(self).r2_remaining()),
                r,
            ),
    {
        let n1: Option<Result<T, StreamError>> = if self.records_r1.len() > 0 {
            let x = self.records_r1.remove(0);
            proof {
                assert(self.records_r1@ =~= old(self).r1_remaining().skip(1));
            }
            Some(x)
        } else {
            None
        };
        let n2: Option<Result<T, StreamError>> = if self.records_r2.len() > 0 {
            let x = self.records_r2.remove(0);
            proof {
                assert(self.records_r2@ =~= old(self).r2_remaining().skip(1));
            }
            Some(x)
        } else {
            None
        };
        sync_step(n1, n2)
    }
}

} // verus!
