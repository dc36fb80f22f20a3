//! The tabular row sink, backed by the `csv` crate.
//!
//! The engine appends two-field rows to an in-memory CSV writer and finally
//! recovers the encoded bytes. `RowWriter` holds the writer opaquely and is
//! modeled by two names: the sequence of two-field rows it has accepted so
//! far (`csv_rows`) and the bytes its underlying buffer held when it was
//! built (`csv_sink_prefix`). The sink is sealed: every `RowWriter` is built
//! by `new_row_writer` over an owned byte buffer — whose writes are
//! infallible — and is only ever written through `write_two_field_row`, so
//! every record it sees has exactly two fields and no write or teardown can
//! fail. That is what grounds the unconditional success clauses below;
//! everything the engine proves about row order and report bytes rests on
//! the contracts in this file.

use vstd::prelude::*;

verus! {

#[verifier::external_type_specification]
#[verifier::external_body]
pub struct ExCsvError(csv::Error);

/// An in-memory CSV row sink: a default-configured `csv::Writer` over an
/// owned byte buffer. Opaque to the verifier; its observable behaviour is
/// given by the contracts below.
#[verifier::external_body]
pub struct RowWriter {
    inner: csv::Writer<Vec<u8>>,
}

/// The two-field rows this writer has accepted, in the order they were
/// written.
pub uninterp spec fn csv_rows(w: RowWriter) -> Seq<(Seq<char>, Seq<char>)>;

/// The bytes the writer's underlying buffer held when the writer was built.
pub uninterp spec fn csv_sink_prefix(w: RowWriter) -> Seq<u8>;

/// The byte encoding a default-configured CSV writer gives a sequence of
/// two-field rows: fields separated by a comma and quoted only when needed,
/// rows terminated by a newline.
pub uninterp spec fn csv_encoding(rows: Seq<(Seq<char>, Seq<char>)>) -> Seq<u8>;

impl RowWriter {
    /// Open a row sink that accumulates its output after the bytes already
    /// in `buffer`.
    pub fn new(buffer: Vec<u8>) -> (w: RowWriter)
        ensures
            csv_rows(w) == Seq::<(Seq<char>, Seq<char>)>::empty(),
            csv_sink_prefix(w) == buffer@,
    {
        new_row_writer(buffer)
    }

    /// Close the sink and return its bytes: the bytes it started with,
    /// followed by the encoding of every accepted row, in order.
    pub fn into_bytes(self) -> (r: Option<Vec<u8>>)
        ensures
            r matches Some(bytes) && bytes@ == csv_sink_prefix(self) + csv_encoding(
                csv_rows(self),
            ),
    {
        writer_into_bytes(self)
    }
}

/// Relies on csv::Writer::from_writer: a freshly built writer has accepted
/// no rows yet and leaves the supplied buffer untouched until rows arrive.
#[verifier::external_body]
pub(crate) fn new_row_writer(sink: Vec<u8>) -> (w: RowWriter)
    ensures
        csv_rows(w) == Seq::<(Seq<char>, Seq<char>)>::empty(),
        csv_sink_prefix(w) == sink@,
{
    RowWriter { inner: csv::Writer::from_writer(sink) }
}

/// Relies on csv::Writer::write_record, and on `Vec<u8>`'s infallible
/// io::Write: writing to an owned buffer cannot fail, and a field-count
/// error is impossible because every record this sealed sink ever sees
/// comes through here with exactly two fields — so the record is always
/// accepted, appending exactly one row with exactly these two fields after
/// every row written before. Writing never touches the bytes the buffer
/// held beforehand.
#[verifier::external_body]
pub(crate) fn write_two_field_row(
    w: &mut RowWriter,
    field0: &str,
    field1: &str,
) -> (r: Result<(), csv::Error>)
    ensures
        r is Ok,
        csv_rows(*final(w)) == csv_rows(*old(w)).push((field0@, field1@)),
        csv_sink_prefix(*final(w)) == csv_sink_prefix(*old(w)),
{
    w.inner.write_record(&[field0, field1])
}

/// Relies on csv::Writer::into_inner, and on `Vec<u8>`'s infallible
/// io::Write: the final flush into an owned buffer cannot fail, so the
/// buffer is always returned, holding the bytes it started with followed by
/// the encoding of every accepted row.
#[verifier::external_body]
pub(crate) fn writer_into_bytes(w: RowWriter) -> (r: Option<Vec<u8>>)
    ensures
        r is Some,
        r matches Some(bytes) ==> bytes@ == csv_sink_prefix(w) + csv_encoding(csv_rows(w)),
{
    match w.inner.into_inner() {
        Ok(bytes) => Some(bytes),
        Err(_) => None,
    }
}

} // verus!
