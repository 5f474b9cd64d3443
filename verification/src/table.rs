//! The CSV format, as the `csv` crate writes and reads it.
//!
//! The functions of this file call the crate. Their contracts are trusted:
//! they say what the crate does, and nothing here proves them.

use crate::text::texts;
use vstd::prelude::*;

verus! {

/// A `csv::Writer` with the default settings that writes to a byte buffer in
/// memory. Nothing is known of what is inside; `written` speaks of what was
/// put into it.
#[verifier::external_body]
pub struct CsvBuffer {
    inner: csv::Writer<Vec<u8>>,
}

/// The records that were written to `w` so far, each as the texts of its
/// fields. The contracts speak of it only while every record put into the
/// writer had as many fields as those before it, so that none was refused.
pub uninterp spec fn written(w: CsvBuffer) -> Seq<Seq<Seq<char>>>;

/// The bytes that a `csv::Writer` with the default settings produces for
/// `records`: what `csv::Writer::into_inner` hands back once they are written.
pub uninterp spec fn csv_text(records: Seq<Seq<Seq<char>>>) -> Seq<u8>;

/// Whether every record of `records` has `width` fields.
pub open spec fn all_of_width(records: Seq<Seq<Seq<char>>>, width: nat) -> bool {
    forall|i: int| 0 <= i < records.len() ==> (#[trigger] records[i]).len() == width
}

/// Whether all records of `records` have the same number of fields.
pub open spec fn of_one_width(records: Seq<Seq<Seq<char>>>) -> bool {
    forall|i: int| 0 <= i < records.len() ==> (#[trigger] records[i]).len() == records[0].len()
}

/// `csv::Writer::from_writer`, given an empty byte buffer to write to.
/// Trusted: nothing is written yet.
#[verifier::external_body]
pub(crate) fn writer_new() -> (w: CsvBuffer)
    ensures
        written(w) == Seq::<Seq<Seq<char>>>::empty(),
{
    CsvBuffer { inner: csv::Writer::from_writer(Vec::new()) }
}

/// `csv::Writer::write_record`; the result says whether it returned `Ok`.
/// Trusted: a record that has as many fields as each record written before
/// is accepted and added behind them. (The writer refuses a record only for
/// its number of fields or for a failure of what it writes to, and a byte
/// buffer does not fail.) Of a record with another number of fields nothing
/// is said: the writer refuses it but keeps its fields, which then run into
/// the record put next.
#[verifier::external_body]
pub(crate) fn writer_put(w: &mut CsvBuffer, fields: &Vec<String>) -> (ok: bool)
    ensures
        all_of_width(written(*old(w)), fields@.len()) ==> ok && written(*final(w)) == written(
            *old(w),
        ).push(texts(fields@)),
{
    w.inner.write_record(fields).is_ok()
}

/// `csv::Writer::into_inner`, which flushes the writer and gives the buffer
/// back. Trusted: it succeeds, a byte buffer never failing to take what is
/// flushed into it; and where all records written have the same number of
/// fields, so that none was refused, the buffer holds their CSV text.
#[verifier::external_body]
pub(crate) fn writer_finish(w: CsvBuffer) -> (bytes: Option<Vec<u8>>)
    ensures
        bytes is Some,
        of_one_width(written(w)) ==> bytes.unwrap()@ == csv_text(written(w)),
{
    w.inner.into_inner().ok()
}

/// What `csv::Reader::headers` returns for the input `bytes`, read leniently
/// as to the number of fields in a record: the fields of the first record, or
/// the text of the error.
pub uninterp spec fn csv_header(bytes: Seq<u8>) -> Result<Seq<Seq<char>>, Seq<char>>;

/// What `csv::Reader::records` yields for the input `bytes`, read leniently as
/// to the number of fields in a record: for each record after the first, in
/// order, its fields or the text of the error that reading it gave.
pub uninterp spec fn csv_rows(bytes: Seq<u8>) -> Seq<Result<Seq<Seq<char>>, Seq<char>>>;

/// A record or an error as plain text.
pub open spec fn record_view(r: Result<Vec<String>, String>) -> Result<
    Seq<Seq<char>>,
    Seq<char>,
> {
    match r {
        Ok(fields) => Ok(texts(fields@)),
        Err(detail) => Err(detail@),
    }
}

/// `csv::Reader::headers`, on a reader over `bytes` that accepts records of
/// any number of fields. Trusted: the result is named `csv_header`, the fields
/// as strings and an error by its text.
#[verifier::external_body]
pub(crate) fn read_header(bytes: &Vec<u8>) -> (header: Result<Vec<String>, String>)
    ensures
        record_view(header) == csv_header(bytes@),
{
    let mut reader = csv::ReaderBuilder::new().flexible(true).from_reader(bytes.as_slice());
    match reader.headers() {
        Ok(record) => Ok(record.iter().map(String::from).collect()),
        Err(error) => Err(error.to_string()),
    }
}

/// `csv::Reader::records`, on a reader over `bytes` that accepts records of
/// any number of fields. Trusted: the items that the iterator yields are named
/// `csv_rows`, the fields as strings and an error by its text.
#[verifier::external_body]
pub(crate) fn read_rows(bytes: &Vec<u8>) -> (rows: Vec<Result<Vec<String>, String>>)
    ensures
        rows@.map_values(|r: Result<Vec<String>, String>| record_view(r)) == csv_rows(bytes@),
{
    let mut reader = csv::ReaderBuilder::new().flexible(true).from_reader(bytes.as_slice());
    reader.records().map(|row| match row {
        Ok(record) => Ok(record.iter().map(String::from).collect()),
        Err(error) => Err(error.to_string()),
    }).collect()
}

} // verus!
