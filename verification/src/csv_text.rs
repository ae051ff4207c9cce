//! The delimited text in which rows of fields are kept: a line for each
//! row, a comma between fields, quotes round a field that needs them. The
//! `csv` crate reads and writes it.

use vstd::prelude::*;
use vstd::utf8::encode_utf8;

verus! {

/// The error type of the `csv` crate.
#[verifier::external_type_specification]
#[verifier::external_body]
pub struct ExCsvError(csv::Error);

/// The rows that the `csv` crate's reader finds in a text, every line
/// taken as a row of fields; `None` where it rejects the text (bytes that
/// are no UTF-8, or two rows with different numbers of fields).
pub uninterp spec fn csv_records(data: Seq<u8>) -> Option<Seq<Seq<Seq<char>>>>;

/// Whether a field is written in quotes: it holds a comma, a quote or a
/// line break.
pub open spec fn needs_quotes(field: Seq<char>) -> bool {
    field.contains(',') || field.contains('"') || field.contains('\r') || field.contains('\n')
}

/// A field with each quote in it written twice.
pub open spec fn quotes_doubled(field: Seq<char>) -> Seq<char>
    decreases field.len(),
{
    if field.len() == 0 {
        Seq::empty()
    } else if field.last() == '"' {
        quotes_doubled(field.drop_last()) + seq!['"', '"']
    } else {
        quotes_doubled(field.drop_last()).push(field.last())
    }
}

/// A field as it is written: as it is, or in quotes with its own quotes
/// doubled where it needs them.
pub open spec fn written_field(field: Seq<char>) -> Seq<char> {
    if needs_quotes(field) {
        seq!['"'] + quotes_doubled(field) + seq!['"']
    } else {
        field
    }
}

/// The fields of a row as they are written, a comma between each two.
pub open spec fn joined_fields(row: Seq<Seq<char>>) -> Seq<char>
    decreases row.len(),
{
    if row.len() == 0 {
        Seq::empty()
    } else if row.len() == 1 {
        written_field(row[0])
    } else {
        joined_fields(row.drop_last()) + seq![','] + written_field(row.last())
    }
}

/// A row as it is written: its fields and a line feed. A row that would
/// leave the line empty is written as a pair of quotes.
pub open spec fn written_row(row: Seq<Seq<char>>) -> Seq<char> {
    if joined_fields(row).len() == 0 {
        seq!['"', '"', '\n']
    } else {
        joined_fields(row).push('\n')
    }
}

/// Rows as they are written, one after the other.
pub open spec fn written_rows(rows: Seq<Seq<Seq<char>>>) -> Seq<char>
    decreases rows.len(),
{
    if rows.len() == 0 {
        Seq::empty()
    } else {
        written_rows(rows.drop_last()) + written_row(rows.last())
    }
}

/// All rows have the same number of fields.
pub open spec fn same_widths(rows: Seq<Seq<Seq<char>>>) -> bool {
    forall|i: int, j: int| 0 <= i < rows.len() && 0 <= j < rows.len() ==> rows[i].len() == rows[j].len()
}

/// Reads a whole text with a `csv::Reader` that treats no line as a header,
/// and hands out each `StringRecord` as a vector of its fields. Trusted:
/// the outcome depends on the bytes alone, and [`csv_records`] names it.
#[verifier::external_body]
pub(crate) fn read_records(data: &[u8]) -> (r: Result<Vec<Vec<String>>, csv::Error>)
    ensures
        match r {
            Ok(rows) => csv_records(data@) == Some(rows.deep_view()),
            Err(_) => csv_records(data@) is None,
        },
{
    let mut reader = csv::ReaderBuilder::new().has_headers(false).from_reader(data);
    let mut rows: Vec<Vec<String>> = Vec::new();
    for record in reader.records() {
        rows.push(record?.iter().map(String::from).collect());
    }
    Ok(rows)
}

/// Writes each row with `csv::Writer::write_record` into a vector of bytes
/// and returns that vector. Trusted: what the writer hands back is the
/// UTF-8 form of [`written_rows`]. With its default settings the writer
/// separates fields by a comma, ends each record with a line feed, puts a
/// field in quotes only where it holds a comma, a quote, a carriage return
/// or a line feed, doubles the quotes inside such a field, and writes a
/// pair of quotes for a record that would otherwise be an empty line. It
/// fails only on a record that has not as many fields as the first, or
/// where its destination fails, and a vector of bytes takes all that is
/// written to it.
#[verifier::external_body]
pub(crate) fn write_records(rows: &Vec<Vec<String>>) -> (r: Result<Vec<u8>, csv::Error>)
    ensures
        same_widths(rows.deep_view()) ==> r is Ok,
        r is Ok ==> r.unwrap()@ == encode_utf8(written_rows(rows.deep_view())),
{
    let mut writer = csv::Writer::from_writer(Vec::new());
    for row in rows.iter() {
        writer.write_record(row)?;
    }
    writer.into_inner().map_err(|e| csv::Error::from(e.into_error()))
}

} // verus!
