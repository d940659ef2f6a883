use vstd::prelude::*;
use vstd::utf8::encode_utf8;
use crate::error::ConvertError;
use crate::index::texts;

verus! {

/// A field has to be quoted where it holds the delimiter, the quote or a line break.
pub open spec fn needs_quotes(f: Seq<char>) -> bool {
    exists|i: int| 0 <= i < f.len() && (#[trigger] f[i] == ',' || f[i] == '"' || f[i] == '\r' || f[i] == '\n')
}

/// A field with each quote doubled.
pub open spec fn quotes_doubled(f: Seq<char>) -> Seq<char>
    decreases f.len(),
{
    if f.len() == 0 {
        Seq::empty()
    } else {
        quotes_doubled(f.drop_last()) + (if f.last() == '"' { seq!['"', '"'] } else { seq![f.last()] })
    }
}

/// One field as written in a record.
pub open spec fn csv_field(f: Seq<char>) -> Seq<char> {
    if needs_quotes(f) {
        seq!['"'] + quotes_doubled(f) + seq!['"']
    } else {
        f
    }
}

/// The fields of a record, separated by commas.
pub open spec fn csv_fields(fs: Seq<Seq<char>>) -> Seq<char>
    decreases fs.len(),
{
    if fs.len() == 0 {
        Seq::empty()
    } else if fs.len() == 1 {
        csv_field(fs[0])
    } else {
        csv_fields(fs.drop_last()) + seq![','] + csv_field(fs.last())
    }
}

/// One CSV record with a line break after it; a record that would be empty is
/// written as an empty quoted field, so that it still reads back as a record.
pub open spec fn csv_line(fs: Seq<Seq<char>>) -> Seq<char> {
    (if csv_fields(fs).len() == 0 { seq!['"', '"'] } else { csv_fields(fs) }) + seq!['\n']
}

/// Relies on csv's `Writer::write_record` into an in-memory buffer with the
/// default settings (comma, double quote with doubling, quoting only where
/// needed, `\n` terminator), then `Writer::into_inner` for the bytes written.
/// A fresh writer takes any field count for its first record, and writing into
/// a `Vec` cannot fail, so the call succeeds.
#[verifier::external_body]
fn write_csv_record(row: &Vec<String>) -> (r: Result<Vec<u8>, String>)
    ensures
        r is Ok,
        r matches Ok(b) ==> b@ == encode_utf8(csv_line(texts(row@))),
{
    let mut wtr = csv::Writer::from_writer(Vec::new());
    wtr.write_record(row).map_err(|e| e.to_string())?;
    wtr.into_inner().map_err(|e| e.to_string())
}

/// Serializes one row as a CSV record, terminator included.
pub fn encode_record(row: &Vec<String>) -> (r: Result<Vec<u8>, ConvertError>)
    ensures
        r is Ok,
        r matches Ok(b) ==> b@ == encode_utf8(csv_line(texts(row@))),
{
    match write_csv_record(row) {
        Ok(b) => Ok(b),
        Err(m) => Err(ConvertError::Io(m)),
    }
}

} // verus!
