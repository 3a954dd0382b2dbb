//! Reading the header row of a CSV file and judging the file by it.

use crate::classify::{determine_file_type, file_type_of, FileType};
use vstd::prelude::*;

verus! {

/// The error type of the `csv` crate, carried through unopened.
#[verifier::external_type_specification]
#[verifier::external_body]
pub struct ExCsvError(csv::Error);

/// The header row that the `csv` crate, as it is set up by default, reads from a
/// file with these bytes: the fields of the first record. `None` where the crate
/// reports an error instead.
pub uninterp spec fn csv_header_row(data: Seq<u8>) -> Option<Seq<Seq<char>>>;

/// What a parsed header row says in the terms of `csv_header_row`.
pub open spec fn row_read(row: Result<Vec<String>, csv::Error>) -> Option<Seq<Seq<char>>> {
    match row {
        Ok(names) => Some(names.deep_view()),
        Err(_) => None,
    }
}

/// `csv::Reader::from_reader` over the bytes, then `csv::Reader::headers`, are
/// taken on trust: what they give depends on the bytes alone. The fields of the
/// record come back one `String` each, in their order.
#[verifier::external_body]
fn parse_header_row(data: &[u8]) -> (row: Result<Vec<String>, csv::Error>)
    ensures
        row_read(row) == csv_header_row(data@),
{
    let mut reader = csv::Reader::from_reader(data);
    let record = reader.headers()?;
    Ok(record.iter().map(|name| name.to_string()).collect())
}

/// Why a file could not be judged.
#[derive(Clone, Copy, Debug, PartialEq, Eq, Structural)]
pub enum HeaderError {
    /// No header row could be read from the file.
    Unreadable,
}

/// Reads the header row from the bytes of a CSV file.
pub fn read_headers(data: &[u8]) -> (headers: Result<Vec<String>, HeaderError>)
    ensures
        match headers {
            Ok(names) => csv_header_row(data@) == Some(names.deep_view()),
            Err(error) => csv_header_row(data@) is None && error == HeaderError::Unreadable,
        },
{
    match parse_header_row(data) {
        Ok(names) => Ok(names),
        Err(_) => Err(HeaderError::Unreadable),
    }
}

/// What is known of a CSV file once its header row was asked for.
#[derive(Clone, Copy, Debug, PartialEq, Eq, Structural)]
pub enum Verdict {
    /// No header row could be read.
    Unreadable,
    /// The header row names no column that marks a known kind of file.
    Unknown,
    /// The header row marks the file as one of this kind.
    Known(FileType),
}

/// The verdict on a file whose header row was read, or could not be.
pub open spec fn verdict_on(row: Option<Seq<Seq<char>>>) -> Verdict {
    match row {
        None => Verdict::Unreadable,
        Some(headers) => match file_type_of(headers) {
            None => Verdict::Unknown,
            Some(category) => Verdict::Known(category),
        },
    }
}

/// The verdict on a file with these bytes.
pub open spec fn verdict_of(data: Seq<u8>) -> Verdict {
    verdict_on(csv_header_row(data))
}

/// Judges a file whose header row was read, or could not be.
pub fn judge(headers: Result<Vec<String>, HeaderError>) -> (verdict: Verdict)
    ensures
        verdict == verdict_on(
            match headers {
                Ok(names) => Some(names.deep_view()),
                Err(_) => None,
            },
        ),
{
    match headers {
        Err(_) => Verdict::Unreadable,
        Ok(names) => match determine_file_type(&names) {
            None => Verdict::Unknown,
            Some(category) => Verdict::Known(category),
        },
    }
}

/// Judges a file by its bytes.
pub fn inspect(data: &[u8]) -> (verdict: Verdict)
    ensures
        verdict == verdict_of(data@),
{
    judge(read_headers(data))
}

} // verus!
