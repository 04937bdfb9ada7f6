//! The run log: one CSV row per run, under a header written once.

use vstd::prelude::*;
use crate::decimal::{decimal_string, decimal_text};
use crate::timestamp::Timestamp;

verus! {

/// The text of each string of `fields`, in order.
pub open spec fn texts(fields: Seq<String>) -> Seq<Seq<char>> {
    Seq::new(fields.len(), |i: int| fields[i]@)
}

/// A `csv::Writer` with the default settings that writes into a vector of
/// its own.
#[verifier::external_body]
pub struct RecordWriter {
    inner: csv::Writer<Vec<u8>>,
}

#[verifier::external_type_specification]
#[verifier::external_body]
pub struct ExCsvError(csv::Error);

/// Every byte that the writer has been given so far, whether it still
/// buffers them or has passed them on.
pub uninterp spec fn written_bytes(writer: RecordWriter) -> Seq<u8>;

/// The number of fields of the first record that the writer took, which it
/// holds every later record to.
pub uninterp spec fn first_width(writer: RecordWriter) -> Option<nat>;

/// The number of fields that the writer holds of a record that it has not
/// closed: zero but after it refused a record.
pub uninterp spec fn pending_fields(writer: RecordWriter) -> nat;

/// The bytes that a writer with the default settings produces for one record
/// of the given fields: the fields quoted where needed, separated by commas
/// and closed by the record terminator.
pub uninterp spec fn csv_record(fields: Seq<Seq<char>>) -> Seq<u8>;

/// `csv::Writer::from_writer` on an empty vector.
///
/// Trusted: the new writer has taken no byte, no record and no field.
#[verifier::external_body]
fn new_writer() -> (writer: RecordWriter)
    ensures
        written_bytes(writer) == Seq::<u8>::empty(),
        first_width(writer) is None,
        pending_fields(writer) == 0,
{
    RecordWriter { inner: csv::Writer::from_writer(Vec::new()) }
}

/// `csv::Writer::write_record`.
///
/// Trusted, for a writer that holds no field of an unclosed record: on a
/// vector the call fails only where the record's width differs from that of
/// the first record; where it succeeds, the writer has taken exactly the
/// bytes of this record after those it had, and has closed the record.
/// Nothing is claimed of a writer after it refused a record.
#[verifier::external_body]
fn write_record(writer: &mut RecordWriter, fields: &Vec<String>) -> (r: Result<
    (),
    csv::Error,
>)
    requires
        pending_fields(*old(writer)) == 0,
    ensures
        r is Ok ==> pending_fields(*final(writer)) == 0,
        r is Ok <==> (first_width(*old(writer)) matches Some(width) ==> width == fields@.len()),
        r is Ok ==> written_bytes(*final(writer)) == written_bytes(*old(writer)) + csv_record(
            texts(fields@),
        ),
        r is Ok ==> first_width(*final(writer)) == Some(fields@.len()),
{
    writer.inner.write_record(fields)
}

/// `csv::Writer::into_inner`.
///
/// Trusted: flushing into a vector cannot fail, and the vector then holds
/// every byte that the writer took.
#[verifier::external_body]
fn into_bytes(writer: RecordWriter) -> (r: Option<Vec<u8>>)
    ensures
        r is Some,
        r matches Some(bytes) ==> bytes@ == written_bytes(writer),
{
    writer.inner.into_inner().ok()
}

/// Why a record could not be turned into bytes.
#[derive(Clone, Copy, Debug, PartialEq, Eq, Structural)]
pub enum AppendError {
    /// The writer refused the record.
    Record,
    /// The writer could not hand out its bytes.
    Flush,
}

/// One completed run.
#[derive(Clone, Debug)]
pub struct RunRecord {
    /// The reading taken just before the application was started.
    pub start: Timestamp,
    /// The reading taken just after it ended.
    pub end: Timestamp,
    /// Who ran it.
    pub username: String,
}

/// The column names, in the order of the fields of every row.
pub open spec fn header_texts() -> Seq<Seq<char>> {
    seq!["startTimestamp"@, "endTimestamp"@, "elapsedMinutes"@, "username"@]
}

/// The column names, in the order of the fields of every row.
pub fn header_fields() -> (r: Vec<String>)
    ensures
        texts(r@) == header_texts(),
{
    let mut fields: Vec<String> = Vec::new();
    fields.push("startTimestamp".to_owned());
    fields.push("endTimestamp".to_owned());
    fields.push("elapsedMinutes".to_owned());
    fields.push("username".to_owned());
    assert(texts(fields@) =~= header_texts());
    fields
}

impl RunRecord {
    /// The four fields of the row: both readings in RFC 3339 form, the whole
    /// minutes between them, and the username as it was entered.
    pub open spec fn spec_fields(self) -> Seq<Seq<char>> {
        seq![
            self.start.spec_rfc3339(),
            self.end.spec_rfc3339(),
            decimal_text(self.start.spec_minutes_until(self.end)),
            self.username@,
        ]
    }

    /// The four fields of the row, in column order.
    pub fn fields(&self) -> (r: Vec<String>)
        ensures
            texts(r@) == self.spec_fields(),
    {
        let mut fields: Vec<String> = Vec::new();
        fields.push(self.start.to_rfc3339());
        fields.push(self.end.to_rfc3339());
        fields.push(decimal_string(self.start.minutes_until(&self.end)));
        fields.push(self.username.clone());
        assert(texts(fields@) =~= self.spec_fields());
        fields
    }
}

/// The bytes to add to the log for one row: the row alone where the log
/// existed, the header and then the row where it did not.
pub open spec fn spec_payload(existed: bool, fields: Seq<Seq<char>>) -> Seq<u8> {
    if existed {
        csv_record(fields)
    } else {
        csv_record(header_texts()) + csv_record(fields)
    }
}

/// The log after one row is appended: `before` is what it held, or `None`
/// where it did not exist.
pub open spec fn spec_append(before: Option<Seq<u8>>, fields: Seq<Seq<char>>) -> Seq<u8> {
    match before {
        Some(bytes) => bytes + spec_payload(true, fields),
        None => spec_payload(false, fields),
    }
}

/// The bytes to append to the log for `record`. `existed` says whether the
/// log was there before it is opened.
pub fn append_payload(existed: bool, record: &RunRecord) -> (r: Result<Vec<u8>, AppendError>)
    ensures
        r matches Ok(bytes) && bytes@ == spec_payload(existed, record.spec_fields()),
{
    let mut writer = new_writer();
    if !existed {
        let header = header_fields();
        assert(texts(header@).len() == 4);
        if write_record(&mut writer, &header).is_err() {
            return Err(AppendError::Record);
        }
    }
    let fields = record.fields();
    assert(texts(fields@).len() == 4 && header_texts().len() == 4);
    if write_record(&mut writer, &fields).is_err() {
        return Err(AppendError::Record);
    }
    match into_bytes(writer) {
        Some(bytes) => {
            assert(bytes@ =~= spec_payload(existed, record.spec_fields()));
            Ok(bytes)
        },
        None => Err(AppendError::Flush),
    }
}

/// The bytes of an optional vector.
pub open spec fn bytes_of(file: Option<Vec<u8>>) -> Option<Seq<u8>> {
    match file {
        Some(bytes) => Some(bytes@),
        None => None,
    }
}

/// The run log after `record` is appended to it. `before` is what the log
/// held, or `None` where it did not exist.
pub fn append_to(before: Option<Vec<u8>>, record: &RunRecord) -> (r: Result<Vec<u8>, AppendError>)
    ensures
        r matches Ok(after) && after@ == spec_append(bytes_of(before), record.spec_fields()),
{
    let mut payload = append_payload(before.is_some(), record)?;
    match before {
        Some(mut bytes) => {
            bytes.append(&mut payload);
            Ok(bytes)
        },
        None => Ok(payload),
    }
}

/// The rows of the given records, one after the other.
pub open spec fn spec_rows(records: Seq<Seq<Seq<char>>>) -> Seq<u8>
    decreases records.len(),
{
    if records.len() == 0 {
        Seq::empty()
    } else {
        spec_rows(records.drop_last()) + csv_record(records.last())
    }
}

/// The run log after the given records are appended to it one by one.
pub open spec fn spec_append_all(before: Option<Seq<u8>>, records: Seq<Seq<Seq<char>>>) -> Option<
    Seq<u8>,
>
    decreases records.len(),
{
    if records.len() == 0 {
        before
    } else {
        Some(spec_append(spec_append_all(before, records.drop_last()), records.last()))
    }
}

/// A run log that did not exist holds, after the first append, the header
/// row and then the row of that record; a second append leaves all of that
/// as it was and adds the row of the second record, and nothing else.
pub proof fn new_log_is_header_then_rows(first: Seq<Seq<char>>, second: Seq<Seq<char>>)
    ensures
        spec_append(None, first) == csv_record(header_texts()) + csv_record(first),
        spec_append(Some(spec_append(None, first)), second) == spec_append(None, first)
            + csv_record(second),
        spec_append(Some(spec_append(None, first)), second) == csv_record(header_texts())
            + csv_record(first) + csv_record(second),
{
}

/// However many records are appended, the header row is written once to a
/// run log that did not exist, before the first row, and never to one that
/// did: a log that existed keeps what it held and gains the rows alone.
pub proof fn header_is_written_at_most_once(before: Option<Seq<u8>>, records: Seq<Seq<Seq<char>>>)
    ensures
        spec_append_all(before, records) == (match before {
            Some(bytes) => Some(bytes + spec_rows(records)),
            None => if records.len() == 0 {
                None
            } else {
                Some(csv_record(header_texts()) + spec_rows(records))
            },
        }),
    decreases records.len(),
{
    if records.len() == 0 {
        if let Some(bytes) = before {
            assert(bytes + spec_rows(records) =~= bytes);
        }
    } else {
        let earlier = records.drop_last();
        header_is_written_at_most_once(before, earlier);
        let row = csv_record(records.last());
        match before {
            Some(bytes) => {
                assert((bytes + spec_rows(earlier)) + row =~= bytes + spec_rows(records));
            },
            None => {
                let header = csv_record(header_texts());
                if earlier.len() == 0 {
                    assert(spec_rows(earlier) =~= Seq::<u8>::empty());
                    assert(header + row =~= header + spec_rows(records));
                } else {
                    assert((header + spec_rows(earlier)) + row =~= header + spec_rows(records));
                }
            },
        }
    }
}

} // verus!
