//! Pattern tables: ordered rows of string cells read from comma-delimited
//! text whose first line is a header.
use vstd::prelude::*;

verus! {

/// One data record of the delimited text as the reader sees it: the cells
/// of a well-formed row, or nothing for a row the reader refused.
pub type RecordView = Option<Seq<Seq<char>>>;

/// The data records (header excluded) that csv's reader yields for `text`,
/// in file order.
pub uninterp spec fn csv_records(text: Seq<char>) -> Seq<RecordView>;

/// Relies on csv::Reader::records over the text's bytes: one entry per data
/// record after the header, a refused record mapped to `None`, each accepted
/// record's fields in column order.
#[verifier::external_body]
fn read_records(text: &str) -> (r: Vec<Option<Vec<String>>>)
    ensures
        r.deep_view() == csv_records(text@),
{
    csv::Reader::from_reader(text.as_bytes())
        .records()
        .map(|rec| rec.ok().map(|fields| fields.iter().map(|f| f.to_string()).collect()))
        .collect()
}

/// The well-formed rows among `records`, in their original order.
pub open spec fn valid_rows(records: Seq<RecordView>) -> Seq<Seq<Seq<char>>>
    decreases records.len(),
{
    if records.len() == 0 {
        seq![]
    } else {
        let kept = valid_rows(records.drop_last());
        match records.last() {
            Some(row) => kept.push(row),
            None => kept,
        }
    }
}

/// Drops the refused records and keeps every well-formed row, in order.
pub fn keep_valid_rows(records: &Vec<Option<Vec<String>>>) -> (r: Vec<Vec<String>>)
    ensures
        r.deep_view() == valid_rows(records.deep_view()),
{
    let mut out: Vec<Vec<String>> = Vec::new();
    let mut i: usize = 0;
    while i < records.len()
        invariant
            i <= records.len(),
            out.deep_view() == valid_rows(records.deep_view().take(i as int)),
        decreases records.len() - i,
    {
        proof {
            assert(records.deep_view().take(i + 1).drop_last() =~= records.deep_view().take(
                i as int,
            ));
        }
        match &records[i] {
            Some(row) => {
                let copy = row.clone();
                proof {
                    assert(copy.deep_view() =~= row.deep_view());
                }
                out.push(copy);
                assert(out.deep_view() =~= valid_rows(records.deep_view().take(i + 1)));
            },
            None => {
                assert(out.deep_view() =~= valid_rows(records.deep_view().take(i + 1)));
            },
        }
        i = i + 1;
    }
    assert(records.deep_view().take(records.len() as int) =~= records.deep_view());
    out
}

/// What the caller could read from a pattern file.
pub enum PatternSource {
    /// The file could not be opened.
    Missing,
    /// The file opened but reading it failed.
    Unreadable,
    /// The file's bytes.
    Contents(Vec<u8>),
}

/// A pattern file that the configuration cannot do without is absent.
#[derive(Clone, Debug, PartialEq, Eq)]
pub enum PatternLoadError {
    /// Names the file that could not be opened.
    FileNotFound(String),
}

/// The text that the bytes `b` hold as UTF-8, if they are valid UTF-8.
pub uninterp spec fn utf8_text(b: Seq<u8>) -> Option<Seq<char>>;

/// Relies on String::from_utf8: the bytes as text when they are valid UTF-8.
#[verifier::external_body]
fn decode_utf8(bytes: Vec<u8>) -> (r: Option<String>)
    ensures
        r.deep_view() == utf8_text(bytes@),
{
    String::from_utf8(bytes).ok()
}

/// The table that a readable file with bytes `b` yields: the well-formed
/// data rows of its text, or no rows when the bytes are not text.
pub open spec fn table_of_bytes(b: Seq<u8>) -> Seq<Seq<Seq<char>>> {
    match utf8_text(b) {
        Some(text) => valid_rows(csv_records(text)),
        None => seq![],
    }
}

/// The table that a file which was found yields from what was read of it.
pub open spec fn table_of_source(source: PatternSource) -> Seq<Seq<Seq<char>>> {
    match source {
        PatternSource::Contents(b) => table_of_bytes(b@),
        _ => seq![],
    }
}

/// Parses the text of a pattern file: the header is consumed, each
/// well-formed data row becomes one table row, malformed rows are skipped.
pub fn table_from_text(text: &str) -> (r: Vec<Vec<String>>)
    ensures
        r.deep_view() == valid_rows(csv_records(text@)),
{
    let records = read_records(text);
    keep_valid_rows(&records)
}

/// Builds a pattern table from what was read of the file at `path`.
/// A file that could not be opened is fatal; a file that could not be read,
/// or whose bytes are not text, gives an empty table.
pub fn load_pattern_table(path: &str, source: PatternSource) -> (r: Result<
    Vec<Vec<String>>,
    PatternLoadError,
>)
    ensures
        (r is Err) <==> (source is Missing),
        r matches Err(PatternLoadError::FileNotFound(p)) ==> p@ == path@,
        source is Unreadable ==> (r matches Ok(t) && t@.len() == 0),
        source matches PatternSource::Contents(b) ==> (r matches Ok(t) && t.deep_view()
            == table_of_bytes(b@)),
        r matches Ok(t) ==> t.deep_view() == table_of_source(source),
{
    match source {
        PatternSource::Missing => Err(PatternLoadError::FileNotFound(path.to_string())),
        PatternSource::Unreadable => Ok(Vec::new()),
        PatternSource::Contents(bytes) => {
            match decode_utf8(bytes) {
                Some(text) => Ok(table_from_text(text.as_str())),
                None => Ok(Vec::new()),
            }
        },
    }
}

/// Splitting the records anywhere splits the table the same way: rows keep
/// their relative order.
pub proof fn lemma_valid_rows_append(a: Seq<RecordView>, b: Seq<RecordView>)
    ensures
        valid_rows(a + b) == valid_rows(a) + valid_rows(b),
    decreases b.len(),
{
    if b.len() == 0 {
        assert(a + b =~= a);
        assert(valid_rows(a) + valid_rows(b) =~= valid_rows(a));
    } else {
        lemma_valid_rows_append(a, b.drop_last());
        assert((a + b).drop_last() =~= a + b.drop_last());
        assert((a + b).last() == b.last());
        match b.last() {
            Some(row) => {
                assert(valid_rows(a) + valid_rows(b) =~= (valid_rows(a) + valid_rows(
                    b.drop_last(),
                )).push(row));
            },
            None => {},
        }
    }
}

/// When every record is well-formed, the table has exactly one row per
/// record, each with the record's cells in column order.
pub proof fn lemma_all_valid_rows_kept(records: Seq<RecordView>)
    requires
        forall|i: int| 0 <= i < records.len() ==> (#[trigger] records[i]) is Some,
    ensures
        valid_rows(records).len() == records.len(),
        forall|i: int| 0 <= i < records.len() ==> valid_rows(records)[i] == records[i]->Some_0,
    decreases records.len(),
{
    if records.len() > 0 {
        let rest = records.drop_last();
        assert forall|i: int| 0 <= i < rest.len() implies (#[trigger] rest[i]) is Some by {
            assert(rest[i] == records[i]);
        }
        lemma_all_valid_rows_kept(rest);
        assert(records.last() == records[records.len() - 1]);
    }
}

/// A file of valid text whose data rows are all well-formed loads as exactly
/// those rows, in file order, with their cells in column order.
pub proof fn law_well_formed_file_loads_every_row(b: Seq<u8>)
    requires
        utf8_text(b) is Some,
        forall|i: int|
            0 <= i < csv_records(utf8_text(b)->Some_0).len() ==> (#[trigger] csv_records(
                utf8_text(b)->Some_0,
            )[i]) is Some,
    ensures
        table_of_bytes(b).len() == csv_records(utf8_text(b)->Some_0).len(),
        forall|i: int|
            0 <= i < table_of_bytes(b).len() ==> table_of_bytes(b)[i] == csv_records(
                utf8_text(b)->Some_0,
            )[i]->Some_0,
{
    lemma_all_valid_rows_kept(csv_records(utf8_text(b)->Some_0));
}

/// A malformed row is left out of the table, and the rows around it stay,
/// in their order: the table is that of the records without it.
pub proof fn law_malformed_row_dropped(b: Seq<u8>, k: int)
    requires
        utf8_text(b) is Some,
        0 <= k < csv_records(utf8_text(b)->Some_0).len(),
        csv_records(utf8_text(b)->Some_0)[k] is None,
    ensures
        table_of_bytes(b) == valid_rows(csv_records(utf8_text(b)->Some_0).remove(k)),
        table_of_bytes(b) == valid_rows(csv_records(utf8_text(b)->Some_0).take(k)) + valid_rows(
            csv_records(utf8_text(b)->Some_0).skip(k + 1),
        ),
{
    let records = csv_records(utf8_text(b)->Some_0);
    let front = records.take(k);
    let back = records.skip(k + 1);
    let upto = records.take(k + 1);
    assert(upto.drop_last() =~= front);
    assert(records =~= upto + back);
    assert(records.remove(k) =~= front + back);
    lemma_valid_rows_append(upto, back);
    lemma_valid_rows_append(front, back);
}

/// Bytes that are not text load as an empty table, with no error.
pub proof fn law_undecodable_file_is_empty(b: Seq<u8>)
    requires
        utf8_text(b) is None,
    ensures
        table_of_bytes(b).len() == 0,
{
}

} // verus!
