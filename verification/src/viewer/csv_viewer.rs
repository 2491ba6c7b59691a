//! Delimited tables: the records of a file as numbered rows, streamed or
//! from the leading window of a mapped file, and as a box-drawn table.

use crate::error::{outcome_view, ViewError, ViewErrorModel};
use crate::strategy::{
    select_strategy, strategy_for, ViewStrategy, LARGE_FILE_THRESHOLD, SMALL_FILE_THRESHOLD,
};
use crate::textfmt::{decimal, push_decimal};
use crate::viewer::text::{
    join_first, limit_or_default, lookahead, preview_note, preview_window, push_preview_note,
    push_rule, rule_line, window_len, DEFAULT_PREVIEW_SIZE, MAX_PREVIEW_ITEMS,
};
use crate::viewer::table::{
    column_widths, measure_columns, push_separator, push_table_row, separator, table_row, TableRow,
    TableRowModel,
};
use vstd::prelude::*;
use vstd::string::*;

verus! {

/// The header record that the `csv` crate reads from a content with a
/// delimiter, or its message where the record is not valid UTF-8.
pub uninterp spec fn csv_headers(content: Seq<u8>, delimiter: u8) -> Result<
    Seq<Seq<char>>,
    Seq<char>,
>;

/// The records behind the header that the `csv` crate reads from a content
/// with a delimiter, each with its fields or with the message of its error.
pub uninterp spec fn csv_rows(content: Seq<u8>, delimiter: u8) -> Seq<TableRowModel>;

/// The first `limit` rows, or all of them where there are fewer.
pub open spec fn first_rows(rows: Seq<TableRowModel>, limit: nat) -> Seq<TableRowModel> {
    if rows.len() <= limit {
        rows
    } else {
        rows.take(limit as int)
    }
}

/// Reads the header record with `csv::Reader::headers`, on a reader that
/// `csv::ReaderBuilder` made with headers and the given delimiter.
#[verifier::external_body]
pub(crate) fn read_csv_headers(content: &[u8], delimiter: u8) -> (headers: Result<
    Vec<String>,
    String,
>)
    ensures
        match headers {
            Ok(fields) => csv_headers(content@, delimiter) == Ok::<Seq<Seq<char>>, Seq<char>>(
                fields.deep_view(),
            ),
            Err(message) => csv_headers(content@, delimiter) == Err::<Seq<Seq<char>>, Seq<char>>(
                message@,
            ),
        },
{
    let mut reader = csv::ReaderBuilder::new().has_headers(true).delimiter(delimiter).from_reader(
        content,
    );
    match reader.headers() {
        Ok(record) => Ok(record.iter().map(|field| field.to_string()).collect()),
        Err(error) => Err(error.to_string()),
    }
}

/// Reads the first `limit` records behind the header with
/// `csv::Reader::records`, on a reader that `csv::ReaderBuilder` made with
/// headers and the given delimiter.
#[verifier::external_body]
pub(crate) fn read_csv_rows(content: &[u8], delimiter: u8, limit: usize) -> (rows: Vec<TableRow>)
    ensures
        rows.deep_view() == first_rows(csv_rows(content@, delimiter), limit as nat),
{
    let mut reader = csv::ReaderBuilder::new().has_headers(true).delimiter(delimiter).from_reader(
        content,
    );
    reader.records().take(limit).map(
        |outcome|
            match outcome {
                Ok(record) => TableRow::Record(record.iter().map(|field| field.to_string()).collect()),
                Err(error) => TableRow::Malformed(error.to_string()),
            },
    ).collect()
}

/// The header record of a table: none of a content without a byte, and
/// else what the reader makes of the content.
pub open spec fn headers_of(content: Seq<u8>, delimiter: u8) -> Result<Seq<Seq<char>>, Seq<char>> {
    if content.len() == 0 {
        Ok(Seq::empty())
    } else {
        csv_headers(content, delimiter)
    }
}

/// The records of a table: none of a content without a byte, and else what
/// the reader makes of the content.
pub open spec fn records_of(content: Seq<u8>, delimiter: u8) -> Seq<TableRowModel> {
    if content.len() == 0 {
        Seq::empty()
    } else {
        csv_rows(content, delimiter)
    }
}

/// The header record of a table. A content without a byte has a header
/// record without a field, and the reader is not asked.
pub fn read_headers(content: &[u8], delimiter: u8) -> (headers: Result<Vec<String>, String>)
    ensures
        match headers {
            Ok(fields) => headers_of(content@, delimiter) == Ok::<Seq<Seq<char>>, Seq<char>>(
                fields.deep_view(),
            ),
            Err(message) => headers_of(content@, delimiter) == Err::<Seq<Seq<char>>, Seq<char>>(
                message@,
            ),
        },
        content@.len() == 0 ==> headers is Ok,
{
    if content.len() == 0 {
        let none: Vec<String> = Vec::new();
        proof {
            assert(none.deep_view() =~= Seq::<Seq<char>>::empty());
        }
        Ok(none)
    } else {
        read_csv_headers(content, delimiter)
    }
}

/// The first `limit` records of a table. A content without a byte has no
/// record, and the reader is not asked.
pub fn read_rows(content: &[u8], delimiter: u8, limit: usize) -> (rows: Vec<TableRow>)
    ensures
        rows.deep_view() == first_rows(records_of(content@, delimiter), limit as nat),
{
    if content.len() == 0 {
        let none: Vec<TableRow> = Vec::new();
        proof {
            assert(none.deep_view() =~= Seq::<TableRowModel>::empty());
        }
        none
    } else {
        read_csv_rows(content, delimiter, limit)
    }
}

/// The fields of a record with `sep` between them.
pub open spec fn joined_fields(fields: Seq<Seq<char>>, sep: Seq<char>) -> Seq<char> {
    join_first(fields, fields.len(), sep)
}

/// Appends the fields of a record with `sep` between them.
pub fn push_joined_fields(out: &mut String, fields: &Vec<String>, sep: &str)
    ensures
        final(out)@ == old(out)@ + joined_fields(fields.deep_view(), sep@),
{
    let ghost texts = fields.deep_view();
    let mut i: usize = 0;
    while i < fields.len()
        invariant
            i <= fields@.len(),
            texts == fields.deep_view(),
            out@ == old(out)@ + join_first(texts, i as nat, sep@),
        decreases fields@.len() - i,
    {
        if i > 0 {
            out.append(sep);
        }
        out.append(fields[i].as_str());
        proof {
            assert(texts[i as int] == fields@[i as int]@);
            assert(out@ =~= old(out)@ + join_first(texts, (i + 1) as nat, sep@));
        }
        i += 1;
    }
}

/// The line of a record: its number and its fields between bars.
pub open spec fn row_line(number: nat, fields: Seq<Seq<char>>, sep: Seq<char>) -> Seq<char> {
    "Row "@ + decimal(number) + ": "@ + joined_fields(fields, sep) + seq!['\n']
}

/// The line about a malformed record.
pub open spec fn error_line(number: nat, message: Seq<char>) -> Seq<char> {
    "Error reading row "@ + decimal(number) + ": "@ + message + seq!['\n']
}

/// The line of the header record.
pub open spec fn headers_line(headers: Seq<Seq<char>>) -> Seq<char> {
    "Headers: "@ + joined_fields(headers, " | "@) + "\n\n"@
}

fn push_row_line(out: &mut String, number: usize, fields: &Vec<String>, sep: &str)
    ensures
        final(out)@ == old(out)@ + row_line(number as nat, fields.deep_view(), sep@),
{
    out.append("Row ");
    push_decimal(out, number as u64);
    out.append(": ");
    push_joined_fields(out, fields, sep);
    out.push('\n');
}

fn push_error_line(out: &mut String, number: usize, message: &str)
    ensures
        final(out)@ == old(out)@ + error_line(number as nat, message@),
{
    out.append("Error reading row ");
    push_decimal(out, number as u64);
    out.append(": ");
    out.append(message);
    out.push('\n');
}

/// How a listing of rows ends where it meets a malformed record.
#[derive(Debug, Clone, Copy, PartialEq, Eq, Structural)]
pub enum OnMalformed {
    /// The record is left out and the listing goes on.
    Skip,
    /// The record's error is reported and the listing ends.
    Report,
    /// The listing ends without a word.
    Stop,
}

/// The listing of the rows from index `from` on: a line for each record
/// until `max_rows` rows were passed, then `notice` if a row is left over.
pub open spec fn rows_listing(
    rows: Seq<TableRowModel>,
    from: nat,
    max_rows: nat,
    mode: OnMalformed,
    notice: Seq<char>,
) -> Seq<char>
    decreases rows.len() - from,
{
    if from >= rows.len() {
        Seq::empty()
    } else if from >= max_rows {
        notice
    } else {
        match rows[from as int] {
            TableRowModel::Record(fields) => row_line(from + 1, fields, " | "@) + rows_listing(
                rows,
                from + 1,
                max_rows,
                mode,
                notice,
            ),
            TableRowModel::Malformed(message) => match mode {
                OnMalformed::Skip => rows_listing(rows, from + 1, max_rows, mode, notice),
                OnMalformed::Report => error_line(from + 1, message),
                OnMalformed::Stop => Seq::empty(),
            },
        }
    }
}

/// The header line and the listing of the rows, or nothing where the header
/// record could not be read.
pub open spec fn table_listing(
    headers: Result<Seq<Seq<char>>, Seq<char>>,
    rows: Seq<TableRowModel>,
    max_rows: nat,
    mode: OnMalformed,
    notice: Seq<char>,
) -> Seq<char> {
    match headers {
        Ok(fields) => headers_line(fields) + rows_listing(rows, 0, max_rows, mode, notice),
        Err(_) => Seq::empty(),
    }
}

/// Appends the listing of `rows`, of which one more than `max_rows` were
/// read at most.
fn push_rows_listing(
    out: &mut String,
    rows: &Vec<TableRow>,
    max_rows: usize,
    mode: OnMalformed,
    notice: &str,
)
    ensures
        final(out)@ == old(out)@ + rows_listing(
            rows.deep_view(),
            0,
            max_rows as nat,
            mode,
            notice@,
        ),
{
    let ghost model = rows.deep_view();
    let ghost all = rows_listing(model, 0, max_rows as nat, mode, notice@);
    let mut i: usize = 0;
    while i < rows.len()
        invariant
            i <= rows@.len(),
            model == rows.deep_view(),
            all == rows_listing(model, 0, max_rows as nat, mode, notice@),
            out@ + rows_listing(model, i as nat, max_rows as nat, mode, notice@) == old(out)@
                + all,
        decreases rows@.len() - i,
    {
        proof {
            assert(model[i as int] == rows@[i as int].deep_view());
        }
        let ghost before = out@;
        let ghost rest = rows_listing(model, i as nat, max_rows as nat, mode, notice@);
        if i >= max_rows {
            out.append(notice);
            assert(out@ == before + rest);
            return ;
        }
        match &rows[i] {
            TableRow::Record(fields) => {
                push_row_line(out, i + 1, fields, " | ");
                proof {
                    assert(out@ + rows_listing(model, (i + 1) as nat, max_rows as nat, mode, notice@)
                        =~= before + rows_listing(
                        model,
                        i as nat,
                        max_rows as nat,
                        mode,
                        notice@,
                    ));
                }
            },
            TableRow::Malformed(message) => {
                match mode {
                    OnMalformed::Skip => {},
                    OnMalformed::Report => {
                        push_error_line(out, i + 1, message.as_str());
                        assert(out@ == before + rest);
                        return ;
                    },
                    OnMalformed::Stop => {
                        assert(out@ =~= before + rest);
                        return ;
                    },
                }
            },
        }
        i += 1;
    }
}

/// The notice that rows were left out of a listing.
pub open spec fn rows_notice(max_rows: nat, tail: Seq<char>) -> Seq<char> {
    "\n... (showing first "@ + decimal(max_rows) + tail
}

fn make_rows_notice(max_rows: usize, tail: &str) -> (notice: String)
    ensures
        notice@ == rows_notice(max_rows as nat, tail@),
{
    let mut notice = String::new();
    notice.append("\n... (showing first ");
    push_decimal(&mut notice, max_rows as u64);
    notice.append(tail);
    notice
}

/// The header record and the first rows of a listing under a limit: one row
/// more than the limit, to tell whether rows are left over.
fn read_listing(content: &[u8], delimiter: u8, max_rows: usize) -> (parts: (
    Result<Vec<String>, String>,
    Vec<TableRow>,
))
    ensures
        match parts.0 {
            Ok(fields) => headers_of(content@, delimiter) == Ok::<Seq<Seq<char>>, Seq<char>>(
                fields.deep_view(),
            ),
            Err(message) => headers_of(content@, delimiter) == Err::<Seq<Seq<char>>, Seq<char>>(
                message@,
            ),
        },
        parts.1.deep_view() == listed_rows(content@, delimiter, max_rows as nat),
{
    let headers = read_headers(content, delimiter);
    let rows = read_rows(content, delimiter, lookahead(max_rows));
    (headers, rows)
}

/// The rows that a listing under a limit reads: one more than the limit,
/// as far as the machine can count.
pub open spec fn listed_rows(content: Seq<u8>, delimiter: u8, max_rows: nat) -> Seq<TableRowModel> {
    first_rows(
        records_of(content, delimiter),
        if max_rows < usize::MAX {
            max_rows + 1
        } else {
            max_rows
        },
    )
}

/// Appends the header line and the listing of rows that were read; nothing
/// where the header record could not be read. `mode` says what a malformed
/// record does to the listing, `notice` what is said where rows are left
/// over after `max_rows`.
pub fn push_table_listing(
    out: &mut String,
    headers: &Result<Vec<String>, String>,
    rows: &Vec<TableRow>,
    max_rows: usize,
    mode: OnMalformed,
    notice: &str,
)
    ensures
        final(out)@ == old(out)@ + table_listing(
            match headers {
                Ok(fields) => Ok(fields.deep_view()),
                Err(message) => Err(message@),
            },
            rows.deep_view(),
            max_rows as nat,
            mode,
            notice@,
        ),
{
    match headers {
        Ok(fields) => {
            out.append("Headers: ");
            push_joined_fields(out, fields, " | ");
            out.append("\n\n");
            push_rows_listing(out, rows, max_rows, mode, notice);
        },
        Err(_) => {},
    }
}

/// The listing of a table that was loaded whole: the header line, a line
/// for each well-formed record among the first `max_rows`, and a notice where
/// records are left over. Nothing where the header record cannot be read.
pub open spec fn csv_full_load(content: Seq<u8>, delimiter: u8, max_rows: nat) -> Seq<char> {
    table_listing(
        headers_of(content, delimiter),
        listed_rows(content, delimiter, max_rows),
        max_rows,
        OnMalformed::Skip,
        rows_notice(max_rows, " rows)\n"@),
    )
}

/// Views a table that was loaded whole.
pub fn view_csv_full_load(content: &[u8], delimiter: u8, max_rows: usize) -> (out: String)
    ensures
        out@ == csv_full_load(content@, delimiter, max_rows as nat),
{
    let (headers, rows) = read_listing(content, delimiter, max_rows);
    let notice = make_rows_notice(max_rows, " rows)\n");
    let mut out = String::new();
    push_table_listing(&mut out, &headers, &rows, max_rows, OnMalformed::Skip, notice.as_str());
    out
}

/// The listing of a streamed table: a banner, the header line, a line for
/// each record up to the first malformed one, whose error ends the listing,
/// and a notice where records are left over after `max_rows`.
pub open spec fn csv_streaming(
    path: Seq<char>,
    content: Seq<u8>,
    delimiter: u8,
    max_rows: nat,
) -> Seq<char> {
    "📊 CSV File: "@ + path + " (Streaming)\n"@ + rule_line(60) + table_listing(
        headers_of(content, delimiter),
        listed_rows(content, delimiter, max_rows),
        max_rows,
        OnMalformed::Report,
        rows_notice(max_rows, " rows of large file)\n"@),
    )
}

/// Views a table as a stream of records.
pub fn view_csv_streaming(path: &str, content: &[u8], delimiter: u8, max_rows: usize) -> (out:
    String)
    ensures
        out@ == csv_streaming(path@, content@, delimiter, max_rows as nat),
{
    let (headers, rows) = read_listing(content, delimiter, max_rows);
    let notice = make_rows_notice(max_rows, " rows of large file)\n");
    let mut out = String::new();
    out.append("📊 CSV File: ");
    out.append(path);
    out.append(" (Streaming)\n");
    push_rule(&mut out, 60);
    push_table_listing(&mut out, &headers, &rows, max_rows, OnMalformed::Report, notice.as_str());
    out
}

/// The listing of a mapped table: a banner with the file's size, the header
/// line and the records of the leading window up to the first malformed
/// one, which is dropped as a likely cut, a notice where records of the
/// window are left over, and a note where the file is larger than the window.
pub open spec fn csv_memory_mapped(
    path: Seq<char>,
    content: Seq<u8>,
    delimiter: u8,
    preview_size: nat,
    max_rows: nat,
) -> Seq<char> {
    let window = window_len(content.len(), preview_size);
    let preview = content.take(window as int);
    "📊 CSV File: "@ + path + " ("@ + decimal(content.len()) + " bytes, Memory-Mapped)\n"@
        + rule_line(60) + table_listing(
        headers_of(preview, delimiter),
        listed_rows(preview, delimiter, max_rows),
        max_rows,
        OnMalformed::Stop,
        rows_notice(max_rows, " rows from preview)\n"@),
    ) + preview_note(window, content.len())
}

/// Views the leading window of a mapped table.
pub fn view_csv_memory_mapped(
    path: &str,
    content: &[u8],
    delimiter: u8,
    preview_size: usize,
    max_rows: usize,
) -> (out: String)
    ensures
        out@ == csv_memory_mapped(
            path@,
            content@,
            delimiter,
            preview_size as nat,
            max_rows as nat,
        ),
{
    let preview = preview_window(content, preview_size);
    let (headers, rows) = read_listing(preview, delimiter, max_rows);
    let notice = make_rows_notice(max_rows, " rows from preview)\n");
    let mut out = String::new();
    out.append("📊 CSV File: ");
    out.append(path);
    out.append(" (");
    push_decimal(&mut out, content.len() as u64);
    out.append(" bytes, Memory-Mapped)\n");
    push_rule(&mut out, 60);
    push_table_listing(&mut out, &headers, &rows, max_rows, OnMalformed::Stop, notice.as_str());
    push_preview_note(&mut out, preview.len(), content.len());
    out
}

/// The view of a table by the strategy that its size calls for.
pub open spec fn large_csv(
    path: Seq<char>,
    content: Seq<u8>,
    delimiter: u8,
    max_rows: Option<usize>,
) -> Seq<char> {
    let max = limit_or_default(max_rows);
    match strategy_for(content.len() as u64, SMALL_FILE_THRESHOLD, LARGE_FILE_THRESHOLD) {
        ViewStrategy::FullLoad => csv_full_load(content, delimiter, max),
        ViewStrategy::Streaming => csv_streaming(path, content, delimiter, max),
        ViewStrategy::MemoryMapped => csv_memory_mapped(
            path,
            content,
            delimiter,
            DEFAULT_PREVIEW_SIZE as nat,
            max,
        ),
    }
}

/// Views a table by the strategy that its size calls for, with a limit of a
/// hundred rows where none is given.
pub fn view_large_csv(path: &str, content: &[u8], delimiter: u8, max_rows: Option<usize>) -> (out:
    String)
    ensures
        out@ == large_csv(path@, content@, delimiter, max_rows),
{
    let max: usize = match max_rows {
        Some(n) => n,
        None => MAX_PREVIEW_ITEMS,
    };
    match select_strategy(content.len() as u64) {
        ViewStrategy::FullLoad => view_csv_full_load(content, delimiter, max),
        ViewStrategy::Streaming => view_csv_streaming(path, content, delimiter, max),
        ViewStrategy::MemoryMapped => view_csv_memory_mapped(
            path,
            content,
            delimiter,
            DEFAULT_PREVIEW_SIZE,
            max,
        ),
    }
}

/// Width beyond which a field does not widen its column.
pub const MAX_FIELD_WIDTH: usize = 30;

/// The lines about the malformed records among the first `count` rows.
pub open spec fn error_lines(rows: Seq<TableRowModel>, count: nat) -> Seq<char>
    decreases count,
{
    if count == 0 || count > rows.len() {
        Seq::empty()
    } else {
        error_lines(rows, (count - 1) as nat) + match rows[count - 1] {
            TableRowModel::Malformed(message) => error_line(count, message),
            TableRowModel::Record(_) => Seq::empty(),
        }
    }
}

/// The table rows of the records among the first `count` rows.
pub open spec fn record_rows(rows: Seq<TableRowModel>, widths: Seq<usize>, count: nat) -> Seq<char>
    decreases count,
{
    if count == 0 || count > rows.len() {
        Seq::empty()
    } else {
        record_rows(rows, widths, (count - 1) as nat) + match rows[count - 1] {
            TableRowModel::Record(fields) => table_row(fields, widths),
            TableRowModel::Malformed(_) => Seq::empty(),
        }
    }
}

/// Number of records among the first `count` rows.
pub open spec fn record_count(rows: Seq<TableRowModel>, count: nat) -> nat
    decreases count,
{
    if count == 0 || count > rows.len() {
        0
    } else {
        record_count(rows, (count - 1) as nat) + match rows[count - 1] {
            TableRowModel::Record(_) => 1nat,
            TableRowModel::Malformed(_) => 0nat,
        }
    }
}

/// The summary under a table.
pub open spec fn table_summary(columns: nat, shown: nat, max_rows: Option<usize>) -> Seq<char> {
    "\n📈 Summary: "@ + decimal(columns) + " columns, "@ + decimal(shown) + " rows shown"@ + (
    match max_rows {
        Some(max) if shown >= max => " (limited to "@ + decimal(max as nat) + " rows)"@,
        _ => Seq::empty(),
    }) + seq!['\n']
}

/// The table of a header record and of rows: a banner, a line for each
/// malformed record, the header row, the line under it, a row for each
/// well-formed record, and a summary.
pub open spec fn csv_table(
    path: Seq<char>,
    headers: Seq<Seq<char>>,
    rows: Seq<TableRowModel>,
    max_rows: Option<usize>,
) -> Seq<char> {
    let widths = column_widths(headers, rows, MAX_FIELD_WIDTH);
    "📊 CSV File: "@ + path + seq!['\n'] + rule_line(80) + error_lines(rows, rows.len())
        + table_row(headers, widths) + separator(widths) + record_rows(rows, widths, rows.len())
        + table_summary(headers.len(), record_count(rows, rows.len()), max_rows)
}

/// Renders a header record and rows as a table. `rows` holds what the
/// reader made of each record that was read; with a limit, the caller read
/// no more records than it allows.
pub fn render_csv_table(
    path: &str,
    headers: &Vec<String>,
    rows: &Vec<TableRow>,
    max_rows: Option<usize>,
) -> (out: String)
    ensures
        out@ == csv_table(path@, headers.deep_view(), rows.deep_view(), max_rows),
{
    let ghost heads = headers.deep_view();
    let ghost model = rows.deep_view();
    let widths = measure_columns(headers, rows, MAX_FIELD_WIDTH);
    let mut out = String::new();
    out.append("📊 CSV File: ");
    out.append(path);
    out.push('\n');
    push_rule(&mut out, 80);
    let ghost head = out@;
    let mut i: usize = 0;
    while i < rows.len()
        invariant
            i <= rows@.len(),
            model == rows.deep_view(),
            out@ == head + error_lines(model, i as nat),
        decreases rows@.len() - i,
    {
        proof {
            assert(model[i as int] == rows@[i as int].deep_view());
        }
        match &rows[i] {
            TableRow::Malformed(message) => {
                push_error_line(&mut out, i + 1, message.as_str());
            },
            TableRow::Record(_) => {},
        }
        i += 1;
    }
    push_table_row(&mut out, headers, &widths);
    push_separator(&mut out, &widths);
    let ghost head = out@;
    let mut shown: usize = 0;
    let mut i: usize = 0;
    while i < rows.len()
        invariant
            i <= rows@.len(),
            model == rows.deep_view(),
            shown == record_count(model, i as nat),
            shown <= i,
            out@ == head + record_rows(model, widths@, i as nat),
        decreases rows@.len() - i,
    {
        proof {
            assert(model[i as int] == rows@[i as int].deep_view());
        }
        match &rows[i] {
            TableRow::Record(fields) => {
                push_table_row(&mut out, fields, &widths);
                shown += 1;
            },
            TableRow::Malformed(_) => {},
        }
        i += 1;
    }
    out.append("\n📈 Summary: ");
    push_decimal(&mut out, headers.len() as u64);
    out.append(" columns, ");
    push_decimal(&mut out, shown as u64);
    out.append(" rows shown");
    match max_rows {
        Some(max) => {
            if shown >= max {
                out.append(" (limited to ");
                push_decimal(&mut out, max as u64);
                out.append(" rows)");
            }
        },
        None => {},
    }
    out.push('\n');
    proof {
        assert(out@ =~= csv_table(path@, heads, model, max_rows));
    }
    out
}

/// The rows that a table under an optional limit reads.
pub open spec fn table_rows(content: Seq<u8>, delimiter: u8, max_rows: Option<usize>) -> Seq<
    TableRowModel,
> {
    match max_rows {
        Some(max) => first_rows(records_of(content, delimiter), max as nat),
        None => first_rows(records_of(content, delimiter), usize::MAX as nat),
    }
}

/// The view of a delimited file as a table, or the reader's message where
/// the header record cannot be read.
pub open spec fn csv_file(
    path: Seq<char>,
    content: Seq<u8>,
    max_rows: Option<usize>,
    delimiter: u8,
) -> Result<Seq<char>, ViewErrorModel> {
    match headers_of(content, delimiter) {
        Ok(headers) => Ok(
            csv_table(path, headers, table_rows(content, delimiter, max_rows), max_rows),
        ),
        Err(message) => Err(ViewErrorModel::Parse(message)),
    }
}

/// Views a delimited file as a table of its first `max_rows` records, or
/// of all of them where no limit is given. A file without a byte is a table
/// without a column. A malformed record is reported in a line of its own;
/// only a header record that cannot be read fails the view.
pub fn view_csv_file(path: &str, content: &[u8], max_rows: Option<usize>, delimiter: char) -> (out:
    Result<String, ViewError>)
    ensures
        outcome_view(out) == csv_file(path@, content@, max_rows, delimiter as u8),
        content@.len() == 0 ==> outcome_view(out) == Ok::<Seq<char>, ViewErrorModel>(
            csv_table(path@, Seq::empty(), Seq::empty(), max_rows),
        ),
{
    let delimiter = delimiter as u8;
    match read_headers(content, delimiter) {
        Ok(headers) => {
            let limit: usize = match max_rows {
                Some(max) => max,
                None => usize::MAX,
            };
            let rows = read_rows(content, delimiter, limit);
            Ok(render_csv_table(path, &headers, &rows, max_rows))
        },
        Err(message) => Err(ViewError::Parse(message)),
    }
}

/// The short listing of a delimited text: the header line and a line for
/// each well-formed record among the first five.
pub open spec fn csv_content(content: Seq<u8>, delimiter: u8) -> Seq<char> {
    match headers_of(content, delimiter) {
        Ok(headers) => "Headers: "@ + joined_fields(headers, ", "@) + seq!['\n'] + short_rows(
            first_rows(records_of(content, delimiter), 5),
            0,
        ),
        Err(_) => Seq::empty(),
    }
}

/// A line for each well-formed record from index `from` on.
pub open spec fn short_rows(rows: Seq<TableRowModel>, from: nat) -> Seq<char>
    decreases rows.len() - from,
{
    if from >= rows.len() {
        Seq::empty()
    } else {
        (match rows[from as int] {
            TableRowModel::Record(fields) => row_line(from + 1, fields, ", "@),
            TableRowModel::Malformed(_) => Seq::empty(),
        }) + short_rows(rows, from + 1)
    }
}

/// Lists the header record and the first five records of a delimited text.
pub fn parse_csv_content(content: &str, delimiter: char) -> (out: String)
    ensures
        out@ == csv_content(content.spec_bytes(), delimiter as u8),
{
    let bytes = content.as_bytes();
    let mut out = String::new();
    match read_headers(bytes, delimiter as u8) {
        Ok(headers) => {
            out.append("Headers: ");
            push_joined_fields(&mut out, &headers, ", ");
            out.push('\n');
            let rows = read_rows(bytes, delimiter as u8, 5);
            let ghost model = rows.deep_view();
            let ghost head = out@;
            let ghost all = short_rows(model, 0);
            let mut i: usize = 0;
            while i < rows.len()
                invariant
                    i <= rows@.len(),
                    model == rows.deep_view(),
                    out@ + short_rows(model, i as nat) == head + all,
                decreases rows@.len() - i,
            {
                let ghost before = out@;
                proof {
                    assert(model[i as int] == rows@[i as int].deep_view());
                }
                match &rows[i] {
                    TableRow::Record(fields) => {
                        push_row_line(&mut out, i + 1, fields, ", ");
                    },
                    TableRow::Malformed(_) => {},
                }
                proof {
                    assert(out@ + short_rows(model, (i + 1) as nat) =~= before + short_rows(
                        model,
                        i as nat,
                    ));
                }
                i += 1;
            }
            proof {
                assert(out@ =~= head + all);
            }
        },
        Err(_) => {},
    }
    out
}

} // verus!
