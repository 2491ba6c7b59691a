//! Box-drawn tables: cells cut and padded to a column width, and the line
//! between the header and the rows.

use crate::textfmt::{pad_right, push_repeated, repeated};
use vstd::prelude::*;
use vstd::string::*;
use vstd::utf8::{
    decode_utf8, encode_utf8, encode_utf8_decode_utf8, encode_utf8_valid_utf8, is_char_boundary,
    is_char_boundary_start_end_of_seq,
};

verus! {

/// Number of bytes that a text takes up in UTF-8.
pub open spec fn byte_len(text: Seq<char>) -> nat {
    encode_utf8(text).len()
}

/// The last position at or before `index` at which a character starts in
/// the UTF-8 sequence `bytes`.
pub open spec fn floor_boundary(bytes: Seq<u8>, index: int) -> int
    decreases index,
{
    if index <= 0 {
        0
    } else if is_char_boundary(bytes, index) {
        index
    } else {
        floor_boundary(bytes, index - 1)
    }
}

/// A text cut to `max_len` bytes. A text that is longer keeps the
/// characters that fit into `max_len - 1` bytes and gets an ellipsis.
pub open spec fn truncated(text: Seq<char>, max_len: nat) -> Seq<char> {
    if byte_len(text) <= max_len {
        text
    } else {
        let bytes = encode_utf8(text);
        decode_utf8(bytes.take(floor_boundary(bytes, max_len - 1))) + seq!['…']
    }
}

/// Cuts a text to `max_len` bytes: a longer one keeps the characters that
/// fit into `max_len - 1` bytes, followed by an ellipsis.
pub fn truncate_string(s: &str, max_len: usize) -> (out: String)
    ensures
        out@ == truncated(s@, max_len as nat),
{
    let len = s.as_bytes().len();
    if len <= max_len {
        return s.to_owned();
    }
    let target: usize = if max_len == 0 {
        0
    } else {
        max_len - 1
    };
    let ghost bytes = s.spec_bytes();
    proof {
        encode_utf8_valid_utf8(s@);
        is_char_boundary_start_end_of_seq(bytes);
    }
    let mut cut: usize = target;
    while !s.is_char_boundary(cut)
        invariant
            cut <= target < bytes.len(),
            bytes == s.spec_bytes(),
            is_char_boundary(bytes, 0),
            floor_boundary(bytes, target as int) == floor_boundary(bytes, cut as int),
        decreases cut,
    {
        cut -= 1;
    }
    let (head, _rest) = s.split_at(cut);
    proof {
        encode_utf8_decode_utf8(head@);
        assert(head.spec_bytes() == bytes.take(cut as int));
        assert(floor_boundary(bytes, cut as int) == cut);
    }
    let mut out = head.to_owned();
    out.push('…');
    out
}

/// A cell of a table: a space, the text cut to the width and padded with
/// spaces to it, a space and a bar.
pub open spec fn cell(text: Seq<char>, width: nat) -> Seq<char> {
    seq![' '] + pad_right(truncated(text, width), width) + " │"@
}

/// Appends a cell of the given width.
pub fn push_cell(out: &mut String, text: &str, width: usize)
    ensures
        final(out)@ == old(out)@ + cell(text@, width as nat),
{
    let cut = truncate_string(text, width);
    let shown = cut.as_str().unicode_len();
    out.push(' ');
    out.append(cut.as_str());
    if shown < width {
        push_repeated(out, ' ', width - shown);
    }
    out.append(" │");
    proof {
        assert(out@ =~= old(out)@ + cell(text@, width as nat));
    }
}

/// Number of cells in a row of `fields` fields under `columns` columns.
pub open spec fn cell_count(fields: nat, columns: nat) -> nat {
    if fields <= columns {
        fields
    } else {
        columns
    }
}

/// The first `count` cells of a row, each in the width of its column.
pub open spec fn cells(fields: Seq<Seq<char>>, widths: Seq<usize>, count: nat) -> Seq<char>
    decreases count,
{
    if count == 0 || count > fields.len() || count > widths.len() {
        Seq::empty()
    } else {
        cells(fields, widths, (count - 1) as nat) + cell(
            fields[count - 1],
            widths[count - 1] as nat,
        )
    }
}

/// A row of a table: a bar, a cell for each field that has a column, and a
/// line feed.
pub open spec fn table_row(fields: Seq<Seq<char>>, widths: Seq<usize>) -> Seq<char> {
    seq!['│'] + cells(fields, widths, cell_count(fields.len(), widths.len())) + seq!['\n']
}

/// Appends a row of a table.
pub fn push_table_row(out: &mut String, fields: &Vec<String>, widths: &Vec<usize>)
    ensures
        final(out)@ == old(out)@ + table_row(fields.deep_view(), widths@),
{
    let count: usize = if fields.len() <= widths.len() {
        fields.len()
    } else {
        widths.len()
    };
    out.push('│');
    let ghost head = out@;
    let mut i: usize = 0;
    while i < count
        invariant
            i <= count,
            count <= fields@.len(),
            count <= widths@.len(),
            out@ == head + cells(fields.deep_view(), widths@, i as nat),
        decreases count - i,
    {
        push_cell(out, fields[i].as_str(), widths[i]);
        proof {
            assert(fields.deep_view()[i as int] == fields@[i as int]@);
        }
        i += 1;
    }
    out.push('\n');
}

/// The first `count` segments of the line under the header: for each column
/// a run of dashes two longer than its width, with a cross between two runs.
pub open spec fn separator_segments(widths: Seq<usize>, count: nat) -> Seq<char>
    decreases count,
{
    if count == 0 || count > widths.len() {
        Seq::empty()
    } else {
        separator_segments(widths, (count - 1) as nat) + repeated(
            '─',
            (widths[count - 1] + 2) as nat,
        ) + if count < widths.len() {
            seq!['┼']
        } else {
            Seq::empty()
        }
    }
}

/// The line between the header and the rows of a table.
pub open spec fn separator(widths: Seq<usize>) -> Seq<char> {
    seq!['├'] + separator_segments(widths, widths.len()) + "┤\n"@
}

/// Appends the line between the header and the rows of a table.
pub fn push_separator(out: &mut String, widths: &Vec<usize>)
    ensures
        final(out)@ == old(out)@ + separator(widths@),
{
    out.push('├');
    let ghost head = out@;
    let mut i: usize = 0;
    while i < widths.len()
        invariant
            i <= widths@.len(),
            out@ == head + separator_segments(widths@, i as nat),
        decreases widths@.len() - i,
    {
        let ghost before = out@;
        push_repeated(out, '─', widths[i]);
        push_repeated(out, '─', 2);
        proof {
            assert(repeated('─', widths@[i as int] as nat) + repeated('─', 2) =~= repeated(
                '─',
                (widths@[i as int] + 2) as nat,
            ));
            assert(out@ =~= before + repeated('─', (widths@[i as int] + 2) as nat));
        }
        if i + 1 < widths.len() {
            out.push('┼');
        }
        proof {
            assert(out@ =~= head + separator_segments(widths@, (i + 1) as nat));
        }
        i += 1;
    }
    out.append("┤\n");
}

/// What a reader made of one record of a table.
#[derive(Debug, Clone, PartialEq, Eq)]
pub enum TableRow {
    /// The fields of a well-formed record.
    Record(Vec<String>),
    /// The reader's message about a malformed record.
    Malformed(String),
}

/// A row as a value of specifications.
pub enum TableRowModel {
    Record(Seq<Seq<char>>),
    Malformed(Seq<char>),
}

impl DeepView for TableRow {
    type V = TableRowModel;

    open spec fn deep_view(&self) -> TableRowModel {
        match self {
            TableRow::Record(fields) => TableRowModel::Record(fields.deep_view()),
            TableRow::Malformed(message) => TableRowModel::Malformed(message@),
        }
    }
}

/// Least width of a column.
pub const MIN_COLUMN_WIDTH: usize = 10;

/// Width of a column before any row is looked at: the length of its header
/// in bytes, and ten at least.
pub open spec fn initial_width(header: Seq<char>) -> usize {
    if byte_len(header) >= MIN_COLUMN_WIDTH {
        byte_len(header) as usize
    } else {
        MIN_COLUMN_WIDTH
    }
}

/// Width of a column after a field of `len` bytes: the larger of the width
/// so far and of `len`, which counts as `cap` at most.
pub open spec fn grown_width(width: usize, len: nat, cap: usize) -> usize {
    let counted = if len < cap {
        len as usize
    } else {
        cap
    };
    if width >= counted {
        width
    } else {
        counted
    }
}

/// Width of column `j` after the first `count` rows.
pub open spec fn column_width(
    header: Seq<char>,
    rows: Seq<TableRowModel>,
    j: int,
    count: nat,
    cap: usize,
) -> usize
    decreases count,
{
    if count == 0 || count > rows.len() {
        initial_width(header)
    } else {
        let before = column_width(header, rows, j, (count - 1) as nat, cap);
        match rows[count - 1] {
            TableRowModel::Record(fields) if j < fields.len() => grown_width(
                before,
                byte_len(fields[j]),
                cap,
            ),
            _ => before,
        }
    }
}

/// The widths of the columns of a table: for each column the length of its
/// header in bytes, ten at least, and the length of its longest field, which
/// counts as `cap` at most.
pub open spec fn column_widths(headers: Seq<Seq<char>>, rows: Seq<TableRowModel>, cap: usize) -> Seq<
    usize,
> {
    Seq::new(headers.len(), |j: int| column_width(headers[j], rows, j, rows.len(), cap))
}

/// Byte length of a field, counted up to `cap`.
fn capped_len(field: &str, cap: usize) -> (len: usize)
    ensures
        len == if byte_len(field@) < cap {
            byte_len(field@)
        } else {
            cap as nat
        },
{
    let len = field.as_bytes().len();
    if len < cap {
        len
    } else {
        cap
    }
}

/// The widths of the columns of a table.
pub fn measure_columns(headers: &Vec<String>, rows: &Vec<TableRow>, cap: usize) -> (widths: Vec<
    usize,
>)
    ensures
        widths@ == column_widths(headers.deep_view(), rows.deep_view(), cap),
{
    let ghost heads = headers.deep_view();
    let ghost model = rows.deep_view();
    let mut widths: Vec<usize> = Vec::new();
    let mut j: usize = 0;
    while j < headers.len()
        invariant
            j <= headers@.len(),
            heads == headers.deep_view(),
            widths@.len() == j,
            forall|k: int| 0 <= k < j ==> widths@[k] == column_width(heads[k], model, k, 0, cap),
        decreases headers@.len() - j,
    {
        let len = headers[j].as_str().as_bytes().len();
        proof {
            assert(heads[j as int] == headers@[j as int]@);
        }
        widths.push(if len >= MIN_COLUMN_WIDTH {
            len
        } else {
            MIN_COLUMN_WIDTH
        });
        j += 1;
    }
    let mut i: usize = 0;
    while i < rows.len()
        invariant
            i <= rows@.len(),
            heads == headers.deep_view(),
            model == rows.deep_view(),
            widths@.len() == heads.len(),
            forall|k: int|
                0 <= k < widths@.len() ==> widths@[k] == column_width(heads[k], model, k, i as nat, cap),
        decreases rows@.len() - i,
    {
        proof {
            assert(model[i as int] == rows@[i as int].deep_view());
        }
        match &rows[i] {
            TableRow::Record(fields) => {
                let ghost texts = fields.deep_view();
                let mut k: usize = 0;
                while k < fields.len() && k < widths.len()
                    invariant
                        k <= fields@.len(),
                        k <= widths@.len(),
                        i < rows@.len(),
                        model == rows.deep_view(),
                        texts == fields.deep_view(),
                        model[i as int] == TableRowModel::Record(texts),
                        widths@.len() == heads.len(),
                        forall|c: int|
                            0 <= c < k ==> widths@[c] == column_width(
                                heads[c],
                                model,
                                c,
                                (i + 1) as nat,
                                cap,
                            ),
                        forall|c: int|
                            k <= c < widths@.len() ==> widths@[c] == column_width(
                                heads[c],
                                model,
                                c,
                                i as nat,
                                cap,
                            ),
                    decreases fields@.len() - k,
                {
                    let counted = capped_len(fields[k].as_str(), cap);
                    proof {
                        assert(texts[k as int] == fields@[k as int]@);
                        assert(column_width(heads[k as int], model, k as int, (i + 1) as nat, cap)
                            == grown_width(
                            column_width(heads[k as int], model, k as int, i as nat, cap),
                            byte_len(texts[k as int]),
                            cap,
                        ));
                    }
                    if widths[k] < counted {
                        widths.set(k, counted);
                    }
                    k += 1;
                }
            },
            TableRow::Malformed(_) => {},
        }
        i += 1;
    }
    widths
}

} // verus!
