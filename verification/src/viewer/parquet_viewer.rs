//! Columnar files: the metadata of the footer, and the first rows as a
//! table. The caller reads the file; this module renders what was read.

use crate::textfmt::{
    decimal, push_decimal, push_signed_decimal, signed_decimal,
};
use crate::viewer::table::{
    column_widths, measure_columns, push_separator, push_table_row, separator, table_row, TableRow,
    TableRowModel,
};
use crate::viewer::text::{push_rule, rule_line};
use vstd::prelude::*;
use vstd::string::*;

verus! {

/// Rows shown where the caller names no limit.
pub const DEFAULT_DISPLAY_ROWS: usize = 10;

/// Rows of each batch that are measured for the widths of the columns.
pub const SAMPLE_ROWS: usize = 5;

/// Width beyond which a value does not widen its column.
pub const MAX_VALUE_WIDTH: usize = 20;

/// How a column is stored.
#[derive(Debug, Clone, Copy, PartialEq, Eq, Structural)]
pub enum PhysicalType {
    Boolean,
    Int32,
    Int64,
    Int96,
    Float,
    Double,
    ByteArray,
    FixedLenByteArray,
}

/// What the values of a column mean.
#[derive(Debug, Clone, Copy, PartialEq, Eq, Structural)]
pub enum LogicalType {
    /// A string of characters.
    Text,
    /// A map from keys to values.
    Mapping,
    List,
    Enum,
    Decimal { precision: i32, scale: i32 },
    Date,
    Time,
    Timestamp,
    Integer { bit_width: i8, is_signed: bool },
    Unknown,
    Json,
    Bson,
    Uuid,
    Float16,
}

/// A column of the schema.
#[derive(Debug, Clone, PartialEq, Eq)]
pub struct ColumnInfo {
    pub name: String,
    pub physical_type: PhysicalType,
    pub logical_type: Option<LogicalType>,
}

/// A row group of the file.
#[derive(Debug, Clone, Copy, PartialEq, Eq, Structural)]
pub struct RowGroupInfo {
    pub num_rows: i64,
    pub total_byte_size: i64,
}

/// The metadata in the footer of a file.
#[derive(Debug, Clone, PartialEq, Eq)]
pub struct ParquetMetadata {
    pub version: i32,
    pub created_by: Option<String>,
    pub num_rows: i64,
    pub row_groups: Vec<RowGroupInfo>,
    pub columns: Vec<ColumnInfo>,
}

/// One value of a column in one row.
#[derive(Debug, Clone, PartialEq, Eq)]
pub enum CellValue {
    Null,
    Boolean(bool),
    /// A signed integer of any width.
    Int(i64),
    /// An unsigned integer of any width.
    UInt(u64),
    /// A floating-point number, written with two decimals.
    Float(String),
    Text(String),
    /// Binary data, with its length in bytes.
    Binary(usize),
    /// A date, as the number that stands for it.
    Date(i64),
    /// A value of another type, with the name of that type.
    Other(String),
}

/// A cell as a value of specifications.
pub enum CellModel {
    Null,
    Boolean(bool),
    Int(i64),
    UInt(u64),
    Float(Seq<char>),
    Text(Seq<char>),
    Binary(nat),
    Date(i64),
    Other(Seq<char>),
}

impl DeepView for CellValue {
    type V = CellModel;

    open spec fn deep_view(&self) -> CellModel {
        match self {
            CellValue::Null => CellModel::Null,
            CellValue::Boolean(b) => CellModel::Boolean(*b),
            CellValue::Int(i) => CellModel::Int(*i),
            CellValue::UInt(u) => CellModel::UInt(*u),
            CellValue::Float(text) => CellModel::Float(text@),
            CellValue::Text(text) => CellModel::Text(text@),
            CellValue::Binary(len) => CellModel::Binary(*len as nat),
            CellValue::Date(d) => CellModel::Date(*d),
            CellValue::Other(name) => CellModel::Other(name@),
        }
    }
}

/// The rows that were read of a file: the names of the columns, and the
/// record batches, each with its rows.
#[derive(Debug, Clone, PartialEq, Eq)]
pub struct ParquetData {
    pub column_names: Vec<String>,
    pub batches: Vec<Vec<Vec<CellValue>>>,
}

/// The name of a physical type.
pub open spec fn physical_name(t: PhysicalType) -> Seq<char> {
    match t {
        PhysicalType::Boolean => "boolean"@,
        PhysicalType::Int32 => "int32"@,
        PhysicalType::Int64 => "int64"@,
        PhysicalType::Int96 => "int96"@,
        PhysicalType::Float => "float"@,
        PhysicalType::Double => "double"@,
        PhysicalType::ByteArray => "byte_array"@,
        PhysicalType::FixedLenByteArray => "fixed_len_byte_array"@,
    }
}

/// The name of a logical type, with the precision and scale of a decimal
/// and the width and sign of an integer.
pub open spec fn logical_name(t: LogicalType) -> Seq<char> {
    match t {
        LogicalType::Text => "string"@,
        LogicalType::Mapping => "map"@,
        LogicalType::List => "list"@,
        LogicalType::Enum => "enum"@,
        LogicalType::Decimal { precision, scale } => "decimal("@ + signed_decimal(precision as int)
            + ", "@ + signed_decimal(scale as int) + ")"@,
        LogicalType::Date => "date"@,
        LogicalType::Time => "time"@,
        LogicalType::Timestamp => "timestamp"@,
        LogicalType::Integer { bit_width, is_signed } => "int"@ + signed_decimal(bit_width as int)
            + if is_signed {
            "_signed"@
        } else {
            "_unsigned"@
        },
        LogicalType::Unknown => "unknown"@,
        LogicalType::Json => "json"@,
        LogicalType::Bson => "bson"@,
        LogicalType::Uuid => "uuid"@,
        LogicalType::Float16 => "float16"@,
    }
}

/// The type of a column: its physical type, and its logical type in
/// brackets where it has one.
pub open spec fn column_type(physical: PhysicalType, logical: Option<LogicalType>) -> Seq<char> {
    match logical {
        Some(t) => physical_name(physical) + " ("@ + logical_name(t) + ")"@,
        None => physical_name(physical),
    }
}

/// The name of a logical type.
pub fn format_logical_type(logical_type: LogicalType) -> (out: String)
    ensures
        out@ == logical_name(logical_type),
{
    let mut out = String::new();
    match logical_type {
        LogicalType::Text => out.append("string"),
        LogicalType::Mapping => out.append("map"),
        LogicalType::List => out.append("list"),
        LogicalType::Enum => out.append("enum"),
        LogicalType::Decimal { precision, scale } => {
            out.append("decimal(");
            push_signed_decimal(&mut out, precision as i64);
            out.append(", ");
            push_signed_decimal(&mut out, scale as i64);
            out.append(")");
        },
        LogicalType::Date => out.append("date"),
        LogicalType::Time => out.append("time"),
        LogicalType::Timestamp => out.append("timestamp"),
        LogicalType::Integer { bit_width, is_signed } => {
            out.append("int");
            push_signed_decimal(&mut out, bit_width as i64);
            if is_signed {
                out.append("_signed");
            } else {
                out.append("_unsigned");
            }
        },
        LogicalType::Unknown => out.append("unknown"),
        LogicalType::Json => out.append("json"),
        LogicalType::Bson => out.append("bson"),
        LogicalType::Uuid => out.append("uuid"),
        LogicalType::Float16 => out.append("float16"),
    }
    out
}

/// The type of a column, as the schema listing shows it.
pub fn format_parquet_type(physical_type: PhysicalType, logical_type: Option<LogicalType>) -> (out:
    String)
    ensures
        out@ == column_type(physical_type, logical_type),
{
    let mut out = String::new();
    match physical_type {
        PhysicalType::Boolean => out.append("boolean"),
        PhysicalType::Int32 => out.append("int32"),
        PhysicalType::Int64 => out.append("int64"),
        PhysicalType::Int96 => out.append("int96"),
        PhysicalType::Float => out.append("float"),
        PhysicalType::Double => out.append("double"),
        PhysicalType::ByteArray => out.append("byte_array"),
        PhysicalType::FixedLenByteArray => out.append("fixed_len_byte_array"),
    }
    match logical_type {
        Some(logical) => {
            let name = format_logical_type(logical);
            out.append(" (");
            out.append(name.as_str());
            out.append(")");
        },
        None => {},
    }
    out
}

/// The text of a cell.
pub open spec fn cell_text(cell: CellModel) -> Seq<char> {
    match cell {
        CellModel::Null => "null"@,
        CellModel::Boolean(b) => if b {
            "true"@
        } else {
            "false"@
        },
        CellModel::Int(i) => signed_decimal(i as int),
        CellModel::UInt(u) => decimal(u as nat),
        CellModel::Float(text) => text,
        CellModel::Text(text) => text,
        CellModel::Binary(len) => "<binary "@ + decimal(len) + " bytes>"@,
        CellModel::Date(d) => "date("@ + signed_decimal(d as int) + ")"@,
        CellModel::Other(name) => "<"@ + name + ">"@,
    }
}

/// The text of a cell: the value itself, or a word for what has no text.
pub fn format_array_value(cell: &CellValue) -> (out: String)
    ensures
        out@ == cell_text(cell.deep_view()),
{
    let mut out = String::new();
    match cell {
        CellValue::Null => out.append("null"),
        CellValue::Boolean(b) => {
            if *b {
                out.append("true");
            } else {
                out.append("false");
            }
        },
        CellValue::Int(i) => push_signed_decimal(&mut out, *i),
        CellValue::UInt(u) => push_decimal(&mut out, *u),
        CellValue::Float(text) => out.append(text.as_str()),
        CellValue::Text(text) => out.append(text.as_str()),
        CellValue::Binary(len) => {
            out.append("<binary ");
            push_decimal(&mut out, *len as u64);
            out.append(" bytes>");
        },
        CellValue::Date(d) => {
            out.append("date(");
            push_signed_decimal(&mut out, *d);
            out.append(")");
        },
        CellValue::Other(name) => {
            out.append("<");
            out.append(name.as_str());
            out.append(">");
        },
    }
    out
}

/// The texts of the cells of a row.
pub open spec fn row_texts(row: Seq<CellModel>) -> Seq<Seq<char>> {
    Seq::new(row.len(), |i: int| cell_text(row[i]))
}

/// The texts of the cells of a row.
pub fn format_row(row: &Vec<CellValue>) -> (texts: Vec<String>)
    ensures
        texts.deep_view() == row_texts(row.deep_view()),
{
    let mut texts: Vec<String> = Vec::new();
    let mut i: usize = 0;
    while i < row.len()
        invariant
            i <= row@.len(),
            texts@.len() == i,
            forall|k: int| 0 <= k < i ==> (#[trigger] texts@[k])@ == cell_text(row@[k].deep_view()),
        decreases row@.len() - i,
    {
        texts.push(format_array_value(&row[i]));
        i += 1;
    }
    proof {
        assert(texts.deep_view() =~= row_texts(row.deep_view()));
    }
    texts
}

/// The rows that are measured before position `r` of batch `b`: of each
/// batch its first five.
pub open spec fn sampled_rows(batches: Seq<Seq<Seq<CellModel>>>, b: nat, r: nat) -> Seq<
    TableRowModel,
>
    decreases b, r,
{
    if r > 0 {
        if b < batches.len() && r <= batches[b as int].len() {
            sampled_rows(batches, b, (r - 1) as nat).push(
                TableRowModel::Record(row_texts(batches[b as int][r - 1])),
            )
        } else {
            Seq::empty()
        }
    } else if b > 0 && b <= batches.len() {
        sampled_rows(batches, (b - 1) as nat, sample_len(batches[b - 1].len()))
    } else {
        Seq::empty()
    }
}

/// Number of rows that are measured of a batch of `len` rows.
pub open spec fn sample_len(len: nat) -> nat {
    if len < SAMPLE_ROWS {
        len
    } else {
        SAMPLE_ROWS as nat
    }
}

/// The widths of the columns of the table of the data.
pub open spec fn data_widths(names: Seq<Seq<char>>, batches: Seq<Seq<Seq<CellModel>>>) -> Seq<
    usize,
> {
    column_widths(names, sampled_rows(batches, batches.len(), 0), MAX_VALUE_WIDTH)
}

/// The table rows from row `r` of batch `b` on, `remaining` of them at most.
pub open spec fn data_rows(
    batches: Seq<Seq<Seq<CellModel>>>,
    b: nat,
    r: nat,
    remaining: nat,
    widths: Seq<usize>,
) -> Seq<char>
    decreases batches.len() - b, batches[b as int].len() - r,
{
    if b >= batches.len() || remaining == 0 {
        Seq::empty()
    } else if r >= batches[b as int].len() {
        data_rows(batches, b + 1, 0, remaining, widths)
    } else {
        table_row(row_texts(batches[b as int][r as int]), widths) + data_rows(
            batches,
            b,
            r + 1,
            (remaining - 1) as nat,
            widths,
        )
    }
}

/// Number of rows from row `r` of batch `b` on, counted up to `remaining`.
pub open spec fn data_row_count(
    batches: Seq<Seq<Seq<CellModel>>>,
    b: nat,
    r: nat,
    remaining: nat,
) -> nat
    decreases batches.len() - b, batches[b as int].len() - r,
{
    if b >= batches.len() || remaining == 0 {
        0
    } else if r >= batches[b as int].len() {
        data_row_count(batches, b + 1, 0, remaining)
    } else {
        1 + data_row_count(batches, b, r + 1, (remaining - 1) as nat)
    }
}

/// The limit on rows that stands for none given.
pub open spec fn display_rows(max_rows: Option<usize>) -> nat {
    match max_rows {
        Some(max) => max as nat,
        None => DEFAULT_DISPLAY_ROWS as nat,
    }
}

/// The summary under the table of the data.
pub open spec fn data_summary(columns: nat, shown: nat, max_rows: Option<usize>) -> Seq<char> {
    "\n📈 Summary: "@ + decimal(columns) + " columns, "@ + decimal(shown) + " rows shown"@ + (
    match max_rows {
        Some(max) if shown >= max => " (limited to "@ + decimal(max as nat) + " rows)"@,
        _ => Seq::empty(),
    }) + seq!['\n']
}

/// The table of the rows that were read: a heading, the header row, the
/// line under it, the first rows up to the limit, and a summary; or a word
/// that there is no data where no batch was read.
pub open spec fn parquet_data(
    names: Seq<Seq<char>>,
    batches: Seq<Seq<Seq<CellModel>>>,
    max_rows: Option<usize>,
) -> Seq<char> {
    if batches.len() == 0 {
        "No data found in parquet file.\n"@
    } else {
        let widths = data_widths(names, batches);
        let max = display_rows(max_rows);
        "Data:\n"@ + rule_line(80) + table_row(names, widths) + separator(widths) + data_rows(
            batches,
            0,
            0,
            max,
            widths,
        ) + data_summary(names.len(), data_row_count(batches, 0, 0, max), max_rows)
    }
}

/// Whether reading stops behind the first batch: it does where no row is
/// to be shown.
pub fn reads_one_batch(max_rows: Option<usize>) -> (one: bool)
    ensures
        one == (display_rows(max_rows) == 0),
{
    match max_rows {
        Some(max) => max == 0,
        None => false,
    }
}

fn sample_batches(batches: &Vec<Vec<Vec<CellValue>>>) -> (samples: Vec<TableRow>)
    ensures
        samples.deep_view() == sampled_rows(batches.deep_view(), batches@.len() as nat, 0),
{
    let ghost model = batches.deep_view();
    let mut samples: Vec<TableRow> = Vec::new();
    let mut b: usize = 0;
    while b < batches.len()
        invariant
            b <= batches@.len(),
            model == batches.deep_view(),
            samples.deep_view() == sampled_rows(model, b as nat, 0),
        decreases batches@.len() - b,
    {
        let batch = &batches[b];
        let count: usize = if batch.len() < SAMPLE_ROWS {
            batch.len()
        } else {
            SAMPLE_ROWS
        };
        proof {
            assert(model[b as int] == batch.deep_view());
        }
        let mut r: usize = 0;
        while r < count
            invariant
                r <= count,
                b < batches@.len(),
                count == sample_len(batch@.len() as nat),
                model == batches.deep_view(),
                model[b as int] == batch.deep_view(),
                samples.deep_view() == sampled_rows(model, b as nat, r as nat),
            decreases count - r,
        {
            let texts = format_row(&batch[r]);
            let ghost before = samples.deep_view();
            proof {
                assert(batch.deep_view()[r as int] == batch@[r as int].deep_view());
            }
            samples.push(TableRow::Record(texts));
            proof {
                assert(samples.deep_view() =~= before.push(
                    TableRowModel::Record(row_texts(model[b as int][r as int])),
                ));
            }
            r += 1;
        }
        b += 1;
    }
    samples
}

/// Renders the rows that were read of a file as a table of at most
/// `max_rows` rows, or of ten where no limit is given.
pub fn render_parquet_data(data: &ParquetData, max_rows: Option<usize>) -> (out: String)
    ensures
        out@ == parquet_data(data.column_names.deep_view(), data.batches.deep_view(), max_rows),
{
    let ghost names = data.column_names.deep_view();
    let ghost model = data.batches.deep_view();
    let mut out = String::new();
    if data.batches.len() == 0 {
        out.append("No data found in parquet file.\n");
        return out;
    }
    let max: usize = match max_rows {
        Some(max) => max,
        None => DEFAULT_DISPLAY_ROWS,
    };
    let samples = sample_batches(&data.batches);
    let widths = measure_columns(&data.column_names, &samples, MAX_VALUE_WIDTH);
    out.append("Data:\n");
    push_rule(&mut out, 80);
    push_table_row(&mut out, &data.column_names, &widths);
    push_separator(&mut out, &widths);
    let ghost head = out@;
    let ghost all = data_rows(model, 0, 0, max as nat, widths@);
    let ghost all_count = data_row_count(model, 0, 0, max as nat);
    let mut shown: usize = 0;
    let mut b: usize = 0;
    while b < data.batches.len() && shown < max
        invariant
            b <= data.batches@.len(),
            shown <= max,
            model == data.batches.deep_view(),
            all == data_rows(model, 0, 0, max as nat, widths@),
            all_count == data_row_count(model, 0, 0, max as nat),
            out@ + data_rows(model, b as nat, 0, (max - shown) as nat, widths@) == head + all,
            shown + data_row_count(model, b as nat, 0, (max - shown) as nat) == all_count,
        decreases data.batches@.len() - b,
    {
        let batch = &data.batches[b];
        proof {
            assert(model[b as int] == batch.deep_view());
        }
        let mut r: usize = 0;
        while r < batch.len() && shown < max
            invariant
                r <= batch@.len(),
                b < data.batches@.len(),
                shown <= max,
                model == data.batches.deep_view(),
                model[b as int] == batch.deep_view(),
                out@ + data_rows(model, b as nat, r as nat, (max - shown) as nat, widths@) == head
                    + all,
                shown + data_row_count(model, b as nat, r as nat, (max - shown) as nat)
                    == all_count,
            decreases batch@.len() - r,
        {
            let texts = format_row(&batch[r]);
            let ghost before = out@;
            proof {
                assert(batch.deep_view()[r as int] == batch@[r as int].deep_view());
            }
            push_table_row(&mut out, &texts, &widths);
            proof {
                assert(out@ + data_rows(
                    model,
                    b as nat,
                    (r + 1) as nat,
                    (max - shown - 1) as nat,
                    widths@,
                ) =~= before + data_rows(
                    model,
                    b as nat,
                    r as nat,
                    (max - shown) as nat,
                    widths@,
                ));
            }
            shown += 1;
            r += 1;
        }
        b += 1;
    }
    out.append("\n📈 Summary: ");
    push_decimal(&mut out, data.column_names.len() as u64);
    out.append(" columns, ");
    push_decimal(&mut out, shown as u64);
    out.append(" rows shown");
    match max_rows {
        Some(limit) => {
            if shown >= limit {
                out.append(" (limited to ");
                push_decimal(&mut out, limit as u64);
                out.append(" rows)");
            }
        },
        None => {},
    }
    out.push('\n');
    proof {
        assert(shown == all_count);
        assert(out@ =~= parquet_data(names, model, max_rows));
    }
    out
}

/// A column as a value of specifications.
pub struct ColumnModel {
    pub name: Seq<char>,
    pub physical_type: PhysicalType,
    pub logical_type: Option<LogicalType>,
}

impl DeepView for ColumnInfo {
    type V = ColumnModel;

    open spec fn deep_view(&self) -> ColumnModel {
        ColumnModel {
            name: self.name@,
            physical_type: self.physical_type,
            logical_type: self.logical_type,
        }
    }
}

/// The lines of the first `count` columns of the schema: the number of
/// the column, its name, and its type in brackets.
pub open spec fn schema_lines(columns: Seq<ColumnModel>, count: nat) -> Seq<char>
    decreases count,
{
    if count == 0 || count > columns.len() {
        Seq::empty()
    } else {
        let column = columns[count - 1];
        schema_lines(columns, (count - 1) as nat) + "  "@ + decimal(count) + ": "@ + column.name
            + " ("@ + column_type(column.physical_type, column.logical_type) + ")\n"@
    }
}

/// The lines of the first `count` row groups: the number of the group,
/// its rows and its bytes.
pub open spec fn row_group_lines(groups: Seq<RowGroupInfo>, count: nat) -> Seq<char>
    decreases count,
{
    if count == 0 || count > groups.len() {
        Seq::empty()
    } else {
        let group = groups[count - 1];
        row_group_lines(groups, (count - 1) as nat) + "  Group "@ + decimal(count) + ": "@
            + signed_decimal(group.num_rows as int) + " rows, "@ + signed_decimal(
            group.total_byte_size as int,
        ) + " bytes\n"@
    }
}

/// The metadata of a file: a banner, the version, the writer, the numbers
/// of rows and of row groups, and the schema.
pub open spec fn metadata_view(
    path: Seq<char>,
    version: i32,
    created_by: Option<Seq<char>>,
    num_rows: i64,
    groups: nat,
    columns: Seq<ColumnModel>,
) -> Seq<char> {
    "📊 Parquet File: "@ + path + seq!['\n'] + rule_line(80) + "Version: "@ + signed_decimal(
        version as int,
    ) + seq!['\n'] + "Created by: "@ + (match created_by {
        Some(writer) => writer,
        None => "Unknown"@,
    }) + seq!['\n'] + "Number of rows: "@ + signed_decimal(num_rows as int) + seq!['\n']
        + "Number of row groups: "@ + decimal(groups) + "\n\n"@ + "Schema:\n"@ + schema_lines(
        columns,
        columns.len(),
    ) + seq!['\n']
}

/// What follows the metadata where the rows could not be read: the
/// reader's message and the row groups.
pub open spec fn fallback_view(message: Seq<char>, groups: Seq<RowGroupInfo>) -> Seq<char> {
    "Error reading data: "@ + message + seq!['\n'] + "Row Groups:\n"@ + row_group_lines(
        groups,
        groups.len(),
    )
}

/// The view of a columnar file: its metadata, and the table of its rows,
/// or the row groups where the rows could not be read.
pub open spec fn parquet_file(
    path: Seq<char>,
    metadata: ParquetMetadata,
    data: Result<ParquetData, String>,
    max_rows: Option<usize>,
) -> Seq<char> {
    metadata_view(
        path,
        metadata.version,
        match metadata.created_by {
            Some(writer) => Some(writer@),
            None => None,
        },
        metadata.num_rows,
        metadata.row_groups@.len(),
        metadata.columns.deep_view(),
    ) + match data {
        Ok(rows) => parquet_data(rows.column_names.deep_view(), rows.batches.deep_view(), max_rows),
        Err(message) => fallback_view(message@, metadata.row_groups@),
    }
}

/// Views a columnar file from what was read of it. The metadata is always
/// shown. `data` holds the rows, or the reader's message where they could
/// not be read: then the row groups are listed in their place.
pub fn view_parquet_file(
    path: &str,
    metadata: &ParquetMetadata,
    data: &Result<ParquetData, String>,
    max_rows: Option<usize>,
) -> (out: String)
    ensures
        out@ == parquet_file(path@, *metadata, *data, max_rows),
{
    let ghost columns = metadata.columns.deep_view();
    let mut out = String::new();
    out.append("📊 Parquet File: ");
    out.append(path);
    out.push('\n');
    push_rule(&mut out, 80);
    out.append("Version: ");
    push_signed_decimal(&mut out, metadata.version as i64);
    out.push('\n');
    out.append("Created by: ");
    match &metadata.created_by {
        Some(writer) => out.append(writer.as_str()),
        None => out.append("Unknown"),
    }
    out.push('\n');
    out.append("Number of rows: ");
    push_signed_decimal(&mut out, metadata.num_rows);
    out.push('\n');
    out.append("Number of row groups: ");
    push_decimal(&mut out, metadata.row_groups.len() as u64);
    out.append("\n\n");
    out.append("Schema:\n");
    let ghost head = out@;
    let mut i: usize = 0;
    while i < metadata.columns.len()
        invariant
            i <= metadata.columns@.len(),
            columns == metadata.columns.deep_view(),
            out@ == head + schema_lines(columns, i as nat),
        decreases metadata.columns@.len() - i,
    {
        let column = &metadata.columns[i];
        let kind = format_parquet_type(column.physical_type, column.logical_type);
        let ghost before = out@;
        out.append("  ");
        push_decimal(&mut out, (i as u64) + 1);
        out.append(": ");
        out.append(column.name.as_str());
        out.append(" (");
        out.append(kind.as_str());
        out.append(")\n");
        proof {
            assert(columns[i as int] == metadata.columns@[i as int].deep_view());
            assert(out@ =~= head + schema_lines(columns, (i + 1) as nat));
        }
        i += 1;
    }
    out.push('\n');
    proof {
        assert(out@ =~= metadata_view(
            path@,
            metadata.version,
            match metadata.created_by {
                Some(writer) => Some(writer@),
                None => None,
            },
            metadata.num_rows,
            metadata.row_groups@.len(),
            columns,
        ));
    }
    let ghost top = out@;
    match data {
        Ok(rows) => {
            let table = render_parquet_data(rows, max_rows);
            out.append(table.as_str());
        },
        Err(message) => {
            out.append("Error reading data: ");
            out.append(message.as_str());
            out.push('\n');
            out.append("Row Groups:\n");
            let ghost head = out@;
            let mut g: usize = 0;
            while g < metadata.row_groups.len()
                invariant
                    g <= metadata.row_groups@.len(),
                    out@ == head + row_group_lines(metadata.row_groups@, g as nat),
                decreases metadata.row_groups@.len() - g,
            {
                let group = metadata.row_groups[g];
                out.append("  Group ");
                push_decimal(&mut out, (g as u64) + 1);
                out.append(": ");
                push_signed_decimal(&mut out, group.num_rows);
                out.append(" rows, ");
                push_signed_decimal(&mut out, group.total_byte_size);
                out.append(" bytes\n");
                proof {
                    assert(out@ =~= head + row_group_lines(metadata.row_groups@, (g + 1) as nat));
                }
                g += 1;
            }
            proof {
                assert(out@ =~= top + fallback_view(message@, metadata.row_groups@));
            }
        },
    }
    out
}

} // verus!
