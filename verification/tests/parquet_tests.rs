use denarborea::viewer::parquet_viewer::{
    format_array_value, format_logical_type, format_parquet_type, reads_one_batch,
    render_parquet_data, view_parquet_file, CellValue, ColumnInfo, LogicalType, ParquetData,
    ParquetMetadata, PhysicalType, RowGroupInfo,
};

fn rule(n: usize) -> String {
    format!("{}\n", "─".repeat(n))
}

fn sample_metadata() -> ParquetMetadata {
    ParquetMetadata {
        version: 1,
        created_by: Some("parquet-rs version 50".to_string()),
        num_rows: 3,
        row_groups: vec![
            RowGroupInfo { num_rows: 2, total_byte_size: 120 },
            RowGroupInfo { num_rows: 1, total_byte_size: 64 },
        ],
        columns: vec![
            ColumnInfo {
                name: "id".to_string(),
                physical_type: PhysicalType::Int64,
                logical_type: None,
            },
            ColumnInfo {
                name: "name".to_string(),
                physical_type: PhysicalType::ByteArray,
                logical_type: Some(LogicalType::Text),
            },
        ],
    }
}

fn sample_data() -> ParquetData {
    ParquetData {
        column_names: vec!["id".to_string(), "name".to_string()],
        batches: vec![
            vec![
                vec![CellValue::Int(1), CellValue::Text("alice".to_string())],
                vec![CellValue::Int(-2), CellValue::Null],
            ],
            vec![vec![CellValue::Int(3), CellValue::Text("a name of some length here".to_string())]],
        ],
    }
}

#[test]
fn cell_texts() {
    assert_eq!(format_array_value(&CellValue::Null), "null");
    assert_eq!(format_array_value(&CellValue::Boolean(true)), "true");
    assert_eq!(format_array_value(&CellValue::Boolean(false)), "false");
    assert_eq!(format_array_value(&CellValue::Int(-42)), "-42");
    assert_eq!(format_array_value(&CellValue::Int(i64::MIN)), "-9223372036854775808");
    assert_eq!(format_array_value(&CellValue::UInt(u64::MAX)), "18446744073709551615");
    assert_eq!(format_array_value(&CellValue::Float("3.14".to_string())), "3.14");
    assert_eq!(format_array_value(&CellValue::Text("héllo".to_string())), "héllo");
    assert_eq!(format_array_value(&CellValue::Binary(16)), "<binary 16 bytes>");
    assert_eq!(format_array_value(&CellValue::Date(19000)), "date(19000)");
    assert_eq!(format_array_value(&CellValue::Other("Timestamp(Millisecond, None)".to_string())), "<Timestamp(Millisecond, None)>");
}

#[test]
fn type_names() {
    assert_eq!(format_parquet_type(PhysicalType::Boolean, None), "boolean");
    assert_eq!(format_parquet_type(PhysicalType::Int32, None), "int32");
    assert_eq!(format_parquet_type(PhysicalType::Int64, None), "int64");
    assert_eq!(format_parquet_type(PhysicalType::Int96, None), "int96");
    assert_eq!(format_parquet_type(PhysicalType::Float, None), "float");
    assert_eq!(format_parquet_type(PhysicalType::Double, None), "double");
    assert_eq!(format_parquet_type(PhysicalType::ByteArray, Some(LogicalType::Text)), "byte_array (string)");
    assert_eq!(
        format_parquet_type(
            PhysicalType::FixedLenByteArray,
            Some(LogicalType::Decimal { precision: 10, scale: 2 })
        ),
        "fixed_len_byte_array (decimal(10, 2))"
    );
    assert_eq!(format_logical_type(LogicalType::Mapping), "map");
    assert_eq!(format_logical_type(LogicalType::List), "list");
    assert_eq!(format_logical_type(LogicalType::Enum), "enum");
    assert_eq!(format_logical_type(LogicalType::Date), "date");
    assert_eq!(format_logical_type(LogicalType::Time), "time");
    assert_eq!(format_logical_type(LogicalType::Timestamp), "timestamp");
    assert_eq!(
        format_logical_type(LogicalType::Integer { bit_width: 16, is_signed: true }),
        "int16_signed"
    );
    assert_eq!(
        format_logical_type(LogicalType::Integer { bit_width: 8, is_signed: false }),
        "int8_unsigned"
    );
    assert_eq!(format_logical_type(LogicalType::Unknown), "unknown");
    assert_eq!(format_logical_type(LogicalType::Json), "json");
    assert_eq!(format_logical_type(LogicalType::Bson), "bson");
    assert_eq!(format_logical_type(LogicalType::Uuid), "uuid");
    assert_eq!(format_logical_type(LogicalType::Float16), "float16");
}

#[test]
fn data_table_is_exact() {
    let out = render_parquet_data(&sample_data(), None);
    let expected = format!(
        "Data:\n{}│ id         │ name                 │\n├────────────┼──────────────────────┤\n│ 1          │ alice                │\n│ -2         │ null                 │\n│ 3          │ a name of some leng… │\n\n📈 Summary: 2 columns, 3 rows shown\n",
        rule(80)
    );
    assert_eq!(out, expected);
}

#[test]
fn data_table_stops_at_the_limit_across_batches() {
    let out = render_parquet_data(&sample_data(), Some(2));
    assert!(out.contains("│ -2         │ null                 │\n\n📈"));
    assert!(!out.contains("│ 3 "));
    assert!(out.ends_with("📈 Summary: 2 columns, 2 rows shown (limited to 2 rows)\n"));
    let none = render_parquet_data(&sample_data(), Some(0));
    assert!(none.ends_with("┤\n\n📈 Summary: 2 columns, 0 rows shown (limited to 0 rows)\n"));
    let all = render_parquet_data(&sample_data(), Some(3));
    assert!(all.ends_with("3 rows shown (limited to 3 rows)\n"));
}

#[test]
fn only_five_rows_of_a_batch_widen_the_columns() {
    let mut rows = Vec::new();
    for i in 0..6 {
        let text = if i == 5 { "a value that is long".to_string() } else { "x".to_string() };
        rows.push(vec![CellValue::Text(text)]);
    }
    let data = ParquetData { column_names: vec!["c".to_string()], batches: vec![rows] };
    let out = render_parquet_data(&data, None);
    assert!(out.contains("│ c          │\n├────────────┤\n"));
    assert!(out.contains("│ a value t… │\n"));
}

#[test]
fn no_batches_means_no_data() {
    let data = ParquetData { column_names: vec!["c".to_string()], batches: vec![] };
    assert_eq!(render_parquet_data(&data, None), "No data found in parquet file.\n");
    assert!(reads_one_batch(Some(0)));
    assert!(!reads_one_batch(Some(1)));
    assert!(!reads_one_batch(None));
}

#[test]
fn parquet_view_shows_metadata_and_data() {
    let out = view_parquet_file("d.parquet", &sample_metadata(), &Ok(sample_data()), Some(1));
    let head = format!(
        "📊 Parquet File: d.parquet\n{}Version: 1\nCreated by: parquet-rs version 50\nNumber of rows: 3\nNumber of row groups: 2\n\nSchema:\n  1: id (int64)\n  2: name (byte_array (string))\n\nData:\n",
        rule(80)
    );
    assert!(out.starts_with(&head));
    assert!(out.ends_with("📈 Summary: 2 columns, 1 rows shown (limited to 1 rows)\n"));
}

#[test]
fn parquet_view_falls_back_to_row_groups() {
    let mut metadata = sample_metadata();
    metadata.created_by = None;
    let out = view_parquet_file("d.parquet", &metadata, &Err("unsupported codec".to_string()), None);
    let expected = format!(
        "📊 Parquet File: d.parquet\n{}Version: 1\nCreated by: Unknown\nNumber of rows: 3\nNumber of row groups: 2\n\nSchema:\n  1: id (int64)\n  2: name (byte_array (string))\n\nError reading data: unsupported codec\nRow Groups:\n  Group 1: 2 rows, 120 bytes\n  Group 2: 1 rows, 64 bytes\n",
        rule(80)
    );
    assert_eq!(out, expected);
}
