use denarborea::viewer::csv_viewer::{
    push_table_listing, render_csv_table, view_csv_file, view_csv_full_load,
    view_csv_memory_mapped, view_csv_streaming, view_large_csv, OnMalformed,
};
use denarborea::viewer::table::{measure_columns, truncate_string, TableRow};
use denarborea::ViewError;

fn rule(n: usize) -> String {
    format!("{}\n", "─".repeat(n))
}

fn strings(items: &[&str]) -> Vec<String> {
    items.iter().map(|s| s.to_string()).collect()
}

#[test]
fn csv_table_of_two_rows() {
    let out = view_csv_file("t.csv", b"a,b\n1,2\n3,4", Some(100), ',').unwrap();
    let expected = format!(
        "📊 CSV File: t.csv\n{}│ a          │ b          │\n├────────────┼────────────┤\n│ 1          │ 2          │\n│ 3          │ 4          │\n\n📈 Summary: 2 columns, 2 rows shown\n",
        rule(80)
    );
    assert_eq!(out, expected);
    assert!(out.contains("2 columns, 2 rows shown"));
}

#[test]
fn csv_table_notes_the_limit() {
    let out = view_csv_file("t.csv", b"h\n1\n2\n3\n", Some(2), ',').unwrap();
    assert!(out.contains("│ 1          │\n│ 2          │\n\n"));
    assert!(!out.contains("│ 3 "));
    assert!(out.ends_with("📈 Summary: 1 columns, 2 rows shown (limited to 2 rows)\n"));
    let all = view_csv_file("t.csv", b"h\n1\n2\n3\n", None, ',').unwrap();
    assert!(all.ends_with("📈 Summary: 1 columns, 3 rows shown\n"));
}

#[test]
fn csv_table_of_an_empty_file_has_no_column() {
    let out = view_csv_file("e.csv", b"", Some(100), ',').unwrap();
    let expected = format!(
        "📊 CSV File: e.csv\n{}│\n├┤\n\n📈 Summary: 0 columns, 0 rows shown\n",
        rule(80)
    );
    assert_eq!(out, expected);
}

#[test]
fn csv_table_reports_a_malformed_row_and_goes_on() {
    let out = view_csv_file("t.csv", b"a,b\n1\n3,4\n", None, ',').unwrap();
    assert!(out.contains("Error reading row 1: CSV error: "));
    assert!(out.contains("found record with 1 fields, but the previous record has 2 fields\n"));
    assert!(out.contains("│ 3          │ 4          │\n"));
    assert!(out.ends_with("📈 Summary: 2 columns, 1 rows shown\n"));
    let error_at = out.find("Error reading row").unwrap();
    let header_at = out.find("│ a ").unwrap();
    assert!(error_at < header_at);
}

#[test]
fn csv_table_fails_on_a_header_that_is_not_text() {
    let out = view_csv_file("t.csv", b"a,\xff\n1,2\n", None, ',');
    match out {
        Err(ViewError::Parse(message)) => assert!(message.contains("CSV parse error")),
        other => panic!("unexpected: {:?}", other),
    }
}

#[test]
fn csv_table_with_another_delimiter_and_quotes() {
    let out = view_csv_file("t.csv", b"name;age\n\"Doe; John\";30\n", Some(100), ';').unwrap();
    assert!(out.contains("│ name       │ age        │\n"));
    assert!(out.contains("│ Doe; John  │ 30         │\n"));
}

#[test]
fn columns_widen_up_to_thirty_and_cells_are_cut() {
    let long = "x".repeat(40);
    let content = format!("h\n{}\n", long);
    let out = view_csv_file("t.csv", content.as_bytes(), None, ',').unwrap();
    let cut = format!("│ {}… │\n", "x".repeat(29));
    assert!(out.contains(&cut));
    assert!(out.contains(&format!("│ h{} │\n", " ".repeat(29))));
    assert!(out.contains(&format!("├{}┤\n", "─".repeat(32))));
}

#[test]
fn column_widths_follow_header_and_fields() {
    let headers = strings(&["id", "a_rather_long_header"]);
    let rows = vec![
        TableRow::Record(strings(&["1", "x"])),
        TableRow::Malformed("bad".to_string()),
        TableRow::Record(strings(&["123456789012", "y"])),
        TableRow::Record(strings(&["1", "y", "ignored"])),
    ];
    assert_eq!(measure_columns(&headers, &rows, 30), vec![12, 20]);
    assert_eq!(measure_columns(&headers, &rows, 11), vec![11, 20]);
    assert_eq!(measure_columns(&headers, &Vec::new(), 30), vec![10, 20]);
}

#[test]
fn truncate_string_cuts_by_bytes() {
    assert_eq!(truncate_string("hello", 10), "hello");
    assert_eq!(truncate_string("hello", 5), "hello");
    assert_eq!(truncate_string("hello world", 5), "hell…");
    assert_eq!(truncate_string("hello", 1), "…");
    assert_eq!(truncate_string("hello", 0), "…");
    assert_eq!(truncate_string("", 0), "");
    // a cut inside a character falls back to the start of that character
    assert_eq!(truncate_string("héllo wörld", 3), "h…");
    assert_eq!(truncate_string("héllo wörld", 4), "hé…");
}

#[test]
fn render_csv_table_is_exact() {
    let headers = strings(&["k", "v"]);
    let rows = vec![
        TableRow::Record(strings(&["alpha", "1"])),
        TableRow::Malformed("broken".to_string()),
    ];
    let out = render_csv_table("x.csv", &headers, &rows, Some(1));
    let expected = format!(
        "📊 CSV File: x.csv\n{}Error reading row 2: broken\n│ k          │ v          │\n├────────────┼────────────┤\n│ alpha      │ 1          │\n\n📈 Summary: 2 columns, 1 rows shown (limited to 1 rows)\n",
        rule(80)
    );
    assert_eq!(out, expected);
}

#[test]
fn csv_full_load_lists_rows() {
    let out = view_csv_full_load(b"a,b\n1,2\n3,4", b',', 100);
    assert_eq!(out, "Headers: a | b\n\nRow 1: 1 | 2\nRow 2: 3 | 4\n");
    let limited = view_csv_full_load(b"a,b\n1,2\n3,4", b',', 1);
    assert_eq!(limited, "Headers: a | b\n\nRow 1: 1 | 2\n\n... (showing first 1 rows)\n");
    let skipping = view_csv_full_load(b"a,b\n1\n3,4", b',', 100);
    assert_eq!(skipping, "Headers: a | b\n\nRow 2: 3 | 4\n");
    assert_eq!(view_csv_full_load(b"", b',', 100), "Headers: \n\n");
    assert_eq!(view_csv_full_load(b"\xff,a\n1,2\n", b',', 100), "");
}

#[test]
fn csv_streaming_stops_at_a_malformed_row() {
    let out = view_csv_streaming("p.csv", b"a,b\n1,2\n3\n5,6\n", b',', 100);
    assert!(out.starts_with(&format!(
        "📊 CSV File: p.csv (Streaming)\n{}Headers: a | b\n\nRow 1: 1 | 2\nError reading row 2: CSV error: ",
        rule(60)
    )));
    assert!(!out.contains("5 | 6"));
    let limited = view_csv_streaming("p.csv", b"a\n1\n2\n3\n", b',', 2);
    assert_eq!(
        limited,
        format!(
            "📊 CSV File: p.csv (Streaming)\n{}Headers: a\n\nRow 1: 1\nRow 2: 2\n\n... (showing first 2 rows of large file)\n",
            rule(60)
        )
    );
}

#[test]
fn csv_memory_mapped_drops_the_cut_row() {
    let content = b"a,b\n1,2\n3,4\n5,6\n";
    let out = view_csv_memory_mapped("p.csv", content, b',', 9, 100);
    let expected = format!(
        "📊 CSV File: p.csv (16 bytes, Memory-Mapped)\n{}Headers: a | b\n\nRow 1: 1 | 2\n\n📊 File too large - showing preview only (9 of 16 bytes)\n",
        rule(60)
    );
    assert_eq!(out, expected);
    let limited = view_csv_memory_mapped("p.csv", content, b',', 65536, 1);
    assert!(limited.contains("Row 1: 1 | 2\n\n... (showing first 1 rows from preview)\n"));
    assert!(!limited.contains("showing preview only"));
}

#[test]
fn large_csv_of_a_small_file_is_loaded_whole() {
    let out = view_large_csv("p.csv", b"a;b\n1;2\n", b';', None);
    assert_eq!(out, "Headers: a | b\n\nRow 1: 1 | 2\n");
}

#[test]
fn table_listing_is_exact() {
    let headers = Ok(strings(&["a", "b"]));
    let rows = vec![
        TableRow::Record(strings(&["1", "2"])),
        TableRow::Malformed("bad".to_string()),
        TableRow::Record(strings(&["3", "4"])),
        TableRow::Record(strings(&["5", "6"])),
    ];
    let listing = |mode: OnMalformed, max: usize| {
        let mut out = String::new();
        push_table_listing(&mut out, &headers, &rows, max, mode, "MORE\n");
        out
    };
    assert_eq!(
        listing(OnMalformed::Skip, 3),
        "Headers: a | b\n\nRow 1: 1 | 2\nRow 3: 3 | 4\nMORE\n"
    );
    assert_eq!(
        listing(OnMalformed::Skip, 4),
        "Headers: a | b\n\nRow 1: 1 | 2\nRow 3: 3 | 4\nRow 4: 5 | 6\n"
    );
    assert_eq!(
        listing(OnMalformed::Report, 4),
        "Headers: a | b\n\nRow 1: 1 | 2\nError reading row 2: bad\n"
    );
    assert_eq!(listing(OnMalformed::Stop, 4), "Headers: a | b\n\nRow 1: 1 | 2\n");
    assert_eq!(listing(OnMalformed::Report, 1), "Headers: a | b\n\nRow 1: 1 | 2\nMORE\n");
    assert_eq!(listing(OnMalformed::Report, 0), "Headers: a | b\n\nMORE\n");
    let mut out = String::from("x");
    push_table_listing(&mut out, &Err("no".to_string()), &rows, 4, OnMalformed::Skip, "MORE");
    assert_eq!(out, "x");
}
