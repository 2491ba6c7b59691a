use denarborea::strategy::{
    select_strategy, select_strategy_with, LARGE_FILE_THRESHOLD, SMALL_FILE_THRESHOLD,
};
use denarborea::viewer::parquet_viewer::{ParquetData, ParquetMetadata};
use denarborea::{
    FileViewer, Reading, ViewError, ViewStrategy, ViewerFormat, ViewerStrategy, Wanted,
};

fn rule(n: usize) -> String {
    format!("{}\n", "─".repeat(n))
}

#[test]
fn strategy_by_size() {
    assert_eq!(select_strategy(0), ViewStrategy::FullLoad);
    assert_eq!(select_strategy(999_999), ViewStrategy::FullLoad);
    assert_eq!(select_strategy(1_000_000), ViewStrategy::Streaming);
    assert_eq!(select_strategy(99_999_999), ViewStrategy::Streaming);
    assert_eq!(select_strategy(100_000_000), ViewStrategy::MemoryMapped);
    assert_eq!(select_strategy(u64::MAX), ViewStrategy::MemoryMapped);
    assert_eq!(SMALL_FILE_THRESHOLD, 1_000_000);
    assert_eq!(LARGE_FILE_THRESHOLD, 100_000_000);
}

#[test]
fn strategy_with_other_thresholds() {
    assert_eq!(select_strategy_with(5, 10, 20), ViewStrategy::FullLoad);
    assert_eq!(select_strategy_with(10, 10, 20), ViewStrategy::Streaming);
    assert_eq!(select_strategy_with(20, 10, 20), ViewStrategy::MemoryMapped);
    assert_eq!(select_strategy_with(0, 0, 0), ViewStrategy::MemoryMapped);
}

#[test]
fn strategy_never_falls_as_the_size_grows() {
    let rank = |s: ViewStrategy| match s {
        ViewStrategy::FullLoad => 0,
        ViewStrategy::Streaming => 1,
        ViewStrategy::MemoryMapped => 2,
    };
    let sizes = [0u64, 1, 999_999, 1_000_000, 5_000_000, 99_999_999, 100_000_000, u64::MAX];
    for pair in sizes.windows(2) {
        assert!(rank(select_strategy(pair[0])) <= rank(select_strategy(pair[1])));
    }
}

#[test]
fn viewer_builders_set_what_they_name() {
    let viewer = FileViewer::new(ViewerFormat::Json);
    assert_eq!(viewer.format, ViewerFormat::Json);
    assert_eq!(viewer.strategy, ViewerStrategy::Auto);
    assert_eq!(viewer.max_lines, Some(100));
    assert_eq!(viewer.max_bytes, Some(1024));
    assert_eq!(viewer.delimiter, ',');
    assert_eq!(viewer.preview_size, 65536);
    let changed = viewer
        .with_limits(Some(5), None)
        .with_delimiter(';')
        .with_strategy(ViewerStrategy::MemoryMapped)
        .with_preview_size(1024);
    assert_eq!(changed.max_lines, Some(5));
    assert_eq!(changed.max_bytes, None);
    assert_eq!(changed.delimiter, ';');
    assert_eq!(changed.strategy, ViewerStrategy::MemoryMapped);
    assert_eq!(changed.preview_size, 1024);
    assert_eq!(changed.format, ViewerFormat::Json);
}

#[test]
fn a_binary_view_shows_1024_bytes_unless_told_otherwise() {
    let data = vec![0u8; 2048];
    let out = FileViewer::new(ViewerFormat::Binary)
        .view_file("zeros.bin", &data, &Reading::Bytes)
        .unwrap();
    assert_eq!(out.matches(" |................|\n").count(), 64);
    assert!(out.contains("\n000003f0  00 00"));
    assert!(!out.contains("\n00000400  "));
    assert!(out.contains("\n... (showing first 1024 bytes of 2048)\n"));
}

#[test]
fn formats_and_strategies_are_resolved() {
    let auto = FileViewer::new(ViewerFormat::Auto);
    assert_eq!(auto.resolve_format("a.json", None), ViewerFormat::Json);
    assert_eq!(auto.resolve_format("a.PARQUET", None), ViewerFormat::Parquet);
    assert_eq!(auto.resolve_format("a.dat", Some(b"ab\x00cd")), ViewerFormat::Binary);
    assert_eq!(auto.resolve_format("a.dat", Some(b"abcd")), ViewerFormat::Text);
    assert_eq!(auto.resolve_format("noext", Some(b"\x00")), ViewerFormat::Binary);
    assert_eq!(auto.resolve_format("a.dat", None), ViewerFormat::Text);
    let mut late = vec![b'a'; 512];
    late.push(0);
    assert_eq!(auto.resolve_format("a.dat", Some(&late)), ViewerFormat::Text);
    let forced = FileViewer::new(ViewerFormat::Binary);
    assert_eq!(forced.resolve_format("a.json", Some(b"{}")), ViewerFormat::Binary);
    assert_eq!(auto.resolve_strategy(10), ViewStrategy::FullLoad);
    assert_eq!(auto.resolve_strategy(150_000_000), ViewStrategy::MemoryMapped);
    let streaming = auto.with_strategy(ViewerStrategy::Streaming);
    assert_eq!(streaming.resolve_strategy(10), ViewStrategy::Streaming);
    let full = auto.with_strategy(ViewerStrategy::FullLoad);
    assert_eq!(full.resolve_strategy(u64::MAX), ViewStrategy::FullLoad);
}

#[test]
fn csv_file_with_default_config_is_a_table() {
    let viewer = FileViewer::new(ViewerFormat::Auto);
    let out = viewer.view_file("data.csv", b"a,b\n1,2\n3,4", &Reading::Bytes).unwrap();
    assert!(out.contains("│ a          │ b          │\n"));
    assert!(out.contains("│ 1          │ 2          │\n│ 3          │ 4          │\n"));
    assert!(out.contains("2 columns, 2 rows shown"));
}

#[test]
fn png_signature_viewed_as_binary() {
    let data = [0x89u8, 0x50, 0x4E, 0x47, 0x0D, 0x0A, 0x1A, 0x0A];
    let viewer = FileViewer::new(ViewerFormat::Binary).with_limits(Some(100), Some(1024));
    let out = viewer.view_file("test.png", &data, &Reading::Bytes).unwrap();
    assert!(out.contains("PNG Image"));
    assert!(out.contains("\n00000000  89 50 4e 47"));
}

#[test]
fn json_of_150_megabytes_is_mapped_and_previewed() {
    let size = 150_000_000usize;
    assert_eq!(select_strategy(size as u64), ViewStrategy::MemoryMapped);
    let mut content = vec![b' '; size];
    let mut at = 0usize;
    let mut i = 0;
    while at + 40 < 70_000 {
        let object = format!("{{\"n\":{}}}\n", i);
        content[at..at + object.len()].copy_from_slice(object.as_bytes());
        at += object.len();
        i += 1;
    }
    let viewer = FileViewer::new(ViewerFormat::Auto).with_limits(Some(3), None);
    let out = viewer.view_file("huge.json", &content, &Reading::Bytes).unwrap();
    assert!(out.starts_with("📋 JSON File: huge.json (150000000 bytes, Memory-Mapped)\n"));
    assert!(out.contains("... (showing first 3 items from 65536 bytes preview)"));
    assert!(out.ends_with(
        "\n📊 File too large - showing preview only (65536 of 150000000 bytes)\n"
    ));
    assert_eq!(out.matches("\"n\"").count(), 3);
}

#[test]
fn malformed_yaml_is_viewed_without_failure() {
    let viewer = FileViewer::new(ViewerFormat::Auto);
    let content = "key: value\n  invalid: indentation";
    let out = viewer.view_file("bad.yaml", content.as_bytes(), &Reading::Bytes).unwrap();
    assert!(out.contains("📄 YAML File: bad.yaml"));
    assert!(out.contains("⚠️  Invalid YAML format"));
    assert!(out.contains(content));
}

#[test]
fn a_view_is_repeatable() {
    let viewer = FileViewer::new(ViewerFormat::Auto).with_limits(Some(2), Some(16));
    let names = ["a.txt", "a.csv", "a.json", "a.yaml", "a.toml", "a.bin", "noext"];
    let content = b"x,y\n1,2\n3,4\n5,6\n";
    for name in names {
        let first = viewer.view_file(name, content, &Reading::Bytes);
        let second = viewer.view_file(name, content, &Reading::Bytes);
        assert_eq!(first, second);
    }
}

#[test]
fn a_file_without_a_byte_is_viewed_in_every_format_that_needs_no_content() {
    let formats = [
        ViewerFormat::Auto,
        ViewerFormat::Text,
        ViewerFormat::Binary,
        ViewerFormat::Yaml,
        ViewerFormat::Toml,
        ViewerFormat::Csv,
    ];
    let strategies = [
        ViewerStrategy::Auto,
        ViewerStrategy::FullLoad,
        ViewerStrategy::Streaming,
        ViewerStrategy::MemoryMapped,
    ];
    for format in formats {
        for strategy in strategies {
            let viewer = FileViewer::new(format).with_strategy(strategy);
            assert!(viewer.view_file("empty", b"", &Reading::Bytes).is_ok());
        }
    }
    for strategy in [ViewerStrategy::Streaming, ViewerStrategy::MemoryMapped] {
        let viewer = FileViewer::new(ViewerFormat::Json).with_strategy(strategy);
        assert!(viewer.view_file("empty.json", b"", &Reading::Bytes).is_ok());
    }
    assert!(FileViewer::new(ViewerFormat::Json)
        .view_file("empty.json", b"", &Reading::Bytes)
        .is_err());
    assert_eq!(
        FileViewer::new(ViewerFormat::Text).view_file("empty.txt", b"", &Reading::Bytes).unwrap(),
        format!("📄 Text File: empty.txt\n{}", rule(60))
    );
    assert_eq!(
        FileViewer::new(ViewerFormat::Binary).view_file("empty.bin", b"", &Reading::Bytes).unwrap(),
        format!("🔢 Binary File: empty.bin (0 bytes)\n{}Hex Dump:\n", rule(80))
    );
}

#[test]
fn strategy_override_decides_the_renderer() {
    let content = b"{\"a\":1}\n{\"b\":2}\n";
    let mapped = FileViewer::new(ViewerFormat::Json)
        .with_strategy(ViewerStrategy::MemoryMapped)
        .with_limits(Some(5), None);
    let out = mapped.view_file("x.json", content, &Reading::Bytes).unwrap();
    assert!(out.contains("📋 JSON File"));
    assert!(out.contains("Memory-Mapped"));
    let streamed = FileViewer::new(ViewerFormat::Json)
        .with_strategy(ViewerStrategy::Streaming)
        .with_limits(Some(10), None);
    let out = streamed.view_file("x.json", content, &Reading::Bytes).unwrap();
    assert!(out.contains("JSON File: x.json (Streaming)"));
    let csv = FileViewer::new(ViewerFormat::Csv)
        .with_strategy(ViewerStrategy::MemoryMapped)
        .with_limits(Some(10), None);
    let out = csv.view_file("x.csv", b"id,name\n1,a\n", &Reading::Bytes).unwrap();
    assert!(out.contains("📊 CSV File"));
    assert!(out.contains("Memory-Mapped"));
    assert!(out.contains("Headers:"));
    let window = FileViewer::new(ViewerFormat::Text)
        .with_strategy(ViewerStrategy::MemoryMapped)
        .with_preview_size(4);
    let out = window.view_file("x.txt", b"abcdefgh", &Reading::Bytes).unwrap();
    assert!(out.contains("   1 │ abcd\n"));
    assert!(out.contains("(4 of 8 bytes)"));
}

#[test]
fn format_override_wins_over_the_extension() {
    let viewer = FileViewer::new(ViewerFormat::Json);
    let out = viewer.view_file("data.txt", br#"{"name": "test"}"#, &Reading::Bytes).unwrap();
    assert!(out.contains("📋 JSON File"));
    let delimiter = FileViewer::new(ViewerFormat::Auto).with_delimiter('|');
    let out = delimiter.view_file("pipe.csv", b"a|b|c\n1|2|3", &Reading::Bytes).unwrap();
    assert!(out.contains("3 columns, 1 rows shown"));
}

#[test]
fn columnar_files_are_viewed_from_what_was_read() {
    let viewer = FileViewer::new(ViewerFormat::Auto).with_limits(Some(7), None);
    match viewer.view_file("d.parquet", b"PAR1", &Reading::Bytes) {
        Err(ViewError::Parse(message)) => assert!(message.contains("Parquet")),
        other => panic!("unexpected: {:?}", other),
    }
    let metadata = ParquetMetadata {
        version: 2,
        created_by: None,
        num_rows: 0,
        row_groups: vec![],
        columns: vec![],
    };
    let data = ParquetData { column_names: vec![], batches: vec![] };
    let out = viewer.view_columnar("d.parquet", &metadata, &Ok(data.clone()));
    assert!(out.starts_with("📊 Parquet File: d.parquet\n"));
    assert!(out.ends_with("Schema:\n\nNo data found in parquet file.\n"));

    assert_eq!(viewer.wanted("d.parquet", b"PAR1"), Wanted::Columnar);
    let read = Reading::Columnar(metadata, Ok(data));
    assert_eq!(viewer.view_file("d.parquet", b"PAR1", &read), Ok(out));
    let unreadable = Reading::Unreadable("no footer".to_string());
    assert_eq!(
        viewer.view_file("d.parquet", b"PAR1", &unreadable),
        Err(ViewError::Parse("no footer".to_string()))
    );
}

#[test]
fn a_text_that_is_loaded_whole_is_shown_highlighted_where_it_was() {
    let viewer = FileViewer::new(ViewerFormat::Auto).with_limits(Some(1), None);
    assert_eq!(viewer.wanted("a.rs", b"fn a() {}\nfn b() {}\n"), Wanted::Highlighting);
    assert_eq!(viewer.wanted("a.json", b"{}"), Wanted::Bytes);
    let streamed = viewer.with_strategy(ViewerStrategy::Streaming);
    assert_eq!(streamed.wanted("a.rs", b"fn a() {}\n"), Wanted::Bytes);

    let lines = vec!["<fn a>\n".to_string(), "<fn b>\n".to_string()];
    let read = Reading::Highlighted("a.rs".to_string(), "Rust".to_string(), lines);
    let out = viewer.view_file("src/a.rs", b"fn a() {}\nfn b() {}\n", &read).unwrap();
    let expected = format!(
        "📄 a.rs (Rust)\n{}\n   1 │ <fn a>\n\n... (showing first 1 lines)\n",
        "─".repeat(60)
    );
    assert_eq!(out, expected);
    // a reading that the view does not want changes nothing
    let plain = streamed.view_file("src/a.rs", b"fn a() {}\n", &Reading::Bytes);
    assert_eq!(streamed.view_file("src/a.rs", b"fn a() {}\n", &read), plain);
}

#[test]
fn view_error_has_a_message() {
    assert_eq!(ViewError::Io("gone".to_string()).message(), "gone");
    assert_eq!(ViewError::Parse("bad".to_string()).message(), "bad");
}
