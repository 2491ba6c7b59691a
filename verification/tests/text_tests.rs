use denarborea::lines::split_lines;
use denarborea::viewer::text::{
    push_numbered_lines, render_highlighted, view_large_text, view_text_file,
    view_text_full_load, view_text_memory_mapped, view_text_streaming,
};

fn rule(n: usize) -> String {
    format!("{}\n", "─".repeat(n))
}

#[test]
fn lines_end_at_line_feeds() {
    let found = split_lines(b"one\r\ntwo\n\nthree\r", 10);
    let expected: Vec<&[u8]> = vec![b"one", b"two", b"", b"three\r"];
    assert_eq!(found, expected);
    assert_eq!(split_lines(b"", 10).len(), 0);
    assert_eq!(split_lines(b"\n", 10), vec![b"" as &[u8]]);
    assert_eq!(split_lines(b"a\nb\nc", 2), vec![b"a" as &[u8], b"b"]);
    assert_eq!(split_lines(b"a\nb\nc\n", 100).len(), 3);
}

#[test]
fn full_load_joins_the_first_lines() {
    assert_eq!(view_text_full_load(b"a\r\nb\nc\n", 2), "a\nb");
    assert_eq!(view_text_full_load(b"a\r\nb\nc\n", 100), "a\nb\nc");
    assert_eq!(view_text_full_load(b"a\nb", 0), "");
    assert_eq!(view_text_full_load(b"", 5), "");
}

#[test]
fn full_load_decodes_lossily() {
    assert_eq!(view_text_full_load(b"ok\n\xff\xfebad", 10), "ok\n\u{fffd}\u{fffd}bad");
    assert_eq!(view_text_full_load("héllo\nwörld".as_bytes(), 10), "héllo\nwörld");
}

#[test]
fn streaming_numbers_lines_and_notes_the_limit() {
    let out = view_text_streaming("f.txt", b"a\nb\nc", 2);
    let expected = format!(
        "📄 Text File: f.txt (Streaming)\n{}   1 │ a\n   2 │ b\n\n... (showing first 2 lines of large file)\n",
        rule(60)
    );
    assert_eq!(out, expected);
}

#[test]
fn streaming_without_more_lines_has_no_notice() {
    let out = view_text_streaming("f.txt", b"a\nb\n", 2);
    let expected = format!("📄 Text File: f.txt (Streaming)\n{}   1 │ a\n   2 │ b\n", rule(60));
    assert_eq!(out, expected);
    let empty = view_text_streaming("e", b"", 5);
    assert_eq!(empty, format!("📄 Text File: e (Streaming)\n{}", rule(60)));
}

#[test]
fn streaming_with_limit_zero_shows_only_the_notice() {
    let out = view_text_streaming("f", b"line1\nline2\nline3", 0);
    assert_eq!(
        out,
        format!(
            "📄 Text File: f (Streaming)\n{}\n... (showing first 0 lines of large file)\n",
            rule(60)
        )
    );
}

#[test]
fn line_numbers_widen_beyond_four_digits() {
    let mut content = String::new();
    for i in 0..10001 {
        content.push_str(&format!("l{}\n", i));
    }
    let out = view_text_streaming("big", content.as_bytes(), 20000);
    assert!(out.contains("\n9999 │ l9998\n10000 │ l9999\n10001 │ l10000\n"));
    assert!(out.contains("\n   9 │ l8\n  10 │ l9\n"));
}

#[test]
fn memory_mapped_shows_the_window_only() {
    let out = view_text_memory_mapped("p", b"line1\nline2\n", 8, 10);
    let expected = format!(
        "📄 Text File: p (12 bytes, Memory-Mapped)\n{}   1 │ line1\n   2 │ li\n\n📊 File too large - showing preview only (8 of 12 bytes)\n",
        rule(60)
    );
    assert_eq!(out, expected);
}

#[test]
fn memory_mapped_within_the_window_has_no_note() {
    let out = view_text_memory_mapped("p", b"a\nb\nc\n", 65536, 2);
    let expected = format!(
        "📄 Text File: p (6 bytes, Memory-Mapped)\n{}   1 │ a\n   2 │ b\n\n... (showing first 2 lines from preview)\n",
        rule(60)
    );
    assert_eq!(out, expected);
}

#[test]
fn memory_mapped_decodes_a_cut_character_lossily() {
    let out = view_text_memory_mapped("p", "aé".as_bytes(), 2, 10);
    assert!(out.contains("   1 │ a\u{fffd}\n"));
    assert!(out.contains("showing preview only (2 of 3 bytes)"));
}

#[test]
fn stream_and_window_agree_on_the_rows_before_the_cut() {
    let mut content = Vec::new();
    for i in 0..50 {
        content.extend_from_slice(format!("row number {}\n", i).as_bytes());
    }
    let streamed = view_text_streaming("p", &content, 1000);
    let mapped = view_text_memory_mapped("p", &content, 100, 1000);
    let streamed_rows: Vec<&str> = streamed.lines().skip(2).collect();
    let mapped_rows: Vec<&str> = mapped.lines().skip(2).collect();
    let in_window = content[..100].iter().filter(|b| **b == b'\n').count();
    assert!(in_window >= 5);
    for i in 0..in_window {
        assert_eq!(streamed_rows[i], mapped_rows[i]);
    }
    let whole = view_text_memory_mapped("p", &content, content.len(), 1000);
    let whole_rows: Vec<&str> = whole.lines().skip(2).collect();
    assert_eq!(streamed_rows, whole_rows);
}

#[test]
fn stream_and_window_agree_on_a_line_that_ends_the_window() {
    let content = b"ab\r\ncd\nef";
    let streamed = view_text_streaming("p", content, 10);
    let streamed_rows: Vec<&str> = streamed.lines().skip(2).collect();
    assert_eq!(streamed_rows, vec!["   1 │ ab", "   2 │ cd", "   3 │ ef"]);
    // the window ends right behind the line feed of the second line
    let mapped = view_text_memory_mapped("p", content, 7, 10);
    let mapped_rows: Vec<&str> = mapped.lines().skip(2).collect();
    assert_eq!(mapped_rows[..2], streamed_rows[..2]);
    assert_eq!(mapped.matches(" │ ").count(), 2);
    // and right behind that of the first
    let mapped = view_text_memory_mapped("p", content, 4, 10);
    let mapped_rows: Vec<&str> = mapped.lines().skip(2).collect();
    assert_eq!(mapped_rows[0], streamed_rows[0]);
    assert_eq!(mapped.matches(" │ ").count(), 1);
    // a window that ends within a line shows the line cut short
    let mapped = view_text_memory_mapped("p", content, 5, 10);
    assert!(mapped.contains("   2 │ c\n"));
}

#[test]
fn no_strategy_shows_more_lines_than_the_limit() {
    let content = b"1\n2\n3\n4\n5\n6\n7\n8\n9\n10\n";
    for k in 0..12usize {
        let shown = if k < 10 { k } else { 10 };
        let full = view_text_full_load(content, k);
        assert_eq!(full.lines().count(), shown);
        let streamed = view_text_streaming("p", content, k);
        assert_eq!(streamed.matches(" │ ").count(), shown);
        let mapped = view_text_memory_mapped("p", content, 1 << 16, k);
        assert_eq!(mapped.matches(" │ ").count(), shown);
        let plain = view_text_file("p", content, Some(k));
        assert_eq!(plain.matches(" │ ").count(), shown);
    }
}

#[test]
fn plain_listing_decodes_lossily() {
    let out = view_text_file("t.txt", b"good\n\xff\xfe\nfine", None);
    let expected = format!(
        "📄 Text File: t.txt\n{}   1 │ good\n   2 │ \u{fffd}\u{fffd}\n   3 │ fine\n",
        rule(60)
    );
    assert_eq!(out, expected);
}

#[test]
fn plain_listing_notes_the_limit() {
    let content = (0..100).map(|i| format!("Line {}", i)).collect::<Vec<_>>().join("\n");
    let out = view_text_file("large.txt", content.as_bytes(), Some(10));
    assert!(out.contains("Line 0"));
    assert!(out.contains("Line 9"));
    assert!(out.contains("\n... (showing first 10 lines)\n"));
    assert!(!out.contains("Line 50"));
    let zero = view_text_file("t", b"line1\nline2\nline3", Some(0));
    assert!(zero.contains("showing first 0 lines"));
    let all = view_text_file("short.txt", b"line1\nline2", Some(100));
    assert!(all.contains("line1") && all.contains("line2"));
    assert!(!all.contains("showing first"));
}

#[test]
fn large_text_of_a_small_file_is_loaded_whole() {
    assert_eq!(view_large_text("p", b"x\ny\nz", Some(2)), "x\ny");
    let all: Vec<String> = (1..=150).map(|i| format!("L{}", i)).collect();
    let content = all.join("\n");
    assert_eq!(view_large_text("p", content.as_bytes(), None), content);
    assert_eq!(view_large_text("p", content.as_bytes(), Some(100)).lines().count(), 100);
}

#[test]
fn large_text_streams_a_file_of_a_megabyte() {
    let content = "0123456789\n".repeat(100_000);
    assert!(content.len() >= 1_000_000);
    let out = view_large_text("big.txt", content.as_bytes(), Some(3));
    assert!(out.starts_with("📄 Text File: big.txt (Streaming)\n"));
    assert!(out.ends_with("   3 │ 0123456789\n\n... (showing first 3 lines of large file)\n"));
}

#[test]
fn highlighted_lines_are_numbered_under_a_banner() {
    let lines = vec!["fn main() {\n".to_string(), "}\n".to_string(), "// end".to_string()];
    let all = render_highlighted("main.rs", "Rust", &lines, None);
    assert_eq!(
        all,
        format!("📄 main.rs (Rust)\n{}   1 │ fn main() {{\n   2 │ }}\n   3 │ // end", rule(60))
    );
    let limited = render_highlighted("main.rs", "Rust", &lines, Some(2));
    assert_eq!(
        limited,
        format!(
            "📄 main.rs (Rust)\n{}   1 │ fn main() {{\n   2 │ }}\n\n... (showing first 2 lines)\n",
            rule(60)
        )
    );
    let exact = render_highlighted("main.rs", "Rust", &lines, Some(3));
    assert_eq!(exact, all);
    let empty = render_highlighted("empty.txt", "Plain Text", &Vec::new(), Some(5));
    assert_eq!(empty, format!("📄 empty.txt (Plain Text)\n{}", rule(60)));
}

#[test]
fn numbered_lines_are_exact() {
    let mut out = String::from("head\n");
    push_numbered_lines(&mut out, &vec!["one".to_string(), "".to_string(), "drei".to_string()]);
    assert_eq!(out, "head\n   1 │ one\n   2 │ \n   3 │ drei\n");
    let mut none = String::new();
    push_numbered_lines(&mut none, &Vec::new());
    assert_eq!(none, "");
}
