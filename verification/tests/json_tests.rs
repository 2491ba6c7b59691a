use denarborea::viewer::json_stream::{
    push_items_listing, view_json_full_load, view_json_memory_mapped, view_json_streaming,
    view_large_json,
};
use denarborea::viewer::structured::{
    analyze_json, render_document, render_json_file, view_json_file, view_toml_file,
    view_yaml_file, FirstItem, JsonShape, Reformatted,
};
use denarborea::ViewError;

fn first(
    is_object: bool,
    is_array: bool,
    is_string: bool,
    is_number: bool,
    is_boolean: bool,
) -> Option<FirstItem> {
    Some(FirstItem { is_object, is_array, is_string, is_number, is_boolean })
}

fn rule(n: usize) -> String {
    format!("{}\n", "─".repeat(n))
}

#[test]
fn json_file_is_pretty_with_a_summary() {
    let out = view_json_file("p.json", br#"{"name": "test", "value": 42}"#).unwrap();
    let expected = format!(
        "📋 JSON File: p.json\n{}{{\n  \"name\": \"test\",\n  \"value\": 42\n}}\n\n📊 Summary: Object with 2 keys",
        rule(60)
    );
    assert_eq!(out, expected);
}

#[test]
fn json_summaries_by_shape() {
    let summary = |text: &str| {
        let out = view_json_file("p", text.as_bytes()).unwrap();
        out.rsplit("📊 Summary: ").next().unwrap().to_string()
    };
    assert_eq!(summary(r#"[{"id": 1}, {"id": 2}, {"id": 3}]"#), "Array of 3 items (objects)");
    assert_eq!(summary("[1.5, 2]"), "Array of 2 items (numbers)");
    assert_eq!(summary("[-1]"), "Array of 1 items (numbers)");
    assert_eq!(summary(r#"["a", 1]"#), "Array of 2 items (strings)");
    assert_eq!(summary("[null]"), "Array of 1 items (nulls)");
    assert_eq!(summary("[true, false]"), "Array of 2 items (booleans)");
    assert_eq!(summary("[false]"), "Array of 1 items (booleans)");
    assert_eq!(summary("[[1], 2]"), "Array of 2 items (arrays)");
    assert_eq!(summary("[]"), "Empty array");
    assert_eq!(summary("\"héllo\""), "String (6 characters)");
    assert_eq!(summary("42"), "Number (42)");
    assert_eq!(summary("-1.5e3"), "Number (-1500.0)");
    assert_eq!(summary("true"), "Boolean (true)");
    assert_eq!(summary("false"), "Boolean (false)");
    assert_eq!(summary("null"), "Null value");
    assert_eq!(summary("{}"), "Object with 0 keys");
}

#[test]
fn analyze_json_by_shape() {
    assert_eq!(analyze_json(&JsonShape::Object(3)), "Object with 3 keys");
    assert_eq!(analyze_json(&JsonShape::Array(0, None)), "Empty array");
    assert_eq!(
        analyze_json(&JsonShape::Array(2, first(true, false, false, false, false))),
        "Array of 2 items (objects)"
    );
    assert_eq!(
        analyze_json(&JsonShape::Array(2, first(false, true, false, false, false))),
        "Array of 2 items (arrays)"
    );
    assert_eq!(
        analyze_json(&JsonShape::Array(2, first(false, false, true, false, false))),
        "Array of 2 items (strings)"
    );
    assert_eq!(
        analyze_json(&JsonShape::Array(2, first(false, false, false, true, false))),
        "Array of 2 items (numbers)"
    );
    assert_eq!(
        analyze_json(&JsonShape::Array(2, first(false, false, false, false, true))),
        "Array of 2 items (booleans)"
    );
    assert_eq!(
        analyze_json(&JsonShape::Array(2, first(false, false, false, false, false))),
        "Array of 2 items (nulls)"
    );
    assert_eq!(analyze_json(&JsonShape::Text(5)), "String (5 characters)");
    assert_eq!(analyze_json(&JsonShape::Number("1.0".to_string())), "Number (1.0)");
    assert_eq!(analyze_json(&JsonShape::Bool(false)), "Boolean (false)");
    assert_eq!(analyze_json(&JsonShape::Null), "Null value");
}

#[test]
fn json_file_fails_on_a_malformed_document() {
    match view_json_file("bad.json", br#"{"incomplete": true"#) {
        Err(ViewError::Parse(message)) => assert!(message.contains("EOF while parsing")),
        other => panic!("unexpected: {:?}", other),
    }
    assert!(view_json_file("empty.json", b"").is_err());
    assert_eq!(
        view_json_file("p", b"\"\xff\""),
        Err(ViewError::Parse("stream did not contain valid UTF-8".to_string()))
    );
}

#[test]
fn json_full_load_is_the_pretty_document() {
    assert_eq!(view_json_full_load(b"[1,2]").unwrap(), "[\n  1,\n  2\n]");
    assert!(view_json_full_load(b"[1,2").is_err());
    assert!(view_json_full_load(b"1 2").is_err());
}

#[test]
fn json_stream_of_two_hundred_objects_shows_five() {
    let mut content = String::new();
    for i in 0..200 {
        content.push_str(&format!("{{\"id\":{}}}\n", i));
    }
    assert!(content.len() > 1900 && content.len() < 2200);
    let out = view_json_streaming("data.json", content.as_bytes(), 5);
    let expected = format!(
        "📋 JSON File: data.json (Streaming)\n{}{{\n  \"id\": 0\n}}\n{{\n  \"id\": 1\n}}\n{{\n  \"id\": 2\n}}\n{{\n  \"id\": 3\n}}\n{{\n  \"id\": 4\n}}\n... (showing first 5 items of large file)\n",
        rule(60)
    );
    assert_eq!(out, expected);
    assert_eq!(out.matches("\"id\"").count(), 5);
    assert!(out.contains("first 5 items"));
}

#[test]
fn json_stream_counts_a_single_array_as_one_item() {
    let out = view_json_streaming("a.json", b"[1,2,3]", 5);
    assert_eq!(
        out,
        format!("📋 JSON File: a.json (Streaming)\n{}[\n  1,\n  2,\n  3\n]", rule(60))
    );
}

#[test]
fn json_stream_reports_the_error_that_ends_it() {
    let out = view_json_streaming("p", b"1 2 {\"a\" 3} 4", 10);
    assert!(out.starts_with(&format!(
        "📋 JSON File: p (Streaming)\n{}1\n2\nError parsing JSON at item 3: expected `:`",
        rule(60)
    )));
    assert!(!out.contains('4'));
    let empty = view_json_streaming("p", b"  \n ", 10);
    assert_eq!(empty, format!("📋 JSON File: p (Streaming)\n{}", rule(60)));
}

#[test]
fn json_memory_mapped_stops_silently_at_the_cut() {
    let content = b"{\"a\":1} {\"b\":2} {\"c\":3}";
    let out = view_json_memory_mapped("p", content, 12, 10);
    let expected = format!(
        "📋 JSON File: p (23 bytes, Memory-Mapped)\n{}{{\n  \"a\": 1\n}}\n📊 File too large - showing preview only (12 of 23 bytes)\n",
        rule(60)
    );
    assert_eq!(out, expected);
    let limited = view_json_memory_mapped("p", content, 65536, 2);
    assert!(limited.ends_with("}\n... (showing first 2 items from 23 bytes preview)\n"));
}

#[test]
fn items_listing_is_exact() {
    let items = vec![Ok("1".to_string()), Ok("2".to_string()), Err("boom".to_string())];
    let mut out = String::from(">");
    push_items_listing(&mut out, &items, 5, true, "NOTICE");
    assert_eq!(out, ">1\n2\nError parsing JSON at item 3: boom");
    let mut quiet = String::new();
    push_items_listing(&mut quiet, &items, 5, false, "NOTICE");
    assert_eq!(quiet, "1\n2");
    let mut limited = String::new();
    push_items_listing(&mut limited, &items, 2, true, "NOTICE");
    assert_eq!(limited, "1\n2NOTICE");
    let mut exact = String::new();
    push_items_listing(&mut exact, &items[..2].to_vec(), 2, true, "NOTICE");
    assert_eq!(exact, "1\n2");
}

#[test]
fn large_json_of_a_small_file_must_be_one_document() {
    assert_eq!(view_large_json("p", b"{\"a\": [1]}", Some(1)).unwrap(), "{\n  \"a\": [\n    1\n  ]\n}");
    assert!(view_large_json("p", b"{\"a\":1} {\"b\":2}", None).is_err());
}

#[test]
fn yaml_file_is_reformatted_with_a_summary() {
    let out = view_yaml_file("p.yaml", b"name:   test\nvalue: 42").unwrap();
    let expected = format!(
        "📄 YAML File: p.yaml\n{}name: test\nvalue: 42\n\n📊 Summary: Object with 2 keys",
        rule(60)
    );
    assert_eq!(out, expected);
}

#[test]
fn malformed_yaml_is_shown_raw_under_a_warning() {
    let content = "key: value\n  invalid: indentation";
    let out = view_yaml_file("bad.yaml", content.as_bytes()).unwrap();
    assert!(out.starts_with(&format!(
        "📄 YAML File: bad.yaml\n{}⚠️  Invalid YAML format\nError: ",
        rule(60)
    )));
    assert!(out.ends_with("\n\nRaw content:\nkey: value\n  invalid: indentation"));
}

#[test]
fn empty_yaml_and_toml_are_documents() {
    let yaml = view_yaml_file("e.yaml", b"").unwrap();
    assert_eq!(
        yaml,
        format!("📄 YAML File: e.yaml\n{}null\n\n📊 Summary: Null value", rule(60))
    );
    let toml = view_toml_file("e.toml", b"").unwrap();
    assert_eq!(
        toml,
        format!("⚙️  TOML File: e.toml\n{}\n📊 Summary: Object with 0 keys", rule(60))
    );
}

#[test]
fn toml_file_is_reformatted_with_a_summary() {
    let out = view_toml_file("p.toml", b"[package]\nname    =   \"test\"").unwrap();
    let expected = format!(
        "⚙️  TOML File: p.toml\n{}[package]\nname = \"test\"\n\n📊 Summary: Object with 1 keys",
        rule(60)
    );
    assert_eq!(out, expected);
}

#[test]
fn malformed_toml_is_shown_raw_under_a_warning() {
    let content = "[section\nkey = value";
    let out = view_toml_file("bad.toml", content.as_bytes()).unwrap();
    assert!(out.contains("⚠️  Invalid TOML format\nError: "));
    assert!(out.ends_with("\n\nRaw content:\n[section\nkey = value"));
    assert!(view_toml_file("bad.toml", b"\xff").is_err());
}

#[test]
fn render_document_is_exact() {
    let valid = Reformatted::Valid("a: 1\n".to_string(), Some("{\"a\":1}".to_string()));
    assert_eq!(
        render_document("B ", "p", &valid, "a:   1", "W\n").unwrap(),
        format!("B p\n{}a: 1\n\n📊 Summary: Object with 1 keys", rule(60))
    );
    let no_json = Reformatted::Valid("a: 1\n".to_string(), None);
    assert_eq!(
        render_document("B ", "p", &no_json, "a:   1", "W\n").unwrap(),
        format!("B p\n{}a: 1\n", rule(60))
    );
    let invalid = Reformatted::Invalid("oops".to_string());
    assert_eq!(
        render_document("B ", "p", &invalid, "raw text", "W\n").unwrap(),
        format!("B p\n{}W\nError: oops\n\nRaw content:\nraw text", rule(60))
    );
    let unprintable = Reformatted::Unprintable("no way".to_string());
    assert_eq!(
        render_document("B ", "p", &unprintable, "raw text", "W\n"),
        Err(ViewError::Parse("no way".to_string()))
    );
}

#[test]
fn render_json_file_is_exact() {
    assert_eq!(
        render_json_file("p", "[]", &JsonShape::Array(0, None)),
        format!("📋 JSON File: p\n{}[]\n\n📊 Summary: Empty array", rule(60))
    );
    assert_eq!(
        render_json_file("p", "1", &JsonShape::Number("1".to_string())),
        format!("📋 JSON File: p\n{}1\n\n📊 Summary: Number (1)", rule(60))
    );
}

#[test]
fn an_array_is_summed_up_by_its_first_item() {
    let cases = [
        ("[{}, 1]", "Array of 2 items (objects)"),
        ("[[1], 1]", "Array of 2 items (arrays)"),
        ("[\"a\"]", "Array of 1 items (strings)"),
        ("[1.5, null]", "Array of 2 items (numbers)"),
        ("[true]", "Array of 1 items (booleans)"),
        ("[false, 1]", "Array of 2 items (booleans)"),
        ("[null, 1]", "Array of 2 items (nulls)"),
        ("[]", "Empty array"),
        ("{\"a\": 1, \"b\": 2}", "Object with 2 keys"),
        ("\"héllo\"", "String (6 characters)"),
        ("-12.5", "Number (-12.5)"),
        ("true", "Boolean (true)"),
        ("null", "Null value"),
    ];
    for (text, summary) in cases {
        let out = view_json_file("p.json", text.as_bytes()).unwrap();
        assert!(out.ends_with(&format!("\n\n📊 Summary: {}", summary)), "{}", out);
    }
}
