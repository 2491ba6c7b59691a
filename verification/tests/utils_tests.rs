use denarborea::sizes::{invalid_size_message, split_size, SizeText};
use denarborea::stats::count_type;
use denarborea::utils::{
    count_entries, format_permissions, get_file_extension, is_hidden, wildcard_matches,
};

// A size in bytes: the library takes the text apart, and the number is
// read and scaled as a floating-point number, as the program does it.
fn parse_size(size_str: &Option<String>) -> Result<Option<u64>, String> {
    match size_str {
        Some(s) => {
            let parts = split_size(s);
            if parts.text.is_empty() {
                return Err(invalid_size_message(""));
            }
            match parts.number.parse::<f64>() {
                Ok(num) if num < 0.0 => Err(invalid_size_message(&parts.text)),
                Ok(num) => Ok(Some((num * parts.unit as f64) as u64)),
                Err(_) => Err(invalid_size_message(&parts.text)),
            }
        }
        None => Ok(None),
    }
}

fn parts(text: &str, number: &str, unit: u64) -> SizeText {
    SizeText { text: text.to_string(), number: number.to_string(), unit }
}

#[test]
fn test_parse_size_bytes() {
    assert_eq!(parse_size(&Some("100".to_string())).unwrap(), Some(100));
    assert_eq!(parse_size(&Some("0".to_string())).unwrap(), Some(0));
}

#[test]
fn test_parse_size_kilobytes() {
    assert_eq!(parse_size(&Some("1KB".to_string())).unwrap(), Some(1024));
    assert_eq!(parse_size(&Some("1kb".to_string())).unwrap(), Some(1024));
    assert_eq!(parse_size(&Some("1K".to_string())).unwrap(), Some(1024));
    assert_eq!(parse_size(&Some("1k".to_string())).unwrap(), Some(1024));
    assert_eq!(parse_size(&Some("2KB".to_string())).unwrap(), Some(2048));
}

#[test]
fn test_parse_size_megabytes() {
    assert_eq!(parse_size(&Some("1MB".to_string())).unwrap(), Some(1024 * 1024));
    assert_eq!(parse_size(&Some("1mb".to_string())).unwrap(), Some(1024 * 1024));
    assert_eq!(parse_size(&Some("1M".to_string())).unwrap(), Some(1024 * 1024));
    assert_eq!(parse_size(&Some("2MB".to_string())).unwrap(), Some(2 * 1024 * 1024));
}

#[test]
fn test_parse_size_gigabytes() {
    assert_eq!(parse_size(&Some("1GB".to_string())).unwrap(), Some(1024 * 1024 * 1024));
    assert_eq!(parse_size(&Some("1gb".to_string())).unwrap(), Some(1024 * 1024 * 1024));
    assert_eq!(parse_size(&Some("1G".to_string())).unwrap(), Some(1024 * 1024 * 1024));
}

#[test]
fn test_parse_size_terabytes() {
    assert_eq!(parse_size(&Some("1TB".to_string())).unwrap(), Some(1024_u64.pow(4)));
    assert_eq!(parse_size(&Some("1tb".to_string())).unwrap(), Some(1024_u64.pow(4)));
    assert_eq!(parse_size(&Some("1T".to_string())).unwrap(), Some(1024_u64.pow(4)));
}

#[test]
fn test_parse_size_none() {
    assert_eq!(parse_size(&None).unwrap(), None);
}

#[test]
fn test_parse_size_invalid() {
    assert!(parse_size(&Some("invalid".to_string())).is_err());
    assert!(parse_size(&Some("".to_string())).is_err());
    assert!(parse_size(&Some("1XB".to_string())).is_err());
    assert!(parse_size(&Some("-1MB".to_string())).is_err());
}

#[test]
fn test_parse_size_decimal() {
    assert_eq!(parse_size(&Some("1.5KB".to_string())).unwrap(), Some(1536)); // 1.5 * 1024
    assert_eq!(parse_size(&Some("2.5MB".to_string())).unwrap(), Some((2.5 * 1024.0 * 1024.0) as u64));
}

#[test]
fn test_parse_size_with_spaces() {
    assert_eq!(parse_size(&Some(" 1MB ".to_string())).unwrap(), Some(1024 * 1024));
    assert_eq!(parse_size(&Some("1 MB".to_string())).unwrap(), Some(1024 * 1024));
}

#[test]
fn sizes_are_taken_apart_at_their_unit() {
    assert_eq!(split_size("100"), parts("100", "100", 1));
    assert_eq!(split_size(" 1.5kb "), parts("1.5KB", "1.5", 1 << 10));
    assert_eq!(split_size("1 MB"), parts("1 MB", "1", 1 << 20));
    assert_eq!(split_size("2g"), parts("2G", "2", 1 << 30));
    assert_eq!(split_size("3T"), parts("3T", "3", 1 << 40));
    assert_eq!(split_size("3tb"), parts("3TB", "3", 1 << 40));
    assert_eq!(split_size("7BBB"), parts("7BBB", "7", 1));
    assert_eq!(split_size("1TBTB"), parts("1TBTB", "1", 1 << 40));
    assert_eq!(split_size("1TTB"), parts("1TTB", "1T", 1 << 40));
    assert_eq!(split_size("1e3"), parts("1E3", "1E3", 1));
    assert_eq!(split_size("-1MB"), parts("-1MB", "-1", 1 << 20));
    assert_eq!(split_size("KB"), parts("KB", "", 1 << 10));
    assert_eq!(split_size("  "), parts("", "", 1));
    assert_eq!(split_size("invalid"), parts("INVALID", "INVALID", 1));
}

#[test]
fn sizes_with_exponents_and_beyond_the_largest() {
    assert_eq!(parse_size(&Some("1e3".to_string())).unwrap(), Some(1000));
    assert_eq!(parse_size(&Some("1e3K".to_string())).unwrap(), Some(1024000));
    assert_eq!(parse_size(&Some("inf".to_string())).unwrap(), Some(u64::MAX));
    assert_eq!(parse_size(&Some("17000000T".to_string())).unwrap(), Some(u64::MAX));
    assert_eq!(parse_size(&Some("-0".to_string())).unwrap(), Some(0));
    assert!(parse_size(&Some("-0.0001".to_string())).is_err());
}

#[test]
fn parse_size_messages_name_the_text() {
    assert_eq!(invalid_size_message(""), "Invalid size format ");
    assert_eq!(
        parse_size(&Some("  ".to_string())),
        Err("Invalid size format ".to_string())
    );
    assert_eq!(
        parse_size(&Some(" 1xb ".to_string())),
        Err("Invalid size format 1XB".to_string())
    );
    assert_eq!(parse_size(&Some("KB".to_string())), Err("Invalid size format KB".to_string()));
}

#[test]
fn hidden_files_start_with_a_dot() {
    assert!(is_hidden(".gitignore"));
    assert!(is_hidden("dir/.hidden"));
    assert!(!is_hidden("visible.txt"));
    assert!(!is_hidden(".hidden/visible"));
    assert!(!is_hidden(".."));
    assert!(!is_hidden(""));
}

#[test]
fn extensions_come_in_lower_case() {
    assert_eq!(get_file_extension("a/b/Photo.JPG"), Some("jpg".to_string()));
    assert_eq!(get_file_extension("archive.tar.gz"), Some("gz".to_string()));
    assert_eq!(get_file_extension("noext"), None);
    assert_eq!(get_file_extension(".bashrc"), None);
}

#[test]
fn permissions_as_nine_letters() {
    assert_eq!(format_permissions(0o755), "rwxr-xr-x");
    assert_eq!(format_permissions(0o644), "rw-r--r--");
    assert_eq!(format_permissions(0o000), "---------");
    assert_eq!(format_permissions(0o100777), "rwxrwxrwx");
    assert_eq!(format_permissions(0o421), "r---w---x");
}

// The entries of a directory are given by what each of them is: a
// directory (`true`) or not (`false`).

#[test]
fn test_count_files_in_empty_dir() {
    let (files, dirs) = count_entries(&[]);
    assert_eq!(files, 0);
    assert_eq!(dirs, 0);
}

#[test]
fn test_count_files_in_dir_with_files() {
    let (files, dirs) = count_entries(&[false, false, false]);
    assert_eq!(files, 3);
    assert_eq!(dirs, 0);
}

#[test]
fn test_count_files_in_dir_with_subdirs() {
    let (files, dirs) = count_entries(&[true, true, false]);
    assert_eq!(files, 1);
    assert_eq!(dirs, 2);
}

#[test]
fn test_count_files_nested_structure() {
    let (files, dirs) = count_entries(&[true, true]);
    assert_eq!(files, 0); // Only direct children
    assert_eq!(dirs, 2); // subdir1 and subdir2
}

#[test]
fn test_count_files_with_hidden_files() {
    let (files, dirs) = count_entries(&[false, false]);
    assert_eq!(files, 2); // Both hidden and visible files are counted
    assert_eq!(dirs, 0);
}

#[test]
fn test_count_files_nonexistent_dir() {
    let (files, dirs) = count_entries(&[]);
    assert_eq!(files, 0);
    assert_eq!(dirs, 0);
}

#[test]
fn patterns_with_a_star() {
    assert!(wildcard_matches("main.rs", "*.rs"));
    assert!(wildcard_matches("main.rs", "main*"));
    assert!(wildcard_matches("main.rs", "m*s"));
    // the start and the end may overlap
    assert!(wildcard_matches("ab", "ab*ab"));
    assert!(!wildcard_matches("ab", "abc*ab"));
    assert!(wildcard_matches("abab", "ab*ab"));
    assert!(!wildcard_matches("Main.rs", "main*"));
    assert!(wildcard_matches("src/main.rs", "main"));
    assert!(wildcard_matches("anything", ""));
    assert!(wildcard_matches("", ""));
    assert!(!wildcard_matches("a.rs", "*.*.rs"));
    assert!(wildcard_matches("a*.*.rs", "*.*.rs"));
}

#[test]
fn types_are_counted_by_extension() {
    let mut types = Vec::new();
    count_type(&mut types, "rs".to_string());
    count_type(&mut types, "py".to_string());
    count_type(&mut types, "rs".to_string());
    assert_eq!(types, vec![("rs".to_string(), 2), ("py".to_string(), 1)]);
}
