use denarborea::tree::{missing_root_message, Admission, EntryKind, TreeVisualizer};
use denarborea::{Config, FileInfo, OutputFormat, SortBy};

// A directory as a walk finds it: the paths below the root in the order of
// the walk, each with what it is and with its size.
struct Found {
    path: &'static str,
    is_dir: bool,
    size: u64,
}

fn file(path: &'static str, content: &str) -> Found {
    Found { path, is_dir: false, size: content.len() as u64 }
}

fn dir(path: &'static str) -> Found {
    Found { path, is_dir: true, size: 0 }
}

fn info(found: &Found) -> FileInfo {
    FileInfo {
        path: found.path.to_string(),
        absolute_path: found.path.to_string(),
        name: found.path.rsplit('/').next().unwrap().to_string(),
        size: found.size,
        is_dir: found.is_dir,
        is_executable: false,
        is_symlink: false,
        link_target: None,
        modified_time: None,
        permissions: None,
        checksum: None,
        file_count: None,
        dir_count: None,
    }
}

// What the program prints for the directory `root` with the given options.
fn run(config: Config, walk: &[Found]) -> String {
    let mut visualizer = TreeVisualizer::new(config, None);
    let mut taken = Vec::new();
    for found in walk {
        let kind = Some(EntryKind { is_dir: found.is_dir, len: found.size });
        match visualizer.decide(found.path, kind, taken.len()) {
            Admission::Skip => continue,
            Admission::Stop => break,
            Admission::Take => visualizer.record_entry(&mut taken, info(found)),
        }
    }
    let entries = visualizer.sort_entries(&taken);
    match visualizer.display.config.output_format {
        OutputFormat::Tree => {
            let mut out = visualizer.display.format_path("root", "root");
            out.push('\n');
            let shown = visualizer.shown_tree(&entries, "root");
            out.push_str(&visualizer.tree_lines(&shown, ""));
            out
        }
        _ => visualizer.generate_output("root", "root", &entries).unwrap(),
    }
}

#[test]
fn test_cli_basic_tree() {
    let walk = [
        file("root/file1.txt", "content"),
        dir("root/subdir"),
        file("root/subdir/file2.txt", "content"),
    ];
    let out = run(Config::default(), &walk);
    assert!(out.contains("file1.txt"));
    assert!(out.contains("subdir"));
}

#[test]
fn test_cli_show_size() {
    let mut config = Config::default();
    config.show_size = true;
    let out = run(config, &[file("root/test.txt", "hello world")]);
    assert!(out.contains("11")); // File size
}

#[test]
fn test_cli_filter_extension() {
    let mut config = Config::default();
    config.filter_extension = Some("rs".to_string());
    let walk = [
        file("root/test.py", "python code"),
        file("root/test.rs", "rust code"),
        file("root/test.txt", "text"),
    ];
    let out = run(config, &walk);
    assert!(out.contains("test.rs"));
    assert!(!out.contains("test.py"));
    assert!(!out.contains("test.txt"));
}

#[test]
fn test_cli_directories_only() {
    let mut config = Config::default();
    config.directories_only = true;
    let out = run(config, &[dir("root/directory"), file("root/file.txt", "content")]);
    assert!(out.contains("directory"));
    assert!(!out.contains("file.txt"));
}

#[test]
fn test_cli_json_output() {
    let mut config = Config::default();
    config.output_format = OutputFormat::Json;
    let out = run(config, &[file("root/test.txt", "content")]);
    assert!(out.contains("{"));
    assert!(out.contains("test.txt"));
}

#[test]
fn test_cli_sort_by_size() {
    let mut config = Config::default();
    config.sort_by = SortBy::Size;
    config.show_size = true;
    config.use_colors = false;
    let walk =
        [file("root/large.txt", "this is a much larger file"), file("root/small.txt", "a")];
    let out = run(config, &walk);
    assert_eq!(out, "root\n|-- small.txt[1 B]\n'-- large.txt[26 B]\n");
}

#[test]
fn test_cli_reverse_sort() {
    let mut config = Config::default();
    config.reverse_sort = true;
    config.use_colors = false;
    let out = run(config, &[file("root/a.txt", "content"), file("root/z.txt", "content")]);
    assert_eq!(out, "root\n|-- z.txt\n'-- a.txt\n");
}

#[test]
fn test_cli_show_hidden() {
    let mut config = Config::default();
    config.show_hidden = true;
    let walk = [file("root/.hidden", "secret"), file("root/visible.txt", "content")];
    let out = run(config, &walk);
    assert!(out.contains(".hidden"));
    let without = run(Config::default(), &walk);
    assert!(!without.contains(".hidden"));
}

#[test]
fn test_cli_no_color() {
    let mut config = Config::default();
    config.use_colors = false;
    let out = run(config, &[file("root/test.txt", "content")]);
    assert_eq!(out, "root\n'-- test.txt\n");
}

#[test]
fn test_cli_invalid_path() {
    assert!(missing_root_message("/nonexistent/path").contains("does not exist"));
}

#[test]
fn test_cli_invalid_extension() {
    let mut config = Config::default();
    config.filter_extension = Some("".to_string());
    config.use_colors = false;
    // Empty extension should be handled gracefully
    let out = run(config, &[file("root/a.txt", "x"), file("root/noext", "x")]);
    assert_eq!(out, "root\n");
}

#[test]
fn test_cli_conflicting_flags() {
    let mut config = Config::default();
    config.directories_only = true;
    config.files_only = true;
    config.use_colors = false;
    // Conflicting flags are handled gracefully: directories are shown
    let out = run(config, &[dir("root/d"), file("root/f.txt", "x")]);
    assert_eq!(out, "root\n'-- d\n");
}

#[test]
fn a_limit_ends_the_walk() {
    let mut config = Config::default();
    config.limit = Some(2);
    config.use_colors = false;
    let walk = [
        file("root/a", "1"),
        file("root/.skipped", "1"),
        file("root/b", "1"),
        file("root/c", "1"),
    ];
    assert_eq!(run(config, &walk), "root\n|-- a\n'-- b\n");
}
