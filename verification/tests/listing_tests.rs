use denarborea::display::{ModifiedTime, TreeDisplay};
use denarborea::git::{GitInfo, GitStatus};
use denarborea::sorting::{order_keys, order_texts, sort_order, Order, SortKey};
use denarborea::style::{render_parts, Color, LinePart, Style};
use denarborea::tree::{copy_info, missing_root_message, Admission, EntryKind, TreeNode, TreeVisualizer};
use denarborea::utils::{calculate_md5, count_entries, matches_pattern};
use denarborea::{Config, FileInfo, OutputFormat, SortBy};

fn plain_config() -> Config {
    let mut config = Config::default();
    config.use_colors = false;
    config
}

fn entry(path: &str, size: u64, is_dir: bool) -> FileInfo {
    FileInfo {
        path: path.to_string(),
        absolute_path: format!("/abs/{}", path),
        name: path.rsplit('/').next().unwrap().to_string(),
        size,
        is_dir,
        is_executable: false,
        is_symlink: false,
        link_target: None,
        modified_time: None,
        permissions: None,
        checksum: None,
        file_count: None,
        dir_count: None,
    }
}

fn key(rank: u8, number: i128, text: &str) -> SortKey {
    SortKey { rank, number, text: text.chars().collect() }
}

fn names(entries: &[FileInfo]) -> Vec<&str> {
    entries.iter().map(|e| e.name.as_str()).collect()
}

#[test]
fn texts_are_ordered_by_their_characters() {
    let chars = |s: &str| s.chars().collect::<Vec<char>>();
    assert_eq!(order_texts(&chars("abc"), &chars("abd")), Order::Before);
    assert_eq!(order_texts(&chars("abd"), &chars("abc")), Order::After);
    assert_eq!(order_texts(&chars("ab"), &chars("abc")), Order::Before);
    assert_eq!(order_texts(&chars("abc"), &chars("ab")), Order::After);
    assert_eq!(order_texts(&chars("abc"), &chars("abc")), Order::Same);
    assert_eq!(order_texts(&chars(""), &chars("")), Order::Same);
    assert_eq!(order_texts(&chars("Z"), &chars("a")), Order::Before);
    assert_eq!(order_texts(&chars("é"), &chars("z")), Order::After);
}

#[test]
fn keys_are_ordered_by_rank_number_and_text() {
    assert_eq!(order_keys(&key(0, 9, "z"), &key(1, 0, "a")), Order::Before);
    assert_eq!(order_keys(&key(1, -5, "z"), &key(1, 3, "a")), Order::Before);
    assert_eq!(order_keys(&key(1, 3, "b"), &key(1, 3, "a")), Order::After);
    assert_eq!(order_keys(&key(1, 3, "a"), &key(1, 3, "a")), Order::Same);
}

#[test]
fn the_order_is_stable_in_both_directions() {
    let keys = vec![key(0, 2, ""), key(0, 1, ""), key(0, 2, ""), key(0, 1, ""), key(0, 3, "")];
    assert_eq!(sort_order(&keys, false), vec![1, 3, 0, 2, 4]);
    assert_eq!(sort_order(&keys, true), vec![4, 0, 2, 1, 3]);
    assert_eq!(sort_order(&Vec::new(), false), Vec::<usize>::new());
}

#[test]
fn entries_are_sorted_as_the_options_ask() {
    let mut a = entry("r/b.txt", 30, false);
    a.modified_time = Some(ModifiedTime { seconds: 100, nanos: 5, text: "t".to_string() });
    let mut b = entry("r/a.rs", 10, false);
    b.modified_time = Some(ModifiedTime { seconds: 100, nanos: 4, text: "t".to_string() });
    let c = entry("r/C", 20, true);
    let d = entry("r/d.rs", 20, false);
    let entries = vec![a, b, c, d];
    let sorted_by = |sort_by: SortBy, reverse: bool| {
        let mut config = plain_config();
        config.sort_by = sort_by;
        config.reverse_sort = reverse;
        let visualizer = TreeVisualizer::new(config, None);
        visualizer.sort_entries(&entries)
    };
    assert_eq!(names(&sorted_by(SortBy::Name, false)), vec!["C", "a.rs", "b.txt", "d.rs"]);
    assert_eq!(names(&sorted_by(SortBy::Name, true)), vec!["d.rs", "b.txt", "a.rs", "C"]);
    assert_eq!(names(&sorted_by(SortBy::Size, false)), vec!["a.rs", "C", "d.rs", "b.txt"]);
    assert_eq!(names(&sorted_by(SortBy::Size, true)), vec!["b.txt", "C", "d.rs", "a.rs"]);
    assert_eq!(names(&sorted_by(SortBy::Time, false)), vec!["C", "d.rs", "a.rs", "b.txt"]);
    assert_eq!(names(&sorted_by(SortBy::Extension, false)), vec!["C", "a.rs", "d.rs", "b.txt"]);
    assert_eq!(names(&sorted_by(SortBy::Type, false)), vec!["C", "a.rs", "b.txt", "d.rs"]);
    assert_eq!(names(&sorted_by(SortBy::Type, true)), vec!["d.rs", "b.txt", "a.rs", "C"]);
    assert_eq!(copy_info(&entries[0]), entries[0]);
}

#[test]
fn patterns_match_as_regular_expressions_or_with_a_star() {
    assert!(matches_pattern("src/main.rs", "main"));
    assert!(matches_pattern("a.rs", r".*\.rs$"));
    assert!(!matches_pattern("a.rs.bak", r".*\.rs$"));
    assert!(!matches_pattern("src/Main.rs", "main"));
    // no regular expressions: compared in lower case
    assert!(matches_pattern("Main.RS", "*.rs"));
    assert!(!matches_pattern("main.rs.bak", "*.rs"));
    assert!(matches_pattern("dir/A[b", "a["));
    assert!(!matches_pattern("dir/ab", "a["));
    assert!(matches_pattern("xx**yy", "**"));
    assert!(!matches_pattern("xxyy", "**"));
}

#[test]
fn md5_of_known_contents() {
    assert_eq!(calculate_md5(b""), "d41d8cd98f00b204e9800998ecf8427e");
    assert_eq!(calculate_md5(b"hello"), "5d41402abc4b2a76b9719d911017c592");
    let mut info = entry("a.txt", 5, false);
    info.calculate_checksum(b"hello");
    assert_eq!(info.checksum, Some("5d41402abc4b2a76b9719d911017c592".to_string()));
    info.calculate_checksum(b"other");
    assert_eq!(info.checksum, Some("5d41402abc4b2a76b9719d911017c592".to_string()));
    let mut dir = entry("d", 0, true);
    dir.calculate_checksum(b"hello");
    assert_eq!(dir.checksum, None);
}

#[test]
fn entries_of_a_directory_are_counted_by_kind() {
    assert_eq!(count_entries(&[]), (0, 0));
    assert_eq!(count_entries(&[false, false, false]), (3, 0));
    assert_eq!(count_entries(&[true, false, true]), (1, 2));
}

#[test]
fn git_states_are_found_by_path() {
    let git = GitInfo {
        workdir: Some("/repo".to_string()),
        status_cache: vec![
            ("src/main.rs".to_string(), GitStatus::Modified),
            ("docs/a/b.md".to_string(), GitStatus::Ignored),
            ("src/main.rs".to_string(), GitStatus::Deleted),
        ],
    };
    assert_eq!(git.get_status("src/main.rs"), GitStatus::Modified);
    assert_eq!(git.get_status("src//main.rs"), GitStatus::Modified);
    assert_eq!(git.get_status("/repo/src/main.rs"), GitStatus::Modified);
    assert_eq!(git.get_status("/repo/docs/a\\b.md"), GitStatus::Ignored);
    assert_eq!(git.get_status("/elsewhere/src/main.rs"), GitStatus::Clean);
    assert_eq!(git.get_status("/repo/unknown"), GitStatus::Clean);
    assert!(git.is_ignored("docs/a/b.md"));
    assert!(!git.is_ignored("src/main.rs"));
    let none = GitInfo::new();
    assert_eq!(none.get_status("src/main.rs"), GitStatus::Clean);
    assert_eq!(GitStatus::Added.color(), Color::Green);
    assert_eq!(GitStatus::Ignored.color(), Color::BrightBlack);
}

#[test]
fn lines_without_colours_are_the_texts_of_their_pieces() {
    let parts = vec![
        LinePart {
            text: "M ".to_string(),
            style: Style { color: Some(Color::Yellow), bold: false, dimmed: false },
        },
        LinePart {
            text: "name".to_string(),
            style: Style { color: Some(Color::Green), bold: true, dimmed: false },
        },
        LinePart { text: "[1 kB]".to_string(), style: Style { color: None, bold: false, dimmed: true } },
    ];
    assert_eq!(render_parts(&parts, false), "M name[1 kB]");
    let coloured = render_parts(&parts, true);
    assert!(coloured.contains("name"));
    assert_eq!(render_parts(&Vec::new(), true), "");
}

#[test]
fn painted_pieces_keep_their_text() {
    let reset = "\x1b[0m";
    let plain = LinePart {
        text: "plain name".to_string(),
        style: Style { color: None, bold: false, dimmed: false },
    };
    // a piece without colour and weight is its text on every terminal
    assert_eq!(render_parts(&vec![plain], true), "plain name");
    let styles = [
        Style { color: Some(Color::Red), bold: false, dimmed: false },
        Style { color: Some(Color::BrightBlack), bold: true, dimmed: false },
        Style { color: None, bold: false, dimmed: true },
        Style { color: None, bold: true, dimmed: true },
    ];
    for style in styles {
        let part = LinePart { text: "a.rs".to_string(), style };
        let out = render_parts(&vec![part], true);
        // the text as it is, or between the sequence of the style and the reset
        let between = out
            .strip_suffix(reset)
            .map(|head| head.ends_with("a.rs") && head.starts_with("\x1b["))
            .unwrap_or(false);
        assert!(out == "a.rs" || between, "unexpected: {:?}", out);
    }
}

#[test]
fn name_styles() {
    let style = |path: &str| entry(path, 1, false).name_style();
    let colored = |color| Style { color: Some(color), bold: false, dimmed: false };
    let bold = |color| Style { color: Some(color), bold: true, dimmed: false };
    assert_eq!(entry("d", 0, true).name_style(), colored(Color::Blue));
    assert_eq!(style("a.rs"), colored(Color::Red));
    assert_eq!(style("a.py"), colored(Color::Yellow));
    assert_eq!(style("a.ts"), colored(Color::BrightYellow));
    assert_eq!(style("a.css"), colored(Color::Magenta));
    assert_eq!(style("a.md"), colored(Color::BrightBlue));
    assert_eq!(style("a.yml"), colored(Color::BrightGreen));
    assert_eq!(style("a.svg"), colored(Color::BrightMagenta));
    assert_eq!(style("a.bin"), bold(Color::Green));
    assert_eq!(style("a.7z"), bold(Color::Red));
    assert_eq!(style("a.RS"), Style { color: None, bold: false, dimmed: false });
    assert_eq!(style("noext"), Style { color: None, bold: false, dimmed: false });
    let mut exe = entry("run.rs", 1, false);
    exe.is_executable = true;
    exe.is_symlink = true;
    assert_eq!(exe.name_style(), bold(Color::Green));
    let mut link = entry("l.rs", 1, false);
    link.is_symlink = true;
    assert_eq!(link.name_style(), colored(Color::Cyan));
}

fn full_entry() -> FileInfo {
    let mut info = entry("dir/a.txt", 1000, false);
    info.is_symlink = true;
    info.link_target = Some("b.txt".to_string());
    info.modified_time =
        Some(ModifiedTime { seconds: 1, nanos: 2, text: "2024-01-02 03:04:05".to_string() });
    info.permissions = Some(0o644);
    info.checksum = Some("0123456789abcdef0123456789abcdef".to_string());
    info.file_count = Some(3);
    info.dir_count = Some(1);
    info
}

#[test]
fn tree_line_shows_what_the_options_ask_for() {
    let info = full_entry();
    let mut config = plain_config();
    let line = |config: &Config, info: &FileInfo| TreeDisplay::new(config.clone()).format_tree_line(info);
    assert_eq!(line(&config, &info), "a.txt-> b.txt");
    config.show_size = true;
    config.show_permissions = true;
    config.show_time = true;
    config.show_checksum = true;
    config.show_count = true;
    assert_eq!(
        line(&config, &info),
        "a.txt[1 kB](rw-r--r--)[2024-01-02 03:04:05]<01234567>-> b.txt"
    );
    let mut dir = full_entry();
    dir.is_dir = true;
    dir.is_symlink = false;
    assert_eq!(line(&config, &dir), "a.txt(3 files, 1 dirs)(rw-r--r--)[2024-01-02 03:04:05]");
    let mut short = full_entry();
    short.checksum = Some("abc".to_string());
    short.is_symlink = false;
    config.show_size = false;
    config.show_permissions = false;
    config.show_time = false;
    assert_eq!(line(&config, &short), "a.txt<abc>");
}

#[test]
fn tree_line_shows_the_state_in_version_control() {
    let mut config = plain_config();
    config.git_status = true;
    let git = GitInfo {
        workdir: None,
        status_cache: vec![("/abs/dir/a.txt".to_string(), GitStatus::Untracked)],
    };
    let display = TreeDisplay::new(config.clone()).with_git_info(git.clone());
    let mut info = full_entry();
    info.is_symlink = false;
    assert_eq!(display.format_tree_line(&info), "??a.txt");
    assert_eq!(display.format_tree_line(&entry("other", 1, false)), "  other");
    assert_eq!(TreeDisplay::new(config.clone()).format_tree_line(&info), "a.txt");
    config.git_status = false;
    assert_eq!(TreeDisplay::new(config).with_git_info(git).format_tree_line(&info), "a.txt");
}

#[test]
fn lines_in_the_other_forms() {
    let display = TreeDisplay::new(plain_config());
    let info = full_entry();
    assert_eq!(
        display.format_csv_line(&info),
        "a.txt,dir/a.txt,1000,false,2024-01-02 03:04:05,rw-r--r--"
    );
    assert_eq!(display.format_csv_line(&entry("d", 0, true)), "d,d,0,true,,");
    assert_eq!(display.format_markdown_line(&info), "| xx a.txt | 1 kB | 2024-01-02 03:04:05 |");
    assert_eq!(display.format_markdown_line(&entry("d", 7, true)), "| -- d | - |  |");
    assert_eq!(
        display.format_xml_line(&info),
        "<file name=\"a.txt\" path=\"dir/a.txt\" size=\"1000\" is_dir=\"false\" modified=\"2024-01-02 03:04:05\" />"
    );
    assert_eq!(
        display.format_json_line(&entry("dir/a \"q\".txt", 12, false)),
        "{\"checksum\":null,\"dir_count\":null,\"file_count\":null,\"is_dir\":false,\"is_executable\":false,\"is_symlink\":false,\"modified_time\":null,\"name\":\"a \\\"q\\\".txt\",\"path\":\"dir/a \\\"q\\\".txt\",\"permissions\":null,\"size\":12}"
    );
    assert_eq!(
        display.format_json_line(&info),
        "{\"checksum\":\"0123456789abcdef0123456789abcdef\",\"dir_count\":1,\"file_count\":3,\"is_dir\":false,\"is_executable\":false,\"is_symlink\":true,\"modified_time\":\"2024-01-02 03:04:05\",\"name\":\"a.txt\",\"path\":\"dir/a.txt\",\"permissions\":\"rw-r--r--\",\"size\":1000}"
    );
    let mut config = plain_config();
    config.output_format = OutputFormat::Csv;
    assert_eq!(TreeDisplay::new(config).format_file_info(&entry("d", 0, true)), "d,d,0,true,,");
    let mut config = plain_config();
    config.full_path = true;
    assert_eq!(TreeDisplay::new(config).format_path("rel", "/abs/rel"), "/abs/rel");
    assert_eq!(TreeDisplay::new(plain_config()).format_path("rel", "/abs/rel"), "rel");
}

#[test]
fn entries_are_included_by_the_options() {
    let file = Some(EntryKind { is_dir: false, len: 500 });
    let dir = Some(EntryKind { is_dir: true, len: 0 });
    let shown = |config: &Config, path: &str, kind| {
        TreeVisualizer::new(config.clone(), None).should_include_path(path, kind)
    };
    let mut config = plain_config();
    assert!(shown(&config, "r/a.txt", file));
    assert!(!shown(&config, "r/.hidden", file));
    assert!(!shown(&config, "r/.git", dir));
    config.show_hidden = true;
    assert!(shown(&config, "r/.hidden", file));
    config.exclude_patterns = vec!["target".to_string(), "*.bak".to_string()];
    assert!(!shown(&config, "r/target/x", file));
    assert!(!shown(&config, "r/a.BAK", file));
    assert!(shown(&config, "r/a.txt", file));
    config.include_patterns = Some("^r/src".to_string());
    assert!(shown(&config, "r/src/a.txt", file));
    assert!(!shown(&config, "r/doc/a.txt", file));
    assert!(!shown(&config, "r/doc", dir));
    config.include_patterns = None;
    config.directories_only = true;
    assert!(shown(&config, "r/dir", dir));
    assert!(!shown(&config, "r/a.txt", file));
    assert!(!shown(&config, "r/unknown", None));
    config.directories_only = false;
    config.min_size = Some(600);
    assert!(!shown(&config, "r/a.txt", file));
    assert!(shown(&config, "r/dir", dir));
    assert!(shown(&config, "r/unknown", None));
    config.min_size = None;
    config.max_size = Some(500);
    assert!(shown(&config, "r/a.txt", file));
    config.filter_extension = Some("rs, TXT".to_string());
    assert!(shown(&config, "r/a.Txt", file));
    assert!(shown(&config, "r/a.rs", file));
    assert!(!shown(&config, "r/a.py", file));
    assert!(!shown(&config, "r/noext", file));
    assert!(shown(&config, "r/dir.py", dir));
}

#[test]
fn ignored_entries_are_left_out_when_asked() {
    let git = GitInfo {
        workdir: None,
        status_cache: vec![("r/build".to_string(), GitStatus::Ignored)],
    };
    let mut config = plain_config();
    let kind = Some(EntryKind { is_dir: true, len: 0 });
    assert!(TreeVisualizer::new(config.clone(), Some(git.clone())).should_include_path("r/build", kind));
    config.git_ignore = true;
    assert!(!TreeVisualizer::new(config.clone(), Some(git)).should_include_path("r/build", kind));
    assert!(TreeVisualizer::new(config, None).should_include_path("r/build", kind));
}

#[test]
fn a_walk_stops_at_the_limit() {
    let mut config = plain_config();
    config.limit = Some(2);
    let visualizer = TreeVisualizer::new(config, None);
    let file = Some(EntryKind { is_dir: false, len: 1 });
    assert_eq!(visualizer.decide("r/a", file, 0), Admission::Take);
    assert_eq!(visualizer.decide("r/a", file, 1), Admission::Take);
    assert_eq!(visualizer.decide("r/a", file, 2), Admission::Stop);
    assert_eq!(visualizer.decide("r/.a", file, 2), Admission::Skip);
    assert_eq!(visualizer.decide("r/.a", file, 0), Admission::Skip);
}

fn sample_entries() -> Vec<FileInfo> {
    vec![
        entry("root/a", 0, true),
        entry("root/a/x.rs", 10, false),
        entry("root/a/empty", 0, true),
        entry("root/b.txt", 20, false),
        entry("elsewhere/c.txt", 30, false),
    ]
}

fn shape(nodes: &[TreeNode]) -> String {
    nodes
        .iter()
        .map(|n| format!("{}[{}]", n.info.name, shape(&n.children)))
        .collect::<Vec<_>>()
        .join(",")
}

#[test]
fn trees_are_built_from_parents() {
    let visualizer = TreeVisualizer::new(plain_config(), None);
    let tree = visualizer.build_tree(&sample_entries(), "root");
    assert_eq!(shape(&tree), "a[x.rs[],empty[]],b.txt[]");
    assert_eq!(visualizer.count_files(&tree), 2);
    assert_eq!(visualizer.count_dirs(&tree), 2);
    assert_eq!(shape(&visualizer.build_tree(&sample_entries(), "root/")), "a[x.rs[],empty[]],b.txt[]");
    assert_eq!(shape(&visualizer.build_tree(&sample_entries(), "nowhere")), "");
    assert_eq!(shape(&visualizer.build_tree(&Vec::new(), "root")), "");
}

#[test]
fn empty_directories_are_left_out_with_an_extension_filter() {
    let mut config = plain_config();
    config.filter_extension = Some("rs".to_string());
    let visualizer = TreeVisualizer::new(config, None);
    let mut entries = sample_entries();
    entries.push(entry("root/z", 0, true));
    entries.push(entry("root/z/deep", 0, true));
    let tree = visualizer.build_tree(&entries, "root");
    assert_eq!(shape(&tree), "a[x.rs[],empty[]],b.txt[],z[deep[]]");
    let shown = visualizer.filter_empty_directories(tree);
    assert_eq!(shape(&shown), "a[x.rs[]],b.txt[]");
    let unfiltered = TreeVisualizer::new(plain_config(), None);
    let tree = unfiltered.build_tree(&entries, "root");
    assert_eq!(shape(&unfiltered.filter_empty_directories(tree)), "a[x.rs[],empty[]],b.txt[],z[deep[]]");
}

#[test]
fn tree_lines_are_drawn_with_connectors() {
    let visualizer = TreeVisualizer::new(plain_config(), None);
    let tree = visualizer.build_tree(&sample_entries(), "root");
    let mut out = String::from("root\n");
    visualizer.append_tree_nodes(&mut out, &tree, "");
    assert_eq!(out, "root\n-- a \n|   -- x.rs \n|   '-- empty \n'-- b.txt \n");
    assert_eq!(
        visualizer.tree_lines(&tree, "> "),
        "> |-- a\n> |   |-- x.rs\n> |   '-- empty\n> '-- b.txt\n"
    );
}

fn without_sequences(text: &str) -> String {
    let mut out = String::new();
    let mut inside = false;
    for c in text.chars() {
        if inside {
            inside = c != 'm';
        } else if c == '\x1b' {
            inside = true;
        } else {
            out.push(c);
        }
    }
    out
}

#[test]
fn trees_in_colours_keep_their_lines() {
    let mut config = Config::default();
    config.use_colors = true;
    config.show_size = true;
    let visualizer = TreeVisualizer::new(config, None);
    let tree = visualizer.build_tree(&sample_entries(), "root");
    let lines = visualizer.tree_lines(&tree, "");
    let mut plain = plain_config();
    plain.show_size = true;
    let expected = TreeVisualizer::new(plain, None).tree_lines(&tree, "");
    assert_eq!(without_sequences(&lines), expected);
    assert!(expected.contains("|   |-- x.rs"));

    let mut taken = Vec::new();
    let mut coloured = TreeVisualizer::new(Config::default(), None);
    for e in &sample_entries() {
        coloured.record_entry(&mut taken, copy_info(e));
    }
    let config = Config { use_colors: true, ..Config::default() };
    let mut coloured = TreeVisualizer::new(config, None);
    let listing = coloured.generate_output("root", "/abs/root", &taken).unwrap();
    let mut uncoloured = TreeVisualizer::new(plain_config(), None);
    let expected = uncoloured.generate_output("root", "/abs/root", &taken).unwrap();
    assert_eq!(without_sequences(&listing), expected);
}

#[test]
fn a_deep_tree_is_written_as_json() {
    let mut entries = Vec::new();
    let mut path = String::from("r");
    for _ in 0..40 {
        path.push_str("/d");
        entries.push(entry(&path, 0, true));
    }
    let visualizer = TreeVisualizer::new(plain_config(), None);
    let tree = visualizer.build_tree(&entries, "r");
    let json = visualizer.tree_to_json(&tree);
    assert_eq!(json.matches("\"children\":[").count(), 39);
    assert!(!json.contains("null"));
}

#[test]
fn listings_in_every_form() {
    let entries = sample_entries();
    let listing = |format: OutputFormat, show_stats: bool| {
        let mut config = plain_config();
        config.output_format = format;
        config.show_stats = show_stats;
        let mut visualizer = TreeVisualizer::new(config, None);
        let mut taken = Vec::new();
        for e in &entries {
            visualizer.record_entry(&mut taken, copy_info(e));
        }
        visualizer.generate_output("root", "/abs/root", &taken).unwrap()
    };
    assert_eq!(
        listing(OutputFormat::Tree, false),
        "root\n-- a \n|   -- x.rs \n|   '-- empty \n'-- b.txt \n"
    );
    let with_stats = listing(OutputFormat::Tree, true);
    assert!(with_stats.starts_with("root\n-- a \n"));
    assert!(with_stats.contains("'-- b.txt \n\n Tree Statistics:\nDirectories: 2\nFiles: 3\nTotal size: 60 B\nAverage file size: 20 B\n"));
    assert_eq!(
        listing(OutputFormat::Csv, false),
        "Name,Path,Size,IsDirectory,Modified,Permissions\na,root/a,0,true,,\nx.rs,root/a/x.rs,10,false,,\nempty,root/a/empty,0,true,,\nb.txt,root/b.txt,20,false,,\nc.txt,elsewhere/c.txt,30,false,,\n"
    );
    assert!(listing(OutputFormat::Markdown, false).starts_with(
        "Directory Tree: root\n\n|  Name  |  Size |  Modified  |\n|--------|-------|------------|\n| -- a | - |  |\n| xx x.rs | 10 B |  |\n"
    ));
    let xml = listing(OutputFormat::Xml, false);
    assert!(xml.starts_with(
        "<?xml version=\"1.0\" encoding=\"UTF-8\"?>\n<tree root=\"root\">\n  <file name=\"a\" path=\"root/a\" size=\"0\" is_dir=\"true\" modified=\"\" />\n"
    ));
    assert!(xml.ends_with("modified=\"\" />\n</tree>\n"));
    let json = listing(OutputFormat::Json, false);
    assert!(json.starts_with("{\n  \"root\": \"root\",\n  \"stats\": {\n    \"total_dirs\": 2,\n    \"total_files\": 2\n  },\n  \"tree\": [\n    {\n      \"children\": [\n        {\n"));
    assert!(json.contains("\"name\": \"x.rs\""));
    assert!(!json.contains("c.txt"));
}

#[test]
fn tree_json_is_compact_and_nested() {
    let visualizer = TreeVisualizer::new(plain_config(), None);
    let tree = visualizer.build_tree(&vec![entry("r/d", 0, true), entry("r/d/f", 3, false)], "r");
    assert_eq!(
        visualizer.tree_to_json(&tree),
        "[{\"children\":[{\"is_dir\":false,\"is_executable\":false,\"is_symlink\":false,\"name\":\"f\",\"path\":\"r/d/f\",\"size\":3}],\"is_dir\":true,\"is_executable\":false,\"is_symlink\":false,\"name\":\"d\",\"path\":\"r/d\",\"size\":0}]"
    );
    assert_eq!(visualizer.tree_to_json(&Vec::new()), "[]");
}

#[test]
fn a_missing_root_has_a_message() {
    assert_eq!(missing_root_message("/no/where"), "Path '/no/where' does not exist");
}
