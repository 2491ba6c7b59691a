//! The entries of a directory listing: which of them are shown, in which
//! order, and as which tree.

use crate::config::{filter_extensions, Config, OutputFormat, SortBy};
use crate::display::{
    file_info_line, is_file_info_line, is_plain, shown_path, text_view, FileInfo, ModifiedTime,
    TreeDisplay,
};
use crate::style::{bold, is_line_of, Color, LinePartModel};
use crate::json_build::{
    field_models, items_are_json, json_array, json_array_text, json_object, json_object_text,
    raw_or_null, raw_value, JsonField, JsonFieldModel,
};
use crate::stats::stats_text;
use crate::viewer::structured::{json_pretty, pretty_json, text_result};
use crate::git::{file_status, GitInfo, GitStatus};
use crate::paths::{
    extension_of, file_name_of, parent_of, path_extension, path_file_name, path_parent,
    paths_equal, same_path,
};
use crate::sorting::{key_models, sort_order, stable_order, SortKey, SortKeyModel};
use crate::stats::TreeStats;
use crate::textfmt::{chars_of, lowercased, same_text, to_lower};
use crate::utils::{is_hidden_name, matches_pattern, pattern_matches};
use vstd::prelude::*;
use vstd::string::*;

verus! {

/// What the file system tells of an entry: whether it is a directory, and
/// its size.
#[derive(Debug, Clone, Copy, PartialEq, Eq, Structural)]
pub struct EntryKind {
    pub is_dir: bool,
    pub len: u64,
}

/// What becomes of an entry that a walk comes across.
#[derive(Debug, Clone, Copy, PartialEq, Eq, Structural)]
pub enum Admission {
    /// The entry is left out.
    Skip,
    /// The entry is taken.
    Take,
    /// The limit is reached: the walk ends.
    Stop,
}

/// What makes a listing: what shows the files, and the numbers about them.
#[derive(Debug, Clone, PartialEq, Eq)]
pub struct TreeVisualizer {
    pub display: TreeDisplay,
    pub stats: TreeStats,
}

/// Whether one of the first `count` patterns matches a path.
pub open spec fn any_matches(patterns: Seq<String>, path: Seq<char>, count: nat) -> bool
    decreases count,
{
    if count == 0 || count > patterns.len() {
        false
    } else {
        any_matches(patterns, path, (count - 1) as nat) || pattern_matches(
            path,
            patterns[count - 1]@,
        )
    }
}

/// Whether the extension of a path passes the extension filter: without a
/// filter every path does; with one, a path with an extension passes if the
/// filter names it in lower case, and a path without one if the filter
/// names nothing.
pub open spec fn extension_passes(filter: Option<Seq<char>>, path: Seq<char>) -> bool {
    match filter {
        None => true,
        Some(_) => match path_extension(path) {
            Some(ext) => filter_extensions(filter).contains(lowercased(ext)),
            None => filter_extensions(filter).len() == 0,
        },
    }
}

/// Whether the state of a path in version control keeps it out.
pub open spec fn ignored_by_git(config: Config, git: Option<GitInfo>, path: Seq<char>) -> bool {
    match git {
        Some(info) => config.git_ignore && file_status(
            text_view(info.workdir),
            info.status_cache@,
            path,
        ) == GitStatus::Ignored,
        None => false,
    }
}

/// Whether a path is shown. A hidden one is not, unless hidden files are
/// asked for; nor one that version control ignores, that an exclude pattern
/// matches or that the include pattern does not match. Of the rest every
/// directory is shown. A file is shown unless only directories are asked
/// for, or its size or its extension fails the filter.
pub open spec fn is_included(
    config: Config,
    git: Option<GitInfo>,
    path: Seq<char>,
    kind: Option<EntryKind>,
) -> bool {
    let name = match path_file_name(path) {
        Some(n) => n,
        None => Seq::empty(),
    };
    if !config.show_hidden && is_hidden_name(Some(name)) {
        false
    } else if ignored_by_git(config, git, path) {
        false
    } else if any_matches(config.exclude_patterns@, path, config.exclude_patterns@.len()) {
        false
    } else if config.include_patterns matches Some(pattern) && !pattern_matches(path, pattern@) {
        false
    } else if kind matches Some(k) && k.is_dir {
        true
    } else if config.directories_only {
        false
    } else if kind matches Some(k) && !crate::config::within_size(
        config.min_size,
        config.max_size,
        k.len,
    ) {
        false
    } else {
        extension_passes(text_view(config.filter_extension), path)
    }
}

/// What becomes of an entry when `taken` entries were taken before it.
pub open spec fn admission(
    config: Config,
    git: Option<GitInfo>,
    path: Seq<char>,
    kind: Option<EntryKind>,
    taken: usize,
) -> Admission {
    if !is_included(config, git, path, kind) {
        Admission::Skip
    } else if config.limit matches Some(limit) && taken >= limit {
        Admission::Stop
    } else {
        Admission::Take
    }
}

/// The key of an entry in an order.
pub open spec fn entry_key(info: FileInfo, sort_by: SortBy) -> SortKeyModel {
    match sort_by {
        SortBy::Name => SortKeyModel { rank: 0, number: 0, text: info.name@ },
        SortBy::Size => SortKeyModel { rank: 0, number: info.size as i128, text: Seq::empty() },
        SortBy::Time => match info.modified_time {
            Some(time) => SortKeyModel {
                rank: 1,
                number: (time.seconds * 1000000000 + time.nanos) as i128,
                text: Seq::empty(),
            },
            None => SortKeyModel { rank: 0, number: 0, text: Seq::empty() },
        },
        SortBy::Extension => SortKeyModel {
            rank: 0,
            number: 0,
            text: match path_extension(info.path@) {
                Some(ext) => ext,
                None => Seq::empty(),
            },
        },
        SortBy::Type => SortKeyModel {
            rank: if info.is_dir {
                0
            } else {
                1
            },
            number: 0,
            text: info.name@,
        },
    }
}

/// The keys of entries.
pub open spec fn entry_keys(entries: Seq<FileInfo>, sort_by: SortBy) -> Seq<SortKeyModel> {
    Seq::new(entries.len(), |i: int| entry_key(entries[i], sort_by))
}

/// The order of entries: their indices by name, size, time, extension or
/// type, turned round where the options ask for it. Entries without a time
/// come before those with one, and directories before files by type.
pub open spec fn entry_order(entries: Seq<FileInfo>, sort_by: SortBy, reverse: bool) -> Seq<usize> {
    stable_order(entry_keys(entries, sort_by), entries.len(), reverse)
}

fn copy_text(text: &Option<String>) -> (copy: Option<String>)
    ensures
        copy == *text,
{
    match text {
        Some(t) => Some(t.clone()),
        None => None,
    }
}

/// A copy of what is known of a file.
pub fn copy_info(info: &FileInfo) -> (copy: FileInfo)
    ensures
        copy == *info,
{
    FileInfo {
        path: info.path.clone(),
        absolute_path: info.absolute_path.clone(),
        name: info.name.clone(),
        size: info.size,
        is_dir: info.is_dir,
        is_executable: info.is_executable,
        is_symlink: info.is_symlink,
        link_target: copy_text(&info.link_target),
        modified_time: match &info.modified_time {
            Some(time) => Some(
                ModifiedTime { seconds: time.seconds, nanos: time.nanos, text: time.text.clone() },
            ),
            None => None,
        },
        permissions: info.permissions,
        checksum: copy_text(&info.checksum),
        file_count: info.file_count,
        dir_count: info.dir_count,
    }
}

fn key_of(info: &FileInfo, sort_by: SortBy) -> (key: SortKey)
    ensures
        key@ == entry_key(*info, sort_by),
{
    match sort_by {
        SortBy::Name => SortKey { rank: 0, number: 0, text: chars_of(info.name.as_str()) },
        SortBy::Size => SortKey { rank: 0, number: info.size as i128, text: Vec::new() },
        SortBy::Time => match &info.modified_time {
            Some(time) => SortKey {
                rank: 1,
                number: (time.seconds as i128) * 1000000000 + (time.nanos as i128),
                text: Vec::new(),
            },
            None => SortKey { rank: 0, number: 0, text: Vec::new() },
        },
        SortBy::Extension => {
            let text = match extension_of(info.path.as_str()) {
                Some(ext) => chars_of(ext.as_str()),
                None => Vec::new(),
            };
            SortKey { rank: 0, number: 0, text }
        },
        SortBy::Type => SortKey {
            rank: if info.is_dir {
                0
            } else {
                1
            },
            number: 0,
            text: chars_of(info.name.as_str()),
        },
    }
}

fn holds(list: &Vec<String>, text: &str) -> (found: bool)
    ensures
        found == list.deep_view().contains(text@),
{
    let mut i: usize = 0;
    while i < list.len()
        invariant
            i <= list@.len(),
            forall|k: int| 0 <= k < i ==> list.deep_view()[k] != text@,
        decreases list@.len() - i,
    {
        proof {
            assert(list.deep_view()[i as int] == list@[i as int]@);
        }
        if same_text(list[i].as_str(), text) {
            return true;
        }
        i += 1;
    }
    false
}

impl TreeVisualizer {
    /// A listing by options, with the states of version control where they
    /// were read, and with numbers about no file yet.
    pub fn new(config: Config, git_info: Option<GitInfo>) -> (visualizer: Self)
        ensures
            visualizer.display.config == config,
            visualizer.display.git_info == git_info,
            visualizer.stats.well_formed(),
            visualizer.stats.total_files == 0,
            visualizer.stats.total_dirs == 0,
            visualizer.stats.file_types@.len() == 0,
    {
        TreeVisualizer { display: TreeDisplay { config, git_info }, stats: TreeStats::new() }
    }

    fn excluded(&self, path: &str) -> (found: bool)
        ensures
            found == any_matches(
                self.display.config.exclude_patterns@,
                path@,
                self.display.config.exclude_patterns@.len(),
            ),
    {
        let patterns = &self.display.config.exclude_patterns;
        let mut i: usize = 0;
        while i < patterns.len()
            invariant
                i <= patterns@.len(),
                patterns@ == self.display.config.exclude_patterns@,
                !any_matches(patterns@, path@, i as nat),
            decreases patterns@.len() - i,
        {
            if matches_pattern(path, patterns[i].as_str()) {
                proof {
                    assert(any_matches(patterns@, path@, (i + 1) as nat));
                    lemma_any_matches_grows(patterns@, path@, (i + 1) as nat, patterns@.len());
                }
                return true;
            }
            i += 1;
        }
        false
    }

    fn passes_extension(&self, path: &str) -> (passes: bool)
        ensures
            passes == extension_passes(text_view(self.display.config.filter_extension), path@),
    {
        match &self.display.config.filter_extension {
            None => true,
            Some(_) => {
                let extensions = self.display.config.get_extension();
                match extension_of(path) {
                    Some(ext) => {
                        let lower = to_lower(ext.as_str());
                        holds(&extensions, lower.as_str())
                    },
                    None => extensions.len() == 0,
                }
            },
        }
    }

    /// Whether the entry at `path` is shown; `kind` holds what the file
    /// system tells of it, if anything.
    pub fn should_include_path(&self, path: &str, kind: Option<EntryKind>) -> (shown: bool)
        ensures
            shown == is_included(self.display.config, self.display.git_info, path@, kind),
    {
        let config = &self.display.config;
        let hidden = match file_name_of(path) {
            Some(name) => {
                let chars = chars_of(name.as_str());
                chars.len() > 0 && chars[0] == '.'
            },
            None => false,
        };
        if !config.show_hidden && hidden {
            return false;
        }
        match &self.display.git_info {
            Some(git) => {
                if config.git_ignore && git.is_ignored(path) {
                    return false;
                }
            },
            None => {},
        }
        if self.excluded(path) {
            return false;
        }
        match &config.include_patterns {
            Some(pattern) => {
                if !matches_pattern(path, pattern.as_str()) {
                    return false;
                }
            },
            None => {},
        }
        match kind {
            Some(k) => {
                if k.is_dir {
                    return true;
                }
            },
            None => {},
        }
        if config.directories_only {
            return false;
        }
        match kind {
            Some(k) => {
                if !config.matches_size_filter(k.len) {
                    return false;
                }
            },
            None => {},
        }
        self.passes_extension(path)
    }

    /// What becomes of the entry at `path` that a walk comes across when
    /// `taken` entries were taken before it.
    pub fn decide(&self, path: &str, kind: Option<EntryKind>, taken: usize) -> (verdict: Admission)
        ensures
            verdict == admission(
                self.display.config,
                self.display.git_info,
                path@,
                kind,
                taken,
            ),
    {
        if !self.should_include_path(path, kind) {
            return Admission::Skip;
        }
        match self.display.config.limit {
            Some(limit) => {
                if taken >= limit {
                    return Admission::Stop;
                }
            },
            None => {},
        }
        Admission::Take
    }

    /// The entries in the order that the options ask for.
    pub fn sort_entries(&self, entries: &Vec<FileInfo>) -> (sorted: Vec<FileInfo>)
        ensures
            sorted@.len() == entries@.len(),
            forall|i: int|
                0 <= i < sorted@.len() ==> #[trigger] sorted@[i] == entries@[entry_order(
                    entries@,
                    self.display.config.sort_by,
                    self.display.config.reverse_sort,
                )[i] as int],
    {
        let sort_by = self.display.config.sort_by;
        let mut keys: Vec<SortKey> = Vec::new();
        let mut k: usize = 0;
        while k < entries.len()
            invariant
                k <= entries@.len(),
                keys@.len() == k,
                forall|i: int| 0 <= i < k ==> (#[trigger] keys@[i])@ == entry_key(entries@[i], sort_by),
            decreases entries@.len() - k,
        {
            keys.push(key_of(&entries[k], sort_by));
            k += 1;
        }
        proof {
            assert(key_models(keys@) =~= entry_keys(entries@, sort_by));
        }
        let order = sort_order(&keys, self.display.config.reverse_sort);
        let mut sorted: Vec<FileInfo> = Vec::new();
        let mut i: usize = 0;
        while i < order.len()
            invariant
                i <= order@.len(),
                order@.len() == entries@.len(),
                forall|j: int| 0 <= j < order@.len() ==> (#[trigger] order@[j]) < entries@.len(),
                sorted@.len() == i,
                forall|j: int| 0 <= j < i ==> #[trigger] sorted@[j] == entries@[order@[j] as int],
            decreases order@.len() - i,
        {
            sorted.push(copy_info(&entries[order[i]]));
            i += 1;
        }
        sorted
    }
}

/// An entry of a listing with the entries below it.
#[derive(Debug)]
pub struct TreeNode {
    pub info: FileInfo,
    pub children: Vec<TreeNode>,
}

/// Whether an entry lies directly in the directory `parent`.
pub open spec fn is_child(info: FileInfo, parent: Seq<char>) -> bool {
    path_parent(info.path@) matches Some(p) && paths_equal(p, parent)
}

/// The indices of those of the first `count` entries that lie directly in
/// `parent`.
pub open spec fn child_indices(entries: Seq<FileInfo>, parent: Seq<char>, count: nat) -> Seq<int>
    decreases count,
{
    if count == 0 || count > entries.len() {
        Seq::empty()
    } else {
        let before = child_indices(entries, parent, (count - 1) as nat);
        if is_child(entries[count - 1], parent) {
            before.push(count - 1)
        } else {
            before
        }
    }
}

/// Whether `nodes` are the trees of the entries that lie directly in
/// `parent`, in the order of the entries, down to a depth of `depth`.
pub open spec fn is_tree(
    nodes: Seq<TreeNode>,
    entries: Seq<FileInfo>,
    parent: Seq<char>,
    depth: nat,
) -> bool
    decreases depth, 1nat,
{
    let indices = child_indices(entries, parent, entries.len());
    &&& nodes.len() == indices.len()
    &&& forall|k: int|
        0 <= k < nodes.len() ==> 0 <= indices[k] < entries.len() && is_node(
            #[trigger] nodes[k],
            entries,
            entries[indices[k]],
            depth,
        )
}

/// Whether `node` is the tree of an entry: it holds the entry, and below
/// it, if the entry is a directory, the trees of the entries in it.
pub open spec fn is_node(node: TreeNode, entries: Seq<FileInfo>, info: FileInfo, depth: nat) -> bool
    decreases depth, 0nat,
{
    &&& node.info == info
    &&& if info.is_dir && depth > 0 {
        is_tree(node.children@, entries, info.path@, (depth - 1) as nat)
    } else {
        node.children@.len() == 0
    }
}

/// Number of files in the first `count` trees.
pub open spec fn file_total(nodes: Seq<TreeNode>, count: nat) -> nat
    decreases nodes, count,
{
    if count == 0 || count > nodes.len() {
        0
    } else {
        let node = nodes[count - 1];
        file_total(nodes, (count - 1) as nat) + (if node.info.is_dir {
            0nat
        } else {
            1nat
        }) + file_total(node.children@, node.children@.len())
    }
}

/// Number of directories in the first `count` trees.
pub open spec fn dir_total(nodes: Seq<TreeNode>, count: nat) -> nat
    decreases nodes, count,
{
    if count == 0 || count > nodes.len() {
        0
    } else {
        let node = nodes[count - 1];
        dir_total(nodes, (count - 1) as nat) + (if node.info.is_dir {
            1nat
        } else {
            0nat
        }) + dir_total(node.children@, node.children@.len())
    }
}

/// A number, or the largest that the machine counts where it is larger.
pub open spec fn capped(n: nat) -> usize {
    if n > usize::MAX {
        usize::MAX
    } else {
        n as usize
    }
}

fn add_capped(a: usize, b: usize) -> (sum: usize)
    ensures
        sum == capped((a + b) as nat),
{
    if a > usize::MAX - b {
        usize::MAX
    } else {
        a + b
    }
}

/// Whether a tree is kept when empty directories are left out: a file is,
/// and a directory is if a tree below it is kept, or if nothing is
/// filtered at all.
pub open spec fn is_kept(node: TreeNode, filtering: bool) -> bool
    decreases node,
{
    if node.info.is_dir {
        !filtering || kept_count(node.children@, node.children@.len(), filtering) > 0
    } else {
        true
    }
}

/// Number of the first `count` trees that are kept.
pub open spec fn kept_count(nodes: Seq<TreeNode>, count: nat, filtering: bool) -> nat
    decreases nodes, count,
{
    if count == 0 || count > nodes.len() {
        0
    } else {
        let node = nodes[count - 1];
        kept_count(nodes, (count - 1) as nat, filtering) + if (if node.info.is_dir {
            !filtering || kept_count(node.children@, node.children@.len(), filtering) > 0
        } else {
            true
        }) {
            1nat
        } else {
            0nat
        }
    }
}

impl TreeVisualizer {
    /// Number of files in trees, as far as the machine counts.
    pub fn count_files(&self, nodes: &Vec<TreeNode>) -> (count: usize)
        ensures
            count == capped(file_total(nodes@, nodes@.len())),
        decreases nodes,
    {
        let mut count: usize = 0;
        let mut i: usize = 0;
        while i < nodes.len()
            invariant
                i <= nodes@.len(),
                count == capped(file_total(nodes@, i as nat)),
            decreases nodes@.len() - i,
        {
            let node = &nodes[i];
            if !node.info.is_dir {
                count = add_capped(count, 1);
            }
            let below = self.count_files(&node.children);
            count = add_capped(count, below);
            i += 1;
        }
        count
    }

    /// Number of directories in trees, as far as the machine counts.
    pub fn count_dirs(&self, nodes: &Vec<TreeNode>) -> (count: usize)
        ensures
            count == capped(dir_total(nodes@, nodes@.len())),
        decreases nodes,
    {
        let mut count: usize = 0;
        let mut i: usize = 0;
        while i < nodes.len()
            invariant
                i <= nodes@.len(),
                count == capped(dir_total(nodes@, i as nat)),
            decreases nodes@.len() - i,
        {
            let node = &nodes[i];
            if node.info.is_dir {
                count = add_capped(count, 1);
            }
            let below = self.count_dirs(&node.children);
            count = add_capped(count, below);
            i += 1;
        }
        count
    }

    /// The trees of the entries that lie directly in `root_path`: each
    /// entry with the entries in it below it, in the order of the entries.
    pub fn build_tree(&self, entries: &Vec<FileInfo>, root_path: &str) -> (nodes: Vec<TreeNode>)
        ensures
            is_tree(nodes@, entries@, root_path@, entries@.len() as nat),
    {
        build_level(entries, root_path, entries.len())
    }
}

/// The indices of those of the first `count` trees that are kept.
pub open spec fn kept_indices(nodes: Seq<TreeNode>, count: nat, filtering: bool) -> Seq<int>
    decreases count,
{
    if count == 0 || count > nodes.len() {
        Seq::empty()
    } else {
        let before = kept_indices(nodes, (count - 1) as nat, filtering);
        if is_kept(nodes[count - 1], filtering) {
            before.push(count - 1)
        } else {
            before
        }
    }
}

/// Whether `out` are the trees `nodes` without the directories that are
/// not kept, at every depth.
pub open spec fn is_filtered(out: Seq<TreeNode>, nodes: Seq<TreeNode>, filtering: bool) -> bool
    decreases nodes, 1nat,
{
    let indices = kept_indices(nodes, nodes.len(), filtering);
    &&& out.len() == indices.len()
    &&& forall|k: int|
        0 <= k < out.len() ==> (0 <= indices[k] < nodes.len() ==> is_filtered_node(
            #[trigger] out[k],
            nodes[indices[k]],
            filtering,
        ))
}

/// Whether `out` is the tree `node` without the directories below it that
/// are not kept. A file stays as it is.
pub open spec fn is_filtered_node(out: TreeNode, node: TreeNode, filtering: bool) -> bool
    decreases node, 0nat,
{
    if node.info.is_dir {
        out.info == node.info && is_filtered(out.children@, node.children@, filtering)
    } else {
        out == node
    }
}

/// As many trees are kept as there are indices of kept trees.
pub proof fn lemma_kept_indices(nodes: Seq<TreeNode>, count: nat, filtering: bool)
    requires
        count <= nodes.len(),
    ensures
        kept_indices(nodes, count, filtering).len() == kept_count(nodes, count, filtering),
        forall|k: int|
            0 <= k < kept_indices(nodes, count, filtering).len() ==> 0 <= #[trigger] kept_indices(
                nodes,
                count,
                filtering,
            )[k] < count,
    decreases count,
{
    if count > 0 {
        lemma_kept_indices(nodes, (count - 1) as nat, filtering);
    }
}

/// The text that was written.
fn written(text: Option<String>) -> (out: String)
    requires
        text is Some,
    ensures
        Some(out) == text,
{
    match text {
        Some(t) => t,
        None => String::new(),
    }
}

/// The fields of an entry in the JSON form of a tree, with the JSON text
/// of the trees below it where there are any.
pub open spec fn node_fields(info: FileInfo, children: Option<Seq<char>>) -> Seq<
    (Seq<char>, JsonFieldModel),
> {
    seq![
        ("name"@, JsonFieldModel::Text(info.name@)),
        ("path"@, JsonFieldModel::Text(info.path@)),
        ("size"@, JsonFieldModel::Number(info.size)),
        ("is_dir"@, JsonFieldModel::Bool(info.is_dir)),
        ("is_executable"@, JsonFieldModel::Bool(info.is_executable)),
        ("is_symlink"@, JsonFieldModel::Bool(info.is_symlink)),
    ] + match children {
        Some(text) => seq![("children"@, raw_or_null(text))],
        None => Seq::empty(),
    }
}

/// The first `count` trees as JSON values: the text of each tree as a raw
/// value.
pub open spec fn json_items(nodes: Seq<TreeNode>, count: nat) -> Seq<JsonFieldModel>
    decreases nodes, count,
{
    if count == 0 || count > nodes.len() {
        Seq::empty()
    } else {
        let node = nodes[count - 1];
        json_items(nodes, (count - 1) as nat).push(
            raw_or_null(
                json_object_text(
                    node_fields(
                        node.info,
                        if node.children@.len() > 0 {
                            Some(json_array_text(json_items(node.children@, node.children@.len())))
                        } else {
                            None
                        },
                    ),
                ),
            ),
        )
    }
}

/// The JSON text of trees: an array with an object for each tree.
pub open spec fn tree_json(nodes: Seq<TreeNode>) -> Seq<char> {
    json_array_text(json_items(nodes, nodes.len()))
}

/// The JSON text of a listing before it is laid out: the root, the trees,
/// and the numbers of files and directories.
pub open spec fn listing_json(root: Seq<char>, nodes: Seq<TreeNode>) -> Seq<char> {
    json_object_text(
        seq![
            ("root"@, JsonFieldModel::Text(root)),
            ("tree"@, raw_or_null(tree_json(nodes))),
            (
                "stats"@,
                raw_or_null(
                    json_object_text(
                        seq![
                            (
                                "total_files"@,
                                JsonFieldModel::Number(
                                    capped(file_total(nodes, nodes.len())) as u64,
                                ),
                            ),
                            (
                                "total_dirs"@,
                                JsonFieldModel::Number(capped(dir_total(nodes, nodes.len())) as u64),
                            ),
                        ],
                    ),
                ),
            ),
        ],
    )
}

/// The lines of the first `count` trees: for each entry the prefix, a
/// connector, the line of the entry and the end of the line, and below it
/// the lines of the trees in it, with a longer prefix.
pub open spec fn tree_text(
    display: TreeDisplay,
    nodes: Seq<TreeNode>,
    count: nat,
    prefix: Seq<char>,
    mid: Seq<char>,
    line_end: Seq<char>,
) -> Seq<char>
    decreases nodes, count,
{
    if count == 0 || count > nodes.len() {
        Seq::empty()
    } else {
        let node = nodes[count - 1];
        let last = count == nodes.len();
        tree_text(display, nodes, (count - 1) as nat, prefix, mid, line_end) + prefix + (if last {
            "'-- "@
        } else {
            mid
        }) + file_info_line(display.config, display.status_of(&node.info), node.info) + line_end
            + tree_text(
            display,
            node.children@,
            node.children@.len(),
            prefix + (if last {
                "   "@
            } else {
                "|   "@
            }),
            mid,
            line_end,
        )
    }
}

/// The connector before the line of an entry: `mid`, or that of the last
/// entry of a directory.
pub open spec fn connector(last: bool, mid: Seq<char>) -> Seq<char> {
    if last {
        "'-- "@
    } else {
        mid
    }
}

/// The prefix of the lines below an entry.
pub open spec fn prefix_below(prefix: Seq<char>, last: bool) -> Seq<char> {
    prefix + (if last {
        "   "@
    } else {
        "|   "@
    })
}

/// What was appended to `before` to give `after`.
pub open spec fn appended(before: Seq<char>, after: Seq<char>) -> Seq<char> {
    after.skip(before.len() as int)
}

/// Whether `out` is `head`, the line of an entry behind its prefix and
/// connector, and `below`.
pub open spec fn is_entry_text(
    out: Seq<char>,
    head: Seq<char>,
    line: Seq<char>,
    below: Seq<char>,
    prefix: Seq<char>,
    connector: Seq<char>,
    line_end: Seq<char>,
) -> bool {
    out == head + prefix + connector + line + line_end + below
}

/// Whether `out` is the lines of the first `count` trees, the line of
/// each entry being a line of it in the form that the options name: the
/// same as `tree_text` but for the lines of a tree in colours, each of
/// which is as a terminal gets it.
#[verifier::opaque]
pub open spec fn is_tree_text(
    out: Seq<char>,
    display: TreeDisplay,
    nodes: Seq<TreeNode>,
    count: nat,
    prefix: Seq<char>,
    mid: Seq<char>,
    line_end: Seq<char>,
) -> bool
    decreases nodes, count,
{
    if count == 0 || count > nodes.len() {
        out == Seq::<char>::empty()
    } else {
        let node = nodes[count - 1];
        let last = count == nodes.len();
        exists|head: Seq<char>, line: Seq<char>, below: Seq<char>| #[trigger]
            is_entry_text(out, head, line, below, prefix, connector(last, mid), line_end)
                && is_tree_text(head, display, nodes, (count - 1) as nat, prefix, mid, line_end)
                && is_file_info_line(
                line,
                display.config,
                display.status_of(&node.info),
                node.info,
            ) && is_tree_text(
                below,
                display,
                node.children@,
                node.children@.len(),
                prefix_below(prefix, last),
                mid,
                line_end,
            )
    }
}

/// The lines of trees grow by an entry: its line behind what stands
/// before it, and the lines of the trees in it.
proof fn lemma_tree_text_step(
    display: TreeDisplay,
    nodes: Seq<TreeNode>,
    i: nat,
    prefix: Seq<char>,
    mid: Seq<char>,
    line_end: Seq<char>,
    head: Seq<char>,
    line: Seq<char>,
    below: Seq<char>,
)
    requires
        i < nodes.len(),
        is_tree_text(head, display, nodes, i, prefix, mid, line_end),
        is_file_info_line(line, display.config, display.status_of(&nodes[i as int].info), nodes[i as int].info),
        is_tree_text(
            below,
            display,
            nodes[i as int].children@,
            nodes[i as int].children@.len(),
            prefix_below(prefix, i + 1 == nodes.len()),
            mid,
            line_end,
        ),
    ensures
        is_tree_text(
            head + prefix + connector(i + 1 == nodes.len(), mid) + line + line_end + below,
            display,
            nodes,
            i + 1,
            prefix,
            mid,
            line_end,
        ),
{
    reveal(is_tree_text);
    let last = i + 1 == nodes.len();
    let out = head + prefix + connector(last, mid) + line + line_end + below;
    assert(is_entry_text(out, head, line, below, prefix, connector(last, mid), line_end));
}

/// Nothing is the lines of no tree.
proof fn lemma_tree_text_of_none(
    display: TreeDisplay,
    nodes: Seq<TreeNode>,
    prefix: Seq<char>,
    mid: Seq<char>,
    line_end: Seq<char>,
)
    ensures
        is_tree_text(Seq::empty(), display, nodes, 0, prefix, mid, line_end),
{
    reveal(is_tree_text);
}

/// The lines of trees without colours grow by an entry.
proof fn lemma_plain_text_step(
    display: TreeDisplay,
    nodes: Seq<TreeNode>,
    i: nat,
    prefix: Seq<char>,
    mid: Seq<char>,
    line_end: Seq<char>,
)
    requires
        i < nodes.len(),
    ensures
        tree_text(display, nodes, i + 1, prefix, mid, line_end) == tree_text(
            display,
            nodes,
            i,
            prefix,
            mid,
            line_end,
        ) + prefix + connector(i + 1 == nodes.len(), mid) + file_info_line(
            display.config,
            display.status_of(&nodes[i as int].info),
            nodes[i as int].info,
        ) + line_end + tree_text(
            display,
            nodes[i as int].children@,
            nodes[i as int].children@.len(),
            prefix_below(prefix, i + 1 == nodes.len()),
            mid,
            line_end,
        ),
{
}

fn push_entry_line(out: &mut String, prefix: &str, connector: &str, line: &str, line_end: &str)
    ensures
        final(out)@ == old(out)@ + prefix@ + connector@ + line@ + line_end@,
{
    out.append(prefix);
    out.append(connector);
    out.append(line);
    out.append(line_end);
}

fn below_prefix(prefix: &str, last: bool) -> (below: String)
    ensures
        below@ == prefix_below(prefix@, last),
{
    let mut below = String::new();
    below.append(prefix);
    if last {
        below.append("   ");
    } else {
        below.append("|   ");
    }
    proof {
        assert(below@ =~= prefix_below(prefix@, last));
    }
    below
}

/// The lines of the first `count` entries, each behind `lead` and before
/// a line feed.
pub open spec fn entry_lines(
    display: TreeDisplay,
    entries: Seq<FileInfo>,
    count: nat,
    lead: Seq<char>,
) -> Seq<char>
    decreases count,
{
    if count == 0 || count > entries.len() {
        Seq::empty()
    } else {
        let info = entries[count - 1];
        entry_lines(display, entries, (count - 1) as nat, lead) + lead + file_info_line(
            display.config,
            display.status_of(&info),
            info,
        ) + seq!['\n']
    }
}

/// The head of a listing of comma-separated values.
pub open spec fn csv_head() -> Seq<char> {
    "Name,Path,Size,IsDirectory,Modified,Permissions\n"@
}

/// The head of a listing in Markdown.
pub open spec fn markdown_head(root: Seq<char>) -> Seq<char> {
    "Directory Tree: "@ + root + "\n\n"@ + "|  Name  |  Size |  Modified  |\n"@
        + "|--------|-------|------------|\n"@
}

/// The head of a listing in XML.
pub open spec fn xml_head(root: Seq<char>) -> Seq<char> {
    "<?xml version=\"1.0\" encoding=\"UTF-8\"?>\n"@ + "<tree root=\""@ + root + "\">\n"@
}

impl TreeVisualizer {
    /// The trees without the directories that hold nothing that is shown;
    /// without an extension filter every directory stays.
    pub fn filter_empty_directories(&self, nodes: Vec<TreeNode>) -> (out: Vec<TreeNode>)
        ensures
            is_filtered(out@, nodes@, self.display.config.filter_extension is Some),
        decreases nodes,
    {
        let filtering = self.display.config.filter_extension.is_some();
        let ghost all = nodes@;
        let total = nodes.len();
        let mut rest = nodes;
        let mut out: Vec<TreeNode> = Vec::new();
        let mut i: usize = 0;
        proof {
            assert(all.skip(0) =~= all);
        }
        while rest.len() > 0
            invariant
                i <= all.len(),
                all == nodes@,
                all.len() == total,
                filtering == (self.display.config.filter_extension is Some),
                rest@ == all.skip(i as int),
                out@.len() == kept_indices(all, i as nat, filtering).len(),
                forall|k: int|
                    0 <= k < out@.len() ==> is_filtered_node(
                        #[trigger] out@[k],
                        all[kept_indices(all, i as nat, filtering)[k]],
                        filtering,
                    ),
            decreases rest@.len(),
        {
            let ghost before = kept_indices(all, i as nat, filtering);
            let ghost after = kept_indices(all, (i + 1) as nat, filtering);
            let ghost old_out = out@;
            let node = rest.remove(0);
            proof {
                assert(node == all[i as int]);
                assert(rest@ =~= all.skip(i + 1));
                lemma_kept_indices(all, i as nat, filtering);
            }
            if node.info.is_dir {
                let TreeNode { info, children } = node;
                proof {
                    lemma_kept_indices(children@, children@.len(), filtering);
                }
                let kept = self.filter_empty_directories(children);
                if kept.len() > 0 || !filtering {
                    let shown = TreeNode { info, children: kept };
                    out.push(shown);
                    proof {
                        assert(is_kept(all[i as int], filtering));
                        assert(after == before.push(i as int));
                        assert forall|k: int| 0 <= k < out@.len() implies is_filtered_node(
                            #[trigger] out@[k],
                            all[after[k]],
                            filtering,
                        ) by {
                            if k < old_out.len() {
                                assert(out@[k] == old_out[k]);
                            }
                        }
                    }
                } else {
                    proof {
                        assert(!is_kept(all[i as int], filtering));
                        assert(after == before);
                    }
                }
            } else {
                out.push(node);
                proof {
                    assert(is_kept(all[i as int], filtering));
                    assert(after == before.push(i as int));
                    assert forall|k: int| 0 <= k < out@.len() implies is_filtered_node(
                        #[trigger] out@[k],
                        all[after[k]],
                        filtering,
                    ) by {
                        if k < old_out.len() {
                            assert(out@[k] == old_out[k]);
                        }
                    }
                }
            }
            i += 1;
        }
        out
    }

    /// The JSON text of trees: an array with an object for each tree, the
    /// trees below an entry under `children`. A text that its own parser
    /// does not read, as one that is nested deeper than the parser goes,
    /// stands in the text around it as null.
    pub fn tree_to_json(&self, nodes: &Vec<TreeNode>) -> (out: String)
        ensures
            out@ == tree_json(nodes@),
        decreases nodes,
    {
        let mut items: Vec<JsonField> = Vec::new();
        let mut i: usize = 0;
        while i < nodes.len()
            invariant
                i <= nodes@.len(),
                items.deep_view() == json_items(nodes@, i as nat),
                items_are_json(items.deep_view()),
            decreases nodes@.len() - i,
        {
            let node = &nodes[i];
            let mut fields: Vec<(String, JsonField)> = Vec::new();
            fields.push(("name".to_owned(), JsonField::Text(node.info.name.clone())));
            fields.push(("path".to_owned(), JsonField::Text(node.info.path.clone())));
            fields.push(("size".to_owned(), JsonField::Number(node.info.size)));
            fields.push(("is_dir".to_owned(), JsonField::Bool(node.info.is_dir)));
            fields.push(("is_executable".to_owned(), JsonField::Bool(node.info.is_executable)));
            fields.push(("is_symlink".to_owned(), JsonField::Bool(node.info.is_symlink)));
            let ghost below: Option<Seq<char>> = if node.children@.len() > 0 {
                Some(tree_json(node.children@))
            } else {
                None
            };
            if node.children.len() > 0 {
                let children = self.tree_to_json(&node.children);
                fields.push(("children".to_owned(), raw_value(children)));
            }
            proof {
                assert(field_models(fields@) =~= node_fields(node.info, below));
            }
            let text = written(json_object(&fields));
            let ghost before = items.deep_view();
            let item = raw_value(text);
            items.push(item);
            proof {
                assert(items.deep_view() =~= before.push(item.deep_view()));
            }
            i += 1;
        }
        written(json_array(&items))
    }

    /// The listing of trees as JSON: the root, the trees, and the numbers
    /// of files and directories, laid out for reading.
    pub fn generate_json_output(&self, root_path: &str, tree: &Vec<TreeNode>) -> (out: Result<
        String,
        String,
    >)
        ensures
            text_result(out) == json_pretty(listing_json(root_path@, tree@)),
    {
        let nodes = self.tree_to_json(tree);
        let mut numbers: Vec<(String, JsonField)> = Vec::new();
        numbers.push(("total_files".to_owned(), JsonField::Number(self.count_files(tree) as u64)));
        numbers.push(("total_dirs".to_owned(), JsonField::Number(self.count_dirs(tree) as u64)));
        proof {
            assert(field_models(numbers@) =~= seq![
                (
                    "total_files"@,
                    JsonFieldModel::Number(capped(file_total(tree@, tree@.len())) as u64),
                ),
                (
                    "total_dirs"@,
                    JsonFieldModel::Number(capped(dir_total(tree@, tree@.len())) as u64),
                ),
            ]);
        }
        let stats = written(json_object(&numbers));
        let mut fields: Vec<(String, JsonField)> = Vec::new();
        fields.push(("root".to_owned(), JsonField::Text(root_path.to_owned())));
        fields.push(("tree".to_owned(), raw_value(nodes)));
        fields.push(("stats".to_owned(), raw_value(stats)));
        proof {
            assert(field_models(fields@) =~= seq![
                ("root"@, JsonFieldModel::Text(root_path@)),
                ("tree"@, raw_or_null(tree_json(tree@))),
                ("stats"@, raw_or_null(stats@)),
            ]);
        }
        let compact = written(json_object(&fields));
        pretty_json(compact.as_str())
    }

    /// Appends the lines of trees: `mid` is the connector of an entry that
    /// is not the last of its directory, `line_end` the end of each line.
    /// In colours the line of each entry is as a terminal gets it.
    pub fn push_tree_nodes(
        &self,
        out: &mut String,
        nodes: &Vec<TreeNode>,
        prefix: &str,
        mid: &str,
        line_end: &str,
    )
        ensures
            is_plain(self.display.config) ==> final(out)@ == old(out)@ + tree_text(
                self.display,
                nodes@,
                nodes@.len(),
                prefix@,
                mid@,
                line_end@,
            ),
            final(out)@ == old(out)@ + appended(old(out)@, final(out)@),
            is_tree_text(
                appended(old(out)@, final(out)@),
                self.display,
                nodes@,
                nodes@.len(),
                prefix@,
                mid@,
                line_end@,
            ),
        decreases nodes,
    {
        let ghost mut text: Seq<char> = Seq::empty();
        let mut i: usize = 0;
        proof {
            assert(out@ =~= old(out)@ + text);
            lemma_tree_text_of_none(self.display, nodes@, prefix@, mid@, line_end@);
        }
        while i < nodes.len()
            invariant
                i <= nodes@.len(),
                is_plain(self.display.config) ==> text == tree_text(
                    self.display,
                    nodes@,
                    i as nat,
                    prefix@,
                    mid@,
                    line_end@,
                ),
                out@ == old(out)@ + text,
                is_tree_text(text, self.display, nodes@, i as nat, prefix@, mid@, line_end@),
            decreases nodes@.len() - i,
        {
            let node = &nodes[i];
            let last = i == nodes.len() - 1;
            let line = self.display.format_file_info(&node.info);
            let ghost before = out@;
            push_entry_line(out, prefix, if last { "'-- " } else { mid }, line.as_str(), line_end);
            let below = below_prefix(prefix, last);
            let ghost entered = out@;
            self.push_tree_nodes(out, &node.children, below.as_str(), mid, line_end);
            proof {
                let under = appended(entered, out@);
                lemma_tree_text_step(
                    self.display,
                    nodes@,
                    i as nat,
                    prefix@,
                    mid@,
                    line_end@,
                    text,
                    line@,
                    under,
                );
                let grown = text + prefix@ + connector(last, mid@) + line@ + line_end@ + under;
                assert(out@ =~= old(out)@ + grown);
                if is_plain(self.display.config) {
                    lemma_plain_text_step(self.display, nodes@, i as nat, prefix@, mid@, line_end@);
                    let lower = tree_text(
                        self.display,
                        node.children@,
                        node.children@.len(),
                        prefix_below(prefix@, last),
                        mid@,
                        line_end@,
                    );
                    assert(under =~= lower) by {
                        assert((entered + lower).skip(entered.len() as int) =~= lower);
                    }
                }
                text = grown;
            }
            i += 1;
        }
        proof {
            assert(appended(old(out)@, out@) =~= text);
        }
    }

    /// Appends the lines of trees as a listing that is written to a file.
    pub fn append_tree_nodes(&self, output: &mut String, nodes: &Vec<TreeNode>, prefix: &str)
        ensures
            is_plain(self.display.config) ==> final(output)@ == old(output)@ + tree_text(
                self.display,
                nodes@,
                nodes@.len(),
                prefix@,
                "-- "@,
                " \n"@,
            ),
            final(output)@ == old(output)@ + appended(old(output)@, final(output)@),
            is_tree_text(
                appended(old(output)@, final(output)@),
                self.display,
                nodes@,
                nodes@.len(),
                prefix@,
                "-- "@,
                " \n"@,
            ),
    {
        self.push_tree_nodes(output, nodes, prefix, "-- ", " \n");
    }

    /// The lines of trees as a listing that is printed.
    pub fn tree_lines(&self, nodes: &Vec<TreeNode>, prefix: &str) -> (out: String)
        ensures
            is_plain(self.display.config) ==> out@ == tree_text(
                self.display,
                nodes@,
                nodes@.len(),
                prefix@,
                "|-- "@,
                "\n"@,
            ),
            is_tree_text(out@, self.display, nodes@, nodes@.len(), prefix@, "|-- "@, "\n"@),
    {
        let mut out = String::new();
        self.push_tree_nodes(&mut out, nodes, prefix, "|-- ", "\n");
        proof {
            assert(appended(Seq::<char>::empty(), out@) =~= out@);
        }
        out
    }

    fn push_entry_lines(&self, out: &mut String, entries: &Vec<FileInfo>, lead: &str)
        ensures
            is_plain(self.display.config) ==> final(out)@ == old(out)@ + entry_lines(
                self.display,
                entries@,
                entries@.len(),
                lead@,
            ),
    {
        let mut i: usize = 0;
        while i < entries.len()
            invariant
                i <= entries@.len(),
                is_plain(self.display.config) ==> out@ == old(out)@ + entry_lines(
                    self.display,
                    entries@,
                    i as nat,
                    lead@,
                ),
            decreases entries@.len() - i,
        {
            let line = self.display.format_file_info(&entries[i]);
            out.append(lead);
            out.append(line.as_str());
            out.push('\n');
            proof {
                if is_plain(self.display.config) {
                    assert(out@ =~= old(out)@ + entry_lines(
                        self.display,
                        entries@,
                        (i + 1) as nat,
                        lead@,
                    ));
                }
            }
            i += 1;
        }
    }

    /// The listing of entries as comma-separated values: a head, and a
    /// line for each entry.
    pub fn generate_csv_output(&self, entries: &Vec<FileInfo>) -> (out: String)
        ensures
            is_plain(self.display.config) ==> out@ == csv_head() + entry_lines(
                self.display,
                entries@,
                entries@.len(),
                Seq::empty(),
            ),
    {
        let mut out = String::new();
        out.append("Name,Path,Size,IsDirectory,Modified,Permissions\n");
        self.push_entry_lines(&mut out, entries, "");
        proof {
            assert(""@ =~= Seq::<char>::empty()) by {
                reveal_strlit("");
            }
        }
        out
    }

    /// The listing of entries as a Markdown table.
    pub fn generate_markdown_output(&self, root_path: &str, entries: &Vec<FileInfo>) -> (out: String)
        ensures
            is_plain(self.display.config) ==> out@ == markdown_head(root_path@) + entry_lines(
                self.display,
                entries@,
                entries@.len(),
                Seq::empty(),
            ),
    {
        let mut out = String::new();
        out.append("Directory Tree: ");
        out.append(root_path);
        out.append("\n\n");
        out.append("|  Name  |  Size |  Modified  |\n");
        out.append("|--------|-------|------------|\n");
        proof {
            assert(out@ =~= markdown_head(root_path@));
            assert(""@ =~= Seq::<char>::empty()) by {
                reveal_strlit("");
            }
        }
        self.push_entry_lines(&mut out, entries, "");
        out
    }

    /// The listing of entries as XML.
    pub fn generate_xml_output(&self, root_path: &str, entries: &Vec<FileInfo>) -> (out: String)
        ensures
            is_plain(self.display.config) ==> out@ == xml_head(root_path@) + entry_lines(
                self.display,
                entries@,
                entries@.len(),
                "  "@,
            ) + "</tree>\n"@,
    {
        let mut out = String::new();
        out.append("<?xml version=\"1.0\" encoding=\"UTF-8\"?>\n");
        out.append("<tree root=\"");
        out.append(root_path);
        out.append("\">\n");
        proof {
            assert(out@ =~= xml_head(root_path@));
        }
        self.push_entry_lines(&mut out, entries, "  ");
        out.append("</tree>\n");
        out
    }
}

/// The message for a root that does not exist.
pub open spec fn missing_root(path: Seq<char>) -> Seq<char> {
    "Path '"@ + path + "' does not exist"@
}

/// The message for a root that does not exist.
pub fn missing_root_message(path: &str) -> (message: String)
    ensures
        message@ == missing_root(path@),
{
    let mut message = String::new();
    message.append("Path '");
    message.append(path);
    message.append("' does not exist");
    message
}

/// The listing of trees as a tree: the root, the lines of the trees, and
/// the summary where the options ask for it.
pub open spec fn tree_listing(
    display: TreeDisplay,
    root: Seq<char>,
    canonical: Seq<char>,
    shown: Seq<TreeNode>,
    summary: Seq<char>,
) -> Seq<char> {
    (if display.config.full_path {
        canonical
    } else {
        root
    }) + seq!['\n'] + tree_text(display, shown, shown.len(), Seq::empty(), "-- "@, " \n"@)
        + if display.config.show_stats {
        summary
    } else {
        Seq::empty()
    }
}

/// Whether `out` is the listing of trees as a tree, in colours or
/// without: the root as `head`, the lines of the trees as `lines`, each as
/// a terminal gets it, and the summary where the options ask for it.
pub open spec fn is_tree_listing(
    out: Seq<char>,
    display: TreeDisplay,
    root: Seq<char>,
    canonical: Seq<char>,
    shown: Seq<TreeNode>,
    summary: Seq<char>,
    head: Seq<char>,
    lines: Seq<char>,
) -> bool {
    &&& is_line_of(
        head,
        seq![
            (LinePartModel {
                text: shown_path(display.config, root, canonical),
                style: bold(Color::Blue),
            }),
        ],
        display.config.use_colors,
    )
    &&& is_tree_text(lines, display, shown, shown.len(), Seq::empty(), "-- "@, " \n"@)
    &&& out == head + seq!['\n'] + lines + if display.config.show_stats {
        summary
    } else {
        Seq::empty()
    }
}

/// Whether `shown` are the trees that a listing of entries shows: the
/// trees of the entries below the root, without the empty directories where
/// extensions are filtered.
pub open spec fn is_shown_tree(
    config: Config,
    shown: Seq<TreeNode>,
    entries: Seq<FileInfo>,
    root: Seq<char>,
) -> bool {
    exists|tree: Seq<TreeNode>| #[trigger]
        is_tree(tree, entries, root, entries.len()) && if config.filter_extension is Some {
            is_filtered(shown, tree, true)
        } else {
            shown == tree
        }
}

/// Whether `out` is the listing as a tree of the entries below a root, in
/// colours or without: the listing of the trees that are shown of them.
pub open spec fn is_listing_of(
    out: Seq<char>,
    display: TreeDisplay,
    root: Seq<char>,
    canonical: Seq<char>,
    entries: Seq<FileInfo>,
    summary: Seq<char>,
) -> bool {
    exists|shown: Seq<TreeNode>, head: Seq<char>, lines: Seq<char>| #[trigger]
        is_tree_listing(out, display, root, canonical, shown, summary, head, lines)
            && is_shown_tree(display.config, shown, entries, root)
}

impl TreeVisualizer {
    /// Takes an entry into a listing: counts it, where the numbers are in
    /// order and the counters have room, and puts it behind the entries
    /// taken so far.
    pub fn record_entry(&mut self, entries: &mut Vec<FileInfo>, info: FileInfo)
        ensures
            old(self).stats.well_formed() ==> final(self).stats.well_formed(),
            final(self).display == old(self).display,
            final(entries)@ == old(entries)@.push(info),
            !(old(self).stats.well_formed() && old(self).stats.has_room(&info)) ==> final(self).stats == old(self).stats,
            old(self).stats.well_formed() && old(self).stats.has_room(&info) && !info.is_dir
                ==> final(self).stats.total_files == old(self).stats.total_files + 1 && final(self).stats.total_size == old(self).stats.total_size + info.size,
            old(self).stats.well_formed() && old(self).stats.has_room(&info) && info.is_dir
                ==> final(self).stats.total_dirs == old(self).stats.total_dirs + 1,
    {
        if self.stats.is_well_formed() && self.stats.can_add(&info) {
            self.stats.add_file(&info);
        }
        entries.push(info);
    }

    /// The trees that a tree-shaped listing of entries shows.
    pub fn shown_tree(&self, entries: &Vec<FileInfo>, root_path: &str) -> (shown: Vec<TreeNode>)
        ensures
            is_shown_tree(self.display.config, shown@, entries@, root_path@),
    {
        let tree = self.build_tree(entries, root_path);
        if self.display.config.filter_extension.is_some() {
            let ghost built = tree@;
            let shown = self.filter_empty_directories(tree);
            proof {
                assert(is_tree(built, entries@, root_path@, entries@.len()));
            }
            shown
        } else {
            proof {
                assert(is_tree(tree@, entries@, root_path@, entries@.len()));
            }
            tree
        }
    }

    /// The listing of entries in the form that the options name. The
    /// entries are those that were taken, in their order; `canonical_root`
    /// is the root as a full path. A listing as a tree brings the numbers up
    /// to date where it shows them.
    pub fn generate_output(
        &mut self,
        root_path: &str,
        canonical_root: &str,
        entries: &Vec<FileInfo>,
    ) -> (out: Result<String, String>)
        ensures
            final(self).display == old(self).display,
            match old(self).display.config.output_format {
                OutputFormat::Tree => out is Ok && (!old(self).display.config.use_colors
                    ==> exists|shown: Seq<TreeNode>| #[trigger]
                    is_shown_tree(old(self).display.config, shown, entries@, root_path@) && out->Ok_0@
                        == tree_listing(
                        old(self).display,
                        root_path@,
                        canonical_root@,
                        shown,
                        stats_text(final(self).stats),
                    )) && is_listing_of(
                    out->Ok_0@,
                    old(self).display,
                    root_path@,
                    canonical_root@,
                    entries@,
                    stats_text(final(self).stats),
                ),
                OutputFormat::Json => exists|tree: Seq<TreeNode>| #[trigger]
                    is_tree(tree, entries@, root_path@, entries@.len()) && text_result(out)
                        == json_pretty(listing_json(root_path@, tree)),
                OutputFormat::Csv => out is Ok && out->Ok_0@ == csv_head() + entry_lines(
                    old(self).display,
                    entries@,
                    entries@.len(),
                    Seq::empty(),
                ),
                OutputFormat::Markdown => out is Ok && out->Ok_0@ == markdown_head(root_path@)
                    + entry_lines(old(self).display, entries@, entries@.len(), Seq::empty()),
                OutputFormat::Xml => out is Ok && out->Ok_0@ == xml_head(root_path@) + entry_lines(
                    old(self).display,
                    entries@,
                    entries@.len(),
                    "  "@,
                ) + "</tree>\n"@,
            },
    {
        match self.display.config.output_format {
            OutputFormat::Tree => {
                let mut output = self.display.format_path(root_path, canonical_root);
                let ghost top = output@;
                output.push('\n');
                let shown = self.shown_tree(entries, root_path);
                let ghost head = output@;
                self.append_tree_nodes(&mut output, &shown, "");
                let ghost lines = appended(head, output@);
                if self.display.config.show_stats {
                    self.stats.finalize();
                    let summary = self.stats.display();
                    output.append(summary.as_str());
                }
                proof {
                    assert(""@ =~= Seq::<char>::empty()) by {
                        reveal_strlit("");
                    }
                    if !self.display.config.use_colors {
                        assert(output@ =~= tree_listing(
                            self.display,
                            root_path@,
                            canonical_root@,
                            shown@,
                            stats_text(self.stats),
                        ));
                    }
                    assert(output@ =~= top + seq!['\n'] + lines + if self.display.config.show_stats {
                        stats_text(self.stats)
                    } else {
                        Seq::empty()
                    });
                    assert(is_tree_listing(
                        output@,
                        self.display,
                        root_path@,
                        canonical_root@,
                        shown@,
                        stats_text(self.stats),
                        top,
                        lines,
                    ));
                    assert(is_shown_tree(self.display.config, shown@, entries@, root_path@));
                    assert(is_listing_of(
                        output@,
                        self.display,
                        root_path@,
                        canonical_root@,
                        entries@,
                        stats_text(self.stats),
                    ));
                }
                Ok(output)
            },
            OutputFormat::Json => {
                let tree = self.build_tree(entries, root_path);
                proof {
                    assert(is_tree(tree@, entries@, root_path@, entries@.len()));
                }
                self.generate_json_output(root_path, &tree)
            },
            OutputFormat::Csv => Ok(self.generate_csv_output(entries)),
            OutputFormat::Markdown => Ok(self.generate_markdown_output(root_path, entries)),
            OutputFormat::Xml => Ok(self.generate_xml_output(root_path, entries)),
        }
    }
}

fn lies_in(info: &FileInfo, parent: &str) -> (child: bool)
    ensures
        child == is_child(*info, parent@),
{
    match parent_of(info.path.as_str()) {
        Some(p) => same_path(p.as_str(), parent),
        None => false,
    }
}

fn build_level(entries: &Vec<FileInfo>, parent: &str, depth: usize) -> (nodes: Vec<TreeNode>)
    ensures
        is_tree(nodes@, entries@, parent@, depth as nat),
    decreases depth, 1nat,
{
    let mut nodes: Vec<TreeNode> = Vec::new();
    let mut i: usize = 0;
    while i < entries.len()
        invariant
            i <= entries@.len(),
            nodes@.len() == child_indices(entries@, parent@, i as nat).len(),
            forall|k: int|
                0 <= k < nodes@.len() ==> is_node(
                    #[trigger] nodes@[k],
                    entries@,
                    entries@[child_indices(entries@, parent@, i as nat)[k]],
                    depth as nat,
                ),
        decreases entries@.len() - i,
    {
        let ghost before = child_indices(entries@, parent@, i as nat);
        let ghost after = child_indices(entries@, parent@, (i + 1) as nat);
        let ghost old_nodes = nodes@;
        if lies_in(&entries[i], parent) {
            let node = build_node(entries, &entries[i], depth);
            nodes.push(node);
            proof {
                assert(after == before.push(i as int));
                assert forall|k: int| 0 <= k < nodes@.len() implies is_node(
                    #[trigger] nodes@[k],
                    entries@,
                    entries@[after[k]],
                    depth as nat,
                ) by {
                    if k < old_nodes.len() {
                        assert(nodes@[k] == old_nodes[k]);
                        assert(after[k] == before[k]);
                    } else {
                        assert(after[k] == i);
                    }
                }
            }
        } else {
            proof {
                assert(after == before);
            }
        }
        i += 1;
    }
    proof {
        lemma_child_indices_bounds(entries@, parent@, entries@.len());
    }
    nodes
}

/// The indices of the entries in a directory are indices of entries.
pub proof fn lemma_child_indices_bounds(entries: Seq<FileInfo>, parent: Seq<char>, count: nat)
    requires
        count <= entries.len(),
    ensures
        child_indices(entries, parent, count).len() <= count,
        forall|k: int|
            0 <= k < child_indices(entries, parent, count).len() ==> 0 <= #[trigger] child_indices(
                entries,
                parent,
                count,
            )[k] < count,
    decreases count,
{
    if count > 0 {
        lemma_child_indices_bounds(entries, parent, (count - 1) as nat);
    }
}

fn build_node(entries: &Vec<FileInfo>, info: &FileInfo, depth: usize) -> (node: TreeNode)
    ensures
        is_node(node, entries@, *info, depth as nat),
    decreases depth, 0nat,
{
    let children = if info.is_dir && depth > 0 {
        build_level(entries, info.path.as_str(), depth - 1)
    } else {
        Vec::new()
    };
    TreeNode { info: copy_info(info), children }
}

proof fn lemma_any_matches_grows(patterns: Seq<String>, path: Seq<char>, from: nat, to: nat)
    requires
        from <= to <= patterns.len(),
        any_matches(patterns, path, from),
    ensures
        any_matches(patterns, path, to),
    decreases to - from,
{
    if from < to {
        lemma_any_matches_grows(patterns, path, from, (to - 1) as nat);
    }
}

} // verus!
