//! The options of a directory listing.

use crate::textfmt::{lowercased, pieces, split_on, to_lower, trim, trimmed};
use vstd::prelude::*;
use vstd::string::*;

verus! {

/// The order of the entries of a listing.
#[derive(Debug, Clone, Copy, PartialEq, Eq, Structural)]
pub enum SortBy {
    Name,
    Size,
    Time,
    Extension,
    Type,
}

/// The form of a listing.
#[derive(Debug, Clone, Copy, PartialEq, Eq, Structural)]
pub enum OutputFormat {
    Tree,
    Json,
    Xml,
    Csv,
    Markdown,
}

/// The options of a directory listing.
#[derive(Debug, Clone, PartialEq, Eq)]
pub struct Config {
    pub max_depth: Option<usize>,
    pub show_hidden: bool,
    pub show_size: bool,
    pub show_permissions: bool,
    pub show_time: bool,
    pub show_count: bool,
    pub use_colors: bool,
    pub sort_by: SortBy,
    pub reverse_sort: bool,
    pub filter_extension: Option<String>,
    pub directories_only: bool,
    pub files_only: bool,
    pub min_size: Option<u64>,
    pub max_size: Option<u64>,
    pub exclude_patterns: Vec<String>,
    pub include_patterns: Option<String>,
    pub git_ignore: bool,
    pub git_status: bool,
    pub limit: Option<usize>,
    pub output_format: OutputFormat,
    pub follow_links: bool,
    pub full_path: bool,
    pub show_checksum: bool,
    pub show_stats: bool,
    pub interactive: bool,
}

impl Default for Config {
    fn default() -> (config: Self)
        ensures
            config.max_depth is None,
            !config.show_hidden,
            !config.show_size,
            !config.show_permissions,
            !config.show_time,
            !config.show_count,
            config.use_colors,
            config.sort_by == SortBy::Name,
            !config.reverse_sort,
            config.filter_extension is None,
            !config.directories_only,
            !config.files_only,
            config.min_size is None,
            config.max_size is None,
            config.exclude_patterns@.len() == 0,
            config.include_patterns is None,
            !config.git_ignore,
            !config.git_status,
            config.limit is None,
            config.output_format == OutputFormat::Tree,
            !config.follow_links,
            !config.full_path,
            !config.show_checksum,
            !config.show_stats,
            !config.interactive,
    {
        Config {
            max_depth: None,
            show_hidden: false,
            show_size: false,
            show_permissions: false,
            show_time: false,
            show_count: false,
            use_colors: true,
            sort_by: SortBy::Name,
            reverse_sort: false,
            filter_extension: None,
            directories_only: false,
            files_only: false,
            min_size: None,
            max_size: None,
            exclude_patterns: Vec::new(),
            include_patterns: None,
            git_ignore: false,
            git_status: false,
            limit: None,
            output_format: OutputFormat::Tree,
            follow_links: false,
            full_path: false,
            show_checksum: false,
            show_stats: false,
            interactive: false,
        }
    }
}

/// The extensions that a filter names: its pieces between commas, each
/// without the white space around it and in lower case.
pub open spec fn filter_extensions(filter: Option<Seq<char>>) -> Seq<Seq<char>> {
    match filter {
        Some(text) => Seq::new(
            pieces(text, ',').len(),
            |i: int| lowercased(trimmed(pieces(text, ',')[i])),
        ),
        None => Seq::empty(),
    }
}

/// Whether a size lies within two optional bounds, both inclusive.
pub open spec fn within_size(min_size: Option<u64>, max_size: Option<u64>, size: u64) -> bool {
    (min_size matches Some(min) ==> size >= min) && (max_size matches Some(max) ==> size <= max)
}

impl Config {
    /// The extensions of the extension filter; none where no filter is set.
    pub fn get_extension(&self) -> (extensions: Vec<String>)
        ensures
            extensions.deep_view() == filter_extensions(
                match self.filter_extension {
                    Some(text) => Some(text@),
                    None => None,
                },
            ),
    {
        match &self.filter_extension {
            Some(text) => {
                let parts = split_on(text.as_str(), ',');
                let ghost all = pieces(text@, ',');
                let mut extensions: Vec<String> = Vec::new();
                let mut i: usize = 0;
                while i < parts.len()
                    invariant
                        i <= parts@.len(),
                        parts.deep_view() == all,
                        extensions@.len() == i,
                        forall|k: int|
                            0 <= k < i ==> (#[trigger] extensions@[k])@ == lowercased(
                                trimmed(all[k]),
                            ),
                    decreases parts@.len() - i,
                {
                    proof {
                        assert(parts.deep_view()[i as int] == parts@[i as int]@);
                    }
                    extensions.push(to_lower(trim(parts[i].as_str())));
                    i += 1;
                }
                proof {
                    assert(extensions.deep_view() =~= filter_extensions(Some(text@)));
                }
                extensions
            },
            None => Vec::new(),
        }
    }

    /// Whether a file of `size` bytes passes the size filter: it is no
    /// smaller than the minimum and no larger than the maximum, as far as
    /// they are set.
    pub fn matches_size_filter(&self, size: u64) -> (passes: bool)
        ensures
            passes == within_size(self.min_size, self.max_size, size),
    {
        match self.min_size {
            Some(min) => {
                if size < min {
                    return false;
                }
            },
            None => {},
        }
        match self.max_size {
            Some(max) => {
                if size > max {
                    return false;
                }
            },
            None => {},
        }
        true
    }
}

} // verus!
