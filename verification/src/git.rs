//! The state of a file in version control.

use crate::paths::{path_below, paths_equal, same_path, strip_prefix_of};
use crate::style::Color;
use crate::textfmt::{chars_of, text_of};
use crate::viewer::highlight::{replace_all, replaced};
use vstd::prelude::*;
use vstd::string::*;

verus! {

/// The state of a file in a Git work tree.
#[derive(Debug, Clone, Copy, PartialEq, Eq, Structural)]
pub enum GitStatus {
    Untracked,
    Modified,
    Added,
    Deleted,
    Renamed,
    Ignored,
    Clean,
}

/// The two characters that stand for a state in a listing.
pub open spec fn status_symbol(status: GitStatus) -> Seq<char> {
    match status {
        GitStatus::Untracked => "??"@,
        GitStatus::Modified => "M "@,
        GitStatus::Added => "A "@,
        GitStatus::Deleted => "D "@,
        GitStatus::Renamed => "R "@,
        GitStatus::Ignored => "I "@,
        GitStatus::Clean => "  "@,
    }
}

/// What is known of the changes to a file, in the index and in the work
/// tree.
#[derive(Debug, Clone, Copy, PartialEq, Eq, Structural)]
pub struct StatusFlags {
    pub index_new: bool,
    pub index_modified: bool,
    pub index_deleted: bool,
    pub index_renamed: bool,
    pub wt_new: bool,
    pub wt_modified: bool,
    pub wt_deleted: bool,
    pub wt_renamed: bool,
    pub ignored: bool,
}

/// The state that a set of flags amounts to: a change in the index counts
/// before one in the work tree, and being ignored counts last.
pub open spec fn status_of(flags: StatusFlags) -> GitStatus {
    if flags.index_new {
        GitStatus::Added
    } else if flags.index_modified {
        GitStatus::Modified
    } else if flags.index_deleted {
        GitStatus::Deleted
    } else if flags.index_renamed {
        GitStatus::Renamed
    } else if flags.wt_new {
        GitStatus::Untracked
    } else if flags.wt_modified {
        GitStatus::Modified
    } else if flags.wt_deleted {
        GitStatus::Deleted
    } else if flags.wt_renamed {
        GitStatus::Renamed
    } else if flags.ignored {
        GitStatus::Ignored
    } else {
        GitStatus::Clean
    }
}

/// The colour in which a state is shown.
pub open spec fn status_color(status: GitStatus) -> Color {
    match status {
        GitStatus::Untracked => Color::Red,
        GitStatus::Modified => Color::Yellow,
        GitStatus::Added => Color::Green,
        GitStatus::Deleted => Color::Red,
        GitStatus::Renamed => Color::Blue,
        GitStatus::Ignored => Color::BrightBlack,
        GitStatus::Clean => Color::White,
    }
}

/// The states of the files of a work tree: the directory of the work
/// tree, where there is one, and the state of each file that has one, by
/// its path.
#[derive(Debug, Clone, PartialEq, Eq)]
pub struct GitInfo {
    pub workdir: Option<String>,
    pub status_cache: Vec<(String, GitStatus)>,
}

/// The state under which a path is kept among the first `count` entries:
/// that of the first entry with this path.
pub open spec fn cached_status(
    cache: Seq<(String, GitStatus)>,
    path: Seq<char>,
    from: nat,
) -> Option<GitStatus>
    decreases cache.len() - from,
{
    if from >= cache.len() {
        None
    } else if paths_equal(cache[from as int].0@, path) {
        Some(cache[from as int].1)
    } else {
        cached_status(cache, path, from + 1)
    }
}

/// A path below the work tree without `./` in front of it.
pub open spec fn relative_key(relative: Seq<char>) -> Seq<char> {
    match path_below(relative, "./"@) {
        Some(rest) => rest,
        None => relative,
    }
}

/// A path with a slash in the place of each backslash.
pub open spec fn with_slashes(path: Seq<char>) -> Seq<char> {
    replaced(path, seq!['\\'], seq!['/'])
}

/// The state of a file below the work tree, by its path relative to it,
/// or by that path with slashes for backslashes.
pub open spec fn relative_status(cache: Seq<(String, GitStatus)>, relative: Seq<char>) -> GitStatus {
    let key = relative_key(relative);
    match cached_status(cache, key, 0) {
        Some(status) => status,
        None => match cached_status(cache, with_slashes(key), 0) {
            Some(status) => status,
            None => GitStatus::Clean,
        },
    }
}

/// The state of a file: the one kept under its path, else the one kept
/// under its path relative to the work tree, else clean.
pub open spec fn file_status(
    workdir: Option<Seq<char>>,
    cache: Seq<(String, GitStatus)>,
    path: Seq<char>,
) -> GitStatus {
    match cached_status(cache, path, 0) {
        Some(status) => status,
        None => match workdir {
            Some(dir) => match path_below(path, dir) {
                Some(relative) => relative_status(cache, relative),
                None => GitStatus::Clean,
            },
            None => GitStatus::Clean,
        },
    }
}

impl GitInfo {
    /// No work tree and no states.
    pub fn new() -> (info: Self)
        ensures
            info.workdir is None,
            info.status_cache@.len() == 0,
    {
        GitInfo { workdir: None, status_cache: Vec::new() }
    }

    fn lookup(&self, path: &str) -> (status: Option<GitStatus>)
        ensures
            status == cached_status(self.status_cache@, path@, 0),
    {
        let mut i: usize = 0;
        while i < self.status_cache.len()
            invariant
                i <= self.status_cache@.len(),
                cached_status(self.status_cache@, path@, 0) == cached_status(
                    self.status_cache@,
                    path@,
                    i as nat,
                ),
            decreases self.status_cache@.len() - i,
        {
            if same_path(self.status_cache[i].0.as_str(), path) {
                return Some(self.status_cache[i].1);
            }
            i += 1;
        }
        None
    }

    /// The state of the file at `path`.
    pub fn get_status(&self, path: &str) -> (status: GitStatus)
        ensures
            status == file_status(
                match self.workdir {
                    Some(dir) => Some(dir@),
                    None => None,
                },
                self.status_cache@,
                path@,
            ),
    {
        match self.lookup(path) {
            Some(status) => {
                return status;
            },
            None => {},
        }
        let relative = match &self.workdir {
            Some(dir) => match strip_prefix_of(path, dir.as_str()) {
                Some(relative) => relative,
                None => {
                    return GitStatus::Clean;
                },
            },
            None => {
                return GitStatus::Clean;
            },
        };
        let key = match strip_prefix_of(relative.as_str(), "./") {
            Some(rest) => rest,
            None => relative,
        };
        match self.lookup(key.as_str()) {
            Some(status) => {
                return status;
            },
            None => {},
        }
        let chars = chars_of(key.as_str());
        let mut backslash: Vec<char> = Vec::new();
        backslash.push('\\');
        let mut slash: Vec<char> = Vec::new();
        slash.push('/');
        proof {
            assert(backslash@ =~= seq!['\\']);
            assert(slash@ =~= seq!['/']);
        }
        let normalized = text_of(&replace_all(&chars, &backslash, &slash));
        match self.lookup(normalized.as_str()) {
            Some(status) => status,
            None => GitStatus::Clean,
        }
    }

    /// Whether the file at `path` is ignored.
    pub fn is_ignored(&self, path: &str) -> (ignored: bool)
        ensures
            ignored == (file_status(
                match self.workdir {
                    Some(dir) => Some(dir@),
                    None => None,
                },
                self.status_cache@,
                path@,
            ) == GitStatus::Ignored),
    {
        self.get_status(path).is_ignored()
    }
}

impl GitStatus {
    /// The two characters that stand for the state in a listing.
    pub fn symbol(&self) -> (text: &'static str)
        ensures
            text@ == status_symbol(*self),
    {
        match self {
            GitStatus::Untracked => "??",
            GitStatus::Modified => "M ",
            GitStatus::Added => "A ",
            GitStatus::Deleted => "D ",
            GitStatus::Renamed => "R ",
            GitStatus::Ignored => "I ",
            GitStatus::Clean => "  ",
        }
    }

    /// The state that a set of flags amounts to.
    pub fn convert_status(flags: StatusFlags) -> (status: GitStatus)
        ensures
            status == status_of(flags),
    {
        if flags.index_new {
            GitStatus::Added
        } else if flags.index_modified {
            GitStatus::Modified
        } else if flags.index_deleted {
            GitStatus::Deleted
        } else if flags.index_renamed {
            GitStatus::Renamed
        } else if flags.wt_new {
            GitStatus::Untracked
        } else if flags.wt_modified {
            GitStatus::Modified
        } else if flags.wt_deleted {
            GitStatus::Deleted
        } else if flags.wt_renamed {
            GitStatus::Renamed
        } else if flags.ignored {
            GitStatus::Ignored
        } else {
            GitStatus::Clean
        }
    }

    /// The colour in which the state is shown.
    pub fn color(&self) -> (color: Color)
        ensures
            color == status_color(*self),
    {
        match self {
            GitStatus::Untracked => Color::Red,
            GitStatus::Modified => Color::Yellow,
            GitStatus::Added => Color::Green,
            GitStatus::Deleted => Color::Red,
            GitStatus::Renamed => Color::Blue,
            GitStatus::Ignored => Color::BrightBlack,
            GitStatus::Clean => Color::White,
        }
    }

    /// Whether the state is that of an ignored file.
    pub fn is_ignored(&self) -> (ignored: bool)
        ensures
            ignored == (*self == GitStatus::Ignored),
    {
        match self {
            GitStatus::Ignored => true,
            _ => false,
        }
    }
}

} // verus!
