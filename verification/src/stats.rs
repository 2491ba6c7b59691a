//! Numbers about the files of a listing.

use crate::display::FileInfo;
use crate::sorting::{key_models, sort_order, stable_order, SortKey, SortKeyModel};
use crate::textfmt::{decimal, push_decimal};
use crate::paths::{extension_of, path_extension};
use crate::textfmt::{lowercased, same_text, to_lower};
use vstd::prelude::*;
use vstd::string::*;

verus! {

/// Numbers about the files of a listing: how many, how large, of which
/// types. No extension occurs twice in `file_types`.
#[derive(Debug, Clone, PartialEq, Eq)]
pub struct TreeStats {
    pub total_files: usize,
    pub total_dirs: usize,
    pub total_size: u64,
    pub file_types: Vec<(String, usize)>,
    pub largest_file: Option<(String, u64)>,
    pub smallest_file: Option<(String, u64)>,
    pub avg_file_size: u64,
    pub symlinks: usize,
}

/// Number of files that are counted for an extension among the first
/// `count` entries.
pub open spec fn type_count(types: Seq<(String, usize)>, ext: Seq<char>, count: nat) -> nat
    decreases count,
{
    if count == 0 || count > types.len() {
        0
    } else {
        type_count(types, ext, (count - 1) as nat) + if types[count - 1].0@ == ext {
            types[count - 1].1 as nat
        } else {
            0nat
        }
    }
}

/// Whether no extension occurs twice.
pub open spec fn distinct_types(types: Seq<(String, usize)>) -> bool {
    forall|i: int, j: int|
        0 <= i < j < types.len() ==> (#[trigger] types[i]).0@ != (#[trigger] types[j]).0@
}

/// The extension under which a file is counted: that of its path in lower
/// case, or the words `no extension`.
pub open spec fn counted_extension(path: Seq<char>) -> Seq<char> {
    match path_extension(path) {
        Some(ext) => lowercased(ext),
        None => lowercased("no extension"@),
    }
}

/// The file that is the larger one of the largest so far and a new one; a
/// new one of the same size does not take the place.
pub open spec fn larger_file(
    largest: Option<(String, u64)>,
    name: Seq<char>,
    size: u64,
) -> (Seq<char>, u64) {
    match largest {
        Some((n, s)) if size <= s => (n@, s),
        _ => (name, size),
    }
}

/// The file that is the smaller one of the smallest so far and a new one.
pub open spec fn smaller_file(
    smallest: Option<(String, u64)>,
    name: Seq<char>,
    size: u64,
) -> (Seq<char>, u64) {
    match smallest {
        Some((n, s)) if size >= s => (n@, s),
        _ => (name, size),
    }
}

/// A size in words, as the `humansize` crate writes it in decimal units.
pub uninterp spec fn human_size(size: u64) -> Seq<char>;

/// Writes a size with `humansize::format_size` and its decimal options.
#[verifier::external_body]
pub(crate) fn format_size_decimal(size: u64) -> (text: String)
    ensures
        text@ == human_size(size),
{
    humansize::format_size(size, humansize::DECIMAL)
}

/// Number of file types that a summary names.
pub const TOP_TYPES: usize = 10;

/// The keys by which file types are ranked: their counts.
pub open spec fn type_keys(types: Seq<(String, usize)>) -> Seq<SortKeyModel> {
    Seq::new(
        types.len(),
        |i: int| SortKeyModel { rank: 0, number: types[i].1 as i128, text: Seq::empty() },
    )
}

/// The file types by falling count; types of one count in the order in
/// which they were first seen.
pub open spec fn ranked_types(types: Seq<(String, usize)>) -> Seq<usize> {
    stable_order(type_keys(types), types.len(), true)
}

/// The lines of the first `count` file types of a ranking.
pub open spec fn type_lines(types: Seq<(String, usize)>, ranking: Seq<usize>, count: nat) -> Seq<
    char,
>
    decreases count,
{
    if count == 0 || count > ranking.len() {
        Seq::empty()
    } else {
        let entry = types[ranking[count - 1] as int];
        type_lines(types, ranking, (count - 1) as nat) + entry.0@ + " files: "@ + decimal(
            entry.1 as nat,
        ) + seq!['\n']
    }
}

/// The line of the largest or the smallest file.
pub open spec fn extreme_line(label: Seq<char>, file: Option<(String, u64)>) -> Seq<char> {
    match file {
        Some((name, size)) => label + name@ + " ("@ + human_size(size) + ")\n"@,
        None => Seq::empty(),
    }
}

/// The summary of the numbers.
pub open spec fn stats_text(stats: TreeStats) -> Seq<char> {
    stats_head(stats) + extreme_line("Largest file: "@, stats.largest_file) + extreme_line(
        "Smallest file: "@,
        stats.smallest_file,
    ) + symlinks_line(stats.symlinks) + types_part(stats.file_types@)
}

fn push_extreme_line(out: &mut String, label: &str, file: &Option<(String, u64)>)
    ensures
        final(out)@ == old(out)@ + extreme_line(label@, *file),
{
    match file {
        Some((name, size)) => {
            let words = format_size_decimal(*size);
            out.append(label);
            out.append(name.as_str());
            out.append(" (");
            out.append(words.as_str());
            out.append(")\n");
        },
        None => {},
    }
}

/// The head of the summary: directories, files and sizes.
pub open spec fn stats_head(stats: TreeStats) -> Seq<char> {
    "\n Tree Statistics:\n"@ + "Directories: "@ + decimal(stats.total_dirs as nat) + seq!['\n']
        + "Files: "@ + decimal(stats.total_files as nat) + seq!['\n'] + "Total size: "@
        + human_size(stats.total_size) + seq!['\n'] + (if stats.total_files > 0 {
        "Average file size: "@ + human_size(stats.avg_file_size) + seq!['\n']
    } else {
        Seq::empty()
    })
}

/// The part of the summary on symbolic links.
pub open spec fn symlinks_line(symlinks: usize) -> Seq<char> {
    if symlinks > 0 {
        "Symlinks: "@ + decimal(symlinks as nat) + seq!['\n']
    } else {
        Seq::empty()
    }
}

/// The part of the summary on file types: the ten most frequent ones.
pub open spec fn types_part(types: Seq<(String, usize)>) -> Seq<char> {
    if types.len() > 0 {
        "File types:\n"@ + type_lines(
            types,
            ranked_types(types),
            if types.len() < TOP_TYPES {
                types.len()
            } else {
                TOP_TYPES as nat
            },
        )
    } else {
        Seq::empty()
    }
}

fn push_stats_head(out: &mut String, stats: &TreeStats)
    ensures
        final(out)@ == old(out)@ + stats_head(*stats),
{
    out.append("\n Tree Statistics:\n");
    out.append("Directories: ");
    push_decimal(out, stats.total_dirs as u64);
    out.push('\n');
    out.append("Files: ");
    push_decimal(out, stats.total_files as u64);
    out.push('\n');
    out.append("Total size: ");
    let total = format_size_decimal(stats.total_size);
    out.append(total.as_str());
    out.push('\n');
    if stats.total_files > 0 {
        let average = format_size_decimal(stats.avg_file_size);
        out.append("Average file size: ");
        out.append(average.as_str());
        out.push('\n');
    }
    proof {
        assert(out@ =~= old(out)@ + stats_head(*stats));
    }
}

fn rank_types(types: &Vec<(String, usize)>) -> (ranking: Vec<usize>)
    ensures
        ranking@ == ranked_types(types@),
        ranking@.len() == types@.len(),
        forall|j: int| 0 <= j < ranking@.len() ==> (#[trigger] ranking@[j]) < types@.len(),
{
    let mut keys: Vec<SortKey> = Vec::new();
    let mut k: usize = 0;
    while k < types.len()
        invariant
            k <= types@.len(),
            keys@.len() == k,
            forall|i: int| 0 <= i < k ==> (#[trigger] keys@[i])@ == type_keys(types@)[i],
        decreases types@.len() - k,
    {
        keys.push(SortKey { rank: 0, number: types[k].1 as i128, text: Vec::new() });
        k += 1;
    }
    proof {
        assert(key_models(keys@) =~= type_keys(types@));
    }
    sort_order(&keys, true)
}

fn push_types_part(out: &mut String, types: &Vec<(String, usize)>)
    ensures
        final(out)@ == old(out)@ + types_part(types@),
{
    if types.len() == 0 {
        return ;
    }
    out.append("File types:\n");
    let ranking = rank_types(types);
    let count: usize = if ranking.len() < TOP_TYPES {
        ranking.len()
    } else {
        TOP_TYPES
    };
    let ghost head = out@;
    let mut i: usize = 0;
    while i < count
        invariant
            i <= count <= ranking@.len(),
            ranking@.len() == types@.len(),
            forall|j: int| 0 <= j < ranking@.len() ==> (#[trigger] ranking@[j]) < types@.len(),
            out@ == head + type_lines(types@, ranking@, i as nat),
        decreases count - i,
    {
        let entry = &types[ranking[i]];
        out.append(entry.0.as_str());
        out.append(" files: ");
        push_decimal(out, entry.1 as u64);
        out.push('\n');
        proof {
            assert(out@ =~= head + type_lines(types@, ranking@, (i + 1) as nat));
        }
        i += 1;
    }
    proof {
        assert(out@ =~= old(out)@ + types_part(types@));
    }
}

impl TreeStats {
    /// The summary of the numbers: directories, files, sizes, the largest
    /// and the smallest file, symbolic links, and the ten most frequent
    /// file types.
    pub fn display(&self) -> (out: String)
        ensures
            out@ == stats_text(*self),
    {
        let mut out = String::new();
        push_stats_head(&mut out, self);
        push_extreme_line(&mut out, "Largest file: ", &self.largest_file);
        push_extreme_line(&mut out, "Smallest file: ", &self.smallest_file);
        if self.symlinks > 0 {
            out.append("Symlinks: ");
            push_decimal(&mut out, self.symlinks as u64);
            out.push('\n');
        }
        proof {
            assert(out@ =~= stats_head(*self) + extreme_line("Largest file: "@, self.largest_file)
                + extreme_line("Smallest file: "@, self.smallest_file) + symlinks_line(
                self.symlinks,
            ));
        }
        push_types_part(&mut out, &self.file_types);
        out
    }

    /// Whether the numbers are in order: no extension occurs twice.
    pub open spec fn well_formed(&self) -> bool {
        distinct_types(self.file_types@)
    }

    /// Whether one more entry can be counted without a number running over.
    pub open spec fn has_room(&self, info: &FileInfo) -> bool {
        &&& self.total_dirs < usize::MAX
        &&& self.total_files < usize::MAX
        &&& self.symlinks < usize::MAX
        &&& self.total_size + info.size <= u64::MAX
        &&& forall|i: int|
            0 <= i < self.file_types@.len() ==> (#[trigger] self.file_types@[i]).1 < usize::MAX
    }

    /// Numbers about no file at all.
    pub fn new() -> (stats: Self)
        ensures
            stats.well_formed(),
            stats.total_files == 0,
            stats.total_dirs == 0,
            stats.total_size == 0,
            stats.file_types@.len() == 0,
            stats.largest_file is None,
            stats.smallest_file is None,
            stats.avg_file_size == 0,
            stats.symlinks == 0,
    {
        TreeStats {
            total_files: 0,
            total_dirs: 0,
            total_size: 0,
            file_types: Vec::new(),
            largest_file: None,
            smallest_file: None,
            avg_file_size: 0,
            symlinks: 0,
        }
    }

    /// Whether no extension occurs twice among the file types.
    pub fn is_well_formed(&self) -> (good: bool)
        ensures
            good == self.well_formed(),
    {
        let mut j: usize = 0;
        while j < self.file_types.len()
            invariant
                j <= self.file_types@.len(),
                forall|a: int, b: int|
                    0 <= a < b < j ==> (#[trigger] self.file_types@[a]).0@ != (
                    #[trigger] self.file_types@[b]).0@,
            decreases self.file_types@.len() - j,
        {
            let mut i: usize = 0;
            while i < j
                invariant
                    i <= j < self.file_types@.len(),
                    forall|a: int|
                        0 <= a < i ==> (#[trigger] self.file_types@[a]).0@ != self.file_types@[j as int].0@,
                decreases j - i,
            {
                if same_text(self.file_types[i].0.as_str(), self.file_types[j].0.as_str()) {
                    return false;
                }
                i += 1;
            }
            j += 1;
        }
        true
    }

    /// Whether one more entry can be counted.
    pub fn can_add(&self, info: &FileInfo) -> (room: bool)
        ensures
            room == self.has_room(info),
    {
        if self.total_dirs == usize::MAX || self.total_files == usize::MAX || self.symlinks
            == usize::MAX || info.size > u64::MAX - self.total_size {
            return false;
        }
        let mut i: usize = 0;
        while i < self.file_types.len()
            invariant
                i <= self.file_types@.len(),
                forall|k: int| 0 <= k < i ==> (#[trigger] self.file_types@[k]).1 < usize::MAX,
            decreases self.file_types@.len() - i,
        {
            if self.file_types[i].1 == usize::MAX {
                return false;
            }
            i += 1;
        }
        true
    }

    /// Counts an entry. A directory counts as one; a file counts with its
    /// size and under its extension, and takes the place of the largest or
    /// smallest file where it is larger or smaller. A symbolic link is
    /// counted as such besides.
    pub fn add_file(&mut self, info: &FileInfo)
        requires
            old(self).well_formed(),
            old(self).has_room(info),
        ensures
            final(self).well_formed(),
            final(self).avg_file_size == old(self).avg_file_size,
            final(self).symlinks == old(self).symlinks + if info.is_symlink {
                1int
            } else {
                0int
            },
            info.is_dir ==> final(self).total_dirs == old(self).total_dirs + 1 && final(self).total_files == old(self).total_files && final(self).total_size == old(self).total_size && final(self).file_types == old(self).file_types && final(self).largest_file == old(self).largest_file && final(self).smallest_file == old(self).smallest_file,
            !info.is_dir ==> final(self).total_dirs == old(self).total_dirs && final(self).total_files == old(self).total_files + 1 && final(self).total_size == old(self).total_size + info.size,
            !info.is_dir ==> forall|ext: Seq<char>|
                #[trigger] type_count(final(self).file_types@, ext, final(self).file_types@.len())
                    == type_count(old(self).file_types@, ext, old(self).file_types@.len()) + if ext
                    == counted_extension(info.path@) {
                    1int
                } else {
                    0int
                },
            !info.is_dir ==> (final(self).largest_file matches Some((n, s)) && (n@, s)
                == larger_file(old(self).largest_file, info.name@, info.size)),
            !info.is_dir ==> (final(self).smallest_file matches Some((n, s)) && (n@, s)
                == smaller_file(old(self).smallest_file, info.name@, info.size)),
    {
        if info.is_dir {
            self.total_dirs += 1;
        } else {
            self.total_files += 1;
            self.total_size += info.size;
            let extension = match extension_of(info.path.as_str()) {
                Some(ext) => to_lower(ext.as_str()),
                None => to_lower("no extension"),
            };
            count_type(&mut self.file_types, extension);
            let replace_largest = match &self.largest_file {
                Some((_, largest)) => info.size > *largest,
                None => true,
            };
            if replace_largest {
                self.largest_file = Some((info.name.clone(), info.size));
            }
            let replace_smallest = match &self.smallest_file {
                Some((_, smallest)) => info.size < *smallest,
                None => true,
            };
            if replace_smallest {
                self.smallest_file = Some((info.name.clone(), info.size));
            }
        }
        if info.is_symlink {
            self.symlinks += 1;
        }
    }

    /// Works out the average size of the files, where there is a file.
    pub fn finalize(&mut self)
        ensures
            final(self).avg_file_size == if old(self).total_files > 0 {
                old(self).total_size as int / old(self).total_files as int
            } else {
                old(self).avg_file_size as int
            },
            final(self).total_files == old(self).total_files,
            final(self).total_dirs == old(self).total_dirs,
            final(self).total_size == old(self).total_size,
            final(self).file_types == old(self).file_types,
            final(self).largest_file == old(self).largest_file,
            final(self).smallest_file == old(self).smallest_file,
            final(self).symlinks == old(self).symlinks,
    {
        if self.total_files > 0 {
            self.avg_file_size = self.total_size / (self.total_files as u64);
        }
    }
}

/// Counts one more file under an extension.
pub fn count_type(types: &mut Vec<(String, usize)>, extension: String)
    requires
        distinct_types(old(types)@),
        forall|i: int| 0 <= i < old(types)@.len() ==> (#[trigger] old(types)@[i]).1 < usize::MAX,
    ensures
        distinct_types(final(types)@),
        forall|ext: Seq<char>|
            #[trigger] type_count(final(types)@, ext, final(types)@.len()) == type_count(
                old(types)@,
                ext,
                old(types)@.len(),
            ) + if ext == extension@ {
                1int
            } else {
                0int
            },
{
    let mut i: usize = 0;
    while i < types.len()
        invariant
            i <= types@.len(),
            types@ == old(types)@,
            distinct_types(types@),
            forall|k: int| 0 <= k < types@.len() ==> (#[trigger] types@[k]).1 < usize::MAX,
            forall|k: int| 0 <= k < i ==> (#[trigger] types@[k]).0@ != extension@,
        decreases types@.len() - i,
    {
        if same_text(types[i].0.as_str(), extension.as_str()) {
            let count = types[i].1;
            let ghost before = types@;
            types.set(i, (extension, count + 1));
            proof {
                assert forall|a: int, b: int| 0 <= a < b < types@.len() implies (#[trigger] types@[a]).0@
                    != (#[trigger] types@[b]).0@ by {
                    assert(before[a].0@ != before[b].0@);
                }
                assert forall|ext: Seq<char>|
                    #[trigger] type_count(types@, ext, types@.len()) == type_count(
                        before,
                        ext,
                        before.len(),
                    ) + if ext == extension@ {
                        1int
                    } else {
                        0int
                    } by {
                    lemma_count_after_set(before, types@, i as int, ext, types@.len());
                }
            }
            return ;
        }
        i += 1;
    }
    let ghost before = types@;
    types.push((extension, 1));
    proof {
        assert forall|a: int, b: int| 0 <= a < b < types@.len() implies (#[trigger] types@[a]).0@
            != (#[trigger] types@[b]).0@ by {
            if b < before.len() {
                assert(before[a].0@ != before[b].0@);
            } else {
                assert(before[a].0@ != extension@);
            }
        }
        assert forall|ext: Seq<char>|
            #[trigger] type_count(types@, ext, types@.len()) == type_count(
                before,
                ext,
                before.len(),
            ) + if ext == extension@ {
                1int
            } else {
                0int
            } by {
            lemma_count_prefix(before, types@, ext, before.len());
        }
    }
}

proof fn lemma_count_prefix(a: Seq<(String, usize)>, b: Seq<(String, usize)>, ext: Seq<char>, n: nat)
    requires
        n <= a.len() <= b.len(),
        forall|i: int| 0 <= i < n ==> a[i] == b[i],
    ensures
        type_count(a, ext, n) == type_count(b, ext, n),
    decreases n,
{
    if n > 0 {
        lemma_count_prefix(a, b, ext, (n - 1) as nat);
    }
}

proof fn lemma_count_after_set(
    a: Seq<(String, usize)>,
    b: Seq<(String, usize)>,
    at: int,
    ext: Seq<char>,
    n: nat,
)
    requires
        0 <= at < a.len(),
        a.len() == b.len(),
        n <= a.len(),
        forall|i: int| 0 <= i < a.len() && i != at ==> a[i] == b[i],
        b[at].0@ == a[at].0@,
        b[at].1 == a[at].1 + 1,
    ensures
        type_count(b, ext, n) == type_count(a, ext, n) + if n > at && ext == a[at].0@ {
            1int
        } else {
            0int
        },
    decreases n,
{
    if n > 0 {
        lemma_count_after_set(a, b, at, ext, (n - 1) as nat);
    }
}

} // verus!
