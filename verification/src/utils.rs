//! Small helpers on paths and permissions.

use crate::paths::{extension_of, file_name_of, path_extension, path_file_name};
use crate::sizes::ends_with;
use crate::textfmt::{chars_of, lowercased, pieces, split_on, to_lower};
use crate::viewer::highlight::{matches_at, stands_at};
use vstd::prelude::*;
use vstd::string::*;

verus! {

/// Whether a file name marks a hidden file: it starts with a dot.
pub open spec fn is_hidden_name(name: Option<Seq<char>>) -> bool {
    match name {
        Some(n) => n.len() > 0 && n[0] == '.',
        None => false,
    }
}

/// Whether the file at `path` is hidden: its file name starts with a dot.
pub fn is_hidden(path: &str) -> (hidden: bool)
    ensures
        hidden == is_hidden_name(path_file_name(path@)),
{
    match file_name_of(path) {
        Some(name) => {
            let chars = chars_of(name.as_str());
            chars.len() > 0 && chars[0] == '.'
        },
        None => false,
    }
}

/// The extension of the file at `path`, in lower case.
pub fn get_file_extension(path: &str) -> (ext: Option<String>)
    ensures
        match ext {
            Some(e) => path_extension(path@) is Some && e@ == lowercased(path_extension(path@)->0),
            None => path_extension(path@) is None,
        },
{
    match extension_of(path) {
        Some(ext) => Some(to_lower(ext.as_str())),
        None => None,
    }
}

/// The letter of a permission bit: `letter` where the bit is set, a dash
/// where it is not.
pub open spec fn permission_char(mode: u32, bit: u32, letter: char) -> char {
    if mode & bit != 0 {
        letter
    } else {
        '-'
    }
}

/// The nine letters of the permissions of a mode: read, write and execute
/// for the owner, the group and the others.
pub open spec fn permissions_text(mode: u32) -> Seq<char> {
    seq![
        permission_char(mode, 0o400, 'r'),
        permission_char(mode, 0o200, 'w'),
        permission_char(mode, 0o100, 'x'),
        permission_char(mode, 0o040, 'r'),
        permission_char(mode, 0o020, 'w'),
        permission_char(mode, 0o010, 'x'),
        permission_char(mode, 0o004, 'r'),
        permission_char(mode, 0o002, 'w'),
        permission_char(mode, 0o001, 'x'),
    ]
}

fn permission_letter(mode: u32, bit: u32, letter: char) -> (c: char)
    ensures
        c == permission_char(mode, bit, letter),
{
    if mode & bit != 0 {
        letter
    } else {
        '-'
    }
}

/// The permissions of a mode as nine letters, such as `rwxr-xr--`.
pub fn format_permissions(mode: u32) -> (perms: String)
    ensures
        perms@ == permissions_text(mode),
{
    let mut perms = String::new();
    perms.push(permission_letter(mode, 0o400, 'r'));
    perms.push(permission_letter(mode, 0o200, 'w'));
    perms.push(permission_letter(mode, 0o100, 'x'));
    perms.push(permission_letter(mode, 0o040, 'r'));
    perms.push(permission_letter(mode, 0o020, 'w'));
    perms.push(permission_letter(mode, 0o010, 'x'));
    perms.push(permission_letter(mode, 0o004, 'r'));
    perms.push(permission_letter(mode, 0o002, 'w'));
    perms.push(permission_letter(mode, 0o001, 'x'));
    proof {
        assert(perms@ =~= permissions_text(mode));
    }
    perms
}

/// Whether the regular expression `pattern` matches somewhere in `text`,
/// as the `regex` crate finds it; nothing where `pattern` is no regular
/// expression.
pub uninterp spec fn regex_match(pattern: Seq<char>, text: Seq<char>) -> Option<bool>;

/// Builds a regular expression with `regex::Regex::new` and searches a
/// text with `Regex::is_match`.
#[verifier::external_body]
fn regex_is_match(pattern: &str, text: &str) -> (found: Option<bool>)
    ensures
        found == regex_match(pattern@, text@),
{
    match regex::Regex::new(pattern) {
        Ok(re) => Some(re.is_match(text)),
        Err(_) => None,
    }
}

/// The digest of bytes by MD5, in 32 hexadecimal digits, as the `md5`
/// crate computes it.
pub uninterp spec fn md5_hex(content: Seq<u8>) -> Seq<char>;

/// Computes a digest with `md5::compute` and writes it in hexadecimal.
#[verifier::external_body]
fn md5_of(content: &[u8]) -> (digest: String)
    ensures
        digest@ == md5_hex(content@),
{
    format!("{:x}", md5::compute(content))
}

/// The MD5 checksum of the content of a file.
pub fn calculate_md5(content: &[u8]) -> (digest: String)
    ensures
        digest@ == md5_hex(content@),
{
    md5_of(content)
}

/// Whether `pat` stands somewhere in `s`.
pub open spec fn contains_text(s: Seq<char>, pat: Seq<char>) -> bool {
    exists|at: int| 0 <= at <= s.len() && #[trigger] matches_at(s, at, pat)
}

/// Whether `s` starts with `pat`.
pub open spec fn starts_with(s: Seq<char>, pat: Seq<char>) -> bool {
    matches_at(s, 0, pat)
}

/// Whether a pattern with a star matches a path: a pattern with one star
/// matches what starts with the part before the star and ends with the part
/// behind it; any other pattern matches what holds it.
pub open spec fn wildcard_match(path: Seq<char>, pattern: Seq<char>) -> bool {
    let parts = pieces(pattern, '*');
    if parts.len() == 2 {
        starts_with(path, parts[0]) && ends_with(path, parts[1])
    } else {
        contains_text(path, pattern)
    }
}

/// Whether a pattern matches a path: as a regular expression where it is
/// one, and else without regard to case as a pattern with a star.
pub open spec fn pattern_matches(path: Seq<char>, pattern: Seq<char>) -> bool {
    match regex_match(pattern, path) {
        Some(found) => found,
        None => wildcard_match(lowercased(path), lowercased(pattern)),
    }
}

fn holds_text(s: &Vec<char>, pat: &Vec<char>) -> (found: bool)
    ensures
        found == contains_text(s@, pat@),
{
    let mut at: usize = 0;
    while at < s.len()
        invariant
            at <= s@.len(),
            forall|k: int| 0 <= k < at ==> !matches_at(s@, k, pat@),
        decreases s@.len() - at,
    {
        if stands_at(s, at, pat) {
            return true;
        }
        at += 1;
    }
    stands_at(s, at, pat)
}

fn ends_in(s: &Vec<char>, pat: &Vec<char>) -> (found: bool)
    ensures
        found == ends_with(s@, pat@),
{
    if pat.len() > s.len() {
        return false;
    }
    let found = stands_at(s, s.len() - pat.len(), pat);
    proof {
        assert(s@.skip(s@.len() - pat@.len()) =~= s@.subrange(
            s@.len() - pat@.len(),
            s@.len() as int,
        ));
    }
    found
}

/// Whether a pattern with a star matches a path, both as they are.
pub fn wildcard_matches(path: &str, pattern: &str) -> (found: bool)
    ensures
        found == wildcard_match(path@, pattern@),
{
    let p = chars_of(path);
    let parts = split_on(pattern, '*');
    proof {
        if parts@.len() == 2 {
            assert(parts.deep_view()[0] == parts@[0]@);
            assert(parts.deep_view()[1] == parts@[1]@);
        }
    }
    if parts.len() == 2 {
        let head = chars_of(parts[0].as_str());
        let tail = chars_of(parts[1].as_str());
        stands_at(&p, 0, &head) && ends_in(&p, &tail)
    } else {
        let whole = chars_of(pattern);
        holds_text(&p, &whole)
    }
}

/// Whether a pattern matches a path. A pattern that is a regular
/// expression matches as one. Any other pattern is compared in lower case:
/// with one star as a start and an end, else as a part of the path.
pub fn matches_pattern(path: &str, pattern: &str) -> (found: bool)
    ensures
        found == pattern_matches(path@, pattern@),
{
    match regex_is_match(pattern, path) {
        Some(found) => found,
        None => {
            let lower_path = to_lower(path);
            let lower_pattern = to_lower(pattern);
            wildcard_matches(lower_path.as_str(), lower_pattern.as_str())
        },
    }
}

/// Number of files and of directories among the entries of a directory,
/// of each of which `is_dir` says whether it is a directory.
pub open spec fn entry_counts(is_dir: Seq<bool>, count: nat) -> (nat, nat)
    decreases count,
{
    if count == 0 || count > is_dir.len() {
        (0, 0)
    } else {
        let before = entry_counts(is_dir, (count - 1) as nat);
        if is_dir[count - 1] {
            (before.0, before.1 + 1)
        } else {
            (before.0 + 1, before.1)
        }
    }
}

/// Counts the files and the directories among the entries of a directory.
pub fn count_entries(is_dir: &[bool]) -> (counts: (usize, usize))
    ensures
        (counts.0 as nat, counts.1 as nat) == entry_counts(is_dir@, is_dir@.len()),
{
    let mut files: usize = 0;
    let mut dirs: usize = 0;
    let mut i: usize = 0;
    while i < is_dir.len()
        invariant
            i <= is_dir@.len(),
            (files as nat, dirs as nat) == entry_counts(is_dir@, i as nat),
            files + dirs == i,
        decreases is_dir@.len() - i,
    {
        if is_dir[i] {
            dirs += 1;
        } else {
            files += 1;
        }
        i += 1;
    }
    (files, dirs)
}

} // verus!
