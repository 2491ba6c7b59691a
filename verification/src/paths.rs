//! What std's `Path` reads out of a path: its file name, its extension,
//! its parent. `Path` takes a text apart by the platform's syntax of paths,
//! so each name here stands for what it gives on the platform that the
//! library is built for.

use vstd::prelude::*;

verus! {

/// The extension that `Path::extension` finds in a path: the part of the
/// file name behind its last dot, where the name has one that is not its
/// first character.
pub uninterp spec fn path_extension(path: Seq<char>) -> Option<Seq<char>>;

/// The file name that `Path::file_name` finds in a path: its last
/// component, where that is a name.
pub uninterp spec fn path_file_name(path: Seq<char>) -> Option<Seq<char>>;

/// The extension of a path, by `Path::extension`.
#[verifier::external_body]
pub(crate) fn extension_of(path: &str) -> (ext: Option<String>)
    ensures
        ext is Some == path_extension(path@) is Some,
        ext matches Some(e) ==> Some(e@) == path_extension(path@),
{
    match std::path::Path::new(path).extension() {
        Some(ext) => ext.to_str().map(|e| e.to_string()),
        None => None,
    }
}

/// The file name of a path, by `Path::file_name`.
#[verifier::external_body]
pub(crate) fn file_name_of(path: &str) -> (name: Option<String>)
    ensures
        name is Some == path_file_name(path@) is Some,
        name matches Some(n) ==> Some(n@) == path_file_name(path@),
{
    match std::path::Path::new(path).file_name() {
        Some(name) => name.to_str().map(|n| n.to_string()),
        None => None,
    }
}

/// The parent that `Path::parent` finds for a path: the path without
/// its last component.
pub uninterp spec fn path_parent(path: Seq<char>) -> Option<Seq<char>>;

/// What `Path::strip_prefix` leaves of a path below a base, where the path
/// lies below it.
pub uninterp spec fn path_below(path: Seq<char>, base: Seq<char>) -> Option<Seq<char>>;

/// Whether two texts are equal as paths, by the `==` of `Path`, which
/// compares component by component.
pub uninterp spec fn paths_equal(a: Seq<char>, b: Seq<char>) -> bool;

/// The parent of a path, by `Path::parent`.
#[verifier::external_body]
pub(crate) fn parent_of(path: &str) -> (parent: Option<String>)
    ensures
        parent is Some == path_parent(path@) is Some,
        parent matches Some(p) ==> Some(p@) == path_parent(path@),
{
    match std::path::Path::new(path).parent() {
        Some(parent) => parent.to_str().map(|p| p.to_string()),
        None => None,
    }
}

/// A path relative to a base, by `Path::strip_prefix`.
#[verifier::external_body]
pub(crate) fn strip_prefix_of(path: &str, base: &str) -> (rest: Option<String>)
    ensures
        rest is Some == path_below(path@, base@) is Some,
        rest matches Some(r) ==> Some(r@) == path_below(path@, base@),
{
    match std::path::Path::new(path).strip_prefix(base) {
        Ok(rest) => rest.to_str().map(|r| r.to_string()),
        Err(_) => None,
    }
}

/// Whether two texts are the same path, by the `==` of `Path`.
#[verifier::external_body]
pub(crate) fn same_path(a: &str, b: &str) -> (same: bool)
    ensures
        same == paths_equal(a@, b@),
{
    std::path::Path::new(a) == std::path::Path::new(b)
}

} // verus!
