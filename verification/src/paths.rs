//! Filesystem path manipulations on UTF-8 paths, through std's `Path`.
//!
//! Paths are held as `String`s. Each std operation is named by an
//! uninterpreted spec function; the name stands for what std computes for
//! the target the library is built for.

use vstd::prelude::*;

verus! {

/// What `Path::join` gives for `base` and `rel`.
pub uninterp spec fn std_path_join(base: Seq<char>, rel: Seq<char>) -> Seq<char>;

/// What `Path::starts_with` gives: `base` is a whole-component prefix of
/// `path`.
pub uninterp spec fn std_path_starts_with(path: Seq<char>, base: Seq<char>) -> bool;

/// What `Path::parent` gives for `path`.
pub uninterp spec fn std_path_parent(path: Seq<char>) -> Option<Seq<char>>;

/// What `Path::file_name` gives for `path`.
pub uninterp spec fn std_path_file_name(path: Seq<char>) -> Option<Seq<char>>;

/// What `Path::extension` gives for `path`.
pub uninterp spec fn std_path_extension(path: Seq<char>) -> Option<Seq<char>>;

/// Joins `rel` onto `base`.
///
/// Trusted: calls `Path::join`. Both arguments are UTF-8, so the joined
/// path is UTF-8 and the lossy conversion back to a `String` loses nothing.
/// Claims only that the result is `std_path_join` of the arguments.
#[verifier::external_body]
pub(crate) fn path_join(base: &str, rel: &str) -> (r: String)
    ensures
        r@ == std_path_join(base@, rel@),
{
    std::path::Path::new(base).join(rel).to_string_lossy().into_owned()
}

/// Whether `base` is a whole-component prefix of `path`.
///
/// Trusted: calls `Path::starts_with`; claims only that the result is
/// `std_path_starts_with` of the arguments.
#[verifier::external_body]
pub(crate) fn path_starts_with(path: &str, base: &str) -> (r: bool)
    ensures
        r == std_path_starts_with(path@, base@),
{
    std::path::Path::new(path).starts_with(base)
}

/// The parent of `path`, if it has one.
///
/// Trusted: calls `Path::parent`; a parent is a prefix of a UTF-8 path cut
/// at a separator, so it is UTF-8 too. Claims only that the result is
/// `std_path_parent` of the argument.
#[verifier::external_body]
pub(crate) fn path_parent(path: &str) -> (r: Option<String>)
    ensures
        r matches Some(p) ==> std_path_parent(path@) == Some(p@),
        r is None ==> std_path_parent(path@) is None,
{
    std::path::Path::new(path).parent().map(|p| p.to_string_lossy().into_owned())
}

/// The last component of `path`, if it is a normal file name.
///
/// Trusted: calls `Path::file_name`; claims only that the result is
/// `std_path_file_name` of the argument.
#[verifier::external_body]
pub(crate) fn path_file_name(path: &str) -> (r: Option<String>)
    ensures
        r matches Some(p) ==> std_path_file_name(path@) == Some(p@),
        r is None ==> std_path_file_name(path@) is None,
{
    std::path::Path::new(path).file_name().map(|p| p.to_string_lossy().into_owned())
}

/// The extension of the file name of `path`, if there is one.
///
/// Trusted: calls `Path::extension`; claims only that the result is
/// `std_path_extension` of the argument.
#[verifier::external_body]
pub(crate) fn path_extension(path: &str) -> (r: Option<String>)
    ensures
        r matches Some(p) ==> std_path_extension(path@) == Some(p@),
        r is None ==> std_path_extension(path@) is None,
{
    std::path::Path::new(path).extension().map(|p| p.to_string_lossy().into_owned())
}

} // verus!
