use vstd::prelude::*;

verus! {

/// What `std::path::Path::join` makes of `base` and `tail`.
pub uninterp spec fn joined_path(base: Seq<char>, tail: Seq<char>) -> Seq<char>;

/// What `std::path::Path::strip_prefix` leaves of `path` once `prefix` is
/// taken off its front.
pub uninterp spec fn path_after_prefix(path: Seq<char>, prefix: Seq<char>) -> Option<Seq<char>>;

/// The components that `std::path::Path::components` finds in `path`.
pub uninterp spec fn path_components(path: Seq<char>) -> Seq<Seq<char>>;

/// What `std::path::PathBuf::push` makes of `base` extended by `part`.
pub uninterp spec fn pushed_path(base: Seq<char>, part: Seq<char>) -> Seq<char>;

/// Calls `std::path::Path::join`; the result is the name `joined_path` of
/// the two arguments. Both are UTF-8, so the joined path is too and the
/// conversion back to a string loses nothing.
#[verifier::external_body]
pub(crate) fn join_path(base: &str, tail: &str) -> (r: String)
    ensures
        r@ == joined_path(base@, tail@),
{
    std::path::Path::new(base).join(tail).to_string_lossy().into_owned()
}

/// Calls `std::path::Path::strip_prefix`; the result is the name
/// `path_after_prefix` of the two arguments. Where std reports that `prefix`
/// is not a prefix of `path`, the result is the text of std's
/// `StripPrefixError` (its `Display`), of which nothing is stated.
#[verifier::external_body]
pub(crate) fn strip_path_prefix(path: &str, prefix: &str) -> (r: Result<String, String>)
    ensures
        match r {
            Ok(p) => path_after_prefix(path@, prefix@) == Some(p@),
            Err(_) => path_after_prefix(path@, prefix@) is None,
        },
{
    std::path::Path::new(path)
        .strip_prefix(prefix)
        .map(|p| p.to_string_lossy().into_owned())
        .map_err(|e| e.to_string())
}

/// Calls `std::path::Path::components` and hands each component out as a
/// string; the result is the name `path_components` of the argument.
#[verifier::external_body]
pub(crate) fn components_of(path: &str) -> (r: Vec<String>)
    ensures
        r@.map_values(|c: String| c@) == path_components(path@),
{
    std::path::Path::new(path).components().map(|c| c.as_os_str().to_string_lossy().into_owned()).collect()
}

/// Calls `std::path::PathBuf::push`; the result is the name `pushed_path` of
/// the two arguments.
#[verifier::external_body]
pub(crate) fn push_path(base: &str, part: &str) -> (r: String)
    ensures
        r@ == pushed_path(base@, part@),
{
    let mut p = std::path::PathBuf::from(base);
    p.push(part);
    p.to_string_lossy().into_owned()
}

} // verus!
