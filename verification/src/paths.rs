//! The two path operations of std that the dock rules rely on. Both follow
//! the path syntax of the platform that the library is built for (which
//! characters separate components, which prefixes a path may have), fixed
//! when the library is compiled.
use vstd::prelude::*;

verus! {

/// The stem of the file name of a path under the path syntax of the target
/// platform, as `std::path::Path::file_stem` computes it.
pub uninterp spec fn file_stem_of(path: Seq<char>) -> Option<Seq<char>>;

/// A text as an optional view.
pub open spec fn opt_view(text: Option<String>) -> Option<Seq<char>> {
    match text {
        Some(t) => Some(t@),
        None => None,
    }
}

/// `std::path::Path::file_stem`, with the stem converted lossily to UTF-8:
/// the file name without its final extension, or `None` when the path has
/// no file name. The contract names the result as a function of the path
/// text; the platform's path syntax that decides it is not restated.
#[verifier::external_body]
pub(crate) fn file_stem(path: &str) -> (stem: Option<String>)
    ensures
        opt_view(stem) == file_stem_of(path@),
{
    match std::path::Path::new(path).file_stem() {
        Some(stem) => Some(stem.to_string_lossy().into_owned()),
        None => None,
    }
}

/// Whether two path texts name the same path as std compares paths
/// (component by component) under the path syntax of the target platform.
pub uninterp spec fn paths_equal(a: Seq<char>, b: Seq<char>) -> bool;

/// `PartialEq` for `std::path::Path`: whether two paths have the same
/// components. The contract names the result as a function of the two texts,
/// and states that equal texts are equal paths (`Path` is `Eq`, so its
/// equality is reflexive); which different texts name the same path follows
/// the platform's path syntax and is not restated.
#[verifier::external_body]
pub(crate) fn same_path(a: &str, b: &str) -> (same: bool)
    ensures
        same == paths_equal(a@, b@),
        a@ == b@ ==> same,
{
    std::path::Path::new(a) == std::path::Path::new(b)
}

/// Whether a path text is absolute under the path syntax of the target
/// platform, as `std::path::Path::is_absolute` decides.
pub uninterp spec fn path_is_absolute(path: Seq<char>) -> bool;

/// `std::path::Path::is_absolute`. The contract names the result as a
/// function of the path text; what makes a path absolute (a root, and on
/// some platforms a prefix) is not restated.
#[verifier::external_body]
pub(crate) fn is_absolute(path: &str) -> (absolute: bool)
    ensures
        absolute == path_is_absolute(path@),
{
    std::path::Path::new(path).is_absolute()
}

/// The text of `base` joined with `path` under the path syntax of the target
/// platform, as `std::path::Path::join` builds it.
pub uninterp spec fn path_joined(base: Seq<char>, path: Seq<char>) -> Seq<char>;

/// `std::path::Path::join`, with the joined path converted back to text (a
/// join of two UTF-8 texts is UTF-8, so the conversion loses nothing). The
/// contract names the result as a function of the two texts; where the
/// separator goes and when `path` replaces `base` is not restated.
#[verifier::external_body]
pub(crate) fn join(base: &str, path: &str) -> (joined: String)
    ensures
        joined@ == path_joined(base@, path@),
{
    std::path::Path::new(base).join(path).to_string_lossy().into_owned()
}

} // verus!
