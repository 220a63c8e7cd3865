//! File-path components, computed by `std::path::Path`.

use vstd::prelude::*;

verus! {

/// The file stem (`Path::file_stem`) of the path spelled `p`: the final
/// component without its extension, if there is a final component.
pub uninterp spec fn path_file_stem(p: Seq<char>) -> Option<Seq<char>>;

/// The file name (`Path::file_name`) of the path spelled `p`: its final
/// component, if there is one.
pub uninterp spec fn path_file_name(p: Seq<char>) -> Option<Seq<char>>;

/// `std::path::Path::file_stem` on `path`, as a string. A stem taken from
/// a `&str` is valid UTF-8, so the conversion back never fails.
#[verifier::external_body]
pub(crate) fn file_stem_of(path: &str) -> (r: Option<String>)
    ensures
        (match r {
            Some(s) => Some(s@),
            None => None::<Seq<char>>,
        }) == path_file_stem(path@),
{
    std::path::Path::new(path).file_stem().map(|s| s.to_string_lossy().into_owned())
}

/// `std::path::Path::file_name` on `path`, as a string.
#[verifier::external_body]
pub(crate) fn file_name_of(path: &str) -> (r: Option<String>)
    ensures
        (match r {
            Some(s) => Some(s@),
            None => None::<Seq<char>>,
        }) == path_file_name(path@),
{
    std::path::Path::new(path).file_name().map(|s| s.to_string_lossy().into_owned())
}

} // verus!
