//! What the library asks of a path's text.
//!
//! Paths reach the library as text. Taking a path apart is left to
//! `std::path`, which knows the platform's separators; each question asked of
//! it is a trusted function whose answer gets a name, so that contracts can
//! speak of it. The names stand for what `std::path` answers on the platform
//! the crate is built for.

use crate::text::text_of;
use vstd::prelude::*;

verus! {

/// The extension that `std::path::Path::extension` finds in a path.
pub uninterp spec fn path_extension(path: Seq<char>) -> Option<Seq<char>>;

/// The final component that `std::path::Path::file_name` finds in a path.
pub uninterp spec fn path_file_name(path: Seq<char>) -> Option<Seq<char>>;

/// The path without its final component, as `std::path::Path::parent` gives it.
pub uninterp spec fn path_parent(path: Seq<char>) -> Option<Seq<char>>;

/// Trusted: `std::path::Path::extension` on the path that `path` spells. The
/// result is the text after the final `.` of the file name, `None` where the
/// path has no file name or the file name has no such part. The contract
/// claims only that the answer depends on the path's text alone.
#[verifier::external_body]
pub(crate) fn extension_of(path: &str) -> (extension: Option<String>)
    ensures
        text_of(extension) == path_extension(path@),
{
    std::path::Path::new(path).extension().and_then(|part| part.to_str()).map(|part| part.to_string())
}

/// Trusted: `std::path::Path::file_name` on the path that `path` spells: the
/// final component, `None` where the path ends in `..` or has no component.
/// The contract claims only that the answer depends on the path's text alone.
#[verifier::external_body]
pub(crate) fn file_name_of(path: &str) -> (name: Option<String>)
    ensures
        text_of(name) == path_file_name(path@),
{
    std::path::Path::new(path).file_name().and_then(|part| part.to_str()).map(|part| part.to_string())
}

/// Trusted: `std::path::Path::parent` on the path that `path` spells: the
/// path without its final component, `None` where the path ends in a root or
/// is empty. The contract claims only that the answer depends on the path's
/// text alone.
#[verifier::external_body]
pub(crate) fn parent_of(path: &str) -> (parent: Option<String>)
    ensures
        text_of(parent) == path_parent(path@),
{
    std::path::Path::new(path).parent().and_then(|part| part.to_str()).map(|part| part.to_string())
}

} // verus!
