//! What this crate takes on trust of `std::path`.

use std::path::PathBuf;
use vstd::prelude::*;

verus! {

/// `std::path::PathBuf`, an owned path of the file system.
#[verifier::external_type_specification]
#[verifier::external_body]
pub struct ExPathBuf(PathBuf);

/// The text of a path, where it has one: what `Path::to_str` returns for it.
pub uninterp spec fn path_text(path: &PathBuf) -> Option<Seq<char>>;

/// `Path::to_str` returns the path as text where the path is valid Unicode,
/// and `None` where it is not. The text depends on the path alone.
#[verifier::external_body]
pub(crate) fn path_to_str(path: &PathBuf) -> (text: Option<&str>)
    ensures
        text is Some <==> path_text(path) is Some,
        text matches Some(t) ==> path_text(path) == Some(t@),
{
    path.to_str()
}

} // verus!
