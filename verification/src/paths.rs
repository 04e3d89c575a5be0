//! File-system paths as strings, joined and split by `std::path` under the
//! path rules of the platform the crate is built for.

use vstd::prelude::*;
use std::path::Path;

verus! {

/// The path `std::path::Path::join` makes of `base` and `part`.
pub uninterp spec fn path_join(base: Seq<char>, part: Seq<char>) -> Seq<char>;

/// Whether `std::path::Path::is_absolute` holds of `path`.
pub uninterp spec fn path_is_absolute(path: Seq<char>) -> bool;

/// The parent that `std::path::Path::parent` gives `path`, if any.
pub uninterp spec fn path_parent(path: Seq<char>) -> Option<Seq<char>>;

/// Calls `std::path::Path::join`; the result is named by `path_join`, a function
/// of the two paths alone (for the platform's path rules). Nothing more is stated:
/// how separators are placed is left to those rules.
#[verifier::external_body]
pub fn join(base: &str, part: &str) -> (res: String)
    ensures
        res@ == path_join(base@, part@),
{
    Path::new(base).join(part).to_string_lossy().into_owned()
}

/// Calls `std::path::Path::is_absolute`; the answer is named by `path_is_absolute`.
#[verifier::external_body]
pub fn is_absolute(path: &str) -> (res: bool)
    ensures
        res == path_is_absolute(path@),
{
    Path::new(path).is_absolute()
}

/// Calls `std::path::Path::parent`; the parent (or its absence) is named by
/// `path_parent`.
#[verifier::external_body]
pub fn parent(path: &str) -> (res: Option<String>)
    ensures
        match res {
            Some(p) => path_parent(path@) == Some(p@),
            None => path_parent(path@) is None,
        },
{
    Path::new(path).parent().map(|p| p.to_string_lossy().into_owned())
}

} // verus!
