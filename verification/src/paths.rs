//! Path operations delegated to the standard library's path grammar.

use vstd::prelude::*;

verus! {

/// What `std::path::Path::join` yields for `base` extended by `part`, as
/// text, under the path grammar of the target this crate is built for.
pub uninterp spec fn joined_path(base: Seq<char>, part: Seq<char>) -> Seq<char>;

/// Whether `std::path::Path::is_absolute` holds of `path` under the path
/// grammar of the target this crate is built for.
pub uninterp spec fn absolute_path(path: Seq<char>) -> bool;

/// Calls `Path::join` on `base` with `part`. The contract only gives the
/// result its name, [`joined_path`]; the joining rules themselves are the
/// standard library's.
#[verifier::external_body]
pub(crate) fn join_path(base: &str, part: &str) -> (joined: String)
    ensures
        joined@ == joined_path(base@, part@),
{
    std::path::Path::new(base).join(part).to_string_lossy().into_owned()
}

/// Calls `Path::is_absolute`. The contract only gives the result its name,
/// [`absolute_path`].
#[verifier::external_body]
pub(crate) fn is_absolute(path: &str) -> (absolute: bool)
    ensures
        absolute == absolute_path(path@),
{
    std::path::Path::new(path).is_absolute()
}

/// Calls `Path::is_relative`, which the standard library documents as the
/// negation of `Path::is_absolute`.
#[verifier::external_body]
pub(crate) fn is_relative(path: &str) -> (relative: bool)
    ensures
        relative == !absolute_path(path@),
{
    std::path::Path::new(path).is_relative()
}

} // verus!
