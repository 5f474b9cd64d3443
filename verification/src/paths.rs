//! Paths: telling absolute from relative, and joining.

use crate::text::maybe_text;
use vstd::prelude::*;

verus! {

/// Whether `path` is absolute, as `std::path::Path::is_absolute` tells on the
/// platform that the library is built for.
pub uninterp spec fn path_is_absolute(path: Seq<char>) -> bool;

/// `path` adjoined to `base`, as `std::path::Path::join` does it on the
/// platform that the library is built for.
pub uninterp spec fn path_join(base: Seq<char>, path: Seq<char>) -> Seq<char>;

/// `std::path::Path::is_absolute`. Trusted: the result is named
/// `path_is_absolute`.
#[verifier::external_body]
pub(crate) fn is_absolute(path: &str) -> (absolute: bool)
    ensures
        absolute == path_is_absolute(path@),
{
    std::path::Path::new(path).is_absolute()
}

/// `std::path::Path::join`. Trusted: the result is named `path_join`. Both
/// arguments are UTF-8, so the joined path is too, and turning it back into a
/// string loses nothing.
#[verifier::external_body]
pub(crate) fn join(base: &str, path: &str) -> (joined: String)
    ensures
        joined@ == path_join(base@, path@),
{
    std::path::Path::new(base).join(path).to_string_lossy().into_owned()
}

/// Where `path` points once it is resolved: itself if it is absolute, else
/// the path under the current directory; nothing if it is relative and the
/// current directory is not known.
pub open spec fn resolved(path: Seq<char>, current: Option<Seq<char>>) -> Option<Seq<char>> {
    if path_is_absolute(path) {
        Some(path)
    } else {
        match current {
            Some(c) => Some(path_join(c, path)),
            None => None,
        }
    }
}

/// Resolves `path` against the current directory. An absolute path comes
/// back unchanged whatever `current` is; a relative one is joined to
/// `current`, and cannot be resolved without it.
pub fn resolve_path(path: &str, current: &Option<String>) -> (r: Option<String>)
    ensures
        maybe_text(r) == resolved(path@, maybe_text(*current)),
{
    if is_absolute(path) {
        Some(String::from_str(path))
    } else {
        match current {
            Some(c) => Some(join(c.as_str(), path)),
            None => None,
        }
    }
}

} // verus!
