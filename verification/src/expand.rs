//! Expanding the leading tilde of a path.

use crate::error::HomeDirError;
use crate::path::expanded;
use crate::path::join;
use crate::path::strip_tilde;
use crate::path::tilde_prefixed;
use crate::resolve::system_home_dir;
use crate::resolve::validate_home_dir;
use std::borrow::Cow;
use vstd::prelude::*;

verus! {

/// Expands the leading tilde of `path` into `home_dir`.
///
/// A path whose first segment is exactly the tilde comes back as `home_dir`
/// joined with what follows that segment. Any other path, the empty one and
/// one that begins with a segment such as `~user` among them, comes back
/// borrowed and unchanged.
pub fn expand_tilde_with<'a>(path: &'a [u8], home_dir: &[u8]) -> (result: Cow<'a, [u8]>)
    ensures
        result@ == expanded(path@, home_dir@),
        result matches Cow::Borrowed(_) <==> !tilde_prefixed(path@),
{
    match strip_tilde(path) {
        None => Cow::Borrowed(path),
        Some(rest) => Cow::Owned(join(home_dir, rest)),
    }
}

/// Expands the leading tilde of `path` into the home directory that the
/// system gave as `found`.
///
/// The system's answer is checked first, whether or not `path` holds a
/// tilde: without a home directory that can serve, the error comes back and
/// nothing is expanded.
pub fn expand_tilde_from<'a>(path: &'a [u8], found: Option<Vec<u8>>) -> (result: Result<
    Cow<'a, [u8]>,
    HomeDirError,
>)
    ensures
        found is None <==> result matches Err(HomeDirError::NotFounded),
        (found matches Some(dir) && dir@.len() == 0) <==> result matches Err(HomeDirError::Empty),
        (found matches Some(dir) && dir@.len() > 0) <==> result is Ok,
        result matches Ok(out) ==> out@ == expanded(path@, found.unwrap()@),
        result matches Ok(out) ==> (out matches Cow::Borrowed(_) <==> !tilde_prefixed(path@)),
{
    match validate_home_dir(found) {
        Ok(home_dir) => Ok(expand_tilde_with(path, home_dir.as_slice())),
        Err(error) => Err(error),
    }
}

/// Expands the leading tilde of `path` into the home directory of the
/// current user.
///
/// To expand many paths, ask for the home directory once, with
/// [`home_dir`](crate::resolve::home_dir), and hand it to
/// [`expand_tilde_with`].
pub fn expand_tilde<'a>(path: &'a [u8]) -> (result: Result<Cow<'a, [u8]>, HomeDirError>)
    ensures
        result matches Ok(out) ==> exists|home_dir: Seq<u8>|
            home_dir.len() > 0 && out@ == #[trigger] expanded(path@, home_dir),
        result matches Ok(out) ==> (out matches Cow::Borrowed(_) <==> !tilde_prefixed(path@)),
{
    expand_tilde_from(path, system_home_dir())
}

} // verus!
